//! The row batcher: turns a stream of rows into the body of one
//! multi-row INSERT statement.
//!
//! The stream's length is unknown in advance, so the batcher keeps a
//! one-row lookahead buffer: a tuple is printed with a `,` terminator
//! only once the next tuple has arrived, and the final tuple — whichever
//! it turns out to be — is printed with the closing `;`.  A table with
//! no rows still yields one empty tuple `();`.

use vstd::prelude::*;

use crate::column::{Column, ColumnModel, format_value, format_value_spec};
use crate::text::{
    count_char,
    join_with,
    lemma_count_char_add,
    lemma_count_char_of_absent,
    lemma_count_char_one,
};

verus! {

/// The models of a sequence of columns.
pub open spec fn col_models(cols: Seq<Column>) -> Seq<ColumnModel> {
    cols.map_values(|c: Column| c@)
}

/// The literals of one row, in column order: the i-th literal is the
/// i-th raw value formatted for the i-th column.
pub open spec fn tuple_parts(cols: Seq<ColumnModel>, vals: Seq<Seq<char>>) -> Seq<Seq<char>> {
    Seq::new(cols.len(), |i: int| format_value_spec(vals[i], cols[i]))
}

/// The comma-joined inside of one row's tuple (without the parentheses).
pub open spec fn row_tuple_spec(cols: Seq<ColumnModel>, vals: Seq<Seq<char>>) -> Seq<char> {
    join_with(tuple_parts(cols, vals), ","@)
}

/// Formats one row as the inside of its tuple: the values in column
/// order, each formatted for its column, joined with commas.
pub fn format_row_tuple(cols: &Vec<Column>, vals: &Vec<String>) -> (r: String)
    requires
        vals@.len() == cols@.len(),
    ensures
        r@ == row_tuple_spec(col_models(cols@), vals.deep_view()),
{
    let ghost parts = tuple_parts(col_models(cols@), vals.deep_view());
    let mut out = String::new();
    let mut i: usize = 0;
    while i < cols.len()
        invariant
            vals@.len() == cols@.len(),
            i <= cols@.len(),
            parts == tuple_parts(col_models(cols@), vals.deep_view()),
            out@ == join_with(parts.take(i as int), ","@),
        decreases cols@.len() - i,
    {
        let piece = format_value(vals[i].as_str(), &cols[i]);
        if i > 0 {
            out.append(",");
        }
        out.append(piece.as_str());
        proof {
            assert(parts.take(i + 1).drop_last() =~= parts.take(i as int));
            assert(parts[i as int] == format_value_spec(vals.deep_view()[i as int], col_models(
                cols@,
            )[i as int]));
            if i == 0 {
                assert(out@ =~= join_with(parts.take(1), ","@));
            } else {
                assert(out@ =~= join_with(parts.take(i as int), ","@) + ","@ + parts[i as int]);
            }
        }
        i += 1;
    }
    proof {
        assert(parts.take(cols@.len() as int) =~= parts);
    }
    out
}

/// The one-row lookahead buffer: either empty or holding the tuple that
/// arrived last and has not been terminated yet.
pub struct RowBatcher {
    pending: Option<String>,
}

/// What the batcher emits when a new tuple displaces the buffered one:
/// nothing for an empty buffer, otherwise the buffered tuple as a
/// comma-terminated line.
pub open spec fn flush_line_spec(pending: Option<Seq<char>>) -> Seq<char> {
    match pending {
        Option::None => Seq::<char>::empty(),
        Option::Some(t) => "("@ + t + "),\n"@,
    }
}

/// The final line of the statement body: the buffered tuple (empty if
/// none ever arrived) terminated with the semicolon.
pub open spec fn final_line_spec(pending: Option<Seq<char>>) -> Seq<char> {
    match pending {
        Option::None => "();\n"@,
        Option::Some(t) => "("@ + t + ");\n"@,
    }
}

impl RowBatcher {
    /// The buffered tuple, if any.
    pub closed spec fn pending_model(self) -> Option<Seq<char>> {
        match self.pending {
            Option::None => Option::None,
            Option::Some(t) => Option::Some(t@),
        }
    }

    /// A batcher with an empty lookahead buffer.
    pub fn new() -> (b: RowBatcher)
        ensures
            b.pending_model() is None,
    {
        RowBatcher { pending: None }
    }

    /// Accepts the next tuple.  Returns the text to emit now: the
    /// previously buffered tuple terminated with `,`, or nothing if this
    /// is the first tuple.  The new tuple goes into the buffer.
    pub fn push(&mut self, tuple: String) -> (out: String)
        ensures
            final (self).pending_model() == Option::Some(tuple@),
            out@ == flush_line_spec(old(self).pending_model()),
    {
        let mut out = String::new();
        match &self.pending {
            Some(prev) => {
                out.append("(");
                out.append(prev.as_str());
                out.append("),\n");
            },
            None => {},
        }
        self.pending = Some(tuple);
        out
    }

    /// Ends the stream.  Returns the closing line: the buffered tuple —
    /// or an empty tuple if no row ever arrived — terminated with `;`.
    pub fn finish(self) -> (out: String)
        ensures
            out@ == final_line_spec(self.pending_model()),
    {
        let mut out = String::from_str("(");
        match &self.pending {
            Some(prev) => out.append(prev.as_str()),
            None => {},
        }
        out.append(");\n");
        proof {
            if self.pending_model() is None {
                reveal_strlit("(");
                reveal_strlit(");\n");
                reveal_strlit("();\n");
                assert(out@ =~= "();\n"@);
            }
        }
        out
    }
}

/// All the comma-terminated lines: each tuple but the last, wrapped in
/// parentheses and terminated with `,` and a line break.
pub open spec fn body_prefix_spec(tuples: Seq<Seq<char>>) -> Seq<char>
    decreases tuples.len(),
{
    if tuples.len() == 0 {
        Seq::<char>::empty()
    } else {
        body_prefix_spec(tuples.drop_last()) + "("@ + tuples.last() + "),\n"@
    }
}

/// The whole body of one INSERT statement for the given tuples: every
/// tuple on its own line, `,`-terminated except the last, which carries
/// the single `;`; one empty tuple `();` when there are no rows.
pub open spec fn insert_body_spec(tuples: Seq<Seq<char>>) -> Seq<char> {
    if tuples.len() == 0 {
        "();\n"@
    } else {
        body_prefix_spec(tuples.drop_last()) + "("@ + tuples.last() + ");\n"@
    }
}

/// The tuple insides of all rows of a table, in arrival order.
pub open spec fn row_tuples_spec(cols: Seq<ColumnModel>, rows: Seq<Seq<Seq<char>>>) -> Seq<
    Seq<char>,
> {
    rows.map_values(|vals: Seq<Seq<char>>| row_tuple_spec(cols, vals))
}

/// Streams the rows through a `RowBatcher` and returns the complete
/// INSERT body, proving that the lookahead scheme yields exactly the
/// closed-form body: N tuples for N rows (one empty tuple for none),
/// comma-separated, a single semicolon at the end.
pub fn insert_body(cols: &Vec<Column>, rows: &Vec<Vec<String>>) -> (r: String)
    requires
        forall|i: int| 0 <= i < rows@.len() ==> #[trigger] rows@[i]@.len() == cols@.len(),
    ensures
        r@ == insert_body_spec(row_tuples_spec(col_models(cols@), rows.deep_view())),
{
    let ghost tuples = row_tuples_spec(col_models(cols@), rows.deep_view());
    let mut batcher = RowBatcher::new();
    let mut out = String::new();
    let mut i: usize = 0;
    while i < rows.len()
        invariant
            forall|k: int| 0 <= k < rows@.len() ==> #[trigger] rows@[k]@.len() == cols@.len(),
            i <= rows@.len(),
            tuples == row_tuples_spec(col_models(cols@), rows.deep_view()),
            tuples.len() == rows@.len(),
            i == 0 ==> batcher.pending_model() is None && out@ =~= Seq::<char>::empty(),
            i > 0 ==> batcher.pending_model() == Option::Some(tuples[i - 1]) && out@
                == body_prefix_spec(tuples.take(i - 1)),
        decreases rows@.len() - i,
    {
        proof {
            assert(rows.deep_view()[i as int] == rows@[i as int].deep_view());
        }
        let tuple = format_row_tuple(cols, &rows[i]);
        assert(tuple@ == tuples[i as int]);
        let flushed = batcher.push(tuple);
        out.append(flushed.as_str());
        proof {
            if i > 0 {
                assert(tuples.take(i as int).drop_last() =~= tuples.take(i - 1));
                assert(out@ =~= body_prefix_spec(tuples.take(i - 1)) + "("@ + tuples[i - 1]
                    + "),\n"@);
                assert(tuples.take(i as int).last() == tuples[i - 1]);
            }
        }
        i += 1;
    }
    let last = batcher.finish();
    out.append(last.as_str());
    proof {
        if rows@.len() == 0 {
            assert(out@ =~= insert_body_spec(tuples));
        } else {
            assert(tuples.take(tuples.len() - 1) =~= tuples.drop_last());
            assert(out@ =~= body_prefix_spec(tuples.drop_last()) + "("@ + tuples.last() + ");\n"@);
        }
    }
    out
}

/// The punctuation counts of the fixed pieces of a body line.
proof fn lemma_piece_counts()
    ensures
        count_char("("@, ';') == 0,
        count_char("("@, '\n') == 0,
        count_char("),\n"@, ';') == 0,
        count_char("),\n"@, '\n') == 1,
        count_char(");\n"@, ';') == 1,
        count_char(");\n"@, '\n') == 1,
        count_char("();\n"@, ';') == 1,
        count_char("();\n"@, '\n') == 1,
{
    reveal_strlit("(");
    reveal_strlit("),\n");
    reveal_strlit(");\n");
    reveal_strlit("();\n");
    lemma_count_char_of_absent("("@, ';');
    lemma_count_char_of_absent("("@, '\n');
    lemma_count_char_of_absent("),\n"@, ';');
    lemma_count_char_one("),\n"@, 2, '\n');
    lemma_count_char_one(");\n"@, 1, ';');
    lemma_count_char_one(");\n"@, 2, '\n');
    lemma_count_char_one("();\n"@, 2, ';');
    lemma_count_char_one("();\n"@, 3, '\n');
}

/// Each comma-terminated line contributes to the count of `c` exactly
/// what its fixed pieces hold, when the tuples themselves hold no `c`.
proof fn lemma_body_prefix_count_of(tuples: Seq<Seq<char>>, c: char, k: nat)
    requires
        forall|i: int| 0 <= i < tuples.len() ==> count_char(#[trigger] tuples[i], c) == 0,
        count_char("("@, c) + count_char("),\n"@, c) == k,
    ensures
        count_char(body_prefix_spec(tuples), c) == tuples.len() * k,
    decreases tuples.len(),
{
    if tuples.len() == 0 {
        assert(0nat * k == 0) by (nonlinear_arith);
    } else {
        let front = tuples.drop_last();
        lemma_body_prefix_count_of(front, c, k);
        let a = body_prefix_spec(front);
        let b = a + "("@;
        let d = b + tuples.last();
        lemma_count_char_add(a, "("@, c);
        lemma_count_char_add(b, tuples.last(), c);
        lemma_count_char_add(d, "),\n"@, c);
        assert(front.len() * k + k == tuples.len() * k) by (nonlinear_arith)
            requires
                front.len() + 1 == tuples.len(),
        ;
    }
}

/// For any sequence of tuples — none of which holds a `;` or a line
/// break of its own — the batched INSERT body carries exactly one
/// semicolon, placed just before the final line break, and exactly one
/// line (hence one tuple) per row, with a single line for zero rows.
pub proof fn lemma_insert_body_punctuation(tuples: Seq<Seq<char>>)
    requires
        forall|i: int| 0 <= i < tuples.len() ==> count_char(#[trigger] tuples[i], ';') == 0
            && count_char(tuples[i], '\n') == 0,
    ensures
        count_char(insert_body_spec(tuples), ';') == 1,
        count_char(insert_body_spec(tuples), '\n') == if tuples.len() == 0 {
            1nat
        } else {
            tuples.len()
        },
        insert_body_spec(tuples).len() >= 2,
        insert_body_spec(tuples)[insert_body_spec(tuples).len() - 2] == ';',
        insert_body_spec(tuples)[insert_body_spec(tuples).len() - 1] == '\n',
{
    lemma_piece_counts();
    reveal_strlit("();\n");
    reveal_strlit(");\n");
    if tuples.len() > 0 {
        let front = tuples.drop_last();
        lemma_body_prefix_count_of(front, ';', 0);
        lemma_body_prefix_count_of(front, '\n', 1);
        assert(front.len() * 0nat == 0 && front.len() * 1nat == front.len()) by (nonlinear_arith);
        let a = body_prefix_spec(front);
        let b = a + "("@;
        let c = b + tuples.last();
        lemma_count_char_add(a, "("@, ';');
        lemma_count_char_add(a, "("@, '\n');
        lemma_count_char_add(b, tuples.last(), ';');
        lemma_count_char_add(b, tuples.last(), '\n');
        lemma_count_char_add(c, ");\n"@, ';');
        lemma_count_char_add(c, ");\n"@, '\n');
        assert(insert_body_spec(tuples)[insert_body_spec(tuples).len() - 2] == ");\n"@[1]);
        assert(insert_body_spec(tuples)[insert_body_spec(tuples).len() - 1] == ");\n"@[2]);
    }
}

/// The body holds exactly one tuple per row — counted by its enclosing
/// parentheses — and exactly one (empty) tuple for a table with no
/// rows, provided the tuples hold no parenthesis of their own.
pub proof fn lemma_insert_body_tuple_count(tuples: Seq<Seq<char>>)
    requires
        forall|i: int| 0 <= i < tuples.len() ==> count_char(#[trigger] tuples[i], '(') == 0
            && count_char(tuples[i], ')') == 0,
    ensures
        count_char(insert_body_spec(tuples), '(') == if tuples.len() == 0 {
            1nat
        } else {
            tuples.len()
        },
        count_char(insert_body_spec(tuples), ')') == if tuples.len() == 0 {
            1nat
        } else {
            tuples.len()
        },
{
    reveal_strlit("(");
    reveal_strlit("),\n");
    reveal_strlit(");\n");
    reveal_strlit("();\n");
    lemma_count_char_one("("@, 0, '(');
    lemma_count_char_of_absent("("@, ')');
    lemma_count_char_one("),\n"@, 0, ')');
    lemma_count_char_of_absent("),\n"@, '(');
    lemma_count_char_one(");\n"@, 0, ')');
    lemma_count_char_of_absent(");\n"@, '(');
    lemma_count_char_one("();\n"@, 0, '(');
    lemma_count_char_one("();\n"@, 1, ')');
    if tuples.len() > 0 {
        let front = tuples.drop_last();
        lemma_body_prefix_count_of(front, '(', 1);
        lemma_body_prefix_count_of(front, ')', 1);
        assert(front.len() * 1nat == front.len()) by (nonlinear_arith);
        let a = body_prefix_spec(front);
        let b = a + "("@;
        let c = b + tuples.last();
        lemma_count_char_add(a, "("@, '(');
        lemma_count_char_add(a, "("@, ')');
        lemma_count_char_add(b, tuples.last(), '(');
        lemma_count_char_add(b, tuples.last(), ')');
        lemma_count_char_add(c, ");\n"@, '(');
        lemma_count_char_add(c, ");\n"@, ')');
    }
}

/// For one or more rows, the batched body is exactly the tuples wrapped
/// in parentheses and joined with a comma and a line break — commas
/// separate, they never trail — with the single `;` closing the last
/// tuple.
pub proof fn lemma_insert_body_joined(tuples: Seq<Seq<char>>)
    requires
        tuples.len() > 0,
    ensures
        insert_body_spec(tuples) == "("@ + join_with(tuples, "),\n("@) + ");\n"@,
{
    lemma_body_frame(tuples);
    assert(insert_body_spec(tuples) =~= (body_prefix_spec(tuples.drop_last()) + "("@
        + tuples.last()) + ");\n"@);
    assert((("("@ + join_with(tuples, "),\n("@)) + ");\n"@) =~= "("@ + join_with(
        tuples,
        "),\n("@,
    ) + ");\n"@);
}

/// The open frame of the body — everything before the closing `;` — is
/// the tuples joined with the `),\n(` separator behind one opening
/// parenthesis.
proof fn lemma_body_frame(tuples: Seq<Seq<char>>)
    requires
        tuples.len() > 0,
    ensures
        body_prefix_spec(tuples.drop_last()) + "("@ + tuples.last() == "("@ + join_with(
            tuples,
            "),\n("@,
        ),
    decreases tuples.len(),
{
    let sep = "),\n("@;
    if tuples.len() == 1 {
        assert(body_prefix_spec(tuples.drop_last()) + "("@ + tuples.last() =~= "("@ + join_with(
            tuples,
            sep,
        ));
    } else {
        let front = tuples.drop_last();
        lemma_body_frame(front);
        reveal_strlit("(");
        reveal_strlit("),\n");
        reveal_strlit("),\n(");
        assert(body_prefix_spec(front) =~= (body_prefix_spec(front.drop_last()) + "("@
            + front.last()) + "),\n"@);
        assert(body_prefix_spec(front) =~= ("("@ + join_with(front, sep)) + "),\n"@);
        assert(join_with(tuples, sep) == join_with(front, sep) + sep + tuples.last());
        assert(body_prefix_spec(front) + "("@ + tuples.last() =~= "("@ + join_with(tuples, sep));
    }
}

} // verus!
