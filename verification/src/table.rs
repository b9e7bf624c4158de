//! The table dumper: every piece of text that one table contributes to
//! the dump, and their fixed order — `CREATE TABLE`, a lock annotation,
//! the INSERT header, the batched rows, an unlock annotation.
//!
//! The lock/unlock lines here are annotations in the dump text only; the
//! lock that is actually executed against the server is the single
//! statement built in `lock`.

use vstd::prelude::*;

use crate::batch::{col_models, insert_body, insert_body_spec, row_tuples_spec, tuple_parts};
use crate::column::{format_value_spec, Column, ColumnModel};
use crate::text::join_with;

verus! {

/// A name as it appears in a statement: wrapped in backquotes.
pub open spec fn quoted_name(n: Seq<char>) -> Seq<char> {
    "`"@ + n + "`"@
}

/// The backquoted column names, in column order.
pub open spec fn header_parts(cols: Seq<ColumnModel>) -> Seq<Seq<char>> {
    cols.map_values(|c: ColumnModel| quoted_name(c.name))
}

/// The INSERT header for one table: the backquoted column names in
/// column order, comma-joined, between `INSERT INTO <table> (` and
/// `) values`.
pub open spec fn insert_header_spec(table: Seq<char>, cols: Seq<ColumnModel>) -> Seq<char> {
    "INSERT INTO `"@ + table + "` ("@ + join_with(header_parts(cols), ","@) + ") values\n"@
}

/// Builds the INSERT header line for a table.
pub fn insert_header(table: &str, cols: &Vec<Column>) -> (r: String)
    ensures
        r@ == insert_header_spec(table@, col_models(cols@)),
{
    let ghost parts = header_parts(col_models(cols@));
    let mut names = String::new();
    let mut i: usize = 0;
    while i < cols.len()
        invariant
            i <= cols@.len(),
            parts == header_parts(col_models(cols@)),
            names@ == join_with(parts.take(i as int), ","@),
        decreases cols@.len() - i,
    {
        if i > 0 {
            names.append(",");
        }
        names.append("`");
        names.append(cols[i].name.as_str());
        names.append("`");
        proof {
            assert(parts.take(i + 1).drop_last() =~= parts.take(i as int));
            assert(parts[i as int] == quoted_name(cols@[i as int]@.name));
            if i == 0 {
                assert(names@ =~= join_with(parts.take(1), ","@));
            } else {
                assert(names@ =~= join_with(parts.take(i as int), ","@) + ","@ + parts[i as int]);
            }
        }
        i += 1;
    }
    proof {
        assert(parts.take(cols@.len() as int) =~= parts);
    }
    let mut out = String::from_str("INSERT INTO `");
    out.append(table);
    out.append("` (");
    out.append(names.as_str());
    out.append(") values\n");
    out
}

/// The `CREATE TABLE` part of a table's section: the statement the
/// server reported, verbatim, terminated with `;` and a blank line.
pub open spec fn create_table_section_spec(stmt: Seq<char>) -> Seq<char> {
    stmt + ";\n\n"@
}

/// Renders the reported `CREATE TABLE` statement as dump text.
pub fn create_table_section(stmt: &str) -> (r: String)
    ensures
        r@ == create_table_section_spec(stmt@),
{
    let mut out = String::from_str(stmt);
    out.append(";\n\n");
    out
}

/// The textual lock annotation that precedes a table's data.
pub open spec fn lock_annotation_spec(table: Seq<char>) -> Seq<char> {
    "LOCK TABLES `"@ + table + "` WRITE;\n"@
}

/// Builds the lock annotation line for a table.
pub fn lock_annotation(table: &str) -> (r: String)
    ensures
        r@ == lock_annotation_spec(table@),
{
    let mut out = String::from_str("LOCK TABLES `");
    out.append(table);
    out.append("` WRITE;\n");
    out
}

/// The textual unlock annotation that closes a table's section,
/// followed by the blank line between sections.
pub open spec fn unlock_annotation_spec() -> Seq<char> {
    "UNLOCK TABLES;\n\n"@
}

/// Builds the unlock annotation line.
pub fn unlock_annotation() -> (r: String)
    ensures
        r@ == unlock_annotation_spec(),
{
    String::from_str("UNLOCK TABLES;\n\n")
}

/// One table's whole section of the dump, in its fixed order: the
/// `CREATE TABLE` statement, the lock annotation, the INSERT header,
/// the batched row tuples, the unlock annotation.  A table's data is
/// emitted only after its schema and its header.
pub open spec fn table_section_spec(
    table: Seq<char>,
    create_stmt: Seq<char>,
    cols: Seq<ColumnModel>,
    rows: Seq<Seq<Seq<char>>>,
) -> Seq<char> {
    create_table_section_spec(create_stmt) + lock_annotation_spec(table) + insert_header_spec(
        table,
        cols,
    ) + insert_body_spec(row_tuples_spec(cols, rows)) + unlock_annotation_spec()
}

/// Renders one table's complete section.  The same column list shapes
/// the header and every row tuple, so names and values cannot misalign.
pub fn table_section(
    table: &str,
    create_stmt: &str,
    cols: &Vec<Column>,
    rows: &Vec<Vec<String>>,
) -> (r: String)
    requires
        forall|i: int| 0 <= i < rows@.len() ==> #[trigger] rows@[i]@.len() == cols@.len(),
    ensures
        r@ == table_section_spec(table@, create_stmt@, col_models(cols@), rows.deep_view()),
{
    let mut out = create_table_section(create_stmt);
    let ann = lock_annotation(table);
    out.append(ann.as_str());
    let header = insert_header(table, cols);
    out.append(header.as_str());
    let body = insert_body(cols, rows);
    out.append(body.as_str());
    let unlock = unlock_annotation();
    out.append(unlock.as_str());
    proof {
        assert(out@ =~= table_section_spec(
            table@,
            create_stmt@,
            col_models(cols@),
            rows.deep_view(),
        ));
    }
    out
}

/// The INSERT header and every row tuple enumerate the columns in the
/// same order: at each position `i`, the header shows the name of
/// column `i` and a tuple shows the value formatted for column `i`.
pub proof fn lemma_header_order_matches_tuple_order(cols: Seq<ColumnModel>, vals: Seq<Seq<char>>)
    requires
        vals.len() == cols.len(),
    ensures
        header_parts(cols).len() == tuple_parts(cols, vals).len(),
        forall|i: int| 0 <= i < cols.len() ==> #[trigger] header_parts(cols)[i] == quoted_name(
            cols[i].name,
        ) && tuple_parts(cols, vals)[i] == format_value_spec(vals[i], cols[i]),
{
}

} // verus!
