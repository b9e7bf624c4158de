//! Columns and the value formatter.
//!
//! A column carries the name and the declared type that the server
//! reported for it.  A value is rendered inside a tuple according to its
//! column: types whose name contains "char" or "text" (case-insensitive)
//! get their values wrapped in single quotes, all others are emitted
//! verbatim.

use vstd::prelude::*;

verus! {

/// One column of a table: its name and its declared type,
/// e.g. `varchar(255)`, `int`, `text`.
pub struct Column {
    pub name: String,
    pub sql_type: String,
}

/// The mathematical content of a `Column`.
pub struct ColumnModel {
    pub name: Seq<char>,
    pub sql_type: Seq<char>,
}

impl View for Column {
    type V = ColumnModel;

    open spec fn view(&self) -> ColumnModel {
        ColumnModel { name: self.name@, sql_type: self.sql_type@ }
    }
}

/// The code point of `c` with an ASCII upper-case letter folded to its
/// lower-case counterpart.
pub open spec fn lower_code(c: char) -> u32 {
    if 65 <= c as u32 && c as u32 <= 90 {
        (c as u32 + 32) as u32
    } else {
        c as u32
    }
}

/// `needle` occurs in `hay` at position `i`, comparing characters
/// case-insensitively.
pub open spec fn match_ci_at(hay: Seq<char>, needle: Seq<char>, i: int) -> bool {
    &&& 0 <= i
    &&& i + needle.len() <= hay.len()
    &&& forall|j: int| 0 <= j < needle.len() ==> lower_code(hay[i + j]) == lower_code(needle[j])
}

/// `needle` occurs somewhere in `hay`, case-insensitively.
pub open spec fn contains_ci(hay: Seq<char>, needle: Seq<char>) -> bool {
    exists|i: int| match_ci_at(hay, needle, i)
}

impl ColumnModel {
    /// Whether values of this column are quoted in the dump: true
    /// exactly when the declared type name contains "char" or "text",
    /// case-insensitively, and for no other type name.
    pub open spec fn is_quoted(self) -> bool {
        contains_ci(self.sql_type, "char"@) || contains_ci(self.sql_type, "text"@)
    }
}

fn lower_code_exec(c: char) -> (r: u32)
    ensures
        r == lower_code(c),
{
    let u = c as u32;
    if 65 <= u && u <= 90 {
        u + 32
    } else {
        u
    }
}

/// Case-insensitive substring search.
pub fn str_contains_ci(hay: &str, needle: &str) -> (r: bool)
    ensures
        r == contains_ci(hay@, needle@),
{
    let hay_len = hay.unicode_len();
    let needle_len = needle.unicode_len();
    if needle_len > hay_len {
        return false;
    }
    let mut i: usize = 0;
    while i <= hay_len - needle_len
        invariant
            needle_len <= hay_len,
            hay_len == hay@.len(),
            needle_len == needle@.len(),
            i <= hay_len - needle_len + 1,
            forall|i2: int| 0 <= i2 < i ==> !match_ci_at(hay@, needle@, i2),
        decreases hay_len - needle_len + 1 - i,
    {
        let mut j: usize = 0;
        let mut ok = true;
        while ok && j < needle_len
            invariant
                needle_len <= hay_len,
                hay_len == hay@.len(),
                needle_len == needle@.len(),
                i <= hay_len - needle_len,
                j <= needle_len,
                ok ==> forall|j2: int| 0 <= j2 < j ==> lower_code(hay@[i + j2]) == lower_code(
                    needle@[j2],
                ),
                !ok ==> !match_ci_at(hay@, needle@, i as int),
            decreases needle_len - j, (if ok { 1int } else { 0int }),
        {
            if lower_code_exec(hay.get_char(i + j)) != lower_code_exec(needle.get_char(j)) {
                ok = false;
            } else {
                j += 1;
            }
        }
        if ok {
            assert(match_ci_at(hay@, needle@, i as int));
            return true;
        }
        i += 1;
    }
    false
}

impl Column {
    /// Whether values of this column are wrapped in single quotes.
    pub fn is_quoted(&self) -> (r: bool)
        ensures
            r == self@.is_quoted(),
    {
        str_contains_ci(self.sql_type.as_str(), "char") || str_contains_ci(
            self.sql_type.as_str(),
            "text",
        )
    }
}

/// The literal that stands for `val` inside a tuple: quoted for
/// "char"/"text" columns, verbatim otherwise.  (Quoting adds no escaping;
/// a quote inside the value corrupts the statement — a known gap.)
pub open spec fn format_value_spec(val: Seq<char>, col: ColumnModel) -> Seq<char> {
    if col.is_quoted() {
        "'"@ + val + "'"@
    } else {
        val
    }
}

/// Renders one raw value as the SQL literal for its column.
pub fn format_value(val: &str, col: &Column) -> (r: String)
    ensures
        r@ == format_value_spec(val@, col@),
        col@.is_quoted() ==> r@ == "'"@ + val@ + "'"@,
        !col@.is_quoted() ==> r@ == val@,
{
    if col.is_quoted() {
        let mut s = String::from_str("'");
        s.append(val);
        s.append("'");
        s
    } else {
        String::from_str(val)
    }
}

} // verus!
