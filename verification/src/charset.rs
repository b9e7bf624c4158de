//! Extraction of the character-set name from a `CREATE DATABASE`
//! statement.
//!
//! The dump's header carries a `SET NAMES <charset>;` line when the
//! database's creation statement holds a `CHARACTER SET <name>` clause.
//! The clause is recognised as the leftmost occurrence of the word
//! `CHARACTER`, one or more spacing characters, the word `SET`, one or
//! more spacing characters, and then the name: a maximal non-empty run
//! of word characters (ASCII letters, digits, underscore).  A statement
//! without such a clause yields nothing, which is not an error.

use vstd::prelude::*;

verus! {

/// A spacing character, as allowed between the words of the clause.
pub open spec fn is_space(c: char) -> bool {
    c == ' ' || c == '\t' || c == '\n' || c == '\r' || c == '\u{000B}' || c == '\u{000C}'
}

/// A character that can make up a character-set name.
pub open spec fn is_word_char(c: char) -> bool {
    (48 <= c as u32 && c as u32 <= 57) || (65 <= c as u32 && c as u32 <= 90) || (97 <= c as u32
        && c as u32 <= 122) || c as u32 == 95
}

/// The first position at or after `i` that does not hold a spacing
/// character (or the end of `s`).
pub open spec fn skip_spaces(s: Seq<char>, i: int) -> int
    decreases s.len() - i,
{
    if 0 <= i < s.len() && is_space(s[i]) {
        skip_spaces(s, i + 1)
    } else {
        i
    }
}

/// The first position at or after `i` that does not hold a word
/// character (or the end of `s`).
pub open spec fn skip_word(s: Seq<char>, i: int) -> int
    decreases s.len() - i,
{
    if 0 <= i < s.len() && is_word_char(s[i]) {
        skip_word(s, i + 1)
    } else {
        i
    }
}

/// The `CHARACTER SET <name>` clause begins at position `i` of `s`.
pub open spec fn clause_at(s: Seq<char>, i: int) -> bool {
    let a = i + 9;
    let j = skip_spaces(s, a);
    let k = skip_spaces(s, j + 3);
    &&& 0 <= i
    &&& a <= s.len()
    &&& s.subrange(i, a) == "CHARACTER"@
    &&& j > a
    &&& j + 3 <= s.len()
    &&& s.subrange(j, j + 3) == "SET"@
    &&& k > j + 3
    &&& k < s.len()
    &&& is_word_char(s[k])
}

/// The name captured by the clause that begins at position `i`: the
/// maximal run of word characters after the spacing that follows `SET`.
pub open spec fn capture_at(s: Seq<char>, i: int) -> Seq<char> {
    let k = skip_spaces(s, skip_spaces(s, i + 9) + 3);
    s.subrange(k, skip_word(s, k))
}

/// The captured name of the leftmost clause at or after position `i`,
/// if any clause begins there.
pub open spec fn charset_from(s: Seq<char>, i: int) -> Option<Seq<char>>
    decreases s.len() - i,
{
    if i < 0 || i > s.len() {
        Option::None
    } else if clause_at(s, i) {
        Option::Some(capture_at(s, i))
    } else if i == s.len() {
        Option::None
    } else {
        charset_from(s, i + 1)
    }
}

/// The character-set name of the leftmost `CHARACTER SET <name>`
/// clause of `s`, if `s` holds one.
pub open spec fn charset_of(s: Seq<char>) -> Option<Seq<char>> {
    charset_from(s, 0)
}

fn is_space_exec(c: char) -> (r: bool)
    ensures
        r == is_space(c),
{
    c == ' ' || c == '\t' || c == '\n' || c == '\r' || c == '\u{000B}' || c == '\u{000C}'
}

fn is_word_char_exec(c: char) -> (r: bool)
    ensures
        r == is_word_char(c),
{
    let u = c as u32;
    (48 <= u && u <= 57) || (65 <= u && u <= 90) || (97 <= u && u <= 122) || u == 95
}

fn skip_spaces_exec(s: &str, i: usize, len: usize) -> (r: usize)
    requires
        i <= len,
        len == s@.len(),
    ensures
        r == skip_spaces(s@, i as int),
        i <= r <= len,
    decreases len - i,
{
    let mut j = i;
    while j < len && is_space_exec(s.get_char(j))
        invariant
            i <= j <= len,
            len == s@.len(),
            skip_spaces(s@, i as int) == skip_spaces(s@, j as int),
        decreases len - j,
    {
        j += 1;
    }
    j
}

fn skip_word_exec(s: &str, i: usize, len: usize) -> (r: usize)
    requires
        i <= len,
        len == s@.len(),
    ensures
        r == skip_word(s@, i as int),
        i <= r <= len,
    decreases len - i,
{
    let mut j = i;
    while j < len && is_word_char_exec(s.get_char(j))
        invariant
            i <= j <= len,
            len == s@.len(),
            skip_word(s@, i as int) == skip_word(s@, j as int),
        decreases len - j,
    {
        j += 1;
    }
    j
}

/// Compares the characters of `s` at `i..i + kw.len()` against `kw`.
fn keyword_at(s: &str, i: usize, kw: &str, kw_len: usize) -> (r: bool)
    requires
        kw_len == kw@.len(),
        i + kw_len <= s@.len(),
        i + kw_len <= usize::MAX,
    ensures
        r == (s@.subrange(i as int, i + kw@.len()) == kw@),
{
    let mut j: usize = 0;
    while j < kw_len
        invariant
            kw_len == kw@.len(),
            i + kw_len <= s@.len(),
            i + kw_len <= usize::MAX,
            j <= kw_len,
            forall|j2: int| 0 <= j2 < j ==> s@[i + j2] == kw@[j2],
        decreases kw_len - j,
    {
        if s.get_char(i + j) != kw.get_char(j) {
            proof {
                assert(s@.subrange(i as int, i + kw@.len())[j as int] != kw@[j as int]);
            }
            return false;
        }
        j += 1;
    }
    proof {
        assert(s@.subrange(i as int, i + kw@.len()) =~= kw@);
    }
    true
}

/// Checks for the clause at position `i`; on a match, returns the
/// bounds of the captured name within `s`.
fn clause_bounds_at(s: &str, i: usize, len: usize) -> (r: Option<(usize, usize)>)
    requires
        len == s@.len(),
        i <= len,
    ensures
        r is Some <==> clause_at(s@, i as int),
        r matches Some((k, m)) ==> k <= m <= len && capture_at(s@, i as int) == s@.subrange(
            k as int,
            m as int,
        ),
{
    proof {
        reveal_strlit("CHARACTER");
        reveal_strlit("SET");
    }
    if len - i < 9 {
        return None;
    }
    if !keyword_at(s, i, "CHARACTER", 9) {
        return None;
    }
    let j = skip_spaces_exec(s, i + 9, len);
    if j == i + 9 {
        return None;
    }
    if len - j < 3 {
        return None;
    }
    if !keyword_at(s, j, "SET", 3) {
        return None;
    }
    let k = skip_spaces_exec(s, j + 3, len);
    if k == j + 3 {
        return None;
    }
    if k == len {
        return None;
    }
    if !is_word_char_exec(s.get_char(k)) {
        return None;
    }
    let m = skip_word_exec(s, k, len);
    assert(clause_at(s@, i as int));
    Some((k, m))
}

/// Finds the leftmost `CHARACTER SET <name>` clause of `stmt` and
/// returns the name, or nothing when the statement has no such clause.
pub fn extract_charset(stmt: &str) -> (r: Option<String>)
    ensures
        r.deep_view() == charset_of(stmt@),
        r is Some <==> charset_of(stmt@) is Some,
{
    let len = stmt.unicode_len();
    let mut i: usize = 0;
    while i < len
        invariant
            i <= len,
            len == stmt@.len(),
            charset_of(stmt@) == charset_from(stmt@, i as int),
        decreases len - i,
    {
        match clause_bounds_at(stmt, i, len) {
            Some((k, m)) => {
                let name = stmt.substring_char(k, m);
                return Some(String::from_str(name));
            },
            None => {},
        }
        i += 1;
    }
    proof {
        assert(!clause_at(stmt@, len as int));
        assert(charset_from(stmt@, len as int) is None);
    }
    None
}

} // verus!
