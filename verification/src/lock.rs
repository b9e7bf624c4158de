//! The table locker: the single statement that takes a read lock on
//! every table before any data is dumped.
//!
//! The statement enumerates the tables in the order the enumeration
//! returned them — the same order in which their sections are then
//! dumped.  It is executed against the connection; the per-table
//! lock/unlock lines inside the dump text are annotations only.

use vstd::prelude::*;

use crate::text::join_with;

verus! {

/// One table's entry in the lock statement.
pub open spec fn lock_entry_spec(name: Seq<char>) -> Seq<char> {
    "`"@ + name + "` READ"@
}

/// The entries of the lock statement, in enumeration order.
pub open spec fn lock_entries_spec(names: Seq<Seq<char>>) -> Seq<Seq<char>> {
    names.map_values(|n: Seq<char>| lock_entry_spec(n))
}

/// The whole lock statement: every enumerated table, in order, locked
/// for reading.  With no tables only the statement's prefix remains
/// (the server rejects it; a dump of an empty database fails fast).
pub open spec fn lock_statement_spec(names: Seq<Seq<char>>) -> Seq<char> {
    if names.len() == 0 {
        "LOCK TABLES "@
    } else {
        "LOCK TABLES "@ + join_with(lock_entries_spec(names), ","@) + ";"@
    }
}

/// Builds the `LOCK TABLES ... READ` statement over all table names.
pub fn lock_statement(tables: &Vec<String>) -> (r: String)
    ensures
        r@ == lock_statement_spec(tables.deep_view()),
{
    let ghost entries = lock_entries_spec(tables.deep_view());
    let mut out = String::from_str("LOCK TABLES ");
    if tables.len() == 0 {
        return out;
    }
    let mut i: usize = 0;
    while i < tables.len()
        invariant
            0 < tables@.len(),
            i <= tables@.len(),
            entries == lock_entries_spec(tables.deep_view()),
            out@ == "LOCK TABLES "@ + join_with(entries.take(i as int), ","@),
        decreases tables@.len() - i,
    {
        if i > 0 {
            out.append(",");
        }
        out.append("`");
        out.append(tables[i].as_str());
        out.append("` READ");
        proof {
            assert(entries.take(i + 1).drop_last() =~= entries.take(i as int));
            assert(entries[i as int] == lock_entry_spec(tables@[i as int]@));
            if i == 0 {
                assert(out@ =~= "LOCK TABLES "@ + join_with(entries.take(1), ","@));
            } else {
                assert(out@ =~= "LOCK TABLES "@ + (join_with(entries.take(i as int), ","@) + ","@
                    + entries[i as int]));
            }
        }
        i += 1;
    }
    out.append(";");
    proof {
        assert(entries.take(tables@.len() as int) =~= entries);
        assert(out@ =~= lock_statement_spec(tables.deep_view()));
    }
    out
}

/// One run's fixed enumeration: the lock statement over the tables and
/// the list, in the same order, that the dump then walks.
pub struct DumpPlan {
    pub lock_stmt: String,
    pub tables: Vec<String>,
}

/// Fixes the enumeration for one run: the returned plan locks exactly
/// the given tables, in their given order, and dumps the same tables in
/// the same order.
pub fn make_plan(tables: Vec<String>) -> (p: DumpPlan)
    ensures
        p.tables.deep_view() == tables.deep_view(),
        p.lock_stmt@ == lock_statement_spec(tables.deep_view()),
{
    let stmt = lock_statement(&tables);
    DumpPlan { lock_stmt: stmt, tables }
}

} // verus!
