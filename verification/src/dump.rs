//! The dump orchestrator: the complete text of one dump, given what
//! the server reported — header first, then every table's section in
//! enumeration order.
//!
//! Nothing is cached across tables: each section is a function of that
//! table's own name, creation statement, columns and rows alone.

use vstd::prelude::*;

use crate::batch::col_models;
use crate::column::{Column, ColumnModel};
use crate::header::dump_header_spec;
use crate::lock::{lock_entries_spec, lock_entry_spec};
use crate::table::{table_section, table_section_spec};

verus! {

/// Everything one table contributes to a dump: its name, its reported
/// `CREATE TABLE` statement, its columns, and its rows — each row the
/// raw values in column order, already rendered as text by the driver.
pub struct TableDump {
    pub name: String,
    pub create_stmt: String,
    pub columns: Vec<Column>,
    pub rows: Vec<Vec<String>>,
}

/// The mathematical content of a `TableDump`.
pub struct TableDumpModel {
    pub name: Seq<char>,
    pub create_stmt: Seq<char>,
    pub columns: Seq<ColumnModel>,
    pub rows: Seq<Seq<Seq<char>>>,
}

impl View for TableDump {
    type V = TableDumpModel;

    open spec fn view(&self) -> TableDumpModel {
        TableDumpModel {
            name: self.name@,
            create_stmt: self.create_stmt@,
            columns: col_models(self.columns@),
            rows: self.rows.deep_view(),
        }
    }
}

impl TableDump {
    /// Every row holds exactly one value per column.
    pub open spec fn well_formed(self) -> bool {
        forall|i: int| 0 <= i < self.rows@.len() ==> #[trigger] self.rows@[i]@.len()
            == self.columns@.len()
    }
}

/// The names of the dumped tables, in dump order.
pub open spec fn table_names(tds: Seq<TableDumpModel>) -> Seq<Seq<char>> {
    tds.map_values(|t: TableDumpModel| t.name)
}

/// The sections of the dumped tables, in dump order.
pub open spec fn section_parts(tds: Seq<TableDumpModel>) -> Seq<Seq<char>> {
    tds.map_values(
        |t: TableDumpModel| table_section_spec(t.name, t.create_stmt, t.columns, t.rows),
    )
}

/// All table sections concatenated in dump order.
pub open spec fn dump_sections_spec(tds: Seq<TableDumpModel>) -> Seq<char>
    decreases tds.len(),
{
    if tds.len() == 0 {
        Seq::<char>::empty()
    } else {
        dump_sections_spec(tds.drop_last()) + section_parts(tds).last()
    }
}

/// The complete dump: the header, then each table's section, in the
/// enumeration order of `tables`.
pub open spec fn dump_text_spec(
    db: Seq<char>,
    version: Seq<char>,
    timestamp: Seq<char>,
    create_stmt: Option<Seq<char>>,
    tds: Seq<TableDumpModel>,
) -> Seq<char> {
    dump_header_spec(db, version, timestamp, create_stmt) + dump_sections_spec(tds)
}

/// Renders every table's section, in the given order.
pub fn dump_sections(tables: &Vec<TableDump>) -> (r: String)
    requires
        forall|i: int| 0 <= i < tables@.len() ==> (#[trigger] tables@[i]).well_formed(),
    ensures
        r@ == dump_sections_spec(tables@.map_values(|t: TableDump| t@)),
{
    let ghost tds = tables@.map_values(|t: TableDump| t@);
    let mut out = String::new();
    let mut i: usize = 0;
    while i < tables.len()
        invariant
            forall|k: int| 0 <= k < tables@.len() ==> (#[trigger] tables@[k]).well_formed(),
            i <= tables@.len(),
            tds == tables@.map_values(|t: TableDump| t@),
            out@ == dump_sections_spec(tds.take(i as int)),
        decreases tables@.len() - i,
    {
        let t = &tables[i];
        let section = table_section(t.name.as_str(), t.create_stmt.as_str(), &t.columns, &t.rows);
        out.append(section.as_str());
        proof {
            assert(tds.take(i + 1).drop_last() =~= tds.take(i as int));
            assert(section_parts(tds.take(i + 1)).last() == table_section_spec(
                tds[i as int].name,
                tds[i as int].create_stmt,
                tds[i as int].columns,
                tds[i as int].rows,
            ));
        }
        i += 1;
    }
    proof {
        assert(tds.take(tables@.len() as int) =~= tds);
    }
    out
}

/// Renders one whole dump from what the server reported, for a given
/// timestamp text.
pub fn dump_text(
    db: &str,
    version: &str,
    timestamp: &str,
    create_stmt: Option<&str>,
    tables: &Vec<TableDump>,
) -> (r: String)
    requires
        forall|i: int| 0 <= i < tables@.len() ==> (#[trigger] tables@[i]).well_formed(),
    ensures
        r@ == dump_text_spec(
            db@,
            version@,
            timestamp@,
            create_stmt.deep_view(),
            tables@.map_values(|t: TableDump| t@),
        ),
{
    let mut out = crate::header::dump_header_at(db, version, timestamp, create_stmt);
    let sections = dump_sections(tables);
    out.append(sections.as_str());
    out
}

/// The enumeration order used for locking equals the order used for
/// dumping within one run: for every position `i`, the `i`-th entry of
/// the lock statement over the dump's table names locks exactly the
/// table whose section stands `i`-th in the dump.
pub proof fn lemma_lock_order_matches_dump_order(tds: Seq<TableDumpModel>)
    ensures
        lock_entries_spec(table_names(tds)).len() == tds.len(),
        section_parts(tds).len() == tds.len(),
        forall|i: int| 0 <= i < tds.len() ==> #[trigger] lock_entries_spec(table_names(tds))[i]
            == lock_entry_spec(tds[i].name),
        forall|i: int| 0 <= i < tds.len() ==> #[trigger] section_parts(tds)[i]
            == table_section_spec(tds[i].name, tds[i].create_stmt, tds[i].columns, tds[i].rows),
{
}

} // verus!
