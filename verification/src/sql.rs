//! Builders for the query texts the dump sends to the server.

use vstd::prelude::*;

verus! {

/// The text of the query that lists the tables of a database.
pub open spec fn show_tables_query_spec(db: Seq<char>) -> Seq<char> {
    "SHOW TABLES FROM `"@ + db + "`"@
}

/// Builds `SHOW TABLES FROM `<db>``.
pub fn show_tables_query(db: &str) -> (r: String)
    ensures
        r@ == show_tables_query_spec(db@),
{
    let mut s = String::from_str("SHOW TABLES FROM `");
    s.append(db);
    s.append("`");
    s
}

/// The name of the column under which that query reports each table.
pub open spec fn tables_in_column_spec(db: Seq<char>) -> Seq<char> {
    "Tables_in_"@ + db
}

/// Builds `Tables_in_<db>`, the column that holds the table names in
/// the table-listing query's result.
pub fn tables_in_column(db: &str) -> (r: String)
    ensures
        r@ == tables_in_column_spec(db@),
{
    let mut s = String::from_str("Tables_in_");
    s.append(db);
    s
}

/// The text of the query that reports a table's columns.
pub open spec fn show_columns_query_spec(table: Seq<char>) -> Seq<char> {
    "SHOW COLUMNS FROM `"@ + table + "`"@
}

/// Builds `SHOW COLUMNS FROM `<table>``.
pub fn show_columns_query(table: &str) -> (r: String)
    ensures
        r@ == show_columns_query_spec(table@),
{
    let mut s = String::from_str("SHOW COLUMNS FROM `");
    s.append(table);
    s.append("`");
    s
}

/// The text of the query that reports a table's creation statement.
pub open spec fn show_create_table_query_spec(table: Seq<char>) -> Seq<char> {
    "SHOW CREATE TABLE `"@ + table + "`"@
}

/// Builds `SHOW CREATE TABLE `<table>``.
pub fn show_create_table_query(table: &str) -> (r: String)
    ensures
        r@ == show_create_table_query_spec(table@),
{
    let mut s = String::from_str("SHOW CREATE TABLE `");
    s.append(table);
    s.append("`");
    s
}

/// The text of the query that reports a database's creation statement.
pub open spec fn show_create_database_query_spec(db: Seq<char>) -> Seq<char> {
    "SHOW CREATE DATABASE `"@ + db + "`"@
}

/// Builds `SHOW CREATE DATABASE `<db>``.
pub fn show_create_database_query(db: &str) -> (r: String)
    ensures
        r@ == show_create_database_query_spec(db@),
{
    let mut s = String::from_str("SHOW CREATE DATABASE `");
    s.append(db);
    s.append("`");
    s
}

/// The text of the query that streams a table's rows.
pub open spec fn select_all_query_spec(table: Seq<char>) -> Seq<char> {
    "SELECT * FROM `"@ + table + "`"@
}

/// Builds `SELECT * FROM `<table>``.
pub fn select_all_query(table: &str) -> (r: String)
    ensures
        r@ == select_all_query_spec(table@),
{
    let mut s = String::from_str("SELECT * FROM `");
    s.append(table);
    s.append("`");
    s
}

} // verus!
