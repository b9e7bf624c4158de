use dbdump::batch::{format_row_tuple, insert_body, RowBatcher};
use dbdump::charset::extract_charset;
use dbdump::cli::{connection_url, missing_required_args, usage_text};
use dbdump::column::{format_value, str_contains_ci, Column};
use dbdump::dump::{dump_text, TableDump};
use dbdump::header::{dump_header_at, dump_header_now};
use dbdump::lock::{lock_statement, make_plan};
use dbdump::sql::{
    select_all_query, show_columns_query, show_create_database_query, show_create_table_query,
    show_tables_query, tables_in_column,
};
use dbdump::table::{
    create_table_section, insert_header, lock_annotation, table_section, unlock_annotation,
};

fn col(name: &str, sql_type: &str) -> Column {
    Column {
        name: String::from(name),
        sql_type: String::from(sql_type),
    }
}

// Value formatter: quoted exactly for types containing "char" or "text".

#[test]
fn quotes_varchar_values() {
    assert_eq!(format_value("a", &col("name", "varchar(10)")), "'a'");
}

#[test]
fn quotes_char_and_text_variants() {
    assert_eq!(format_value("x", &col("c", "CHAR(4)")), "'x'");
    assert_eq!(format_value("x", &col("c", "TEXT")), "'x'");
    assert_eq!(format_value("x", &col("c", "tinytext")), "'x'");
    assert_eq!(format_value("x", &col("c", "VarChar(20)")), "'x'");
    assert_eq!(format_value("x", &col("c", "nchar")), "'x'");
}

#[test]
fn leaves_other_types_verbatim() {
    assert_eq!(format_value("5", &col("id", "int")), "5");
    assert_eq!(format_value("2020-01-01", &col("d", "datetime")), "2020-01-01");
    assert_eq!(format_value("x", &col("b", "blob")), "x");
    assert_eq!(format_value("1.5", &col("f", "decimal(4,2)")), "1.5");
}

#[test]
fn case_insensitive_contains() {
    assert!(str_contains_ci("WEIRD", "eir"));
    assert!(str_contains_ci("abc", ""));
    assert!(!str_contains_ci("ab", "abc"));
    assert!(str_contains_ci("MEDIUMTEXT", "text"));
    assert!(!str_contains_ci("datetime", "text"));
}

#[test]
fn is_quoted_matches_type_name() {
    assert!(col("c", "varchar(255)").is_quoted());
    assert!(col("c", "LONGTEXT").is_quoted());
    assert!(!col("c", "bigint").is_quoted());
}

// Row batcher: one-row lookahead, comma separators, single semicolon.

#[test]
fn batcher_defers_termination_by_one_row() {
    let mut b = RowBatcher::new();
    assert_eq!(b.push(String::from("1,'a'")), "");
    assert_eq!(b.push(String::from("2,'b'")), "(1,'a'),\n");
    assert_eq!(b.finish(), "(2,'b');\n");
}

#[test]
fn batcher_empty_stream_yields_empty_tuple() {
    let b = RowBatcher::new();
    assert_eq!(b.finish(), "();\n");
}

#[test]
fn body_two_rows() {
    let cols = vec![col("id", "int"), col("name", "varchar(10)")];
    let rows = vec![
        vec![String::from("1"), String::from("a")],
        vec![String::from("2"), String::from("b")],
    ];
    assert_eq!(insert_body(&cols, &rows), "(1,'a'),\n(2,'b');\n");
}

#[test]
fn body_single_row() {
    let cols = vec![col("id", "int")];
    let rows = vec![vec![String::from("7")]];
    assert_eq!(insert_body(&cols, &rows), "(7);\n");
}

#[test]
fn body_zero_rows_prints_empty_tuple() {
    let cols = vec![col("id", "int")];
    let rows: Vec<Vec<String>> = vec![];
    assert_eq!(insert_body(&cols, &rows), "();\n");
}

#[test]
fn row_tuple_follows_column_order() {
    let cols = vec![col("id", "int"), col("name", "varchar(10)")];
    let vals = vec![String::from("1"), String::from("a")];
    assert_eq!(format_row_tuple(&cols, &vals), "1,'a'");
}

// Table dumper pieces.

#[test]
fn header_lists_columns_in_order() {
    let cols = vec![col("id", "int"), col("name", "varchar(10)")];
    assert_eq!(
        insert_header("t", &cols),
        "INSERT INTO `t` (`id`,`name`) values\n"
    );
}

#[test]
fn header_for_single_column() {
    let cols = vec![col("id", "int")];
    assert_eq!(insert_header("t", &cols), "INSERT INTO `t` (`id`) values\n");
}

#[test]
fn create_table_section_terminates_statement() {
    assert_eq!(
        create_table_section("CREATE TABLE `t` (`id` int)"),
        "CREATE TABLE `t` (`id` int);\n\n"
    );
}

#[test]
fn lock_and_unlock_annotations() {
    assert_eq!(lock_annotation("t"), "LOCK TABLES `t` WRITE;\n");
    assert_eq!(unlock_annotation(), "UNLOCK TABLES;\n\n");
}

#[test]
fn table_section_two_rows() {
    let cols = vec![col("id", "int"), col("name", "varchar(10)")];
    let rows = vec![
        vec![String::from("1"), String::from("a")],
        vec![String::from("2"), String::from("b")],
    ];
    let expected = "CREATE TABLE `t` (`id` int, `name` varchar(10));\n\nLOCK TABLES `t` WRITE;\nINSERT INTO `t` (`id`,`name`) values\n(1,'a'),\n(2,'b');\nUNLOCK TABLES;\n\n";
    assert_eq!(
        table_section("t", "CREATE TABLE `t` (`id` int, `name` varchar(10))", &cols, &rows),
        expected
    );
}

#[test]
fn table_section_empty_table() {
    let cols = vec![col("id", "int")];
    let rows: Vec<Vec<String>> = vec![];
    let expected = "CREATE TABLE `t` (`id` int);\n\nLOCK TABLES `t` WRITE;\nINSERT INTO `t` (`id`) values\n();\nUNLOCK TABLES;\n\n";
    assert_eq!(
        table_section("t", "CREATE TABLE `t` (`id` int)", &cols, &rows),
        expected
    );
}

// Charset extraction.

#[test]
fn extracts_charset_from_creation_statement() {
    let stmt = "CREATE DATABASE `d` /*!40100 DEFAULT CHARACTER SET utf8mb4 COLLATE utf8mb4_general_ci */";
    assert_eq!(extract_charset(stmt), Some(String::from("utf8mb4")));
}

#[test]
fn charset_allows_any_spacing() {
    assert_eq!(
        extract_charset("x CHARACTER\t\tSET\n utf8 y"),
        Some(String::from("utf8"))
    );
}

#[test]
fn charset_needs_both_words_and_a_name() {
    assert_eq!(extract_charset("CREATE DATABASE `d`"), None);
    assert_eq!(extract_charset("CHARACTERSET utf8"), None);
    assert_eq!(extract_charset("CHARACTER SET"), None);
    assert_eq!(extract_charset("CHARACTER SET "), None);
    assert_eq!(extract_charset("character set utf8"), None);
}

#[test]
fn charset_takes_leftmost_clause() {
    assert_eq!(
        extract_charset("CHARACTER SET first CHARACTER SET second"),
        Some(String::from("first"))
    );
}

// Dump header.

#[test]
fn header_includes_set_names_when_charset_present() {
    let stmt = "CREATE DATABASE `shop` /*!40100 DEFAULT CHARACTER SET utf8mb4 */";
    let expected = "-- dbdump 0.1.0 2024-01-02 03:04:05\nSET time_zone = '+00:00';\nSET foreign_key_checks = 0;\nSET sql_mode = 'NO_AUTO_VALUE_ON_ZERO';\nSET NAMES utf8mb4;\n\nDROP DATABASE IF EXISTS `shop`;\nCREATE DATABASE `shop`;\nUSE `shop`;\n\n";
    assert_eq!(
        dump_header_at("shop", "0.1.0", "2024-01-02 03:04:05", Some(stmt)),
        expected
    );
}

#[test]
fn header_omits_set_names_without_charset_clause() {
    let stmt = "CREATE DATABASE `shop`";
    let expected = "-- dbdump 0.1.0 2024-01-02 03:04:05\nSET time_zone = '+00:00';\nSET foreign_key_checks = 0;\nSET sql_mode = 'NO_AUTO_VALUE_ON_ZERO';\nDROP DATABASE IF EXISTS `shop`;\nCREATE DATABASE `shop`;\nUSE `shop`;\n\n";
    assert_eq!(
        dump_header_at("shop", "0.1.0", "2024-01-02 03:04:05", Some(stmt)),
        expected
    );
    assert_eq!(
        dump_header_at("shop", "0.1.0", "2024-01-02 03:04:05", None),
        expected
    );
}

#[test]
fn header_with_clock_keeps_the_fixed_shape() {
    let text = dump_header_now("shop", "0.1.0", None);
    assert!(text.starts_with("-- dbdump 0.1.0 "));
    assert!(text.contains("SET time_zone = '+00:00';\n"));
    assert!(text.ends_with(
        "DROP DATABASE IF EXISTS `shop`;\nCREATE DATABASE `shop`;\nUSE `shop`;\n\n"
    ));
}

// Table locker.

#[test]
fn lock_statement_enumerates_all_tables_in_order() {
    let tables = vec![String::from("b"), String::from("a")];
    assert_eq!(lock_statement(&tables), "LOCK TABLES `b` READ,`a` READ;");
}

#[test]
fn lock_statement_single_table() {
    let tables = vec![String::from("t")];
    assert_eq!(lock_statement(&tables), "LOCK TABLES `t` READ;");
}

#[test]
fn lock_statement_without_tables_is_bare_prefix() {
    let tables: Vec<String> = vec![];
    assert_eq!(lock_statement(&tables), "LOCK TABLES ");
}

#[test]
fn plan_locks_and_dumps_in_the_same_order() {
    let tables = vec![String::from("z"), String::from("m"), String::from("a")];
    let plan = make_plan(tables);
    assert_eq!(plan.lock_stmt, "LOCK TABLES `z` READ,`m` READ,`a` READ;");
    assert_eq!(
        plan.tables,
        vec![String::from("z"), String::from("m"), String::from("a")]
    );
}

// Query builders.

#[test]
fn query_texts() {
    assert_eq!(show_tables_query("db"), "SHOW TABLES FROM `db`");
    assert_eq!(tables_in_column("db"), "Tables_in_db");
    assert_eq!(show_columns_query("t"), "SHOW COLUMNS FROM `t`");
    assert_eq!(show_create_table_query("t"), "SHOW CREATE TABLE `t`");
    assert_eq!(show_create_database_query("db"), "SHOW CREATE DATABASE `db`");
    assert_eq!(select_all_query("t"), "SELECT * FROM `t`");
}

// Start-up decisions.

#[test]
fn missing_user_or_database_demands_usage() {
    assert!(missing_required_args("", "db"));
    assert!(missing_required_args("root", ""));
    assert!(missing_required_args("", ""));
    assert!(!missing_required_args("root", "db"));
}

#[test]
fn usage_message_text() {
    assert_eq!(
        usage_text("0.1.0"),
        "dump ver.0.1.0\nUsage: dump -h <host> -u <user> -p <password> <database>\n"
    );
}

#[test]
fn connection_url_with_and_without_password() {
    assert_eq!(
        connection_url("root", "pw", "localhost", "db"),
        "mysql://root:pw@localhost/db"
    );
    assert_eq!(
        connection_url("root", "", "localhost", "db"),
        "mysql://root@localhost/db"
    );
}

// The whole dump.

#[test]
fn whole_dump_text() {
    let tables = vec![TableDump {
        name: String::from("t"),
        create_stmt: String::from("CREATE TABLE `t` (`id` int, `name` varchar(10))"),
        columns: vec![col("id", "int"), col("name", "varchar(10)")],
        rows: vec![
            vec![String::from("1"), String::from("a")],
            vec![String::from("2"), String::from("b")],
        ],
    }];
    let stmt = "CREATE DATABASE `shop` /*!40100 DEFAULT CHARACTER SET utf8mb4 */";
    let expected = "-- dbdump 0.1.0 2024-01-02 03:04:05\nSET time_zone = '+00:00';\nSET foreign_key_checks = 0;\nSET sql_mode = 'NO_AUTO_VALUE_ON_ZERO';\nSET NAMES utf8mb4;\n\nDROP DATABASE IF EXISTS `shop`;\nCREATE DATABASE `shop`;\nUSE `shop`;\n\nCREATE TABLE `t` (`id` int, `name` varchar(10));\n\nLOCK TABLES `t` WRITE;\nINSERT INTO `t` (`id`,`name`) values\n(1,'a'),\n(2,'b');\nUNLOCK TABLES;\n\n";
    assert_eq!(
        dump_text("shop", "0.1.0", "2024-01-02 03:04:05", Some(stmt), &tables),
        expected
    );
}
