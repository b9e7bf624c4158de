//! The dump's header: a comment line with tool name, version and
//! timestamp, the fixed session settings, an optional `SET NAMES` line
//! derived from the database's creation statement, and the statements
//! that recreate the database on replay.

use vstd::prelude::*;

use crate::charset::{charset_of, extract_charset};

verus! {

/// The leading comment line: tool name, version, timestamp.
pub open spec fn header_comment_spec(version: Seq<char>, timestamp: Seq<char>) -> Seq<char> {
    "-- dbdump "@ + version + " "@ + timestamp + "\n"@
}

/// The fixed session settings replayed before any schema statement.
pub open spec fn session_settings_spec() -> Seq<char> {
    "SET time_zone = '+00:00';\nSET foreign_key_checks = 0;\nSET sql_mode = 'NO_AUTO_VALUE_ON_ZERO';\n"@
}

/// The `SET NAMES` line: present exactly when a creation statement was
/// reported and it holds a `CHARACTER SET <name>` clause; omitted — with
/// no error — otherwise.
pub open spec fn set_names_spec(create_stmt: Option<Seq<char>>) -> Seq<char> {
    match create_stmt {
        Option::None => Seq::<char>::empty(),
        Option::Some(stmt) => match charset_of(stmt) {
            Option::None => Seq::<char>::empty(),
            Option::Some(cs) => "SET NAMES "@ + cs + ";\n\n"@,
        },
    }
}

/// The statements that make a replay idempotent: drop, recreate and
/// select the target database.
pub open spec fn database_statements_spec(db: Seq<char>) -> Seq<char> {
    "DROP DATABASE IF EXISTS `"@ + db + "`;\nCREATE DATABASE `"@ + db + "`;\nUSE `"@ + db
        + "`;\n\n"@
}

/// The whole header, in its fixed order.
pub open spec fn dump_header_spec(
    db: Seq<char>,
    version: Seq<char>,
    timestamp: Seq<char>,
    create_stmt: Option<Seq<char>>,
) -> Seq<char> {
    header_comment_spec(version, timestamp) + session_settings_spec() + set_names_spec(create_stmt)
        + database_statements_spec(db)
}

/// Builds the header for a given timestamp text.  `create_stmt` is the
/// database's creation statement as the server reported it, if the
/// server reported one.
pub fn dump_header_at(
    db: &str,
    version: &str,
    timestamp: &str,
    create_stmt: Option<&str>,
) -> (r: String)
    ensures
        r@ == dump_header_spec(db@, version@, timestamp@, create_stmt.deep_view()),
{
    let mut out = String::from_str("-- dbdump ");
    out.append(version);
    out.append(" ");
    out.append(timestamp);
    out.append("\n");
    out.append("SET time_zone = '+00:00';\nSET foreign_key_checks = 0;\nSET sql_mode = 'NO_AUTO_VALUE_ON_ZERO';\n");
    match create_stmt {
        Some(stmt) => {
            match extract_charset(stmt) {
                Some(cs) => {
                    out.append("SET NAMES ");
                    out.append(cs.as_str());
                    out.append(";\n\n");
                },
                None => {},
            }
        },
        None => {},
    }
    out.append("DROP DATABASE IF EXISTS `");
    out.append(db);
    out.append("`;\nCREATE DATABASE `");
    out.append(db);
    out.append("`;\nUSE `");
    out.append(db);
    out.append("`;\n\n");
    proof {
        assert(out@ =~= dump_header_spec(db@, version@, timestamp@, create_stmt.deep_view()));
    }
    out
}

/// Relies on chrono: `Local::now()` for the current local time, and
/// strftime formatting with `%Y-%m-%d %H:%M:%S` to render it.  The
/// result depends on the clock, so nothing is promised of it.
#[verifier::external_body]
fn local_timestamp() -> String {
    let now = chrono::Local::now();
    now.format_with_items(chrono::format::strftime::StrftimeItems::new("%Y-%m-%d %H:%M:%S"))
        .to_string()
}

/// Builds the header with the current local time as its timestamp: the
/// result is the fixed header shape around some timestamp text.
pub fn dump_header_now(db: &str, version: &str, create_stmt: Option<&str>) -> (r: String)
    ensures
        exists|ts: Seq<char>|
            r@ == dump_header_spec(db@, version@, ts, create_stmt.deep_view()),
{
    let ts = local_timestamp();
    let r = dump_header_at(db, version, ts.as_str(), create_stmt);
    proof {
        assert(r@ == dump_header_spec(db@, version@, ts@, create_stmt.deep_view()));
    }
    r
}

} // verus!
