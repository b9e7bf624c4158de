//! The decisions around starting a dump: whether the required inputs
//! are present, the usage text shown when they are not, and the
//! connection URL built from them.

use vstd::prelude::*;

verus! {

/// The required identifying inputs are missing: no dump may be
/// attempted (and no query run) when the user or the database name is
/// empty.
pub fn missing_required_args(user: &str, db: &str) -> (r: bool)
    ensures
        r == (user@.len() == 0 || db@.len() == 0),
{
    user.is_empty() || db.is_empty()
}

/// The usage message shown when required inputs are missing.
pub open spec fn usage_text_spec(version: Seq<char>) -> Seq<char> {
    "dump ver."@ + version + "\nUsage: dump -h <host> -u <user> -p <password> <database>\n"@
}

/// Builds the usage message for the given tool version.
pub fn usage_text(version: &str) -> (r: String)
    ensures
        r@ == usage_text_spec(version@),
{
    let mut s = String::from_str("dump ver.");
    s.append(version);
    s.append("\nUsage: dump -h <host> -u <user> -p <password> <database>\n");
    s
}

/// The URL the connection is opened with: the password and its `:` are
/// left out when the password is empty.
pub open spec fn connection_url_spec(
    user: Seq<char>,
    pass: Seq<char>,
    host: Seq<char>,
    db: Seq<char>,
) -> Seq<char> {
    if pass.len() == 0 {
        "mysql://"@ + user + "@"@ + host + "/"@ + db
    } else {
        "mysql://"@ + user + ":"@ + pass + "@"@ + host + "/"@ + db
    }
}

/// Builds the connection URL from the identifying inputs.
pub fn connection_url(user: &str, pass: &str, host: &str, db: &str) -> (r: String)
    ensures
        r@ == connection_url_spec(user@, pass@, host@, db@),
{
    let mut s = String::from_str("mysql://");
    s.append(user);
    if !pass.is_empty() {
        s.append(":");
        s.append(pass);
    }
    s.append("@");
    s.append(host);
    s.append("/");
    s.append(db);
    proof {
        assert(s@ =~= connection_url_spec(user@, pass@, host@, db@));
    }
    s
}

} // verus!
