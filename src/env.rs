//! Process configuration: each setting falls back to a default when unset.
use vstd::prelude::*;

verus! {

/// Settings of a running service.
#[derive(Debug, Clone)]
pub struct Env {
    pub env: String,
    pub app_name: String,
    pub app_port: u16,
    pub mongodb_uri: String,
    pub mongodb_database: String,
}

pub open spec fn is_ascii_digit(c: char) -> bool {
    '0' <= c && c <= '9'
}

/// Value of a run of decimal digits.
pub open spec fn decimal_value(s: Seq<char>) -> int
    decreases s.len(),
{
    if s.len() == 0 {
        0
    } else {
        decimal_value(s.drop_last()) * 10 + (s.last() as int - '0' as int)
    }
}

/// The digits of a number text: what follows one leading `+`, if any.
pub open spec fn unsigned_digits(s: Seq<char>) -> Seq<char> {
    if s.len() > 0 && s[0] == '+' {
        s.drop_first()
    } else {
        s
    }
}

/// A `u16` written in decimal: an optional `+`, then at least one digit, and
/// nothing else, with a value that fits.
pub open spec fn parsed_u16(s: Seq<char>) -> Option<u16> {
    let d = unsigned_digits(s);
    if d.len() > 0 && (forall|i: int| 0 <= i < d.len() ==> is_ascii_digit(#[trigger] d[i]))
        && decimal_value(d) <= 65535 {
        Some(decimal_value(d) as u16)
    } else {
        None
    }
}

/// Relies on std's `u16::from_str`: an optional `+` followed by decimal
/// digits only, with a value within range.
#[verifier::external_body]
fn parse_u16(s: &str) -> (r: Option<u16>)
    ensures
        r == parsed_u16(s@),
{
    s.parse::<u16>().ok()
}

/// The setting's text, or the default when it is unset.
pub open spec fn or_default(v: Option<String>, d: Seq<char>) -> Seq<char> {
    match v {
        Some(s) => s@,
        None => d,
    }
}

fn value_or(v: Option<String>, d: &str) -> (r: String)
    ensures
        r@ == or_default(v, d@),
{
    match v {
        Some(s) => s,
        None => String::from_str(d),
    }
}

/// Builds the settings from the raw values of `ENV`, `APP_NAME`, `PORT`,
/// `MONGODB_URI` and `DATABASE_NAME`; fails only when the port is not a `u16`.
pub fn env_from_values(
    env: Option<String>,
    app_name: Option<String>,
    port: Option<String>,
    mongodb_uri: Option<String>,
    mongodb_database: Option<String>,
) -> (r: Result<Env, String>)
    ensures
        r is Ok <==> parsed_u16(or_default(port, "8080"@)) is Some,
        r is Ok ==> {
            let e = r->Ok_0;
            &&& e.env@ == or_default(env, "development"@)
            &&& e.app_name@ == or_default(app_name, "Skills App"@)
            &&& Some(e.app_port) == parsed_u16(or_default(port, "8080"@))
            &&& e.mongodb_uri@ == or_default(mongodb_uri, "mongodb://127.0.0.1:27017"@)
            &&& e.mongodb_database@ == or_default(mongodb_database, "resume-dev"@)
        },
        r is Err ==> r->Err_0@ == "Invalid PORT value. Must be between 1 and 65535"@,
{
    let port_text = value_or(port, "8080");
    match parse_u16(port_text.as_str()) {
        Some(app_port) => Ok(
            Env {
                env: value_or(env, "development"),
                app_name: value_or(app_name, "Skills App"),
                app_port,
                mongodb_uri: value_or(mongodb_uri, "mongodb://127.0.0.1:27017"),
                mongodb_database: value_or(mongodb_database, "resume-dev"),
            },
        ),
        None => Err(String::from_str("Invalid PORT value. Must be between 1 and 65535")),
    }
}

} // verus!
