//! What the service falls back on where its environment sets nothing.

use vstd::prelude::*;

verus! {

/// Where the store is found if nothing else is configured: a file beside the service.
pub open spec fn default_database_url() -> Seq<char> {
    "sqlite:db.sqlite"@
}

/// What is logged if nothing else is configured.
pub open spec fn default_log_directives() -> Seq<char> {
    "sqlx=info,tower_http=debug,info"@
}

/// The configured value, or the default in its absence.
pub open spec fn configured_or(configured: Option<String>, default: Seq<char>) -> Seq<char> {
    match configured {
        Some(value) => value@,
        None => default,
    }
}

/// The connection string of the store: the configured one, or the default.
pub fn database_url(configured: Option<String>) -> (url: String)
    ensures
        url@ == configured_or(configured, default_database_url()),
{
    match configured {
        Some(value) => value,
        None => String::from_str("sqlite:db.sqlite"),
    }
}

/// The directives of the log filter: the configured ones, or the default.
pub fn log_directives(configured: Option<String>) -> (directives: String)
    ensures
        directives@ == configured_or(configured, default_log_directives()),
{
    match configured {
        Some(value) => value,
        None => String::from_str("sqlx=info,tower_http=debug,info"),
    }
}

} // verus!
