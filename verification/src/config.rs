//! Startup configuration: the connection string and the pool bounds.

use vstd::prelude::*;
use vstd::string::StringExecFns;

verus! {

/// Fewest connections the pool keeps open.
pub const POOL_MIN: usize = 10;

/// Most connections the pool may hold.
pub const POOL_MAX: usize = 15;

/// The address used when no connection string is configured.
pub open spec fn default_url_chars() -> Seq<char> {
    "mysql://localhost:3306/arch_db"@
}

/// The connection string the service uses: the configured one when
/// present, else the fixed local default.
pub fn choose_database_url(configured: Option<String>) -> (r: String)
    ensures
        match configured {
            Some(u) => r@ == u@,
            None => r@ == default_url_chars(),
        },
{
    match configured {
        Some(u) => u,
        None => String::from_str("mysql://localhost:3306/arch_db"),
    }
}

/// What is wrong with a connection string.
#[derive(Clone, Copy, Debug, PartialEq, Eq, Structural)]
pub enum ConfigError {
    InvalidUrl,
    MissingDatabaseName,
}

/// The database name a connection string carries, as `mysql_async` reads
/// it: `None` when the string is not a valid connection URL, `Some(None)`
/// when it names no database.
pub uninterp spec fn mysql_db_name_of(url: Seq<char>) -> Option<Option<Seq<char>>>;

spec fn db_name_view(r: Option<Option<String>>) -> Option<Option<Seq<char>>> {
    match r {
        Some(Some(s)) => Some(Some(s@)),
        Some(None) => Some(None),
        None => None,
    }
}

/// Relies on `mysql_async::Opts::from_url` and `Opts::db_name`: whether
/// the string parses as a connection URL, and which database it names;
/// both depend on the string alone.
#[verifier::external_body]
fn read_db_name(url: &str) -> (r: Option<Option<String>>)
    ensures
        db_name_view(r) == mysql_db_name_of(url@),
{
    match mysql_async::Opts::from_url(url) {
        Ok(o) => Some(o.db_name().map(|d| d.to_string())),
        Err(_) => None,
    }
}

/// Checks a connection string before the pool is built: it must parse and
/// must name a non-empty database.  The process fails fast otherwise.
pub fn validate_database_url(url: &str) -> (r: Result<(), ConfigError>)
    ensures
        match mysql_db_name_of(url@) {
            None => r == Result::<(), ConfigError>::Err(ConfigError::InvalidUrl),
            Some(None) => r == Result::<(), ConfigError>::Err(ConfigError::MissingDatabaseName),
            Some(Some(n)) => if n.len() == 0 {
                r == Result::<(), ConfigError>::Err(ConfigError::MissingDatabaseName)
            } else {
                r == Result::<(), ConfigError>::Ok(())
            },
        },
{
    match read_db_name(url) {
        None => Err(ConfigError::InvalidUrl),
        Some(None) => Err(ConfigError::MissingDatabaseName),
        Some(Some(n)) => {
            if n.as_str().is_empty() {
                Err(ConfigError::MissingDatabaseName)
            } else {
                Ok(())
            }
        },
    }
}

} // verus!
