//! Query backends.
use vstd::prelude::*;

verus! {

/// Backend options to help with query building
#[derive(Debug, Clone, Copy, PartialEq, Eq, Structural)]
pub struct SqliteBackendOptions {
    /// Is transactions enabled
    pub transactions: bool,
}

impl Default for SqliteBackendOptions {
    fn default() -> (res: Self)
        ensures
            !res.transactions,
    {
        SqliteBackendOptions { transactions: false }
    }
}

/// Query backend enum
#[derive(Debug, Clone, Copy, PartialEq, Eq, Structural)]
pub enum QueryBackend {
    /// SQLite backend
    Sqlite {
        /// SQLite Options
        options: SqliteBackendOptions,
    },
    /// PostgreSQL backend
    Postgres,
    /// Unknown backend
    Unknown,
}

impl Default for QueryBackend {
    fn default() -> (res: Self)
        ensures
            res == QueryBackend::Unknown,
    {
        QueryBackend::Unknown
    }
}

} // verus!
