//! The statement that opens a write transaction on each database engine.
use vstd::prelude::*;

verus! {

/// The database engines the service runs on.
#[derive(Debug, Clone, Copy, PartialEq, Eq)]
pub enum DatabaseEngine {
    Postgresql,
    Sqlite,
}

/// The statement that opens a write transaction on `engine`.
pub open spec fn begin_statement(engine: DatabaseEngine) -> Seq<char> {
    match engine {
        DatabaseEngine::Sqlite => "BEGIN IMMEDIATE"@,
        DatabaseEngine::Postgresql => "BEGIN"@,
    }
}

/// Returns the SQL statement that starts a write transaction for the given
/// engine: SQLite takes its write lock at once, PostgreSQL begins plainly.
pub fn begin_transaction_sql_for_engine(engine: DatabaseEngine) -> (r: &'static str)
    ensures
        r@ == begin_statement(engine),
{
    match engine {
        DatabaseEngine::Sqlite => "BEGIN IMMEDIATE",
        DatabaseEngine::Postgresql => "BEGIN",
    }
}

/// The engine in use: the installed one, else the configured one, else
/// PostgreSQL.
pub open spec fn effective_engine(
    installed: Option<DatabaseEngine>,
    configured: Option<DatabaseEngine>,
) -> DatabaseEngine {
    match installed {
        Some(e) => e,
        None => match configured {
            Some(e) => e,
            None => DatabaseEngine::Postgresql,
        },
    }
}

/// The engine in use, from the installed engine and the configuration.
pub fn resolve_database_engine(
    installed: Option<DatabaseEngine>,
    configured: Option<DatabaseEngine>,
) -> (r: DatabaseEngine)
    ensures
        r == effective_engine(installed, configured),
{
    match installed {
        Some(e) => e,
        None => match configured {
            Some(e) => e,
            None => DatabaseEngine::Postgresql,
        },
    }
}

/// Returns the SQL statement that starts a write transaction for the engine
/// in use, given the installed engine and the configured one.
pub fn begin_transaction_sql(
    installed: Option<DatabaseEngine>,
    configured: Option<DatabaseEngine>,
) -> (r: &'static str)
    ensures
        r@ == begin_statement(effective_engine(installed, configured)),
{
    begin_transaction_sql_for_engine(resolve_database_engine(installed, configured))
}

} // verus!
