//! The versions of the schema, and what brings a database of an earlier
//! version up to the current one.

use crate::statement::CREATE_TABLE;
use crate::statement::RENAME_LEGACY_STATES;
use vstd::prelude::*;

verus! {

/// The version of the schema that this library works on.
pub const CURRENT_DB_VERSION: u32 = 2;

/// What has to be done to a database of an earlier version.
#[derive(Clone, Copy, Debug, PartialEq, Eq, Structural)]
pub enum Migration {
    /// The database is new: the table of books is created.
    CreateTable,
    /// The table exists with the earlier names of the reading states, which
    /// are rewritten to the current ones.
    RenameLegacyStates,
}

/// The migration that a database of a version needs: none from the current
/// version on, the table for version zero, the renaming for what lies
/// between.
pub open spec fn migration_of(existing_version: int) -> Option<Migration> {
    if existing_version >= CURRENT_DB_VERSION {
        None
    } else if existing_version == 0 {
        Some(Migration::CreateTable)
    } else {
        Some(Migration::RenameLegacyStates)
    }
}

/// The migration that a database of a version needs, if it needs one.
pub fn migration_from(existing_version: u32) -> (migration: Option<Migration>)
    ensures
        migration == migration_of(existing_version as int),
{
    if existing_version < CURRENT_DB_VERSION {
        if existing_version == 0 {
            Some(Migration::CreateTable)
        } else {
            Some(Migration::RenameLegacyStates)
        }
    } else {
        None
    }
}

/// The SQL text that carries a migration out: the statement that creates
/// the table, or the statements that rewrite the earlier names of the
/// reading states.
pub open spec fn sql_of(migration: Migration) -> Seq<char> {
    match migration {
        Migration::CreateTable => CREATE_TABLE@,
        Migration::RenameLegacyStates => RENAME_LEGACY_STATES@,
    }
}

/// The SQL text that carries a migration out.
pub fn migration_sql(migration: Migration) -> (sql: &'static str)
    ensures
        sql@ == sql_of(migration),
{
    match migration {
        Migration::CreateTable => CREATE_TABLE,
        Migration::RenameLegacyStates => RENAME_LEGACY_STATES,
    }
}

/// The query that reads the version of the schema that a database has.
pub fn version_query() -> (sql: &'static str)
    ensures
        sql@ == "PRAGMA user_version"@,
{
    "PRAGMA user_version"
}

/// The pragma that holds the version of the schema, with the version that
/// an upgrade writes: the current one.
pub fn version_marker() -> (pragma: (&'static str, u32))
    ensures
        pragma.0@ == "user_version"@,
        pragma.1 == CURRENT_DB_VERSION,
{
    ("user_version", CURRENT_DB_VERSION)
}

/// The pragma that sets how the database keeps its journal, with the mode
/// that an upgrade sets: the write-ahead log.
pub fn journal_mode() -> (pragma: (&'static str, &'static str))
    ensures
        pragma.0@ == "journal_mode"@,
        pragma.1@ == "WAL"@,
{
    ("journal_mode", "WAL")
}

} // verus!
