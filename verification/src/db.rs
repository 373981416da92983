//! Setting up the database: the migration lock.
use vstd::prelude::*;

verus! {

/// Advisory lock held while migrations run.
pub const MIGRATION_LOCK_ID: i64 = 0xDB_DB_DB_DB_DB_DB_DB;

/// Connections in the pool.
pub const MAX_CONNECTIONS: u32 = 5;

/// What is logged once `pg_advisory_unlock` answered; `None` for a `NULL`
/// answer, on which setup gives up.
pub fn unlock_message(unlocked: Option<bool>) -> (r: Option<String>)
    ensures
        unlocked == Some(true) ==> (r matches Some(m) && m@ == "Migration lock unlocked"@),
        unlocked == Some(false) ==> (r matches Some(m) && m@ == "Failed to unlock migration lock"@),
        unlocked is None ==> r is None,
{
    match unlocked {
        Some(true) => Some(String::from_str("Migration lock unlocked")),
        Some(false) => Some(String::from_str("Failed to unlock migration lock")),
        None => None,
    }
}

} // verus!
