//! The stored PTR records and the statements that keep them in PostgreSQL.
//! The table holds at most one record per (zone, name).
use vstd::prelude::*;

verus! {

/// A PTR record as stored: its id (a UUID as one integer), zone, name,
/// target and TTL, and when it was created and last updated (microseconds
/// since the Unix epoch, UTC).
#[derive(Debug, Clone)]
pub struct DnsRecord {
    pub id: u128,
    pub zone: String,
    pub name: String,
    pub ptr_target: String,
    pub ttl: i32,
    pub created_at: i64,
    pub updated_at: i64,
}

/// Creates the table of records, if it does not exist yet.
pub const MIGRATE_SQL: &'static str =
    "CREATE TABLE IF NOT EXISTS dns_records (
            id          UUID PRIMARY KEY DEFAULT gen_random_uuid(),
            zone        TEXT NOT NULL,
            name        TEXT NOT NULL,
            ptr_target  TEXT NOT NULL,
            ttl         INTEGER NOT NULL DEFAULT 300,
            created_at  TIMESTAMPTZ NOT NULL DEFAULT now(),
            updated_at  TIMESTAMPTZ NOT NULL DEFAULT now(),
            UNIQUE (zone, name)
        )";

/// Inserts the record of ($1 zone, $2 name) with target $3 and TTL $4, or
/// updates target, TTL and update time of the one that exists; returns it.
pub const UPSERT_PTR_SQL: &'static str =
    "INSERT INTO dns_records (zone, name, ptr_target, ttl)
        VALUES ($1, $2, $3, $4)
        ON CONFLICT (zone, name)
        DO UPDATE SET ptr_target = $3, ttl = $4, updated_at = now()
        RETURNING id, zone, name, ptr_target, ttl, created_at, updated_at";

/// Deletes the record of ($1 zone, $2 name).
pub const DELETE_PTR_SQL: &'static str = "DELETE FROM dns_records WHERE zone = $1 AND name = $2";

/// The record of ($1 zone, $2 name), if any.
pub const GET_PTR_SQL: &'static str =
    "SELECT id, zone, name, ptr_target, ttl, created_at, updated_at FROM dns_records WHERE zone = $1 AND name = $2";

/// The records of zone $1, ordered by name.
pub const LIST_PTRS_IN_ZONE_SQL: &'static str =
    "SELECT id, zone, name, ptr_target, ttl, created_at, updated_at FROM dns_records WHERE zone = $1 ORDER BY name";

/// All records, ordered by zone, then name.
pub const ALL_RECORDS_SQL: &'static str =
    "SELECT id, zone, name, ptr_target, ttl, created_at, updated_at FROM dns_records ORDER BY zone, name";

/// Whether a delete removed a record: it did when it affected any row.
pub fn deleted_any(rows_affected: u64) -> (deleted: bool)
    ensures
        deleted == (rows_affected > 0),
{
    rows_affected > 0
}

} // verus!
