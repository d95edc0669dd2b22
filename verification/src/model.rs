use vstd::prelude::*;

verus! {

/// One persisted schedule record: a row of the schedule store, read-only to
/// the engine. The creation timestamp is kept as seconds since the Unix
/// epoch.
pub struct GotdJob {
    pub id: i32,
    pub channel_id: u64,
    pub guild_id: u64,
    pub cron_schedule: String,
    pub created_on_ts: Option<i64>,
    pub created_by_id: u64,
    pub is_deleted: bool,
}

/// A schedule record to be inserted into the store.
pub struct NewGotdJob {
    pub channel_id: u64,
    pub guild_id: u64,
    pub cron_schedule: String,
    pub created_by_id: u64,
}

/// A recurrence expression the evaluator cannot parse. The record carrying
/// it is excluded from the live set; it is never a reason to stop the
/// engine.
pub struct ParseError;

/// A failed read of the schedule store. The engine keeps its previous live
/// list for the cycle; the next cycle retries.
pub struct StoreError {
    pub message: String,
}

} // verus!
