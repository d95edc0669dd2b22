use crate::model::{GotdJob, ParseError};
use crate::recurrence::{
    rule_next_after, rule_next_occurrence, rule_parses, rule_valid, valid_instant,
};
use vstd::prelude::*;

verus! {

/// One live schedule entity: a record snapshot, the fixed time offset its
/// occurrences are computed in, and the cached next-fire instant (`None`
/// when the rule has no further occurrence).
pub struct Job {
    pub job: GotdJob,
    pub offset_secs: i32,
    pub next_date: Option<i64>,
}

/// The entity a record yields when it is loaded at `now`.
pub open spec fn job_of_record(record: GotdJob, offset_secs: i32, now: i64) -> Job {
    Job {
        job: record,
        offset_secs: offset_secs,
        next_date: rule_next_occurrence(record.cron_schedule@, now as int, offset_secs as int),
    }
}

/// Whether the entity is due at `now`: its next-fire instant has passed.
pub open spec fn job_due(j: Job, now: i64) -> bool {
    j.next_date matches Some(t) && t < now
}

/// The entity after advancing at `now`: the next-fire instant is recomputed
/// from `now` itself, never from the old instant.
pub open spec fn advanced(j: Job, now: i64) -> Job {
    Job {
        next_date: rule_next_occurrence(j.job.cron_schedule@, now as int, j.offset_secs as int),
        ..j
    }
}

impl Job {
    /// Parses the record's recurrence expression. On success the entity's
    /// next-fire instant is the first occurrence strictly after `now`; on a
    /// parse failure the caller must exclude the record from the live set.
    pub fn new(job: GotdJob, offset_secs: i32, now: i64) -> (r: Result<Job, ParseError>)
        requires
            valid_instant(now as int),
        ensures
            r is Ok <==> rule_valid(job.cron_schedule@),
            r matches Ok(j) ==> j == job_of_record(job, offset_secs, now),
            r matches Ok(j) ==> (j.next_date matches Some(t) ==> now < t),
    {
        if !rule_parses(job.cron_schedule.as_str()) {
            return Err(ParseError);
        }
        let next_date = rule_next_after(job.cron_schedule.as_str(), now, offset_secs);
        Ok(Job { job, offset_secs, next_date })
    }

    /// The dispatch destination, copied from the record.
    pub fn channel_id(&self) -> (r: u64)
        ensures
            r == self.job.channel_id,
    {
        self.job.channel_id
    }

    /// The cached next-fire instant.
    pub fn get_date(&self) -> (r: Option<i64>)
        ensures
            r == self.next_date,
    {
        self.next_date
    }

    /// True iff the next-fire instant lies strictly before `now`.
    pub fn is_due(&self, now: i64) -> (r: bool)
        ensures
            r == job_due(*self, now),
    {
        match self.next_date {
            Some(t) => t < now,
            None => false,
        }
    }

    /// Recomputes the next-fire instant as the occurrence strictly after
    /// `now` — not after the old instant — so a process that wakes up late
    /// skips the missed occurrences instead of firing a backlog. After the
    /// call the entity is no longer due at `now`.
    pub fn advance(&mut self, now: i64)
        requires
            valid_instant(now as int),
        ensures
            *final(self) == advanced(*old(self), now),
            final(self).next_date matches Some(t) ==> now < t,
            !job_due(*final(self), now),
    {
        self.next_date = rule_next_after(self.job.cron_schedule.as_str(), now, self.offset_secs);
    }
}

} // verus!
