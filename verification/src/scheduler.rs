use crate::job::{advanced, job_due, job_of_record, Job};
use crate::model::{GotdJob, StoreError};
use crate::recurrence::{rule_valid, valid_instant};
use vstd::prelude::*;

verus! {

/// One entity after a scan at `now`: advanced if it was due, untouched
/// otherwise.
pub open spec fn scanned(j: Job, now: i64) -> Job {
    if job_due(j, now) {
        advanced(j, now)
    } else {
        j
    }
}

/// The live list after a scan at `now`.
pub open spec fn scan_jobs(jobs: Seq<Job>, now: i64) -> Seq<Job> {
    jobs.map_values(|j: Job| scanned(j, now))
}

/// The channels a scan at `now` requests a dispatch to, one per due entity,
/// in list order.
pub open spec fn due_channels(jobs: Seq<Job>, now: i64) -> Seq<u64>
    decreases jobs.len(),
{
    if jobs.len() == 0 {
        Seq::empty()
    } else {
        let rest = due_channels(jobs.drop_last(), now);
        if job_due(jobs.last(), now) {
            rest.push(jobs.last().job.channel_id)
        } else {
            rest
        }
    }
}

/// The entities a refresh at `now` builds from the fetched records, in
/// record order, skipping the records whose expression does not parse.
pub open spec fn live_jobs(records: Seq<GotdJob>, offset_secs: i32, now: i64) -> Seq<Job>
    decreases records.len(),
{
    if records.len() == 0 {
        Seq::empty()
    } else {
        let rest = live_jobs(records.drop_last(), offset_secs, now);
        if rule_valid(records.last().cron_schedule@) {
            rest.push(job_of_record(records.last(), offset_secs, now))
        } else {
            rest
        }
    }
}

/// The identifiers of the records a refresh drops because their expression
/// does not parse, in record order.
pub open spec fn dropped_ids(records: Seq<GotdJob>) -> Seq<i32>
    decreases records.len(),
{
    if records.len() == 0 {
        Seq::empty()
    } else {
        let rest = dropped_ids(records.drop_last());
        if rule_valid(records.last().cron_schedule@) {
            rest
        } else {
            rest.push(records.last().id)
        }
    }
}

/// Every record either becomes a live entity or is dropped, never both.
pub proof fn lemma_live_dropped_partition(records: Seq<GotdJob>, offset_secs: i32, now: i64)
    ensures
        live_jobs(records, offset_secs, now).len() + dropped_ids(records).len() == records.len(),
    decreases records.len(),
{
    if records.len() > 0 {
        lemma_live_dropped_partition(records.drop_last(), offset_secs, now);
    }
}

/// The consumer-owned engine state: the authoritative live list of schedule
/// entities and the fixed time offset they are evaluated in. A single
/// consumer serially applies `refresh` and `check`; the ordering of those
/// calls is the only serialization the list needs.
pub struct Scheduler {
    pub jobs: Vec<Job>,
    pub offset_secs: i32,
}

impl Scheduler {
    /// An engine with no live entities yet.
    pub fn new(offset_secs: i32) -> (r: Scheduler)
        ensures
            r.jobs@ == Seq::<Job>::empty(),
            r.offset_secs == offset_secs,
    {
        Scheduler { jobs: Vec::new(), offset_secs }
    }

    /// Replaces the live list wholesale with entities built from the fetched
    /// records, skipping (and reporting) each record whose expression does
    /// not parse; one bad record never aborts the refresh for the others.
    /// When the store read failed, the previous live list is retained
    /// unchanged — same entities, same next-fire instants — and the next
    /// cycle retries.
    pub fn refresh(&mut self, fetched: Result<Vec<GotdJob>, StoreError>, now: i64) -> (dropped:
        Vec<i32>)
        requires
            valid_instant(now as int),
        ensures
            final(self).offset_secs == old(self).offset_secs,
            fetched is Err ==> final(self).jobs == old(self).jobs && dropped@ == Seq::<i32>::empty(),
            fetched matches Ok(records) ==> {
                &&& final(self).jobs@ == live_jobs(records@, old(self).offset_secs, now)
                &&& dropped@ == dropped_ids(records@)
                &&& final(self).jobs@.len() + dropped@.len() == records@.len()
                &&& forall|k: int|
                    0 <= k < final(self).jobs@.len() ==> (#[trigger] final(self).jobs@[k].next_date matches Some(
                        t,
                    ) ==> now < t)
            },
    {
        match fetched {
            Err(_) => Vec::new(),
            Ok(mut records) => {
                let ghost orig = records@;
                self.jobs.clear();
                let mut dropped: Vec<i32> = Vec::new();
                while records.len() > 0
                    invariant
                        valid_instant(now as int),
                        records@.len() <= orig.len(),
                        records@ == orig.subrange(
                            orig.len() - records@.len(),
                            orig.len() as int,
                        ),
                        self.offset_secs == old(self).offset_secs,
                        self.jobs@ == live_jobs(
                            orig.take(orig.len() - records@.len()),
                            self.offset_secs,
                            now,
                        ),
                        dropped@ == dropped_ids(orig.take(orig.len() - records@.len())),
                        forall|k: int|
                            0 <= k < self.jobs@.len() ==> (
                            #[trigger] self.jobs@[k].next_date matches Some(t) ==> now < t),
                    decreases records@.len(),
                {
                    let ghost p = orig.len() - records@.len();
                    let record = records.remove(0);
                    proof {
                        assert(record == orig[p]);
                        assert(orig.take(p + 1).drop_last() =~= orig.take(p));
                        assert(orig.take(p + 1).last() == orig[p]);
                        assert(records@ =~= orig.subrange(p + 1, orig.len() as int));
                    }
                    let record_id = record.id;
                    match Job::new(record, self.offset_secs, now) {
                        Ok(j) => self.jobs.push(j),
                        Err(_) => dropped.push(record_id),
                    }
                }
                proof {
                    assert(orig.take(orig.len() as int) =~= orig);
                    lemma_live_dropped_partition(orig, self.offset_secs, now);
                }
                dropped
            },
        }
    }

    /// One fire-detection pass at `now`: every due entity is advanced first
    /// — before any dispatch is requested, so a slow or failing dispatch can
    /// never make a later tick fire the same occurrence again — and its
    /// channel is added to the returned dispatch requests. After the pass no
    /// entity is due at `now`.
    pub fn check(&mut self, now: i64) -> (fires: Vec<u64>)
        requires
            valid_instant(now as int),
        ensures
            final(self).offset_secs == old(self).offset_secs,
            final(self).jobs@ == scan_jobs(old(self).jobs@, now),
            fires@ == due_channels(old(self).jobs@, now),
            forall|k: int|
                0 <= k < final(self).jobs@.len() ==> !job_due(#[trigger] final(self).jobs@[k], now),
    {
        let ghost orig = self.jobs@;
        let mut fires: Vec<u64> = Vec::new();
        let mut i: usize = 0;
        while i < self.jobs.len()
            invariant
                valid_instant(now as int),
                i <= self.jobs@.len(),
                self.jobs@.len() == orig.len(),
                self.offset_secs == old(self).offset_secs,
                forall|k: int| 0 <= k < i ==> self.jobs@[k] == scanned(orig[k], now),
                forall|k: int| 0 <= k < i ==> !job_due(#[trigger] self.jobs@[k], now),
                forall|k: int| i <= k < orig.len() ==> self.jobs@[k] == orig[k],
                fires@ == due_channels(orig.take(i as int), now),
            decreases orig.len() - i,
        {
            proof {
                assert(orig.take(i as int + 1).drop_last() =~= orig.take(i as int));
                assert(orig.take(i as int + 1).last() == orig[i as int]);
            }
            if self.jobs[i].is_due(now) {
                fires.push(self.jobs[i].channel_id());
                let j = &mut self.jobs[i];
                j.advance(now);
            }
            i += 1;
        }
        proof {
            assert(orig.take(orig.len() as int) =~= orig);
            assert(self.jobs@ =~= scan_jobs(orig, now));
        }
        fires
    }
}

/// At-most-once per tick: a scan's contract advances a due entity exactly
/// once and leaves no entity due at the scan instant, so a list in which no
/// entity is due — any list a scan at `now` just produced — yields a second
/// scan at the same instant that advances nothing and fires nothing.
pub proof fn lemma_scan_at_most_once(jobs: Seq<Job>, now: i64)
    requires
        forall|k: int| 0 <= k < jobs.len() ==> !job_due(#[trigger] jobs[k], now),
    ensures
        scan_jobs(jobs, now) == jobs,
        due_channels(jobs, now) == Seq::<u64>::empty(),
    decreases jobs.len(),
{
    if jobs.len() > 0 {
        lemma_scan_at_most_once(jobs.drop_last(), now);
        assert(scan_jobs(jobs, now) =~= jobs);
    } else {
        assert(scan_jobs(jobs, now) =~= jobs);
    }
}

/// A due entity is never silently dropped by a scan: its channel appears in
/// the scan's dispatch requests.
pub proof fn lemma_due_channel_fired(jobs: Seq<Job>, now: i64, k: int)
    requires
        0 <= k < jobs.len(),
        job_due(jobs[k], now),
    ensures
        due_channels(jobs, now).contains(jobs[k].job.channel_id),
    decreases jobs.len(),
{
    if k == jobs.len() - 1 {
        assert(due_channels(jobs, now).last() == jobs[k].job.channel_id);
    } else {
        lemma_due_channel_fired(jobs.drop_last(), now, k);
        let rest = due_channels(jobs.drop_last(), now);
        let i = choose|i: int| 0 <= i < rest.len() && rest[i] == jobs[k].job.channel_id;
        assert(due_channels(jobs, now)[i] == jobs[k].job.channel_id);
    }
}

/// A refresh landing between two scans is safe: the entities it installs
/// have next-fire instants strictly after the refresh instant (its
/// contract), so a later scan fires only occurrences that arose after the
/// refresh — never an occurrence a scan before the refresh already consumed
/// — and it fires every entity of the refreshed list that is due: none is
/// dropped mid-cycle.
pub proof fn lemma_refresh_isolates_scan(jobs: Seq<Job>, refreshed_at: i64, now: i64)
    requires
        refreshed_at <= now,
        forall|k: int|
            0 <= k < jobs.len() ==> (#[trigger] jobs[k].next_date matches Some(t) ==> refreshed_at
                < t),
    ensures
        forall|k: int|
            0 <= k < jobs.len() && #[trigger] job_due(jobs[k], now) ==> (
            jobs[k].next_date matches Some(t) && refreshed_at < t < now),
        forall|k: int|
            0 <= k < jobs.len() && #[trigger] job_due(jobs[k], now) ==> due_channels(
                jobs,
                now,
            ).contains(jobs[k].job.channel_id),
{
    assert forall|k: int| 0 <= k < jobs.len() && #[trigger] job_due(jobs[k], now) implies due_channels(
        jobs,
        now,
    ).contains(jobs[k].job.channel_id) by {
        lemma_due_channel_fired(jobs, now, k);
    }
}

} // verus!
