use gotd_bot::job::Job;
use gotd_bot::model::{GotdJob, StoreError};
use gotd_bot::scheduler::Scheduler;

// 2021-03-10 00:00:00 at UTC-5 (midnight EST).
const T0: i64 = 1615352400;
// 2021-03-10 12:00:00 at UTC-5.
const NOON: i64 = 1615395600;
// 2021-03-11 12:00:00 at UTC-5.
const NOON_NEXT_DAY: i64 = 1615482000;
// Five hours west of UTC, in seconds east.
const UTC_MINUS_5: i32 = -18000;
// Daily at noon, in seconds-first cron form.
const DAILY_NOON: &str = "0 0 12 * * * *";

fn record(id: i32, channel_id: u64, expr: &str) -> GotdJob {
    GotdJob {
        id,
        channel_id,
        guild_id: 42,
        cron_schedule: expr.to_string(),
        created_on_ts: Some(T0),
        created_by_id: 7,
        is_deleted: false,
    }
}

#[test]
fn daily_noon_entity_created_at_midnight() {
    // Scenario: entity created at T0 with a daily-at-noon rule and offset
    // UTC-5.
    let job = Job::new(record(1, 10, DAILY_NOON), UTC_MINUS_5, T0).ok().unwrap();
    assert_eq!(job.get_date(), Some(NOON));
    assert_eq!(job.channel_id(), 10);
    assert!(!job.is_due(T0 + 1));
    assert!(job.is_due(NOON + 1));
    let mut job = job;
    job.advance(NOON + 1);
    assert_eq!(job.get_date(), Some(NOON_NEXT_DAY));
}

#[test]
fn malformed_expression_is_a_parse_error() {
    assert!(Job::new(record(1, 10, "not a cron"), UTC_MINUS_5, T0).is_err());
}

#[test]
fn advance_skips_missed_occurrences() {
    // Suspended past ten occurrences: a late advance yields the single
    // first occurrence after the wake-up instant, no backlog.
    let mut job = Job::new(record(1, 10, DAILY_NOON), UTC_MINUS_5, T0).ok().unwrap();
    let woke_up = NOON + 10 * 86400 + 3600;
    job.advance(woke_up);
    assert_eq!(job.get_date(), Some(NOON + 11 * 86400));
}

#[test]
fn refresh_isolates_parse_failures() {
    // A batch of two valid records and one malformed expression yields
    // exactly two live entities and exactly one reported failure.
    let mut sched = Scheduler::new(UTC_MINUS_5);
    let batch = vec![
        record(1, 10, DAILY_NOON),
        record(2, 11, "every other blue moon"),
        record(3, 12, DAILY_NOON),
    ];
    let dropped = sched.refresh(Ok(batch), T0);
    assert_eq!(dropped, vec![2]);
    assert_eq!(sched.jobs.len(), 2);
    assert_eq!(sched.jobs[0].channel_id(), 10);
    assert_eq!(sched.jobs[1].channel_id(), 12);
}

#[test]
fn failed_refresh_keeps_the_live_list() {
    let mut sched = Scheduler::new(UTC_MINUS_5);
    let dropped = sched.refresh(Ok(vec![record(1, 10, DAILY_NOON)]), T0);
    assert!(dropped.is_empty());
    let dropped = sched.refresh(Err(StoreError { message: String::from("store is down") }), T0 + 60);
    assert!(dropped.is_empty());
    assert_eq!(sched.jobs.len(), 1);
    assert_eq!(sched.jobs[0].channel_id(), 10);
    assert_eq!(sched.jobs[0].get_date(), Some(NOON));
}

#[test]
fn check_advances_before_any_dispatch() {
    // Scenario: two schedules due in the same tick. Both next-fire instants
    // are already advanced when the dispatch requests come back, however
    // long either dispatch will take.
    let mut sched = Scheduler::new(UTC_MINUS_5);
    sched.refresh(Ok(vec![record(1, 10, DAILY_NOON), record(2, 11, DAILY_NOON)]), T0);
    let fires = sched.check(NOON + 1);
    assert_eq!(fires, vec![10, 11]);
    assert_eq!(sched.jobs[0].get_date(), Some(NOON_NEXT_DAY));
    assert_eq!(sched.jobs[1].get_date(), Some(NOON_NEXT_DAY));
}

#[test]
fn second_check_in_the_same_tick_fires_nothing() {
    let mut sched = Scheduler::new(UTC_MINUS_5);
    sched.refresh(Ok(vec![record(1, 10, DAILY_NOON)]), T0);
    let fires = sched.check(NOON + 1);
    assert_eq!(fires, vec![10]);
    let again = sched.check(NOON + 1);
    assert!(again.is_empty());
    assert_eq!(sched.jobs[0].get_date(), Some(NOON_NEXT_DAY));
}

#[test]
fn check_skips_entities_not_yet_due() {
    let mut sched = Scheduler::new(UTC_MINUS_5);
    sched.refresh(Ok(vec![record(1, 10, DAILY_NOON)]), T0);
    let fires = sched.check(T0 + 1);
    assert!(fires.is_empty());
    assert_eq!(sched.jobs[0].get_date(), Some(NOON));
}

#[test]
fn refresh_between_checks_never_refires_a_consumed_occurrence() {
    // The noon occurrence fires once; a refresh lands between the two
    // checks; the next check must not fire the same occurrence again.
    let mut sched = Scheduler::new(UTC_MINUS_5);
    sched.refresh(Ok(vec![record(1, 10, DAILY_NOON)]), T0);
    let fires = sched.check(NOON + 1);
    assert_eq!(fires, vec![10]);
    sched.refresh(Ok(vec![record(1, 10, DAILY_NOON)]), NOON + 2);
    let fires = sched.check(NOON + 3);
    assert!(fires.is_empty());
    assert_eq!(sched.jobs[0].get_date(), Some(NOON_NEXT_DAY));
}

#[test]
fn refresh_drops_entities_no_longer_stored() {
    let mut sched = Scheduler::new(UTC_MINUS_5);
    sched.refresh(Ok(vec![record(1, 10, DAILY_NOON), record(2, 11, DAILY_NOON)]), T0);
    assert_eq!(sched.jobs.len(), 2);
    sched.refresh(Ok(vec![record(2, 11, DAILY_NOON)]), T0 + 60);
    assert_eq!(sched.jobs.len(), 1);
    assert_eq!(sched.jobs[0].channel_id(), 11);
}
