use chrono::Utc;
use snitch::job::Job;
use snitch::time::Timestamp;
use uuid::Uuid;

fn timestamp_of(dt: chrono::DateTime<Utc>) -> Timestamp {
    Timestamp { secs: dt.timestamp(), nanos: dt.timestamp_subsec_nanos() }
}

fn later(t: Timestamp, seconds: i64) -> Timestamp {
    Timestamp { secs: t.secs + seconds, nanos: t.nanos }
}

fn create_test_job() -> Job {
    Job::new(Uuid::new_v4().as_u128(), "*/5 * * * * * *", 10, "test", None, None).unwrap()
}

#[test]
fn should_be_punctual_when_newly_created() {
    let job = create_test_job();
    assert!(job.is_punctual(None));
}

#[test]
fn should_not_be_punctual_when_ticked_but_not_run() {
    let mut job = create_test_job();
    let now = timestamp_of(Utc::now());
    job.tick(now);
    assert!(!job.is_punctual(None));
}

#[test]
fn should_be_punctual_when_run_exactly_on_time() {
    let mut job = create_test_job();
    let expected_time = job.next_run();
    job.tick(expected_time);
    job.run(expected_time);
    assert!(job.is_punctual(None));
}

#[test]
fn should_be_punctual_when_run_within_leeway() {
    let mut job = create_test_job();
    let expected_time = job.next_run();
    job.tick(expected_time);
    // Run 5 seconds late (within 10 second leeway)
    job.run(later(expected_time, 14));
    assert!(job.is_punctual(None));
}

#[test]
fn should_not_be_punctual_when_run_beyond_leeway() {
    let mut job = create_test_job();
    let expected_time = job.next_run();
    job.tick(expected_time);
    // Run 15 seconds late (beyond 10 second leeway)
    job.run(later(expected_time, 15));
    assert!(!job.is_punctual(None));
}

#[test]
fn should_track_punctuality_when_run_multiple_times() {
    let mut job = create_test_job();

    // First run - on time
    let expected_time = job.next_run();
    job.tick(expected_time);
    job.run(expected_time);
    assert!(job.is_punctual(None), "Should be punctual after on-time run");

    // Second run - slightly late but within leeway
    let expected_time = job.next_run();
    job.tick(expected_time);
    job.run(later(expected_time, 5));
    assert!(job.is_punctual(None), "Should be punctual when within leeway");

    // Third run - too late
    let expected_time = job.next_run();
    job.tick(expected_time);
    job.run(later(expected_time, 15));
    assert!(!job.is_punctual(None), "Should not be punctual when beyond leeway");
}

fn job_at(interval: &str, leeway: u64, now: Timestamp) -> Job {
    Job::new_at(7, interval, leeway, "nightly", None, None, now).unwrap()
}

#[test]
fn new_at_takes_first_firing_after_now() {
    // 2021-01-01T00:00:02.5Z; every 5 seconds fires next at :05.
    let now = Timestamp { secs: 1_609_459_202, nanos: 500_000_000 };
    let job = job_at("*/5 * * * * * *", 10, now);
    assert_eq!(job.next_run(), Timestamp { secs: 1_609_459_205, nanos: 0 });
    assert_eq!(job.id(), 7);
    assert_eq!(job.get_name(), "nightly");
    assert_eq!(job.interval(), "*/5 * * * * * *");
    assert_eq!(job.leeway_seconds(), 10);
    assert_eq!(job.get_last_run(), None);
    assert_eq!(job.get_last_expected_run(), None);
}

#[test]
fn new_at_is_strictly_after_a_firing_instant() {
    let now = Timestamp { secs: 1_609_459_205, nanos: 0 };
    let job = job_at("*/5 * * * * * *", 10, now);
    assert_eq!(job.next_run(), Timestamp { secs: 1_609_459_210, nanos: 0 });
}

#[test]
fn new_refuses_invalid_cron_expression() {
    assert!(Job::new(1, "not a schedule", 10, "bad", None, None).is_none());
    let now = Timestamp { secs: 1_609_459_200, nanos: 0 };
    assert!(Job::new_at(1, "61 * * * * * *", 10, "bad", None, None, now).is_none());
}

#[test]
fn new_at_gives_none_when_schedule_never_fires_again() {
    // Only in the year 2020, asked in 2021.
    let now = Timestamp { secs: 1_609_459_200, nanos: 0 };
    assert!(Job::new_at(1, "0 0 0 1 1 * 2020", 10, "past", None, None, now).is_none());
}

#[test]
fn tick_reports_whether_pending_run_was_due() {
    let start = Timestamp { secs: 1_609_459_200, nanos: 0 };
    let mut job = job_at("*/5 * * * * * *", 10, start);
    // pending run at :05; a tick at :03 records it, not yet due
    assert!(!job.tick(later(start, 3)));
    assert_eq!(job.get_last_expected_run(), Some(later(start, 5)));
    assert_eq!(job.next_run(), later(start, 5));
    // a tick at :05 finds it due and moves on to :10
    assert!(job.tick(later(start, 5)));
    assert_eq!(job.get_last_expected_run(), Some(later(start, 5)));
    assert_eq!(job.next_run(), later(start, 10));
}

#[test]
fn run_records_last_run() {
    let start = Timestamp { secs: 1_609_459_200, nanos: 0 };
    let mut job = job_at("*/5 * * * * * *", 10, start);
    job.run(later(start, 6));
    assert_eq!(job.get_last_run(), Some(later(start, 6)));
    assert_eq!(job.get_last_expected_run(), Some(later(start, 5)));
    assert_eq!(job.next_run(), later(start, 10));
}

#[test]
fn punctuality_uses_instant_within_leeway_inclusive() {
    let start = Timestamp { secs: 1_609_459_200, nanos: 0 };
    let mut job = job_at("0 0 * * * * *", 10, start);
    // pending run at 01:00:00, recorded as expected by a tick; run at 00:00:00 -> an hour early
    job.tick(start);
    job.run(start);
    let expected = later(start, 3600);
    assert_eq!(job.get_last_expected_run(), Some(expected));
    assert!(!job.is_punctual(None));
    assert!(job.is_punctual(Some(later(expected, 10))));
    assert!(job.is_punctual(Some(later(expected, -10))));
    assert!(!job.is_punctual(Some(later(expected, 11))));
    assert!(!job.is_punctual(Some(Timestamp { secs: expected.secs + 10, nanos: 1 })));
}

#[test]
fn ran_recently_is_strict() {
    let start = Timestamp { secs: 1_609_459_200, nanos: 0 };
    let mut job = job_at("0 0 * * * * *", 10, start);
    job.tick(start);
    job.run(later(start, 3600 - 9));
    assert!(job.is_punctual(None));
    let mut job = job_at("0 0 * * * * *", 10, start);
    job.tick(start);
    job.run(later(start, 3600 - 10));
    assert!(!job.is_punctual(None));
}

#[test]
fn zero_leeway_needs_exact_clock() {
    let start = Timestamp { secs: 1_609_459_200, nanos: 0 };
    let mut job = job_at("0 0 * * * * *", 0, start);
    job.run(later(start, 3600));
    // the run at 01:00:00 ticks the pending 01:00:00 as expected
    assert!(!job.is_punctual(None));
    assert!(job.is_punctual(Some(later(start, 3600))));
}

#[test]
fn clone_keeps_every_field() {
    let start = Timestamp { secs: 1_609_459_200, nanos: 0 };
    let mut job = job_at("*/5 * * * * * *", 10, start);
    job.run(later(start, 2));
    let copy = job.clone();
    assert_eq!(copy.id(), job.id());
    assert_eq!(copy.get_name(), job.get_name());
    assert_eq!(copy.interval(), job.interval());
    assert_eq!(copy.get_last_run(), job.get_last_run());
    assert_eq!(copy.get_last_expected_run(), job.get_last_expected_run());
    assert_eq!(copy.next_run(), job.next_run());
    let mut copy = copy;
    copy.tick(later(start, 7));
    assert_eq!(copy.next_run(), later(start, 10));
}

#[test]
fn wider_leeway_keeps_job_punctual() {
    let start = Timestamp { secs: 1_609_459_200, nanos: 0 };
    let mut narrow = job_at("0 0 * * * * *", 10, start);
    let mut wide = job_at("0 0 * * * * *", 20, start);
    narrow.tick(start);
    wide.tick(start);
    narrow.run(later(start, 3600 - 12));
    wide.run(later(start, 3600 - 12));
    assert!(!narrow.is_punctual(None));
    assert!(wide.is_punctual(None));
    let mut narrow = job_at("0 0 * * * * *", 10, start);
    let mut wide = job_at("0 0 * * * * *", 20, start);
    narrow.tick(start);
    wide.tick(start);
    narrow.run(later(start, 3600 - 3));
    wide.run(later(start, 3600 - 3));
    assert!(narrow.is_punctual(None));
    assert!(wide.is_punctual(None));
}

fn millis_later(t: Timestamp, millis: i64) -> Timestamp {
    let total = t.nanos as i64 + millis * 1_000_000;
    Timestamp { secs: t.secs + total.div_euclid(1_000_000_000), nanos: total.rem_euclid(1_000_000_000) as u32 }
}

#[test]
fn tick_before_due_keeps_last_expected_run() {
    let start = Timestamp { secs: 1_609_459_200, nanos: 0 };
    let mut job = job_at("0 0 * * * * *", 60, start);
    // due at 01:00; ticks at 01:00:00.020 and 01:00:00.040
    let due = later(start, 3600);
    assert!(job.tick(millis_later(due, 20)));
    assert_eq!(job.get_last_expected_run(), Some(due));
    assert_eq!(job.next_run(), later(start, 7200));
    assert!(!job.tick(millis_later(due, 40)));
    assert_eq!(job.get_last_expected_run(), Some(due));
    // a check-in a second late, asked a second later: punctual
    job.run(later(due, 1));
    assert_eq!(job.get_last_expected_run(), Some(due));
    assert!(job.is_punctual(Some(later(due, 2))));
    assert!(job.is_punctual(None));
}

#[test]
fn tick_twice_at_same_instant_changes_nothing_more() {
    let start = Timestamp { secs: 1_609_459_200, nanos: 0 };
    let mut job = job_at("*/5 * * * * * *", 10, start);
    job.tick(later(start, 7));
    let expected = job.get_last_expected_run();
    let next = job.next_run();
    assert!(!job.tick(later(start, 7)));
    assert_eq!(job.get_last_expected_run(), expected);
    assert_eq!(job.next_run(), next);
}

#[test]
fn advance_before_due_leaves_new_job_unexpected() {
    let start = Timestamp { secs: 1_609_459_200, nanos: 0 };
    let mut job = job_at("0 0 * * * * *", 60, start);
    // never run, due at 01:00; advancing before then records nothing
    assert!(!job.advance(later(start, 3599)));
    assert_eq!(job.get_last_expected_run(), None);
    assert_eq!(job.next_run(), later(start, 3600));
    assert!(job.is_punctual(None));
    assert!(job.is_punctual(Some(later(start, 7200))));
    // once due, the run is expected, and a job that never ran is not punctual
    assert!(job.advance(later(start, 3600)));
    assert_eq!(job.get_last_expected_run(), Some(later(start, 3600)));
    assert_eq!(job.next_run(), later(start, 7200));
    assert!(!job.is_punctual(Some(later(start, 3600))));
    assert!(!job.is_punctual(None));
    // advancing again at the same instant changes nothing more
    assert!(!job.advance(later(start, 3600)));
    assert_eq!(job.get_last_expected_run(), Some(later(start, 3600)));
    assert_eq!(job.next_run(), later(start, 7200));
}

#[test]
fn expected_run_without_check_in_is_never_punctual() {
    let start = Timestamp { secs: 1_609_459_200, nanos: 0 };
    let mut job = job_at("0 0 * * * * *", 60, start);
    job.tick(start);
    assert_eq!(job.get_last_expected_run(), Some(later(start, 3600)));
    assert!(!job.is_punctual(Some(start)));
    assert!(!job.is_punctual(Some(later(start, 3599))));
    assert!(!job.is_punctual(Some(later(start, 3600))));
}

#[test]
fn run_after_expected_run_beyond_leeway_is_not_punctual() {
    let start = Timestamp { secs: 1_609_459_200, nanos: 0 };
    let mut job = job_at("0 0 * * * * *", 10, start);
    // expected at 01:00, checked in at 01:00:30, before the next run at 02:00
    job.tick(later(start, 3600));
    job.run(later(start, 3630));
    assert_eq!(job.get_last_expected_run(), Some(later(start, 3600)));
    assert_eq!(job.get_last_run(), Some(later(start, 3630)));
    assert!(!job.is_punctual(None));
    assert!(!job.is_punctual(Some(later(start, 3500))));
    assert!(job.is_punctual(Some(later(start, 3610))));
}
