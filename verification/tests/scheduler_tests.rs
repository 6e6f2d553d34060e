use snitch::job::Job;
use snitch::scheduler::{
    MaintenanceDue, MaintenanceTimer, Scheduler, SNITCH_INTERVAL_MILLIS, UPDATE_INTERVAL_MILLIS,
};
use snitch::time::Timestamp;

const START: Timestamp = Timestamp { secs: 1_609_459_200, nanos: 0 };

fn at(seconds: i64) -> Timestamp {
    Timestamp { secs: START.secs + seconds, nanos: 0 }
}

fn hourly(id: u128, name: &str) -> Job {
    Job::new_at(id, "0 0 * * * * *", 10, name, None, None, START).unwrap()
}

#[test]
fn new_keeps_later_of_duplicate_ids() {
    let scheduler = Scheduler::new(vec![hourly(1, "first"), hourly(2, "other"), hourly(1, "second")]);
    // both ids known; punctual since never expected
    assert_eq!(scheduler.is_punctual_at(1, START), Some((true, None)));
    assert_eq!(scheduler.is_punctual_at(2, START), Some((true, None)));
    assert_eq!(scheduler.is_punctual_at(3, START), None);
    let mut scheduler = scheduler;
    let handed = scheduler.run_updater();
    assert!(handed.is_empty());
    scheduler.check_in(1, at(10));
    let handed = scheduler.run_updater();
    assert_eq!(handed.len(), 1);
    assert_eq!(handed[0].get_name(), "second");
}

#[test]
fn add_then_lookup_answers_for_job() {
    let mut scheduler = Scheduler::new(Vec::new());
    assert_eq!(scheduler.is_punctual_at(5, START), None);
    scheduler.add(hourly(5, "five"));
    assert_eq!(scheduler.is_punctual_at(5, START), Some((true, None)));
    assert!(scheduler.is_punctual(5).is_some());
    assert!(scheduler.is_punctual(6).is_none());
}

#[test]
fn remove_job_forgets_job() {
    let mut scheduler = Scheduler::new(vec![hourly(1, "a"), hourly(2, "b")]);
    scheduler.remove_job(1);
    assert_eq!(scheduler.is_punctual_at(1, START), None);
    assert_eq!(scheduler.is_punctual_at(2, START), Some((true, None)));
    scheduler.remove_job(9);
    assert_eq!(scheduler.is_punctual_at(2, START), Some((true, None)));
}

#[test]
fn check_in_records_run_and_queues_job() {
    let mut scheduler = Scheduler::new(vec![hourly(1, "a")]);
    scheduler.check_in(1, at(3600 - 4));
    assert_eq!(scheduler.is_punctual_at(1, at(3600 - 4)), Some((true, Some(at(3600 - 4)))));
    let handed = scheduler.run_updater();
    assert_eq!(handed.len(), 1);
    assert_eq!(handed[0].id(), 1);
    assert_eq!(handed[0].get_last_run(), Some(at(3600 - 4)));
    // the run at 01:00 was not due yet, so none is expected
    assert_eq!(handed[0].get_last_expected_run(), None);
    // the queue is empty afterwards
    assert!(scheduler.run_updater().is_empty());
}

#[test]
fn check_in_of_unknown_job_changes_nothing() {
    let mut scheduler = Scheduler::new(vec![hourly(1, "a")]);
    scheduler.check_in(2, at(5));
    assert!(scheduler.run_updater().is_empty());
    assert_eq!(scheduler.is_punctual_at(1, START), Some((true, None)));
}

#[test]
fn tick_queues_only_due_jobs() {
    let every_five = Job::new_at(2, "*/5 * * * * * *", 10, "fast", None, None, START).unwrap();
    let mut scheduler = Scheduler::new(vec![hourly(1, "slow"), every_five]);
    scheduler.tick(at(5));
    let handed = scheduler.run_updater();
    assert_eq!(handed.len(), 1);
    assert_eq!(handed[0].id(), 2);
    assert_eq!(handed[0].get_last_expected_run(), Some(at(5)));
    assert_eq!(handed[0].next_run(), at(10));
}

#[test]
fn snitch_targets_list_jobs_not_punctual() {
    let mut scheduler = Scheduler::new(vec![hourly(1, "late"), hourly(2, "fine"), hourly(3, "new")]);
    scheduler.check_in(1, at(60));
    scheduler.check_in(2, at(3600 - 1));
    // before 01:00 no run is expected yet, so nothing is alerted
    assert!(scheduler.snitch_targets(at(3600 - 1)).is_empty());
    scheduler.tick(at(3600));
    // job 1 ran an hour early, job 2 a second early; job 3 never ran
    let mut targets = scheduler.snitch_targets(at(3600 + 600));
    targets.sort_by_key(|target| target.0);
    assert_eq!(targets, vec![(1, at(3600)), (3, at(3600))]);
    // within the leeway of the expected run, job 1 counts as punctual; job 3 never does
    assert_eq!(scheduler.snitch_targets(at(3600 + 5)), vec![(3, at(3600))]);
    let mut now_targets = scheduler.run_snitch();
    now_targets.sort_by_key(|target| target.0);
    assert_eq!(now_targets.len(), 2);
    assert_eq!(now_targets[0].0, 1);
    assert_eq!(now_targets[1].0, 3);
}

#[test]
fn maintenance_timer_spaces_tasks() {
    let mut timer = MaintenanceTimer::new(1_000);
    assert_eq!(timer.next_snitch_run, 1_000 + SNITCH_INTERVAL_MILLIS);
    assert_eq!(timer.next_update_run, 1_000 + UPDATE_INTERVAL_MILLIS);
    assert_eq!(timer.due(1_020), MaintenanceDue { run_snitch: false, run_updater: false });
    assert_eq!(timer.due(61_000), MaintenanceDue { run_snitch: true, run_updater: false });
    assert_eq!(timer.next_snitch_run, 121_000);
    assert_eq!(timer.due(120_999), MaintenanceDue { run_snitch: false, run_updater: false });
    assert_eq!(timer.due(181_000), MaintenanceDue { run_snitch: true, run_updater: true });
    assert_eq!(timer.next_update_run, 361_000);
    assert_eq!(timer.next_snitch_run, 241_000);
}

#[test]
fn scheduler_does_not_alert_before_due_or_after_on_time_check_in() {
    let mut scheduler = Scheduler::new(vec![hourly(1, "a")]);
    // ticks every few milliseconds before the run is due: no alert
    scheduler.tick(START);
    scheduler.tick(Timestamp { secs: START.secs, nanos: 20_000_000 });
    assert!(scheduler.snitch_targets(Timestamp { secs: START.secs, nanos: 40_000_000 }).is_empty());
    // the run at 01:00 is due; ticks just after, then a check-in a second late
    scheduler.tick(Timestamp { secs: START.secs + 3600, nanos: 20_000_000 });
    scheduler.tick(Timestamp { secs: START.secs + 3600, nanos: 40_000_000 });
    scheduler.check_in(1, at(3601));
    scheduler.tick(at(3602));
    assert!(scheduler.snitch_targets(at(3602)).is_empty());
    assert!(scheduler.snitch_targets(at(7000)).is_empty());
    // the 02:00 run is missed: alerted once its leeway has passed
    scheduler.tick(at(7200));
    scheduler.tick(at(7211));
    assert_eq!(scheduler.snitch_targets(at(7211)), vec![(1, at(7200))]);
}
