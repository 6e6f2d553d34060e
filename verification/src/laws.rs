//! Properties that hold of the library as a whole: of punctuality, of the scheduler's
//! operations, of its periodic tasks and of alert de-duplication.
use vstd::prelude::*;

use crate::ids::JobId;
use crate::job::{advanced, checked_in, created_view, leeway_nanos, punctual, ticked, Job, JobView};
use crate::schedule::cron_next_after;
use crate::scheduler::{
    all_ticked, drains, due, indexed, maintenance_step, missed, punctuality_of, queued_after_tick, reports_missed,
    timer_in_range, MaintenanceTimer, timer_after_rounds, round_due, last_snitch_round, last_update_round, SNITCH_INTERVAL_MILLIS, UPDATE_INTERVAL_MILLIS,
};
use crate::ids::uuid_parse;
use crate::repository::{built_at, model_job, read_from, stored_instant, JobModel};
use crate::service::already_sent;
use crate::time::{distance, Timestamp};

verus! {

/// A job that was never expected to run is punctual, whatever the instant.
pub proof fn law_unexpected_job_is_punctual(job: JobView, now: Option<int>)
    requires
        job.last_expected_run is None,
    ensures
        punctual(job, now),
{
}

/// A job that never ran is not punctual, when no instant is given, once a tick has made
/// a run expected.
pub proof fn law_tick_without_run_is_not_punctual(job: JobView, at: int)
    requires
        job.last_run is None,
    ensures
        !punctual(ticked(job, at), None),
{
}

/// A check-in once the pending run is due, strictly within the leeway of that run, makes
/// the job punctual, whatever the instant of the question.
pub proof fn law_check_in_within_leeway_is_punctual(job: JobView, at: int, now: Option<int>)
    requires
        job.next_run <= at,
        distance(job.next_run, at) < leeway_nanos(job),
    ensures
        punctual(checked_in(job, at), now),
{
}

/// A check-in once the pending run is due, as far as the leeway or farther from that run,
/// leaves the job not punctual when no instant is given.
pub proof fn law_late_check_in_is_not_punctual(job: JobView, at: int)
    requires
        job.next_run <= at,
        distance(job.next_run, at) >= leeway_nanos(job),
    ensures
        !punctual(checked_in(job, at), None),
{
}

/// A check-in after the last expected run, before the next run is due, keeps that
/// expected run; when it lies strictly within the leeway of it, the job is punctual
/// whatever the instant of the question.
pub proof fn law_check_in_after_due_run(job: JobView, expected: int, at: int, now: Option<int>)
    requires
        job.last_expected_run == Some(expected),
        at < job.next_run,
    ensures
        checked_in(job, at).last_expected_run == Some(expected),
        checked_in(job, at).last_run == Some(at),
        distance(expected, at) < leeway_nanos(job) ==> punctual(checked_in(job, at), now),
{
}

/// A tick before the next run is due changes neither the last expected run nor the last
/// run, so a job punctual by its last run stays so.
pub proof fn law_tick_before_due_keeps_expectation(job: JobView, at: int, now: Option<int>)
    requires
        job.last_expected_run is Some,
        at < job.next_run,
    ensures
        ticked(job, at).last_expected_run == job.last_expected_run,
        ticked(job, at).last_run == job.last_run,
        ticked(job, at).leeway_seconds == job.leeway_seconds,
        (job.last_expected_run matches Some(e) && job.last_run matches Some(l)
            && distance(e, l) < leeway_nanos(job)) ==> punctual(ticked(job, at), now),
{
}

/// Advancing to an instant before the next run is due changes neither the last expected
/// run nor the last run: a job never expected to run stays so, and stays punctual.
pub proof fn law_advance_before_due_keeps_expectation(job: JobView, at: int, now: Option<int>)
    requires
        at < job.next_run,
    ensures
        advanced(job, at).last_expected_run == job.last_expected_run,
        advanced(job, at).last_run == job.last_run,
        advanced(job, at).leeway_seconds == job.leeway_seconds,
        punctual(job, now) ==> punctual(advanced(job, at), now),
{
}

/// Ticking twice at the same instant changes nothing more than ticking once, and so does
/// advancing twice, given that the schedule's next firing after that instant lies strictly
/// after it (as the `cron` crate yields it).
pub proof fn law_tick_is_idempotent(job: JobView, at: int)
    requires
        cron_next_after(job.schedule, at) matches Some(t) ==> at < t,
    ensures
        ticked(ticked(job, at), at) == ticked(job, at),
        advanced(advanced(job, at), at) == advanced(job, at),
{
}

/// Giving the instant of the question can only make a job punctual, never the reverse.
pub proof fn law_instant_only_helps(job: JobView, now: int)
    requires
        punctual(job, None),
    ensures
        punctual(job, Some(now)),
{
}

/// A larger leeway keeps a punctual job punctual.
pub proof fn law_leeway_monotone(job: JobView, leeway_seconds: nat, now: Option<int>)
    requires
        punctual(job, now),
        job.leeway_seconds <= leeway_seconds,
    ensures
        punctual(JobView { leeway_seconds, ..job }, now),
{
    let wider = JobView { leeway_seconds, ..job };
    assert(leeway_nanos(job) <= leeway_nanos(wider)) by (nonlinear_arith)
        requires
            job.leeway_seconds <= leeway_seconds,
            leeway_nanos(job) == job.leeway_seconds * 1_000_000_000,
            leeway_nanos(wider) == leeway_seconds * 1_000_000_000,
    ;
}

/// A tick records the pending run as the last expected one when it is due or when none
/// was expected yet, else keeps the last expected run; it keeps every other field but
/// the next run.
pub proof fn law_tick_records_pending_run(job: JobView, at: int)
    ensures
        ticked(job, at).last_expected_run == if job.next_run <= at || job.last_expected_run is None {
            Some(job.next_run)
        } else {
            job.last_expected_run
        },
        ticked(job, at).last_run == job.last_run,
        ticked(job, at).id == job.id,
        ticked(job, at).schedule == job.schedule,
        ticked(job, at).leeway_seconds == job.leeway_seconds,
{
}

/// Advancing records the pending run as the last expected one when it is due, else keeps
/// the last expected run; it keeps every other field but the next run.
pub proof fn law_advance_records_due_run(job: JobView, at: int)
    ensures
        advanced(job, at).last_expected_run == if job.next_run <= at {
            Some(job.next_run)
        } else {
            job.last_expected_run
        },
        advanced(job, at).last_run == job.last_run,
        advanced(job, at).id == job.id,
        advanced(job, at).schedule == job.schedule,
        advanced(job, at).leeway_seconds == job.leeway_seconds,
{
}

/// A check-in at `at` is the job's last run afterwards.
pub proof fn law_check_in_is_last_run(job: JobView, at: int)
    ensures
        checked_in(job, at).last_run == Some(at),
        checked_in(job, at).last_expected_run == if job.next_run <= at {
            Some(job.next_run)
        } else {
            job.last_expected_run
        },
{
}

/// A job just added is known to the scheduler, and its answer is the job's own.
pub proof fn law_added_job_answers(jobs: Map<JobId, JobView>, job: JobView, now: int)
    ensures
        punctuality_of(jobs.insert(job.id, job), job.id, now) == Some((punctual(job, Some(now)), job.last_run)),
{
}

/// A job just removed is unknown to the scheduler.
pub proof fn law_removed_job_is_unknown(jobs: Map<JobId, JobView>, id: JobId, now: int)
    ensures
        punctuality_of(jobs.remove(id), id, now) is None,
{
}

/// Removing a job leaves the answers about every other job as they were.
pub proof fn law_removal_keeps_others(jobs: Map<JobId, JobView>, id: JobId, other: JobId, now: int)
    requires
        id != other,
    ensures
        punctuality_of(jobs.remove(id), other, now) == punctuality_of(jobs, other, now),
{
}

/// After a check-in, the scheduler answers with the check-in as the job's last run.
pub proof fn law_check_in_answers(jobs: Map<JobId, JobView>, id: JobId, at: int, now: int)
    requires
        jobs.contains_key(id),
    ensures
        punctuality_of(jobs.insert(id, checked_in(jobs[id], at)), id, now)
            == Some((punctual(checked_in(jobs[id], at), Some(now)), Some(at))),
{
}

/// A job punctual at `now` is not among the alerts listed at `now`.
pub proof fn law_punctual_job_not_reported(
    jobs: Map<JobId, JobView>,
    id: JobId,
    now: int,
    reports: Seq<(JobId, Timestamp)>,
)
    requires
        reports_missed(jobs, now, reports),
        jobs.contains_key(id),
        punctual(jobs[id], Some(now)),
    ensures
        forall|i: int| 0 <= i < reports.len() ==> #[trigger] reports[i].0 != id,
{
    assert forall|i: int| 0 <= i < reports.len() implies #[trigger] reports[i].0 != id by {
        assert(missed(jobs, reports[i].0, reports[i].1@, now));
    }
}

/// A watched job whose last expected run got a check-in strictly within the leeway is not
/// alerted.
pub proof fn law_checked_in_job_not_reported(
    jobs: Map<JobId, JobView>,
    id: JobId,
    expected: int,
    ran: int,
    now: int,
    reports: Seq<(JobId, Timestamp)>,
)
    requires
        reports_missed(jobs, now, reports),
        jobs.contains_key(id),
        jobs[id].last_expected_run == Some(expected),
        jobs[id].last_run == Some(ran),
        distance(expected, ran) < leeway_nanos(jobs[id]),
    ensures
        forall|i: int| 0 <= i < reports.len() ==> #[trigger] reports[i].0 != id,
{
    law_punctual_job_not_reported(jobs, id, now, reports);
}

/// A watched job that was never expected to run is not alerted.
pub proof fn law_unexpected_job_not_reported(
    jobs: Map<JobId, JobView>,
    id: JobId,
    now: int,
    reports: Seq<(JobId, Timestamp)>,
)
    requires
        reports_missed(jobs, now, reports),
        jobs.contains_key(id),
        jobs[id].last_expected_run is None,
    ensures
        forall|i: int| 0 <= i < reports.len() ==> #[trigger] reports[i].0 != id,
{
    law_punctual_job_not_reported(jobs, id, now, reports);
}

/// A scheduler tick before a job's next run is due keeps that job's last expected run and
/// last run, so a job checked in within its leeway, or never expected to run, stays
/// unalerted until its next run is due.
pub proof fn law_tick_keeps_checked_in_job(jobs: Map<JobId, JobView>, id: JobId, now: int)
    requires
        jobs.contains_key(id),
        now < jobs[id].next_run,
    ensures
        all_ticked(jobs, now).contains_key(id),
        all_ticked(jobs, now)[id].last_expected_run == jobs[id].last_expected_run,
        all_ticked(jobs, now)[id].last_run == jobs[id].last_run,
        all_ticked(jobs, now)[id].leeway_seconds == jobs[id].leeway_seconds,
{
}

/// Indexing jobs stores each under its own identifier and keeps every identifier.
pub proof fn law_indexed_by_id(jobs: Seq<JobView>)
    ensures
        forall|k: JobId| #[trigger] indexed(jobs).contains_key(k) ==> indexed(jobs)[k].id == k,
        forall|i: int| 0 <= i < jobs.len() ==> indexed(jobs).contains_key(#[trigger] jobs[i].id),
    decreases jobs.len(),
{
    if jobs.len() > 0 {
        law_indexed_by_id(jobs.drop_last());
        assert forall|i: int| 0 <= i < jobs.len() implies indexed(jobs).contains_key(#[trigger] jobs[i].id) by {
            if i < jobs.len() - 1 {
                assert(jobs.drop_last()[i] == jobs[i]);
            }
        }
    }
}

/// A tick keeps the set of watched jobs and queues every job that was due.
pub proof fn law_tick_queues_due_jobs(jobs: Map<JobId, JobView>, queue: Map<JobId, JobView>, now: int, k: JobId)
    ensures
        all_ticked(jobs, now).dom() == jobs.dom(),
        due(jobs, k, now) ==> queued_after_tick(jobs, queue, now).contains_key(k)
            && queued_after_tick(jobs, queue, now)[k] == all_ticked(jobs, now)[k],
        !due(jobs, k, now) ==> queued_after_tick(jobs, queue, now).contains_key(k) == queue.contains_key(k),
{
    assert(all_ticked(jobs, now).dom() =~= jobs.dom());
}

/// Draining a queue hands out as many jobs as it held.
pub proof fn law_drain_hands_each_once(queue: Map<JobId, JobView>, handed: Seq<Job>)
    requires
        queue.dom().finite(),
        drains(queue, handed),
    ensures
        handed.len() == queue.len(),
{
    let ids = handed.map_values(|j: Job| j@.id);
    assert forall|i: int, j: int| 0 <= i < ids.len() && 0 <= j < ids.len() && i != j implies ids[i] != ids[j] by {
        assert(handed[i]@.id != handed[j]@.id);
    }
    assert(ids.no_duplicates());
    assert forall|id: JobId| #[trigger] ids.to_set().contains(id) <==> queue.contains_key(id) by {
        if queue.contains_key(id) {
            let i = choose|i: int| 0 <= i < handed.len() && (#[trigger] handed[i])@.id == id;
            assert(ids[i] == id);
        }
        if ids.to_set().contains(id) {
            let i = choose|i: int| 0 <= i < ids.len() && ids[i] == id;
            assert(handed[i].wf());
        }
    }
    assert(ids.to_set() =~= queue.dom());
    ids.unique_seq_to_set();
}

/// An empty queue hands out nothing.
pub proof fn law_empty_queue_hands_nothing(handed: Seq<Job>)
    requires
        drains(Map::<JobId, JobView>::empty(), handed),
    ensures
        handed.len() == 0,
{
    if handed.len() > 0 {
        assert(handed[0].wf());
    }
}

/// Once missed check-ins were alerted at `first`, they are not alerted again until one
/// snitch interval has passed.
pub proof fn law_snitch_spacing(t: MaintenanceTimer, first: int, later: int)
    requires
        timer_in_range(first),
        maintenance_step(t, first).1.run_snitch,
        first <= later < first + SNITCH_INTERVAL_MILLIS,
    ensures
        !maintenance_step(maintenance_step(t, first).0, later).1.run_snitch,
{
}

/// Once progress was stored at `first`, it is not stored again until one update
/// interval has passed.
pub proof fn law_update_spacing(t: MaintenanceTimer, first: int, later: int)
    requires
        timer_in_range(first),
        maintenance_step(t, first).1.run_updater,
        first <= later < first + UPDATE_INTERVAL_MILLIS,
    ensures
        !maintenance_step(maintenance_step(t, first).0, later).1.run_updater,
{
}

/// A task whose time has come runs.
pub proof fn law_due_task_runs(t: MaintenanceTimer, now: int)
    requires
        t.next_snitch_run <= now || t.next_update_run <= now,
    ensures
        t.next_snitch_run <= now ==> maintenance_step(t, now).1.run_snitch,
        t.next_update_run <= now ==> maintenance_step(t, now).1.run_updater,
{
}

/// Over any sequence of loop rounds started at `start`, each task's next time is one
/// interval after the last round that ran it (or after `start`).
pub proof fn lemma_rounds_next_times(start: int, readings: Seq<int>, i: int)
    requires
        timer_in_range(start),
        forall|k: int| 0 <= k < readings.len() ==> timer_in_range(#[trigger] readings[k]),
        0 <= i <= readings.len(),
    ensures
        ({
            let t0 = MaintenanceTimer {
                next_snitch_run: (start + SNITCH_INTERVAL_MILLIS) as u64,
                next_update_run: (start + UPDATE_INTERVAL_MILLIS) as u64,
            };
            &&& timer_after_rounds(t0, readings.take(i)).next_snitch_run
                == last_snitch_round(start, t0, readings, i) + SNITCH_INTERVAL_MILLIS
            &&& timer_after_rounds(t0, readings.take(i)).next_update_run
                == last_update_round(start, t0, readings, i) + UPDATE_INTERVAL_MILLIS
        }),
    decreases i,
{
    let t0 = MaintenanceTimer {
        next_snitch_run: (start + SNITCH_INTERVAL_MILLIS) as u64,
        next_update_run: (start + UPDATE_INTERVAL_MILLIS) as u64,
    };
    if i == 0 {
        assert(readings.take(0) =~= Seq::<int>::empty());
    } else {
        lemma_rounds_next_times(start, readings, i - 1);
        assert(readings.take(i).drop_last() =~= readings.take(i - 1));
        assert(readings.take(i).last() == readings[i - 1]);
        assert(timer_in_range(readings[i - 1]));
    }
}

/// Over any sequence of loop rounds started at `start`, a round alerts missed check-ins
/// exactly when one snitch interval has passed since the last round that did (or since
/// `start`), and stores progress exactly when one update interval has passed since the
/// last round that did (or since `start`).
pub proof fn law_rounds_run_tasks_on_time(start: int, readings: Seq<int>, i: int)
    requires
        timer_in_range(start),
        forall|k: int| 0 <= k < readings.len() ==> timer_in_range(#[trigger] readings[k]),
        0 <= i < readings.len(),
    ensures
        ({
            let t0 = MaintenanceTimer {
                next_snitch_run: (start + SNITCH_INTERVAL_MILLIS) as u64,
                next_update_run: (start + UPDATE_INTERVAL_MILLIS) as u64,
            };
            &&& round_due(t0, readings, i).run_snitch
                <==> readings[i] >= last_snitch_round(start, t0, readings, i) + SNITCH_INTERVAL_MILLIS
            &&& round_due(t0, readings, i).run_updater
                <==> readings[i] >= last_update_round(start, t0, readings, i) + UPDATE_INTERVAL_MILLIS
        }),
{
    lemma_rounds_next_times(start, readings, i);
}

/// With the loop clock never going back and never before `start`, the last round that
/// ran a task before round `k` is not earlier than any round `i < k` that ran it.
proof fn lemma_last_round_not_earlier(start: int, readings: Seq<int>, i: int, k: int)
    requires
        forall|a: int, b: int| 0 <= a <= b < readings.len() ==> readings[a] <= readings[b],
        0 <= i < k <= readings.len(),
    ensures
        ({
            let t0 = MaintenanceTimer {
                next_snitch_run: (start + SNITCH_INTERVAL_MILLIS) as u64,
                next_update_run: (start + UPDATE_INTERVAL_MILLIS) as u64,
            };
            &&& round_due(t0, readings, i).run_snitch ==> last_snitch_round(start, t0, readings, k) >= readings[i]
            &&& round_due(t0, readings, i).run_updater ==> last_update_round(start, t0, readings, k) >= readings[i]
        }),
    decreases k,
{
    if k > i + 1 {
        lemma_last_round_not_earlier(start, readings, i, k - 1);
    }
}

/// With the loop clock never going back and never before `start`, two rounds that alert
/// missed check-ins are at least one snitch interval apart, and the first comes at least
/// one snitch interval after `start`; the same holds of storing progress with the update
/// interval.
pub proof fn law_rounds_spaced(start: int, readings: Seq<int>, i: int, j: int)
    requires
        timer_in_range(start),
        forall|k: int| 0 <= k < readings.len() ==> timer_in_range(#[trigger] readings[k]),
        forall|a: int, b: int| 0 <= a <= b < readings.len() ==> readings[a] <= readings[b],
        0 <= i < j < readings.len(),
    ensures
        ({
            let t0 = MaintenanceTimer {
                next_snitch_run: (start + SNITCH_INTERVAL_MILLIS) as u64,
                next_update_run: (start + UPDATE_INTERVAL_MILLIS) as u64,
            };
            &&& round_due(t0, readings, i).run_snitch && round_due(t0, readings, j).run_snitch
                ==> readings[j] >= readings[i] + SNITCH_INTERVAL_MILLIS
            &&& round_due(t0, readings, i).run_updater && round_due(t0, readings, j).run_updater
                ==> readings[j] >= readings[i] + UPDATE_INTERVAL_MILLIS
            &&& round_due(t0, readings, i).run_snitch && last_snitch_round(start, t0, readings, i) == start
                ==> readings[i] >= start + SNITCH_INTERVAL_MILLIS
            &&& round_due(t0, readings, i).run_updater && last_update_round(start, t0, readings, i) == start
                ==> readings[i] >= start + UPDATE_INTERVAL_MILLIS
        }),
{
    law_rounds_run_tasks_on_time(start, readings, i);
    law_rounds_run_tasks_on_time(start, readings, j);
    lemma_last_round_not_earlier(start, readings, i, j);
}

/// A job's progress, written into its record (as `update_model` leaves it), reads back
/// unchanged: the job read from that record, at whatever instant, has the same
/// identifier, last run and last expected run.
pub proof fn law_stored_progress_reads_back(model: JobModel, job: JobView, read: JobView, now: int)
    requires
        uuid_parse(model.job_id@) == Some(job.id),
        stored_instant(model.last_run) == job.last_run,
        stored_instant(model.last_expected_run) == job.last_expected_run,
        read_from(model, read),
    ensures
        read.id == job.id,
        read.last_run == job.last_run,
        read.last_expected_run == job.last_expected_run,
        model_job(model, now) matches Some(at_now) ==> {
            &&& at_now.id == job.id
            &&& at_now.last_run == job.last_run
            &&& at_now.last_expected_run == job.last_expected_run
        },
{
}

/// Once the alert about a missed run was delivered, that missed run is not alerted
/// again, a later missed run of the same job is, and the other jobs are unaffected.
pub proof fn law_alert_once_per_missed_run(
    record: Map<JobId, Timestamp>,
    id: JobId,
    expected: Timestamp,
    other_id: JobId,
    other_expected: Timestamp,
)
    ensures
        already_sent(record.insert(id, expected), id, expected),
        other_expected != expected ==> !already_sent(record.insert(id, expected), id, other_expected),
        other_id != id ==> already_sent(record.insert(id, expected), other_id, other_expected)
            == already_sent(record, other_id, other_expected),
{
}

/// The answer about a watched job that ran, at an instant within the leeway (inclusive) of
/// its last expected run, is that it is punctual, with its last run; at an instant outside
/// the leeway, when its last run also lies outside it, the answer is that it is not.
pub proof fn law_answer_follows_the_instant(jobs: Map<JobId, JobView>, id: JobId, expected: int, t: int)
    requires
        jobs.contains_key(id),
        jobs[id].last_expected_run == Some(expected),
        jobs[id].last_run is Some,
    ensures
        distance(expected, t) <= leeway_nanos(jobs[id])
            ==> punctuality_of(jobs, id, t) == Some((true, jobs[id].last_run)),
        distance(expected, t) > leeway_nanos(jobs[id])
            && distance(expected, jobs[id].last_run->0) >= leeway_nanos(jobs[id])
            ==> punctuality_of(jobs, id, t) == Some((false, jobs[id].last_run)),
{
}

/// A watched job that ran is not alerted at an instant within the leeway (inclusive) of
/// its last expected run; one that is not punctual at that instant is alerted, with its
/// last expected run.
pub proof fn law_alerts_follow_the_instant(
    jobs: Map<JobId, JobView>,
    id: JobId,
    expected: int,
    t: int,
    reports: Seq<(JobId, Timestamp)>,
)
    requires
        reports_missed(jobs, t, reports),
        jobs.contains_key(id),
        jobs[id].last_expected_run == Some(expected),
    ensures
        jobs[id].last_run is Some && distance(expected, t) <= leeway_nanos(jobs[id])
            ==> forall|i: int| 0 <= i < reports.len() ==> #[trigger] reports[i].0 != id,
        !punctual(jobs[id], Some(t)) ==> exists|i: int|
            0 <= i < reports.len() && #[trigger] reports[i].0 == id && reports[i].1@ == expected,
{
    if jobs[id].last_run is Some && distance(expected, t) <= leeway_nanos(jobs[id]) {
        law_punctual_job_not_reported(jobs, id, t, reports);
    }
    if !punctual(jobs[id], Some(t)) {
        let i = choose|i: int| 0 <= i < reports.len() && #[trigger] reports[i].0 == id;
        assert(missed(jobs, reports[i].0, reports[i].1@, t));
    }
}

/// A job created with no expected run, its next run taken after the instant `t`, keeps
/// no expected run through every advance before that next run, so it stays punctual; in
/// particular through one at `t` itself.
pub proof fn law_created_job_not_expected_before_first_run(
    id: JobId,
    interval: Seq<char>,
    leeway_seconds: u64,
    name: Seq<char>,
    last_run: Option<Timestamp>,
    t: int,
    at: int,
    now: Option<int>,
)
    requires
        created_view(id, interval, leeway_seconds, name, last_run, None, t) is Some,
        at < created_view(id, interval, leeway_seconds, name, last_run, None, t)->0.next_run,
    ensures
        advanced(created_view(id, interval, leeway_seconds, name, last_run, None, t)->0, at).last_expected_run
            is None,
        punctual(advanced(created_view(id, interval, leeway_seconds, name, last_run, None, t)->0, at), now),
{
}

/// A job read from its record at the instant `t` keeps the stored last expected run
/// through every advance before its next run: a tick cannot mark a run as expected
/// before the schedule's first firing after the instant of reading.
pub proof fn law_read_job_keeps_stored_expectation(model: JobModel, t: int, at: int)
    requires
        model_job(model, t) is Some,
        at < model_job(model, t)->0.next_run,
    ensures
        advanced(model_job(model, t)->0, at).last_expected_run == stored_instant(model.last_expected_run),
        advanced(model_job(model, t)->0, at).last_run == stored_instant(model.last_run),
        model.last_expected_run is None ==> punctual(advanced(model_job(model, t)->0, at), None),
{
}

/// Every job listed from records at the instant `t` is what one of the records reads as
/// at `t`, and a record that reads as a job at `t` is listed.
pub proof fn law_listed_jobs_are_read_records(models: Seq<JobModel>, t: int)
    ensures
        forall|k: int| #![trigger built_at(models, t)[k]] 0 <= k < built_at(models, t).len() ==> exists|i: int|
            0 <= i < models.len() && model_job(#[trigger] models[i], t) == Some(built_at(models, t)[k]),
        forall|i: int| 0 <= i < models.len() && #[trigger] model_job(models[i], t) is Some ==> exists|k: int|
            #![trigger built_at(models, t)[k]]
            0 <= k < built_at(models, t).len() && built_at(models, t)[k] == model_job(models[i], t)->0,
    decreases models.len(),
{
    if models.len() > 0 {
        let before = models.drop_last();
        law_listed_jobs_are_read_records(before, t);
        let listed = built_at(models, t);
        let listed_before = built_at(before, t);
        assert forall|k: int| #![trigger listed[k]] 0 <= k < listed.len() implies exists|i: int|
            0 <= i < models.len() && model_job(#[trigger] models[i], t) == Some(listed[k]) by {
            if k < listed_before.len() {
                let i = choose|i: int| 0 <= i < before.len() && model_job(#[trigger] before[i], t) == Some(listed_before[k]);
                assert(models[i] == before[i]);
            } else {
                assert(models[models.len() - 1] == models.last());
            }
        }
        assert forall|i: int| 0 <= i < models.len() && #[trigger] model_job(models[i], t) is Some implies exists|k: int|
            0 <= k < listed.len() && listed[k] == model_job(models[i], t)->0 by {
            if i < models.len() - 1 {
                assert(models[i] == before[i]);
                assert(model_job(before[i], t) is Some);
                let k = choose|k: int| 0 <= k < listed_before.len() && listed_before[k] == model_job(before[i], t)->0;
                assert(listed[k] == listed_before[k]);
            } else {
                assert(models[i] == models.last());
                assert(listed[listed_before.len() as int] == model_job(models[i], t)->0);
            }
        }
    }
}

} // verus!
