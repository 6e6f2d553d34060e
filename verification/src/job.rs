//! A monitored job: its cron schedule, when it last ran, when it was last expected
//! to run, when it is next due, and whether it is punctual.
use vstd::prelude::*;

use crate::ids::JobId;
use crate::schedule::{cron_accepts, cron_next_after, schedulable, CronSchedule};
use crate::time::{
    closer_than_seconds, distance, read_from_clock, utc_now, within_seconds, Timestamp, MAX_SECS, NANOS_PER_SEC,
};

verus! {

/// A job watched for missed check-ins.
pub struct Job {
    id: JobId,
    name: String,
    schedule: CronSchedule,
    last_run: Option<Timestamp>,
    last_expected_run: Option<Timestamp>,
    next_run: Timestamp,
    leeway_seconds: u64,
}

/// The mathematical content of a job; instants are nanoseconds since the epoch.
pub struct JobView {
    pub id: JobId,
    pub name: Seq<char>,
    pub schedule: Seq<char>,
    pub last_run: Option<int>,
    pub last_expected_run: Option<int>,
    pub next_run: int,
    pub leeway_seconds: nat,
}

/// An optional instant, as nanoseconds since the epoch.
pub open spec fn instant_view(t: Option<Timestamp>) -> Option<int> {
    match t {
        Some(t) => Some(t@),
        None => None,
    }
}

/// An optional instant that, if present, is valid.
pub open spec fn valid_if_some(t: Option<Timestamp>) -> bool {
    match t {
        Some(t) => t.valid(),
        None => true,
    }
}

/// The leeway of `job` in nanoseconds.
pub open spec fn leeway_nanos(job: JobView) -> int {
    job.leeway_seconds * (NANOS_PER_SEC as int)
}

/// Whether `job` counts as punctual, at the instant `now` when one is given.
///
/// A job never expected to run is punctual; one expected to run that never ran is not.
/// Otherwise it is punctual when its last run lies strictly within the leeway of the last
/// expected run, or when `now` lies within the leeway (inclusive) of that expected run.
pub open spec fn punctual(job: JobView, now: Option<int>) -> bool {
    match job.last_expected_run {
        None => true,
        Some(expected) => match job.last_run {
            None => false,
            Some(ran) => {
                ||| distance(expected, ran) < leeway_nanos(job)
                ||| (now matches Some(n) && distance(expected, n) <= leeway_nanos(job))
            },
        },
    }
}

/// The next firing of `job`'s schedule after `now`, or its current next run when the
/// schedule never fires again.
pub open spec fn next_firing(job: JobView, now: int) -> int {
    match cron_next_after(job.schedule, now) {
        Some(t) => t,
        None => job.next_run,
    }
}

/// Whether a tick at `now` records `job`'s pending run as expected: the run is due, or
/// no run was expected yet.
pub open spec fn records_pending(job: JobView, now: int) -> bool {
    job.next_run <= now || job.last_expected_run is None
}

/// `job` after a tick at `now`: its pending run becomes the last expected one when it is
/// due or when no run was expected yet, and the next run moves to the schedule's first
/// firing after `now`.
pub open spec fn ticked(job: JobView, now: int) -> JobView {
    JobView {
        last_expected_run: if records_pending(job, now) {
            Some(job.next_run)
        } else {
            job.last_expected_run
        },
        next_run: next_firing(job, now),
        ..job
    }
}

/// `job` after it advances to `now`: its pending run becomes the last expected one when
/// it is due, and the next run moves to the schedule's first firing after `now`.
pub open spec fn advanced(job: JobView, now: int) -> JobView {
    JobView {
        last_expected_run: if job.next_run <= now {
            Some(job.next_run)
        } else {
            job.last_expected_run
        },
        next_run: next_firing(job, now),
        ..job
    }
}

/// `job` after a check-in at `now`: it ran at `now`, then it advances to `now`.
pub open spec fn checked_in(job: JobView, now: int) -> JobView {
    advanced(JobView { last_run: Some(now), ..job }, now)
}

/// The view of an optional job.
pub open spec fn job_option_view(job: Option<Job>) -> Option<JobView> {
    match job {
        Some(job) => Some(job@),
        None => None,
    }
}

/// The job created from these fields with its next run computed from the instant `now`:
/// the next run is the schedule's first firing after `now`; `None` when the cron
/// expression is refused or the schedule never fires after `now`.
pub open spec fn created_view(
    id: JobId,
    interval: Seq<char>,
    leeway_seconds: u64,
    name: Seq<char>,
    last_run: Option<Timestamp>,
    last_expected_run: Option<Timestamp>,
    now: int,
) -> Option<JobView> {
    if cron_accepts(interval) && cron_next_after(interval, now) is Some {
        Some(
            JobView {
                id,
                name,
                schedule: interval,
                last_run: instant_view(last_run),
                last_expected_run: instant_view(last_expected_run),
                next_run: cron_next_after(interval, now)->0,
                leeway_seconds: leeway_seconds as nat,
            },
        )
    } else {
        None
    }
}

impl View for Job {
    type V = JobView;

    closed spec fn view(&self) -> JobView {
        JobView {
            id: self.id,
            name: self.name@,
            schedule: self.schedule@,
            last_run: instant_view(self.last_run),
            last_expected_run: instant_view(self.last_expected_run),
            next_run: self.next_run@,
            leeway_seconds: self.leeway_seconds as nat,
        }
    }
}

impl Job {
    /// Every instant the job holds is valid.
    pub closed spec fn wf(&self) -> bool {
        &&& self.next_run.valid()
        &&& valid_if_some(self.last_run)
        &&& valid_if_some(self.last_expected_run)
    }

    /// Creates a job whose next run is the schedule's first firing after `now`.
    /// `None` when the cron expression is refused or the schedule never fires after `now`.
    pub fn new_at(
        id: JobId,
        interval: &str,
        leeway_seconds: u64,
        name: &str,
        last_run: Option<Timestamp>,
        last_expected_run: Option<Timestamp>,
        now: Timestamp,
    ) -> (r: Option<Job>)
        requires
            valid_if_some(last_run),
            valid_if_some(last_expected_run),
            schedulable(now),
        ensures
            r is Some <==> cron_accepts(interval@) && cron_next_after(interval@, now@) is Some,
            r matches Some(job) ==> {
                &&& job.wf()
                &&& job@ == JobView {
                    id,
                    name: name@,
                    schedule: interval@,
                    last_run: instant_view(last_run),
                    last_expected_run: instant_view(last_expected_run),
                    next_run: cron_next_after(interval@, now@)->0,
                    leeway_seconds: leeway_seconds as nat,
                }
                &&& now@ < job@.next_run
            },
            job_option_view(r) == created_view(
                id,
                interval@,
                leeway_seconds,
                name@,
                last_run,
                last_expected_run,
                now@,
            ),
    {
        let schedule = match CronSchedule::parse(interval) {
            Some(schedule) => schedule,
            None => return None,
        };
        let next_run = match schedule.next_after(&now) {
            Some(t) => t,
            None => return None,
        };
        Some(Job {
            id,
            name: name.to_owned(),
            schedule,
            last_run,
            last_expected_run,
            next_run,
            leeway_seconds,
        })
    }

    /// Creates a job whose next run is the schedule's first firing after the current
    /// instant: `new_at` at one reading of the clock, whose next run lies after that
    /// reading. `None` when the cron expression is refused or the schedule never fires
    /// after the reading (or the reading is so late that no next run can follow it).
    pub fn new(
        id: JobId,
        interval: &str,
        leeway_seconds: u64,
        name: &str,
        last_run: Option<Timestamp>,
        last_expected_run: Option<Timestamp>,
    ) -> (r: Option<Job>)
        requires
            valid_if_some(last_run),
            valid_if_some(last_expected_run),
        ensures
            !cron_accepts(interval@) ==> r is None,
            r matches Some(job) ==> {
                &&& job.wf()
                &&& cron_accepts(interval@)
                &&& exists|now: int| cron_next_after(interval@, now) == Some(job@.next_run)
                &&& job@ == JobView {
                    id,
                    name: name@,
                    schedule: interval@,
                    last_run: instant_view(last_run),
                    last_expected_run: instant_view(last_expected_run),
                    next_run: job@.next_run,
                    leeway_seconds: leeway_seconds as nat,
                }
            },
            exists|now: Timestamp| #[trigger] read_from_clock(now) && {
                &&& now.secs < MAX_SECS ==> job_option_view(r) == created_view(
                    id,
                    interval@,
                    leeway_seconds,
                    name@,
                    last_run,
                    last_expected_run,
                    now@,
                )
                &&& now.secs >= MAX_SECS ==> r is None
                &&& r matches Some(job) ==> now@ < job@.next_run
            },
    {
        let now = utc_now();
        if now.secs >= MAX_SECS {
            return None;
        }
        Job::new_at(id, interval, leeway_seconds, name, last_run, last_expected_run, now)
    }

    pub fn id(&self) -> (r: JobId)
        ensures
            r == self@.id,
    {
        self.id
    }

    pub fn get_name(&self) -> (r: String)
        ensures
            r@ == self@.name,
    {
        self.name.clone()
    }

    pub fn get_last_run(&self) -> (r: Option<Timestamp>)
        ensures
            instant_view(r) == self@.last_run,
            self.wf() ==> valid_if_some(r),
    {
        self.last_run
    }

    pub fn get_last_expected_run(&self) -> (r: Option<Timestamp>)
        ensures
            instant_view(r) == self@.last_expected_run,
            self.wf() ==> valid_if_some(r),
    {
        self.last_expected_run
    }

    /// When the job is next due.
    pub fn next_run(&self) -> (r: Timestamp)
        ensures
            r@ == self@.next_run,
            self.wf() ==> r.valid(),
    {
        self.next_run
    }

    /// The cron expression of the job's schedule.
    pub fn interval(&self) -> (r: &str)
        ensures
            r@ == self@.schedule,
    {
        self.schedule.expression()
    }

    pub fn leeway_seconds(&self) -> (r: u64)
        ensures
            r == self@.leeway_seconds,
    {
        self.leeway_seconds
    }

    /// Records the pending run as the last expected one when it is due or when no run was
    /// expected yet, and moves the next run to the schedule's first firing after `now`.
    /// Returns whether the pending run was due.
    pub fn tick(&mut self, now: Timestamp) -> (updated: bool)
        requires
            old(self).wf(),
            schedulable(now),
        ensures
            final(self).wf(),
            final(self)@ == ticked(old(self)@, now@),
            updated == (old(self)@.next_run <= now@),
            cron_next_after(old(self)@.schedule, now@) is Some ==> now@ < final(self)@.next_run,
    {
        let updated = self.next_run.not_after(&now);
        if updated || self.last_expected_run.is_none() {
            self.last_expected_run = Some(self.next_run);
        }
        if let Some(next_run) = self.schedule.next_after(&now) {
            self.next_run = next_run;
        }
        updated
    }

    /// Records the pending run as the last expected one when it is due, and moves the next
    /// run to the schedule's first firing after `now`. Returns whether the pending run was
    /// due.
    pub fn advance(&mut self, now: Timestamp) -> (updated: bool)
        requires
            old(self).wf(),
            schedulable(now),
        ensures
            final(self).wf(),
            final(self)@ == advanced(old(self)@, now@),
            updated == (old(self)@.next_run <= now@),
            cron_next_after(old(self)@.schedule, now@) is Some ==> now@ < final(self)@.next_run,
    {
        let updated = self.next_run.not_after(&now);
        if updated {
            self.last_expected_run = Some(self.next_run);
        }
        if let Some(next_run) = self.schedule.next_after(&now) {
            self.next_run = next_run;
        }
        updated
    }

    /// Records a check-in at `now`, then advances to `now`.
    pub fn run(&mut self, now: Timestamp)
        requires
            old(self).wf(),
            schedulable(now),
        ensures
            final(self).wf(),
            final(self)@ == checked_in(old(self)@, now@),
    {
        self.last_run = Some(now);
        self.advance(now);
    }

    /// Whether the job is punctual, at the instant `now` when one is given.
    pub fn is_punctual(&self, now: Option<Timestamp>) -> (r: bool)
        ensures
            r == punctual(self@, instant_view(now)),
    {
        let last_expected_run = match self.last_expected_run {
            Some(t) => t,
            None => return true,
        };
        let last_run = match self.last_run {
            Some(t) => t,
            None => return false,
        };
        let within_leeway = match now {
            Some(now) => within_seconds(&last_expected_run, &now, self.leeway_seconds),
            None => false,
        };
        let ran_recently = closer_than_seconds(&last_expected_run, &last_run, self.leeway_seconds);
        ran_recently || within_leeway
    }
}

impl Clone for Job {
    fn clone(&self) -> (r: Self)
        ensures
            r@ == self@,
            r.wf() == self.wf(),
    {
        Job {
            id: self.id,
            name: self.name.clone(),
            schedule: self.schedule.clone(),
            last_run: self.last_run,
            last_expected_run: self.last_expected_run,
            next_run: self.next_run,
            leeway_seconds: self.leeway_seconds,
        }
    }
}

} // verus!
