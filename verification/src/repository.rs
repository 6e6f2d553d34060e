//! Stored jobs: the record a job is kept as, and the conversions between records
//! and jobs.
use vstd::prelude::*;

use crate::ids::{is_v4, job_id_text, parse_job_id, random_job_id, uuid_parse, uuid_text, JobId};
use crate::job::{instant_view, job_option_view, Job, JobView};
use crate::schedule::{cron_accepts, cron_next_after, schedulable};
use crate::time::{format_rfc3339, parsed_instant, read_from_clock, read_rfc3339, rfc3339_text, utc_now, Timestamp, MAX_SECS};

verus! {

/// The store failed.
#[derive(Debug, Clone, Copy, PartialEq, Eq, Structural)]
pub struct DatabaseError;

/// What a client asks to monitor.
pub struct JobDTO {
    pub interval: String,
    pub name: String,
    pub leeway_seconds: u64,
    pub report_url: Option<String>,
}

/// A job as stored: identifier and instants as text.
pub struct JobModel {
    pub job_id: String,
    pub job_name: String,
    pub interval: String,
    pub leeway_seconds: i64,
    pub report_url: Option<String>,
    pub last_run: Option<String>,
    pub last_expected_run: Option<String>,
}

/// An optional stored instant that reads as a valid instant, if present.
pub open spec fn readable_instant(text: Option<String>) -> bool {
    match text {
        Some(s) => parsed_instant(s@) is Some,
        None => true,
    }
}

/// The instant an optional stored text holds, in nanoseconds since the epoch.
pub open spec fn stored_instant(text: Option<String>) -> Option<int> {
    match text {
        Some(s) => match parsed_instant(s@) {
            Some(t) => Some(t@),
            None => None,
        },
        None => None,
    }
}

/// The text an optional instant (nanoseconds since the epoch) is stored as.
pub open spec fn instant_text(t: Option<int>) -> Option<Seq<char>> {
    match t {
        Some(t) => Some(rfc3339_text(t)),
        None => None,
    }
}

/// The view of an optional text.
pub open spec fn text_view(text: Option<String>) -> Option<Seq<char>> {
    match text {
        Some(s) => Some(s@),
        None => None,
    }
}

/// Whether a record can be read: its identifier is a UUID and its instants are valid
/// RFC 3339 instants.
pub open spec fn readable(model: JobModel) -> bool {
    &&& uuid_parse(model.job_id@) is Some
    &&& readable_instant(model.last_run)
    &&& readable_instant(model.last_expected_run)
}

/// Whether `job` is what the record `model` reads as: every field taken from the
/// record, and a next run at which the schedule fires after some instant.
pub open spec fn read_from(model: JobModel, job: JobView) -> bool {
    &&& job.id == uuid_parse(model.job_id@)->0
    &&& job.name == model.job_name@
    &&& job.schedule == model.interval@
    &&& job.leeway_seconds == model.leeway_seconds as u64
    &&& job.last_run == stored_instant(model.last_run)
    &&& job.last_expected_run == stored_instant(model.last_expected_run)
    &&& cron_accepts(model.interval@)
    &&& exists|now: int| cron_next_after(model.interval@, now) == Some(job.next_run)
}

/// Reads an optional stored instant.
fn read_instant(text: &Option<String>) -> (r: Option<Timestamp>)
    requires
        readable_instant(*text),
    ensures
        instant_view(r) == stored_instant(*text),
        crate::job::valid_if_some(r),
{
    match text {
        Some(s) => {
            let t = read_rfc3339(s.as_str());
            t
        },
        None => None,
    }
}

/// The job that the record `model` describes when its next run is computed from the
/// instant `now`: every field taken from the record, the next run the schedule's first
/// firing after `now`; `None` when the schedule is refused or never fires after `now`.
pub open spec fn model_job(model: JobModel, now: int) -> Option<JobView> {
    if cron_accepts(model.interval@) && cron_next_after(model.interval@, now) is Some {
        Some(
            JobView {
                id: uuid_parse(model.job_id@)->0,
                name: model.job_name@,
                schedule: model.interval@,
                last_run: stored_instant(model.last_run),
                last_expected_run: stored_instant(model.last_expected_run),
                next_run: cron_next_after(model.interval@, now)->0,
                leeway_seconds: (model.leeway_seconds as u64) as nat,
            },
        )
    } else {
        None
    }
}

/// What the record `model` reads as with the clock at `now`: `model_job` at `now`, and
/// nothing at an instant so late that no next run can follow it.
pub open spec fn model_job_at_clock(model: JobModel, now: Timestamp) -> Option<JobView> {
    if now.secs < MAX_SECS {
        model_job(model, now@)
    } else {
        None
    }
}

/// Whether a read job is none or well formed.
pub open spec fn wf_if_some(job: Option<Job>) -> bool {
    match job {
        Some(job) => job.wf(),
        None => true,
    }
}

/// The job a stored record describes, its next run computed from the instant `now`:
/// `None` exactly when the schedule is refused or never fires after `now`.
pub fn from_model_at(model: &JobModel, now: Timestamp) -> (r: Option<Job>)
    requires
        readable(*model),
        schedulable(now),
    ensures
        job_option_view(r) == model_job(*model, now@),
        wf_if_some(r),
        r matches Some(job) ==> now@ < job@.next_run,
{
    let id = match parse_job_id(model.job_id.as_str()) {
        Some(id) => id,
        None => return None,
    };
    let last_run = read_instant(&model.last_run);
    let last_expected_run = read_instant(&model.last_expected_run);
    Job::new_at(
        id,
        model.interval.as_str(),
        model.leeway_seconds as u64,
        model.job_name.as_str(),
        last_run,
        last_expected_run,
        now,
    )
}

/// The job a stored record describes, its next run computed from the current instant:
/// `from_model_at` at one reading of the clock, so that its next run lies after that
/// reading.
pub fn from_model(model: &JobModel) -> (r: Option<Job>)
    requires
        readable(*model),
    ensures
        exists|now: Timestamp|
            now.valid() && now.secs >= 0 && job_option_view(r) == #[trigger] model_job_at_clock(*model, now),
        exists|now: Timestamp| #[trigger] read_from_clock(now) && {
            &&& job_option_view(r) == model_job_at_clock(*model, now)
            &&& r matches Some(job) ==> now@ < job@.next_run
        },
        !cron_accepts(model.interval@) ==> r is None,
        wf_if_some(r),
        r matches Some(job) ==> read_from(*model, job@),
{
    let now = utc_now();
    if now.secs >= MAX_SECS {
        assert(job_option_view(None) == model_job_at_clock(*model, now));
        assert(read_from_clock(now));
        return None;
    }
    let r = from_model_at(model, now);
    assert(job_option_view(r) == model_job_at_clock(*model, now));
    assert(read_from_clock(now));
    r
}

/// Whether a record can be read, checked.
pub fn is_readable(model: &JobModel) -> (r: bool)
    ensures
        r == readable(*model),
{
    let id_ok = parse_job_id(model.job_id.as_str()).is_some();
    let last_run_ok = match &model.last_run {
        Some(s) => read_rfc3339(s.as_str()).is_some(),
        None => true,
    };
    let last_expected_ok = match &model.last_expected_run {
        Some(s) => read_rfc3339(s.as_str()).is_some(),
        None => true,
    };
    id_ok && last_run_ok && last_expected_ok
}

/// The job a stored record describes, or `None` when the record cannot be read; a
/// readable record is read as `from_model` reads it.
pub fn try_from_model(model: &JobModel) -> (r: Option<Job>)
    ensures
        !readable(*model) ==> r is None,
        readable(*model) ==> exists|now: Timestamp|
            now.valid() && now.secs >= 0 && job_option_view(r) == #[trigger] model_job_at_clock(*model, now),
        readable(*model) ==> exists|now: Timestamp| #[trigger] read_from_clock(now) && {
            &&& job_option_view(r) == model_job_at_clock(*model, now)
            &&& r matches Some(job) ==> now@ < job@.next_run
        },
        !cron_accepts(model.interval@) ==> r is None,
        wf_if_some(r),
        r matches Some(job) ==> read_from(*model, job@),
{
    if is_readable(model) {
        from_model(model)
    } else {
        None
    }
}

/// The views of `jobs`, in order.
pub open spec fn job_views(jobs: Seq<Job>) -> Seq<JobView> {
    jobs.map_values(|job: Job| job@)
}

/// The jobs that the records `models` describe with the clock at `now`, in record order:
/// one per record whose schedule is accepted and fires after `now`.
pub open spec fn built_at(models: Seq<JobModel>, now: int) -> Seq<JobView>
    decreases models.len(),
{
    if models.len() == 0 {
        Seq::empty()
    } else {
        let before = built_at(models.drop_last(), now);
        match model_job(models.last(), now) {
            Some(job) => before.push(job),
            None => before,
        }
    }
}

/// What the records `models` read as with the clock at `now`: `built_at` at `now`, and no
/// job at an instant so late that no next run can follow it.
pub open spec fn listed_at_clock(models: Seq<JobModel>, now: Timestamp) -> Seq<JobView> {
    if now.secs < MAX_SECS {
        built_at(models, now@)
    } else {
        Seq::empty()
    }
}

/// Whether every record of `models` can be read.
pub open spec fn all_readable(models: Seq<JobModel>) -> bool {
    forall|i: int| 0 <= i < models.len() ==> readable(#[trigger] models[i])
}

/// Checks that every record of `models` can be read.
fn check_all_readable(models: &Vec<JobModel>) -> (r: bool)
    ensures
        r == all_readable(models@),
{
    let mut k: usize = 0;
    while k < models.len()
        invariant
            0 <= k <= models.len(),
            forall|i: int| 0 <= i < k ==> readable(#[trigger] models@[i]),
        decreases models.len() - k,
    {
        if !is_readable(&models[k]) {
            return false;
        }
        k = k + 1;
    }
    true
}

/// The jobs that stored records describe with the clock at `now`, in record order: one per
/// record whose schedule is accepted and fires after `now`, the others left out. `None`
/// when a record cannot be read.
pub fn jobs_from_models_at(models: &Vec<JobModel>, now: Timestamp) -> (r: Option<Vec<Job>>)
    requires
        schedulable(now),
    ensures
        r is Some <==> all_readable(models@),
        r matches Some(jobs) ==> {
            &&& job_views(jobs@) == built_at(models@, now@)
            &&& forall|j: int| 0 <= j < jobs.len() ==> (#[trigger] jobs@[j]).wf()
            &&& forall|j: int| 0 <= j < jobs.len() ==> now@ < (#[trigger] jobs@[j])@.next_run
        },
{
    if !check_all_readable(models) {
        return None;
    }
    let mut jobs: Vec<Job> = Vec::new();
    let mut i: usize = 0;
    while i < models.len()
        invariant
            0 <= i <= models.len(),
            schedulable(now),
            all_readable(models@),
            job_views(jobs@) == built_at(models@.take(i as int), now@),
            forall|j: int| 0 <= j < jobs.len() ==> (#[trigger] jobs@[j]).wf(),
            forall|j: int| 0 <= j < jobs.len() ==> now@ < (#[trigger] jobs@[j])@.next_run,
        decreases models.len() - i,
    {
        let ghost before = jobs@;
        proof {
            assert(models@.take(i + 1).drop_last() =~= models@.take(i as int));
            assert(models@.take(i + 1).last() == models@[i as int]);
            assert(readable(models@[i as int]));
        }
        match from_model_at(&models[i], now) {
            Some(job) => {
                jobs.push(job);
                proof {
                    assert(job_views(jobs@) =~= job_views(before).push(job@));
                    assert forall|j: int| 0 <= j < jobs.len() implies (#[trigger] jobs@[j]).wf()
                        && now@ < jobs@[j]@.next_run by {
                        if j < before.len() {
                            assert(jobs@[j] == before[j]);
                        }
                    }
                }
            },
            None => {},
        }
        i = i + 1;
    }
    proof {
        assert(models@.take(models.len() as int) =~= models@);
    }
    Some(jobs)
}

/// The jobs that stored records describe, in record order, their next runs computed
/// from one reading of the clock: `jobs_from_models_at` at that reading, so that every
/// next run lies after it. `None` when a record cannot be read.
pub fn jobs_from_models(models: &Vec<JobModel>) -> (r: Option<Vec<Job>>)
    ensures
        r is Some <==> all_readable(models@),
        r matches Some(jobs) ==> {
            &&& exists|now: Timestamp|
                now.valid() && now.secs >= 0 && job_views(jobs@) == #[trigger] listed_at_clock(models@, now)
            &&& forall|j: int| 0 <= j < jobs.len() ==> (#[trigger] jobs@[j]).wf()
            &&& exists|now: Timestamp| #[trigger] read_from_clock(now) && {
                &&& job_views(jobs@) == listed_at_clock(models@, now)
                &&& forall|j: int| 0 <= j < jobs.len() ==> now@ < (#[trigger] jobs@[j])@.next_run
            }
        },
{
    let now = utc_now();
    if now.secs >= MAX_SECS {
        if !check_all_readable(models) {
            return None;
        }
        let jobs: Vec<Job> = Vec::new();
        assert(job_views(jobs@) =~= listed_at_clock(models@, now));
        assert(read_from_clock(now));
        return Some(jobs);
    }
    let r = jobs_from_models_at(models, now);
    assert(r matches Some(jobs) ==> job_views(jobs@) == listed_at_clock(models@, now));
    assert(read_from_clock(now));
    r
}

/// The record of a new job asked for by `dto`, under a fresh random identifier, never
/// run nor expected yet.
pub fn new_job_model(dto: &JobDTO) -> (r: JobModel)
    ensures
        exists|id: JobId| #![auto]
            r.job_id@ == uuid_text(id) && uuid_parse(r.job_id@) == Some(id) && is_v4(id),
        r.job_name@ == dto.name@,
        r.interval@ == dto.interval@,
        r.leeway_seconds == dto.leeway_seconds as i64,
        text_view(r.report_url) == text_view(dto.report_url),
        r.last_run is None,
        r.last_expected_run is None,
        readable(r),
{
    let id = random_job_id();
    JobModel {
        job_id: job_id_text(id),
        job_name: dto.name.clone(),
        interval: dto.interval.clone(),
        leeway_seconds: dto.leeway_seconds as i64,
        report_url: match &dto.report_url {
            Some(url) => Some(url.clone()),
            None => None,
        },
        last_run: None,
        last_expected_run: None,
    }
}

/// Writes an optional instant as text.
fn write_instant(t: &Option<Timestamp>) -> (r: Option<String>)
    requires
        crate::job::valid_if_some(*t),
    ensures
        text_view(r) == instant_text(instant_view(*t)),
        stored_instant(r) == instant_view(*t),
{
    match t {
        Some(t) => Some(format_rfc3339(t)),
        None => None,
    }
}

/// Copies `job`'s last run and last expected run into its record, as RFC 3339 text.
pub fn update_model(model: &mut JobModel, job: &Job)
    requires
        job.wf(),
    ensures
        text_view(final(model).last_run) == instant_text(job@.last_run),
        text_view(final(model).last_expected_run) == instant_text(job@.last_expected_run),
        stored_instant(final(model).last_run) == job@.last_run,
        stored_instant(final(model).last_expected_run) == job@.last_expected_run,
        final(model).job_id == old(model).job_id,
        final(model).job_name == old(model).job_name,
        final(model).interval == old(model).interval,
        final(model).leeway_seconds == old(model).leeway_seconds,
        final(model).report_url == old(model).report_url,
{
    let last_expected_run = job.get_last_expected_run();
    let last_run = job.get_last_run();
    model.last_expected_run = write_instant(&last_expected_run);
    model.last_run = write_instant(&last_run);
}

} // verus!
