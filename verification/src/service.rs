//! Alerts about missed check-ins: which job to alert about, with what, and the record
//! that keeps the same missed run from being alerted twice.
use std::collections::HashMap;
use vstd::prelude::*;

use crate::ids::JobId;
use crate::repository::{DatabaseError, JobModel};
use crate::time::{format_rfc3339, rfc3339_text, Timestamp};

verus! {

broadcast use vstd::std_specs::hash::group_hash_axioms;

/// The body of an alert about a missed check-in.
pub struct SnitchRequest {
    pub name: String,
    pub id: String,
    pub missed_check_in: String,
}

/// Why no alert is sent.
#[derive(Debug, Clone, Copy, PartialEq, Eq, Structural)]
pub enum SnitchSkip {
    /// The job could not be fetched from the store.
    LookupFailed,
    /// The store holds no such job.
    UnknownJob,
    /// This missed run was already alerted.
    AlreadySent,
    /// The job has nowhere to report to.
    NoReportUrl,
}

/// What to do about a missed check-in.
pub enum SnitchDecision {
    Skip(SnitchSkip),
    /// Post `request` as JSON to `report_url`.
    Send { report_url: String, request: SnitchRequest },
}

/// Remembers, per job, the last missed run an alert was delivered for.
pub struct JobService {
    snitch_record: HashMap<JobId, Timestamp>,
}

/// Whether an alert about the missed run `expected` of job `id` was already delivered.
pub open spec fn already_sent(record: Map<JobId, Timestamp>, id: JobId, expected: Timestamp) -> bool {
    record.contains_key(id) && record[id] == expected
}

impl View for JobService {
    /// The last alerted missed run of each job.
    type V = Map<JobId, Timestamp>;

    closed spec fn view(&self) -> Map<JobId, Timestamp> {
        self.snitch_record@
    }
}

impl JobService {
    /// A service that has delivered no alert yet.
    pub fn new() -> (r: JobService)
        ensures
            r@ == Map::<JobId, Timestamp>::empty(),
    {
        JobService { snitch_record: HashMap::new() }
    }

    /// Decides about the missed run `expected_run` of job `job_id`, given what the store
    /// answered for that job: skip it when the lookup failed, the job is unknown, this
    /// missed run was already alerted, or the job has no report URL; else send an alert
    /// naming the job and the missed run.
    pub fn snitch(
        &self,
        job_id: JobId,
        expected_run: Timestamp,
        lookup: Result<Option<JobModel>, DatabaseError>,
    ) -> (r: SnitchDecision)
        requires
            expected_run.valid(),
        ensures
            lookup is Err ==> r == SnitchDecision::Skip(SnitchSkip::LookupFailed),
            lookup == Ok::<Option<JobModel>, DatabaseError>(None) ==> r == SnitchDecision::Skip(SnitchSkip::UnknownJob),
            lookup matches Ok(Some(model)) ==> {
                if already_sent(self@, job_id, expected_run) {
                    r == SnitchDecision::Skip(SnitchSkip::AlreadySent)
                } else {
                    match model.report_url {
                        None => r == SnitchDecision::Skip(SnitchSkip::NoReportUrl),
                        Some(url) => r matches SnitchDecision::Send { report_url, request } && {
                            &&& report_url@ == url@
                            &&& request.name@ == model.job_name@
                            &&& request.id@ == model.job_id@
                            &&& request.missed_check_in@ == rfc3339_text(expected_run@)
                        },
                    }
                }
            },
    {
        let model = match lookup {
            Err(_) => return SnitchDecision::Skip(SnitchSkip::LookupFailed),
            Ok(None) => return SnitchDecision::Skip(SnitchSkip::UnknownJob),
            Ok(Some(model)) => model,
        };
        if let Some(record) = self.snitch_record.get(&job_id) {
            if *record == expected_run {
                return SnitchDecision::Skip(SnitchSkip::AlreadySent);
            }
        }
        let report_url = match model.report_url {
            Some(url) => url,
            None => return SnitchDecision::Skip(SnitchSkip::NoReportUrl),
        };
        SnitchDecision::Send {
            report_url,
            request: SnitchRequest {
                name: model.job_name,
                id: model.job_id,
                missed_check_in: format_rfc3339(&expected_run),
            },
        }
    }

    /// Records that the alert about the missed run `expected_run` of job `job_id` was
    /// delivered.
    pub fn snitch_delivered(&mut self, job_id: JobId, expected_run: Timestamp)
        ensures
            final(self)@ == old(self)@.insert(job_id, expected_run),
    {
        self.snitch_record.insert(job_id, expected_run);
    }
}

} // verus!
