//! The HTTP API's rules: the bodies it reads and writes and the answer it gives at
//! each step of a request.
use fake::Fake;
use vstd::prelude::*;
use vstd::string::StringExecFns;

use crate::comm::CommError;
use crate::ids::{job_id_text, parse_job_id, uuid_parse, uuid_text, JobId};
use crate::job::{valid_if_some, Job};
use crate::repository::{text_view, DatabaseError, JobDTO};
use crate::time::{format_rfc3339, rfc3339_text, Timestamp};

verus! {

/// The body of a request to monitor a job.
pub struct JobRequest {
    pub schedule: String,
    pub leeway_seconds: u64,
    pub report_url: Option<String>,
    pub name: Option<String>,
}

/// The answer to a created job.
pub struct JobCreationResponse {
    pub id: String,
    pub name: String,
}

/// The answer to a job lookup.
pub struct JobDetailResponse {
    pub id: String,
    pub name: String,
    pub punctual: Option<bool>,
    pub last_check_in: Option<String>,
}

/// The HTTP statuses the API answers with, besides a body.
#[derive(Debug, Clone, Copy, PartialEq, Eq, Structural)]
pub enum ApiStatus {
    NoContent,
    BadRequest,
    NotFound,
    InternalServerError,
}

/// A random English word: `Word(EN).fake::<String>()` of the `fake` crate.
/// Trusted: the word is random; it is drawn from the `fake` crate's English lorem word
/// list, whose words are all non-empty and hold no hyphen, which is all that is stated.
#[verifier::external_body]
fn random_word() -> (r: String)
    ensures
        r@.len() > 0,
        !r@.contains('-'),
{
    fake::faker::lorem::raw::Word(fake::locales::EN).fake::<String>()
}

/// Whether `name` is two non-empty words without hyphens, joined by a hyphen.
pub open spec fn hyphenated_pair(name: Seq<char>) -> bool {
    exists|first: Seq<char>, second: Seq<char>|
        #![trigger first + seq!['-'] + second]
        first.len() > 0 && second.len() > 0 && !first.contains('-') && !second.contains('-')
            && name == first + seq!['-'] + second
}

/// The name of the job asked for: the requested name, or two random words joined by a
/// hyphen when none is given.
pub fn job_name_for(request: &JobRequest) -> (r: String)
    ensures
        request.name matches Some(name) ==> r@ == name@,
        request.name is None ==> hyphenated_pair(r@),
{
    match &request.name {
        Some(name) => name.clone(),
        None => {
            let first = random_word();
            let second = random_word();
            let joined = first.concat("-").concat(second.as_str());
            proof {
                reveal_strlit("-");
                assert(joined@ == first@ + seq!['-'] + second@);
            }
            joined
        },
    }
}

/// What to store for a request to monitor a job, under the name `name`.
pub fn job_dto(request: &JobRequest, name: &String) -> (r: JobDTO)
    ensures
        r.interval@ == request.schedule@,
        r.name@ == name@,
        r.leeway_seconds == request.leeway_seconds,
        text_view(r.report_url) == text_view(request.report_url),
{
    JobDTO {
        interval: request.schedule.clone(),
        name: name.clone(),
        leeway_seconds: request.leeway_seconds,
        report_url: match &request.report_url {
            Some(url) => Some(url.clone()),
            None => None,
        },
    }
}

/// The answer to a request to monitor a job once the store answered: the stored job's
/// identifier, or a bad request reading "Could not create job".
pub fn stored_job_id(stored: Result<&Job, DatabaseError>) -> (r: Result<JobId, String>)
    ensures
        stored matches Ok(job) ==> r == Ok::<JobId, String>(job@.id),
        stored is Err ==> (r matches Err(message) && message@ == "Could not create job"@),
{
    match stored {
        Ok(job) => Ok(job.id()),
        Err(_) => Err(String::from_str("Could not create job")),
    }
}

/// The answer to a request to monitor a job once the job was handed to the scheduler:
/// its identifier and name, or a bad request reading "Could not add job".
pub fn creation_reply(job_id: JobId, name: String, sent: Result<(), CommError>) -> (r: Result<JobCreationResponse, String>)
    ensures
        sent is Ok ==> (r matches Ok(response) && response.id@ == uuid_text(job_id) && response.name@ == name@),
        sent is Err ==> (r matches Err(message) && message@ == "Could not add job"@),
{
    match sent {
        Ok(()) => Ok(JobCreationResponse { id: job_id_text(job_id), name }),
        Err(_) => Err(String::from_str("Could not add job")),
    }
}

/// The job a request names by the text of its identifier, or a bad request when the
/// text is no UUID.
pub fn requested_job(id: &str) -> (r: Result<JobId, ApiStatus>)
    ensures
        match uuid_parse(id@) {
            Some(job_id) => r == Ok::<JobId, ApiStatus>(job_id),
            None => r == Err::<JobId, ApiStatus>(ApiStatus::BadRequest),
        },
{
    match parse_job_id(id) {
        Some(job_id) => Ok(job_id),
        None => Err(ApiStatus::BadRequest),
    }
}

/// The answer to a check-in once it was handed to the scheduler: no content, or an
/// internal server error when the hand-over failed.
pub fn check_in_reply(sent: Result<(), CommError>) -> (r: ApiStatus)
    ensures
        sent is Ok ==> r == ApiStatus::NoContent,
        sent is Err ==> r == ApiStatus::InternalServerError,
{
    match sent {
        Ok(()) => ApiStatus::NoContent,
        Err(_) => ApiStatus::InternalServerError,
    }
}

/// The job a lookup found in the store, or the answer when there is none: not found
/// for an unknown job, an internal server error when the store failed.
pub fn found_job(found: Result<Option<Job>, DatabaseError>) -> (r: Result<Job, ApiStatus>)
    ensures
        found is Err ==> r == Err::<Job, ApiStatus>(ApiStatus::InternalServerError),
        found == Ok::<Option<Job>, DatabaseError>(None) ==> r == Err::<Job, ApiStatus>(ApiStatus::NotFound),
        found matches Ok(Some(job)) ==> r == Ok::<Job, ApiStatus>(job),
{
    match found {
        Ok(Some(job)) => Ok(job),
        Ok(None) => Err(ApiStatus::NotFound),
        Err(_) => Err(ApiStatus::InternalServerError),
    }
}

/// The answer to a lookup of `job` once the scheduler answered whether it is punctual
/// and when it last ran: the job's identifier, name, punctuality and last check-in as
/// RFC 3339 text, or an internal server error when the scheduler gave no answer.
pub fn job_detail(job: &Job, punctuality: Option<(bool, Option<Timestamp>)>) -> (r: Result<JobDetailResponse, ApiStatus>)
    requires
        punctuality matches Some((_, last_run)) ==> valid_if_some(last_run),
    ensures
        punctuality is None ==> (r matches Err(status) && status == ApiStatus::InternalServerError),
        punctuality matches Some((punctual, last_run)) ==> (r matches Ok(detail) && {
            &&& detail.id@ == uuid_text(job@.id)
            &&& detail.name@ == job@.name
            &&& detail.punctual == Some(punctual)
            &&& text_view(detail.last_check_in) == match last_run {
                Some(t) => Some(rfc3339_text(t@)),
                None => None::<Seq<char>>,
            }
        }),
{
    match punctuality {
        None => Err(ApiStatus::InternalServerError),
        Some((punctual, last_run)) => Ok(JobDetailResponse {
            id: job_id_text(job.id()),
            name: job.get_name(),
            punctual: Some(punctual),
            last_check_in: match last_run {
                Some(t) => Some(format_rfc3339(&t)),
                None => None,
            },
        }),
    }
}

/// Whether a removal may go on once it was handed to the scheduler, or the answer: an
/// internal server error when the hand-over failed.
pub fn removal_sent(sent: Result<(), CommError>) -> (r: Result<(), ApiStatus>)
    ensures
        sent is Ok ==> r is Ok,
        sent is Err ==> r == Err::<(), ApiStatus>(ApiStatus::InternalServerError),
{
    match sent {
        Ok(()) => Ok(()),
        Err(_) => Err(ApiStatus::InternalServerError),
    }
}

/// The answer to a removal once the store answered: no content, or an internal server
/// error when the store failed.
pub fn removal_reply(removed: Result<(), DatabaseError>) -> (r: ApiStatus)
    ensures
        removed is Ok ==> r == ApiStatus::NoContent,
        removed is Err ==> r == ApiStatus::InternalServerError,
{
    match removed {
        Ok(()) => ApiStatus::NoContent,
        Err(_) => ApiStatus::InternalServerError,
    }
}

} // verus!
