use snitch::api::{
    check_in_reply, creation_reply, found_job, job_detail, job_dto, job_name_for, removal_reply,
    removal_sent, requested_job, stored_job_id, ApiStatus, JobRequest,
};
use snitch::comm::CommError;
use snitch::ids::{job_id_text, parse_job_id, random_job_id};
use snitch::job::Job;
use snitch::repository::DatabaseError;
use snitch::time::Timestamp;

const ID_TEXT: &str = "67e55044-10b1-426f-9247-bb680e5fe0c8";
const ID: u128 = 0x67e5504410b1426f9247bb680e5fe0c8;
const START: Timestamp = Timestamp { secs: 1_609_459_200, nanos: 0 };

fn request(name: Option<&str>) -> JobRequest {
    JobRequest {
        schedule: "0 0 * * * * *".to_string(),
        leeway_seconds: 30,
        report_url: Some("http://localhost:9000/hook".to_string()),
        name: name.map(|n| n.to_string()),
    }
}

#[test]
fn job_ids_read_and_write_hyphenated_uuids() {
    assert_eq!(parse_job_id(ID_TEXT), Some(ID));
    assert_eq!(job_id_text(ID), ID_TEXT);
    assert_eq!(parse_job_id("67e5504410b1426f9247bb680e5fe0c8"), Some(ID));
    assert_eq!(parse_job_id("not-a-uuid"), None);
    let fresh = random_job_id();
    assert_eq!(parse_job_id(&job_id_text(fresh)), Some(fresh));
    assert_ne!(random_job_id(), random_job_id());
}

#[test]
fn requested_job_rejects_bad_ids() {
    assert_eq!(requested_job(ID_TEXT), Ok(ID));
    assert_eq!(requested_job("123"), Err(ApiStatus::BadRequest));
}

#[test]
fn job_name_is_requested_or_two_words() {
    assert_eq!(job_name_for(&request(Some("backup"))), "backup");
    let generated = job_name_for(&request(None));
    let parts: Vec<&str> = generated.split('-').collect();
    assert_eq!(parts.len(), 2);
    assert!(!parts[0].is_empty());
    assert!(!parts[1].is_empty());
}

#[test]
fn job_dto_copies_request() {
    let dto = job_dto(&request(None), &"nightly".to_string());
    assert_eq!(dto.interval, "0 0 * * * * *");
    assert_eq!(dto.name, "nightly");
    assert_eq!(dto.leeway_seconds, 30);
    assert_eq!(dto.report_url.as_deref(), Some("http://localhost:9000/hook"));
}

#[test]
fn creation_answers() {
    let job = Job::new_at(ID, "0 0 * * * * *", 30, "nightly", None, None, START).unwrap();
    assert_eq!(stored_job_id(Ok(&job)), Ok(ID));
    assert_eq!(stored_job_id(Err(DatabaseError)), Err("Could not create job".to_string()));
    let created = creation_reply(ID, "nightly".to_string(), Ok(())).ok().unwrap();
    assert_eq!(created.id, ID_TEXT);
    assert_eq!(created.name, "nightly");
    assert_eq!(
        creation_reply(ID, "nightly".to_string(), Err(CommError)).err(),
        Some("Could not add job".to_string())
    );
}

#[test]
fn check_in_and_removal_answers() {
    assert_eq!(check_in_reply(Ok(())), ApiStatus::NoContent);
    assert_eq!(check_in_reply(Err(CommError)), ApiStatus::InternalServerError);
    assert_eq!(removal_sent(Ok(())), Ok(()));
    assert_eq!(removal_sent(Err(CommError)), Err(ApiStatus::InternalServerError));
    assert_eq!(removal_reply(Ok(())), ApiStatus::NoContent);
    assert_eq!(removal_reply(Err(DatabaseError)), ApiStatus::InternalServerError);
}

#[test]
fn lookup_answers() {
    let job = Job::new_at(ID, "0 0 * * * * *", 30, "nightly", None, None, START).unwrap();
    assert_eq!(found_job(Ok(None)).err(), Some(ApiStatus::NotFound));
    assert_eq!(found_job(Err(DatabaseError)).err(), Some(ApiStatus::InternalServerError));
    let found = found_job(Ok(Some(job))).ok().unwrap();
    assert_eq!(job_detail(&found, None).err(), Some(ApiStatus::InternalServerError));
    let detail = job_detail(&found, Some((false, Some(START)))).ok().unwrap();
    assert_eq!(detail.id, ID_TEXT);
    assert_eq!(detail.name, "nightly");
    assert_eq!(detail.punctual, Some(false));
    assert_eq!(detail.last_check_in.as_deref(), Some("2021-01-01T00:00:00+00:00"));
    let detail = job_detail(&found, Some((true, None))).ok().unwrap();
    assert_eq!(detail.punctual, Some(true));
    assert_eq!(detail.last_check_in, None);
}
