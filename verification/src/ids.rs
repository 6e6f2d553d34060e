//! Job identifiers: UUIDs, held as their 128-bit value, with the `uuid` crate's
//! text form and random generation.
use vstd::prelude::*;

verus! {

/// A job's identifier: the 128-bit value of its UUID.
pub type JobId = u128;

#[verifier::external_type_specification]
#[verifier::external_body]
pub struct ExUuidError(uuid::Error);

/// The UUID that `uuid::Uuid::parse_str` reads from `text`, if it accepts the text.
pub uninterp spec fn uuid_parse(text: Seq<char>) -> Option<u128>;

/// The text that `uuid::Uuid`'s `Display` writes for the UUID of value `id`.
pub uninterp spec fn uuid_text(id: u128) -> Seq<char>;

/// Reads a UUID with `uuid::Uuid::parse_str` and takes its value with `as_u128`.
/// Trusted: the result is the one `uuid_parse` names.
#[verifier::external_body]
fn parse_uuid(text: &str) -> (r: Result<u128, uuid::Error>)
    ensures
        match r {
            Ok(id) => uuid_parse(text@) == Some(id),
            Err(_) => uuid_parse(text@) is None,
        },
{
    match uuid::Uuid::parse_str(text) {
        Ok(id) => Ok(id.as_u128()),
        Err(e) => Err(e),
    }
}

/// Reads a job identifier from its text; `None` when it is no UUID.
pub fn parse_job_id(text: &str) -> (r: Option<JobId>)
    ensures
        r == uuid_parse(text@),
{
    match parse_uuid(text) {
        Ok(id) => Some(id),
        Err(_) => None,
    }
}

/// The text of a job identifier: `uuid::Uuid::from_u128(id).to_string()`.
/// Trusted: the text is the one `uuid_text` names; it is the hyphenated form, 36
/// characters long, which `parse_str` reads back as the same UUID.
#[verifier::external_body]
pub fn job_id_text(id: JobId) -> (r: String)
    ensures
        r@ == uuid_text(id),
        r@.len() == 36,
        uuid_parse(r@) == Some(id),
{
    uuid::Uuid::from_u128(id).to_string()
}

/// Whether `id` is the value of a version-4 UUID: version bits `0100` and variant bits
/// `10`.
pub open spec fn is_v4(id: u128) -> bool {
    &&& (id >> 76u128) & 0xfu128 == 4u128
    &&& (id >> 62u128) & 0x3u128 == 2u128
}

/// A fresh random identifier: `uuid::Uuid::new_v4().as_u128()`.
/// Trusted: the value is random; `new_v4` masks random bits so that they carry the
/// version-4 and variant bits, which is all that is stated of it.
#[verifier::external_body]
pub fn random_job_id() -> (r: JobId)
    ensures
        is_v4(r),
{
    uuid::Uuid::new_v4().as_u128()
}

} // verus!
