//! Cron schedules: an expression, checked and compiled by the `cron` crate,
//! and the next instant at which it fires after a given instant.
use vstd::prelude::*;

use crate::time::{Timestamp, MAX_SECS};

verus! {

#[verifier::external_type_specification]
#[verifier::external_body]
pub struct ExCronSchedule(cron::Schedule);

#[verifier::external_type_specification]
#[verifier::external_body]
pub struct ExCronError(cron::error::Error);

/// Whether the `cron` crate accepts `expression` as a schedule.
pub uninterp spec fn cron_accepts(expression: Seq<char>) -> bool;

/// The first instant (nanoseconds since the epoch) strictly after `after` at which the
/// schedule written as `expression` fires, as the `cron` crate computes it; `None` when it
/// never fires again.
pub uninterp spec fn cron_next_after(expression: Seq<char>, after: int) -> Option<int>;

/// Whether `t` can be handed to the `cron` crate as a starting instant: it is a valid
/// instant at least one second before the end of chrono's range (cron adds one second).
pub open spec fn schedulable(t: Timestamp) -> bool {
    t.valid() && t.secs < MAX_SECS
}

/// A cron schedule together with the expression it was compiled from.
pub struct CronSchedule {
    expression: String,
    compiled: cron::Schedule,
}

impl View for CronSchedule {
    /// The cron expression.
    type V = Seq<char>;

    closed spec fn view(&self) -> Seq<char> {
        self.expression@
    }
}

/// Compiles a cron expression with `cron::Schedule::from_str`.
/// Trusted: the result is `Ok` exactly when the crate accepts the expression.
#[verifier::external_body]
fn compile_expression(expression: &str) -> (r: Result<cron::Schedule, cron::error::Error>)
    ensures
        r is Ok <==> cron_accepts(expression@),
{
    <cron::Schedule as std::str::FromStr>::from_str(expression)
}

/// Copies a compiled schedule with `<cron::Schedule as Clone>::clone`.
/// Trusted for nothing: no property of the copy is claimed.
#[verifier::external_body]
fn copy_compiled(compiled: &cron::Schedule) -> cron::Schedule {
    compiled.clone()
}

/// The first firing of `schedule` after `after`: `schedule.after(&after).next()` of the
/// `cron` crate, with the instants converted from and to chrono's `DateTime<Utc>`.
/// Trusted: the result is the one `cron_next_after` names for the schedule's expression
/// (a `CronSchedule` is only ever built by `parse`, from that expression, or copied);
/// cron starts one second after `after` and yields whole seconds, so the result is
/// strictly later and inside chrono's range. `after` must leave room for that second,
/// or chrono's addition panics.
#[verifier::external_body]
fn fire_after(schedule: &CronSchedule, after: &Timestamp) -> (r: Option<Timestamp>)
    requires
        schedulable(*after),
    ensures
        match r {
            Some(t) => {
                &&& cron_next_after(schedule@, after@) == Some(t@)
                &&& t.valid()
                &&& t.nanos == 0
                &&& after@ < t@
            },
            None => cron_next_after(schedule@, after@) is None,
        },
{
    let start = chrono::DateTime::from_timestamp(after.secs, after.nanos).unwrap();
    match schedule.compiled.after(&start).next() {
        Some(t) => Some(Timestamp { secs: t.timestamp(), nanos: t.timestamp_subsec_nanos() }),
        None => None,
    }
}

impl CronSchedule {
    /// Compiles `expression`; `None` when the `cron` crate refuses it.
    pub fn parse(expression: &str) -> (r: Option<CronSchedule>)
        ensures
            r is Some <==> cron_accepts(expression@),
            r matches Some(s) ==> s@ == expression@,
    {
        match compile_expression(expression) {
            Ok(compiled) => Some(CronSchedule { expression: expression.to_owned(), compiled }),
            Err(_) => None,
        }
    }

    /// The cron expression the schedule was compiled from.
    pub fn expression(&self) -> (r: &str)
        ensures
            r@ == self@,
    {
        self.expression.as_str()
    }

    /// The first instant strictly after `after` at which the schedule fires.
    pub fn next_after(&self, after: &Timestamp) -> (r: Option<Timestamp>)
        requires
            schedulable(*after),
        ensures
            match r {
                Some(t) => {
                    &&& cron_next_after(self@, after@) == Some(t@)
                    &&& t.valid()
                    &&& after@ < t@
                },
                None => cron_next_after(self@, after@) is None,
            },
    {
        fire_after(self, after)
    }
}

impl Clone for CronSchedule {
    fn clone(&self) -> (r: Self)
        ensures
            r@ == self@,
    {
        CronSchedule { expression: self.expression.clone(), compiled: copy_compiled(&self.compiled) }
    }
}

} // verus!
