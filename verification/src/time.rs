//! Instants in UTC, held as whole seconds since the Unix epoch plus a
//! sub-second part, and the arithmetic the punctuality rules need.
use vstd::prelude::*;

verus! {

/// Nanoseconds in one second.
pub const NANOS_PER_SEC: u32 = 1_000_000_000;

/// Earliest second that chrono's `DateTime<Utc>` can hold (`DateTime::<Utc>::MIN_UTC`).
pub const MIN_SECS: i64 = -8_334_601_228_800;

/// Latest second that chrono's `DateTime<Utc>` can hold (`DateTime::<Utc>::MAX_UTC`).
pub const MAX_SECS: i64 = 8_210_266_876_799;

/// An instant: `secs` seconds after the Unix epoch plus `nanos` nanoseconds.
#[derive(Clone, Copy, Debug, PartialEq, Eq, Structural)]
pub struct Timestamp {
    pub secs: i64,
    pub nanos: u32,
}

impl View for Timestamp {
    /// Nanoseconds since the Unix epoch.
    type V = int;

    open spec fn view(&self) -> int {
        self.secs * (NANOS_PER_SEC as int) + self.nanos
    }
}

/// Whether `t` (nanoseconds since the epoch) lies in the range that chrono can represent.
pub open spec fn instant_in_range(t: int) -> bool {
    MIN_SECS * (NANOS_PER_SEC as int) <= t < (MAX_SECS + 1) * (NANOS_PER_SEC as int)
}

/// The absolute distance between two instants.
pub open spec fn distance(a: int, b: int) -> int {
    if a <= b { b - a } else { a - b }
}

impl Timestamp {
    /// A well-formed instant: a sub-second part below one second, inside chrono's range.
    pub open spec fn valid(self) -> bool {
        &&& self.nanos < NANOS_PER_SEC
        &&& MIN_SECS <= self.secs <= MAX_SECS
    }

    /// Checks `valid`.
    pub fn is_valid(&self) -> (r: bool)
        ensures
            r == self.valid(),
    {
        self.nanos < NANOS_PER_SEC && MIN_SECS <= self.secs && self.secs <= MAX_SECS
    }

    /// `self` is not later than `other`.
    pub fn not_after(&self, other: &Timestamp) -> (r: bool)
        requires
            self.nanos < NANOS_PER_SEC,
            other.nanos < NANOS_PER_SEC,
        ensures
            r == (self@ <= other@),
    {
        self.secs < other.secs || (self.secs == other.secs && self.nanos <= other.nanos)
    }

    /// `self` is strictly earlier than `other`.
    pub fn before(&self, other: &Timestamp) -> (r: bool)
        requires
            self.nanos < NANOS_PER_SEC,
            other.nanos < NANOS_PER_SEC,
        ensures
            r == (self@ < other@),
    {
        self.secs < other.secs || (self.secs == other.secs && self.nanos < other.nanos)
    }
}

/// The distance between `a` and `b` in nanoseconds.
pub fn distance_nanos(a: &Timestamp, b: &Timestamp) -> (d: i128)
    ensures
        d == distance(a@, b@),
{
    let d: i128 = (a.secs as i128 - b.secs as i128) * 1_000_000_000i128 + (a.nanos as i128
        - b.nanos as i128);
    if d < 0 {
        -d
    } else {
        d
    }
}

/// Whether `a` and `b` are at most `leeway_seconds` apart.
pub fn within_seconds(a: &Timestamp, b: &Timestamp, leeway_seconds: u64) -> (r: bool)
    ensures
        r == (distance(a@, b@) <= leeway_seconds * (NANOS_PER_SEC as int)),
{
    distance_nanos(a, b) <= leeway_seconds as i128 * 1_000_000_000i128
}

/// Whether `a` and `b` are strictly less than `leeway_seconds` apart.
pub fn closer_than_seconds(a: &Timestamp, b: &Timestamp, leeway_seconds: u64) -> (r: bool)
    ensures
        r == (distance(a@, b@) < leeway_seconds * (NANOS_PER_SEC as int)),
{
    distance_nanos(a, b) < leeway_seconds as i128 * 1_000_000_000i128
}

#[verifier::external_type_specification]
#[verifier::external_body]
pub struct ExChronoParseError(chrono::ParseError);

/// The RFC 3339 text that chrono's `DateTime::<Utc>::to_rfc3339` writes for the instant
/// `t` (nanoseconds since the epoch).
pub uninterp spec fn rfc3339_text(t: int) -> Seq<char>;

/// What chrono's `str::parse::<DateTime<Utc>>` makes of `text`: the seconds since the
/// epoch and the sub-second nanoseconds of the instant, or `None` when it refuses the text.
pub uninterp spec fn parsed_datetime(text: Seq<char>) -> Option<(i64, u32)>;

/// Whether `t` is an instant read from the system clock by `utc_now`.
///
/// Its definition is kept to this module: elsewhere the only way to know it of an
/// instant is `utc_now`'s contract, so a contract that speaks of an instant with this
/// property speaks of a reading of the clock, not of an instant chosen by the code.
pub closed spec fn read_from_clock(t: Timestamp) -> bool {
    t.valid() && t.secs >= 0
}

/// A clock reading is a valid instant not before the epoch.
pub proof fn lemma_clock_reading_valid(t: Timestamp)
    requires
        read_from_clock(t),
    ensures
        t.valid(),
        t.secs >= 0,
{
}

/// The current instant, read with chrono's `Utc::now()`.
/// Trusted: chrono builds it from the system clock's whole seconds since the epoch and
/// a sub-second part below one second, so it is a valid instant not before the epoch,
/// which is what `read_from_clock` holds of it.
#[verifier::external_body]
pub fn utc_now() -> (r: Timestamp)
    ensures
        r.valid(),
        r.secs >= 0,
        read_from_clock(r),
{
    let now = chrono::Utc::now();
    Timestamp { secs: now.timestamp(), nanos: now.timestamp_subsec_nanos() }
}

/// The RFC 3339 text of `t`: `DateTime::<Utc>::to_rfc3339` of chrono.
/// Trusted: the text is the one `rfc3339_text` names. Chrono writes
/// `YYYY-MM-DDTHH:MM:SS[.fraction]+00:00`, a year outside 0000 to 9999 with its sign, and
/// its parser takes such signed years, so it reads the text back as `t`.
#[verifier::external_body]
pub fn format_rfc3339(t: &Timestamp) -> (r: String)
    requires
        t.valid(),
    ensures
        r@ == rfc3339_text(t@),
        parsed_datetime(r@) == Some((t.secs, t.nanos)),
{
    chrono::DateTime::from_timestamp(t.secs, t.nanos).unwrap().to_rfc3339()
}

/// Reads an instant written as RFC 3339 text: `str::parse::<DateTime<Utc>>` of chrono.
/// Trusted: the result is the one `parsed_datetime` names. It is a `DateTime<Utc>`, so its
/// seconds lie in chrono's range and its sub-second part is below two seconds; one
/// second or more marks a leap second, as chrono keeps it.
#[verifier::external_body]
fn parse_datetime(text: &str) -> (r: Result<Timestamp, chrono::ParseError>)
    ensures
        match r {
            Ok(t) => {
                &&& parsed_datetime(text@) == Some((t.secs, t.nanos))
                &&& MIN_SECS <= t.secs <= MAX_SECS
                &&& t.nanos < 2 * NANOS_PER_SEC
            },
            Err(_) => parsed_datetime(text@) is None,
        },
{
    match text.parse::<chrono::DateTime<chrono::Utc>>() {
        Ok(dt) => Ok(Timestamp { secs: dt.timestamp(), nanos: dt.timestamp_subsec_nanos() }),
        Err(e) => Err(e),
    }
}

/// Reads a valid instant from RFC 3339 text; `None` when chrono refuses the text. A leap
/// second `hh:mm:60.f` is read as the instant `f` after the next whole second, as chrono
/// counts durations across it; only a leap second after the last second of chrono's
/// range, which no valid instant can hold, is refused.
pub fn read_rfc3339(text: &str) -> (r: Option<Timestamp>)
    ensures
        r == parsed_instant(text@),
        parsed_datetime(text@) matches Some((secs, _)) && secs < MAX_SECS ==> r is Some,
        r matches Some(t) ==> t.valid(),
{
    match parse_datetime(text) {
        Ok(t) => {
            if t.nanos < NANOS_PER_SEC {
                Some(t)
            } else if t.secs < MAX_SECS {
                Some(Timestamp { secs: t.secs + 1, nanos: t.nanos - NANOS_PER_SEC })
            } else {
                None
            }
        },
        Err(_) => None,
    }
}

/// The instant that chrono reads from `text`, a leap second taken as the instant that
/// far after the next whole second; `None` when chrono refuses the text or the leap
/// second lies beyond chrono's range.
pub open spec fn parsed_instant(text: Seq<char>) -> Option<Timestamp> {
    match parsed_datetime(text) {
        Some((secs, nanos)) => {
            if nanos < NANOS_PER_SEC {
                Some(Timestamp { secs, nanos })
            } else if secs < MAX_SECS {
                Some(Timestamp { secs: (secs + 1) as i64, nanos: (nanos - NANOS_PER_SEC) as u32 })
            } else {
                None
            }
        },
        None => None,
    }
}

} // verus!
