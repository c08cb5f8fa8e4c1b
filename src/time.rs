//! Instants as plain values, with chrono doing the calendar work.
use vstd::prelude::*;

verus! {

/// An instant on the UTC time line: whole seconds since the Unix epoch and the
/// nanoseconds into that second (a leap second shows as `nanos >= 1_000_000_000`).
#[derive(Clone, Copy, Debug, PartialEq, Eq, Structural)]
pub struct Timestamp {
    pub secs: i64,
    pub nanos: u32,
}

/// `a` comes strictly before `b`; instants order by second, then by nanosecond,
/// as chrono orders them.
pub open spec fn before(a: Timestamp, b: Timestamp) -> bool {
    a.secs < b.secs || (a.secs == b.secs && a.nanos < b.nanos)
}

/// The instant that an RFC 3339 text denotes, as (seconds, nanoseconds), or `None`
/// where the text is not RFC 3339.
pub uninterp spec fn rfc3339_instant(text: Seq<char>) -> Option<(i64, u32)>;

/// The RFC 3339 text that chrono writes for the UTC instant (seconds, nanoseconds).
pub uninterp spec fn rfc3339_text(secs: i64, nanos: u32) -> Seq<char>;

/// Whether chrono holds the UTC instant (seconds, nanoseconds) as a `DateTime`:
/// its date range is about 262 000 years either side of year 0, and nanoseconds
/// of 1e9 or more only stand for a leap second at the end of a minute.
pub uninterp spec fn chrono_holds(secs: i64, nanos: u32) -> bool;

/// 0001-01-01T00:00:00Z and 9999-12-31T23:59:59Z, as seconds since the epoch.
pub const FIRST_FOUR_DIGIT_YEAR_SECS: i64 = -62135596800;

pub const LAST_FOUR_DIGIT_YEAR_SECS: i64 = 253402300799;

/// An instant of years 1 to 9999 that is no leap second: chrono writes it with a
/// four-digit year, and reads that text back.
pub open spec fn plain_instant(secs: i64, nanos: u32) -> bool {
    FIRST_FOUR_DIGIT_YEAR_SECS <= secs <= LAST_FOUR_DIGIT_YEAR_SECS && nanos < 1_000_000_000
}

pub open spec fn parsed_instant(text: Seq<char>) -> Option<Timestamp> {
    match rfc3339_instant(text) {
        Some(p) => Some(Timestamp { secs: p.0, nanos: p.1 }),
        None => None,
    }
}

impl Timestamp {
    pub fn is_before(&self, other: &Timestamp) -> (r: bool)
        ensures
            r == before(*self, *other),
    {
        self.secs < other.secs || (self.secs == other.secs && self.nanos < other.nanos)
    }

    /// This instant moved `delta` whole seconds on, or `None` where that leaves `i64`.
    pub fn plus_seconds(&self, delta: i64) -> (r: Option<Timestamp>)
        ensures
            r matches Some(t) ==> t.secs == self.secs + delta && t.nanos == self.nanos,
            r is None <==> !(i64::MIN <= self.secs + delta <= i64::MAX),
    {
        match self.secs.checked_add(delta) {
            Some(s) => Some(Timestamp { secs: s, nanos: self.nanos }),
            None => None,
        }
    }
}

/// Relies on chrono's `Utc::now`: the current UTC instant, as seconds and
/// subsecond nanoseconds.
#[verifier::external_body]
pub(crate) fn current_time() -> (r: Timestamp) {
    let now = chrono::Utc::now();
    Timestamp { secs: now.timestamp(), nanos: now.timestamp_subsec_nanos() }
}

/// Relies on chrono's `DateTime::parse_from_rfc3339`: the instant that an RFC 3339
/// text denotes, whatever its offset.
#[verifier::external_body]
pub(crate) fn parse_rfc3339(text: &str) -> (r: Option<Timestamp>)
    ensures
        r is None <==> rfc3339_instant(text@) is None,
        r matches Some(t) ==> rfc3339_instant(text@) == Some((t.secs, t.nanos)),
{
    chrono::DateTime::parse_from_rfc3339(text)
        .ok()
        .map(|dt| Timestamp { secs: dt.timestamp(), nanos: dt.timestamp_subsec_nanos() })
}

/// Relies on chrono's `DateTime::from_timestamp` (`None` exactly outside chrono's
/// range) and `to_rfc3339`, which writes the offset `+00:00` and as many fraction
/// digits as the nanoseconds need, so that `parse_from_rfc3339` reads the same
/// instant back from any four-digit year.
#[verifier::external_body]
pub(crate) fn format_rfc3339(t: Timestamp) -> (r: Option<String>)
    ensures
        r is None <==> !chrono_holds(t.secs, t.nanos),
        plain_instant(t.secs, t.nanos) ==> r is Some,
        r matches Some(s) ==> s@ == rfc3339_text(t.secs, t.nanos),
        r matches Some(s) ==> (plain_instant(t.secs, t.nanos) ==> rfc3339_instant(s@) == Some(
            (t.secs, t.nanos),
        )),
{
    chrono::DateTime::from_timestamp(t.secs, t.nanos).map(|dt| dt.to_rfc3339())
}

} // verus!
