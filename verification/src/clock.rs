//! Instants of the time domain, and the parser that produces them.

use vstd::prelude::*;

verus! {

/// A point in time: whole seconds since the Unix epoch and the nanoseconds
/// within that second.
///
/// Instants are ordered by `(secs, nanos)`, seconds first. During a leap
/// second `nanos` may reach 1_999_999_999; the order stays that of the
/// calendar because the seconds are compared first.
#[derive(Clone, Copy, Debug, PartialEq, Eq, Structural)]
pub struct Instant {
    pub secs: i64,
    pub nanos: u32,
}

impl Instant {
    /// The strict order of the time domain.
    pub open spec fn before(self, other: Instant) -> bool {
        self.secs < other.secs || (self.secs == other.secs && self.nanos < other.nanos)
    }

    /// `self` is `other` or earlier.
    pub open spec fn at_or_before(self, other: Instant) -> bool {
        !other.before(self)
    }

    pub fn new(secs: i64, nanos: u32) -> (r: Instant)
        ensures
            r == (Instant { secs, nanos }),
    {
        Instant { secs, nanos }
    }

    /// Whether `self` is strictly earlier than `other`.
    pub fn is_before(&self, other: &Instant) -> (r: bool)
        ensures
            r == self.before(*other),
    {
        self.secs < other.secs || (self.secs == other.secs && self.nanos < other.nanos)
    }
}

/// What `chrono` reads out of a time stamp: the Unix seconds and sub-second
/// nanoseconds of the instant it denotes, or `None` where it rejects the text.
pub uninterp spec fn parsed_timestamp(text: Seq<char>) -> Option<(i64, u32)>;

/// The instant a textual time stamp denotes, if it is well formed.
pub open spec fn instant_of(text: Seq<char>) -> Option<Instant> {
    match parsed_timestamp(text) {
        Some((secs, nanos)) => Some(Instant { secs, nanos }),
        None => None,
    }
}

/// Calls `<chrono::DateTime<chrono::Utc> as FromStr>::from_str`, then
/// `DateTime::timestamp` and `DateTime::timestamp_subsec_nanos` on the value.
///
/// Assumed, not proved: the outcome depends on the text alone. The parser
/// reads a relaxed RFC 3339 form with a mandatory offset and converts to UTC;
/// it consults neither the clock nor the local time zone.
#[verifier::external_body]
fn parse_timestamp(dt: &str) -> (r: Option<(i64, u32)>)
    ensures
        r == parsed_timestamp(dt@),
{
    match dt.parse::<chrono::DateTime<chrono::Utc>>() {
        Ok(t) => Some((t.timestamp(), t.timestamp_subsec_nanos())),
        Err(_) => None,
    }
}

/// Parses a textual time stamp into an instant; malformed text gives `None`.
pub fn parse(dt: &str) -> (r: Option<Instant>)
    ensures
        r == instant_of(dt@),
{
    match parse_timestamp(dt) {
        Some((secs, nanos)) => Some(Instant { secs, nanos }),
        None => None,
    }
}

/// The order of instants is a strict total order.
pub proof fn lemma_instant_order_is_total(a: Instant, b: Instant, c: Instant)
    ensures
        !a.before(a),
        a.before(b) && b.before(c) ==> a.before(c),
        a.before(b) || b.before(a) || a == b,
        !(a.before(b) && b.before(a)),
{
}

} // verus!
