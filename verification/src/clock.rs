//! Reading the wall clock.
use vstd::prelude::*;

verus! {

/// A UTC instant: whole seconds since the Unix epoch and the nanoseconds past that second
/// (above 999_999_999 only during a leap second), ordered as chrono orders `DateTime<Utc>`.
#[derive(Clone, Copy, Debug, PartialEq, Eq, Structural)]
pub struct Timestamp {
    pub secs: i64,
    pub nanos: u32,
}

/// `a` is strictly before `b`.
pub open spec fn timestamp_lt(a: Timestamp, b: Timestamp) -> bool {
    a.secs < b.secs || (a.secs == b.secs && a.nanos < b.nanos)
}

impl Timestamp {
    /// Whether `self` is strictly before `other`.
    pub fn is_before(&self, other: &Timestamp) -> (r: bool)
        ensures
            r == timestamp_lt(*self, *other),
    {
        self.secs < other.secs || (self.secs == other.secs && self.nanos < other.nanos)
    }
}

/// The current time: the system clock (`std::time::SystemTime::now()`) converted with
/// chrono's `From<SystemTime> for DateTime<Utc>`, which takes readings before the Unix
/// epoch as negative seconds, then split into `timestamp()` and
/// `timestamp_subsec_nanos()`. The conversion's final `unwrap` fails only for a reading
/// outside chrono's range of about 262,000 years around the epoch, which an operating
/// system clock does not reach (Linux keeps time as signed 64-bit nanoseconds, about
/// 292 years either side of 1970). Nothing is claimed of the value: it is the clock's.
#[verifier::external_body]
pub(crate) fn utc_now() -> (t: Timestamp) {
    let now = chrono::DateTime::<chrono::Utc>::from(std::time::SystemTime::now());
    Timestamp { secs: now.timestamp(), nanos: now.timestamp_subsec_nanos() }
}

} // verus!
