//! Points in time, as whole seconds and nanoseconds since the Unix epoch.

use std::time::SystemTime;
use std::time::UNIX_EPOCH;
use vstd::prelude::*;

verus! {

/// A point in time: `secs` whole seconds after the Unix epoch plus `nanos`
/// nanoseconds.
#[derive(Clone, Copy, Debug, PartialEq, Eq, Structural)]
pub struct Timestamp {
    pub secs: u64,
    pub nanos: u32,
}

impl Timestamp {
    /// `self` is not earlier than `other`; seconds decide, nanoseconds break ties.
    pub open spec fn at_or_after(self, other: Timestamp) -> bool {
        self.secs > other.secs || (self.secs == other.secs && self.nanos >= other.nanos)
    }

    /// The later of the two points in time.
    pub open spec fn latest(self, other: Timestamp) -> Timestamp {
        if other.at_or_after(self) {
            other
        } else {
            self
        }
    }

    pub fn new(secs: u64, nanos: u32) -> (t: Timestamp)
        ensures
            t == (Timestamp { secs, nanos }),
    {
        Timestamp { secs, nanos }
    }

    pub fn is_at_or_after(&self, other: &Timestamp) -> (b: bool)
        ensures
            b == self.at_or_after(*other),
    {
        self.secs > other.secs || (self.secs == other.secs && self.nanos >= other.nanos)
    }

    pub fn later_of(self, other: Timestamp) -> (t: Timestamp)
        ensures
            t == self.latest(other),
    {
        if other.is_at_or_after(&self) {
            other
        } else {
            self
        }
    }
}

/// The order on timestamps is total and transitive, and `latest` is an upper
/// bound of both arguments.
pub proof fn timestamp_order_laws(a: Timestamp, b: Timestamp, c: Timestamp)
    ensures
        a.at_or_after(a),
        a.at_or_after(b) || b.at_or_after(a),
        a.at_or_after(b) && b.at_or_after(a) ==> a == b,
        a.at_or_after(b) && b.at_or_after(c) ==> a.at_or_after(c),
        a.latest(b).at_or_after(a),
        a.latest(b).at_or_after(b),
{
}

/// Reads the system clock through `SystemTime::now` and expresses it as the
/// time elapsed since `UNIX_EPOCH`. Nothing is claimed about the value: it
/// depends on the machine's clock, which may also step backwards. A clock set
/// before the epoch reads as the epoch itself.
#[verifier::external_body]
pub(crate) fn system_now() -> (t: Timestamp) {
    match SystemTime::now().duration_since(UNIX_EPOCH) {
        Ok(elapsed) => Timestamp { secs: elapsed.as_secs(), nanos: elapsed.subsec_nanos() },
        Err(_) => Timestamp { secs: 0, nanos: 0 },
    }
}

} // verus!
