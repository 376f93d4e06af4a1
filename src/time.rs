//! Points in time, as whole seconds since the Unix epoch and a fraction.
use vstd::prelude::*;

verus! {

/// A UTC instant: `secs` whole seconds since the epoch (rounded down) and
/// `nanos` nanoseconds past that second. `nanos` reaches past one second
/// only during a leap second.
#[derive(Debug, Clone, Copy, PartialEq, Eq, Structural)]
pub struct Timestamp {
    pub secs: i64,
    pub nanos: u32,
}

impl Timestamp {
    pub open spec fn wf(self) -> bool {
        self.nanos < 2_000_000_000
    }

    /// Whole seconds since the epoch, rounded down: the part of the instant
    /// that record keys carry.
    pub fn timestamp(&self) -> (r: i64)
        ensures
            r == self.secs,
    {
        self.secs
    }
}

/// Relies on chrono::Utc::now for the current instant, read out through
/// DateTime::timestamp and DateTime::timestamp_subsec_nanos (the latter below
/// two billion, leap seconds included).
#[verifier::external_body]
pub(crate) fn now() -> (r: Timestamp)
    ensures
        r.wf(),
{
    let t = chrono::Utc::now();
    Timestamp { secs: t.timestamp(), nanos: t.timestamp_subsec_nanos() }
}

} // verus!
