//! Modification times, as far as they are compared.

use vstd::prelude::*;

verus! {

/// A point in time: whole seconds since the Unix epoch, which may be
/// negative, and the nanoseconds beyond them.
#[derive(Clone, Copy, Debug, PartialEq, Eq, Structural)]
pub struct Stamp {
    pub secs: i64,
    pub nanos: u32,
}

/// The Unix epoch.
pub open spec fn epoch() -> Stamp {
    Stamp { secs: 0, nanos: 0 }
}

impl Stamp {
    /// Whether this point lies before the other: seconds decide, then
    /// nanoseconds.
    pub open spec fn precedes(self, other: Stamp) -> bool {
        self.secs < other.secs || (self.secs == other.secs && self.nanos < other.nanos)
    }

    /// The Unix epoch.
    pub fn unix_epoch() -> (stamp: Stamp)
        ensures
            stamp == epoch(),
    {
        Stamp { secs: 0, nanos: 0 }
    }

    /// Whether this point lies before the other.
    pub fn before(&self, other: &Stamp) -> (earlier: bool)
        ensures
            earlier == self.precedes(*other),
    {
        self.secs < other.secs || (self.secs == other.secs && self.nanos < other.nanos)
    }
}

} // verus!
