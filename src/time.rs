//! The time anchor: one fixed correspondence between the wall clock and the
//! monotonic clock, used to move hardware timestamps onto the monotonic clock.
use vstd::prelude::*;

verus! {

/// A pair of readings taken together once: the wall clock and the monotonic clock,
/// both in nanoseconds (the wall clock since the UNIX epoch, the monotonic clock since
/// its own origin).
#[derive(Debug, Clone, Copy, PartialEq, Eq, Structural)]
pub struct TimeAnchor {
    pub system_time_ns: i64,
    pub instant_ns: i64,
}

impl TimeAnchor {
    /// The monotonic instant that corresponds to a wall-clock reading.
    pub open spec fn spec_to_instant(self, system_time_ns: int) -> int {
        self.instant_ns + (system_time_ns - self.system_time_ns)
    }

    /// An anchor from two readings taken together.
    pub fn new(system_time_ns: i64, instant_ns: i64) -> (r: Self)
        ensures
            r.system_time_ns == system_time_ns,
            r.instant_ns == instant_ns,
    {
        TimeAnchor { system_time_ns, instant_ns }
    }

    /// Moves a wall-clock reading onto the monotonic clock: the anchor's instant plus the
    /// signed distance from the anchor's wall-clock reading. A reading before the anchor
    /// gives an instant before the anchor's instant.
    pub fn to_instant(&self, system_time_ns: i64) -> (r: i128)
        ensures
            r == self.spec_to_instant(system_time_ns as int),
    {
        self.instant_ns as i128 + (system_time_ns as i128 - self.system_time_ns as i128)
    }
}

/// Two readings converted through one anchor keep their order and their distance.
pub proof fn lemma_anchor_preserves_delta(anchor: TimeAnchor, t1: int, t2: int)
    ensures
        anchor.spec_to_instant(t2) - anchor.spec_to_instant(t1) == t2 - t1,
        t1 <= t2 <==> anchor.spec_to_instant(t1) <= anchor.spec_to_instant(t2),
{
}

} // verus!
