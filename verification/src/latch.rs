//! A condition that takes two cycles to show: one cycle arms the latch, and a later tick of
//! the game's clock fires it.
use vstd::prelude::*;

verus! {

/// Where a two-cycle condition stands.
#[derive(Debug, Copy, Clone, PartialEq, Eq, Structural)]
pub enum Latch {
    /// Nothing has been seen yet.
    Disarmed,
    /// The first half has been seen; the next tick of the clock fires.
    Armed,
}

impl Latch {
    /// Whether the latch fires in this cycle: its toggle takes effect, it is armed and the
    /// clock has ticked.
    pub open spec fn fires(self, active: bool, ticked: bool) -> bool {
        active && self == Latch::Armed && ticked
    }

    /// The latch after this cycle. While its toggle has no effect it stays as it is. Armed, it
    /// waits for the tick and is disarmed by it. Disarmed, it is armed by a cycle that
    /// `qualifies`, and only then is that looked at.
    pub open spec fn next(self, active: bool, qualifies: bool, ticked: bool) -> Latch {
        if !active {
            self
        } else {
            match self {
                Latch::Armed => if ticked {
                    Latch::Disarmed
                } else {
                    Latch::Armed
                },
                Latch::Disarmed => if qualifies {
                    Latch::Armed
                } else {
                    Latch::Disarmed
                },
            }
        }
    }

    /// One cycle of the latch: the state to go on with, and whether it fired.
    pub fn step(self, active: bool, qualifies: bool, ticked: bool) -> (after: (Latch, bool))
        ensures
            after.0 == self.next(active, qualifies, ticked),
            after.1 == self.fires(active, ticked),
    {
        if !active {
            return (self, false);
        }
        match self {
            Latch::Armed => {
                if ticked {
                    (Latch::Disarmed, true)
                } else {
                    (Latch::Armed, false)
                }
            },
            Latch::Disarmed => {
                if qualifies {
                    (Latch::Armed, false)
                } else {
                    (Latch::Disarmed, false)
                }
            },
        }
    }
}

/// A latch fires only when it was armed, and is disarmed by firing: it cannot fire in two
/// cycles running.
pub proof fn lemma_fires_once(
    latch: Latch,
    active: bool,
    qualifies: bool,
    ticked: bool,
    active_after: bool,
    ticked_after: bool,
)
    requires
        latch.fires(active, ticked),
    ensures
        latch == Latch::Armed,
        latch.next(active, qualifies, ticked) == Latch::Disarmed,
        !latch.next(active, qualifies, ticked).fires(active_after, ticked_after),
{
}

} // verus!
