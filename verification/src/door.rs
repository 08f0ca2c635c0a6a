//! Sliding doors.

use vstd::prelude::*;

verus! {

/// A door is either open or closed; a switch event flips it.
#[derive(Clone, Copy, Debug, PartialEq, Eq, Structural)]
pub enum Door {
    Open,
    Closed,
}

/// What has to happen in the world when a door flips.
#[derive(Clone, Copy, Debug, PartialEq, Eq, Structural)]
pub enum DoorMotion {
    /// The panel slides up out of the frame and the doorway stops blocking.
    Raise,
    /// The panel slides down into the frame and the doorway blocks again.
    Lower,
}

impl Door {
    /// The other state.
    pub open spec fn flipped(self) -> Door {
        match self {
            Door::Open => Door::Closed,
            Door::Closed => Door::Open,
        }
    }

    /// The motion that takes a door out of state `self`.
    pub open spec fn motion(self) -> DoorMotion {
        match self {
            Door::Open => DoorMotion::Lower,
            Door::Closed => DoorMotion::Raise,
        }
    }

    /// Whether the doorway blocks movement: a closed door has a collider, an
    /// open one has none.
    pub open spec fn spec_blocks(self) -> bool {
        self == Door::Closed
    }

    /// Whether the doorway blocks movement.
    pub fn blocks(&self) -> (b: bool)
        ensures
            b == self.spec_blocks(),
    {
        match self {
            Door::Open => false,
            Door::Closed => true,
        }
    }

    /// Reacts to a switch event aimed at this door: the door flips, and the
    /// result names the motion to play. An open door is lowered shut, a
    /// closed one is raised.
    pub fn switch_event(&mut self) -> (motion: DoorMotion)
        ensures
            *final(self) == old(self).flipped(),
            motion == old(self).motion(),
    {
        match *self {
            Door::Open => {
                *self = Door::Closed;
                DoorMotion::Lower
            },
            Door::Closed => {
                *self = Door::Open;
                DoorMotion::Raise
            },
        }
    }
}

impl DoorMotion {
    /// Whether the doorway blocks movement once the motion is done.
    pub open spec fn spec_leaves_blocked(self) -> bool {
        self == DoorMotion::Lower
    }

    /// Whether the doorway blocks movement once the motion is done.
    pub fn leaves_blocked(&self) -> (b: bool)
        ensures
            b == self.spec_leaves_blocked(),
    {
        match self {
            DoorMotion::Raise => false,
            DoorMotion::Lower => true,
        }
    }
}

/// Two switch events in a row leave a door as it was.
pub proof fn lemma_flip_twice(door: Door)
    ensures
        door.flipped().flipped() == door,
{
}

/// The motion played for a flip ends with the doorway blocking exactly when
/// the door it leaves behind is one that blocks.
pub proof fn lemma_motion_matches_state(door: Door)
    ensures
        door.motion().spec_leaves_blocked() == door.flipped().spec_blocks(),
{
}

} // verus!
