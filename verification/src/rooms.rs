//! How the two rooms of the station are put together: which walls stand
//! where. Sizes and positions are the caller's business; this module says
//! which pieces there are.

use vstd::prelude::*;

verus! {

/// One side of the square training room.
#[derive(Clone, Copy, Debug, PartialEq, Eq, Structural)]
pub enum RoomSide {
    /// The front: two wall parts left and right of the door, and a piece of
    /// wall above it.
    Doorway,
    /// A full wall, turned by this many quarter turns from the front.
    Solid { quarter_turns: u8 },
}

/// Number of sides of the training room.
pub const ROOM_SIDES: u8 = 4;

/// The side of the training room with the given number, counted in quarter
/// turns from the front.
pub open spec fn spec_room_side(side: u8) -> RoomSide {
    if side == 0 {
        RoomSide::Doorway
    } else {
        RoomSide::Solid { quarter_turns: side }
    }
}

/// The side of the training room with the given number: number 0, the front,
/// holds the doorway; every other number names a full wall, turned by that
/// many quarter turns.
pub fn room_side(side: u8) -> (s: RoomSide)
    ensures
        s == spec_room_side(side),
{
    if side == 0 {
        RoomSide::Doorway
    } else {
        RoomSide::Solid { quarter_turns: side }
    }
}

/// The sides of the training room, in the order they are built.
pub fn room_sides() -> (sides: Vec<RoomSide>)
    ensures
        sides.len() == ROOM_SIDES,
        forall|i: int| 0 <= i < ROOM_SIDES ==> sides[i] == spec_room_side(i as u8),
{
    let mut sides: Vec<RoomSide> = Vec::new();
    let mut i: u8 = 0;
    while i < ROOM_SIDES
        invariant
            i <= ROOM_SIDES,
            sides.len() == i,
            forall|j: int| 0 <= j < i ==> sides[j] == spec_room_side(j as u8),
        decreases ROOM_SIDES - i,
    {
        sides.push(room_side(i));
        i += 1;
    }
    sides
}

/// Number of panels that would close the reactor's hull all the way round.
pub const HULL_PANELS: u8 = 6;

/// The panel left out of the hull, where the landing opens into the reactor.
pub const HULL_OPENING: u8 = 3;

/// The panels of the reactor's hull, each named by the number of sixth
/// turns it is placed at: all of them but the opening, in rising order.
pub open spec fn hull() -> Seq<u8> {
    seq![0u8, 1u8, 2u8, 4u8, 5u8]
}

/// The panels of the reactor's hull, in the order they are built.
pub fn reactor_hull() -> (panels: Vec<u8>)
    ensures
        panels@ == hull(),
{
    let mut panels: Vec<u8> = Vec::new();
    let mut i: u8 = 0;
    while i < HULL_PANELS
        invariant
            i <= HULL_PANELS,
            panels@ == hull().take(if i <= HULL_OPENING { i as int } else { i - 1 }),
        decreases HULL_PANELS - i,
    {
        if i != HULL_OPENING {
            panels.push(i);
        }
        i += 1;
    }
    panels
}

/// The hull holds every panel but the opening, once each.
pub proof fn lemma_hull_leaves_opening()
    ensures
        forall|i: u8| i < HULL_PANELS && i != HULL_OPENING ==> hull().contains(i),
        !hull().contains(HULL_OPENING),
        forall|k: int| 0 <= k < hull().len() ==> #[trigger] hull()[k] < HULL_PANELS,
        hull().no_duplicates(),
{
    assert(hull()[0] == 0 && hull()[1] == 1 && hull()[2] == 2 && hull()[3] == 4 && hull()[4] == 5);
}

} // verus!
