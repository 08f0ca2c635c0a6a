//! The first-person and editor camera rigs: which way the keys push, and
//! when the window holds on to the mouse cursor.

use vstd::prelude::*;

verus! {

/// What the player may currently do with the camera. The tutorial starts
/// with both abilities taken away and hands them back one at a time.
#[derive(Clone, Copy, Debug, PartialEq, Eq, Structural)]
pub struct CameraLocks {
    pub disable_look: bool,
    pub disable_movement: bool,
}

impl CameraLocks {
    /// Nothing is taken away.
    pub open spec fn free() -> CameraLocks {
        CameraLocks { disable_look: false, disable_movement: false }
    }

    /// Looking and moving are both taken away.
    pub open spec fn locked() -> CameraLocks {
        CameraLocks { disable_look: true, disable_movement: true }
    }

    /// The locks a camera starts with: none.
    pub fn new() -> (locks: CameraLocks)
        ensures
            locks == CameraLocks::free(),
    {
        CameraLocks { disable_look: false, disable_movement: false }
    }
}

/// A pair of opposed keys, each already combined with whatever else decides
/// whether it counts (for the player rig: that the way is not blocked).
///
/// The result is the push along the axis: the positive key adds one, the
/// negative key takes one away, so both together cancel.
pub open spec fn spec_axis(positive: bool, negative: bool) -> int {
    (if positive { 1int } else { 0int }) - (if negative { 1int } else { 0int })
}

/// The push along one axis from a pair of opposed keys.
pub fn axis(positive: bool, negative: bool) -> (push: i8)
    ensures
        push == spec_axis(positive, negative),
        -1 <= push <= 1,
{
    let mut push: i8 = 0;
    if positive {
        push += 1;
    }
    if negative {
        push -= 1;
    }
    push
}

/// The direction the keys ask for, one component per axis of the rig, each
/// of them -1, 0 or 1.
#[derive(Clone, Copy, Debug, PartialEq, Eq, Structural)]
pub struct AxisInput {
    /// Right (positive) against left.
    pub x: i8,
    /// Up (positive) against down. The player rig has no such keys.
    pub y: i8,
    /// Forward (positive) against back.
    pub z: i8,
}

impl AxisInput {
    /// Whether the keys ask for no movement at all, in which case the rig
    /// coasts to a stop instead of being driven.
    pub open spec fn spec_is_zero(&self) -> bool {
        self.x == 0 && self.y == 0 && self.z == 0
    }

    /// Whether the keys ask for no movement at all.
    pub fn is_zero(&self) -> (b: bool)
        ensures
            b == self.spec_is_zero(),
    {
        self.x == 0 && self.y == 0 && self.z == 0
    }
}

/// A movement key of the player rig: whether it is held, and whether the
/// probe ray in its direction found the way clear.
#[derive(Clone, Copy, Debug, PartialEq, Eq, Structural)]
pub struct Probe {
    pub pressed: bool,
    pub clear: bool,
}

impl Probe {
    /// The key counts when it is held and the way is clear.
    pub open spec fn counts(&self) -> bool {
        self.pressed && self.clear
    }
}

/// The direction the player rig is driven in.
pub open spec fn spec_player_axis(
    locks: CameraLocks,
    forward: Probe,
    back: Probe,
    right: Probe,
    left: Probe,
) -> AxisInput {
    if locks.disable_movement {
        AxisInput { x: 0, y: 0, z: 0 }
    } else {
        AxisInput {
            x: spec_axis(right.counts(), left.counts()) as i8,
            y: 0,
            z: spec_axis(forward.counts(), back.counts()) as i8,
        }
    }
}

/// The direction the player rig is driven in: each held key counts only if
/// the way in its direction is clear, and none counts while movement is
/// taken away. The player rig never moves up or down by key.
pub fn player_axis(
    locks: &CameraLocks,
    forward: Probe,
    back: Probe,
    right: Probe,
    left: Probe,
) -> (input: AxisInput)
    ensures
        input == spec_player_axis(*locks, forward, back, right, left),
{
    if locks.disable_movement {
        AxisInput { x: 0, y: 0, z: 0 }
    } else {
        AxisInput {
            x: axis(right.pressed && right.clear, left.pressed && left.clear),
            y: 0,
            z: axis(forward.pressed && forward.clear, back.pressed && back.clear),
        }
    }
}

/// The direction the editor rig is driven in.
pub open spec fn spec_editor_axis(
    forward: bool,
    back: bool,
    right: bool,
    left: bool,
    up: bool,
    down: bool,
) -> AxisInput {
    AxisInput {
        x: spec_axis(right, left) as i8,
        y: spec_axis(up, down) as i8,
        z: spec_axis(forward, back) as i8,
    }
}

/// The direction the editor rig is driven in: it flies freely, so every
/// held key counts.
pub fn editor_axis(forward: bool, back: bool, right: bool, left: bool, up: bool, down: bool) -> (input:
    AxisInput)
    ensures
        input == spec_editor_axis(forward, back, right, left, up, down),
{
    AxisInput { x: axis(right, left), y: axis(up, down), z: axis(forward, back) }
}

/// What a key or button did this frame. A key that went down this frame is
/// also held; one that came up is no longer held.
#[derive(Clone, Copy, Debug, PartialEq, Eq, Structural)]
pub struct KeyPhase {
    pub just_pressed: bool,
    pub just_released: bool,
    pub pressed: bool,
}

/// What the player rig decides about the mouse cursor in one frame.
#[derive(Clone, Copy, Debug, PartialEq, Eq, Structural)]
pub struct CursorGrab {
    /// `Some(true)`: lock and hide the cursor. `Some(false)`: release and show
    /// it. `None`: leave it as it is.
    pub grab: Option<bool>,
    /// The rig does nothing else this frame.
    pub skip_frame: bool,
}

/// The player rig's cursor rule.
///
/// Three things act on the cursor, in this order, and the last one that acts
/// wins: a change of window focus grabs it; the cursor leaving the window
/// releases it; the release key releases it when it goes down and grabs it
/// again when it comes up. While the release key is simply held, the rig
/// skips the frame, so the player can use the cursor freely.
pub open spec fn spec_player_cursor(focus_changed: bool, cursor_left: bool, release_key: KeyPhase)
    -> CursorGrab {
    let by_events = if cursor_left {
        Some(false)
    } else if focus_changed {
        Some(true)
    } else {
        None
    };
    if release_key.just_pressed {
        CursorGrab { grab: Some(false), skip_frame: false }
    } else if release_key.just_released {
        CursorGrab { grab: Some(true), skip_frame: false }
    } else {
        CursorGrab { grab: by_events, skip_frame: release_key.pressed }
    }
}

/// Decides what the player rig does with the mouse cursor this frame.
/// `focus_changed` and `cursor_left` say whether any such event arrived.
pub fn player_cursor(focus_changed: bool, cursor_left: bool, release_key: KeyPhase) -> (res:
    CursorGrab)
    ensures
        res == spec_player_cursor(focus_changed, cursor_left, release_key),
{
    let mut grab: Option<bool> = None;
    if focus_changed {
        grab = Some(true);
    }
    if cursor_left {
        grab = Some(false);
    }
    let mut skip_frame = false;
    if release_key.just_pressed {
        grab = Some(false);
    } else if release_key.just_released {
        grab = Some(true);
    } else if release_key.pressed {
        skip_frame = true;
    }
    CursorGrab { grab, skip_frame }
}

/// The editor rig's cursor rule: the cursor is grabbed while the look button
/// is held and released in the frame the button comes up.
pub open spec fn spec_editor_cursor(look_button: KeyPhase) -> Option<bool> {
    if look_button.just_released {
        Some(false)
    } else if look_button.pressed {
        Some(true)
    } else {
        None
    }
}

/// Decides what the editor rig does with the mouse cursor this frame:
/// `Some(true)` to grab it, `Some(false)` to release it.
pub fn editor_cursor(look_button: KeyPhase) -> (grab: Option<bool>)
    ensures
        grab == spec_editor_cursor(look_button),
{
    let mut grab: Option<bool> = None;
    if look_button.pressed {
        grab = Some(true);
    }
    if look_button.just_released {
        grab = Some(false);
    }
    grab
}

/// Whether the mouse turns the player rig this frame: it does unless looking
/// is taken away.
pub fn player_looks(locks: &CameraLocks) -> (b: bool)
    ensures
        b == !locks.disable_look,
{
    !locks.disable_look
}

/// The speed the editor rig is driven at.
#[derive(Clone, Copy, Debug, PartialEq, Eq, Structural)]
pub enum Pace {
    Walk,
    Run,
}

/// The editor rig runs while the run key is held and walks otherwise.
pub fn pace(run_key: bool) -> (p: Pace)
    ensures
        p == if run_key { Pace::Run } else { Pace::Walk },
{
    if run_key {
        Pace::Run
    } else {
        Pace::Walk
    }
}

} // verus!
