//! Cursor interaction: what the object under the cursor learns each frame.
//!
//! Once per frame a ray is cast from the camera; the object it hits, if any,
//! is told whether it is being hovered or clicked. An object may carry an
//! [`InteractionTime`] that keeps it from being clicked again too soon.

use vstd::prelude::*;
use bevy::ecs::entity::Entity;
use bevy::time::Timer;
use std::time::Duration;
use crate::states::CameraState;
use crate::timer::{
    duration_from_secs, duration_nanos, spec_can_tick, timer_is_finished, timer_model, timer_new,
    timer_reset, timer_set_duration, timer_tick, TimerModel,
};

verus! {

/// The engine's handle for an object of the world. The rules never look
/// inside one: they only pass it on.
#[verifier::external_type_specification]
#[verifier::external_body]
pub struct ExEntity(bevy::ecs::entity::Entity);

/// What the cursor is doing to an object this frame.
#[derive(Clone, Copy, Debug, PartialEq, Eq, Structural)]
pub enum CursorInteraction {
    /// The object has been clicked.
    Clicked,
    /// The cursor rests on the object.
    Hovered,
    /// The cursor is elsewhere.
    Idle,
}

/// A colour of the cursor palette, used for an object's outline.
#[derive(Clone, Copy, Debug, PartialEq, Eq, Structural)]
pub enum Highlight {
    /// The object can be used.
    Hover,
    /// The object cannot be used yet.
    Disabled,
}

/// What a prop does to its outline in answer to the cursor.
#[derive(Clone, Copy, Debug, PartialEq, Eq, Structural)]
pub enum OutlineChange {
    /// Leave the outline as it is.
    Keep,
    /// Hide the outline.
    Hide,
    /// Show the outline in the given colour.
    Show(Highlight),
}

/// Sent for the object that the cursor ray hit.
pub struct CursorEvent(pub Entity);

/// The debug inspector's selection: the object clicked last, if the latest
/// interaction was a click.
pub struct Inspector {
    pub active: Option<Entity>,
}

/// Limits when an object can be clicked: clicks count only while the timer
/// is finished.
pub struct InteractionTime {
    pub timer: Timer,
}

impl InteractionTime {
    /// The reading of the guard's timer.
    pub open spec fn view(&self) -> TimerModel {
        timer_model(self.timer)
    }

    /// Whether a click counts right now.
    pub open spec fn spec_ready(&self) -> bool {
        self@.finished
    }

    /// A guard with nothing to wait for. Its timer has not been ticked yet, so
    /// it opens with the first tick.
    pub fn new() -> (it: InteractionTime)
        ensures
            it@ == TimerModel::fresh(0),
    {
        InteractionTime { timer: timer_new(duration_from_secs(0), false) }
    }

    /// Whether a click counts right now.
    pub fn ready(&self) -> (r: bool)
        ensures
            r == self.spec_ready(),
    {
        timer_is_finished(&self.timer)
    }

    /// Lets `delta` pass. Returns whether a click counts afterwards.
    ///
    /// An open guard stays open; a closed one opens as soon as the time
    /// counted reaches the time it was closed for.
    pub fn advance(&mut self, delta: Duration) -> (r: bool)
        requires
            spec_can_tick(old(self).timer, delta),
        ensures
            final(self)@ == old(self)@.tick(duration_nanos(delta)),
            r == final(self).spec_ready(),
    {
        timer_tick(&mut self.timer, delta);
        timer_is_finished(&self.timer)
    }

    /// Closes the guard for `span`, keeping the same timer: the duration is
    /// replaced and the count starts over.
    pub fn hold_for(&mut self, span: Duration)
        ensures
            final(self)@ == old(self)@.restarted(duration_nanos(span)),
    {
        timer_set_duration(&mut self.timer, span);
        timer_reset(&mut self.timer);
    }

    /// Closes the guard for `span` with a new timer.
    pub fn restart(&mut self, span: Duration)
        ensures
            final(self)@ == TimerModel::fresh(duration_nanos(span)),
    {
        self.timer = timer_new(span, false);
    }
}

impl Default for InteractionTime {
    /// The same as [`InteractionTime::new`].
    fn default() -> (it: InteractionTime)
        ensures
            it@ == TimerModel::fresh(0),
    {
        InteractionTime::new()
    }
}

/// What the object under the cursor is told: a click counts when the button
/// went down this frame and the object's guard, if it has one, is open.
pub open spec fn resolve(just_pressed: bool, guard_open: Option<bool>) -> CursorInteraction {
    if just_pressed && guard_open != Some(false) {
        CursorInteraction::Clicked
    } else {
        CursorInteraction::Hovered
    }
}

/// Reads a guard, where there is one.
pub open spec fn guard_state(guard: Option<&InteractionTime>) -> Option<bool> {
    match guard {
        Some(g) => Some(g.spec_ready()),
        None => None,
    }
}

/// Handles one cursor event for the object it names.
///
/// The object becomes `Clicked` when the left button went down this frame and
/// its guard allows it, `Hovered` otherwise. The inspector selects the object
/// on a click and drops its selection on a hover.
pub fn interaction_check(
    event: &CursorEvent,
    just_pressed: bool,
    guard: Option<&InteractionTime>,
    interaction: &mut CursorInteraction,
    inspector: &mut Inspector,
)
    ensures
        *final(interaction) == resolve(just_pressed, guard_state(guard)),
        *final(interaction) == CursorInteraction::Clicked ==> final(inspector).active == Some(
            event.0,
        ),
        *final(interaction) == CursorInteraction::Hovered ==> final(inspector).active.is_none(),
{
    let mut clicked = just_pressed;
    if let Some(g) = guard {
        if !g.ready() {
            clicked = false;
        }
    }
    if clicked {
        inspector.active = Some(event.0);
        *interaction = CursorInteraction::Clicked;
    } else {
        inspector.active = None;
        *interaction = CursorInteraction::Hovered;
    }
}

/// Where the cursor ray starts.
#[derive(Clone, Copy, Debug, PartialEq, Eq, Structural)]
pub enum RaySource {
    /// At the camera, pointing where the camera looks.
    CameraForward,
    /// At the camera, through the point of the screen the mouse is at.
    MousePosition,
}

/// The cursor ray of the player's rig goes straight ahead, since the mouse
/// is locked there; under any other rig it goes through the mouse.
pub fn ray_source(rig: CameraState) -> (source: RaySource)
    ensures
        source == if rig == CameraState::Player {
            RaySource::CameraForward
        } else {
            RaySource::MousePosition
        },
{
    match rig {
        CameraState::Player => RaySource::CameraForward,
        _ => RaySource::MousePosition,
    }
}

/// What a cast of the cursor ray leads to.
pub struct Raycast {
    /// Whether the cursor marker is shown.
    pub cursor_visible: bool,
    /// The event to send, if the ray hit an object.
    pub event: Option<CursorEvent>,
}

/// Looks at what the cursor ray hit: the marker is shown exactly when the
/// ray hit something, and that object gets the cursor event.
pub fn cursor_raycast(hit: Option<Entity>) -> (res: Raycast)
    ensures
        res.cursor_visible == hit.is_some(),
        hit matches Some(e) ==> res.event matches Some(ev) && ev.0 == e,
        hit.is_none() ==> res.event.is_none(),
{
    match hit {
        Some(e) => Raycast { cursor_visible: true, event: Some(CursorEvent(e)) },
        None => Raycast { cursor_visible: false, event: None },
    }
}

/// Forgets last frame's interaction and hides the object's outline, if it has
/// one. `outline_visible` is the outline's visibility flag.
pub fn clear_interactions(interaction: &mut CursorInteraction, outline_visible: Option<&mut bool>)
    ensures
        *final(interaction) == CursorInteraction::Idle,
        outline_visible matches Some(v) ==> *final(v) == false,
{
    *interaction = CursorInteraction::Idle;
    if let Some(v) = outline_visible {
        *v = false;
    }
}

} // verus!
