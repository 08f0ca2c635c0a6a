//! Wall switches: a switch that is enabled sends an event to its target when
//! it is clicked.

use vstd::prelude::*;
use bevy::ecs::entity::Entity;
use crate::cursor::{CursorInteraction, Highlight, InteractionTime, OutlineChange};
use crate::timer::{duration_from_secs, NANOS_PER_SEC};

verus! {

/// Whether a switch answers clicks.
#[derive(Clone, Copy, Debug, PartialEq, Eq, Structural)]
pub enum SwitchState {
    Enabled,
    Disabled,
}

/// A switch and the object it acts on.
pub struct Switch {
    pub target: Entity,
    pub state: SwitchState,
}

/// Sent to the target of a switch that was flipped.
pub struct SwitchEvent(pub Entity);

/// Seconds during which a flipped switch ignores further clicks.
pub const SWITCH_HOLD_SECS: u64 = 1;

impl Switch {
    /// Whether the switch is flipped by this interaction: it is clicked while
    /// enabled.
    pub open spec fn flips(&self, interaction: CursorInteraction) -> bool {
        interaction == CursorInteraction::Clicked && self.state == SwitchState::Enabled
    }

    /// What the switch does to its outline: shown while hovered, in the hover
    /// colour if the switch is enabled and in the disabled colour if not;
    /// hidden when the cursor is elsewhere; left alone on a click.
    pub open spec fn outline(&self, interaction: CursorInteraction) -> OutlineChange {
        match interaction {
            CursorInteraction::Clicked => OutlineChange::Keep,
            CursorInteraction::Hovered => OutlineChange::Show(
                match self.state {
                    SwitchState::Enabled => Highlight::Hover,
                    SwitchState::Disabled => Highlight::Disabled,
                },
            ),
            CursorInteraction::Idle => OutlineChange::Hide,
        }
    }

    /// Reacts to this frame's cursor interaction.
    ///
    /// When the switch flips, the result carries the event for its target (the
    /// caller plays the flip sound and sends the event), and the guard is
    /// closed for [`SWITCH_HOLD_SECS`]. Otherwise the guard is untouched and no
    /// event is made.
    pub fn interaction_check(
        &self,
        interaction: CursorInteraction,
        guard: &mut InteractionTime,
    ) -> (res: (Option<SwitchEvent>, OutlineChange))
        ensures
            res.1 == self.outline(interaction),
            self.flips(interaction) <==> res.0 is Some,
            res.0 matches Some(ev) ==> ev.0 == self.target,
            self.flips(interaction) ==> final(guard)@ == old(guard)@.restarted(
                (SWITCH_HOLD_SECS * NANOS_PER_SEC) as nat,
            ),
            !self.flips(interaction) ==> *final(guard) == *old(guard),
    {
        match interaction {
            CursorInteraction::Clicked => {
                match self.state {
                    SwitchState::Enabled => {
                        guard.hold_for(duration_from_secs(SWITCH_HOLD_SECS));
                        (Some(SwitchEvent(self.target)), OutlineChange::Keep)
                    },
                    SwitchState::Disabled => (None, OutlineChange::Keep),
                }
            },
            CursorInteraction::Hovered => {
                let colour = match self.state {
                    SwitchState::Enabled => Highlight::Hover,
                    SwitchState::Disabled => Highlight::Disabled,
                };
                (None, OutlineChange::Show(colour))
            },
            CursorInteraction::Idle => (None, OutlineChange::Hide),
        }
    }
}

} // verus!
