//! The polarity blaster: a hand-held tool that pushes the charge of the
//! pellet it points at towards one end of the scale.

use vstd::prelude::*;
use crate::cursor::{CursorInteraction, Highlight, OutlineChange};
use crate::pellet::Polarity;
use crate::playing::{after_hit, score_hit, Score};

verus! {

/// A blaster lies around switched off until the introduction switches it on.
#[derive(Clone, Copy, Debug, PartialEq, Eq, Structural)]
pub enum PolarityBlaster {
    Disabled,
    Enabled,
}

/// What the blaster fires this frame.
#[derive(Clone, Copy, Debug, PartialEq, Eq, Structural)]
pub enum HitType {
    /// Nothing: no beam is shown.
    Idle,
    /// The blue beam, which lowers the charge.
    Blue,
    /// The yellow beam, which raises the charge.
    Yellow,
}

impl HitType {
    /// The left button alone fires blue, the right button alone fires
    /// yellow; both together, or neither, fire nothing.
    pub open spec fn spec_from_buttons(left: bool, right: bool) -> HitType {
        if left && !right {
            HitType::Blue
        } else if right && !left {
            HitType::Yellow
        } else {
            HitType::Idle
        }
    }

    /// What the blaster fires, given which mouse buttons are held.
    pub fn from_buttons(left: bool, right: bool) -> (hit: HitType)
        ensures
            hit == HitType::spec_from_buttons(left, right),
    {
        if left && !right {
            HitType::Blue
        } else if right && !left {
            HitType::Yellow
        } else {
            HitType::Idle
        }
    }

    /// The end of the scale the beam pushes towards, if a beam is fired.
    pub open spec fn spec_pushes_towards(self) -> Option<Polarity> {
        match self {
            HitType::Idle => None,
            HitType::Blue => Some(Polarity::Blue),
            HitType::Yellow => Some(Polarity::Yellow),
        }
    }

    /// The end of the scale the beam pushes towards, if a beam is fired.
    pub fn pushes_towards(self) -> (end: Option<Polarity>)
        ensures
            end == self.spec_pushes_towards(),
    {
        match self {
            HitType::Idle => None,
            HitType::Blue => Some(Polarity::Blue),
            HitType::Yellow => Some(Polarity::Yellow),
        }
    }
}

/// A beam is fired exactly when one button is held and the other is not.
pub proof fn lemma_one_button_fires(left: bool, right: bool)
    ensures
        HitType::spec_from_buttons(left, right) != HitType::Idle <==> left != right,
        HitType::spec_from_buttons(left, right) == HitType::spec_from_buttons(right, left)
            <==> left == right,
{
}

/// What happens to the beam shown in front of the blaster.
#[derive(Clone, Copy, Debug, PartialEq, Eq, Structural)]
pub enum LaserChange {
    /// Show the beam in the colour of the end it pushes towards.
    Show(Polarity),
    /// Take the beam away.
    Hide,
}

/// The pellet at the end of the beam, as the rules see it.
#[derive(Clone, Copy, Debug, PartialEq, Eq, Structural)]
pub struct Target {
    /// The pellet's mark of having been hit this frame.
    pub hit: bool,
    /// Whether the pellet was inside the band before the beam pushed it.
    pub was_in_range: bool,
    /// Whether the pellet is inside the band once the beam has pushed it.
    pub in_range: bool,
}

/// The beam shown for what the blaster fires: none while it fires nothing.
pub open spec fn laser_for(hit_type: HitType) -> LaserChange {
    match hit_type.spec_pushes_towards() {
        Some(end) => LaserChange::Show(end),
        None => LaserChange::Hide,
    }
}

/// Whether a shot lands: a beam is fired and a pellet is at its end.
pub open spec fn lands(hit_type: HitType, target: Option<Target>) -> bool {
    hit_type != HitType::Idle && target.is_some()
}

/// The score after a frame of a blaster in the player's hand: a shot that
/// lands moves it as [`after_hit`] says, anything else leaves it alone.
pub open spec fn score_after_shot(score: int, hit_type: HitType, target: Option<Target>) -> int {
    match target {
        Some(t) => if hit_type != HitType::Idle {
            after_hit(score, t.was_in_range, t.in_range)
        } else {
            score
        },
        None => score,
    }
}

/// The pellet after a frame of the blaster: a shot that lands marks it as
/// hit, anything else leaves it alone.
pub open spec fn target_after_shot(hit_type: HitType, t: Target) -> Target {
    if hit_type != HitType::Idle {
        Target { hit: true, ..t }
    } else {
        t
    }
}

/// One frame of a blaster in the player's hand. `hit_type` is what the
/// blaster fires and `target` the pellet at the end of the beam, if the beam
/// ends on one.
///
/// The result says what to show of the beam. If a beam is fired and it ends
/// on a pellet, the pellet is marked as hit and the score follows it into or
/// out of the band. If nothing is fired, or the beam ends on no pellet,
/// neither the score nor any pellet changes.
pub fn fire_blaster(hit_type: HitType, target: Option<&mut Target>, score: &mut Score) -> (laser:
    LaserChange)
    requires
        target matches Some(t) ==> 0 <= score_after_shot(old(score).0 as int, hit_type, Some(*t))
            <= u32::MAX,
    ensures
        laser == laser_for(hit_type),
        target matches Some(t) ==> *final(t) == target_after_shot(hit_type, *t)
            && final(score).0 == score_after_shot(old(score).0 as int, hit_type, Some(*t)),
        target.is_none() ==> *final(score) == *old(score),
{
    match hit_type.pushes_towards() {
        Some(end) => {
            if let Some(t) = target {
                score_hit(score, t.was_in_range, t.in_range);
                t.hit = true;
            }
            LaserChange::Show(end)
        },
        None => LaserChange::Hide,
    }
}

/// Without a beam nothing is scored and no pellet is marked, whatever the
/// beam would have ended on; and without a pellet at its end a beam scores
/// nothing.
pub proof fn lemma_no_shot_no_change(score: int, hit_type: HitType, target: Option<Target>)
    requires
        !lands(hit_type, target),
    ensures
        score_after_shot(score, hit_type, target) == score,
        target matches Some(t) ==> target_after_shot(hit_type, t) == t,
        hit_type == HitType::Idle ==> laser_for(hit_type) == LaserChange::Hide,
{
}

/// What a blaster lying around does in answer to the cursor.
#[derive(Clone, Copy, Debug, PartialEq, Eq, Structural)]
pub struct BlasterReaction {
    /// What happens to the outlines of the blaster's parts.
    pub outline: OutlineChange,
    /// The player picks the blaster up: it is attached to the camera.
    pub pick_up: bool,
}

impl PolarityBlaster {
    /// The reaction to a cursor interaction: hovering shows the outline, in
    /// the hover colour for a blaster that is switched on and in the disabled
    /// colour for one that is not; a click picks up a blaster that is
    /// switched on; with the cursor elsewhere the outline is hidden.
    pub open spec fn reaction(self, interaction: CursorInteraction) -> BlasterReaction {
        match interaction {
            CursorInteraction::Hovered => BlasterReaction {
                outline: OutlineChange::Show(
                    match self {
                        PolarityBlaster::Disabled => Highlight::Disabled,
                        PolarityBlaster::Enabled => Highlight::Hover,
                    },
                ),
                pick_up: false,
            },
            CursorInteraction::Clicked => BlasterReaction {
                outline: OutlineChange::Keep,
                pick_up: self == PolarityBlaster::Enabled,
            },
            CursorInteraction::Idle => BlasterReaction {
                outline: OutlineChange::Hide,
                pick_up: false,
            },
        }
    }

    /// Reacts to this frame's cursor interaction.
    pub fn interaction_check(&self, interaction: CursorInteraction) -> (res: BlasterReaction)
        ensures
            res == self.reaction(interaction),
    {
        match interaction {
            CursorInteraction::Hovered => {
                let colour = match self {
                    PolarityBlaster::Disabled => Highlight::Disabled,
                    PolarityBlaster::Enabled => Highlight::Hover,
                };
                BlasterReaction { outline: OutlineChange::Show(colour), pick_up: false }
            },
            CursorInteraction::Clicked => {
                let pick_up = match self {
                    PolarityBlaster::Disabled => false,
                    PolarityBlaster::Enabled => true,
                };
                BlasterReaction { outline: OutlineChange::Keep, pick_up }
            },
            CursorInteraction::Idle => BlasterReaction {
                outline: OutlineChange::Hide,
                pick_up: false,
            },
        }
    }
}

/// A blaster that is switched off is never picked up.
pub proof fn lemma_disabled_stays_put(interaction: CursorInteraction)
    ensures
        !PolarityBlaster::Disabled.reaction(interaction).pick_up,
{
}

} // verus!
