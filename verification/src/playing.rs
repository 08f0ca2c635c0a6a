//! The scored round: score, high score and the round clock.

use vstd::prelude::*;
use bevy::time::Timer;
use std::time::Duration;
use crate::timer::{
    duration_from_secs, duration_nanos, spec_can_tick, timer_has_just_finished, timer_model,
    timer_new, timer_reset, timer_set_duration, timer_tick, TimerModel, NANOS_PER_SEC,
};

verus! {

/// Pellets currently held inside the acceptance band.
#[derive(Clone, Copy, Debug, Default, PartialEq, Eq, Structural)]
pub struct Score(pub u32);

/// The best score any round ended with.
#[derive(Clone, Copy, Debug, Default, PartialEq, Eq, Structural)]
pub struct HighScore(pub u32);

/// Counts down a round.
pub struct GameTimer(pub Timer);

/// Length of a round, in seconds.
pub const ROUND_SECS: u64 = 30;

/// The countdown is shown in the warning colour from this many whole seconds
/// downwards.
pub const LAST_SECONDS: u32 = 10;

/// The high score after a round that ended with `score`.
pub open spec fn best_of(score: Score, high_score: HighScore) -> HighScore {
    if score.0 > high_score.0 {
        HighScore(score.0)
    } else {
        high_score
    }
}

/// Whether a round that ends with `score` sets a new high score.
pub open spec fn spec_beats(score: Score, high_score: HighScore) -> bool {
    score.0 > high_score.0
}

/// Whether a round that ends with `score` sets a new high score.
pub fn beats(score: &Score, high_score: &HighScore) -> (b: bool)
    ensures
        b == spec_beats(*score, *high_score),
{
    score.0 > high_score.0
}

/// Ends the scoring: the high score takes the score if that is higher, and
/// the score goes back to zero. The caller removes the pellets.
pub fn reset(score: &mut Score, high_score: &mut HighScore)
    ensures
        *final(high_score) == best_of(*old(score), *old(high_score)),
        final(score).0 == 0,
{
    if score.0 > high_score.0 {
        high_score.0 = score.0;
    }
    score.0 = 0;
}

/// The score after a shot moved one pellet: it goes up when the pellet enters
/// the band and down when it leaves.
pub open spec fn after_hit(score: int, was_in_range: bool, in_range: bool) -> int {
    if !was_in_range && in_range {
        score + 1
    } else if was_in_range && !in_range {
        score - 1
    } else {
        score
    }
}

/// Records a shot that moved one pellet. `was_in_range` and `in_range` say
/// whether the pellet was inside the band before and after the shot.
pub fn score_hit(score: &mut Score, was_in_range: bool, in_range: bool)
    requires
        0 <= after_hit(old(score).0 as int, was_in_range, in_range) <= u32::MAX,
    ensures
        final(score).0 == after_hit(old(score).0 as int, was_in_range, in_range),
{
    if !was_in_range && in_range {
        score.0 += 1;
    }
    if was_in_range && !in_range {
        score.0 -= 1;
    }
}

/// Number of pellets inside the band, given for each pellet whether it is.
pub open spec fn in_band(pellets: Seq<bool>) -> int
    decreases pellets.len(),
{
    if pellets.len() == 0 {
        0
    } else {
        in_band(pellets.drop_last()) + if pellets.last() { 1int } else { 0int }
    }
}

/// Moving one pellet changes the number of pellets inside the band exactly as
/// [`after_hit`] changes the score.
pub proof fn lemma_in_band_update(pellets: Seq<bool>, i: int, in_range: bool)
    requires
        0 <= i < pellets.len(),
    ensures
        in_band(pellets.update(i, in_range)) == after_hit(in_band(pellets), pellets[i], in_range),
    decreases pellets.len(),
{
    let moved = pellets.update(i, in_range);
    if i == pellets.len() - 1 {
        assert(moved.drop_last() =~= pellets.drop_last());
    } else {
        assert(moved.drop_last() =~= pellets.drop_last().update(i, in_range));
        lemma_in_band_update(pellets.drop_last(), i, in_range);
    }
}

/// The number of pellets inside the band lies between zero and the number of
/// pellets.
pub proof fn lemma_in_band_bounds(pellets: Seq<bool>)
    ensures
        0 <= in_band(pellets) <= pellets.len(),
    decreases pellets.len(),
{
    if pellets.len() > 0 {
        lemma_in_band_bounds(pellets.drop_last());
    }
}

/// A score that counts the pellets inside the band still does so after a
/// shot, and the shot can always be recorded while the pellets are few enough
/// to count.
pub proof fn lemma_score_counts_band(score: Score, pellets: Seq<bool>, i: int, in_range: bool)
    requires
        0 <= i < pellets.len(),
        pellets.len() <= u32::MAX,
        score.0 == in_band(pellets),
    ensures
        0 <= after_hit(score.0 as int, pellets[i], in_range) <= u32::MAX,
        after_hit(score.0 as int, pellets[i], in_range) == in_band(pellets.update(i, in_range)),
{
    lemma_in_band_update(pellets, i, in_range);
    lemma_in_band_bounds(pellets.update(i, in_range));
}

/// Whether the countdown, at `seconds` whole seconds left, is shown in the
/// warning colour.
pub open spec fn spec_last_seconds(seconds: u32) -> bool {
    seconds <= LAST_SECONDS
}

/// Whether the countdown, at `seconds` whole seconds left, is shown in the
/// warning colour.
pub fn last_seconds(seconds: u32) -> (b: bool)
    ensures
        b == spec_last_seconds(seconds),
{
    seconds <= LAST_SECONDS
}

impl GameTimer {
    /// The reading of the round clock.
    pub open spec fn view(&self) -> TimerModel {
        timer_model(self.0)
    }

    /// A clock with no round running: zero length, nothing counted.
    pub fn new() -> (g: GameTimer)
        ensures
            g@ == TimerModel::fresh(0),
    {
        GameTimer(timer_new(duration_from_secs(0), false))
    }

    /// Starts a round of [`ROUND_SECS`] seconds.
    pub fn start(&mut self)
        ensures
            final(self)@ == old(self)@.restarted((ROUND_SECS * NANOS_PER_SEC) as nat),
    {
        timer_set_duration(&mut self.0, duration_from_secs(ROUND_SECS));
        timer_reset(&mut self.0);
    }

    /// Lets `delta` pass. Returns whether the round ended with this very
    /// tick: the clock was still counting and its count has now reached the
    /// round's length.
    pub fn tick(&mut self, delta: Duration) -> (ended: bool)
        requires
            spec_can_tick(old(self).0, delta),
        ensures
            final(self)@ == old(self)@.tick(duration_nanos(delta)),
            ended == final(self)@.just_finished,
    {
        timer_tick(&mut self.0, delta);
        timer_has_just_finished(&self.0)
    }
}

impl Default for GameTimer {
    /// The same as [`GameTimer::new`].
    fn default() -> (g: GameTimer)
        ensures
            g@ == TimerModel::fresh(0),
    {
        GameTimer::new()
    }
}

/// The label of the one button shown while playing.
#[derive(Clone, Copy, Debug, PartialEq, Eq, Structural)]
pub enum PlayingButton {
    Exit,
}

impl PlayingButton {
    /// The text on the button.
    pub fn label(&self) -> (s: &'static str)
        ensures
            s@ == "Esc"@,
    {
        match self {
            PlayingButton::Exit => "Esc",
        }
    }
}

} // verus!
