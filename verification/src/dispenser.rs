//! The pellet dispenser and the round it feeds.
//!
//! A switch aimed at the dispenser starts a round: the clock is set, the
//! score is cleared and the dispenser is loaded. While it has pellets left,
//! the dispenser releases one whenever its timer runs out and then waits for
//! a delay picked at random.

use vstd::prelude::*;
use bevy::time::Timer;
use rand::rngs::ThreadRng;
use rand::Rng;
use std::time::Duration;
use crate::ai::{AIHighConfig, VoiceLine};
use crate::pellet::Polarity;
use crate::playing::{
    beats, best_of, reset, spec_beats, GameTimer, HighScore, Score, ROUND_SECS,
};
use crate::timer::{
    duration_from_secs, duration_nanos, spec_can_tick, timer_is_finished, timer_model, timer_new,
    timer_reset, timer_set_duration, timer_tick, TimerModel, NANOS_PER_SEC,
};

verus! {

/// The random number generator of the calling thread.
#[verifier::external_type_specification]
#[verifier::external_body]
pub struct ExThreadRng(rand::rngs::ThreadRng);

/// `Rng::gen::<bool>` on the thread's generator: a coin flip. The result is
/// random, so nothing is promised of it.
#[verifier::external_body]
fn flip(rng: &mut ThreadRng) -> bool {
    rng.gen::<bool>()
}

/// Releases pellets while it has any left.
pub struct Dispenser {
    /// Pellets left to release.
    pub count: usize,
    /// Runs out when the next pellet may be released.
    pub timer: Timer,
}

/// Pellets released in one round.
pub const ROUND_PELLETS: usize = 20;

/// Everything the rules know of a dispenser.
pub struct DispenserModel {
    /// Pellets left to release.
    pub count: nat,
    /// The reading of the timer.
    pub timer: TimerModel,
}

/// One frame as a dispenser sees it: the time that passed, and the delay to
/// wait for if a pellet is released. Both in nanoseconds.
pub struct DispenserFrame {
    pub delta: nat,
    pub delay: nat,
}

impl DispenserModel {
    /// Whether a pellet is released now: the timer has run out and a pellet
    /// is left.
    pub open spec fn due(self) -> bool {
        self.timer.finished && self.count > 0
    }

    /// The dispenser after `delta` nanoseconds have passed.
    pub open spec fn tick(self, delta: nat) -> DispenserModel {
        DispenserModel { timer: self.timer.tick(delta), ..self }
    }

    /// The dispenser after it was asked to release: if it was due, one
    /// pellet fewer is left and the timer has started over with `delay` to
    /// wait; if not, nothing has changed.
    pub open spec fn release(self, delay: nat) -> DispenserModel {
        if self.due() {
            DispenserModel { count: (self.count - 1) as nat, timer: self.timer.restarted(delay) }
        } else {
            self
        }
    }

    /// The dispenser after one frame: time passes, then a pellet is released
    /// if one is due.
    pub open spec fn frame(self, f: DispenserFrame) -> DispenserModel {
        self.tick(f.delta).release(f.delay)
    }

    /// The dispenser after a run of frames, the first of `frames` first.
    pub open spec fn run(self, frames: Seq<DispenserFrame>) -> DispenserModel
        decreases frames.len(),
    {
        if frames.len() == 0 {
            self
        } else {
            self.run(frames.drop_last()).frame(frames.last())
        }
    }

    /// The number of pellets released during a run of frames.
    pub open spec fn released(self, frames: Seq<DispenserFrame>) -> nat
        decreases frames.len(),
    {
        if frames.len() == 0 {
            0
        } else {
            let before = self.run(frames.drop_last()).tick(frames.last().delta);
            self.released(frames.drop_last()) + if before.due() {
                1nat
            } else {
                0nat
            }
        }
    }
}

/// A dispenser never releases more than it holds: over any run of frames the
/// pellets released are exactly those the count has dropped by, so at most
/// as many as were loaded.
pub proof fn lemma_released_is_the_drop(m: DispenserModel, frames: Seq<DispenserFrame>)
    ensures
        m.released(frames) + m.run(frames).count == m.count,
        m.released(frames) <= m.count,
    decreases frames.len(),
{
    if frames.len() > 0 {
        lemma_released_is_the_drop(m, frames.drop_last());
    }
}

/// An empty dispenser stays as it is, but for its timer running out: no
/// frame releases a pellet or touches what the timer counts up to.
pub proof fn lemma_empty_is_left_alone(m: DispenserModel, f: DispenserFrame)
    requires
        m.count == 0,
    ensures
        m.frame(f) == m.tick(f.delta),
        m.frame(f).count == 0,
        m.frame(f).timer.duration == m.timer.duration,
{
}

/// A pellet is released only in a frame after whose tick the timer has run
/// out, and the dispenser then waits again: right after a release nothing
/// is due.
pub proof fn lemma_release_waits(m: DispenserModel, f: DispenserFrame)
    ensures
        m.frame(f).count != m.count ==> m.tick(f.delta).timer.finished && m.frame(f).count
            == m.count - 1,
        m.tick(f.delta).due() ==> !m.frame(f).due(),
{
}

impl Dispenser {
    /// The reading of the dispenser.
    pub open spec fn view(&self) -> DispenserModel {
        DispenserModel { count: self.count as nat, timer: timer_model(self.timer) }
    }

    /// An empty dispenser.
    pub fn new() -> (d: Dispenser)
        ensures
            d@ == (DispenserModel { count: 0, timer: TimerModel::fresh(0) }),
    {
        Dispenser { count: 0, timer: timer_new(duration_from_secs(0), false) }
    }

    /// Whether a pellet is released now: the timer has run out and a pellet
    /// is left.
    pub fn due(&self) -> (due: bool)
        ensures
            due == self@.due(),
    {
        timer_is_finished(&self.timer) && self.count > 0
    }

    /// Lets `delta` pass. Returns whether a pellet is released now.
    pub fn tick(&mut self, delta: Duration) -> (due: bool)
        requires
            spec_can_tick(old(self).timer, delta),
        ensures
            final(self)@ == old(self)@.tick(duration_nanos(delta)),
            due == final(self)@.due(),
    {
        timer_tick(&mut self.timer, delta);
        self.due()
    }

    /// Releases a pellet if one is due, and only then.
    ///
    /// From a dispenser that is due, one pellet is released: the result is
    /// the end of the scale the new pellet starts at, decided by the coin;
    /// one pellet fewer is left, and the timer starts over with `delay` to
    /// wait. A dispenser that is not due, because its timer still runs or no
    /// pellet is left, is left alone and releases nothing.
    pub fn release(&mut self, delay: Duration, heads: bool) -> (start: Option<Polarity>)
        ensures
            final(self)@ == old(self)@.release(duration_nanos(delay)),
            start == if old(self)@.due() {
                Some(Polarity::spec_from_coin(heads))
            } else {
                None
            },
            !old(self)@.due() ==> *final(self) == *old(self),
    {
        if self.due() {
            timer_set_duration(&mut self.timer, delay);
            timer_reset(&mut self.timer);
            self.count -= 1;
            Some(Polarity::from_coin(heads))
        } else {
            None
        }
    }

    /// Releases a pellet if one is due, as [`Dispenser::release`] does,
    /// flipping the coin with `rng`. The new pellet may start at either end;
    /// a dispenser that is not due is left alone, and no coin is flipped.
    pub fn dispense_pellets(&mut self, delay: Duration, rng: &mut ThreadRng) -> (start: Option<
        Polarity,
    >)
        ensures
            final(self)@ == old(self)@.release(duration_nanos(delay)),
            start.is_some() <==> old(self)@.due(),
            !old(self)@.due() ==> *final(self) == *old(self),
    {
        if self.due() {
            let heads = flip(rng);
            self.release(delay, heads)
        } else {
            None
        }
    }
}

impl Default for Dispenser {
    /// The same as [`Dispenser::new`].
    fn default() -> (d: Dispenser)
        ensures
            d@ == (DispenserModel { count: 0, timer: TimerModel::fresh(0) }),
    {
        Dispenser::new()
    }
}

/// Starts a round, in answer to a switch event aimed at the dispenser: the
/// clock is set to the length of a round, the scoring is closed as
/// [`reset`] does, and the dispenser is loaded with [`ROUND_PELLETS`]
/// pellets. The caller plays the starting line and removes the pellets of the
/// round before.
pub fn switch_event(
    dispenser: &mut Dispenser,
    game_timer: &mut GameTimer,
    score: &mut Score,
    high_score: &mut HighScore,
)
    ensures
        final(dispenser).count == ROUND_PELLETS,
        final(dispenser).timer == old(dispenser).timer,
        final(score).0 == 0,
        *final(high_score) == best_of(*old(score), *old(high_score)),
        final(game_timer)@ == old(game_timer)@.restarted((ROUND_SECS * NANOS_PER_SEC) as nat),
{
    game_timer.start();
    reset(score, high_score);
    dispenser.count = ROUND_PELLETS;
}

/// How a frame left the round.
#[derive(Clone, Copy, Debug, PartialEq, Eq, Structural)]
pub enum RoundStatus {
    /// The clock did not run out in this frame.
    Running,
    /// The clock ran out in this frame and the scoring was closed. `cheer` is
    /// the line to play if the round set a new high score.
    Ended { cheer: Option<VoiceLine> },
}

/// Lets `delta` pass on the round clock. In the frame in which the clock
/// runs out the scoring is closed as [`reset`] does, and if the score beat
/// the high score the next cheer is taken from `high_config`, which must
/// then be well formed. The caller plays the cheer and removes the pellets.
pub fn update_game_timer(
    game_timer: &mut GameTimer,
    delta: Duration,
    score: &mut Score,
    high_score: &mut HighScore,
    high_config: &mut AIHighConfig,
) -> (status: RoundStatus)
    requires
        spec_can_tick(old(game_timer).0, delta),
        old(game_timer)@.tick(duration_nanos(delta)).just_finished && spec_beats(
            *old(score),
            *old(high_score),
        ) ==> old(high_config).wf(),
    ensures
        final(high_config).list == old(high_config).list,
        final(game_timer)@ == old(game_timer)@.tick(duration_nanos(delta)),
        status is Ended <==> final(game_timer)@.just_finished,
        status is Running ==> {
            &&& *final(score) == *old(score)
            &&& *final(high_score) == *old(high_score)
            &&& final(high_config).last == old(high_config).last
        },
        status matches RoundStatus::Ended { cheer } ==> {
            &&& final(score).0 == 0
            &&& *final(high_score) == best_of(*old(score), *old(high_score))
            &&& spec_beats(*old(score), *old(high_score)) ==> cheer == Some(
                old(high_config).list[old(high_config).upcoming()],
            ) && final(high_config).last == Some(old(high_config).upcoming() as usize)
            &&& !spec_beats(*old(score), *old(high_score)) ==> cheer.is_none()
                && final(high_config).last == old(high_config).last
        },
{
    if game_timer.tick(delta) {
        let mut cheer: Option<VoiceLine> = None;
        if beats(score, high_score) {
            cheer = Some(high_config.next());
        }
        reset(score, high_score);
        RoundStatus::Ended { cheer }
    } else {
        RoundStatus::Running
    }
}

} // verus!
