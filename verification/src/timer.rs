//! The engine's one-shot countdown timer, as the rules see it.
//!
//! Props carry a `bevy::time::Timer` to limit how often they react. The timer
//! itself is engine code; this module gives it a mathematical reading, the
//! [`TimerModel`], and states for each operation the rules use what the
//! engine does to that reading. The contracts of the engine's operations are
//! not proved: they are taken from the engine's source and are what the
//! proofs elsewhere rest on. What follows from them is proved here.

use vstd::prelude::*;
use bevy::time::Timer;
use std::time::Duration;

verus! {

/// The engine's timer. Its fields are private to the engine; the rules read
/// them through [`timer_model`].
#[verifier::external_type_specification]
#[verifier::external_body]
pub struct ExTimer(bevy::time::Timer);

/// Nanoseconds in one second.
pub const NANOS_PER_SEC: u64 = 1_000_000_000;

/// The longest span a `Duration` can hold, in nanoseconds: `u64::MAX` whole
/// seconds and one nanosecond short of another.
pub open spec fn max_duration_nanos() -> nat {
    (u64::MAX as nat) * (NANOS_PER_SEC as nat) + 999_999_999
}

/// The length of a `Duration`, in nanoseconds.
pub uninterp spec fn duration_nanos(d: Duration) -> nat;

/// The time a timer has counted so far, in nanoseconds.
pub uninterp spec fn timer_elapsed(t: Timer) -> nat;

/// The time a timer counts up to, in nanoseconds.
pub uninterp spec fn timer_duration(t: Timer) -> nat;

/// Whether the timer has reached its duration.
pub uninterp spec fn timer_finished(t: Timer) -> bool;

/// Whether the timer reached its duration during the latest tick.
pub uninterp spec fn timer_just_finished(t: Timer) -> bool;

/// Whether the timer starts over when it reaches its duration.
pub uninterp spec fn timer_repeating(t: Timer) -> bool;

/// Whether the timer ignores ticks.
pub uninterp spec fn timer_paused(t: Timer) -> bool;

/// Everything the rules know of a timer.
pub struct TimerModel {
    /// Time counted so far, in nanoseconds.
    pub elapsed: nat,
    /// Time to count up to, in nanoseconds.
    pub duration: nat,
    /// The duration has been reached.
    pub finished: bool,
    /// The duration was reached during the latest tick.
    pub just_finished: bool,
    /// The timer starts over when it reaches its duration.
    pub repeating: bool,
    /// The timer ignores ticks.
    pub paused: bool,
}

/// The reading of a timer.
pub open spec fn timer_model(t: Timer) -> TimerModel {
    TimerModel {
        elapsed: timer_elapsed(t),
        duration: timer_duration(t),
        finished: timer_finished(t),
        just_finished: timer_just_finished(t),
        repeating: timer_repeating(t),
        paused: timer_paused(t),
    }
}

impl TimerModel {
    /// A one-shot timer that has counted nothing yet.
    pub open spec fn fresh(duration: nat) -> TimerModel {
        TimerModel {
            elapsed: 0,
            duration,
            finished: false,
            just_finished: false,
            repeating: false,
            paused: false,
        }
    }

    /// Whether a tick adds to the elapsed time of a one-shot timer: it does
    /// unless the timer is paused or has finished.
    pub open spec fn counts(self) -> bool {
        !self.paused && !self.finished
    }

    /// Whether a one-shot timer can take a tick of `delta` nanoseconds: either
    /// the tick leaves the elapsed time alone, or the sum still fits in a
    /// `Duration`.
    pub open spec fn fits(self, delta: nat) -> bool {
        self.counts() ==> self.elapsed + delta <= max_duration_nanos()
    }

    /// A one-shot timer after a tick of `delta` nanoseconds.
    ///
    /// A paused timer only drops its just-finished mark. A finished one stays
    /// finished and drops the mark too. Otherwise the step is added to the
    /// elapsed time; once that reaches the duration the timer is finished,
    /// marked as just finished, and its elapsed time is clamped to the
    /// duration.
    pub open spec fn tick(self, delta: nat) -> TimerModel {
        if !self.counts() {
            TimerModel { just_finished: false, ..self }
        } else {
            let done = self.elapsed + delta >= self.duration;
            TimerModel {
                elapsed: if done {
                    self.duration
                } else {
                    self.elapsed + delta
                },
                finished: done,
                just_finished: done,
                ..self
            }
        }
    }

    /// The timer with another duration. Nothing else changes: whether the
    /// timer has finished is not looked at again until the next tick.
    pub open spec fn with_duration(self, duration: nat) -> TimerModel {
        TimerModel { duration, ..self }
    }

    /// The timer set back to the start: nothing counted, not finished.
    pub open spec fn reset(self) -> TimerModel {
        TimerModel { elapsed: 0, finished: false, just_finished: false, ..self }
    }

    /// The timer started over with another duration.
    pub open spec fn restarted(self, duration: nat) -> TimerModel {
        self.with_duration(duration).reset()
    }

    /// The timer after a run of ticks, the first of `deltas` first.
    pub open spec fn ticks(self, deltas: Seq<nat>) -> TimerModel
        decreases deltas.len(),
    {
        if deltas.len() == 0 {
            self
        } else {
            self.ticks(deltas.drop_last()).tick(deltas.last())
        }
    }
}

/// The sum of a run of steps.
pub open spec fn total(deltas: Seq<nat>) -> nat
    decreases deltas.len(),
{
    if deltas.len() == 0 {
        0
    } else {
        total(deltas.drop_last()) + deltas.last()
    }
}

/// A tick never changes what a one-shot timer counts up to or whether it is
/// paused; a finished timer stays finished; and the just-finished mark is set
/// exactly by the tick that finishes the timer.
pub proof fn lemma_tick_keeps(m: TimerModel, delta: nat)
    ensures
        m.tick(delta).duration == m.duration,
        m.tick(delta).paused == m.paused,
        m.tick(delta).repeating == m.repeating,
        m.finished ==> m.tick(delta).finished,
        m.tick(delta).just_finished <==> m.tick(delta).finished && !m.finished,
{
}

/// A timer that was started over and is not paused has finished after a run
/// of ticks exactly when the steps add up to its duration, and until then it
/// has counted exactly their sum.
pub proof fn lemma_finishes_on_time(m: TimerModel, duration: nat, deltas: Seq<nat>)
    requires
        !m.paused,
    ensures
        m.restarted(duration).ticks(deltas).finished <==> deltas.len() > 0 && total(deltas)
            >= duration,
        !m.restarted(duration).ticks(deltas).finished ==> m.restarted(duration).ticks(
            deltas,
        ).elapsed == total(deltas),
        m.restarted(duration).ticks(deltas).duration == duration,
        !m.restarted(duration).ticks(deltas).paused,
    decreases deltas.len(),
{
    if deltas.len() > 0 {
        lemma_finishes_on_time(m, duration, deltas.drop_last());
    }
}

/// `Duration::from_secs`: a span of `secs` whole seconds.
#[verifier::external_body]
pub(crate) fn duration_from_secs(secs: u64) -> (d: Duration)
    ensures
        duration_nanos(d) == (secs as nat) * (NANOS_PER_SEC as nat),
{
    Duration::from_secs(secs)
}

/// `Duration::checked_add`: the sum of two spans, or `None` when the sum does
/// not fit in a `Duration`.
#[verifier::external_body]
pub(crate) fn duration_checked_add(a: Duration, b: Duration) -> (sum: Option<Duration>)
    ensures
        sum is Some <==> duration_nanos(a) + duration_nanos(b) <= max_duration_nanos(),
        sum matches Some(d) ==> duration_nanos(d) == duration_nanos(a) + duration_nanos(b),
{
    a.checked_add(b)
}

/// `Timer::new`: a timer of the given duration and kind that has counted
/// nothing yet, has not finished and is not paused.
#[verifier::external_body]
pub(crate) fn timer_new(duration: Duration, repeating: bool) -> (t: Timer)
    ensures
        timer_elapsed(t) == 0,
        timer_duration(t) == duration_nanos(duration),
        !timer_finished(t),
        !timer_just_finished(t),
        timer_repeating(t) == repeating,
        !timer_paused(t),
{
    Timer::new(duration, repeating)
}

/// `Timer::finished`: reads the finished flag.
#[verifier::external_body]
pub(crate) fn timer_is_finished(t: &Timer) -> (b: bool)
    ensures
        b == timer_finished(*t),
{
    t.finished()
}

/// `Timer::just_finished`: whether the latest tick was the one that reached
/// the duration.
#[verifier::external_body]
pub(crate) fn timer_has_just_finished(t: &Timer) -> (b: bool)
    ensures
        b == timer_just_finished(*t),
{
    t.just_finished()
}

/// `Timer::repeating`: reads the repeating flag.
#[verifier::external_body]
pub(crate) fn timer_is_repeating(t: &Timer) -> (b: bool)
    ensures
        b == timer_repeating(*t),
{
    t.repeating()
}

/// `Timer::paused`: reads the paused flag.
#[verifier::external_body]
pub(crate) fn timer_is_paused(t: &Timer) -> (b: bool)
    ensures
        b == timer_paused(*t),
{
    t.paused()
}

/// `Timer::elapsed`: the time counted so far.
#[verifier::external_body]
pub(crate) fn timer_get_elapsed(t: &Timer) -> (d: Duration)
    ensures
        duration_nanos(d) == timer_elapsed(*t),
{
    t.elapsed()
}

/// `Timer::tick` on a one-shot timer: the timer changes as
/// [`TimerModel::tick`] says.
///
/// The engine adds the step with `+=`, which panics when the sum does not fit
/// in a `Duration`, and divides by the duration for repeating timers: both are
/// excluded here.
#[verifier::external_body]
pub(crate) fn timer_tick(t: &mut Timer, delta: Duration)
    requires
        !timer_repeating(*old(t)),
        timer_model(*old(t)).fits(duration_nanos(delta)),
    ensures
        timer_model(*final(t)) == timer_model(*old(t)).tick(duration_nanos(delta)),
{
    t.tick(delta);
}

/// `Timer::set_duration`: replaces the duration and nothing else.
#[verifier::external_body]
pub(crate) fn timer_set_duration(t: &mut Timer, duration: Duration)
    ensures
        timer_model(*final(t)) == timer_model(*old(t)).with_duration(duration_nanos(duration)),
{
    t.set_duration(duration);
}

/// `Timer::reset`: clears the elapsed time and both finished marks; duration,
/// repeating and paused stay as they were.
#[verifier::external_body]
pub(crate) fn timer_reset(t: &mut Timer)
    ensures
        timer_model(*final(t)) == timer_model(*old(t)).reset(),
{
    t.reset();
}

/// Whether the rules can let `delta` pass on `t`: the timer is a one-shot
/// timer and the tick fits. Every function of this crate that ticks a timer
/// asks for exactly this.
pub open spec fn spec_can_tick(t: Timer, delta: Duration) -> bool {
    !timer_repeating(t) && timer_model(t).fits(duration_nanos(delta))
}

/// Tests whether the rules can let `delta` pass on `t`.
pub fn can_tick(t: &Timer, delta: Duration) -> (ok: bool)
    ensures
        ok == spec_can_tick(*t, delta),
{
    if timer_is_repeating(t) {
        false
    } else if timer_is_paused(t) || timer_is_finished(t) {
        true
    } else {
        duration_checked_add(timer_get_elapsed(t), delta).is_some()
    }
}

} // verus!
