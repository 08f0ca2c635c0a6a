//! The station's AI: its voice lines and the scripted introduction.
//!
//! The introduction is a fixed list of voice lines played one after another.
//! A step counter says how many of them have been started. At a few steps the
//! script waits for the player to do something (look around, walk, pick up
//! the blaster) before the next line may start, and at a few steps it unlocks
//! something (looking, walking, the blasters, the door switch).

use vstd::prelude::*;
use bevy::time::Timer;
use std::time::Duration;
use crate::camera::CameraLocks;
use crate::timer::{
    duration_checked_add, duration_from_secs, duration_nanos, max_duration_nanos, spec_can_tick,
    timer_is_finished, timer_model, timer_new, timer_tick, TimerModel, NANOS_PER_SEC,
};

verus! {

/// Whether the AI is still leading the player through the introduction.
#[derive(Clone, Copy, Debug, PartialEq, Eq, Structural)]
pub enum AI {
    Intro,
    Idle,
}

impl AI {
    /// Whether an AI that appears in this state gets an [`IntroTimer`]: one
    /// that leads the introduction does.
    pub fn leads(&self) -> (b: bool)
        ensures
            b == (*self == AI::Intro),
    {
        match self {
            AI::Intro => true,
            AI::Idle => false,
        }
    }
}

/// Everything the AI can say.
#[derive(Clone, Copy, Debug, PartialEq, Eq, Structural)]
pub enum VoiceLine {
    Intro1,
    Intro2,
    IntroCheck2,
    Intro3,
    IntroCheck3,
    Intro4,
    Intro5,
    Intro6,
    Intro7,
    Intro8,
    Intro9,
    Intro10,
    Annoyed0,
    Annoyed1,
    Annoyed2,
    High1,
    High2,
    High3,
    Start,
}

/// A set of lines said in rotation.
pub struct AIAnnoyConfig {
    pub list: Vec<VoiceLine>,
    /// Position of the line said last, once one has been said.
    pub last: Option<usize>,
}

/// The lines that cheer a new high score are said in rotation too.
pub type AIHighConfig = AIAnnoyConfig;

impl AIAnnoyConfig {
    /// There is something to say, and `last` can be stepped.
    pub open spec fn wf(&self) -> bool {
        &&& self.list.len() > 0
        &&& self.last matches Some(l) ==> l < usize::MAX
    }

    /// Position of the line that comes next: one past the last one, wrapping
    /// round at the end of the list. Before anything was said the rotation
    /// counts as standing at the first line, so the second is said first.
    pub open spec fn upcoming(&self) -> int {
        let last = match self.last {
            Some(l) => l as int,
            None => 0,
        };
        (last + 1) % (self.list.len() as int)
    }

    /// Steps the rotation and returns the line to say.
    pub fn next(&mut self) -> (line: VoiceLine)
        requires
            old(self).wf(),
        ensures
            final(self).wf(),
            final(self).list == old(self).list,
            final(self).last == Some(old(self).upcoming() as usize),
            0 <= old(self).upcoming() < old(self).list.len(),
            line == old(self).list[old(self).upcoming()],
    {
        let last = match self.last {
            Some(l) => l,
            None => 0,
        };
        let next = (last + 1) % self.list.len();
        self.last = Some(next);
        self.list[next]
    }
}

/// The complaints the AI makes when it is clicked.
pub fn setup_annoy_config() -> (config: AIAnnoyConfig)
    ensures
        config.wf(),
        config.list@ == seq![VoiceLine::Annoyed0, VoiceLine::Annoyed1, VoiceLine::Annoyed2],
        config.last.is_none(),
{
    let mut list = Vec::new();
    list.push(VoiceLine::Annoyed0);
    list.push(VoiceLine::Annoyed1);
    list.push(VoiceLine::Annoyed2);
    AIAnnoyConfig { list, last: None }
}

/// The cheers for a new high score.
pub fn setup_high_config() -> (config: AIHighConfig)
    ensures
        config.wf(),
        config.list@ == seq![VoiceLine::High1, VoiceLine::High2, VoiceLine::High3],
        config.last.is_none(),
{
    let mut list = Vec::new();
    list.push(VoiceLine::High1);
    list.push(VoiceLine::High2);
    list.push(VoiceLine::High3);
    AIAnnoyConfig { list, last: None }
}

/// The rotation goes through the list in order: after the line at position
/// `l` comes the one at `l + 1`, and after the last one the first. Before
/// anything was said, the line at position 1 comes up (or the only line, if
/// there is just one).
pub proof fn lemma_rotation_in_order(config: AIAnnoyConfig)
    requires
        config.wf(),
        config.last matches Some(l) ==> l < config.list.len(),
    ensures
        config.last matches Some(l) ==> config.upcoming() == if l + 1 == config.list.len() {
            0
        } else {
            l + 1
        },
        config.last.is_none() ==> config.upcoming() == if config.list.len() == 1 {
            0int
        } else {
            1int
        },
{
    let n = config.list.len() as int;
    let l = match config.last {
        Some(l) => l as int,
        None => 0,
    };
    if l + 1 < n {
        vstd::arithmetic::div_mod::lemma_small_mod((l + 1) as nat, n as nat);
    } else {
        vstd::arithmetic::div_mod::lemma_mod_self_0(n);
    }
}

/// In any rotation of at least two lines, the same line is never said twice
/// in a row by position.
pub proof fn lemma_rotation_moves_on(config: AIAnnoyConfig)
    requires
        config.wf(),
        config.list.len() >= 2,
        config.last matches Some(l) ==> l < config.list.len(),
    ensures
        config.last matches Some(l) ==> config.upcoming() != l,
{
    if let Some(l) = config.last {
        let n = config.list.len() as int;
        if l + 1 < n {
            vstd::arithmetic::div_mod::lemma_small_mod((l + 1) as nat, n as nat);
        } else {
            vstd::arithmetic::div_mod::lemma_mod_self_0(n);
        }
    }
}

/// The script of the introduction and how far it has got.
pub struct AIIntroConfig {
    pub list: Vec<VoiceLine>,
    /// Number of lines started so far.
    pub step: usize,
}

/// Step at which the script waits for the player to look around.
pub const STEP_LOOK: usize = 2;

/// Step at which the script waits for the player to walk.
pub const STEP_MOVE: usize = 4;

/// Step at which the blasters are switched on and the script waits for the
/// player to pick them up.
pub const STEP_BLASTER: usize = 8;

/// Step at which the door switch is switched on.
pub const STEP_SWITCH: usize = 9;

/// Step at which the AI stops leading and can be pestered.
pub const STEP_IDLE: usize = 11;

/// Step the script jumps to when the player skips the introduction.
pub const STEP_SKIPPED: usize = 12;

/// The lines of the introduction, in the order they are said.
pub open spec fn intro_script() -> Seq<VoiceLine> {
    seq![
        VoiceLine::Intro1,
        VoiceLine::Intro2,
        VoiceLine::IntroCheck2,
        VoiceLine::Intro3,
        VoiceLine::IntroCheck3,
        VoiceLine::Intro4,
        VoiceLine::Intro5,
        VoiceLine::Intro6,
        VoiceLine::Intro7,
        VoiceLine::Intro8,
        VoiceLine::Intro9,
        VoiceLine::Intro10,
    ]
}

impl AIIntroConfig {
    /// The script is not empty.
    pub open spec fn wf(&self) -> bool {
        self.list.len() > 0
    }

    /// Whether a line is left to say.
    pub open spec fn has_next(&self) -> bool {
        self.step < self.list.len()
    }

    /// Starts the next line of the script, if one is left: returns it and
    /// counts it. At the end of the script nothing changes.
    pub fn next(&mut self) -> (line: Option<VoiceLine>)
        requires
            old(self).wf(),
        ensures
            final(self).wf(),
            final(self).list == old(self).list,
            old(self).has_next() ==> line == Some(old(self).list[old(self).step as int])
                && final(self).step == old(self).step + 1,
            !old(self).has_next() ==> line.is_none() && final(self).step == old(self).step,
    {
        if self.list.len() - 1 < self.step {
            return None;
        }
        let result = Some(self.list[self.step]);
        self.step += 1;
        result
    }
}

/// The introduction, not yet begun.
pub fn setup_intro_config() -> (config: AIIntroConfig)
    ensures
        config.wf(),
        config.list@ == intro_script(),
        config.step == 0,
{
    let mut list = Vec::new();
    list.push(VoiceLine::Intro1);
    list.push(VoiceLine::Intro2);
    list.push(VoiceLine::IntroCheck2);
    list.push(VoiceLine::Intro3);
    list.push(VoiceLine::IntroCheck3);
    list.push(VoiceLine::Intro4);
    list.push(VoiceLine::Intro5);
    list.push(VoiceLine::Intro6);
    list.push(VoiceLine::Intro7);
    list.push(VoiceLine::Intro8);
    list.push(VoiceLine::Intro9);
    list.push(VoiceLine::Intro10);
    AIIntroConfig { list, step: 0 }
}

/// Times the introduction: while it runs, no new line starts.
pub struct IntroTimer(pub Timer);

/// Seconds of silence after each line of the introduction.
pub const LINE_GAP_SECS: u64 = 1;

/// Seconds before the first line of the introduction.
pub const INTRO_DELAY_SECS: u64 = 2;

impl IntroTimer {
    /// The reading of the timer.
    pub open spec fn view(&self) -> TimerModel {
        timer_model(self.0)
    }

    /// The time a line of `line` nanoseconds is timed with: the line and the
    /// gap after it.
    pub open spec fn span_for(line: nat) -> nat {
        line + (LINE_GAP_SECS * NANOS_PER_SEC) as nat
    }

    /// The timer an AI gets when it appears: it lets [`INTRO_DELAY_SECS`]
    /// pass before the first line.
    pub fn new() -> (t: IntroTimer)
        ensures
            t@ == TimerModel::fresh((INTRO_DELAY_SECS * NANOS_PER_SEC) as nat),
    {
        IntroTimer(timer_new(duration_from_secs(INTRO_DELAY_SECS), false))
    }

    /// Starts timing a line of length `line`, if the line and the gap after
    /// it fit in a `Duration`: a new timer runs for both. Returns whether
    /// they did fit; if not, the timer is left as it was.
    pub fn try_restart(&mut self, line: Duration) -> (done: bool)
        ensures
            done <==> IntroTimer::span_for(duration_nanos(line)) <= max_duration_nanos(),
            done ==> final(self)@ == TimerModel::fresh(IntroTimer::span_for(duration_nanos(line))),
            !done ==> *final(self) == *old(self),
    {
        match duration_checked_add(line, duration_from_secs(LINE_GAP_SECS)) {
            Some(span) => {
                self.0 = timer_new(span, false);
                true
            },
            None => false,
        }
    }

    /// Starts timing a line of length `line`: a new timer runs for the line
    /// and the gap after it.
    pub fn restart(&mut self, line: Duration)
        requires
            IntroTimer::span_for(duration_nanos(line)) <= max_duration_nanos(),
        ensures
            final(self)@ == TimerModel::fresh(IntroTimer::span_for(duration_nanos(line))),
    {
        let _ = self.try_restart(line);
    }
}

/// What the script needs to know about one frame.
#[derive(Clone, Copy, Debug, PartialEq, Eq, Structural)]
pub struct IntroFrame {
    /// The player asked to skip the introduction.
    pub skip: bool,
    /// The timer of the line being said has run out.
    pub timer_finished: bool,
    /// The mouse moved.
    pub mouse_moved: bool,
    /// One of the four movement keys is held.
    pub move_key: bool,
    /// Number of blasters still lying around, not picked up.
    pub loose_blasters: usize,
}

/// The part of the world the script changes.
#[derive(Clone, Copy, Debug, PartialEq, Eq, Structural)]
pub struct IntroState {
    pub step: usize,
    pub ai: AI,
    /// The script is waiting for the player.
    pub paused: bool,
    pub locks: CameraLocks,
}

/// What the caller has to do after a frame of the script.
#[derive(Clone, Copy, Debug, PartialEq, Eq, Structural)]
pub struct IntroActions {
    /// Cut off the line being said.
    pub stop_audio: bool,
    /// Start this line.
    pub play: Option<VoiceLine>,
    /// Switch on every blaster still lying around.
    pub enable_blasters: bool,
    /// Switch on the door switch.
    pub enable_switch: bool,
}

/// First thing in a frame: before any line was started, the player can
/// neither look nor move.
pub open spec fn begun(s: IntroState) -> IntroState {
    if s.step == 0 {
        IntroState { locks: CameraLocks::locked(), ..s }
    } else {
        s
    }
}

/// Skipping jumps past the whole script: the player gets both abilities and
/// the AI goes idle.
pub open spec fn skipped(s: IntroState, skip: bool) -> IntroState {
    if skip {
        IntroState { step: STEP_SKIPPED, ai: AI::Idle, locks: CameraLocks::free(), ..s }
    } else {
        s
    }
}

/// Whether the next line starts: the previous one is over, the script is not
/// waiting for the player, and a line is left.
pub open spec fn line_due(s: IntroState, script_len: int, timer_finished: bool) -> bool {
    timer_finished && !s.paused && s.step < script_len
}

/// Starting a line counts it.
pub open spec fn spoken(s: IntroState, due: bool) -> IntroState {
    if due {
        IntroState { step: (s.step + 1) as usize, ..s }
    } else {
        s
    }
}

/// What the step reached means for the player:
/// at [`STEP_LOOK`] looking is given back and the script waits until the mouse
/// moves; at [`STEP_MOVE`] moving is given back and the script waits until a
/// movement key is held; at [`STEP_BLASTER`] the script waits until no
/// blaster is left lying around; at [`STEP_IDLE`] the AI goes idle.
pub open spec fn gated(s: IntroState, frame: IntroFrame) -> IntroState {
    if s.step == STEP_LOOK {
        IntroState {
            paused: !frame.mouse_moved,
            locks: CameraLocks { disable_look: false, ..s.locks },
            ..s
        }
    } else if s.step == STEP_MOVE {
        IntroState {
            paused: !frame.move_key,
            locks: CameraLocks { disable_movement: false, ..s.locks },
            ..s
        }
    } else if s.step == STEP_BLASTER {
        IntroState { paused: frame.loose_blasters != 0, ..s }
    } else if s.step == STEP_IDLE {
        IntroState { ai: AI::Idle, ..s }
    } else {
        s
    }
}

/// The state just before the gates are looked at.
pub open spec fn before_gates(s: IntroState, script_len: int, frame: IntroFrame) -> IntroState {
    let s1 = skipped(begun(s), frame.skip);
    spoken(s1, line_due(s1, script_len, frame.timer_finished))
}

/// One frame of the script: the state it leaves.
pub open spec fn intro_step(s: IntroState, script_len: int, frame: IntroFrame) -> IntroState {
    gated(before_gates(s, script_len, frame), frame)
}

/// One frame of the script: what the caller has to do.
pub open spec fn intro_actions(s: IntroState, script: Seq<VoiceLine>, frame: IntroFrame)
    -> IntroActions {
    let s1 = skipped(begun(s), frame.skip);
    let reached = before_gates(s, script.len() as int, frame).step;
    IntroActions {
        stop_audio: frame.skip,
        play: if line_due(s1, script.len() as int, frame.timer_finished) {
            Some(script[s1.step as int])
        } else {
            None
        },
        enable_blasters: frame.skip || reached == STEP_BLASTER,
        enable_switch: frame.skip || reached == STEP_SWITCH,
    }
}

/// The state the script works on, gathered from where it is kept.
pub open spec fn state_of(config: AIIntroConfig, ai: AI, paused: bool, locks: CameraLocks)
    -> IntroState {
    IntroState { step: config.step, ai, paused, locks }
}

/// Runs the script for one frame, given what happened in the frame. The
/// timer is the caller's business here: `frame.timer_finished` says whether
/// it has run out, and a line the result asks for is timed with
/// [`IntroTimer::restart`]. [`advance_intro`] does both itself.
///
/// In a frame in which a line may start (the timer has run out and the
/// script was not waiting) the script must not be empty.
pub fn intro_frame(
    config: &mut AIIntroConfig,
    ai: &mut AI,
    paused: &mut bool,
    locks: &mut CameraLocks,
    frame: IntroFrame,
) -> (actions: IntroActions)
    requires
        frame.timer_finished && !*old(paused) ==> old(config).wf(),
    ensures
        final(config).list == old(config).list,
        state_of(*final(config), *final(ai), *final(paused), *final(locks)) == intro_step(
            state_of(*old(config), *old(ai), *old(paused), *old(locks)),
            old(config).list.len() as int,
            frame,
        ),
        actions == intro_actions(
            state_of(*old(config), *old(ai), *old(paused), *old(locks)),
            old(config).list@,
            frame,
        ),
{
    if config.step == 0 {
        locks.disable_look = true;
        locks.disable_movement = true;
    }
    let mut enable_blasters = false;
    let mut enable_switch = false;
    if frame.skip {
        locks.disable_look = false;
        locks.disable_movement = false;
        *ai = AI::Idle;
        enable_blasters = true;
        enable_switch = true;
        config.step = STEP_SKIPPED;
    }
    let mut play: Option<VoiceLine> = None;
    if frame.timer_finished {
        if !*paused {
            play = config.next();
        }
    }
    if config.step == STEP_LOOK {
        locks.disable_look = false;
        *paused = true;
        if frame.mouse_moved {
            *paused = false;
        }
    } else if config.step == STEP_MOVE {
        locks.disable_movement = false;
        *paused = true;
        if frame.move_key {
            *paused = false;
        }
    } else if config.step == STEP_BLASTER {
        *paused = true;
        enable_blasters = true;
        if frame.loose_blasters == 0 {
            *paused = false;
        }
    } else if config.step == STEP_SWITCH {
        enable_switch = true;
    } else if config.step == STEP_IDLE {
        *ai = AI::Idle;
    }
    IntroActions { stop_audio: frame.skip, play, enable_blasters, enable_switch }
}

/// The line that comes up next: the one a frame starts if the line before
/// is over and the script is not waiting. A frame in which the player skips
/// looks past the whole script first.
pub open spec fn spec_upcoming(config: AIIntroConfig, skip: bool) -> Option<VoiceLine> {
    let at = if skip {
        STEP_SKIPPED
    } else {
        config.step
    };
    if at < config.list.len() {
        Some(config.list[at as int])
    } else {
        None
    }
}

/// The line that comes up next, if any is left. The caller needs it to find
/// out how long the line takes before it runs the frame.
pub fn upcoming(config: &AIIntroConfig, skip: bool) -> (line: Option<VoiceLine>)
    ensures
        line == spec_upcoming(*config, skip),
{
    let at = if skip {
        STEP_SKIPPED
    } else {
        config.step
    };
    if at < config.list.len() {
        Some(config.list[at])
    } else {
        None
    }
}

/// The step the script stands at in a frame once a line has or has not been
/// started, which is the step the waits and unlocks go by.
pub open spec fn spec_step_reached(config: AIIntroConfig, paused: bool, frame: IntroFrame)
    -> usize {
    let at = if frame.skip {
        STEP_SKIPPED
    } else {
        config.step
    };
    if frame.timer_finished && !paused && spec_upcoming(config, frame.skip).is_some() {
        (at + 1) as usize
    } else {
        at
    }
}

/// The step the script will stand at in this frame once a line has or has
/// not been started. The caller needs it to know what the frame will ask
/// about the player. Nothing is changed.
pub fn step_reached(config: &AIIntroConfig, paused: bool, frame: IntroFrame) -> (step: usize)
    ensures
        step == spec_step_reached(*config, paused, frame),
{
    let at = if frame.skip {
        STEP_SKIPPED
    } else {
        config.step
    };
    if frame.timer_finished && !paused && at < config.list.len() {
        at + 1
    } else {
        at
    }
}

/// [`spec_upcoming`] and [`spec_step_reached`] foretell the frame: the line
/// a frame starts is the line that came up, started exactly when the line
/// before is over and the script is not waiting, and the step the waits go
/// by is the step reached.
pub proof fn lemma_frame_foretold(config: AIIntroConfig, s: IntroState, frame: IntroFrame)
    requires
        s.step == config.step,
    ensures
        intro_actions(s, config.list@, frame).play == if frame.timer_finished && !s.paused {
            spec_upcoming(config, frame.skip)
        } else {
            None
        },
        before_gates(s, config.list.len() as int, frame).step == spec_step_reached(
            config,
            s.paused,
            frame,
        ),
{
}

/// Runs the script for one frame of length `delta`, timer and all.
///
/// The intro timer is ticked first, and whether it has run out is what the
/// script goes by; `frame.timer_finished` is ignored. When the frame starts
/// a line, the timer is replaced by a new one that runs for `line_len` and
/// the gap after the line. `line_len` is the length of the line that comes
/// up (see [`upcoming`]); in a frame that starts no line it is not used.
///
/// In a frame in which a line may start the script must not be empty, and
/// where one does start its length and the gap must fit in a `Duration`.
pub fn advance_intro(
    config: &mut AIIntroConfig,
    ai: &mut AI,
    intro_timer: &mut IntroTimer,
    delta: Duration,
    paused: &mut bool,
    locks: &mut CameraLocks,
    frame: IntroFrame,
    line_len: Duration,
) -> (actions: IntroActions)
    requires
        spec_can_tick(old(intro_timer).0, delta),
        old(intro_timer)@.tick(duration_nanos(delta)).finished && !*old(paused) ==> old(
            config,
        ).wf(),
        old(intro_timer)@.tick(duration_nanos(delta)).finished && !*old(paused) && spec_upcoming(
            *old(config),
            frame.skip,
        ).is_some() ==> IntroTimer::span_for(duration_nanos(line_len)) <= max_duration_nanos(),
    ensures
        final(config).list == old(config).list,
        state_of(*final(config), *final(ai), *final(paused), *final(locks)) == intro_step(
            state_of(*old(config), *old(ai), *old(paused), *old(locks)),
            old(config).list.len() as int,
            IntroFrame {
                timer_finished: old(intro_timer)@.tick(duration_nanos(delta)).finished,
                ..frame
            },
        ),
        actions == intro_actions(
            state_of(*old(config), *old(ai), *old(paused), *old(locks)),
            old(config).list@,
            IntroFrame {
                timer_finished: old(intro_timer)@.tick(duration_nanos(delta)).finished,
                ..frame
            },
        ),
        actions.play.is_some() ==> final(intro_timer)@ == TimerModel::fresh(
            IntroTimer::span_for(duration_nanos(line_len)),
        ),
        actions.play.is_none() ==> final(intro_timer)@ == old(intro_timer)@.tick(
            duration_nanos(delta),
        ),
{
    timer_tick(&mut intro_timer.0, delta);
    let done = timer_is_finished(&intro_timer.0);
    let seen = IntroFrame {
        skip: frame.skip,
        timer_finished: done,
        mouse_moved: frame.mouse_moved,
        move_key: frame.move_key,
        loose_blasters: frame.loose_blasters,
    };
    let actions = intro_frame(config, ai, paused, locks, seen);
    if actions.play.is_some() {
        intro_timer.restart(line_len);
    }
    actions
}

/// Skipping always ends the introduction: whatever the state, the AI is idle
/// and the player can look and move afterwards, the line being said is cut
/// off, and the blasters and the door switch are switched on.
pub proof fn lemma_skip_ends_intro(s: IntroState, script: Seq<VoiceLine>, frame: IntroFrame)
    requires
        frame.skip,
    ensures
        intro_step(s, script.len() as int, frame).ai == AI::Idle,
        intro_step(s, script.len() as int, frame).locks == CameraLocks::free(),
        intro_step(s, script.len() as int, frame).step >= STEP_SKIPPED,
        intro_actions(s, script, frame).stop_audio,
        intro_actions(s, script, frame).enable_blasters,
        intro_actions(s, script, frame).enable_switch,
{
}

/// While the script waits for the player, no line starts and the step stays
/// where it is, however long the timer has run out.
pub proof fn lemma_script_waits(s: IntroState, script: Seq<VoiceLine>, frame: IntroFrame)
    requires
        s.paused,
        !frame.skip,
    ensures
        intro_step(s, script.len() as int, frame).step == s.step,
        intro_actions(s, script, frame).play.is_none(),
{
}

/// A line starts only when the timer has run out, and it is the line the
/// step pointed at; the step then points at the line after it.
pub proof fn lemma_lines_in_order(s: IntroState, script: Seq<VoiceLine>, frame: IntroFrame)
    requires
        !frame.skip,
        s.step < usize::MAX,
    ensures
        intro_actions(s, script, frame).play matches Some(line) ==> {
            &&& frame.timer_finished
            &&& s.step < script.len()
            &&& line == script[s.step as int]
            &&& intro_step(s, script.len() as int, frame).step == s.step + 1
        },
        intro_actions(s, script, frame).play.is_none() ==> intro_step(
            s,
            script.len() as int,
            frame,
        ).step == s.step,
{
}

/// The step never runs past the end of the script, and only skipping moves
/// it by more than one.
pub proof fn lemma_step_bounds(s: IntroState, frame: IntroFrame)
    requires
        s.step <= intro_script().len(),
    ensures
        s.step <= intro_step(s, intro_script().len() as int, frame).step <= intro_script().len(),
        !frame.skip ==> intro_step(s, intro_script().len() as int, frame).step <= s.step + 1,
{
}

/// Once the AI is idle it stays idle.
pub proof fn lemma_idle_stays(s: IntroState, script_len: int, frame: IntroFrame)
    requires
        s.ai == AI::Idle,
    ensures
        intro_step(s, script_len, frame).ai == AI::Idle,
{
}

/// Once the first line has started, an ability the player has is never taken
/// away again.
pub proof fn lemma_abilities_kept(s: IntroState, script_len: int, frame: IntroFrame)
    requires
        s.step > 0,
    ensures
        !s.locks.disable_look ==> !intro_step(s, script_len, frame).locks.disable_look,
        !s.locks.disable_movement ==> !intro_step(s, script_len, frame).locks.disable_movement,
{
}

/// The waits end exactly on what they wait for: at the look step on mouse
/// movement, at the move step on a movement key, at the blaster step when no
/// blaster is left lying around. At every other step the script does not
/// change whether it waits.
pub proof fn lemma_waits_end(s: IntroState, script_len: int, frame: IntroFrame)
    ensures
        ({
            let before = before_gates(s, script_len, frame);
            let after = intro_step(s, script_len, frame);
            &&& before.step == STEP_LOOK ==> after.paused == !frame.mouse_moved
            &&& before.step == STEP_MOVE ==> after.paused == !frame.move_key
            &&& before.step == STEP_BLASTER ==> after.paused == (frame.loose_blasters != 0)
            &&& before.step != STEP_LOOK && before.step != STEP_MOVE && before.step
                != STEP_BLASTER ==> after.paused == s.paused
        }),
{
}

/// The state after a run of frames, the first of `frames` first.
pub open spec fn intro_run(s: IntroState, script_len: int, frames: Seq<IntroFrame>) -> IntroState
    decreases frames.len(),
{
    if frames.len() == 0 {
        s
    } else {
        intro_step(intro_run(s, script_len, frames.drop_last()), script_len, frames.last())
    }
}

/// The lines started during a run of frames, in the order they were started.
pub open spec fn lines_said(s: IntroState, script: Seq<VoiceLine>, frames: Seq<IntroFrame>) -> Seq<
    VoiceLine,
>
    decreases frames.len(),
{
    if frames.len() == 0 {
        Seq::empty()
    } else {
        let before = intro_run(s, script.len() as int, frames.drop_last());
        let earlier = lines_said(s, script, frames.drop_last());
        match intro_actions(before, script, frames.last()).play {
            Some(line) => earlier.push(line),
            None => earlier,
        }
    }
}

/// Whether the player skips anywhere in a run of frames.
pub open spec fn any_skip(frames: Seq<IntroFrame>) -> bool {
    exists|i: int| 0 <= i < frames.len() && (#[trigger] frames[i]).skip
}

/// However the introduction goes, the step never goes back and never runs
/// past the end of the script, and an AI that has gone idle stays idle.
pub proof fn lemma_run_keeps_order(s: IntroState, frames: Seq<IntroFrame>)
    requires
        s.step <= intro_script().len(),
    ensures
        s.step <= intro_run(s, intro_script().len() as int, frames).step <= intro_script().len(),
        s.ai == AI::Idle ==> intro_run(s, intro_script().len() as int, frames).ai == AI::Idle,
    decreases frames.len(),
{
    if frames.len() > 0 {
        lemma_run_keeps_order(s, frames.drop_last());
    }
}

/// Unless the player skips, nothing is left out and nothing is said twice:
/// the lines started during any run of frames are exactly the part of the
/// script from the step the run began at to the step it ended at.
pub proof fn lemma_script_said_in_order(s: IntroState, frames: Seq<IntroFrame>)
    requires
        s.step <= intro_script().len(),
        !any_skip(frames),
    ensures
        lines_said(s, intro_script(), frames) == intro_script().subrange(
            s.step as int,
            intro_run(s, intro_script().len() as int, frames).step as int,
        ),
    decreases frames.len(),
{
    let script = intro_script();
    if frames.len() == 0 {
        assert(script.subrange(s.step as int, s.step as int) =~= Seq::<VoiceLine>::empty());
    } else {
        let head = frames.drop_last();
        assert forall|i: int| 0 <= i < head.len() implies !(#[trigger] head[i]).skip by {
            assert(head[i] == frames[i]);
        }
        assert(!frames.last().skip) by {
            assert(frames[frames.len() - 1] == frames.last());
        }
        lemma_script_said_in_order(s, head);
        lemma_run_keeps_order(s, head);
        let before = intro_run(s, script.len() as int, head);
        lemma_lines_in_order(before, script, frames.last());
        let after = intro_run(s, script.len() as int, frames);
        match intro_actions(before, script, frames.last()).play {
            Some(line) => {
                assert(script.subrange(s.step as int, after.step as int) =~= script.subrange(
                    s.step as int,
                    before.step as int,
                ).push(line));
            },
            None => {},
        }
    }
}

/// What an AI does when the cursor acts on it: an idle AI that is clicked
/// says its next complaint; one still leading the introduction ignores the
/// player.
pub open spec fn complains(ai: AI, clicked: bool) -> bool {
    clicked && ai == AI::Idle
}

/// Reacts to this frame's cursor interaction. Returns the complaint to play,
/// if the AI makes one; the caller then closes the AI's interaction guard for
/// the length of that line. An AI that complains needs a well-formed
/// rotation to take the complaint from.
pub fn interaction_check(ai: &AI, clicked: bool, annoy_config: &mut AIAnnoyConfig) -> (line:
    Option<VoiceLine>)
    requires
        complains(*ai, clicked) ==> old(annoy_config).wf(),
    ensures
        final(annoy_config).list == old(annoy_config).list,
        complains(*ai, clicked) ==> line == Some(
            old(annoy_config).list[old(annoy_config).upcoming()],
        ) && final(annoy_config).last == Some(old(annoy_config).upcoming() as usize),
        !complains(*ai, clicked) ==> line.is_none()
            && final(annoy_config).last == old(annoy_config).last,
{
    if clicked {
        match ai {
            AI::Idle => Some(annoy_config.next()),
            AI::Intro => None,
        }
    } else {
        None
    }
}

} // verus!
