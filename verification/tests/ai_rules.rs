use bevy::time::Timer;
use reactor::ai::{
    advance_intro, interaction_check, intro_frame, setup_annoy_config, setup_high_config,
    setup_intro_config, step_reached, upcoming, AIAnnoyConfig, AIIntroConfig, IntroFrame,
    IntroTimer, VoiceLine, AI, INTRO_DELAY_SECS, STEP_BLASTER, STEP_IDLE, STEP_LOOK, STEP_MOVE,
    STEP_SKIPPED, STEP_SWITCH,
};
use reactor::camera::CameraLocks;
use std::time::Duration;

fn quiet() -> IntroFrame {
    IntroFrame {
        skip: false,
        timer_finished: false,
        mouse_moved: false,
        move_key: false,
        loose_blasters: 1,
    }
}

fn line_over() -> IntroFrame {
    IntroFrame { timer_finished: true, ..quiet() }
}

#[test]
fn intro_script_has_twelve_lines_in_order() {
    let config = setup_intro_config();
    assert_eq!(config.step, 0);
    assert_eq!(
        config.list,
        vec![
            VoiceLine::Intro1,
            VoiceLine::Intro2,
            VoiceLine::IntroCheck2,
            VoiceLine::Intro3,
            VoiceLine::IntroCheck3,
            VoiceLine::Intro4,
            VoiceLine::Intro5,
            VoiceLine::Intro6,
            VoiceLine::Intro7,
            VoiceLine::Intro8,
            VoiceLine::Intro9,
            VoiceLine::Intro10,
        ]
    );
}

#[test]
fn intro_next_walks_the_list_and_stops_at_the_end() {
    let mut config = AIIntroConfig { list: vec![VoiceLine::Intro1, VoiceLine::Intro2], step: 0 };
    assert_eq!(config.next(), Some(VoiceLine::Intro1));
    assert_eq!(config.step, 1);
    assert_eq!(config.next(), Some(VoiceLine::Intro2));
    assert_eq!(config.step, 2);
    assert_eq!(config.next(), None);
    assert_eq!(config.step, 2);
}

#[test]
fn intro_next_past_the_end_changes_nothing() {
    let mut config = AIIntroConfig { list: vec![VoiceLine::Intro1], step: 7 };
    assert_eq!(config.next(), None);
    assert_eq!(config.step, 7);
}

#[test]
fn annoy_rotation_starts_with_the_second_line() {
    let mut config = setup_annoy_config();
    assert_eq!(config.last, None);
    assert_eq!(config.next(), VoiceLine::Annoyed1);
    assert_eq!(config.last, Some(1));
    assert_eq!(config.next(), VoiceLine::Annoyed2);
    assert_eq!(config.last, Some(2));
    assert_eq!(config.next(), VoiceLine::Annoyed0);
    assert_eq!(config.last, Some(0));
    assert_eq!(config.next(), VoiceLine::Annoyed1);
}

#[test]
fn rotation_of_one_line_repeats_it() {
    let mut config = AIAnnoyConfig { list: vec![VoiceLine::Start], last: None };
    assert_eq!(config.next(), VoiceLine::Start);
    assert_eq!(config.last, Some(0));
    assert_eq!(config.next(), VoiceLine::Start);
}

#[test]
fn rotation_wraps_a_position_beyond_the_list() {
    let mut config =
        AIAnnoyConfig { list: vec![VoiceLine::High1, VoiceLine::High2], last: Some(6) };
    assert_eq!(config.next(), VoiceLine::High2);
    assert_eq!(config.last, Some(1));
}

#[test]
fn high_score_cheers_rotate() {
    let mut config = setup_high_config();
    assert_eq!(config.list, vec![VoiceLine::High1, VoiceLine::High2, VoiceLine::High3]);
    assert_eq!(config.next(), VoiceLine::High2);
    assert_eq!(config.next(), VoiceLine::High3);
    assert_eq!(config.next(), VoiceLine::High1);
}

#[test]
fn first_frame_locks_the_camera() {
    let mut config = setup_intro_config();
    let mut ai = AI::Intro;
    let mut paused = false;
    let mut locks = CameraLocks::new();
    let actions = intro_frame(&mut config, &mut ai, &mut paused, &mut locks, quiet());
    assert!(locks.disable_look);
    assert!(locks.disable_movement);
    assert_eq!(actions.play, None);
    assert!(!actions.stop_audio);
    assert!(!actions.enable_blasters);
    assert!(!actions.enable_switch);
    assert_eq!(config.step, 0);
    assert_eq!(ai, AI::Intro);
}

#[test]
fn lines_start_when_the_timer_runs_out() {
    let mut config = setup_intro_config();
    let mut ai = AI::Intro;
    let mut paused = false;
    let mut locks = CameraLocks::new();
    let a = intro_frame(&mut config, &mut ai, &mut paused, &mut locks, line_over());
    assert_eq!(a.play, Some(VoiceLine::Intro1));
    assert_eq!(config.step, 1);
    let a = intro_frame(&mut config, &mut ai, &mut paused, &mut locks, quiet());
    assert_eq!(a.play, None);
    assert_eq!(config.step, 1);
}

#[test]
fn look_step_waits_for_the_mouse() {
    let mut config = setup_intro_config();
    let mut ai = AI::Intro;
    let mut paused = false;
    let mut locks = CameraLocks::new();
    intro_frame(&mut config, &mut ai, &mut paused, &mut locks, line_over());
    let a = intro_frame(&mut config, &mut ai, &mut paused, &mut locks, line_over());
    assert_eq!(a.play, Some(VoiceLine::Intro2));
    assert_eq!(config.step, STEP_LOOK);
    assert!(paused);
    assert!(!locks.disable_look);
    assert!(locks.disable_movement);
    // the timer has run out, but the player has not looked around
    let a = intro_frame(&mut config, &mut ai, &mut paused, &mut locks, line_over());
    assert_eq!(a.play, None);
    assert_eq!(config.step, STEP_LOOK);
    assert!(paused);
    // the mouse moves: the wait ends, and the next frame starts the next line
    let moved = IntroFrame { mouse_moved: true, ..line_over() };
    let a = intro_frame(&mut config, &mut ai, &mut paused, &mut locks, moved);
    assert_eq!(a.play, None);
    assert!(!paused);
    let a = intro_frame(&mut config, &mut ai, &mut paused, &mut locks, line_over());
    assert_eq!(a.play, Some(VoiceLine::IntroCheck2));
    assert_eq!(config.step, 3);
}

#[test]
fn move_step_waits_for_a_movement_key() {
    let mut config = setup_intro_config();
    config.step = 3;
    let mut ai = AI::Intro;
    let mut paused = false;
    let mut locks = CameraLocks { disable_look: false, disable_movement: true };
    let a = intro_frame(&mut config, &mut ai, &mut paused, &mut locks, line_over());
    assert_eq!(a.play, Some(VoiceLine::Intro3));
    assert_eq!(config.step, STEP_MOVE);
    assert!(paused);
    assert!(!locks.disable_movement);
    let a = intro_frame(&mut config, &mut ai, &mut paused, &mut locks, line_over());
    assert_eq!(a.play, None);
    let walking = IntroFrame { move_key: true, ..quiet() };
    intro_frame(&mut config, &mut ai, &mut paused, &mut locks, walking);
    assert!(!paused);
    let a = intro_frame(&mut config, &mut ai, &mut paused, &mut locks, line_over());
    assert_eq!(a.play, Some(VoiceLine::IntroCheck3));
}

#[test]
fn blaster_step_switches_blasters_on_and_waits_for_pickup() {
    let mut config = setup_intro_config();
    config.step = 7;
    let mut ai = AI::Intro;
    let mut paused = false;
    let mut locks = CameraLocks::new();
    let a = intro_frame(&mut config, &mut ai, &mut paused, &mut locks, line_over());
    assert_eq!(a.play, Some(VoiceLine::Intro6));
    assert_eq!(config.step, STEP_BLASTER);
    assert!(a.enable_blasters);
    assert!(!a.enable_switch);
    assert!(paused);
    let a = intro_frame(&mut config, &mut ai, &mut paused, &mut locks, line_over());
    assert_eq!(a.play, None);
    assert!(a.enable_blasters);
    let picked_up = IntroFrame { loose_blasters: 0, ..quiet() };
    intro_frame(&mut config, &mut ai, &mut paused, &mut locks, picked_up);
    assert!(!paused);
    let a = intro_frame(&mut config, &mut ai, &mut paused, &mut locks, line_over());
    assert_eq!(a.play, Some(VoiceLine::Intro7));
    assert_eq!(config.step, STEP_SWITCH);
    assert!(a.enable_switch);
    assert!(!a.enable_blasters);
}

#[test]
fn ai_goes_idle_near_the_end_and_the_script_runs_out() {
    let mut config = setup_intro_config();
    config.step = 10;
    let mut ai = AI::Intro;
    let mut paused = false;
    let mut locks = CameraLocks::new();
    let a = intro_frame(&mut config, &mut ai, &mut paused, &mut locks, line_over());
    assert_eq!(a.play, Some(VoiceLine::Intro9));
    assert_eq!(config.step, STEP_IDLE);
    assert_eq!(ai, AI::Idle);
    let a = intro_frame(&mut config, &mut ai, &mut paused, &mut locks, line_over());
    assert_eq!(a.play, Some(VoiceLine::Intro10));
    assert_eq!(config.step, 12);
    let a = intro_frame(&mut config, &mut ai, &mut paused, &mut locks, line_over());
    assert_eq!(a.play, None);
    assert_eq!(config.step, 12);
    assert_eq!(ai, AI::Idle);
}

#[test]
fn skipping_unlocks_everything() {
    let mut config = setup_intro_config();
    let mut ai = AI::Intro;
    let mut paused = true;
    let mut locks = CameraLocks { disable_look: true, disable_movement: true };
    let skip = IntroFrame { skip: true, ..line_over() };
    let a = intro_frame(&mut config, &mut ai, &mut paused, &mut locks, skip);
    assert_eq!(config.step, STEP_SKIPPED);
    assert_eq!(ai, AI::Idle);
    assert_eq!(locks, CameraLocks { disable_look: false, disable_movement: false });
    assert!(a.stop_audio);
    assert!(a.enable_blasters);
    assert!(a.enable_switch);
    assert_eq!(a.play, None);
}

#[test]
fn skipping_on_the_first_frame_still_unlocks() {
    let mut config = setup_intro_config();
    let mut ai = AI::Intro;
    let mut paused = false;
    let mut locks = CameraLocks::new();
    let skip = IntroFrame { skip: true, ..quiet() };
    intro_frame(&mut config, &mut ai, &mut paused, &mut locks, skip);
    assert!(!locks.disable_look);
    assert!(!locks.disable_movement);
    assert_eq!(config.step, 12);
}

#[test]
fn whole_script_plays_in_order() {
    let mut config = setup_intro_config();
    let mut ai = AI::Intro;
    let mut paused = false;
    let mut locks = CameraLocks::new();
    let eager = IntroFrame {
        skip: false,
        timer_finished: true,
        mouse_moved: true,
        move_key: true,
        loose_blasters: 0,
    };
    let mut said = Vec::new();
    for _ in 0..40 {
        let a = intro_frame(&mut config, &mut ai, &mut paused, &mut locks, eager);
        if let Some(line) = a.play {
            said.push(line);
        }
    }
    assert_eq!(said, setup_intro_config().list);
    assert_eq!(config.step, 12);
    assert_eq!(ai, AI::Idle);
    assert!(!paused);
    assert_eq!(locks, CameraLocks { disable_look: false, disable_movement: false });
}

#[test]
fn intro_timer_waits_before_the_first_line() {
    let timer = IntroTimer::new();
    assert_eq!(timer.0.duration(), Duration::from_secs(INTRO_DELAY_SECS));
    assert_eq!(timer.0.elapsed(), Duration::ZERO);
    assert!(!timer.0.finished());
    assert!(!timer.0.repeating());
}

#[test]
fn intro_timer_restart_adds_the_gap() {
    let mut timer = IntroTimer::new();
    timer.0.tick(Duration::from_secs(5));
    assert!(timer.0.finished());
    timer.restart(Duration::from_millis(2500));
    assert_eq!(timer.0.duration(), Duration::from_millis(3500));
    assert_eq!(timer.0.elapsed(), Duration::ZERO);
    assert!(!timer.0.finished());
}

#[test]
fn intro_timer_try_restart_refuses_what_does_not_fit() {
    let mut timer = IntroTimer::new();
    assert!(!timer.try_restart(Duration::MAX));
    assert_eq!(timer.0.duration(), Duration::from_secs(2));
    assert!(timer.try_restart(Duration::from_secs(4)));
    assert_eq!(timer.0.duration(), Duration::from_secs(5));
    let nearly = Duration::MAX - Duration::from_secs(1);
    assert!(timer.try_restart(nearly));
    assert_eq!(timer.0.duration(), Duration::MAX);
}

#[test]
fn advance_intro_ticks_the_timer_itself() {
    let mut config = setup_intro_config();
    let mut ai = AI::Intro;
    let mut timer = IntroTimer::new();
    let mut paused = false;
    let mut locks = CameraLocks::new();
    let line = Duration::from_millis(2500);
    // one second in: the two seconds of delay are not over
    let a = advance_intro(
        &mut config,
        &mut ai,
        &mut timer,
        Duration::from_secs(1),
        &mut paused,
        &mut locks,
        quiet(),
        line,
    );
    assert_eq!(a.play, None);
    assert_eq!(timer.0.elapsed(), Duration::from_secs(1));
    assert_eq!(timer.0.duration(), Duration::from_secs(2));
    // the frame's own flag is ignored: the timer decides
    let lying = IntroFrame { timer_finished: true, ..quiet() };
    let a = advance_intro(
        &mut config,
        &mut ai,
        &mut timer,
        Duration::from_millis(500),
        &mut paused,
        &mut locks,
        lying,
        line,
    );
    assert_eq!(a.play, None);
    assert_eq!(timer.0.elapsed(), Duration::from_millis(1500));
    let a = advance_intro(
        &mut config,
        &mut ai,
        &mut timer,
        Duration::from_millis(500),
        &mut paused,
        &mut locks,
        quiet(),
        line,
    );
    assert_eq!(a.play, Some(VoiceLine::Intro1));
    assert_eq!(config.step, 1);
    // the line is timed: its length and a second of silence
    assert!(!timer.0.finished());
    assert_eq!(timer.0.elapsed(), Duration::ZERO);
    assert_eq!(timer.0.duration(), Duration::from_millis(3500));
}

#[test]
fn advance_intro_leaves_a_run_out_timer_while_the_script_waits() {
    let mut config = setup_intro_config();
    config.step = STEP_LOOK;
    let mut ai = AI::Intro;
    let mut timer = IntroTimer::new();
    let mut paused = true;
    let mut locks = CameraLocks::new();
    for _ in 0..3 {
        let a = advance_intro(
            &mut config,
            &mut ai,
            &mut timer,
            Duration::from_secs(5),
            &mut paused,
            &mut locks,
            quiet(),
            Duration::from_secs(9),
        );
        assert_eq!(a.play, None);
        assert!(timer.0.finished());
        assert_eq!(timer.0.duration(), Duration::from_secs(2));
        assert_eq!(config.step, STEP_LOOK);
    }
}

#[test]
fn the_line_that_comes_up() {
    let mut config = setup_intro_config();
    assert_eq!(upcoming(&config, false), Some(VoiceLine::Intro1));
    assert_eq!(upcoming(&config, true), None);
    config.step = 4;
    assert_eq!(upcoming(&config, false), Some(VoiceLine::IntroCheck3));
    config.step = 12;
    assert_eq!(upcoming(&config, false), None);
    let long = AIIntroConfig { list: vec![VoiceLine::Start; 14], step: 3 };
    assert_eq!(upcoming(&long, true), Some(VoiceLine::Start));
    // looking ahead changes nothing
    assert_eq!(config.step, 12);
}

#[test]
fn the_step_a_frame_reaches() {
    let mut config = setup_intro_config();
    config.step = 1;
    assert_eq!(step_reached(&config, false, quiet()), 1);
    assert_eq!(step_reached(&config, false, line_over()), 2);
    assert_eq!(step_reached(&config, true, line_over()), 1);
    let skip = IntroFrame { skip: true, ..line_over() };
    assert_eq!(step_reached(&config, false, skip), 12);
    config.step = 12;
    assert_eq!(step_reached(&config, false, line_over()), 12);
    // it agrees with what the frame then does
    for step in 0..13 {
        for paused in [false, true] {
            for frame in [quiet(), line_over(), skip] {
                let mut c = setup_intro_config();
                c.step = step;
                let foretold = step_reached(&c, paused, frame);
                let line = upcoming(&c, frame.skip);
                let mut ai = AI::Intro;
                let mut p = paused;
                let mut locks = CameraLocks::new();
                let a = intro_frame(&mut c, &mut ai, &mut p, &mut locks, frame);
                assert_eq!(c.step, foretold);
                if a.play.is_some() {
                    assert_eq!(a.play, line);
                }
            }
        }
    }
}

#[test]
fn only_an_idle_ai_complains() {
    let mut config = setup_annoy_config();
    assert_eq!(interaction_check(&AI::Intro, true, &mut config), None);
    assert_eq!(config.last, None);
    assert_eq!(interaction_check(&AI::Idle, false, &mut config), None);
    assert_eq!(config.last, None);
    assert_eq!(interaction_check(&AI::Idle, true, &mut config), Some(VoiceLine::Annoyed1));
    assert_eq!(config.last, Some(1));
}

#[test]
fn only_a_leading_ai_gets_a_timer() {
    assert!(AI::Intro.leads());
    assert!(!AI::Idle.leads());
}

#[test]
fn timer_type_is_the_engines() {
    let timer: Timer = IntroTimer::new().0;
    assert!(!timer.paused());
}
