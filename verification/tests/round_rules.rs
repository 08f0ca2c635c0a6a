use reactor::ai::{setup_high_config, VoiceLine};
use reactor::dispenser::{switch_event, update_game_timer, Dispenser, RoundStatus, ROUND_PELLETS};
use reactor::pellet::Polarity;
use reactor::playing::{
    beats, last_seconds, reset, score_hit, GameTimer, HighScore, PlayingButton, Score,
    LAST_SECONDS, ROUND_SECS,
};
use std::time::Duration;

#[test]
fn reset_keeps_the_better_score() {
    let mut score = Score(7);
    let mut high = HighScore(4);
    reset(&mut score, &mut high);
    assert_eq!(score, Score(0));
    assert_eq!(high, HighScore(7));
}

#[test]
fn reset_keeps_the_high_score_when_not_beaten() {
    let mut score = Score(4);
    let mut high = HighScore(4);
    assert!(!beats(&score, &high));
    reset(&mut score, &mut high);
    assert_eq!(score, Score(0));
    assert_eq!(high, HighScore(4));
    let mut score = Score(1);
    reset(&mut score, &mut high);
    assert_eq!(high, HighScore(4));
}

#[test]
fn score_hit_counts_band_crossings() {
    let mut score = Score(0);
    score_hit(&mut score, false, true);
    assert_eq!(score.0, 1);
    score_hit(&mut score, true, true);
    assert_eq!(score.0, 1);
    score_hit(&mut score, false, false);
    assert_eq!(score.0, 1);
    score_hit(&mut score, true, false);
    assert_eq!(score.0, 0);
    let mut top = Score(u32::MAX - 1);
    score_hit(&mut top, false, true);
    assert_eq!(top.0, u32::MAX);
}

#[test]
fn countdown_warns_in_the_last_ten_seconds() {
    assert_eq!(LAST_SECONDS, 10);
    assert!(last_seconds(0));
    assert!(last_seconds(10));
    assert!(!last_seconds(11));
    assert!(!last_seconds(30));
}

#[test]
fn exit_button_is_labelled_esc() {
    assert_eq!(PlayingButton::Exit.label(), "Esc");
}

#[test]
fn game_timer_starts_idle() {
    let timer = GameTimer::new();
    assert_eq!(timer.0.duration(), Duration::ZERO);
    assert!(!timer.0.finished());
    assert!(!timer.0.repeating());
}

#[test]
fn round_lasts_thirty_seconds() {
    assert_eq!(ROUND_SECS, 30);
    let mut timer = GameTimer::new();
    timer.0.tick(Duration::from_secs(1));
    assert!(timer.0.finished());
    timer.start();
    assert!(!timer.0.finished());
    assert!(!timer.0.just_finished());
    assert_eq!(timer.0.duration(), Duration::from_secs(30));
    assert_eq!(timer.0.elapsed(), Duration::ZERO);
    assert!(!timer.tick(Duration::from_secs(29)));
    assert!(timer.tick(Duration::from_secs(1)));
    // the round ended in the frame before: this one is no end
    assert!(!timer.tick(Duration::from_secs(1)));
    assert!(timer.0.finished());
}

#[test]
fn new_dispenser_is_empty() {
    let mut dispenser = Dispenser::new();
    assert_eq!(dispenser.count, 0);
    assert!(!dispenser.tick(Duration::from_millis(16)));
    assert!(dispenser.timer.finished());
}

#[test]
fn switch_event_starts_a_round() {
    let mut dispenser = Dispenser::new();
    let mut timer = GameTimer::new();
    let mut score = Score(5);
    let mut high = HighScore(2);
    switch_event(&mut dispenser, &mut timer, &mut score, &mut high);
    assert_eq!(dispenser.count, ROUND_PELLETS);
    assert_eq!(dispenser.count, 20);
    assert_eq!(score, Score(0));
    assert_eq!(high, HighScore(5));
    assert_eq!(timer.0.duration(), Duration::from_secs(30));
    assert_eq!(timer.0.elapsed(), Duration::ZERO);
    assert!(!timer.0.finished());
}

#[test]
fn loaded_dispenser_releases_when_its_timer_runs_out() {
    let mut dispenser = Dispenser::new();
    dispenser.count = 2;
    assert!(dispenser.tick(Duration::from_millis(16)));
    assert!(dispenser.due());
    let start = dispenser.release(Duration::from_millis(700), true);
    assert_eq!(start, Some(Polarity::Blue));
    assert!(!dispenser.due());
    assert_eq!(dispenser.count, 1);
    assert_eq!(dispenser.timer.duration(), Duration::from_millis(700));
    assert_eq!(dispenser.timer.elapsed(), Duration::ZERO);
    assert!(!dispenser.tick(Duration::from_millis(699)));
    assert!(dispenser.tick(Duration::from_millis(1)));
    let start = dispenser.release(Duration::from_millis(300), false);
    assert_eq!(start, Some(Polarity::Yellow));
    assert_eq!(dispenser.count, 0);
    // empty: the timer runs out but nothing is due
    assert!(!dispenser.tick(Duration::from_secs(1)));
    assert!(dispenser.timer.finished());
}

#[test]
fn an_empty_dispenser_is_left_alone() {
    let mut rng = rand::thread_rng();
    let mut dispenser = Dispenser::new();
    // timer not yet run out
    assert_eq!(dispenser.release(Duration::from_secs(1), true), None);
    assert_eq!(dispenser.dispense_pellets(Duration::from_secs(1), &mut rng), None);
    assert_eq!(dispenser.count, 0);
    assert_eq!(dispenser.timer.duration(), Duration::ZERO);
    // timer run out, still nothing to release
    dispenser.tick(Duration::from_millis(16));
    assert!(dispenser.timer.finished());
    assert!(!dispenser.due());
    assert_eq!(dispenser.release(Duration::from_secs(1), true), None);
    assert_eq!(dispenser.dispense_pellets(Duration::from_secs(1), &mut rng), None);
    assert_eq!(dispenser.count, 0);
    assert_eq!(dispenser.timer.duration(), Duration::ZERO);
    assert!(dispenser.timer.finished());
}

#[test]
fn a_loaded_dispenser_waits_for_its_timer() {
    let mut rng = rand::thread_rng();
    let mut dispenser = Dispenser::new();
    dispenser.count = 3;
    dispenser.tick(Duration::from_millis(1));
    assert!(dispenser.release(Duration::from_millis(500), true).is_some());
    // the timer runs: nothing is released, nothing changes
    assert!(!dispenser.tick(Duration::from_millis(499)));
    assert_eq!(dispenser.release(Duration::from_millis(900), true), None);
    assert_eq!(dispenser.dispense_pellets(Duration::from_millis(900), &mut rng), None);
    assert_eq!(dispenser.count, 2);
    assert_eq!(dispenser.timer.duration(), Duration::from_millis(500));
    assert_eq!(dispenser.timer.elapsed(), Duration::from_millis(499));
}

#[test]
fn random_release_counts_down_like_any_other() {
    let mut rng = rand::thread_rng();
    let mut dispenser = Dispenser::new();
    dispenser.count = 20;
    let mut blue = 0;
    let mut yellow = 0;
    for left in (0..20).rev() {
        assert!(dispenser.tick(Duration::from_millis(300)));
        match dispenser.dispense_pellets(Duration::from_millis(300), &mut rng) {
            Some(Polarity::Blue) => blue += 1,
            Some(Polarity::Yellow) => yellow += 1,
            None => panic!("a due dispenser released nothing"),
        }
        assert_eq!(dispenser.count, left);
        assert_eq!(dispenser.timer.duration(), Duration::from_millis(300));
        assert!(!dispenser.timer.finished());
    }
    assert_eq!(blue + yellow, 20);
    assert!(!dispenser.tick(Duration::from_millis(300)));
    assert_eq!(dispenser.dispense_pellets(Duration::from_millis(300), &mut rng), None);
    assert_eq!(dispenser.count, 0);
}

#[test]
fn round_end_records_a_new_high_score_and_cheers() {
    let mut timer = GameTimer::new();
    timer.start();
    let mut score = Score(6);
    let mut high = HighScore(3);
    let mut cheers = setup_high_config();
    let status =
        update_game_timer(&mut timer, Duration::from_secs(10), &mut score, &mut high, &mut cheers);
    assert_eq!(status, RoundStatus::Running);
    assert_eq!(score, Score(6));
    assert_eq!(high, HighScore(3));
    assert_eq!(cheers.last, None);
    let status =
        update_game_timer(&mut timer, Duration::from_secs(20), &mut score, &mut high, &mut cheers);
    assert_eq!(status, RoundStatus::Ended { cheer: Some(VoiceLine::High2) });
    assert_eq!(score, Score(0));
    assert_eq!(high, HighScore(6));
    assert_eq!(cheers.last, Some(1));
    let status =
        update_game_timer(&mut timer, Duration::from_secs(1), &mut score, &mut high, &mut cheers);
    assert_eq!(status, RoundStatus::Running);
}

#[test]
fn round_end_without_a_new_high_score_is_silent() {
    let mut timer = GameTimer::new();
    timer.start();
    let mut score = Score(3);
    let mut high = HighScore(3);
    let mut cheers = setup_high_config();
    let status =
        update_game_timer(&mut timer, Duration::from_secs(31), &mut score, &mut high, &mut cheers);
    assert_eq!(status, RoundStatus::Ended { cheer: None });
    assert_eq!(score, Score(0));
    assert_eq!(high, HighScore(3));
    assert_eq!(cheers.last, None);
}

#[test]
fn score_counts_the_pellets_in_the_band() {
    let mut pellets = [false; 6];
    let mut score = Score(0);
    let moves = [
        (0, true),
        (3, true),
        (3, true),
        (0, false),
        (5, true),
        (1, false),
        (3, false),
        (2, true),
        (5, false),
        (2, true),
    ];
    for (i, now) in moves {
        score_hit(&mut score, pellets[i], now);
        pellets[i] = now;
        let inside = pellets.iter().filter(|p| **p).count();
        assert_eq!(score.0 as usize, inside);
    }
    assert_eq!(score, Score(1));
}

#[test]
fn defaults_are_the_new_values() {
    let timer = GameTimer::default();
    assert_eq!(timer.0.duration(), Duration::ZERO);
    assert!(!timer.0.finished());
    let dispenser = Dispenser::default();
    assert_eq!(dispenser.count, 0);
    assert_eq!(dispenser.timer.duration(), Duration::ZERO);
    assert!(!dispenser.timer.finished());
    assert_eq!(Score::default(), Score(0));
    assert_eq!(HighScore::default(), HighScore(0));
}

#[test]
fn a_round_releases_twenty_pellets() {
    let mut dispenser = Dispenser::new();
    let mut timer = GameTimer::new();
    let mut score = Score(0);
    let mut high = HighScore(0);
    switch_event(&mut dispenser, &mut timer, &mut score, &mut high);
    let mut released = 0;
    for frame in 0..1000 {
        dispenser.tick(Duration::from_millis(100));
        let before = dispenser.count;
        // asked every frame, due or not
        if dispenser.release(Duration::from_millis(300), frame % 2 == 0).is_some() {
            released += 1;
            assert_eq!(dispenser.count, before - 1);
        } else {
            assert_eq!(dispenser.count, before);
        }
    }
    assert_eq!(released, 20);
    assert_eq!(dispenser.count, 0);
}
