use bevy::ecs::entity::Entity;
use reactor::cursor::{CursorInteraction, Highlight, InteractionTime, OutlineChange};
use reactor::door::{Door, DoorMotion};
use reactor::pellet::{band_mark, BandMark, Polarity};
use reactor::playing::Score;
use reactor::polarity_blaster::{fire_blaster, HitType, LaserChange, PolarityBlaster, Target};
use reactor::switch::{Switch, SwitchState, SWITCH_HOLD_SECS};
use std::time::Duration;

#[test]
fn closed_door_is_raised_by_a_switch_event() {
    let mut door = Door::Closed;
    assert!(door.blocks());
    let motion = door.switch_event();
    assert_eq!(door, Door::Open);
    assert_eq!(motion, DoorMotion::Raise);
    assert!(!door.blocks());
    assert!(!motion.leaves_blocked());
}

#[test]
fn open_door_is_lowered_by_a_switch_event() {
    let mut door = Door::Open;
    let motion = door.switch_event();
    assert_eq!(door, Door::Closed);
    assert_eq!(motion, DoorMotion::Lower);
    assert!(motion.leaves_blocked());
}

#[test]
fn two_switch_events_restore_the_door() {
    for start in [Door::Open, Door::Closed] {
        let mut door = start;
        door.switch_event();
        door.switch_event();
        assert_eq!(door, start);
    }
}

#[test]
fn enabled_switch_flips_on_click() {
    let switch = Switch { target: Entity::from_raw(9), state: SwitchState::Enabled };
    let mut guard = InteractionTime::new();
    guard.advance(Duration::from_millis(16));
    let (event, outline) = switch.interaction_check(CursorInteraction::Clicked, &mut guard);
    assert_eq!(event.map(|e| e.0), Some(Entity::from_raw(9)));
    assert_eq!(outline, OutlineChange::Keep);
    assert!(!guard.ready());
    assert_eq!(guard.timer.duration(), Duration::from_secs(SWITCH_HOLD_SECS));
    assert_eq!(guard.timer.duration(), Duration::from_secs(1));
    assert_eq!(guard.timer.elapsed(), Duration::ZERO);
}

#[test]
fn disabled_switch_ignores_clicks() {
    let switch = Switch { target: Entity::from_raw(9), state: SwitchState::Disabled };
    let mut guard = InteractionTime::new();
    guard.advance(Duration::from_millis(16));
    let (event, outline) = switch.interaction_check(CursorInteraction::Clicked, &mut guard);
    assert!(event.is_none());
    assert_eq!(outline, OutlineChange::Keep);
    assert!(guard.ready());
    assert_eq!(guard.timer.duration(), Duration::ZERO);
}

#[test]
fn switch_outline_follows_the_cursor() {
    let on = Switch { target: Entity::from_raw(1), state: SwitchState::Enabled };
    let off = Switch { target: Entity::from_raw(1), state: SwitchState::Disabled };
    let mut guard = InteractionTime::new();
    let (event, outline) = on.interaction_check(CursorInteraction::Hovered, &mut guard);
    assert!(event.is_none());
    assert_eq!(outline, OutlineChange::Show(Highlight::Hover));
    let (_, outline) = off.interaction_check(CursorInteraction::Hovered, &mut guard);
    assert_eq!(outline, OutlineChange::Show(Highlight::Disabled));
    let (event, outline) = on.interaction_check(CursorInteraction::Idle, &mut guard);
    assert!(event.is_none());
    assert_eq!(outline, OutlineChange::Hide);
    assert_eq!(guard.timer.duration(), Duration::ZERO);
}

#[test]
fn one_button_fires_one_beam() {
    assert_eq!(HitType::from_buttons(true, false), HitType::Blue);
    assert_eq!(HitType::from_buttons(false, true), HitType::Yellow);
    assert_eq!(HitType::from_buttons(true, true), HitType::Idle);
    assert_eq!(HitType::from_buttons(false, false), HitType::Idle);
}

#[test]
fn beams_push_towards_their_own_end() {
    assert_eq!(HitType::Blue.pushes_towards(), Some(Polarity::Blue));
    assert_eq!(HitType::Yellow.pushes_towards(), Some(Polarity::Yellow));
    assert_eq!(HitType::Idle.pushes_towards(), None);
}

#[test]
fn score_follows_the_pellet_into_and_out_of_the_band() {
    let mut score = Score(3);
    let mut entering = Target { hit: false, was_in_range: false, in_range: true };
    let laser = fire_blaster(HitType::Yellow, Some(&mut entering), &mut score);
    assert_eq!(laser, LaserChange::Show(Polarity::Yellow));
    assert_eq!(score, Score(4));
    assert_eq!(entering, Target { hit: true, was_in_range: false, in_range: true });
    let mut leaving = Target { hit: false, was_in_range: true, in_range: false };
    let laser = fire_blaster(HitType::Blue, Some(&mut leaving), &mut score);
    assert_eq!(laser, LaserChange::Show(Polarity::Blue));
    assert_eq!(score, Score(3));
    assert!(leaving.hit);
    let mut staying = Target { hit: false, was_in_range: true, in_range: true };
    fire_blaster(HitType::Blue, Some(&mut staying), &mut score);
    assert_eq!(score, Score(3));
    assert!(staying.hit);
    let mut outside = Target { hit: false, was_in_range: false, in_range: false };
    fire_blaster(HitType::Blue, Some(&mut outside), &mut score);
    assert_eq!(score, Score(3));
    assert!(outside.hit);
}

#[test]
fn without_a_beam_nothing_changes() {
    let mut score = Score(3);
    let mut pellet = Target { hit: false, was_in_range: false, in_range: true };
    let laser = fire_blaster(HitType::Idle, Some(&mut pellet), &mut score);
    assert_eq!(laser, LaserChange::Hide);
    assert_eq!(score, Score(3));
    assert_eq!(pellet, Target { hit: false, was_in_range: false, in_range: true });
    let laser = fire_blaster(HitType::Idle, None, &mut score);
    assert_eq!(laser, LaserChange::Hide);
    assert_eq!(score, Score(3));
    // both buttons held fire nothing
    let laser = fire_blaster(HitType::from_buttons(true, true), Some(&mut pellet), &mut score);
    assert_eq!(laser, LaserChange::Hide);
    assert_eq!(score, Score(3));
    assert!(!pellet.hit);
}

#[test]
fn a_beam_that_hits_no_pellet_scores_nothing() {
    let mut score = Score(0);
    assert_eq!(
        fire_blaster(HitType::Blue, None, &mut score),
        LaserChange::Show(Polarity::Blue)
    );
    assert_eq!(score, Score(0));
    assert_eq!(
        fire_blaster(HitType::from_buttons(false, true), None, &mut score),
        LaserChange::Show(Polarity::Yellow)
    );
    assert_eq!(score, Score(0));
}

#[test]
fn blaster_reacts_to_the_cursor() {
    let on = PolarityBlaster::Enabled;
    let off = PolarityBlaster::Disabled;
    let r = on.interaction_check(CursorInteraction::Hovered);
    assert_eq!(r.outline, OutlineChange::Show(Highlight::Hover));
    assert!(!r.pick_up);
    let r = off.interaction_check(CursorInteraction::Hovered);
    assert_eq!(r.outline, OutlineChange::Show(Highlight::Disabled));
    assert!(!r.pick_up);
    let r = on.interaction_check(CursorInteraction::Clicked);
    assert_eq!(r.outline, OutlineChange::Keep);
    assert!(r.pick_up);
    let r = off.interaction_check(CursorInteraction::Clicked);
    assert_eq!(r.outline, OutlineChange::Keep);
    assert!(!r.pick_up);
    let r = on.interaction_check(CursorInteraction::Idle);
    assert_eq!(r.outline, OutlineChange::Hide);
    assert!(!r.pick_up);
}

#[test]
fn heads_is_blue() {
    assert_eq!(Polarity::from_coin(true), Polarity::Blue);
    assert_eq!(Polarity::from_coin(false), Polarity::Yellow);
    assert_eq!(Polarity::Blue.opposite(), Polarity::Yellow);
    assert_eq!(Polarity::Yellow.opposite(), Polarity::Blue);
}

#[test]
fn pellets_in_the_band_are_marked_accepted() {
    assert_eq!(band_mark(true), BandMark::Accepted);
    assert_eq!(band_mark(false), BandMark::Rejected);
}
