//! When sounds start, pause and resume.

use vstd::prelude::*;

verus! {

/// How the menu's background music is brought in.
#[derive(Clone, Copy, Debug, PartialEq, Eq, Structural)]
pub enum MusicStart {
    /// Play the track from the start, looped.
    Play,
    /// Resume the track where it was paused.
    Resume,
}

/// Brings in the menu's music when the menu is entered: the first time the
/// track is started, after that it is resumed. `started` remembers whether
/// the track has been started.
pub fn start_audio(started: &mut bool) -> (how: MusicStart)
    ensures
        *final(started),
        how == if *old(started) { MusicStart::Resume } else { MusicStart::Play },
{
    if !*started {
        *started = true;
        MusicStart::Play
    } else {
        MusicStart::Resume
    }
}

/// What a looped sound that accompanies movement is doing.
#[derive(Clone, Copy, Debug, PartialEq, Eq, Structural)]
pub enum Playback {
    Paused,
    Playing,
    /// Stopped, queued, or on its way from one state to another.
    Other,
}

/// What to do with a sound.
#[derive(Clone, Copy, Debug, PartialEq, Eq, Structural)]
pub enum SoundChange {
    Keep,
    Resume,
    Pause,
}

/// The movement sound follows the player: it resumes when the player moves
/// while it is paused, and pauses when the player stands while it plays.
pub fn control_flying_sound(state: Playback, moving: bool) -> (change: SoundChange)
    ensures
        change == match state {
            Playback::Paused => if moving { SoundChange::Resume } else { SoundChange::Keep },
            Playback::Playing => if moving { SoundChange::Keep } else { SoundChange::Pause },
            Playback::Other => SoundChange::Keep,
        },
{
    match state {
        Playback::Paused => {
            if moving {
                SoundChange::Resume
            } else {
                SoundChange::Keep
            }
        },
        Playback::Playing => {
            if !moving {
                SoundChange::Pause
            } else {
                SoundChange::Keep
            }
        },
        Playback::Other => SoundChange::Keep,
    }
}

} // verus!
