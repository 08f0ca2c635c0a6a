//! The game's top-level states and the rules that move between them.

use vstd::prelude::*;

verus! {

/// Where the program as a whole stands.
#[derive(Clone, Copy, Debug, PartialEq, Eq, Hash, Structural)]
pub enum GameState {
    /// The font of the loading screen is being loaded.
    PreLoading,
    /// Everything else is being loaded.
    Loading,
    Menu,
    Playing,
}

/// Which level is set up.
#[derive(Clone, Copy, Debug, PartialEq, Eq, Hash, Structural)]
pub enum LevelState {
    /// No level yet.
    Unset,
    Intro,
    One,
    End,
}

/// Which camera rig drives the main camera.
#[derive(Clone, Copy, Debug, PartialEq, Eq, Hash, Structural)]
pub enum CameraState {
    Static,
    Editor,
    Player,
}

/// Whether the debug tools are shown.
#[derive(Clone, Copy, Debug, PartialEq, Eq, Hash, Structural)]
pub enum Debug {
    Running,
    Paused,
}

/// Whether the debug overlay is shown.
#[derive(Clone, Copy, Debug, PartialEq, Eq, Hash, Structural)]
pub enum DebugOverlayState {
    Running,
    Paused,
}

/// What can move the game from one state to another.
#[derive(Clone, Copy, Debug, PartialEq, Eq, Structural)]
pub enum GameEvent {
    /// Everything the current loading state waits for has been loaded.
    Loaded,
    /// The play button of the menu was clicked.
    Play,
    /// An exit button was clicked: the one of the menu, or the one shown
    /// while playing.
    Exit,
    /// The escape key went down.
    Escape,
}

/// What an event leads to.
#[derive(Clone, Copy, Debug, PartialEq, Eq, Structural)]
pub struct Transition {
    /// The game state to enter, if the event changes it.
    pub game: Option<GameState>,
    /// The level to set up, if the event changes it.
    pub level: Option<LevelState>,
    /// The program ends.
    pub quit: bool,
}

impl Transition {
    /// Nothing happens.
    pub open spec fn stay() -> Transition {
        Transition { game: None, level: None, quit: false }
    }

    /// The game enters `state`; the level stays.
    pub open spec fn enter(state: GameState) -> Transition {
        Transition { game: Some(state), level: None, quit: false }
    }
}

impl GameState {
    /// The rules of the game's course:
    /// the two loading states each lead on when their loading is done, first
    /// to the main loading and then to the menu; in the menu, play starts the
    /// game with the introduction level, and exit or escape end the program;
    /// while playing, exit or escape lead back to the menu. Nothing else
    /// has any effect.
    pub open spec fn spec_on_event(self, event: GameEvent) -> Transition {
        match (self, event) {
            (GameState::PreLoading, GameEvent::Loaded) => Transition::enter(GameState::Loading),
            (GameState::Loading, GameEvent::Loaded) => Transition::enter(GameState::Menu),
            (GameState::Menu, GameEvent::Play) => Transition {
                game: Some(GameState::Playing),
                level: Some(LevelState::Intro),
                quit: false,
            },
            (GameState::Menu, GameEvent::Exit) => Transition {
                game: None,
                level: None,
                quit: true,
            },
            (GameState::Menu, GameEvent::Escape) => Transition {
                game: None,
                level: None,
                quit: true,
            },
            (GameState::Playing, GameEvent::Exit) => Transition::enter(GameState::Menu),
            (GameState::Playing, GameEvent::Escape) => Transition::enter(GameState::Menu),
            _ => Transition::stay(),
        }
    }

    /// What `event` leads to in this state.
    pub fn on_event(self, event: GameEvent) -> (t: Transition)
        ensures
            t == self.spec_on_event(event),
    {
        let stay = Transition { game: None, level: None, quit: false };
        let quit = Transition { game: None, level: None, quit: true };
        match self {
            GameState::PreLoading => match event {
                GameEvent::Loaded => Transition {
                    game: Some(GameState::Loading),
                    level: None,
                    quit: false,
                },
                _ => stay,
            },
            GameState::Loading => match event {
                GameEvent::Loaded => Transition {
                    game: Some(GameState::Menu),
                    level: None,
                    quit: false,
                },
                _ => stay,
            },
            GameState::Menu => match event {
                GameEvent::Play => Transition {
                    game: Some(GameState::Playing),
                    level: Some(LevelState::Intro),
                    quit: false,
                },
                GameEvent::Exit => quit,
                GameEvent::Escape => quit,
                GameEvent::Loaded => stay,
            },
            GameState::Playing => match event {
                GameEvent::Exit => Transition {
                    game: Some(GameState::Menu),
                    level: None,
                    quit: false,
                },
                GameEvent::Escape => Transition {
                    game: Some(GameState::Menu),
                    level: None,
                    quit: false,
                },
                _ => stay,
            },
        }
    }

    /// The camera rig a game state asks for: the player's rig while playing,
    /// the fixed one otherwise.
    pub open spec fn spec_camera(self) -> CameraState {
        if self == GameState::Playing {
            CameraState::Player
        } else {
            CameraState::Static
        }
    }

    /// The camera rig to switch to when this state is entered.
    pub fn camera(self) -> (rig: CameraState)
        ensures
            rig == self.spec_camera(),
    {
        match self {
            GameState::Playing => CameraState::Player,
            _ => CameraState::Static,
        }
    }
}

/// The game state after an event: the one the event leads to, or the same.
pub open spec fn after(state: GameState, event: GameEvent) -> GameState {
    match state.spec_on_event(event).game {
        Some(next) => next,
        None => state,
    }
}

/// The game state after a run of events.
pub open spec fn after_all(state: GameState, events: Seq<GameEvent>) -> GameState
    decreases events.len(),
{
    if events.len() == 0 {
        state
    } else {
        after(after_all(state, events.drop_last()), events.last())
    }
}

/// Loading is never gone back to: once the menu or the game has been
/// reached, every run of events ends in one of those two.
pub proof fn lemma_no_way_back_to_loading(state: GameState, events: Seq<GameEvent>)
    requires
        state == GameState::Menu || state == GameState::Playing,
    ensures
        after_all(state, events) == GameState::Menu || after_all(state, events)
            == GameState::Playing,
    decreases events.len(),
{
    if events.len() > 0 {
        lemma_no_way_back_to_loading(state, events.drop_last());
    }
}

/// The program only ends from the menu, and the level only changes when the
/// game is started from the menu.
pub proof fn lemma_menu_decides(state: GameState, event: GameEvent)
    ensures
        state.spec_on_event(event).quit ==> state == GameState::Menu,
        state.spec_on_event(event).level is Some ==> state == GameState::Menu && event
            == GameEvent::Play && state.spec_on_event(event).game == Some(GameState::Playing),
{
}

impl CameraState {
    /// The rig that follows `self` when the camera key is pressed.
    pub open spec fn spec_toggled(self) -> CameraState {
        match self {
            CameraState::Static => CameraState::Editor,
            CameraState::Editor => CameraState::Player,
            CameraState::Player => CameraState::Static,
        }
    }

    /// The rig to switch to when the camera key is pressed: from the fixed
    /// rig to the editor's, from there to the player's, and round again.
    pub fn toggled(self) -> (next: CameraState)
        ensures
            next == self.spec_toggled(),
    {
        match self {
            CameraState::Static => CameraState::Editor,
            CameraState::Editor => CameraState::Player,
            CameraState::Player => CameraState::Static,
        }
    }
}

/// The camera key goes through all three rigs: pressing it three times leads
/// back to where it started, and fewer presses never do.
pub proof fn lemma_camera_cycle(rig: CameraState)
    ensures
        rig.spec_toggled().spec_toggled().spec_toggled() == rig,
        rig.spec_toggled() != rig,
        rig.spec_toggled().spec_toggled() != rig,
{
}

impl Debug {
    /// The other state.
    pub open spec fn spec_toggled(self) -> Debug {
        match self {
            Debug::Paused => Debug::Running,
            Debug::Running => Debug::Paused,
        }
    }

    /// The state to switch to when the debug key is pressed.
    pub fn toggled(self) -> (next: Debug)
        ensures
            next == self.spec_toggled(),
    {
        match self {
            Debug::Paused => Debug::Running,
            Debug::Running => Debug::Paused,
        }
    }

    /// Whether the world inspector is open: it is while the debug tools run.
    pub fn inspector_enabled(self) -> (on: bool)
        ensures
            on == (self == Debug::Running),
    {
        match self {
            Debug::Paused => false,
            Debug::Running => true,
        }
    }
}

impl DebugOverlayState {
    /// The other state.
    pub open spec fn spec_toggled(self) -> DebugOverlayState {
        match self {
            DebugOverlayState::Paused => DebugOverlayState::Running,
            DebugOverlayState::Running => DebugOverlayState::Paused,
        }
    }

    /// The state to switch to when the overlay key is pressed.
    pub fn toggled(self) -> (next: DebugOverlayState)
        ensures
            next == self.spec_toggled(),
    {
        match self {
            DebugOverlayState::Paused => DebugOverlayState::Running,
            DebugOverlayState::Running => DebugOverlayState::Paused,
        }
    }
}

/// The word the debug overlay shows for the state of the physics.
pub fn physics_label(running: bool) -> (s: &'static str)
    ensures
        s@ == if running { "Enabled"@ } else { "Disabled"@ },
{
    if running {
        "Enabled"
    } else {
        "Disabled"
    }
}

/// Pressing a debug key twice changes nothing.
pub proof fn lemma_debug_toggle_twice(debug: Debug, overlay: DebugOverlayState)
    ensures
        debug.spec_toggled().spec_toggled() == debug,
        overlay.spec_toggled().spec_toggled() == overlay,
{
}

} // verus!
