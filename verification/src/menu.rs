//! The main menu and the loading screen.

use vstd::prelude::*;
use crate::states::GameEvent;

verus! {

/// The buttons of the main menu.
#[derive(Clone, Copy, Debug, PartialEq, Eq, Structural)]
pub enum MenuButton {
    Play,
    Exit,
}

impl MenuButton {
    /// The buttons in the order they are laid out.
    pub fn iter() -> (buttons: Vec<MenuButton>)
        ensures
            buttons@ == seq![MenuButton::Play, MenuButton::Exit],
    {
        let mut buttons = Vec::new();
        buttons.push(MenuButton::Play);
        buttons.push(MenuButton::Exit);
        buttons
    }

    /// The text on the button.
    pub fn label(&self) -> (s: &'static str)
        ensures
            s@ == match self {
                MenuButton::Play => "Play"@,
                MenuButton::Exit => "Exit"@,
            },
    {
        match self {
            MenuButton::Play => "Play",
            MenuButton::Exit => "Exit",
        }
    }

    /// What a click on the button means.
    pub open spec fn event(self) -> GameEvent {
        match self {
            MenuButton::Play => GameEvent::Play,
            MenuButton::Exit => GameEvent::Exit,
        }
    }
}

/// What a menu button does this frame: a button that has just been clicked
/// gives its event, any other gives none.
pub fn button_click(clicked: bool, button: MenuButton) -> (event: Option<GameEvent>)
    ensures
        event == if clicked { Some(button.event()) } else { None },
{
    if clicked {
        match button {
            MenuButton::Play => Some(GameEvent::Play),
            MenuButton::Exit => Some(GameEvent::Exit),
        }
    } else {
        None
    }
}

/// The colour a button is drawn in.
#[derive(Clone, Copy, Debug, PartialEq, Eq, Structural)]
pub enum ButtonShade {
    Normal,
    Hovered,
}

/// The colour a button takes when the pointer's relation to it changes: the
/// hover colour under the pointer, the normal colour when the pointer has
/// left; a click leaves the colour alone.
pub fn update_buttons(hovered: bool, clicked: bool) -> (shade: Option<ButtonShade>)
    ensures
        shade == if clicked {
            None
        } else if hovered {
            Some(ButtonShade::Hovered)
        } else {
            Some(ButtonShade::Normal)
        },
{
    if clicked {
        None
    } else if hovered {
        Some(ButtonShade::Hovered)
    } else {
        Some(ButtonShade::Normal)
    }
}

/// The dots that run behind the word on the loading screen.
pub struct LoadingText {
    count: usize,
}

impl LoadingText {
    #[verifier::type_invariant]
    spec fn inv(self) -> bool {
        self.count < 3
    }

    /// How many updates the dots are into their round of three.
    pub closed spec fn phase(&self) -> int {
        self.count as int
    }

    /// The dots before the first update.
    pub fn new() -> (text: LoadingText)
        ensures
            text.phase() == 0,
    {
        LoadingText { count: 0 }
    }

    /// Shows the next number of dots: one, two, three, and one again.
    pub fn update_text(&mut self) -> (dots: &'static str)
        ensures
            0 <= old(self).phase() < 3,
            final(self).phase() == (old(self).phase() + 1) % 3,
            dots@ == if old(self).phase() == 0 {
                "."@
            } else if old(self).phase() == 1 {
                ".."@
            } else {
                "..."@
            },
    {
        proof {
            use_type_invariant(&*self);
        }
        let dots = match self.count {
            0 => ".",
            1 => "..",
            _ => "...",
        };
        self.count = (self.count + 1) % 3;
        dots
    }
}

} // verus!
