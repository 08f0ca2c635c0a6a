//! Game rules of a small first-person puzzle game: the state machines,
//! interaction rules and scoring rules, kept apart from the engine that
//! draws and simulates the world.

pub mod ai;
pub mod audio;
pub mod camera;
pub mod cursor;
pub mod dispenser;
pub mod door;
pub mod menu;
pub mod pellet;
pub mod playing;
pub mod polarity_blaster;
pub mod rooms;
pub mod space_kit;
pub mod states;
pub mod switch;
pub mod timer;
