//! Verified game logic for Isomagic: the game's state machine, the main menu's
//! button behaviour and the camera projection switch.

pub mod menu;
pub mod projection;
pub mod state;
