//! Verified core of a Gorilla Tag mod menu: game-mode codes, network player
//! records and the C interface's copying rules, the menu's enable/disable
//! state machine and mod table, the button labels, the inline-hook byte
//! layout, and the loader's settings and download logic.
pub mod cinterface;
pub mod gamemode;
pub mod hook;
pub mod loader;
pub mod menu_state;
pub mod mods;
pub mod netplayer;
pub mod ui;

pub use gamemode::{GameModeType, GorillaResult};
pub use hook::Hook;
pub use loader::LoaderConfig;
pub use menu_state::{MenuState, ModTransition};
pub use mods::{Effect, Mod};
pub use netplayer::NetPlayerInfo;
