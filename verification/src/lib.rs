//! Playback control for recorded key sequences: the song model, the key
//! mapping, the shared control state, the hotkey router and the playback
//! scheduler, each with a mathematical model and machine-checked contracts.

pub mod control;
pub mod hotkeys;
pub mod json;
pub mod keymap;
pub mod keys;
pub mod loader;
pub mod router;
pub mod scheduler;
pub mod song;
pub mod speed;
pub mod status;
pub mod text;
