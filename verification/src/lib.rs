//! The rules of a show-playback program: when its server runs, what its listeners are told, what
//! its level meter shows, and in which order its parts are started.
//!
//! Waiting, spawning and the outside world are left to the program around this library. It brings
//! what it has learned and does what it is told.
pub mod app_state;
pub mod backend;
pub mod channel;
pub mod forward;
pub mod full_state;
pub mod level;
pub mod log_line;
pub mod meter;
pub mod settings;
pub mod setup;
pub mod show;
pub mod state_sync;
