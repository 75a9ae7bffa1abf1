//! A Pomodoro-style timer: workflows of timed phases, the engine that runs
//! them, and the records it shares with a status bar and a state file.

pub mod catalog;
pub mod clock;
pub mod config;
pub mod laws;
pub mod persistence;
pub mod search;
pub mod status;
pub mod text;
pub mod timer;
pub mod views;
pub mod waybar;
pub mod workflow;
