//! Search cache, play queue, player control and session state of a terminal
//! tool that searches a video catalog and drives an external media player.
//!
//! The library decides, and tells its caller what to run, send or read next.
//! Processes, sockets, files and the terminal belong to the caller; the one
//! thing looked up here is the home directory that the default settings
//! start from.

pub mod cleanup;
pub mod cli;
pub mod config;
pub mod deps;
pub mod display;
pub mod ipc;
pub mod number;
pub mod player;
pub mod player_manager;
pub mod queue;
pub mod search;
pub mod text;
pub mod ui;
