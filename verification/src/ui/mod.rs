//! The session: what is on screen, what the keys do, and what a tick does.

pub mod app;
pub mod events;
pub mod runner;
pub mod layout;
