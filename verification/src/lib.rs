//! The core of a building game: players connect, hold inventories of
//! resources and ask for tasks to be done.
//!
//! Everything here decides and computes; whoever runs the game moves the
//! messages, waits, and keeps the clock.

pub mod actor;
pub mod api;
pub mod blueprint;
pub mod channels;
pub mod ids;
pub mod instrumentation;
pub mod laws;
pub mod persistence;
pub mod table;
