//! What players say to the game.

pub mod model;
pub mod websocket;
