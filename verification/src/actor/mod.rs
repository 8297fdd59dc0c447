//! The actors of the game and what they say to each other.

pub mod broker;
pub mod dispatcher;
pub mod error;
pub mod inventory;
pub mod model;
pub mod shutdown;
pub mod worker;
