//! Storage by key.

pub mod error;
pub mod inmemory;
pub mod span;
pub mod worker;
