//! What can be built, and from what.

pub mod model;
