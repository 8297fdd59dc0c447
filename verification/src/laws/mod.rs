//! What the operations do, each told of its inputs and its results.

pub mod broker;
pub mod connection;
pub mod dispatcher;
pub mod inventory;
pub mod messages;
pub mod shutdown;
pub mod storage;
pub mod worker;
