//! Requests of players.

use vstd::prelude::*;

verus! {

/// What to build.
#[derive(Debug, Clone)]
pub struct BuildParams {
    pub blueprint: String,
}

/// A request over a player's connection.
#[derive(Debug, Clone)]
pub struct ApiRequest<T = BuildParams> {
    pub id: String,
    pub method: String,
    pub params: T,
}

} // verus!
