//! Blueprints and the amounts that they speak of.

use std::collections::HashMap;

use vstd::prelude::*;

verus! {

/// A building and what it takes and gives. What kinds of blueprint there are
/// is for the game's rules to say.
#[derive(Debug, Clone)]
pub struct Building<BlueprintType> {
    pub name: String,
    pub blueprint_type: BlueprintType,
    pub description: String,
    pub cost: Option<Cost>,
    pub requirements: Option<HashMap<String, u32>>,
    pub production: Option<Production>,
}

/// A named amount.
#[derive(Debug)]
pub struct Value<T> {
    pub name: String,
    pub value: T,
}

impl<T: Copy> Clone for Value<T> {
    fn clone(&self) -> (copy: Self)
        ensures
            copy == *self,
    {
        Value { name: self.name.clone(), value: self.value }
    }
}

/// What a building costs.
#[derive(Debug, Clone)]
pub struct Cost {
    pub resources: Vec<Value<u32>>,
    pub labor: Option<Vec<Value<u32>>>,
    pub time: Value<u32>,
}

/// What a building turns into what.
#[derive(Debug, Clone)]
pub struct Production {
    pub inputs: Option<Vec<Value<u32>>>,
    pub outputs: Vec<Value<u32>>,
    pub labor: Option<Vec<Value<u32>>>,
    pub time: Value<u32>,
}

} // verus!
