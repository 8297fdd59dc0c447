//! Why the storage refused.

use vstd::prelude::*;

verus! {

/// A refusal of the storage. Its view is the reason.
#[derive(Debug)]
pub struct MemoryDBError {
    reason: String,
}

impl View for MemoryDBError {
    type V = Seq<char>;

    closed spec fn view(&self) -> Seq<char> {
        self.reason@
    }
}

impl MemoryDBError {
    pub fn new(reason: &str) -> (error: Self)
        ensures
            error@ == reason@,
    {
        MemoryDBError { reason: reason.to_string() }
    }

    /// The refusal as text.
    pub fn text(&self) -> (text: String)
        ensures
            text@ == "MemoryDB Error: "@ + self@,
    {
        "MemoryDB Error: ".to_string().concat(self.reason.as_str())
    }
}

/// Refusals are equal where their reasons read the same.
impl PartialEq for MemoryDBError {
    fn eq(&self, other: &Self) -> (same: bool) {
        self.reason.eq(&other.reason)
    }
}

impl vstd::std_specs::cmp::PartialEqSpecImpl for MemoryDBError {
    open spec fn obeys_eq_spec() -> bool {
        true
    }

    open spec fn eq_spec(&self, other: &Self) -> bool {
        self@ == other@
    }
}

} // verus!
