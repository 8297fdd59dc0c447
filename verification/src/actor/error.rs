//! Why a task was not processed.

use vstd::prelude::*;

verus! {

#[derive(Debug)]
pub enum Error {
    QueueEmptyError,
    ProcessError { message: String },
    InternalError { message: String },
}

} // verus!
