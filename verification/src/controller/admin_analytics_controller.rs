//! Administration: the shape of error answers.
use vstd::prelude::*;

verus! {

/// The body of an error answer.
#[derive(Debug)]
pub struct ErrorResponse {
    pub error: String,
}

} // verus!
