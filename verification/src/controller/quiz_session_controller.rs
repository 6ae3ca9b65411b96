//! The rules of the quiz-session endpoints.
use vstd::prelude::*;
use crate::controller::{parse_i32, parse_i32_spec};

verus! {

/// The number of completed sessions listed when the request gives no usable
/// `limit`.
pub const DEFAULT_COMPLETED_LIMIT: i32 = 10;

/// The number of completed sessions to list: the `limit` parameter when it
/// parses as an `i32`, else the default of 10.
pub open spec fn completed_limit_spec(limit: Option<Seq<char>>) -> i32 {
    match limit {
        Some(t) => match parse_i32_spec(t) {
            Some(v) => v,
            None => DEFAULT_COMPLETED_LIMIT,
        },
        None => DEFAULT_COMPLETED_LIMIT,
    }
}

/// The limit of the completed-sessions listing, from the query's `limit`.
pub fn completed_sessions_limit(limit: &Option<String>) -> (r: i32)
    ensures
        r == completed_limit_spec(
            match limit {
                Some(s) => Some(s@),
                None => None,
            },
        ),
{
    match limit {
        Some(t) => match parse_i32(t.as_str()) {
            Some(v) => v,
            None => DEFAULT_COMPLETED_LIMIT,
        },
        None => DEFAULT_COMPLETED_LIMIT,
    }
}

} // verus!
