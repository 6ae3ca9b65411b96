//! Ratings and reports of questions.
use vstd::prelude::*;
use crate::text::{byte_len, str_len};
use crate::controller::{parse_u32, parse_u32_spec};
use crate::dao::question_feedback_dao::MAX_REPORT_DETAIL;

verus! {

/// Whether a rating request's body clears the user's rating: an empty body
/// or the JSON `null`; any other body holds a new rating.
pub open spec fn clears_rating(body: Seq<u8>) -> bool {
    body.len() == 0 || body == seq![0x6Eu8, 0x75u8, 0x6Cu8, 0x6Cu8]
}

/// Whether a rating request's body clears the user's rating.
pub fn is_rating_cleared(body: &[u8]) -> (r: bool)
    ensures
        r == clears_rating(body@),
{
    if body.len() == 0 {
        return true;
    }
    let r = body.len() == 4 && body[0] == 0x6E && body[1] == 0x75 && body[2] == 0x6C && body[3]
        == 0x6C;
    proof {
        if r {
            assert(body@ =~= seq![0x6Eu8, 0x75u8, 0x6Cu8, 0x6Cu8]);
        }
    }
    r
}

/// Whether a report's detail is short enough: at most 500 bytes.
pub open spec fn report_detail_ok(detail: Option<Seq<char>>) -> bool {
    match detail {
        Some(d) => str_len(d) <= MAX_REPORT_DETAIL,
        None => true,
    }
}

/// Checks a report's detail; a longer one is refused with 400 and this
/// message.
pub fn check_report_detail(detail: &Option<String>) -> (r: Result<(), &'static str>)
    ensures
        report_detail_ok(
            match detail {
                Some(d) => Some(d@),
                None => None,
            },
        ) ==> r is Ok,
        !report_detail_ok(
            match detail {
                Some(d) => Some(d@),
                None => None,
            },
        ) ==> (r matches Err(m) && m@ == "Detail terlalu panjang (maks 500 karakter)"@),
{
    match detail {
        Some(d) => if byte_len(d.as_str()) > MAX_REPORT_DETAIL {
            Err("Detail terlalu panjang (maks 500 karakter)")
        } else {
            Ok(())
        },
        None => Ok(()),
    }
}

/// A query parameter as an unsigned number, or a default when it is absent
/// or does not parse; capped at `cap`.
pub open spec fn capped_param(text: Option<Seq<char>>, default: u32, cap: u32) -> u32 {
    let v = match text {
        Some(t) => match parse_u32_spec(t) {
            Some(v) => v,
            None => default,
        },
        None => default,
    };
    if v > cap {
        cap
    } else {
        v
    }
}

/// A query parameter as an unsigned number with a default, capped.
pub fn param_capped(text: Option<&str>, default: u32, cap: u32) -> (r: u32)
    ensures
        r == capped_param(
            match text {
                Some(t) => Some(t@),
                None => None,
            },
            default,
            cap,
        ),
{
    let v = match text {
        Some(t) => match parse_u32(t) {
            Some(v) => v,
            None => default,
        },
        None => default,
    };
    if v > cap {
        cap
    } else {
        v
    }
}

} // verus!
