//! The administration of daily challenges: the date a challenge is set for.
use vstd::prelude::*;

verus! {

/// The calendar date (year, month, day) that a text gives under chrono's
/// pattern `%Y-%m-%d`, or `None` when it does not parse to a valid date.
pub uninterp spec fn ymd_date(s: Seq<char>) -> Option<(i32, u32, u32)>;

/// `chrono::NaiveDate::parse_from_str` with the pattern `%Y-%m-%d`, converted
/// to its year, month and day. The result is named by `ymd_date`; chrono's
/// parsing rules (signs and widths of the fields, calendar validity) are left
/// to the name.
#[verifier::external_body]
fn parse_ymd(s: &str) -> (r: Option<(i32, u32, u32)>)
    ensures
        r == ymd_date(s@),
{
    match chrono::NaiveDate::parse_from_str(s, "%Y-%m-%d") {
        Ok(d) => Some(
            (chrono::Datelike::year(&d), chrono::Datelike::month(&d), chrono::Datelike::day(&d)),
        ),
        Err(_) => None,
    }
}

/// Why a challenge date was refused.
#[derive(Debug, Clone, Copy, PartialEq, Eq)]
pub struct DateRefusal {
    pub status: u16,
}

impl DateRefusal {
    /// The text of the refusal.
    pub fn message(&self) -> (r: &'static str)
        ensures
            r@ == "Invalid date format. Use YYYY-MM-DD"@,
    {
        "Invalid date format. Use YYYY-MM-DD"
    }
}

/// The answer to a parsed (or unparsable) challenge date: the date itself, or
/// a 400 refusal when the text was not a date.
pub fn challenge_date_reply(parsed: Option<(i32, u32, u32)>) -> (r: Result<(i32, u32, u32), DateRefusal>)
    ensures
        r == (match parsed {
            Some(d) => Ok(d),
            None => Err(DateRefusal { status: 400 }),
        }),
{
    match parsed {
        Some(d) => Ok(d),
        None => Err(DateRefusal { status: 400 }),
    }
}

/// The date a challenge is set for, from the request's `challenge_date`.
pub fn challenge_date(text: &str) -> (r: Result<(i32, u32, u32), DateRefusal>)
    ensures
        r == (match ymd_date(text@) {
            Some(d) => Ok(d),
            None => Err(DateRefusal { status: 400 }),
        }),
{
    challenge_date_reply(parse_ymd(text))
}

} // verus!
