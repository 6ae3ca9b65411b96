//! Question feedback: ratings and reports, and how they are stored.
use vstd::prelude::*;
use crate::text::{chars_of, str_equal};

verus! {

/// How a user rated a question.
#[derive(Debug, Clone, Copy, PartialEq, Eq, Structural)]
pub enum RatingKind {
    Helpful,
    Confusing,
}

/// Why a user reported a question.
#[derive(Debug, Clone, Copy, PartialEq, Eq, Structural)]
pub enum ReportReason {
    WrongAnswer,
    UnclearExplanation,
    NotRelevant,
    Duplicate,
    Other,
}

/// Where a report stands.
#[derive(Debug, Clone, Copy, PartialEq, Eq, Structural)]
pub enum ReportStatus {
    Pending,
    Reviewed,
    Resolved,
}

/// The stored form of a rating.
pub open spec fn rating_text(r: RatingKind) -> Seq<char> {
    match r {
        RatingKind::Helpful => "helpful"@,
        RatingKind::Confusing => "confusing"@,
    }
}

/// The stored form of a rating.
pub fn rating_to_str(r: &RatingKind) -> (s: &'static str)
    ensures
        s@ == rating_text(*r),
{
    match r {
        RatingKind::Helpful => "helpful",
        RatingKind::Confusing => "confusing",
    }
}

/// A stored rating read back: `helpful` is helpful, anything else confusing.
pub fn rating_from_str(s: &str) -> (r: RatingKind)
    ensures
        r == if s@ == "helpful"@ {
            RatingKind::Helpful
        } else {
            RatingKind::Confusing
        },
{
    if str_equal(s, "helpful") {
        RatingKind::Helpful
    } else {
        RatingKind::Confusing
    }
}

/// The stored form of a report reason.
pub open spec fn reason_text(r: ReportReason) -> Seq<char> {
    match r {
        ReportReason::WrongAnswer => "wrong_answer"@,
        ReportReason::UnclearExplanation => "unclear_explanation"@,
        ReportReason::NotRelevant => "not_relevant"@,
        ReportReason::Duplicate => "duplicate"@,
        ReportReason::Other => "other"@,
    }
}

/// The reason a stored text stands for: the reason whose stored form it is,
/// or `Other` for any other text.
pub open spec fn reason_of_text(s: Seq<char>) -> ReportReason {
    if s == "wrong_answer"@ {
        ReportReason::WrongAnswer
    } else if s == "unclear_explanation"@ {
        ReportReason::UnclearExplanation
    } else if s == "not_relevant"@ {
        ReportReason::NotRelevant
    } else if s == "duplicate"@ {
        ReportReason::Duplicate
    } else {
        ReportReason::Other
    }
}

/// The stored form of a report reason.
pub fn reason_to_str(r: &ReportReason) -> (s: &'static str)
    ensures
        s@ == reason_text(*r),
{
    match r {
        ReportReason::WrongAnswer => "wrong_answer",
        ReportReason::UnclearExplanation => "unclear_explanation",
        ReportReason::NotRelevant => "not_relevant",
        ReportReason::Duplicate => "duplicate",
        ReportReason::Other => "other",
    }
}

/// A stored report reason read back.
pub fn reason_from_str(s: &str) -> (r: ReportReason)
    ensures
        r == reason_of_text(s@),
{
    if str_equal(s, "wrong_answer") {
        ReportReason::WrongAnswer
    } else if str_equal(s, "unclear_explanation") {
        ReportReason::UnclearExplanation
    } else if str_equal(s, "not_relevant") {
        ReportReason::NotRelevant
    } else if str_equal(s, "duplicate") {
        ReportReason::Duplicate
    } else {
        ReportReason::Other
    }
}

/// The stored form of a report status.
pub open spec fn status_text(s: ReportStatus) -> Seq<char> {
    match s {
        ReportStatus::Pending => "pending"@,
        ReportStatus::Reviewed => "reviewed"@,
        ReportStatus::Resolved => "resolved"@,
    }
}

/// The status a stored text stands for: `reviewed` and `resolved` are read as
/// such, anything else as pending.
pub open spec fn status_of_text(s: Seq<char>) -> ReportStatus {
    if s == "reviewed"@ {
        ReportStatus::Reviewed
    } else if s == "resolved"@ {
        ReportStatus::Resolved
    } else {
        ReportStatus::Pending
    }
}

/// The stored form of a report status.
pub fn status_to_str(s: &ReportStatus) -> (t: &'static str)
    ensures
        t@ == status_text(*s),
{
    match s {
        ReportStatus::Pending => "pending",
        ReportStatus::Reviewed => "reviewed",
        ReportStatus::Resolved => "resolved",
    }
}

/// A stored report status read back.
pub fn status_from_str(s: &str) -> (r: ReportStatus)
    ensures
        r == status_of_text(s@),
{
    if str_equal(s, "reviewed") {
        ReportStatus::Reviewed
    } else if str_equal(s, "resolved") {
        ReportStatus::Resolved
    } else {
        ReportStatus::Pending
    }
}

proof fn lemma_reason_texts_distinct()
    ensures
        "wrong_answer"@ != "unclear_explanation"@,
        "wrong_answer"@ != "not_relevant"@,
        "wrong_answer"@ != "duplicate"@,
        "wrong_answer"@ != "other"@,
        "unclear_explanation"@ != "not_relevant"@,
        "unclear_explanation"@ != "duplicate"@,
        "unclear_explanation"@ != "other"@,
        "not_relevant"@ != "duplicate"@,
        "not_relevant"@ != "other"@,
        "duplicate"@ != "other"@,
{
    reveal_strlit("wrong_answer");
    reveal_strlit("unclear_explanation");
    reveal_strlit("not_relevant");
    reveal_strlit("duplicate");
    reveal_strlit("other");
    assert("wrong_answer"@[0] != "unclear_explanation"@[0]);
    assert("wrong_answer"@[0] != "not_relevant"@[0]);
    assert("wrong_answer"@[0] != "duplicate"@[0]);
    assert("wrong_answer"@[0] != "other"@[0]);
    assert("unclear_explanation"@[0] != "not_relevant"@[0]);
    assert("unclear_explanation"@[0] != "duplicate"@[0]);
    assert("unclear_explanation"@[0] != "other"@[0]);
    assert("not_relevant"@[0] != "duplicate"@[0]);
    assert("not_relevant"@[0] != "other"@[0]);
    assert("duplicate"@[0] != "other"@[0]);
}

/// A stored reason reads back as the reason that was stored.
pub proof fn lemma_reason_round_trip(r: ReportReason)
    ensures
        reason_of_text(reason_text(r)) == r,
{
    lemma_reason_texts_distinct();
}

/// Reading a stored reason and storing it again gives back the text, for
/// every text that is the stored form of a reason.
pub proof fn lemma_reason_text_round_trip(s: Seq<char>)
    requires
        exists|r: ReportReason| reason_text(r) == s,
    ensures
        reason_text(reason_of_text(s)) == s,
{
    let r = choose|r: ReportReason| reason_text(r) == s;
    lemma_reason_round_trip(r);
}

/// A status reads back as the status that was stored.
pub proof fn lemma_status_round_trip(s: ReportStatus)
    ensures
        status_of_text(status_text(s)) == s,
{
    reveal_strlit("pending");
    reveal_strlit("reviewed");
    reveal_strlit("resolved");
    assert("pending"@[0] != "reviewed"@[0]);
    assert("pending"@[0] != "resolved"@[0]);
    assert("reviewed"@[2] != "resolved"@[2]);
}

/// A rating reads back as the rating that was stored.
pub proof fn lemma_rating_round_trip(r: RatingKind)
    ensures
        (if rating_text(r) == "helpful"@ {
            RatingKind::Helpful
        } else {
            RatingKind::Confusing
        }) == r,
{
    reveal_strlit("helpful");
    reveal_strlit("confusing");
    assert("helpful"@[0] != "confusing"@[0]);
}

/// The row offset of a page of reports: pages count from 1, and page 0 is
/// read as page 1.
pub open spec fn report_offset_spec(page: u32, per_page: u32) -> int {
    (if page == 0 {
        0
    } else {
        page - 1
    }) * per_page
}

/// The row offset of a page of reports.
pub fn report_offset(page: u32, per_page: u32) -> (offset: u32)
    requires
        report_offset_spec(page, per_page) <= u32::MAX,
    ensures
        offset == report_offset_spec(page, per_page),
{
    let p = if page == 0 {
        0
    } else {
        page - 1
    };
    p * per_page
}

/// The longest allowed detail of a report, in bytes.
pub const MAX_REPORT_DETAIL: usize = 500;

/// How a report is stored.
#[derive(Debug, Clone, PartialEq, Eq)]
pub enum ReportWrite {
    /// Replace the reason and detail of the user's pending report (its id).
    UpdatePending(String),
    /// Store a new report.
    InsertNew,
}

/// How a user's report of a question is stored, from the id of their pending
/// report of it, if any: a user keeps at most one pending report per
/// question, so a new report replaces the pending one.
pub fn report_write(pending: Option<String>) -> (r: ReportWrite)
    ensures
        r == (match pending {
            Some(id) => ReportWrite::UpdatePending(id),
            None => ReportWrite::InsertNew,
        }),
{
    match pending {
        Some(id) => ReportWrite::UpdatePending(id),
        None => ReportWrite::InsertNew,
    }
}

} // verus!
