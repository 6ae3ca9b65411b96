//! Discussion threads under questions: comments, replies, upvotes and the
//! comment an administrator pins.
use vstd::prelude::*;
use crate::text::{chars_of, push_str, str_len, string_from_chars, trim, trim_spec, byte_len};
use crate::time::Instant;
use crate::controller::rate_limit_step;

verus! {

/// The body of an error answer.
#[derive(Debug)]
pub struct ErrorResponse {
    pub error: String,
}

/// The author of a comment.
#[derive(Debug)]
pub struct CommentUser {
    pub id: String,
    pub display_name: String,
    pub picture_url: Option<String>,
}

/// A comment as answers show it.
#[derive(Debug)]
pub struct CommentResponse {
    pub id: String,
    pub user: CommentUser,
    pub body: String,
    pub is_admin_pin: bool,
    pub upvotes: i32,
    pub has_upvoted: bool,
    pub reply_count: i64,
    pub created_at: Instant,
}

/// A stored comment with its author, as the listings read it; `upvoted_by`
/// counts the viewer's upvotes of it (0 or 1).
#[derive(Debug)]
pub struct CommentRow {
    pub id: String,
    pub user_id: String,
    pub display_name: String,
    pub picture_url: Option<String>,
    pub body: String,
    pub is_admin_pin: bool,
    pub upvotes: i32,
    pub upvoted_by: i64,
    pub reply_count: i64,
    pub created_at: Instant,
}

/// The answer entry of a stored comment: the viewer has upvoted it when the
/// count of their upvotes is positive.
pub open spec fn comment_view(r: CommentRow) -> CommentResponse {
    CommentResponse {
        id: r.id,
        user: CommentUser { id: r.user_id, display_name: r.display_name, picture_url: r.picture_url },
        body: r.body,
        is_admin_pin: r.is_admin_pin,
        upvotes: r.upvotes,
        has_upvoted: r.upvoted_by > 0,
        reply_count: r.reply_count,
        created_at: r.created_at,
    }
}

/// The answer entry of a stored comment.
pub fn comment_response(r: CommentRow) -> (c: CommentResponse)
    ensures
        c == comment_view(r),
{
    CommentResponse {
        id: r.id,
        user: CommentUser { id: r.user_id, display_name: r.display_name, picture_url: r.picture_url },
        body: r.body,
        is_admin_pin: r.is_admin_pin,
        upvotes: r.upvotes,
        has_upvoted: r.upvoted_by > 0,
        reply_count: r.reply_count,
        created_at: r.created_at,
    }
}

/// The answer entries of stored comments, in order; replies report no
/// replies of their own.
pub fn comment_responses(rows: Vec<CommentRow>, replies: bool) -> (r: Vec<CommentResponse>)
    ensures
        r@.len() == rows@.len(),
        forall|i: int|
            0 <= i < rows@.len() ==> #[trigger] r@[i] == if replies {
                CommentResponse { reply_count: 0, ..comment_view(rows@[i]) }
            } else {
                comment_view(rows@[i])
            },
{
    let mut out: Vec<CommentResponse> = Vec::new();
    let mut rest = rows;
    let ghost all = rest@;
    let mut i: usize = 0;
    assert(all.len() == rest.len());
    while rest.len() > 0
        invariant
            i + rest@.len() == all.len(),
            all.len() <= usize::MAX,
            out@.len() == i,
            rest@ == all.skip(i as int),
            forall|k: int|
                0 <= k < i ==> #[trigger] out@[k] == if replies {
                    CommentResponse { reply_count: 0, ..comment_view(all[k]) }
                } else {
                    comment_view(all[k])
                },
        decreases rest@.len(),
    {
        let row = rest.remove(0);
        assert(row == all[i as int]);
        let mut c = comment_response(row);
        if replies {
            c.reply_count = 0;
        }
        out.push(c);
        i = i + 1;
        assert(rest@ =~= all.skip(i as int));
    }
    out
}

/// The shortest and the longest comment, in bytes, after trimming.
pub const COMMENT_MIN_BYTES: usize = 3;
pub const COMMENT_MAX_BYTES: usize = 2000;

/// Comments a user may post per minute.
pub const COMMENTS_PER_MINUTE: i64 = 5;

/// A new comment, or a reply to the comment `parent_id`.
#[derive(Debug)]
pub struct CreateCommentRequest {
    pub body: String,
    pub parent_id: Option<String>,
}

/// Where the posting of a comment stands.
#[derive(Debug, Clone, Copy, PartialEq, Eq, Structural)]
pub enum CommentStage {
    AwaitRateCount,
    AwaitRateExpiry,
    AwaitParentCount,
    AwaitQuestionCount,
    AwaitInsert,
    AwaitFetch,
    Finished,
}

/// A comment being posted: the question, the author and the trimmed body.
#[derive(Debug)]
pub struct CommentFlow {
    pub stage: CommentStage,
    pub question_id: i32,
    pub user_id: String,
    pub body: String,
    pub parent_id: Option<String>,
}

/// What the application reports back.
#[derive(Debug)]
pub enum CommentEvent {
    /// The author's comment counter after the increment (0 when it failed).
    RateCounted(i64),
    /// The counter's expiry is set (the outcome does not matter).
    RateExpirySet,
    /// How many top-level comments of the question have the parent's id (0
    /// when the count failed).
    ParentCounted(i64),
    /// How many questions have the id (0 when the count failed).
    QuestionCounted(i64),
    /// The id of the stored comment, or `None` when storing failed.
    Inserted(Option<String>),
    /// The stored comment with its author, if it could be read back.
    Fetched(Option<CommentRow>),
}

/// What the application does next.
#[derive(Debug)]
pub enum CommentAction {
    /// Increment the author's counter (its key).
    CountRate(String),
    /// Let the counter expire after 60 seconds (its key).
    ExpireRate(String),
    /// Count the question's top-level comments with this id.
    CountParent(String, i32),
    CountQuestion(i32),
    /// Store the comment with a fresh id (question, author, parent, body).
    Insert(i32, String, Option<String>, String),
    Fetch(String),
    /// 201 with the comment, or a failure (status, `error`).
    Reply(Result<CommentResponse, (u16, String)>),
}

/// The posting ended with a failure answer.
pub open spec fn comment_fails(r: (CommentFlow, CommentAction), status: u16, msg: Seq<char>) -> bool {
    &&& r.0.stage == CommentStage::Finished
    &&& r.1 matches CommentAction::Reply(Err(f)) && f.0 == status && f.1@ == msg
}

/// The key of a user's comment counter.
pub open spec fn rate_key(user_id: Seq<char>) -> Seq<char> {
    "rate:comment:"@ + user_id
}

/// What follows the rate limit (or its absence): the parent's check for a
/// reply, else the question's.
pub open spec fn after_rate_limit(f: CommentFlow, r: (CommentFlow, CommentAction)) -> bool {
    match f.parent_id {
        Some(pid) => r.0 == CommentFlow { stage: CommentStage::AwaitParentCount, ..f } && r.1
            == CommentAction::CountParent(pid, f.question_id),
        None => r.0 == CommentFlow { stage: CommentStage::AwaitQuestionCount, ..f } && r.1
            == CommentAction::CountQuestion(f.question_id),
    }
}

/// Starts the posting of a comment on a question: the caller must be
/// logged in (the `user_id` header); the body, trimmed, must have 3 to 2000
/// bytes. With a rate limiter, the author's counter is incremented first.
pub open spec fn comment_begin_ok(
    question_id: i32,
    user_header: Option<String>,
    req: CreateCommentRequest,
    limited: bool,
    r: (CommentFlow, CommentAction),
) -> bool {
    let t = trim_spec(req.body@);
    match user_header {
        None => comment_fails(r, 401, "Login diperlukan untuk berkomentar"@),
        Some(u) => if str_len(t) < COMMENT_MIN_BYTES {
            comment_fails(r, 400, "Komentar minimal 3 karakter"@)
        } else if str_len(t) > COMMENT_MAX_BYTES {
            comment_fails(r, 400, "Komentar maksimal 2000 karakter"@)
        } else {
            &&& r.0.question_id == question_id && r.0.user_id == u && r.0.body@ == t
            &&& r.0.parent_id == req.parent_id
            &&& if limited {
                r.0.stage == CommentStage::AwaitRateCount && (r.1 matches CommentAction::CountRate(k)
                    && k@ == rate_key(u@))
            } else {
                after_rate_limit(r.0, r)
            }
        },
    }
}

fn comment_fail(f: CommentFlow, status: u16, msg: String) -> (r: (CommentFlow, CommentAction))
    ensures
        r.0.stage == CommentStage::Finished,
        r.1 == CommentAction::Reply(Err((status, msg))),
{
    (CommentFlow { stage: CommentStage::Finished, ..f }, CommentAction::Reply(Err((status, msg))))
}

fn next_check(f: CommentFlow) -> (r: (CommentFlow, CommentAction))
    ensures
        after_rate_limit(f, r),
        after_rate_limit(r.0, r),
{
    let qid = f.question_id;
    match &f.parent_id {
        Some(pid) => {
            let p = pid.clone();
            (CommentFlow { stage: CommentStage::AwaitParentCount, ..f }, CommentAction::CountParent(p, qid))
        },
        None => (CommentFlow { stage: CommentStage::AwaitQuestionCount, ..f }, CommentAction::CountQuestion(qid)),
    }
}

fn rate_key_of(user_id: &str) -> (r: String)
    ensures
        r@ == rate_key(user_id@),
{
    let mut v = chars_of("rate:comment:");
    push_str(&mut v, user_id);
    string_from_chars(v.as_slice())
}

/// Starts the posting of a comment (`limited`: a rate limiter is configured).
pub fn begin_comment(
    question_id: i32,
    user_header: Option<String>,
    req: CreateCommentRequest,
    limited: bool,
) -> (r: (CommentFlow, CommentAction))
    ensures
        comment_begin_ok(question_id, user_header, req, limited, r),
{
    let t = trim(chars_of(req.body.as_str()).as_slice());
    let body = string_from_chars(t.as_slice());
    let n = byte_len(body.as_str());
    let CreateCommentRequest { body: _, parent_id } = req;
    match user_header {
        None => {
            let f = CommentFlow {
                stage: CommentStage::Finished,
                question_id,
                user_id: String::new(),
                body,
                parent_id,
            };
            comment_fail(f, 401, "Login diperlukan untuk berkomentar".to_string())
        },
        Some(u) => {
            let key = rate_key_of(u.as_str());
            let f = CommentFlow {
                stage: CommentStage::AwaitRateCount,
                question_id,
                user_id: u,
                body,
                parent_id,
            };
            if n < COMMENT_MIN_BYTES {
                comment_fail(f, 400, "Komentar minimal 3 karakter".to_string())
            } else if n > COMMENT_MAX_BYTES {
                comment_fail(f, 400, "Komentar maksimal 2000 karakter".to_string())
            } else if limited {
                (f, CommentAction::CountRate(key))
            } else {
                next_check(f)
            }
        },
    }
}

/// The event reports the outcome of the flow's pending action.
pub open spec fn comment_fits(f: CommentFlow, e: CommentEvent) -> bool {
    match f.stage {
        CommentStage::AwaitRateCount => e is RateCounted,
        CommentStage::AwaitRateExpiry => e is RateExpirySet,
        CommentStage::AwaitParentCount => e is ParentCounted,
        CommentStage::AwaitQuestionCount => e is QuestionCounted,
        CommentStage::AwaitInsert => e is Inserted,
        CommentStage::AwaitFetch => e is Fetched,
        CommentStage::Finished => false,
    }
}

/// One step of posting a comment. A new counter (count 1) gets a one-minute
/// expiry; more than `COMMENTS_PER_MINUTE` comments in the window are
/// refused with 429. A reply's parent must be a top-level comment of the
/// same question (400), and the question must exist (404). The stored
/// comment is read back and answered with 201, as not upvoted and without
/// replies.
pub open spec fn comment_step_ok(f: CommentFlow, e: CommentEvent, r: (CommentFlow, CommentAction)) -> bool {
    match e {
        CommentEvent::RateCounted(n) => if n == 1 {
            r.0 == CommentFlow { stage: CommentStage::AwaitRateExpiry, ..f } && (
            r.1 matches CommentAction::ExpireRate(k) && k@ == rate_key(f.user_id@))
        } else if n > COMMENTS_PER_MINUTE {
            comment_fails(r, 429, "Terlalu banyak komentar. Coba lagi dalam 1 menit."@)
        } else {
            after_rate_limit(f, r)
        },
        CommentEvent::RateExpirySet => after_rate_limit(f, r),
        CommentEvent::ParentCounted(n) => if n == 0 {
            comment_fails(r, 400, "Komentar induk tidak ditemukan"@)
        } else {
            r.0 == CommentFlow { stage: CommentStage::AwaitQuestionCount, ..f } && r.1
                == CommentAction::CountQuestion(f.question_id)
        },
        CommentEvent::QuestionCounted(n) => if n == 0 {
            comment_fails(r, 404, "Soal tidak ditemukan"@)
        } else {
            r.0 == CommentFlow { stage: CommentStage::AwaitInsert, ..f } && r.1 == CommentAction::Insert(
                f.question_id,
                f.user_id,
                f.parent_id,
                f.body,
            )
        },
        CommentEvent::Inserted(id) => match id {
            None => comment_fails(r, 500, "Gagal membuat komentar"@),
            Some(id) => r.0 == CommentFlow { stage: CommentStage::AwaitFetch, ..f } && r.1
                == CommentAction::Fetch(id),
        },
        CommentEvent::Fetched(row) => match row {
            None => comment_fails(r, 500, "Komentar dibuat tapi gagal diambil"@),
            Some(row) => r.0.stage == CommentStage::Finished && r.1 == CommentAction::Reply(
                Ok(CommentResponse { has_upvoted: false, reply_count: 0, ..comment_view(row) }),
            ),
        },
    }
}

fn clone_opt(v: &Option<String>) -> (r: Option<String>)
    ensures
        r == *v,
{
    match v {
        Some(s) => Some(s.clone()),
        None => None,
    }
}

/// One step of posting a comment.
pub fn comment_step(f: CommentFlow, e: CommentEvent) -> (r: (CommentFlow, CommentAction))
    requires
        comment_fits(f, e),
    ensures
        comment_step_ok(f, e, r),
{
    match e {
        CommentEvent::RateCounted(n) => {
            let (expire, refuse) = rate_limit_step(n, COMMENTS_PER_MINUTE);
            if expire {
                let key = rate_key_of(f.user_id.as_str());
                (CommentFlow { stage: CommentStage::AwaitRateExpiry, ..f }, CommentAction::ExpireRate(key))
            } else if refuse {
                comment_fail(f, 429, "Terlalu banyak komentar. Coba lagi dalam 1 menit.".to_string())
            } else {
                next_check(f)
            }
        },
        CommentEvent::RateExpirySet => next_check(f),
        CommentEvent::ParentCounted(n) => {
            if n == 0 {
                comment_fail(f, 400, "Komentar induk tidak ditemukan".to_string())
            } else {
                let qid = f.question_id;
                (
                    CommentFlow { stage: CommentStage::AwaitQuestionCount, ..f },
                    CommentAction::CountQuestion(qid),
                )
            }
        },
        CommentEvent::QuestionCounted(n) => {
            if n == 0 {
                comment_fail(f, 404, "Soal tidak ditemukan".to_string())
            } else {
                let action = CommentAction::Insert(
                    f.question_id,
                    f.user_id.clone(),
                    clone_opt(&f.parent_id),
                    f.body.clone(),
                );
                (CommentFlow { stage: CommentStage::AwaitInsert, ..f }, action)
            }
        },
        CommentEvent::Inserted(id) => match id {
            None => comment_fail(f, 500, "Gagal membuat komentar".to_string()),
            Some(id) => (CommentFlow { stage: CommentStage::AwaitFetch, ..f }, CommentAction::Fetch(id)),
        },
        CommentEvent::Fetched(row) => match row {
            None => comment_fail(f, 500, "Komentar dibuat tapi gagal diambil".to_string()),
            Some(row) => {
                let mut c = comment_response(row);
                c.has_upvoted = false;
                c.reply_count = 0;
                (CommentFlow { stage: CommentStage::Finished, ..f }, CommentAction::Reply(Ok(c)))
            },
        },
    }
}

// ---------------------------------------------------------------------------
// Upvotes and pins
// ---------------------------------------------------------------------------

/// What toggling an upvote does, from the count of the comment and of the
/// user's upvotes of it.
#[derive(Debug, Clone, Copy, PartialEq, Eq, Structural)]
pub enum UpvoteToggle {
    /// 404: no such comment.
    NoComment,
    /// Remove the upvote and decrement the count (not below 0); the user no
    /// longer upvotes it.
    Remove,
    /// Add the upvote and increment the count; the user upvotes it.
    Add,
}

/// What toggling an upvote does, from the number of comments with the id
/// and of the user's upvotes of it: an existing upvote is removed, a missing
/// one added.
pub open spec fn toggle_upvote_spec(comment_count: i64, upvote_count: i64) -> UpvoteToggle {
    if comment_count == 0 {
        UpvoteToggle::NoComment
    } else if upvote_count > 0 {
        UpvoteToggle::Remove
    } else {
        UpvoteToggle::Add
    }
}

/// What toggling an upvote does.
pub fn toggle_upvote_decision(comment_count: i64, upvote_count: i64) -> (r: UpvoteToggle)
    ensures
        r == toggle_upvote_spec(comment_count, upvote_count),
{
    if comment_count == 0 {
        UpvoteToggle::NoComment
    } else if upvote_count > 0 {
        UpvoteToggle::Remove
    } else {
        UpvoteToggle::Add
    }
}

/// A user's upvote of a comment, and the comment's upvote count, after a
/// toggle: removing clears the upvote and lowers the count (not below 0),
/// adding sets it and raises the count.
pub open spec fn upvote_after(t: UpvoteToggle, upvoted: bool, count: int) -> (bool, int) {
    match t {
        UpvoteToggle::NoComment => (upvoted, count),
        UpvoteToggle::Remove => (
            false,
            if count - 1 < 0 {
                0
            } else {
                count - 1
            },
        ),
        UpvoteToggle::Add => (true, count + 1),
    }
}

/// Toggling an upvote twice restores both the user's upvote and the
/// comment's count, when the count includes the user's own upvote.
pub proof fn lemma_toggle_twice_restores(upvoted: bool, count: int)
    requires
        count >= 0,
        upvoted ==> count >= 1,
    ensures
        ({
            let t1 = toggle_upvote_spec(1, if upvoted { 1 } else { 0 });
            let (u1, c1) = upvote_after(t1, upvoted, count);
            let t2 = toggle_upvote_spec(1, if u1 { 1 } else { 0 });
            upvote_after(t2, u1, c1) == (upvoted, count)
        }),
{
}

/// What pinning a comment does.
#[derive(Debug, Clone, Copy, PartialEq, Eq, Structural)]
pub enum PinDecision {
    /// 403: only administrators pin comments.
    NotAdmin,
    /// 404: no such comment.
    NoComment,
    /// Set the comment's pin; when pinning, first unpin every comment of the
    /// question (its id).
    Apply { unpin_question: Option<i32> },
}

/// What pinning (`pin`) or unpinning a comment does, from whether the caller
/// is an administrator and the question of the comment.
pub fn pin_decision(is_admin: bool, question_id: Option<i32>, pin: bool) -> (r: PinDecision)
    ensures
        !is_admin ==> r == PinDecision::NotAdmin,
        is_admin && question_id is None ==> r == PinDecision::NoComment,
        question_id matches Some(q) ==> is_admin ==> r == (PinDecision::Apply {
            unpin_question: if pin {
                Some(q)
            } else {
                None
            },
        }),
{
    if !is_admin {
        return PinDecision::NotAdmin;
    }
    match question_id {
        None => PinDecision::NoComment,
        Some(q) => PinDecision::Apply {
            unpin_question: if pin {
                Some(q)
            } else {
                None
            },
        },
    }
}

} // verus!
