use quiz_backend::controller::question_comment_controller::{
    begin_comment, comment_responses, comment_step, pin_decision, toggle_upvote_decision,
    CommentAction, CommentEvent, CommentRow, CommentStage, CreateCommentRequest, PinDecision,
    UpvoteToggle,
};
use quiz_backend::controller::{paginate, rate_limit_step};
use quiz_backend::time::Instant;

fn req(body: &str, parent: Option<&str>) -> CreateCommentRequest {
    CreateCommentRequest { body: body.to_string(), parent_id: parent.map(|p| p.to_string()) }
}

fn row(id: &str, upvoted_by: i64) -> CommentRow {
    CommentRow {
        id: id.to_string(),
        user_id: "u".to_string(),
        display_name: "U".to_string(),
        picture_url: None,
        body: "hello".to_string(),
        is_admin_pin: false,
        upvotes: 3,
        upvoted_by,
        reply_count: 2,
        created_at: Instant { secs: 5, nanos: 0 },
    }
}

fn comment_failure(a: &CommentAction) -> (u16, String) {
    match a {
        CommentAction::Reply(Err((s, m))) => (*s, m.clone()),
        _ => panic!("expected a failure"),
    }
}

#[test]
fn comment_needs_login_and_length() {
    let (_, a) = begin_comment(1, None, req("hello", None), false);
    assert_eq!(comment_failure(&a), (401, "Login diperlukan untuk berkomentar".to_string()));
    let (_, a) = begin_comment(1, Some("u".into()), req("  hi  ", None), false);
    assert_eq!(comment_failure(&a), (400, "Komentar minimal 3 karakter".to_string()));
    let (_, a) = begin_comment(1, Some("u".into()), req(&"x".repeat(2001), None), false);
    assert_eq!(comment_failure(&a), (400, "Komentar maksimal 2000 karakter".to_string()));
    let (f, a) = begin_comment(1, Some("u".into()), req(&"x".repeat(2000), None), false);
    assert!(matches!(a, CommentAction::CountQuestion(1)));
    assert_eq!(f.stage, CommentStage::AwaitQuestionCount);
}

#[test]
fn comment_body_is_trimmed() {
    let (f, a) = begin_comment(4, Some("u".into()), req("  nice question  ", Some("p1")), true);
    assert_eq!(f.body, "nice question");
    assert!(matches!(a, CommentAction::CountRate(ref k) if k == "rate:comment:u"));
}

#[test]
fn rate_limit_of_comments() {
    let (f, _) = begin_comment(4, Some("u".into()), req("hello", None), true);
    let (f, a) = comment_step(f, CommentEvent::RateCounted(1));
    assert!(matches!(a, CommentAction::ExpireRate(ref k) if k == "rate:comment:u"));
    let (_, a) = comment_step(f, CommentEvent::RateExpirySet);
    assert!(matches!(a, CommentAction::CountQuestion(4)));
    let (f, _) = begin_comment(4, Some("u".into()), req("hello", None), true);
    let (_, a) = comment_step(f, CommentEvent::RateCounted(5));
    assert!(matches!(a, CommentAction::CountQuestion(4)));
    let (f, _) = begin_comment(4, Some("u".into()), req("hello", None), true);
    let (_, a) = comment_step(f, CommentEvent::RateCounted(6));
    assert_eq!(comment_failure(&a), (429, "Terlalu banyak komentar. Coba lagi dalam 1 menit.".to_string()));
    assert_eq!(rate_limit_step(1, 5), (true, false));
    assert_eq!(rate_limit_step(0, 5), (false, false));
}

#[test]
fn reply_needs_parent_and_question() {
    let (f, a) = begin_comment(4, Some("u".into()), req("hello", Some("p1")), false);
    assert!(matches!(a, CommentAction::CountParent(ref p, 4) if p == "p1"));
    let (_, a) = comment_step(f, CommentEvent::ParentCounted(0));
    assert_eq!(comment_failure(&a), (400, "Komentar induk tidak ditemukan".to_string()));
    let (f, _) = begin_comment(4, Some("u".into()), req("hello", Some("p1")), false);
    let (f, _) = comment_step(f, CommentEvent::ParentCounted(1));
    let (_, a) = comment_step(f, CommentEvent::QuestionCounted(0));
    assert_eq!(comment_failure(&a), (404, "Soal tidak ditemukan".to_string()));
}

#[test]
fn posted_comment_is_read_back() {
    let (f, _) = begin_comment(4, Some("u".into()), req(" hello ", None), false);
    let (f, a) = comment_step(f, CommentEvent::QuestionCounted(1));
    assert!(matches!(a, CommentAction::Insert(4, ref u, None, ref b) if u == "u" && b == "hello"));
    let (f, a) = comment_step(f, CommentEvent::Inserted(Some("c1".into())));
    assert!(matches!(a, CommentAction::Fetch(ref c) if c == "c1"));
    let (_, a) = comment_step(f, CommentEvent::Fetched(Some(row("c1", 1))));
    match a {
        CommentAction::Reply(Ok(c)) => {
            assert_eq!(c.id, "c1");
            assert!(!c.has_upvoted);
            assert_eq!(c.reply_count, 0);
            assert_eq!(c.upvotes, 3);
        },
        _ => panic!(),
    }
    let (f, _) = begin_comment(4, Some("u".into()), req("hello", None), false);
    let (f, _) = comment_step(f, CommentEvent::QuestionCounted(1));
    let (_, a) = comment_step(f, CommentEvent::Inserted(None));
    assert_eq!(comment_failure(&a), (500, "Gagal membuat komentar".to_string()));
}

#[test]
fn listing_entries() {
    let out = comment_responses(vec![row("a", 1), row("b", 0)], false);
    assert_eq!(out.len(), 2);
    assert_eq!(out[0].id, "a");
    assert!(out[0].has_upvoted);
    assert!(!out[1].has_upvoted);
    assert_eq!(out[1].reply_count, 2);
    let replies = comment_responses(vec![row("a", 1)], true);
    assert_eq!(replies[0].reply_count, 0);
}

#[test]
fn listing_paging() {
    let p = paginate(None, None, 20, 100, false);
    assert_eq!((p.page, p.limit, p.offset), (1, 20, 0));
    let p = paginate(Some(3), Some(500), 20, 100, false);
    assert_eq!((p.page, p.limit, p.offset), (3, 100, 200));
    let p = paginate(Some(-4), Some(10), 20, 100, false);
    assert_eq!((p.page, p.limit, p.offset), (1, 10, 0));
}

#[test]
fn upvote_toggles() {
    assert_eq!(toggle_upvote_decision(0, 0), UpvoteToggle::NoComment);
    assert_eq!(toggle_upvote_decision(1, 1), UpvoteToggle::Remove);
    assert_eq!(toggle_upvote_decision(1, 0), UpvoteToggle::Add);
}

#[test]
fn pinning() {
    assert_eq!(pin_decision(false, Some(1), true), PinDecision::NotAdmin);
    assert_eq!(pin_decision(true, None, true), PinDecision::NoComment);
    assert_eq!(pin_decision(true, Some(7), true), PinDecision::Apply { unpin_question: Some(7) });
    assert_eq!(pin_decision(true, Some(7), false), PinDecision::Apply { unpin_question: None });
}

#[test]
fn upvote_toggled_twice_is_restored() {
    for (upvoted0, count0) in [(true, 5i64), (false, 0), (false, 3), (true, 1)] {
        let (mut upvoted, mut count) = (upvoted0, count0);
        for _ in 0..2 {
            match toggle_upvote_decision(1, if upvoted { 1 } else { 0 }) {
                UpvoteToggle::Remove => {
                    upvoted = false;
                    count = (count - 1).max(0);
                }
                UpvoteToggle::Add => {
                    upvoted = true;
                    count += 1;
                }
                UpvoteToggle::NoComment => panic!("the comment exists"),
            }
        }
        assert_eq!((upvoted, count), (upvoted0, count0));
    }
}
