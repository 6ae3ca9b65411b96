use quiz_backend::dao::question_feedback_dao::{report_write, ReportWrite};
use quiz_backend::dao::quiz_session_dao::progress_update_sql;
use quiz_backend::dao::user_subscription_dao::subscription_update_sql;
use quiz_backend::controller::admin_user_controller::{user_page, user_role_and_status, user_write_found, UserPage};
use quiz_backend::controller::user_controller::{onboarding_goals_json, stored_goals};
use quiz_backend::dao::daily_challenge_dao::{begin_submit, finish_submit, AttemptGrade, SubmitStep};
use quiz_backend::dao::quiz_session_dao::{marking_source, session_ids_json, MarkingSource};
use quiz_backend::controller::admin_daily_challenge_controller::{challenge_date, challenge_date_reply, DateRefusal};
use quiz_backend::controller::parse_i32;
use quiz_backend::controller::quiz_session_controller::completed_sessions_limit;
use quiz_backend::dao::premium_plan_dao::{plan_update_statement, PlanUpdateFields};
use quiz_backend::dao::premium_quiz_access_dao::{begin_quiz_access, quiz_access_after_count, QuizAccessStep};
use quiz_backend::dao::user_dao::{account_status, learning_streak, profile_update_sql, user_insert_sql};

fn no_fields() -> PlanUpdateFields {
    PlanUpdateFields {
        name: false,
        description: false,
        price: false,
        duration_days: false,
        is_lifetime: false,
        features: false,
        mayar_product_id: false,
        mayar_link_payment: false,
    }
}

#[test]
fn signed_parsing() {
    assert_eq!(parse_i32("42"), Some(42));
    assert_eq!(parse_i32("-7"), Some(-7));
    assert_eq!(parse_i32("+5"), Some(5));
    assert_eq!(parse_i32("2147483647"), Some(i32::MAX));
    assert_eq!(parse_i32("2147483648"), None);
    assert_eq!(parse_i32("-2147483648"), Some(i32::MIN));
    assert_eq!(parse_i32("-2147483649"), None);
    assert_eq!(parse_i32(""), None);
    assert_eq!(parse_i32("-"), None);
    assert_eq!(parse_i32("1a"), None);
    assert_eq!(parse_i32(" 1"), None);
}

#[test]
fn completed_limit_defaults() {
    assert_eq!(completed_sessions_limit(&None), 10);
    assert_eq!(completed_sessions_limit(&Some("5".to_string())), 5);
    assert_eq!(completed_sessions_limit(&Some("abc".to_string())), 10);
    assert_eq!(completed_sessions_limit(&Some("-3".to_string())), -3);
}

#[test]
fn challenge_dates() {
    assert_eq!(challenge_date("2024-02-29"), Ok((2024, 2, 29)));
    assert_eq!(challenge_date("2023-02-29"), Err(DateRefusal { status: 400 }));
    assert_eq!(challenge_date("2024/01/01"), Err(DateRefusal { status: 400 }));
    assert_eq!(challenge_date(""), Err(DateRefusal { status: 400 }));
    assert_eq!(challenge_date_reply(Some((2025, 1, 2))), Ok((2025, 1, 2)));
    assert_eq!(challenge_date_reply(None).unwrap_err().message(), "Invalid date format. Use YYYY-MM-DD");
}

#[test]
fn learning_streaks() {
    assert_eq!(learning_streak(&[10, 9, 8, 6], 10), 3);
    assert_eq!(learning_streak(&[9, 8, 7], 10), 0);
    assert_eq!(learning_streak(&[], 10), 0);
    assert_eq!(learning_streak(&[10], 10), 1);
    assert_eq!(learning_streak(&[10, 8], 10), 1);
}

#[test]
fn plan_update_statements() {
    assert_eq!(plan_update_statement(&no_fields()), None);
    let mut f = no_fields();
    f.name = true;
    assert_eq!(
        plan_update_statement(&f).as_deref(),
        Some("UPDATE dbquizapp.premium_plans SET name = ? WHERE id = ?")
    );
    f.price = true;
    f.mayar_link_payment = true;
    assert_eq!(
        plan_update_statement(&f).as_deref(),
        Some("UPDATE dbquizapp.premium_plans SET name = ?, price = ?, mayar_link_payment = ? WHERE id = ?")
    );
    let mut g = no_fields();
    g.features = true;
    assert_eq!(
        plan_update_statement(&g).as_deref(),
        Some("UPDATE dbquizapp.premium_plans SET features = ? WHERE id = ?")
    );
}

#[test]
fn user_statements() {
    assert_eq!(user_insert_sql(false, false), "INSERT INTO users (id, email, display_name) VALUES (?, ?, ?)");
    assert_eq!(
        user_insert_sql(true, true),
        "INSERT INTO users (id, email, display_name, picture_url, phone_number) VALUES (?, ?, ?, ?, ?)"
    );
    assert_eq!(
        profile_update_sql(false, true),
        "UPDATE users SET display_name = ?, phone_number = ?, updated_at = NOW() WHERE id = ? AND deleted_at IS NULL"
    );
    assert_eq!(account_status(true), "Premium");
    assert_eq!(account_status(false), "Free");
}

#[test]
fn premium_quiz_access() {
    assert_eq!(begin_quiz_access(None), QuizAccessStep::Granted);
    assert_eq!(begin_quiz_access(Some(3)), QuizAccessStep::CountSubscriptions(3));
    assert_eq!(quiz_access_after_count(0), QuizAccessStep::Denied);
    assert_eq!(quiz_access_after_count(2), QuizAccessStep::Granted);
}

#[test]
fn admin_user_paging() {
    assert_eq!(user_page(None, None), UserPage { page: 1, limit: 20, offset: 0 });
    assert_eq!(user_page(Some(0), Some(500)), UserPage { page: 1, limit: 100, offset: 0 });
    assert_eq!(user_page(Some(3), Some(10)), UserPage { page: 3, limit: 10, offset: 20 });
    let (role, status) = user_role_and_status(&None, &Some("banned".to_string()));
    assert_eq!(role, "user");
    assert_eq!(status, "banned");
    assert_eq!(user_write_found(1), Ok(()));
    assert_eq!(user_write_found(0), Err((404, "User not found")));
}

#[test]
fn daily_submission_is_idempotent() {
    let first = AttemptGrade { selected_answer: 2, is_correct: true, time_taken_ms: 3500, score: 970 };
    assert_eq!(begin_submit(Some(first)), SubmitStep::Answered(first, false));
    assert_eq!(begin_submit(None), SubmitStep::FetchCorrectAnswer);
    assert_eq!(
        finish_submit(2, "opt2", 3500),
        SubmitStep::Answered(first, true)
    );
    assert_eq!(
        finish_submit(4, "opt2", 100),
        SubmitStep::Answered(AttemptGrade { selected_answer: 4, is_correct: false, time_taken_ms: 100, score: 0 }, true)
    );
}

#[test]
fn stored_lists_read_back() {
    let goals = vec!["cpns".to_string(), "say \"hi\"".to_string(), "beasiswa".to_string()];
    let json = onboarding_goals_json(&goals);
    assert_eq!(json, "[\"cpns\",\"say \\\"hi\\\"\",\"beasiswa\"]");
    assert_eq!(stored_goals(&Some(json)), goals);
    let ids = vec![42, -1, 7];
    let text = session_ids_json(&ids);
    assert_eq!(text, "[42,-1,7]");
    match marking_source("random", &Some(text)) {
        MarkingSource::ByIds(v) => assert_eq!(v, ids),
        MarkingSource::ByPackage => panic!("a random session is marked by its ids"),
    }
}

#[test]
fn subscription_update_statements() {
    assert_eq!(subscription_update_sql(false, false), None);
    assert_eq!(subscription_update_sql(true, false), Some("UPDATE dbquizapp.user_subscriptions SET status = ? WHERE id = ?"));
    assert_eq!(subscription_update_sql(false, true), Some("UPDATE dbquizapp.user_subscriptions SET end_date = ? WHERE id = ?"));
    assert_eq!(
        subscription_update_sql(true, true),
        Some("UPDATE dbquizapp.user_subscriptions SET status = ?, end_date = ? WHERE id = ?")
    );
}

#[test]
fn progress_update_statements() {
    assert_eq!(
        progress_update_sql(false, false, false, false),
        "UPDATE quiz_sessions SET updated_at = ? WHERE id = ? AND user_id = ? AND is_completed = FALSE"
    );
    assert_eq!(
        progress_update_sql(true, false, true, true),
        "UPDATE quiz_sessions SET updated_at = ?, current_question = ?, marked_questions = ?, time_remaining = ? WHERE id = ? AND user_id = ? AND is_completed = FALSE"
    );
}

#[test]
fn reports_replace_the_pending_one() {
    assert_eq!(report_write(Some("r-1".to_string())), ReportWrite::UpdatePending("r-1".to_string()));
    assert_eq!(report_write(None), ReportWrite::InsertNew);
}
