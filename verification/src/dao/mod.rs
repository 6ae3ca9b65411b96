pub mod question_feedback_dao;
pub mod daily_challenge_dao;
pub mod license_code_dao;
pub mod user_subscription_dao;
pub mod quiz_session_dao;
pub mod user_dao;
pub mod premium_plan_dao;
pub mod premium_quiz_access_dao;
pub mod payment_transaction_dao;
