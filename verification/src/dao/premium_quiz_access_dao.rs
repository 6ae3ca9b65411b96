//! Access to quizzes that require a premium plan.
use vstd::prelude::*;

verus! {

/// The next step of an access check.
#[derive(Debug, Clone, Copy, PartialEq, Eq)]
pub enum QuizAccessStep {
    /// The quiz is open to everyone, or the user holds a sufficient plan.
    Granted,
    /// The user holds no sufficient plan.
    Denied,
    /// Count the user's active, unexpired subscriptions to a plan whose id is
    /// at least this one.
    CountSubscriptions(i32),
}

/// The first step of an access check, from the quiz's premium requirement
/// (the least plan id it asks for, or `None` when it asks for none): a quiz
/// without a requirement is open to everyone.
pub fn begin_quiz_access(min_plan_id: Option<i32>) -> (r: QuizAccessStep)
    ensures
        r == (match min_plan_id {
            None => QuizAccessStep::Granted,
            Some(p) => QuizAccessStep::CountSubscriptions(p),
        }),
{
    match min_plan_id {
        None => QuizAccessStep::Granted,
        Some(p) => QuizAccessStep::CountSubscriptions(p),
    }
}

/// The answer once the user's sufficient subscriptions were counted: access
/// when there is at least one.
pub fn quiz_access_after_count(count: i64) -> (r: QuizAccessStep)
    ensures
        r == (if count > 0 {
            QuizAccessStep::Granted
        } else {
            QuizAccessStep::Denied
        }),
{
    if count > 0 {
        QuizAccessStep::Granted
    } else {
        QuizAccessStep::Denied
    }
}

} // verus!
