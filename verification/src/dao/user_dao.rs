//! Users: the statements that create and update them, their account status
//! and their learning streak.
//!
//! Dates are day numbers (days since 1970-01-01), as in the daily challenge.
use vstd::prelude::*;
use crate::dao::daily_challenge_dao::days_bounded;

verus! {

/// The number of entries of `dates` from position `i` on that are the days
/// `expected`, `expected - 1`, `expected - 2`, ... in turn.
pub open spec fn streak_from(dates: Seq<i64>, i: int, expected: int) -> int
    decreases dates.len() - i,
{
    if 0 <= i < dates.len() && dates[i] == expected {
        1 + streak_from(dates, i + 1, expected - 1)
    } else {
        0
    }
}

/// The learning streak: how many days in a row, counting back from today,
/// the user completed a quiz, given the distinct days of their completed
/// quizzes newest first.
pub open spec fn learning_streak_spec(dates: Seq<i64>, today: i64) -> int {
    streak_from(dates, 0, today as int)
}

proof fn lemma_streak_from_bounds(dates: Seq<i64>, i: int, expected: int)
    requires
        0 <= i <= dates.len(),
    ensures
        0 <= streak_from(dates, i, expected) <= dates.len() - i,
    decreases dates.len() - i,
{
    if i < dates.len() && dates[i] == expected {
        lemma_streak_from_bounds(dates, i + 1, expected - 1);
    }
}

/// The learning streak of a user: the days of their completed quizzes, newest
/// first and each once, are matched against today, yesterday, and so on,
/// until one is missing.
pub fn learning_streak(dates: &[i64], today: i64) -> (r: i64)
    requires
        days_bounded(dates@, today),
        dates@.len() < 0x7fff_ffff_ffff_ffff,
    ensures
        r == learning_streak_spec(dates@, today),
        0 <= r <= dates@.len(),
{
    let n = dates.len();
    let mut i: usize = 0;
    let mut expected: i64 = today;
    proof {
        lemma_streak_from_bounds(dates@, 0, today as int);
    }
    while i < n && dates[i] == expected
        invariant
            0 <= i <= n,
            n == dates@.len(),
            n < 0x7fff_ffff_ffff_ffff,
            days_bounded(dates@, today),
            expected == today - i,
            learning_streak_spec(dates@, today) == i + streak_from(dates@, i as int, expected as int),
        decreases n - i,
    {
        assert(-0x100_0000_0000 <= dates@[i as int]);
        i = i + 1;
        expected = expected - 1;
    }
    proof {
        lemma_streak_from_bounds(dates@, 0, today as int);
    }
    i as i64
}

/// The statement that creates a user, with the optional picture and phone
/// columns only when they are given; its values are bound in the order id,
/// e-mail, display name, then picture and phone when present.
pub open spec fn user_insert_sql_spec(has_picture: bool, has_phone: bool) -> Seq<char> {
    if has_picture && has_phone {
        "INSERT INTO users (id, email, display_name, picture_url, phone_number) VALUES (?, ?, ?, ?, ?)"@
    } else if has_picture {
        "INSERT INTO users (id, email, display_name, picture_url) VALUES (?, ?, ?, ?)"@
    } else if has_phone {
        "INSERT INTO users (id, email, display_name, phone_number) VALUES (?, ?, ?, ?)"@
    } else {
        "INSERT INTO users (id, email, display_name) VALUES (?, ?, ?)"@
    }
}

/// The statement that creates a user with the given optional fields.
pub fn user_insert_sql(has_picture: bool, has_phone: bool) -> (r: &'static str)
    ensures
        r@ == user_insert_sql_spec(has_picture, has_phone),
{
    if has_picture && has_phone {
        "INSERT INTO users (id, email, display_name, picture_url, phone_number) VALUES (?, ?, ?, ?, ?)"
    } else if has_picture {
        "INSERT INTO users (id, email, display_name, picture_url) VALUES (?, ?, ?, ?)"
    } else if has_phone {
        "INSERT INTO users (id, email, display_name, phone_number) VALUES (?, ?, ?, ?)"
    } else {
        "INSERT INTO users (id, email, display_name) VALUES (?, ?, ?)"
    }
}

/// The statement that updates a live user's profile: the display name always,
/// the picture and phone only when given, and the update time; its values are
/// bound in the order display name, picture and phone when present, user id.
pub open spec fn profile_update_sql_spec(has_picture: bool, has_phone: bool) -> Seq<char> {
    if has_picture && has_phone {
        "UPDATE users SET display_name = ?, picture_url = ?, phone_number = ?, updated_at = NOW() WHERE id = ? AND deleted_at IS NULL"@
    } else if has_picture {
        "UPDATE users SET display_name = ?, picture_url = ?, updated_at = NOW() WHERE id = ? AND deleted_at IS NULL"@
    } else if has_phone {
        "UPDATE users SET display_name = ?, phone_number = ?, updated_at = NOW() WHERE id = ? AND deleted_at IS NULL"@
    } else {
        "UPDATE users SET display_name = ?, updated_at = NOW() WHERE id = ? AND deleted_at IS NULL"@
    }
}

/// The statement that updates a profile with the given optional fields.
pub fn profile_update_sql(has_picture: bool, has_phone: bool) -> (r: &'static str)
    ensures
        r@ == profile_update_sql_spec(has_picture, has_phone),
{
    if has_picture && has_phone {
        "UPDATE users SET display_name = ?, picture_url = ?, phone_number = ?, updated_at = NOW() WHERE id = ? AND deleted_at IS NULL"
    } else if has_picture {
        "UPDATE users SET display_name = ?, picture_url = ?, updated_at = NOW() WHERE id = ? AND deleted_at IS NULL"
    } else if has_phone {
        "UPDATE users SET display_name = ?, phone_number = ?, updated_at = NOW() WHERE id = ? AND deleted_at IS NULL"
    } else {
        "UPDATE users SET display_name = ?, updated_at = NOW() WHERE id = ? AND deleted_at IS NULL"
    }
}

/// The account status shown on a profile: `Premium` while the user holds an
/// active, unexpired subscription (whose end date is then shown), else `Free`.
pub fn account_status(has_active_subscription: bool) -> (r: &'static str)
    ensures
        r@ == (if has_active_subscription {
            "Premium"@
        } else {
            "Free"@
        }),
{
    if has_active_subscription {
        "Premium"
    } else {
        "Free"
    }
}

} // verus!
