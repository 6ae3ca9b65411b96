//! Subscriptions of users to premium plans: when they end, and how they are
//! updated.
use vstd::prelude::*;
use crate::time::{Instant, plus_days, shiftable, add_days};

verus! {

/// The duration assumed for a plan that cannot be found, in days.
pub const UNKNOWN_PLAN_DAYS: i32 = 30;

/// The end of a subscription that starts at `now`, from the plan's stored
/// duration and lifetime flag (`None` when the plan is unknown: 30 days, not
/// lifetime): none for a lifetime plan, else the duration from now.
pub open spec fn subscription_end_spec(plan: Option<(i32, i32)>, now: Instant) -> Option<Instant> {
    let (days, lifetime) = match plan {
        Some(p) => p,
        None => (UNKNOWN_PLAN_DAYS, 0i32),
    };
    if lifetime != 0 {
        None
    } else {
        Some(plus_days(now, days as int))
    }
}

/// The end of a subscription that starts at `now`.
pub fn subscription_end(plan: Option<(i32, i32)>, now: Instant) -> (r: Option<Instant>)
    requires
        shiftable(now),
    ensures
        r == subscription_end_spec(plan, now),
{
    let (days, lifetime) = match plan {
        Some(p) => p,
        None => (UNKNOWN_PLAN_DAYS, 0i32),
    };
    if lifetime != 0 {
        None
    } else {
        Some(add_days(now, days))
    }
}

/// The statement that updates a subscription's status and end date, each only
/// when the request gives it (values bound in that order, then the id);
/// `None` when it gives neither, and the subscription is left as it is.
pub open spec fn subscription_update_sql_spec(has_status: bool, has_end_date: bool) -> Option<Seq<char>> {
    if has_status && has_end_date {
        Some("UPDATE dbquizapp.user_subscriptions SET status = ?, end_date = ? WHERE id = ?"@)
    } else if has_status {
        Some("UPDATE dbquizapp.user_subscriptions SET status = ? WHERE id = ?"@)
    } else if has_end_date {
        Some("UPDATE dbquizapp.user_subscriptions SET end_date = ? WHERE id = ?"@)
    } else {
        None
    }
}

/// The statement that updates the given fields of a subscription.
pub fn subscription_update_sql(has_status: bool, has_end_date: bool) -> (r: Option<&'static str>)
    ensures
        (match r {
            Some(s) => Some(s@),
            None => None,
        }) == subscription_update_sql_spec(has_status, has_end_date),
{
    if has_status && has_end_date {
        Some("UPDATE dbquizapp.user_subscriptions SET status = ?, end_date = ? WHERE id = ?")
    } else if has_status {
        Some("UPDATE dbquizapp.user_subscriptions SET status = ? WHERE id = ?")
    } else if has_end_date {
        Some("UPDATE dbquizapp.user_subscriptions SET end_date = ? WHERE id = ?")
    } else {
        None
    }
}

} // verus!
