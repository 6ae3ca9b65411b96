//! Premium plans and the subscriptions of users.
use vstd::prelude::*;
use crate::text::{chars_of, concat, push_signed_decimal, push_str, signed_decimal_spec, str_equal, string_from_chars};
use crate::time::Instant;
use crate::controller::license_controller::{days_remaining, days_remaining_spec};

verus! {

/// The body of an error answer.
#[derive(Debug)]
pub struct ErrorResponse {
    pub error: String,
}

/// A stored subscription.
#[derive(Debug)]
pub struct SubscriptionRow {
    pub id: i32,
    pub user_id: String,
    pub plan_id: i32,
    pub start_date: Instant,
    pub end_date: Option<Instant>,
    pub status: String,
}

/// A subscription with its plan, as answers show it.
#[derive(Debug)]
pub struct UserSubscriptionResponse {
    pub id: i32,
    pub user_id: String,
    pub plan_id: i32,
    pub plan_name: String,
    pub start_date: Instant,
    pub end_date: Option<Instant>,
    pub status: String,
    pub is_lifetime: bool,
    pub days_remaining: Option<i64>,
}

/// The answer entry of a subscription with its plan's name and lifetime
/// flag, at `now`: the days left until its end (0 once it has passed, none
/// without an end).
pub fn subscription_entry(sub: SubscriptionRow, plan_name: String, is_lifetime: bool, now: Instant) -> (r:
    UserSubscriptionResponse)
    ensures
        r.id == sub.id && r.user_id == sub.user_id && r.plan_id == sub.plan_id && r.start_date
            == sub.start_date && r.end_date == sub.end_date && r.status == sub.status,
        r.plan_name == plan_name && r.is_lifetime == is_lifetime,
        match days_remaining_spec(sub.end_date, now) {
            None => r.days_remaining is None,
            Some(d) => r.days_remaining matches Some(x) && x == d,
        },
{
    let days = days_remaining(sub.end_date, now);
    UserSubscriptionResponse {
        id: sub.id,
        user_id: sub.user_id,
        plan_id: sub.plan_id,
        plan_name,
        start_date: sub.start_date,
        end_date: sub.end_date,
        status: sub.status,
        is_lifetime,
        days_remaining: days,
    }
}

/// What a user asks of a subscription.
#[derive(Debug, Clone, Copy, PartialEq, Eq, Structural)]
pub enum SubscriptionUse {
    View,
    Cancel,
}

/// Whether a user may view or cancel a subscription, from its lookup (its
/// owner): only the owner may (403), an unknown id is 404, a failed lookup
/// 500.
pub fn subscription_owner_check(
    user_id: &str,
    id: i32,
    usage: SubscriptionUse,
    lookup: Result<Option<String>, String>,
) -> (r: Result<(), (u16, String)>)
    ensures
        match lookup {
            Ok(Some(owner)) => if owner@ == user_id@ {
                r is Ok
            } else {
                r matches Err(f) && f.0 == 403 && f.1@ == match usage {
                    SubscriptionUse::View => "You don't have permission to view this subscription"@,
                    SubscriptionUse::Cancel =>
                        "You don't have permission to cancel this subscription"@,
                }
            },
            Ok(None) => r matches Err(f) && f.0 == 404 && f.1@ == "Subscription with ID "@
                + signed_decimal_spec(id as int) + " not found"@,
            Err(m) => r matches Err(f) && f.0 == 500 && f.1@ == match usage {
                SubscriptionUse::View => "Failed to get subscription: "@ + m@,
                SubscriptionUse::Cancel => "Failed to verify subscription: "@ + m@,
            },
        },
{
    match lookup {
        Ok(Some(owner)) => {
            if str_equal(owner.as_str(), user_id) {
                Ok(())
            } else {
                match usage {
                    SubscriptionUse::View => Err(
                        (403, "You don't have permission to view this subscription".to_string()),
                    ),
                    SubscriptionUse::Cancel => Err(
                        (403, "You don't have permission to cancel this subscription".to_string()),
                    ),
                }
            }
        },
        Ok(None) => {
            let mut v = chars_of("Subscription with ID ");
            push_signed_decimal(&mut v, id as i64);
            push_str(&mut v, " not found");
            Err((404, string_from_chars(v.as_slice())))
        },
        Err(m) => match usage {
            SubscriptionUse::View => Err((500, concat("Failed to get subscription: ", m.as_str()))),
            SubscriptionUse::Cancel => Err(
                (500, concat("Failed to verify subscription: ", m.as_str())),
            ),
        },
    }
}

/// A user's premium status, from the count of their active subscriptions:
/// premium when it is positive; then their subscriptions whose status is
/// `active` are shown (none when there are none), otherwise the plans are
/// offered.
#[derive(Debug)]
pub struct PremiumStatus {
    pub is_premium: bool,
    /// Positions of the subscriptions to show, if any.
    pub shown: Option<Vec<usize>>,
    pub offer_plans: bool,
}

/// A user's premium status from the count of their active subscriptions and
/// the statuses of their subscriptions (`None` when they could not be read).
pub fn premium_status(active_count: i64, statuses: Option<&[String]>) -> (r: PremiumStatus)
    ensures
        r.is_premium == (active_count > 0),
        r.offer_plans == !r.is_premium,
        !r.is_premium ==> r.shown is None,
        r.is_premium && statuses is None ==> r.shown is None,
        r.is_premium && statuses is Some ==> {
            let st = statuses->0@;
            let active = Seq::new(st.len(), |i: int| i).filter(|i: int| st[i]@ == "active"@);
            &&& active.len() == 0 ==> r.shown is None
            &&& active.len() > 0 ==> (r.shown matches Some(v) && v@.map_values(|x: usize| x as int)
                == active)
        },
{
    let is_premium = active_count > 0;
    if !is_premium {
        return PremiumStatus { is_premium, shown: None, offer_plans: true };
    }
    let st = match statuses {
        None => return PremiumStatus { is_premium, shown: None, offer_plans: false },
        Some(s) => s,
    };
    let ghost all = Seq::new(st@.len(), |i: int| i);
    let mut shown: Vec<usize> = Vec::new();
    let mut i: usize = 0;
    while i < st.len()
        invariant
            i <= st@.len(),
            all == Seq::new(st@.len(), |i: int| i),
            shown@.map_values(|x: usize| x as int) == all.take(i as int).filter(
                |k: int| st@[k]@ == "active"@,
            ),
        decreases st@.len() - i,
    {
        proof {
            assert(all.take(i + 1).drop_last() =~= all.take(i as int));
            assert(all.take(i + 1).last() == i as int);
            reveal(Seq::filter);
        }
        if str_equal(st[i].as_str(), "active") {
            let ghost before = shown@;
            shown.push(i);
            assert(shown@.map_values(|x: usize| x as int) =~= before.map_values(|x: usize| x as int).push(
                i as int,
            ));
        }
        i = i + 1;
    }
    assert(all.take(st@.len() as int) =~= all);
    if shown.len() == 0 {
        PremiumStatus { is_premium, shown: None, offer_plans: false }
    } else {
        PremiumStatus { is_premium, shown: Some(shown), offer_plans: false }
    }
}

} // verus!
