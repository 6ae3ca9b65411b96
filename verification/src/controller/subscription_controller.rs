//! Subscriptions paid through Midtrans: status, history, checkout, the
//! Midtrans notification, invoices and cancellation.
use vstd::prelude::*;
use crate::text::{
    chars_of, concat, has_prefix, push_all, push_str, slice_chars, starts_with, str_equal,
    string_from_chars, to_lowercase, lowercase_of, trim, trim_spec, push_signed_decimal,
    signed_decimal_spec,
};
use crate::time::{Instant, is_after, later_than, days_between, whole_days_between};
use crate::controller::rate_limit_step;

verus! {

/// The body of an error answer.
#[derive(Debug)]
pub struct ErrorResponse {
    pub error: String,
}

// ---------------------------------------------------------------------------
// Plan slugs
// ---------------------------------------------------------------------------

/// `s` with every occurrence of a non-empty `pat`, scanning from the left
/// without overlaps, replaced by `rep` (`str::replace`).
pub open spec fn replace_all(s: Seq<char>, pat: Seq<char>, rep: Seq<char>) -> Seq<char>
    decreases s.len(),
{
    if pat.len() == 0 || s.len() == 0 {
        s
    } else if has_prefix(s, pat) {
        rep + replace_all(s.skip(pat.len() as int), pat, rep)
    } else {
        seq![s[0]] + replace_all(s.drop_first(), pat, rep)
    }
}

/// `str::replace` with a non-empty pattern.
pub fn replace(s: &[char], pat: &[char], rep: &[char]) -> (r: Vec<char>)
    requires
        pat@.len() > 0,
    ensures
        r@ == replace_all(s@, pat@, rep@),
{
    let mut out: Vec<char> = Vec::new();
    let mut i: usize = 0;
    assert(s@.skip(0) =~= s@);
    while i < s.len()
        invariant
            i <= s@.len(),
            pat@.len() > 0,
            replace_all(s@, pat@, rep@) == out@ + replace_all(s@.skip(i as int), pat@, rep@),
        decreases s@.len() - i,
    {
        let rest = slice_chars(s, i, s.len());
        assert(rest@ =~= s@.skip(i as int));
        if starts_with(rest.as_slice(), pat) {
            let ghost old_out = out@;
            push_all(&mut out, rep);
            proof {
                assert(s@.skip(i as int).skip(pat@.len() as int) =~= s@.skip(i + pat@.len()));
                assert(old_out + (rep@ + replace_all(s@.skip(i + pat@.len()), pat@, rep@)) =~= out@
                    + replace_all(s@.skip(i + pat@.len()), pat@, rep@));
            }
            i = i + pat.len();
        } else {
            let ghost old_out = out@;
            out.push(s[i]);
            proof {
                assert(s@.skip(i as int).drop_first() =~= s@.skip(i + 1));
                assert(old_out + (seq![s@[i as int]] + replace_all(s@.skip(i + 1), pat@, rep@))
                    =~= out@ + replace_all(s@.skip(i + 1), pat@, rep@));
            }
            i = i + 1;
        }
    }
    assert(s@.skip(i as int) =~= Seq::<char>::empty());
    assert(out@ + Seq::<char>::empty() =~= out@);
    out
}

/// The slug of a plan's name: lower-cased, ` plan` removed, spaces turned
/// into `_`.
pub open spec fn plan_slug_spec(name: Seq<char>) -> Seq<char> {
    replace_all(replace_all(lowercase_of(name), " plan"@, ""@), " "@, "_"@)
}

/// The slug of a plan's name.
pub fn plan_slug(name: &str) -> (r: String)
    ensures
        r@ == plan_slug_spec(name@),
{
    let lower = to_lowercase(name);
    let l = chars_of(lower.as_str());
    let p1 = chars_of(" plan");
    let e = chars_of("");
    let sp = chars_of(" ");
    let us = chars_of("_");
    proof {
        reveal_strlit(" plan");
        reveal_strlit(" ");
    }
    let a = replace(l.as_slice(), p1.as_slice(), e.as_slice());
    let b = replace(a.as_slice(), sp.as_slice(), us.as_slice());
    string_from_chars(b.as_slice())
}

// ---------------------------------------------------------------------------
// Status, history, invoices, cancellation
// ---------------------------------------------------------------------------

/// The active subscription of a user, as the status reads it.
#[derive(Debug)]
pub struct ActiveSubscription {
    pub id: i32,
    pub plan_id: i32,
    pub plan_name: String,
    pub start_date: Instant,
    pub end_date: Option<Instant>,
    pub is_lifetime: bool,
}

/// The subscription status of a user.
#[derive(Debug)]
pub struct SubscriptionStatusResponse {
    pub plan: Option<String>,
    pub plan_name: Option<String>,
    pub status: String,
    pub started_at: Option<Instant>,
    pub expires_at: Option<Instant>,
    pub days_remaining: Option<i64>,
    pub is_lifetime: bool,
    /// The amount of the last successful payment for the plan.
    pub price_paid: Option<i64>,
}

/// The days left on a subscription at `now`: none when it is for life or has
/// no end, else the whole days to its end, never below 0.
pub open spec fn subscription_days_left(sub: ActiveSubscription, now: Instant) -> Option<int> {
    if sub.is_lifetime {
        None
    } else {
        match sub.end_date {
            None => None,
            Some(e) => Some(
                if is_after(e, now) {
                    whole_days_between(e, now)
                } else {
                    0
                },
            ),
        }
    }
}

/// The status answer: the active subscription with its plan's slug and the
/// days left, or `none`.
pub fn subscription_status(active: Option<ActiveSubscription>, price_paid: Option<i64>, now: Instant) -> (r:
    SubscriptionStatusResponse)
    ensures
        match active {
            None => r.plan is None && r.plan_name is None && r.status@ == "none"@ && r.started_at
                is None && r.expires_at is None && r.days_remaining is None && !r.is_lifetime
                && r.price_paid is None,
            Some(sub) => (r.plan matches Some(p) && p@ == plan_slug_spec(sub.plan_name@))
                && r.plan_name == Some(sub.plan_name) && r.status@ == "active"@ && r.started_at
                == Some(sub.start_date) && r.expires_at == sub.end_date && r.is_lifetime
                == sub.is_lifetime && r.price_paid == price_paid && match subscription_days_left(
                sub,
                now,
            ) {
                None => r.days_remaining is None,
                Some(d) => r.days_remaining matches Some(x) && x == d,
            },
        },
{
    match active {
        None => SubscriptionStatusResponse {
            plan: None,
            plan_name: None,
            status: "none".to_string(),
            started_at: None,
            expires_at: None,
            days_remaining: None,
            is_lifetime: false,
            price_paid: None,
        },
        Some(sub) => {
            let days = if sub.is_lifetime {
                None
            } else {
                match sub.end_date {
                    None => None,
                    Some(e) => Some(
                        if later_than(e, now) {
                            days_between(e, now)
                        } else {
                            0
                        },
                    ),
                }
            };
            SubscriptionStatusResponse {
                plan: Some(plan_slug(sub.plan_name.as_str())),
                plan_name: Some(sub.plan_name),
                status: "active".to_string(),
                started_at: Some(sub.start_date),
                expires_at: sub.end_date,
                days_remaining: days,
                is_lifetime: sub.is_lifetime,
                price_paid,
            }
        },
    }
}

/// A payment of the history with its plan's name.
#[derive(Debug)]
pub struct HistoryRow {
    pub id: String,
    pub plan_name: String,
    pub amount: i64,
    pub status: String,
    pub payment_method: Option<String>,
    pub paid_at: Option<Instant>,
    pub invoice_number: Option<String>,
    pub created_at: Instant,
}

/// A payment as the history shows it.
#[derive(Debug)]
pub struct TransactionHistoryItem {
    pub id: String,
    pub plan: String,
    pub plan_name: String,
    pub amount: i64,
    pub status: String,
    pub payment_method: Option<String>,
    pub paid_at: Option<Instant>,
    pub invoice_number: Option<String>,
    pub created_at: Instant,
    pub invoice_url: String,
}

/// The history entry of a payment: its plan's slug and the URL of its
/// invoice added.
pub fn history_item(r: HistoryRow) -> (item: TransactionHistoryItem)
    ensures
        item.id == r.id && item.plan_name == r.plan_name && item.amount == r.amount && item.status
            == r.status && item.payment_method == r.payment_method && item.paid_at == r.paid_at
            && item.invoice_number == r.invoice_number && item.created_at == r.created_at,
        item.plan@ == plan_slug_spec(r.plan_name@),
        item.invoice_url@ == "/subscription/invoice/"@ + r.id@,
{
    let slug = plan_slug(r.plan_name.as_str());
    let url = concat("/subscription/invoice/", r.id.as_str());
    TransactionHistoryItem {
        id: r.id,
        plan: slug,
        plan_name: r.plan_name,
        amount: r.amount,
        status: r.status,
        payment_method: r.payment_method,
        paid_at: r.paid_at,
        invoice_number: r.invoice_number,
        created_at: r.created_at,
        invoice_url: url,
    }
}

/// Whether the caller may see an invoice, from the lookup of its owner:
/// only the owner may (403 `Akses ditolak`), an unknown invoice is 404, a
/// failed lookup 500.
pub fn invoice_access(user_id: &str, owner: Result<Option<String>, ()>) -> (r: Result<(), (u16, &'static str)>)
    ensures
        match owner {
            Ok(Some(o)) => if o@ == user_id@ {
                r is Ok
            } else {
                r matches Err(f) && f.0 == 403 && f.1@ == "Akses ditolak"@
            },
            Ok(None) => r matches Err(f) && f.0 == 404 && f.1@ == "Invoice tidak ditemukan"@,
            Err(_) => r matches Err(f) && f.0 == 500 && f.1@ == "Gagal mengambil invoice"@,
        },
{
    match owner {
        Ok(Some(o)) => {
            if str_equal(o.as_str(), user_id) {
                Ok(())
            } else {
                Err((403, "Akses ditolak"))
            }
        },
        Ok(None) => Err((404, "Invoice tidak ditemukan")),
        Err(_) => Err((500, "Gagal mengambil invoice")),
    }
}

/// The answer to a cancellation, from the lookup of the active
/// subscription and, when there is one, whether cancelling it worked
/// (`None` when it was not tried): 404 without an active subscription, 500
/// when a step failed; on success the end of the subscription, until which
/// premium access stays.
pub fn cancel_reply(active: Result<Option<Option<Instant>>, ()>, cancelled: Option<bool>) -> (r: Result<
    Option<Instant>,
    (u16, &'static str),
>)
    ensures
        match active {
            Err(_) => r matches Err(f) && f.0 == 500 && f.1@ == "Gagal mencari langganan"@,
            Ok(None) => r matches Err(f) && f.0 == 404 && f.1@ == "Tidak ada langganan aktif"@,
            Ok(Some(end)) => if cancelled == Some(true) {
                r == Ok::<Option<Instant>, (u16, &'static str)>(end)
            } else {
                r matches Err(f) && f.0 == 500 && f.1@ == "Gagal membatalkan langganan"@
            },
        },
{
    match active {
        Err(_) => Err((500, "Gagal mencari langganan")),
        Ok(None) => Err((404, "Tidak ada langganan aktif")),
        Ok(Some(end)) => match cancelled {
            Some(true) => Ok(end),
            _ => Err((500, "Gagal membatalkan langganan")),
        },
    }
}


// ---------------------------------------------------------------------------
// Checkout
// ---------------------------------------------------------------------------

/// Checkouts a user may start per minute.
pub const CHECKOUTS_PER_MINUTE: i64 = 3;

/// How long a checkout's payment stays open, in seconds.
pub const CHECKOUT_SECONDS: i64 = 86400;

/// An upper-case hexadecimal digit.
pub open spec fn hex_upper_digit(d: nat) -> char {
    if d < 10 {
        (('0' as nat) + d) as char
    } else {
        (('A' as nat) + d - 10) as char
    }
}

/// The last `n` hexadecimal digits of `v`, upper case, most significant first.
pub open spec fn hex_digits(v: nat, n: nat) -> Seq<char>
    decreases n,
{
    if n == 0 {
        seq![]
    } else {
        hex_digits(v / 16, (n - 1) as nat).push(hex_upper_digit(v % 16))
    }
}

fn hex_digit(d: u32) -> (c: char)
    requires
        d < 16,
    ensures
        c == hex_upper_digit(d as nat),
{
    if d < 10 {
        let c = (('0' as u8) + (d as u8)) as char;
        c
    } else {
        let c = (('A' as u8) + (d as u8) - 10) as char;
        c
    }
}

fn push_hex_digits(dst: &mut Vec<char>, v: u32, n: u32)
    requires
        n <= 8,
    ensures
        final(dst)@ == old(dst)@ + hex_digits(v as nat, n as nat),
    decreases n,
{
    if n > 0 {
        push_hex_digits(dst, v / 16, n - 1);
        dst.push(hex_digit(v % 16));
        assert(hex_digits(v as nat, n as nat) == hex_digits((v / 16) as nat, (n - 1) as nat).push(
            hex_upper_digit((v % 16) as nat),
        ));
    }
}

/// The order id of a checkout: `QUIZKU-`, the date (`YYYYMMDD`), `-`, and the
/// first 8 hexadecimal digits of a random UUID in upper case (its top 32
/// bits).
pub open spec fn order_id_spec(date: Seq<char>, uuid: u128) -> Seq<char> {
    "QUIZKU-"@ + date + "-"@ + hex_digits((uuid / 0x1_0000_0000_0000_0000_0000_0000) as nat, 8)
}

/// The order id of a checkout on a date (`YYYYMMDD`) with a random UUID.
pub fn checkout_order_id(date: &str, uuid: u128) -> (r: String)
    ensures
        r@ == order_id_spec(date@, uuid),
{
    let top: u32 = (uuid / 0x1_0000_0000_0000_0000_0000_0000u128) as u32;
    let mut v = chars_of("QUIZKU-");
    push_str(&mut v, date);
    push_str(&mut v, "-");
    push_hex_digits(&mut v, top, 8);
    string_from_chars(v.as_slice())
}

/// A plan as the checkout reads it.
#[derive(Debug)]
pub struct CheckoutPlan {
    pub id: i32,
    pub name: String,
}

/// What Midtrans Snap answers.
#[derive(Debug)]
pub struct SnapTransaction {
    pub token: String,
    pub redirect_url: String,
}

/// The answer to a checkout (the application adds the amount).
#[derive(Debug)]
pub struct CheckoutResponse {
    pub order_id: String,
    pub payment_url: String,
    pub snap_token: String,
    pub expires_at: Instant,
}

/// Where a checkout stands.
#[derive(Debug, Clone, Copy, PartialEq, Eq, Structural)]
pub enum CheckoutStage {
    AwaitRateCount,
    AwaitRateExpiry,
    AwaitPlan,
    AwaitUser,
    AwaitSnap,
    AwaitSave,
    Finished,
}

/// A checkout in progress.
#[derive(Debug)]
pub struct CheckoutFlow {
    pub stage: CheckoutStage,
    pub user_id: String,
    /// The requested plan, trimmed and lower-cased.
    pub slug: String,
    pub order_id: String,
    pub plan: Option<CheckoutPlan>,
    pub snap: Option<SnapTransaction>,
}

/// What the application reports back.
#[derive(Debug)]
pub enum CheckoutEvent {
    /// The user's checkout counter after the increment (0 when it failed).
    RateCounted(i64),
    RateExpirySet,
    /// The first plan whose lower-cased name starts with the slug.
    PlanFound(Result<Option<CheckoutPlan>, ()>),
    /// The user's e-mail and display name, if the user could be read.
    UserLoaded(Option<(String, String)>),
    SnapCreated(Option<SnapTransaction>),
    /// Whether the transaction was stored.
    Saved(bool),
}

/// What the application does next.
#[derive(Debug)]
pub enum CheckoutAction {
    CountRate(String),
    ExpireRate(String),
    FindPlan(String),
    LoadUser(String),
    /// Ask Midtrans Snap for a transaction at the plan's price (order id,
    /// e-mail, display name, slug, plan name).
    CreateSnap(String, String, String, String, String),
    /// Store the pending transaction at the plan's price with a fresh id
    /// (user, plan id, order id, payment URL, Snap token, expiry).
    SaveTransaction(String, i32, String, String, String, Instant),
    Reply(Result<CheckoutResponse, (u16, String)>),
}

/// The checkout ended with a failure answer.
pub open spec fn checkout_fails(r: (CheckoutFlow, CheckoutAction), status: u16, msg: Seq<char>) -> bool {
    &&& r.0.stage == CheckoutStage::Finished
    &&& r.1 matches CheckoutAction::Reply(Err(f)) && f.0 == status && f.1@ == msg
}

/// The key of a user's checkout counter.
pub open spec fn checkout_rate_key(user_id: Seq<char>) -> Seq<char> {
    "rate:checkout:"@ + user_id
}

/// What follows the rate limit: an empty slug is refused, otherwise the plan
/// is looked up by it.
pub open spec fn checkout_after_rate(f: CheckoutFlow, r: (CheckoutFlow, CheckoutAction)) -> bool {
    if f.slug@.len() == 0 {
        checkout_fails(r, 400, "Plan tidak boleh kosong"@)
    } else {
        r.0 == CheckoutFlow { stage: CheckoutStage::AwaitPlan, ..f } && r.1 == CheckoutAction::FindPlan(
            f.slug,
        )
    }
}

/// Starts a checkout for the plan the request names, with its order id: the
/// caller must be logged in; with a rate limiter, their counter is
/// incremented first.
pub open spec fn checkout_begin_ok(
    user_header: Option<String>,
    plan: Seq<char>,
    limited: bool,
    order_id: String,
    r: (CheckoutFlow, CheckoutAction),
) -> bool {
    match user_header {
        None => checkout_fails(r, 401, "Login diperlukan"@),
        Some(u) => {
            &&& r.0.user_id == u && r.0.slug@ == lowercase_of(trim_spec(plan))
            &&& r.0.order_id == order_id
            &&& if limited {
                r.0.stage == CheckoutStage::AwaitRateCount && r.0.plan is None && r.0.snap is None && (
                r.1 matches CheckoutAction::CountRate(k) && k@ == checkout_rate_key(u@))
            } else {
                checkout_after_rate(
                    CheckoutFlow {
                        stage: CheckoutStage::AwaitRateCount,
                        plan: None,
                        snap: None,
                        ..r.0
                    },
                    r,
                )
            }
        },
    }
}

fn checkout_fail(f: CheckoutFlow, status: u16, msg: String) -> (r: (CheckoutFlow, CheckoutAction))
    ensures
        r.0 == (CheckoutFlow { stage: CheckoutStage::Finished, ..f }),
        r.1 == CheckoutAction::Reply(Err((status, msg))),
{
    (CheckoutFlow { stage: CheckoutStage::Finished, ..f }, CheckoutAction::Reply(Err((status, msg))))
}

fn checkout_continue(f: CheckoutFlow) -> (r: (CheckoutFlow, CheckoutAction))
    ensures
        checkout_after_rate(f, r),
        r.0 == (CheckoutFlow { stage: r.0.stage, ..f }),
{
    if chars_of(f.slug.as_str()).len() == 0 {
        checkout_fail(f, 400, "Plan tidak boleh kosong".to_string())
    } else {
        let slug = f.slug.clone();
        (CheckoutFlow { stage: CheckoutStage::AwaitPlan, ..f }, CheckoutAction::FindPlan(slug))
    }
}

/// Starts a checkout (`limited`: a rate limiter is configured).
pub fn begin_checkout(user_header: Option<String>, plan: &str, limited: bool, order_id: String) -> (r: (
    CheckoutFlow,
    CheckoutAction,
))
    ensures
        checkout_begin_ok(user_header, plan@, limited, order_id, r),
{
    let t = trim(chars_of(plan).as_slice());
    let trimmed = string_from_chars(t.as_slice());
    let slug = to_lowercase(trimmed.as_str());
    match user_header {
        None => {
            let f = CheckoutFlow {
                stage: CheckoutStage::Finished,
                user_id: String::new(),
                slug,
                order_id,
                plan: None,
                snap: None,
            };
            checkout_fail(f, 401, "Login diperlukan".to_string())
        },
        Some(u) => {
            let mut k = chars_of("rate:checkout:");
            push_str(&mut k, u.as_str());
            let key = string_from_chars(k.as_slice());
            let f = CheckoutFlow {
                stage: CheckoutStage::AwaitRateCount,
                user_id: u,
                slug,
                order_id,
                plan: None,
                snap: None,
            };
            if limited {
                (f, CheckoutAction::CountRate(key))
            } else {
                checkout_continue(f)
            }
        },
    }
}

/// The event reports the outcome of the flow's pending action.
pub open spec fn checkout_fits(f: CheckoutFlow, e: CheckoutEvent) -> bool {
    match f.stage {
        CheckoutStage::AwaitRateCount => e is RateCounted,
        CheckoutStage::AwaitRateExpiry => e is RateExpirySet,
        CheckoutStage::AwaitPlan => e is PlanFound,
        CheckoutStage::AwaitUser => e is UserLoaded && f.plan is Some,
        CheckoutStage::AwaitSnap => e is SnapCreated && f.plan is Some,
        CheckoutStage::AwaitSave => e is Saved && f.snap is Some,
        CheckoutStage::Finished => false,
    }
}

/// One step of a checkout at `now`. A new counter gets a one-minute expiry,
/// and more than `CHECKOUTS_PER_MINUTE` checkouts in the window are refused
/// with 429. The plan must exist (404) and the user must be readable (500).
/// Midtrans Snap is asked for a transaction (502 when it fails); the pending
/// transaction is stored to expire a day later, and the answer carries the
/// order id, the payment URL, the Snap token and the expiry.
pub open spec fn checkout_step_ok(
    f: CheckoutFlow,
    e: CheckoutEvent,
    now: Instant,
    r: (CheckoutFlow, CheckoutAction),
) -> bool {
    match e {
        CheckoutEvent::RateCounted(n) => if n == 1 {
            r.0 == CheckoutFlow { stage: CheckoutStage::AwaitRateExpiry, ..f } && (
            r.1 matches CheckoutAction::ExpireRate(k) && k@ == checkout_rate_key(f.user_id@))
        } else if n > CHECKOUTS_PER_MINUTE {
            checkout_fails(r, 429, "Terlalu banyak permintaan checkout. Coba lagi dalam 1 menit."@)
        } else {
            checkout_after_rate(f, r)
        },
        CheckoutEvent::RateExpirySet => checkout_after_rate(f, r),
        CheckoutEvent::PlanFound(res) => match res {
            Err(_) => checkout_fails(r, 500, "Gagal mencari data plan"@),
            Ok(None) => checkout_fails(r, 404, "Plan '"@ + f.slug@ + "' tidak ditemukan"@),
            Ok(Some(p)) => r.0 == CheckoutFlow { stage: CheckoutStage::AwaitUser, plan: Some(p), ..f }
                && r.1 == CheckoutAction::LoadUser(f.user_id),
        },
        CheckoutEvent::UserLoaded(u) => match u {
            None => checkout_fails(r, 500, "Gagal mengambil data user"@),
            Some(u) => r.0 == CheckoutFlow { stage: CheckoutStage::AwaitSnap, ..f } && r.1
                == CheckoutAction::CreateSnap(f.order_id, u.0, u.1, f.slug, f.plan->0.name),
        },
        CheckoutEvent::SnapCreated(s) => match s {
            None => checkout_fails(r, 502, "Gagal membuat transaksi Midtrans"@),
            Some(s) => r.0 == CheckoutFlow { stage: CheckoutStage::AwaitSave, snap: Some(s), ..f }
                && r.1 == CheckoutAction::SaveTransaction(
                f.user_id,
                f.plan->0.id,
                f.order_id,
                s.redirect_url,
                s.token,
                Instant { secs: (now.secs + CHECKOUT_SECONDS) as i64, nanos: now.nanos },
            ),
        },
        CheckoutEvent::Saved(ok) => if !ok {
            checkout_fails(r, 500, "Gagal menyimpan transaksi"@)
        } else {
            r.0.stage == CheckoutStage::Finished && r.1 == CheckoutAction::Reply(
                Ok(
                    CheckoutResponse {
                        order_id: f.order_id,
                        payment_url: f.snap->0.redirect_url,
                        snap_token: f.snap->0.token,
                        expires_at: Instant {
                            secs: (now.secs + CHECKOUT_SECONDS) as i64,
                            nanos: now.nanos,
                        },
                    },
                ),
            )
        },
    }
}

/// One step of a checkout at `now`.
pub fn checkout_step(f: CheckoutFlow, e: CheckoutEvent, now: Instant) -> (r: (CheckoutFlow, CheckoutAction))
    requires
        checkout_fits(f, e),
        now.secs <= i64::MAX - CHECKOUT_SECONDS,
    ensures
        checkout_step_ok(f, e, now, r),
{
    let expires = Instant { secs: now.secs + CHECKOUT_SECONDS, nanos: now.nanos };
    match e {
        CheckoutEvent::RateCounted(n) => {
            let (expire, refuse) = rate_limit_step(n, CHECKOUTS_PER_MINUTE);
            if expire {
                let mut k = chars_of("rate:checkout:");
                push_str(&mut k, f.user_id.as_str());
                let key = string_from_chars(k.as_slice());
                (CheckoutFlow { stage: CheckoutStage::AwaitRateExpiry, ..f }, CheckoutAction::ExpireRate(key))
            } else if refuse {
                checkout_fail(
                    f,
                    429,
                    "Terlalu banyak permintaan checkout. Coba lagi dalam 1 menit.".to_string(),
                )
            } else {
                checkout_continue(f)
            }
        },
        CheckoutEvent::RateExpirySet => checkout_continue(f),
        CheckoutEvent::PlanFound(res) => match res {
            Err(_) => checkout_fail(f, 500, "Gagal mencari data plan".to_string()),
            Ok(None) => {
                let mut v = chars_of("Plan '");
                push_str(&mut v, f.slug.as_str());
                push_str(&mut v, "' tidak ditemukan");
                let msg = string_from_chars(v.as_slice());
                checkout_fail(f, 404, msg)
            },
            Ok(Some(p)) => {
                let uid = f.user_id.clone();
                (CheckoutFlow { stage: CheckoutStage::AwaitUser, plan: Some(p), ..f }, CheckoutAction::LoadUser(uid))
            },
        },
        CheckoutEvent::UserLoaded(u) => match u {
            None => checkout_fail(f, 500, "Gagal mengambil data user".to_string()),
            Some(u) => {
                let name = match &f.plan {
                    Some(p) => p.name.clone(),
                    None => String::new(),
                };
                let action = CheckoutAction::CreateSnap(f.order_id.clone(), u.0, u.1, f.slug.clone(), name);
                (CheckoutFlow { stage: CheckoutStage::AwaitSnap, ..f }, action)
            },
        },
        CheckoutEvent::SnapCreated(s) => match s {
            None => checkout_fail(f, 502, "Gagal membuat transaksi Midtrans".to_string()),
            Some(s) => {
                let plan_id = match &f.plan {
                    Some(p) => p.id,
                    None => 0,
                };
                let action = CheckoutAction::SaveTransaction(
                    f.user_id.clone(),
                    plan_id,
                    f.order_id.clone(),
                    s.redirect_url.clone(),
                    s.token.clone(),
                    expires,
                );
                (CheckoutFlow { stage: CheckoutStage::AwaitSave, snap: Some(s), ..f }, action)
            },
        },
        CheckoutEvent::Saved(ok) => {
            if !ok {
                checkout_fail(f, 500, "Gagal menyimpan transaksi".to_string())
            } else {
                let (url, token) = match &f.snap {
                    Some(s) => (s.redirect_url.clone(), s.token.clone()),
                    None => (String::new(), String::new()),
                };
                let resp = CheckoutResponse {
                    order_id: f.order_id.clone(),
                    payment_url: url,
                    snap_token: token,
                    expires_at: expires,
                };
                (CheckoutFlow { stage: CheckoutStage::Finished, ..f }, CheckoutAction::Reply(Ok(resp)))
            }
        },
    }
}


// ---------------------------------------------------------------------------
// The Midtrans notification
// ---------------------------------------------------------------------------

/// The status Midtrans's `transaction_status` gives a payment: `capture` and
/// `settlement` are success; `deny`, `cancel` and `failure` failed; `expire`
/// expired; anything else pending.
pub open spec fn midtrans_status_spec(s: Seq<char>) -> Seq<char> {
    if s == "capture"@ || s == "settlement"@ {
        "success"@
    } else if s == "deny"@ || s == "cancel"@ || s == "failure"@ {
        "failed"@
    } else if s == "expire"@ {
        "expired"@
    } else {
        "pending"@
    }
}

/// The status Midtrans's `transaction_status` gives a payment.
pub fn midtrans_status(s: &str) -> (r: &'static str)
    ensures
        r@ == midtrans_status_spec(s@),
{
    if str_equal(s, "capture") || str_equal(s, "settlement") {
        "success"
    } else if str_equal(s, "deny") || str_equal(s, "cancel") || str_equal(s, "failure") {
        "failed"
    } else if str_equal(s, "expire") {
        "expired"
    } else {
        "pending"
    }
}

/// What the notification handler reads of Midtrans's notification.
#[derive(Debug)]
pub struct MidtransNotification {
    pub order_id: String,
    pub status_code: String,
    pub transaction_status: String,
    pub payment_type: Option<String>,
    pub transaction_id: Option<String>,
}

/// Where the handling of a notification stands.
#[derive(Debug, Clone, Copy, PartialEq, Eq, Structural)]
pub enum NotificationStage {
    AwaitOrder,
    AwaitUpdate,
    AwaitCancelOld,
    AwaitSubscription,
    AwaitInvoice,
    Finished,
}

/// A notification being handled.
#[derive(Debug)]
pub struct NotificationFlow {
    pub stage: NotificationStage,
    pub order_id: String,
    /// The payment's new status (`success`, `failed`, `expired` or
    /// `pending`).
    pub status: &'static str,
    /// The buyer and the plan of the order, once found.
    pub order: Option<(String, i32)>,
}

/// What the application reports back.
#[derive(Debug)]
pub enum NotificationEvent {
    /// The buyer and plan of the order, if it is stored.
    OrderFound(Option<(String, i32)>),
    /// The transaction's status is recorded (the outcome does not matter).
    Updated,
    /// The buyer's active subscriptions are cancelled (the outcome does not
    /// matter).
    OldCancelled,
    /// The id of the new subscription and the current year, or a failure.
    SubscriptionCreated(Result<(i64, String), ()>),
    /// The invoice number is recorded (the outcome does not matter).
    InvoiceRecorded,
}

/// What the application does next.
#[derive(Debug)]
pub enum NotificationAction {
    FindOrder(String),
    /// Record the new status, Midtrans's payment type, transaction id and
    /// status code; `true` also records the payment time (now).
    UpdateTransaction(String, &'static str, Option<String>, Option<String>, String, bool),
    CancelActive(String),
    CreateSubscription(String, i32),
    /// Record the subscription and its invoice number with the order.
    RecordInvoice(String, i64, String),
    /// 200 with the order id and the status, or a failure.
    Reply(Result<(String, &'static str), (u16, String)>),
}

/// Starts the handling of a notification whose signature was checked
/// (`signature_ok`): a bad signature is refused with 401; otherwise the
/// order is looked up.
pub fn begin_notification(n: &MidtransNotification, signature_ok: bool) -> (r: (
    NotificationFlow,
    NotificationAction,
))
    ensures
        r.0.order_id == n.order_id,
        r.0.status@ == midtrans_status_spec(n.transaction_status@),
        r.0.order is None,
        !signature_ok ==> r.0.stage == NotificationStage::Finished,
        !signature_ok ==> (r.1 matches NotificationAction::Reply(Err(f)) && f.0 == 401 && f.1@
            == "Invalid signature"@),
        signature_ok ==> r.0.stage == NotificationStage::AwaitOrder,
        signature_ok ==> r.1 == NotificationAction::FindOrder(n.order_id),
{
    let f = NotificationFlow {
        stage: NotificationStage::AwaitOrder,
        order_id: n.order_id.clone(),
        status: midtrans_status(n.transaction_status.as_str()),
        order: None,
    };
    if !signature_ok {
        (
            NotificationFlow { stage: NotificationStage::Finished, ..f },
            NotificationAction::Reply(Err((401, "Invalid signature".to_string()))),
        )
    } else {
        (f, NotificationAction::FindOrder(n.order_id.clone()))
    }
}

/// The event reports the outcome of the flow's pending action.
pub open spec fn notification_fits(f: NotificationFlow, e: NotificationEvent) -> bool {
    match f.stage {
        NotificationStage::AwaitOrder => e is OrderFound,
        NotificationStage::AwaitUpdate => e is Updated && f.order is Some,
        NotificationStage::AwaitCancelOld => e is OldCancelled && f.order is Some,
        NotificationStage::AwaitSubscription => e is SubscriptionCreated,
        NotificationStage::AwaitInvoice => e is InvoiceRecorded,
        NotificationStage::Finished => false,
    }
}

/// The notification was answered with the order and its status.
pub open spec fn notification_done(f: NotificationFlow, r: (NotificationFlow, NotificationAction)) -> bool {
    r.0.stage == NotificationStage::Finished && r.1 == NotificationAction::Reply(
        Ok((f.order_id, f.status)),
    )
}

/// One step of a Midtrans notification. An unknown order is 404. The status
/// is recorded, with the payment time when it is a success. A successful
/// payment cancels the buyer's active subscriptions and subscribes them to
/// the order's plan (500 when that fails), and the order gets the invoice
/// number `INV-<year>-<subscription id>`.
pub open spec fn notification_step_ok(
    f: NotificationFlow,
    n: MidtransNotification,
    e: NotificationEvent,
    r: (NotificationFlow, NotificationAction),
) -> bool {
    match e {
        NotificationEvent::OrderFound(o) => match o {
            None => r.0.stage == NotificationStage::Finished && (r.1 matches NotificationAction::Reply(
                Err(x),
            ) && x.0 == 404 && x.1@ == "Order "@ + f.order_id@ + " tidak ditemukan"@),
            Some(o) => r.0 == NotificationFlow {
                stage: NotificationStage::AwaitUpdate,
                order: Some(o),
                ..f
            } && r.1 == NotificationAction::UpdateTransaction(
                f.order_id,
                f.status,
                n.payment_type,
                n.transaction_id,
                n.status_code,
                f.status@ == "success"@,
            ),
        },
        NotificationEvent::Updated => if f.status@ == "success"@ {
            r.0 == NotificationFlow { stage: NotificationStage::AwaitCancelOld, ..f } && r.1
                == NotificationAction::CancelActive((f.order->0).0)
        } else {
            notification_done(f, r)
        },
        NotificationEvent::OldCancelled => r.0 == NotificationFlow {
            stage: NotificationStage::AwaitSubscription,
            ..f
        } && r.1 == NotificationAction::CreateSubscription((f.order->0).0, (f.order->0).1),
        NotificationEvent::SubscriptionCreated(res) => match res {
            Err(_) => r.0.stage == NotificationStage::Finished && (r.1 matches NotificationAction::Reply(
                Err(x),
            ) && x.0 == 500 && x.1@ == "Gagal mengaktifkan langganan"@),
            Ok((id, year)) => r.0 == NotificationFlow {
                stage: NotificationStage::AwaitInvoice,
                ..f
            } && (r.1 matches NotificationAction::RecordInvoice(o, sid, inv) && o == f.order_id && sid
                == id && inv@ == "INV-"@ + year@ + "-"@ + signed_decimal_spec(id as int)),
        },
        NotificationEvent::InvoiceRecorded => notification_done(f, r),
    }
}

fn clone_opt(v: &Option<String>) -> (r: Option<String>)
    ensures
        r == *v,
{
    match v {
        Some(s) => Some(s.clone()),
        None => None,
    }
}

fn notification_done_now(f: NotificationFlow) -> (r: (NotificationFlow, NotificationAction))
    ensures
        notification_done(f, r),
{
    let o = f.order_id.clone();
    let st = f.status;
    (NotificationFlow { stage: NotificationStage::Finished, ..f }, NotificationAction::Reply(Ok((o, st))))
}

/// One step of the handling of a Midtrans notification.
pub fn notification_step(f: NotificationFlow, n: &MidtransNotification, e: NotificationEvent) -> (r: (
    NotificationFlow,
    NotificationAction,
))
    requires
        notification_fits(f, e),
    ensures
        notification_step_ok(f, *n, e, r),
{
    let success = str_equal(f.status, "success");
    match e {
        NotificationEvent::OrderFound(o) => match o {
            None => {
                let mut v = chars_of("Order ");
                push_str(&mut v, f.order_id.as_str());
                push_str(&mut v, " tidak ditemukan");
                let msg = string_from_chars(v.as_slice());
                (
                    NotificationFlow { stage: NotificationStage::Finished, ..f },
                    NotificationAction::Reply(Err((404, msg))),
                )
            },
            Some(o) => {
                let action = NotificationAction::UpdateTransaction(
                    f.order_id.clone(),
                    f.status,
                    clone_opt(&n.payment_type),
                    clone_opt(&n.transaction_id),
                    n.status_code.clone(),
                    success,
                );
                (NotificationFlow { stage: NotificationStage::AwaitUpdate, order: Some(o), ..f }, action)
            },
        },
        NotificationEvent::Updated => {
            if success {
                let uid = match &f.order {
                    Some(o) => o.0.clone(),
                    None => String::new(),
                };
                (
                    NotificationFlow { stage: NotificationStage::AwaitCancelOld, ..f },
                    NotificationAction::CancelActive(uid),
                )
            } else {
                notification_done_now(f)
            }
        },
        NotificationEvent::OldCancelled => {
            let (uid, plan) = match &f.order {
                Some(o) => (o.0.clone(), o.1),
                None => (String::new(), 0),
            };
            (
                NotificationFlow { stage: NotificationStage::AwaitSubscription, ..f },
                NotificationAction::CreateSubscription(uid, plan),
            )
        },
        NotificationEvent::SubscriptionCreated(res) => match res {
            Err(_) => (
                NotificationFlow { stage: NotificationStage::Finished, ..f },
                NotificationAction::Reply(Err((500, "Gagal mengaktifkan langganan".to_string()))),
            ),
            Ok((id, year)) => {
                let mut v = chars_of("INV-");
                push_str(&mut v, year.as_str());
                push_str(&mut v, "-");
                push_signed_decimal(&mut v, id);
                let inv = string_from_chars(v.as_slice());
                let o = f.order_id.clone();
                (
                    NotificationFlow { stage: NotificationStage::AwaitInvoice, ..f },
                    NotificationAction::RecordInvoice(o, id, inv),
                )
            },
        },
        NotificationEvent::InvoiceRecorded => notification_done_now(f),
    }
}

} // verus!
