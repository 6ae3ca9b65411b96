//! License codes bought through Mayar: payment links, verification and
//! activation, and the list of a user's licenses.
use vstd::prelude::*;
use crate::text::{chars_of, concat, push_str, string_from_chars};
use crate::dao::license_code_dao::{LicenseStatus, license_status_str, license_status_text};
use crate::time::{Instant, is_after, later_than, days_between, whole_days_between, shiftable, plus_days, add_days};
use crate::text::{byte_len, str_len};

verus! {

/// The body of an error answer.
#[derive(Debug)]
pub struct ErrorResponse {
    pub error: String,
}

/// The answer carrying a payment link.
#[derive(Debug)]
pub struct GeneratePaymentLinkResponse {
    pub payment_link: String,
}

// ---------------------------------------------------------------------------
// Payment links
// ---------------------------------------------------------------------------

/// Bytes that URL encoding leaves as they are: ASCII letters and digits and
/// `-`, `.`, `_`, `~`.
pub open spec fn url_unreserved(b: u8) -> bool {
    (0x30 <= b <= 0x39) || (0x41 <= b <= 0x5A) || (0x61 <= b <= 0x7A) || b == 0x2D || b == 0x2E
        || b == 0x5F || b == 0x7E
}

/// An upper-case hexadecimal digit.
pub open spec fn hex_digit_upper(d: int) -> char {
    if d < 10 {
        (('0' as int) + d) as char
    } else {
        (('A' as int) + d - 10) as char
    }
}

/// Percent-encoding of bytes: unreserved bytes stand for themselves, every
/// other byte becomes `%` and its two upper-case hexadecimal digits.
pub open spec fn url_encode_bytes(bytes: Seq<u8>) -> Seq<char>
    decreases bytes.len(),
{
    if bytes.len() == 0 {
        seq![]
    } else {
        let b = bytes.last();
        let head = url_encode_bytes(bytes.drop_last());
        if url_unreserved(b) {
            head.push((b as u32) as char)
        } else {
            head.push('%').push(hex_digit_upper(b as int / 16)).push(hex_digit_upper(b as int % 16))
        }
    }
}

/// The URL encoding of a string: percent-encoding of its UTF-8 bytes.
pub open spec fn url_encode_spec(s: Seq<char>) -> Seq<char> {
    url_encode_bytes(vstd::utf8::encode_utf8(s))
}

/// `urlencoding::encode`: percent-encodes every byte of the UTF-8 encoding
/// except ASCII letters, digits, `-`, `.`, `_` and `~`, with upper-case
/// hexadecimal digits. The contract states that rule exactly.
#[verifier::external_body]
fn url_encode(s: &str) -> (r: String)
    ensures
        r@ == url_encode_spec(s@),
{
    urlencoding::encode(s).into_owned()
}

/// Why no payment link can be made for a plan; both are answered with 400.
#[derive(Debug, Clone, Copy, PartialEq, Eq, Structural)]
pub enum PaymentLinkError {
    NoPaymentLink,
    NoProductId,
}

impl PaymentLinkError {
    /// The `error` field of the answer.
    pub fn message(&self) -> (r: &'static str)
        ensures
            r@ == match self {
                PaymentLinkError::NoPaymentLink => "No payment link configured for this plan"@,
                PaymentLinkError::NoProductId => "No product ID configured for this plan"@,
            },
    {
        match self {
            PaymentLinkError::NoPaymentLink => "No payment link configured for this plan",
            PaymentLinkError::NoProductId => "No product ID configured for this plan",
        }
    }
}

/// A configured, non-empty value.
pub open spec fn configured(v: Option<String>) -> bool {
    v matches Some(s) && s@.len() > 0
}

/// The payment link of a plan for a user: the plan's Mayar link with the
/// user's e-mail, the plan's product id, the user's display name and phone
/// number (empty when unknown) as query parameters, all but the product id
/// URL-encoded.
pub open spec fn payment_link_spec(
    link: Seq<char>,
    product_id: Seq<char>,
    email: Seq<char>,
    name: Seq<char>,
    phone: Option<Seq<char>>,
) -> Seq<char> {
    let ph = match phone {
        Some(p) => p,
        None => Seq::<char>::empty(),
    };
    link + "?email="@ + url_encode_spec(email) + "&productId="@ + product_id + "&name="@
        + url_encode_spec(name) + "&phone="@ + url_encode_spec(ph)
}

/// The payment link of a plan for a user; the plan must have a non-empty
/// payment link and a non-empty product id.
pub fn payment_link(
    link: &Option<String>,
    product_id: &Option<String>,
    email: &str,
    display_name: &str,
    phone: &Option<String>,
) -> (r: Result<String, PaymentLinkError>)
    ensures
        !configured(*link) ==> r == Err::<String, PaymentLinkError>(PaymentLinkError::NoPaymentLink),
        configured(*link) && !configured(*product_id) ==> r == Err::<String, PaymentLinkError>(
            PaymentLinkError::NoProductId,
        ),
        configured(*link) && configured(*product_id) ==> (r matches Ok(s) && s@ == payment_link_spec(
            link->0@,
            product_id->0@,
            email@,
            display_name@,
            match phone {
                Some(p) => Some(p@),
                None => None,
            },
        )),
{
    let l = match link {
        Some(l) if chars_of(l.as_str()).len() > 0 => l,
        _ => return Err(PaymentLinkError::NoPaymentLink),
    };
    let p = match product_id {
        Some(p) if chars_of(p.as_str()).len() > 0 => p,
        _ => return Err(PaymentLinkError::NoProductId),
    };
    let email_encoded = url_encode(email);
    let name_encoded = url_encode(display_name);
    let phone_encoded = match phone {
        Some(ph) => url_encode(ph.as_str()),
        None => url_encode(""),
    };
    let mut v = chars_of(l.as_str());
    push_str(&mut v, "?email=");
    push_str(&mut v, email_encoded.as_str());
    push_str(&mut v, "&productId=");
    push_str(&mut v, p.as_str());
    push_str(&mut v, "&name=");
    push_str(&mut v, name_encoded.as_str());
    push_str(&mut v, "&phone=");
    push_str(&mut v, phone_encoded.as_str());
    proof {
        reveal_strlit("");
    }
    Ok(string_from_chars(v.as_slice()))
}

// ---------------------------------------------------------------------------
// A user's licenses
// ---------------------------------------------------------------------------

/// The days left on a license at `now`: none for a lifetime license, the
/// whole days until it expires, 0 once it has expired.
pub open spec fn days_remaining_spec(expired_at: Option<Instant>, now: Instant) -> Option<int> {
    match expired_at {
        None => None,
        Some(e) => if is_after(e, now) {
            Some(whole_days_between(e, now))
        } else {
            Some(0)
        },
    }
}

/// The days left on a license at `now`.
pub fn days_remaining(expired_at: Option<Instant>, now: Instant) -> (r: Option<i64>)
    ensures
        match days_remaining_spec(expired_at, now) {
            None => r is None,
            Some(d) => r matches Some(x) && x == d,
        },
{
    match expired_at {
        None => None,
        Some(e) => {
            if later_than(e, now) {
                Some(days_between(e, now))
            } else {
                Some(0)
            }
        },
    }
}

/// A license as the list of a user's licenses shows it.
#[derive(Debug)]
pub struct LicenseCodeResponse {
    pub id: i32,
    pub license_code: String,
    pub user_id: Option<String>,
    pub plan_id: i32,
    pub plan_name: String,
    pub status: String,
    pub expired_at: Option<Instant>,
    pub days_remaining: Option<i64>,
}

/// A stored license, as far as the list reads it.
#[derive(Debug)]
pub struct LicenseRow {
    pub id: i32,
    pub license_code: String,
    pub user_id: Option<String>,
    pub plan_id: i32,
    pub status: LicenseStatus,
    pub expired_at: Option<Instant>,
}

/// The entry of one license in a user's list, with the name of its plan
/// (`None` when the plan could not be found, shown as `Unknown Plan`).
pub fn license_entry(row: LicenseRow, plan_name: Option<String>, now: Instant) -> (r:
    LicenseCodeResponse)
    ensures
        r.id == row.id,
        r.license_code == row.license_code,
        r.user_id == row.user_id,
        r.plan_id == row.plan_id,
        match plan_name {
            Some(n) => r.plan_name == n,
            None => r.plan_name@ == "Unknown Plan"@,
        },
        r.status@ == license_status_text(row.status),
        r.expired_at == row.expired_at,
        match days_remaining_spec(row.expired_at, now) {
            None => r.days_remaining is None,
            Some(d) => r.days_remaining matches Some(x) && x == d,
        },
{
    let name = match plan_name {
        Some(n) => n,
        None => "Unknown Plan".to_string(),
    };
    let days = days_remaining(row.expired_at, now);
    LicenseCodeResponse {
        id: row.id,
        license_code: row.license_code,
        user_id: row.user_id,
        plan_id: row.plan_id,
        plan_name: name,
        status: license_status_str(row.status).to_string(),
        expired_at: row.expired_at,
        days_remaining: days,
    }
}


// ---------------------------------------------------------------------------
// Verification and activation of a license code
// ---------------------------------------------------------------------------

/// The shortest and the longest license code, in bytes.
pub const LICENSE_CODE_MIN_BYTES: usize = 8;
pub const LICENSE_CODE_MAX_BYTES: usize = 64;

/// The plan used when no plan has the license's product id.
pub const FALLBACK_PLAN_ID: i32 = 5;

/// The duration of the plan assumed when the plan cannot be found.
pub const DEFAULT_PLAN_DAYS: i32 = 60;

/// A request to verify and activate a license code.
#[derive(Debug)]
pub struct VerifyLicenseRequest {
    pub license_code: String,
    pub product_id: String,
    pub email: String,
    pub name: String,
    pub phone: Option<String>,
}

/// A user as the activation needs them.
#[derive(Debug)]
pub struct LicenseUser {
    pub id: String,
    pub email: String,
    pub display_name: String,
}

/// A premium plan as the activation needs it.
#[derive(Debug)]
pub struct PlanInfo {
    pub id: i32,
    pub name: String,
    pub duration_days: i32,
    pub is_lifetime: bool,
}

/// A subscription as the answer shows it.
#[derive(Debug)]
pub struct SubscriptionInfo {
    pub id: i64,
    pub plan_id: i32,
    pub end_date: Option<Instant>,
}

/// What Mayar says of a license code.
#[derive(Debug)]
pub struct RemoteLicense {
    pub is_active: bool,
    /// The expiry as Mayar gives it (RFC 3339), if any.
    pub expired_at: Option<String>,
}

/// The license to store (the application adds Mayar's own fields).
#[derive(Debug)]
pub struct LicenseRecord {
    pub license_code: String,
    pub user_id: String,
    pub plan_id: i32,
    pub status: LicenseStatus,
    pub product_id: String,
    pub customer_name: String,
    pub customer_email: String,
    pub expired_at: Option<Instant>,
}

/// An activated license: the answer to a successful verification.
#[derive(Debug)]
pub struct ActivatedLicense {
    pub token: String,
    pub user: LicenseUser,
    pub subscription: SubscriptionInfo,
    pub plan_name: String,
    pub is_lifetime: bool,
    /// Whether this came from the mock verification.
    pub mock: bool,
}

impl ActivatedLicense {
    /// The `message` of the answer.
    pub fn message(&self) -> (r: &'static str)
        ensures
            r@ == if self.mock {
                "License activated successfully (MOCK)"@
            } else {
                "License activated successfully"@
            },
    {
        if self.mock {
            "License activated successfully (MOCK)"
        } else {
            "License activated successfully"
        }
    }
}

/// The answer to a verification.
#[derive(Debug)]
pub enum LicenseReply {
    /// 200 with the activated license.
    Success(ActivatedLicense),
    /// A failure: its HTTP status and the `error` field.
    Failure(u16, String),
}

/// Where a verification stands.
#[derive(Debug, Clone, Copy, PartialEq, Eq, Structural)]
pub enum LicenseStage {
    AwaitExisting,
    AwaitRemote,
    AwaitPlanId,
    AwaitUser,
    AwaitUserCreate,
    AwaitUserFetch,
    AwaitPlan,
    AwaitLicense,
    AwaitSubscription,
    AwaitSubscriptionDetails,
    AwaitToken,
    Finished,
}

/// A verification in progress and what it has learned so far.
#[derive(Debug)]
pub struct LicenseFlow {
    pub stage: LicenseStage,
    /// The mock verification: no format check, no check with Mayar, the
    /// fallback plan, no stored license.
    pub mock: bool,
    pub request: VerifyLicenseRequest,
    /// Mayar's expiry of the license.
    pub remote_expiry: Option<String>,
    pub plan_id: i32,
    pub user: Option<LicenseUser>,
    pub plan: Option<PlanInfo>,
    pub subscription: Option<SubscriptionInfo>,
}

/// The outcome of looking a user up by e-mail.
#[derive(Debug)]
pub enum UserLookup {
    Found(LicenseUser),
    NotFound,
    Failed(String),
}

/// What the application reports back; an error carries its text.
#[derive(Debug)]
pub enum LicenseEvent {
    /// Whether the code is stored already.
    LicenseLookedUp(Result<bool, String>),
    RemoteVerified(Result<RemoteLicense, String>),
    /// The id of the plan with the request's product id, if any.
    PlanFoundByProduct(Result<Option<i32>, String>),
    UserLookedUp(UserLookup),
    /// The id of the new user.
    UserCreated(Result<String, String>),
    UserFetched(Option<LicenseUser>),
    PlanLoaded(Result<Option<PlanInfo>, String>),
    LicenseStored(Result<i32, String>),
    SubscriptionCreated(Result<i64, String>),
    SubscriptionFetched(Result<Option<SubscriptionInfo>, String>),
    TokenGenerated(Result<String, String>),
}

/// What the application does next.
#[derive(Debug)]
pub enum LicenseAction {
    LookupLicense(String),
    /// Ask Mayar about the code (code, product id).
    VerifyRemote(String, String),
    FindPlanByProduct(String),
    LookupUser(String),
    /// Store a new user with a fresh id (e-mail, name, phone).
    CreateUser(String, String, Option<String>),
    FetchUser(String),
    LoadPlan(i32),
    StoreLicense(LicenseRecord),
    /// Subscribe a user to a plan.
    CreateSubscription(String, i32),
    FetchSubscription(i64),
    /// Issue a token for a user (id, e-mail, display name).
    GenerateToken(String, String, String),
    Reply(LicenseReply),
}

/// The instant an RFC 3339 text stands for, as seconds since the epoch and
/// nanoseconds, or `None` when it is not RFC 3339.
pub uninterp spec fn rfc3339_instant(s: Seq<char>) -> Option<(i64, u32)>;

/// `chrono::DateTime::parse_from_rfc3339`, converted to UTC. The result is
/// named by `rfc3339_instant`; the grammar of RFC 3339 is left to the name.
#[verifier::external_body]
fn parse_rfc3339(s: &str) -> (r: Option<(i64, u32)>)
    ensures
        r == rfc3339_instant(s@),
{
    match chrono::DateTime::parse_from_rfc3339(s) {
        Ok(d) => Some((d.timestamp(), d.timestamp_subsec_nanos())),
        Err(_) => None,
    }
}

/// The expiry a plan gives at `now`: none for a lifetime plan, else its
/// duration from now.
pub open spec fn plan_expiry(plan: PlanInfo, now: Instant) -> Option<Instant> {
    if plan.is_lifetime {
        None
    } else {
        Some(plus_days(now, plan.duration_days as int))
    }
}

/// The expiry of an activated license: Mayar's when it gives one that
/// parses, else the plan's.
pub open spec fn license_expiry(remote: Option<String>, plan: PlanInfo, now: Instant) -> Option<
    Instant,
> {
    match remote {
        Some(s) => match rfc3339_instant(s@) {
            Some(t) => Some(Instant { secs: t.0, nanos: t.1 }),
            None => plan_expiry(plan, now),
        },
        None => plan_expiry(plan, now),
    }
}

fn expiry_of(remote: &Option<String>, plan: &PlanInfo, now: Instant) -> (r: Option<Instant>)
    requires
        shiftable(now),
    ensures
        r == license_expiry(*remote, *plan, now),
{
    let parsed = match remote {
        Some(s) => parse_rfc3339(s.as_str()),
        None => None,
    };
    match parsed {
        Some(t) => Some(Instant { secs: t.0, nanos: t.1 }),
        None => {
            if plan.is_lifetime {
                None
            } else {
                Some(add_days(now, plan.duration_days))
            }
        },
    }
}

/// The plan used once it was looked up: the stored one, or a default
/// `Special Plan` of `DEFAULT_PLAN_DAYS` days with the flow's plan id.
pub open spec fn effective_plan(pl: PlanInfo, found: Option<PlanInfo>, plan_id: i32) -> bool {
    match found {
        Some(p) => pl == p,
        None => pl.id == plan_id && pl.name@ == "Special Plan"@ && pl.duration_days
            == DEFAULT_PLAN_DAYS && !pl.is_lifetime,
    }
}

/// The verification ended with a failure answer.
pub open spec fn fails(r: (LicenseFlow, LicenseAction), status: u16, msg: Seq<char>) -> bool {
    &&& r.0.stage == LicenseStage::Finished
    &&& r.1 matches LicenseAction::Reply(LicenseReply::Failure(st, m)) && st == status && m@ == msg
}

/// The flow moved to a stage, nothing else of it changed.
pub open spec fn moved(r: (LicenseFlow, LicenseAction), f: LicenseFlow, stage: LicenseStage) -> bool {
    r.0 == LicenseFlow { stage, ..f }
}

/// The event reports the outcome of the flow's pending action, and the flow
/// holds what its stage needs.
pub open spec fn license_fits(f: LicenseFlow, e: LicenseEvent) -> bool {
    match f.stage {
        LicenseStage::AwaitExisting => e is LicenseLookedUp,
        LicenseStage::AwaitRemote => e is RemoteVerified,
        LicenseStage::AwaitPlanId => e is PlanFoundByProduct,
        LicenseStage::AwaitUser => e is UserLookedUp,
        LicenseStage::AwaitUserCreate => e is UserCreated,
        LicenseStage::AwaitUserFetch => e is UserFetched,
        LicenseStage::AwaitPlan => e is PlanLoaded && f.user is Some,
        LicenseStage::AwaitLicense => e is LicenseStored && f.user is Some,
        LicenseStage::AwaitSubscription => e is SubscriptionCreated && f.user is Some,
        LicenseStage::AwaitSubscriptionDetails => e is SubscriptionFetched && f.user is Some
            && f.plan is Some,
        LicenseStage::AwaitToken => e is TokenGenerated && f.user is Some && f.plan is Some
            && f.subscription is Some,
        LicenseStage::Finished => false,
    }
}

/// One step of the verification of a license code.
///
/// A code already stored is refused; Mayar must know the code and report it
/// active. The plan is the one with the request's product id, else the
/// fallback plan. The user with the request's e-mail is used, or created
/// when there is none (the mock verification creates one on any lookup
/// failure). A plan that cannot be found is replaced by a default plan. The
/// license is stored as active, expiring when Mayar says or else after the
/// plan's duration (never for a lifetime plan); the user is subscribed to
/// the plan and gets a token. Each failure answers with its status and a
/// message that carries the underlying error.
pub open spec fn license_step_ok(
    f: LicenseFlow,
    e: LicenseEvent,
    now: Instant,
    r: (LicenseFlow, LicenseAction),
) -> bool {
    match e {
        LicenseEvent::LicenseLookedUp(res) => match res {
            Err(m) => fails(r, 500, "Error checking license: "@ + m@),
            Ok(stored) => if stored {
                fails(r, 400, "License code already used"@)
            } else {
                moved(r, f, LicenseStage::AwaitRemote) && r.1 == LicenseAction::VerifyRemote(
                    f.request.license_code,
                    f.request.product_id,
                )
            },
        },
        LicenseEvent::RemoteVerified(res) => match res {
            Err(m) => fails(r, 400, "License verification failed: "@ + m@),
            Ok(rl) => if !rl.is_active {
                fails(r, 400, "License is not active"@)
            } else {
                r.0 == LicenseFlow {
                    stage: LicenseStage::AwaitPlanId,
                    remote_expiry: rl.expired_at,
                    ..f
                } && r.1 == LicenseAction::FindPlanByProduct(f.request.product_id)
            },
        },
        LicenseEvent::PlanFoundByProduct(res) => match res {
            Err(m) => fails(r, 500, "Error getting plan: "@ + m@),
            Ok(found) => r.0 == LicenseFlow {
                stage: LicenseStage::AwaitUser,
                plan_id: match found {
                    Some(id) => id,
                    None => FALLBACK_PLAN_ID,
                },
                ..f
            } && r.1 == LicenseAction::LookupUser(f.request.email),
        },
        LicenseEvent::UserLookedUp(l) => match l {
            UserLookup::Found(u) => r.0 == LicenseFlow {
                stage: LicenseStage::AwaitPlan,
                user: Some(u),
                ..f
            } && r.1 == LicenseAction::LoadPlan(f.plan_id),
            UserLookup::NotFound => moved(r, f, LicenseStage::AwaitUserCreate) && r.1
                == LicenseAction::CreateUser(f.request.email, f.request.name, f.request.phone),
            UserLookup::Failed(m) => if f.mock {
                moved(r, f, LicenseStage::AwaitUserCreate) && r.1 == LicenseAction::CreateUser(
                    f.request.email,
                    f.request.name,
                    f.request.phone,
                )
            } else {
                fails(r, 500, "Error getting user: "@ + m@)
            },
        },
        LicenseEvent::UserCreated(res) => match res {
            Err(m) => fails(r, 500, "Failed to create user account: "@ + m@),
            Ok(id) => moved(r, f, LicenseStage::AwaitUserFetch) && r.1 == LicenseAction::FetchUser(
                id,
            ),
        },
        LicenseEvent::UserFetched(u) => match u {
            None => fails(r, 500, "Failed to create user"@),
            Some(u) => r.0 == LicenseFlow { stage: LicenseStage::AwaitPlan, user: Some(u), ..f }
                && r.1 == LicenseAction::LoadPlan(f.plan_id),
        },
        LicenseEvent::PlanLoaded(res) => match res {
            Err(m) => fails(r, 500, "Error getting plan: "@ + m@),
            Ok(found) => {
                let u = f.user->0;
                &&& r.0.plan matches Some(pl) && effective_plan(pl, found, f.plan_id)
                &&& if f.mock {
                    r.0 == LicenseFlow {
                        stage: LicenseStage::AwaitSubscription,
                        plan: r.0.plan,
                        ..f
                    } && r.1 == LicenseAction::CreateSubscription(u.id, f.plan_id)
                } else {
                    r.0 == LicenseFlow { stage: LicenseStage::AwaitLicense, plan: r.0.plan, ..f }
                        && r.1 == LicenseAction::StoreLicense(
                        LicenseRecord {
                            license_code: f.request.license_code,
                            user_id: u.id,
                            plan_id: f.plan_id,
                            status: LicenseStatus::Active,
                            product_id: f.request.product_id,
                            customer_name: u.display_name,
                            customer_email: u.email,
                            expired_at: license_expiry(f.remote_expiry, r.0.plan->0, now),
                        },
                    )
                }
            },
        },
        LicenseEvent::LicenseStored(res) => match res {
            Err(m) => fails(r, 500, "Failed to save license: "@ + m@),
            Ok(_) => moved(r, f, LicenseStage::AwaitSubscription) && r.1
                == LicenseAction::CreateSubscription(f.user->0.id, f.plan_id),
        },
        LicenseEvent::SubscriptionCreated(res) => match res {
            Err(m) => fails(r, 500, "Failed to create subscription: "@ + m@),
            Ok(id) => moved(r, f, LicenseStage::AwaitSubscriptionDetails) && r.1
                == LicenseAction::FetchSubscription(id),
        },
        LicenseEvent::SubscriptionFetched(res) => match res {
            Err(m) => fails(r, 500, "Failed to get subscription details: "@ + m@),
            Ok(None) => fails(r, 500, "Failed to get subscription details"@),
            Ok(Some(sub)) => r.0 == LicenseFlow {
                stage: LicenseStage::AwaitToken,
                subscription: Some(sub),
                ..f
            } && r.1 == LicenseAction::GenerateToken(
                f.user->0.id,
                f.user->0.email,
                f.user->0.display_name,
            ),
        },
        LicenseEvent::TokenGenerated(res) => match res {
            Err(m) => fails(r, 500, "Failed to generate token: "@ + m@),
            Ok(t) => r.0.stage == LicenseStage::Finished && r.1 == LicenseAction::Reply(
                LicenseReply::Success(
                    ActivatedLicense {
                        token: t,
                        user: f.user->0,
                        subscription: f.subscription->0,
                        plan_name: f.plan->0.name,
                        is_lifetime: f.plan->0.is_lifetime,
                        mock: f.mock,
                    },
                ),
            ),
        },
    }
}

fn fail(f: LicenseFlow, status: u16, msg: String) -> (r: (LicenseFlow, LicenseAction))
    ensures
        r.0.stage == LicenseStage::Finished,
        r.1 matches LicenseAction::Reply(LicenseReply::Failure(st, m)) && st == status && m == msg,
{
    (
        LicenseFlow { stage: LicenseStage::Finished, ..f },
        LicenseAction::Reply(LicenseReply::Failure(status, msg)),
    )
}

fn clone_user(u: &LicenseUser) -> (r: LicenseUser)
    ensures
        r == *u,
{
    LicenseUser { id: u.id.clone(), email: u.email.clone(), display_name: u.display_name.clone() }
}

fn clone_phone(p: &Option<String>) -> (r: Option<String>)
    ensures
        r == *p,
{
    match p {
        Some(s) => Some(s.clone()),
        None => None,
    }
}


/// One step of the verification of a license code: the flow after the
/// event, and what the application does next.
pub fn license_step(f: LicenseFlow, e: LicenseEvent, now: Instant) -> (r: (LicenseFlow, LicenseAction))
    requires
        license_fits(f, e),
        shiftable(now),
    ensures
        license_step_ok(f, e, now, r),
{
    match e {
        LicenseEvent::LicenseLookedUp(res) => match res {
            Err(m) => fail(f, 500, concat("Error checking license: ", m.as_str())),
            Ok(stored) => {
                if stored {
                    fail(f, 400, "License code already used".to_string())
                } else {
                    let code = f.request.license_code.clone();
                    let product = f.request.product_id.clone();
                    (
                        LicenseFlow { stage: LicenseStage::AwaitRemote, ..f },
                        LicenseAction::VerifyRemote(code, product),
                    )
                }
            },
        },
        LicenseEvent::RemoteVerified(res) => match res {
            Err(m) => fail(f, 400, concat("License verification failed: ", m.as_str())),
            Ok(rl) => {
                if !rl.is_active {
                    fail(f, 400, "License is not active".to_string())
                } else {
                    let product = f.request.product_id.clone();
                    (
                        LicenseFlow {
                            stage: LicenseStage::AwaitPlanId,
                            remote_expiry: rl.expired_at,
                            ..f
                        },
                        LicenseAction::FindPlanByProduct(product),
                    )
                }
            },
        },
        LicenseEvent::PlanFoundByProduct(res) => match res {
            Err(m) => fail(f, 500, concat("Error getting plan: ", m.as_str())),
            Ok(found) => {
                let plan_id = match found {
                    Some(id) => id,
                    None => FALLBACK_PLAN_ID,
                };
                let email = f.request.email.clone();
                (
                    LicenseFlow { stage: LicenseStage::AwaitUser, plan_id, ..f },
                    LicenseAction::LookupUser(email),
                )
            },
        },
        LicenseEvent::UserLookedUp(l) => {
            let create = match &l {
                UserLookup::Found(_) => false,
                UserLookup::NotFound => true,
                UserLookup::Failed(_) => f.mock,
            };
            if create {
                let email = f.request.email.clone();
                let name = f.request.name.clone();
                let phone = clone_phone(&f.request.phone);
                (
                    LicenseFlow { stage: LicenseStage::AwaitUserCreate, ..f },
                    LicenseAction::CreateUser(email, name, phone),
                )
            } else {
                match l {
                    UserLookup::Found(u) => {
                        let plan_id = f.plan_id;
                        (
                            LicenseFlow { stage: LicenseStage::AwaitPlan, user: Some(u), ..f },
                            LicenseAction::LoadPlan(plan_id),
                        )
                    },
                    UserLookup::Failed(m) => fail(f, 500, concat("Error getting user: ", m.as_str())),
                    UserLookup::NotFound => fail(f, 500, String::new()),
                }
            }
        },
        LicenseEvent::UserCreated(res) => match res {
            Err(m) => fail(f, 500, concat("Failed to create user account: ", m.as_str())),
            Ok(id) => (
                LicenseFlow { stage: LicenseStage::AwaitUserFetch, ..f },
                LicenseAction::FetchUser(id),
            ),
        },
        LicenseEvent::UserFetched(u) => match u {
            None => fail(f, 500, "Failed to create user".to_string()),
            Some(u) => {
                let plan_id = f.plan_id;
                (
                    LicenseFlow { stage: LicenseStage::AwaitPlan, user: Some(u), ..f },
                    LicenseAction::LoadPlan(plan_id),
                )
            },
        },
        LicenseEvent::PlanLoaded(res) => match res {
            Err(m) => fail(f, 500, concat("Error getting plan: ", m.as_str())),
            Ok(found) => {
                let pl = match found {
                    Some(p) => p,
                    None => PlanInfo {
                        id: f.plan_id,
                        name: "Special Plan".to_string(),
                        duration_days: DEFAULT_PLAN_DAYS,
                        is_lifetime: false,
                    },
                };
                let u = match &f.user {
                    Some(u) => clone_user(u),
                    None => LicenseUser {
                        id: String::new(),
                        email: String::new(),
                        display_name: String::new(),
                    },
                };
                let plan_id = f.plan_id;
                if f.mock {
                    (
                        LicenseFlow { stage: LicenseStage::AwaitSubscription, plan: Some(pl), ..f },
                        LicenseAction::CreateSubscription(u.id, plan_id),
                    )
                } else {
                    let expired_at = expiry_of(&f.remote_expiry, &pl, now);
                    let record = LicenseRecord {
                        license_code: f.request.license_code.clone(),
                        user_id: u.id,
                        plan_id,
                        status: LicenseStatus::Active,
                        product_id: f.request.product_id.clone(),
                        customer_name: u.display_name,
                        customer_email: u.email,
                        expired_at,
                    };
                    (
                        LicenseFlow { stage: LicenseStage::AwaitLicense, plan: Some(pl), ..f },
                        LicenseAction::StoreLicense(record),
                    )
                }
            },
        },
        LicenseEvent::LicenseStored(res) => match res {
            Err(m) => fail(f, 500, concat("Failed to save license: ", m.as_str())),
            Ok(_) => {
                let user_id = match &f.user {
                    Some(u) => u.id.clone(),
                    None => String::new(),
                };
                let plan_id = f.plan_id;
                (
                    LicenseFlow { stage: LicenseStage::AwaitSubscription, ..f },
                    LicenseAction::CreateSubscription(user_id, plan_id),
                )
            },
        },
        LicenseEvent::SubscriptionCreated(res) => match res {
            Err(m) => fail(f, 500, concat("Failed to create subscription: ", m.as_str())),
            Ok(id) => (
                LicenseFlow { stage: LicenseStage::AwaitSubscriptionDetails, ..f },
                LicenseAction::FetchSubscription(id),
            ),
        },
        LicenseEvent::SubscriptionFetched(res) => match res {
            Err(m) => fail(f, 500, concat("Failed to get subscription details: ", m.as_str())),
            Ok(None) => fail(f, 500, "Failed to get subscription details".to_string()),
            Ok(Some(sub)) => {
                let u = match &f.user {
                    Some(u) => clone_user(u),
                    None => LicenseUser {
                        id: String::new(),
                        email: String::new(),
                        display_name: String::new(),
                    },
                };
                (
                    LicenseFlow { stage: LicenseStage::AwaitToken, subscription: Some(sub), ..f },
                    LicenseAction::GenerateToken(u.id, u.email, u.display_name),
                )
            },
        },
        LicenseEvent::TokenGenerated(res) => match res {
            Err(m) => fail(f, 500, concat("Failed to generate token: ", m.as_str())),
            Ok(t) => {
                let LicenseFlow { stage, mock, request, remote_expiry, plan_id, user, plan, subscription } = f;
                match (user, plan, subscription) {
                    (Some(u), Some(p), Some(s)) => {
                        let PlanInfo { id, name, duration_days, is_lifetime } = p;
                        let activated = ActivatedLicense {
                            token: t,
                            user: u,
                            subscription: s,
                            plan_name: name,
                            is_lifetime,
                            mock,
                        };
                        (
                            LicenseFlow {
                                stage: LicenseStage::Finished,
                                mock,
                                request,
                                remote_expiry,
                                plan_id,
                                user: None,
                                plan: None,
                                subscription: None,
                            },
                            LicenseAction::Reply(LicenseReply::Success(activated)),
                        )
                    },
                    _ => (
                        LicenseFlow {
                            stage: LicenseStage::Finished,
                            mock,
                            request,
                            remote_expiry,
                            plan_id,
                            user: None,
                            plan: None,
                            subscription: None,
                        },
                        LicenseAction::Reply(LicenseReply::Failure(500, String::new())),
                    ),
                }
            },
        },
    }
}

/// Whether a license code has an acceptable length: 8 to 64 bytes.
pub open spec fn license_code_ok(code: Seq<char>) -> bool {
    LICENSE_CODE_MIN_BYTES <= str_len(code) <= LICENSE_CODE_MAX_BYTES
}

/// Starts the verification of a license code: a code of the wrong length is
/// refused at once; otherwise the first action looks the code up among the
/// stored ones.
pub fn begin_license_verification(request: VerifyLicenseRequest) -> (r: (LicenseFlow, LicenseAction))
    ensures
        !license_code_ok(request.license_code@) ==> fails(r, 400, "Invalid license code format"@),
        license_code_ok(request.license_code@) ==> {
            &&& r.0.stage == LicenseStage::AwaitExisting
            &&& !r.0.mock
            &&& r.0.request == request
            &&& r.0.remote_expiry is None
            &&& r.0.user is None && r.0.plan is None && r.0.subscription is None
            &&& r.1 == LicenseAction::LookupLicense(request.license_code)
        },
{
    let n = byte_len(request.license_code.as_str());
    let code = request.license_code.clone();
    let f = LicenseFlow {
        stage: LicenseStage::AwaitExisting,
        mock: false,
        request,
        remote_expiry: None,
        plan_id: FALLBACK_PLAN_ID,
        user: None,
        plan: None,
        subscription: None,
    };
    if n < LICENSE_CODE_MIN_BYTES || n > LICENSE_CODE_MAX_BYTES {
        fail(f, 400, "Invalid license code format".to_string())
    } else {
        (f, LicenseAction::LookupLicense(code))
    }
}

/// Starts the mock verification: no check of the code; the first action
/// looks the user up, and the fallback plan is used.
pub fn begin_mock_license_verification(request: VerifyLicenseRequest) -> (r: (LicenseFlow, LicenseAction))
    ensures
        r.0.stage == LicenseStage::AwaitUser,
        r.0.mock,
        r.0.request == request,
        r.0.plan_id == FALLBACK_PLAN_ID,
        r.0.remote_expiry is None,
        r.0.user is None && r.0.plan is None && r.0.subscription is None,
        r.1 == LicenseAction::LookupUser(request.email),
{
    let email = request.email.clone();
    (
        LicenseFlow {
            stage: LicenseStage::AwaitUser,
            mock: true,
            request,
            remote_expiry: None,
            plan_id: FALLBACK_PLAN_ID,
            user: None,
            plan: None,
            subscription: None,
        },
        LicenseAction::LookupUser(email),
    )
}

} // verus!
