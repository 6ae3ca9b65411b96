//! Payments through Mayar: creation, the webhook Mayar calls, status checks,
//! and the phone number a payment needs.
use vstd::prelude::*;
use crate::text::{
    chars_of, concat, has_prefix, slice_chars, starts_with, string_from_chars, trim, trim_spec,
    str_equal, to_uppercase, uppercase_of, all_ascii, ascii_upper, push_str, push_signed_decimal,
    signed_decimal_spec,
};
use crate::time::Instant;
use base64::Engine;

verus! {

/// The body of an error answer.
#[derive(Debug)]
pub struct ErrorResponse {
    pub error: String,
}

/// The answer to the check of a user's phone number before a payment.
#[derive(Debug)]
pub struct PhoneNumberCheckResponse {
    pub has_phone: bool,
    pub phone_number: Option<String>,
    pub user_id: String,
    pub can_proceed: bool,
}

// ---------------------------------------------------------------------------
// Reading the payload of a bearer token
// ---------------------------------------------------------------------------

/// `s` with every leading copy of `p` removed (`str::trim_start_matches`).
pub open spec fn trim_start_matches_spec(s: Seq<char>, p: Seq<char>) -> Seq<char>
    decreases s.len(),
{
    if p.len() > 0 && has_prefix(s, p) {
        trim_start_matches_spec(s.skip(p.len() as int), p)
    } else {
        s
    }
}

/// `s` with every leading copy of a non-empty `p` removed.
pub fn trim_start_matches(s: &[char], p: &[char]) -> (r: Vec<char>)
    requires
        p@.len() > 0,
    ensures
        r@ == trim_start_matches_spec(s@, p@),
{
    let mut i: usize = 0;
    assert(s@.skip(0) =~= s@);
    while p.len() <= s.len() - i && starts_with(&slice_chars(s, i, s.len()), p)
        invariant
            i <= s@.len(),
            p@.len() > 0,
            trim_start_matches_spec(s@, p@) == trim_start_matches_spec(s@.skip(i as int), p@),
        decreases s@.len() - i,
    {
        proof {
            assert(s@.subrange(i as int, s@.len() as int) =~= s@.skip(i as int));
            assert(s@.skip(i as int).skip(p@.len() as int) =~= s@.skip(i + p@.len()));
        }
        i = i + p.len();
    }
    proof {
        assert(s@.subrange(i as int, s@.len() as int) =~= s@.skip(i as int));
        if !(p@.len() <= s@.len() - i) {
            assert(!has_prefix(s@.skip(i as int), p@));
        }
    }
    slice_chars(s, i, s.len())
}

/// The position of the first `c` in `s`, or its length when there is none.
pub open spec fn first_index(s: Seq<char>, c: char) -> int
    decreases s.len(),
{
    if s.len() == 0 {
        0
    } else if s[0] == c {
        0
    } else {
        1 + first_index(s.drop_first(), c)
    }
}

proof fn lemma_first_index(s: Seq<char>, c: char)
    ensures
        0 <= first_index(s, c) <= s.len(),
        first_index(s, c) < s.len() ==> s[first_index(s, c)] == c,
        forall|j: int| 0 <= j < first_index(s, c) ==> s[j] != c,
    decreases s.len(),
{
    if s.len() > 0 && s[0] != c {
        lemma_first_index(s.drop_first(), c);
        assert forall|j: int| 0 <= j < first_index(s, c) implies s[j] != c by {
            if j > 0 {
                assert(s[j] == s.drop_first()[j - 1]);
            }
        }
    }
}

fn find_char(s: &[char], c: char) -> (r: usize)
    ensures
        r == first_index(s@, c),
{
    proof {
        lemma_first_index(s@, c);
    }
    let mut i: usize = 0;
    while i < s.len() && s[i] != c
        invariant
            i <= s@.len(),
            forall|j: int| 0 <= j < i ==> s@[j] != c,
            0 <= first_index(s@, c) <= s@.len(),
            first_index(s@, c) < s@.len() ==> s@[first_index(s@, c)] == c,
            forall|j: int| 0 <= j < first_index(s@, c) ==> s@[j] != c,
        decreases s@.len() - i,
    {
        i = i + 1;
    }
    i
}

/// The second `.`-separated part of a token (`split('.')` and its element 1),
/// if the token has a `.`.
pub open spec fn second_segment(token: Seq<char>) -> Option<Seq<char>> {
    let i = first_index(token, '.');
    if i >= token.len() {
        None
    } else {
        let rest = token.skip(i + 1);
        Some(rest.take(first_index(rest, '.')))
    }
}

fn second_segment_of(token: &[char]) -> (r: Option<Vec<char>>)
    ensures
        match second_segment(token@) {
            None => r is None,
            Some(seg) => r matches Some(v) && v@ == seg,
        },
{
    let i = find_char(token, '.');
    if i >= token.len() {
        return None;
    }
    let rest = slice_chars(token, i + 1, token.len());
    assert(rest@ =~= token@.skip(i + 1));
    let j = find_char(rest.as_slice(), '.');
    proof {
        lemma_first_index(rest@, '.');
    }
    let seg = slice_chars(rest.as_slice(), 0, j);
    assert(seg@ =~= rest@.take(j as int));
    Some(seg)
}

/// The token of an `Authorization` header text: after `Bearer ` (every
/// leading copy removed) and trimmed; `None` when the text does not start
/// with `Bearer `.
pub open spec fn bearer_token_text(header: Seq<char>) -> Option<Seq<char>> {
    if has_prefix(header, "Bearer "@) {
        Some(trim_spec(trim_start_matches_spec(header, "Bearer "@)))
    } else {
        None
    }
}

fn bearer_token_of(header: &str) -> (r: Option<Vec<char>>)
    ensures
        match bearer_token_text(header@) {
            None => r is None,
            Some(t) => r matches Some(v) && v@ == t,
        },
{
    let h = chars_of(header);
    let b = chars_of("Bearer ");
    proof {
        reveal_strlit("Bearer ");
    }
    if !starts_with(h.as_slice(), b.as_slice()) {
        return None;
    }
    let stripped = trim_start_matches(h.as_slice(), b.as_slice());
    Some(trim(stripped.as_slice()))
}

/// The bytes a URL-safe base64 text without padding decodes to, or `None`
/// when it is not such a text.
pub uninterp spec fn base64_url_decoded(s: Seq<char>) -> Option<Seq<u8>>;

/// `base64::engine::general_purpose::URL_SAFE_NO_PAD.decode`. The result is
/// named by `base64_url_decoded`; the alphabet and the rules on trailing bits
/// and padding are left to the name.
#[verifier::external_body]
fn base64_url_decode(s: &str) -> (r: Option<Vec<u8>>)
    ensures
        match base64_url_decoded(s@) {
            None => r is None,
            Some(b) => r matches Some(v) && v@ == b,
        },
{
    base64::engine::general_purpose::URL_SAFE_NO_PAD.decode(s).ok()
}

/// `String::from_utf8`: a string exactly when the bytes are valid UTF-8, with
/// the characters they encode.
#[verifier::external_body]
fn utf8_string(bytes: Vec<u8>) -> (r: Option<String>)
    ensures
        r is Some <==> vstd::utf8::valid_utf8(bytes@),
        r matches Some(s) ==> s@ == vstd::utf8::decode_utf8(bytes@),
{
    String::from_utf8(bytes).ok()
}

/// Whether a text parses as JSON (`serde_json::from_str::<Value>`).
pub uninterp spec fn json_parses(text: Seq<char>) -> bool;

/// The string value of a key of the JSON object a text holds, or `None` when
/// the text is no JSON, not an object, lacks the key or holds no string
/// there.
pub uninterp spec fn json_str_field(text: Seq<char>, key: Seq<char>) -> Option<Seq<char>>;

/// `serde_json::from_str::<serde_json::Value>` succeeds. The answer is named
/// by `json_parses`; the JSON grammar is left to the name.
#[verifier::external_body]
fn json_is_valid(text: &str) -> (r: bool)
    ensures
        r == json_parses(text@),
{
    serde_json::from_str::<serde_json::Value>(text).is_ok()
}

/// `serde_json::from_str::<serde_json::Value>`, then `Value::get` and
/// `Value::as_str`: the string at `key`. The result is named by
/// `json_str_field`; a text that does not parse has no field.
#[verifier::external_body]
pub(crate) fn json_field(text: &str, key: &str) -> (r: Option<String>)
    ensures
        match json_str_field(text@, key@) {
            None => r is None,
            Some(v) => r matches Some(s) && s@ == v,
        },
        !json_parses(text@) ==> r is None,
{
    match serde_json::from_str::<serde_json::Value>(text) {
        Ok(v) => v.get(key).and_then(|x| x.as_str()).map(|x| x.to_string()),
        Err(_) => None,
    }
}

/// The payload of a bearer token, as far as it could be read.
#[derive(Debug, Clone, Copy, PartialEq, Eq, Structural)]
pub enum TokenPayloadError {
    /// The header does not start with `Bearer `.
    NotBearer,
    /// The token has no second `.`-separated part.
    NoPayloadPart,
    /// That part is not URL-safe base64.
    NotBase64,
    /// It does not decode to UTF-8 text.
    NotUtf8,
}

/// The JSON text of a bearer token's payload: the token's second part,
/// base64-decoded as UTF-8 text.
pub open spec fn token_payload_spec(header: Seq<char>) -> Result<Seq<char>, TokenPayloadError> {
    match bearer_token_text(header) {
        None => Err(TokenPayloadError::NotBearer),
        Some(t) => match second_segment(t) {
            None => Err(TokenPayloadError::NoPayloadPart),
            Some(seg) => match base64_url_decoded(seg) {
                None => Err(TokenPayloadError::NotBase64),
                Some(bytes) => if vstd::utf8::valid_utf8(bytes) {
                    Ok(vstd::utf8::decode_utf8(bytes))
                } else {
                    Err(TokenPayloadError::NotUtf8)
                },
            },
        },
    }
}

/// The JSON text of the payload of the bearer token in an `Authorization`
/// header (the signature is not checked).
pub fn token_payload(header: &str) -> (r: Result<String, TokenPayloadError>)
    ensures
        match token_payload_spec(header@) {
            Err(e) => r == Err::<String, TokenPayloadError>(e),
            Ok(p) => r matches Ok(s) && s@ == p,
        },
{
    let token = match bearer_token_of(header) {
        None => return Err(TokenPayloadError::NotBearer),
        Some(t) => t,
    };
    let seg = match second_segment_of(token.as_slice()) {
        None => return Err(TokenPayloadError::NoPayloadPart),
        Some(s) => s,
    };
    let seg_text = string_from_chars(seg.as_slice());
    let bytes = match base64_url_decode(seg_text.as_str()) {
        None => return Err(TokenPayloadError::NotBase64),
        Some(b) => b,
    };
    match utf8_string(bytes) {
        None => Err(TokenPayloadError::NotUtf8),
        Some(s) => Ok(s),
    }
}

/// The e-mail, name and phone of a payer as the token's payload gives them,
/// each with its default: `user_<id>@example.com`, the user id, and
/// `083120827585`.
pub open spec fn token_user_info_spec(header: Option<Seq<char>>, user_id: Seq<char>) -> (
    Seq<char>,
    Seq<char>,
    Seq<char>,
) {
    let email0 = "user_"@ + user_id + "@example.com"@;
    let phone0 = "083120827585"@;
    match header {
        None => (email0, user_id, phone0),
        Some(h) => match token_payload_spec(h) {
            Err(_) => (email0, user_id, phone0),
            Ok(p) => (
                match json_str_field(p, "email"@) {
                    Some(e) => e,
                    None => email0,
                },
                match json_str_field(p, "name"@) {
                    Some(n) => n,
                    None => user_id,
                },
                match json_str_field(p, "phone"@) {
                    Some(ph) => ph,
                    None => phone0,
                },
            ),
        },
    }
}

/// The e-mail, name and phone of a payer, read from the payload of the bearer
/// token in the `Authorization` header (its text, if the request has one),
/// with defaults for whatever it lacks.
pub fn extract_user_info_from_token(auth_header: Option<&str>, user_id: &str) -> (r: (
    String,
    String,
    String,
))
    ensures
        r.0@ == token_user_info_spec(
            match auth_header {
                Some(h) => Some(h@),
                None => None,
            },
            user_id@,
        ).0,
        r.1@ == token_user_info_spec(
            match auth_header {
                Some(h) => Some(h@),
                None => None,
            },
            user_id@,
        ).1,
        r.2@ == token_user_info_spec(
            match auth_header {
                Some(h) => Some(h@),
                None => None,
            },
            user_id@,
        ).2,
{
    let mut e = chars_of("user_");
    push_str(&mut e, user_id);
    push_str(&mut e, "@example.com");
    let mut email = string_from_chars(e.as_slice());
    let mut name = user_id.to_string();
    let mut phone = "083120827585".to_string();
    proof {
        reveal_strlit("083120827585");
    }
    if let Some(h) = auth_header {
        if let Ok(payload) = token_payload(h) {
            if let Some(x) = json_field(payload.as_str(), "email") {
                email = x;
            }
            if let Some(x) = json_field(payload.as_str(), "name") {
                name = x;
            }
            if let Some(x) = json_field(payload.as_str(), "phone") {
                phone = x;
            }
        }
    }
    (email, name, phone)
}


// ---------------------------------------------------------------------------
// Payment status
// ---------------------------------------------------------------------------

/// The status of a payment.
#[derive(Debug, Clone, Copy, PartialEq, Eq, Structural)]
pub enum PaymentStatus {
    Pending,
    Completed,
    Failed,
    Expired,
}

/// The name of a status as answers show it (its `Debug` form).
pub open spec fn payment_status_name(s: PaymentStatus) -> Seq<char> {
    match s {
        PaymentStatus::Pending => "Pending"@,
        PaymentStatus::Completed => "Completed"@,
        PaymentStatus::Failed => "Failed"@,
        PaymentStatus::Expired => "Expired"@,
    }
}

/// The name of a status as answers show it.
pub fn payment_status_str(s: PaymentStatus) -> (r: &'static str)
    ensures
        r@ == payment_status_name(s),
{
    match s {
        PaymentStatus::Pending => "Pending",
        PaymentStatus::Completed => "Completed",
        PaymentStatus::Failed => "Failed",
        PaymentStatus::Expired => "Expired",
    }
}

/// The status a webhook's status text stands for, compared in upper case:
/// `SUCCESS` is completed, `EXPIRED` expired, `FAILED` failed, anything
/// else pending.
pub open spec fn webhook_status_of(text: Seq<char>) -> PaymentStatus {
    let u = uppercase_of(text);
    if u == "SUCCESS"@ {
        PaymentStatus::Completed
    } else if u == "EXPIRED"@ {
        PaymentStatus::Expired
    } else if u == "FAILED"@ {
        PaymentStatus::Failed
    } else {
        PaymentStatus::Pending
    }
}

/// The status a webhook's status text stands for.
pub fn webhook_status(text: &str) -> (r: PaymentStatus)
    ensures
        r == webhook_status_of(text@),
{
    let u = to_uppercase(text);
    if str_equal(u.as_str(), "SUCCESS") {
        PaymentStatus::Completed
    } else if str_equal(u.as_str(), "EXPIRED") {
        PaymentStatus::Expired
    } else if str_equal(u.as_str(), "FAILED") {
        PaymentStatus::Failed
    } else {
        PaymentStatus::Pending
    }
}

// ---------------------------------------------------------------------------
// Phone numbers
// ---------------------------------------------------------------------------

/// A customer's mobile number without its leading `0`, `+62` or `62`.
pub open spec fn local_phone(p: Seq<char>) -> Seq<char> {
    if has_prefix(p, "0"@) {
        p.skip(1)
    } else if has_prefix(p, "+62"@) {
        p.skip(3)
    } else if has_prefix(p, "62"@) {
        p.skip(2)
    } else {
        p
    }
}

/// A customer's mobile number without its leading `0`, `+62` or `62`.
pub fn normalize_phone(p: &str) -> (r: String)
    ensures
        r@ == local_phone(p@),
{
    let v = chars_of(p);
    let zero = chars_of("0");
    let plus = chars_of("+62");
    let cc = chars_of("62");
    let n = v.len();
    if starts_with(v.as_slice(), zero.as_slice()) {
        proof {
            reveal_strlit("0");
        }
        string_from_chars(slice_chars(v.as_slice(), 1, n).as_slice())
    } else if starts_with(v.as_slice(), plus.as_slice()) {
        proof {
            reveal_strlit("+62");
        }
        string_from_chars(slice_chars(v.as_slice(), 3, n).as_slice())
    } else if starts_with(v.as_slice(), cc.as_slice()) {
        proof {
            reveal_strlit("62");
        }
        string_from_chars(slice_chars(v.as_slice(), 2, n).as_slice())
    } else {
        string_from_chars(v.as_slice())
    }
}

// ---------------------------------------------------------------------------
// The webhook Mayar calls
// ---------------------------------------------------------------------------

/// What the webhook reads of Mayar's JSON payload: the string values of
/// `event` and of `data`'s `transactionId`, `transaction_id`, `id`,
/// `customerMobile`, `status` and `paymentMethod` (each `None` when absent or
/// not a string).
#[derive(Debug)]
pub struct WebhookPayload {
    pub event: Option<String>,
    pub transaction_id: Option<String>,
    pub transaction_id_alt: Option<String>,
    pub mayar_id: Option<String>,
    pub customer_mobile: Option<String>,
    pub status: Option<String>,
    pub payment_method: Option<String>,
}

/// A text, or `unknown` when there is none.
pub open spec fn or_unknown(v: Option<String>) -> Seq<char> {
    match v {
        Some(s) => s@,
        None => "unknown"@,
    }
}

fn text_or(v: &Option<String>, default: &str) -> (r: String)
    ensures
        r@ == match v {
            Some(s) => s@,
            None => default@,
        },
{
    match v {
        Some(s) => s.clone(),
        None => default.to_string(),
    }
}

/// The event of a payload (`unknown` when absent).
pub open spec fn webhook_event(p: WebhookPayload) -> Seq<char> {
    or_unknown(p.event)
}

/// The transaction id of a payload: `transactionId`, else `transaction_id`,
/// else `unknown`.
pub open spec fn webhook_transaction_id(p: WebhookPayload) -> Seq<char> {
    match p.transaction_id {
        Some(t) => t@,
        None => or_unknown(p.transaction_id_alt),
    }
}

/// A transaction as the webhook needs it.
#[derive(Debug)]
pub struct TransactionInfo {
    pub user_id: String,
    pub plan_id: i32,
    pub status: PaymentStatus,
}

/// Where the processing of a webhook stands.
#[derive(Debug, Clone, Copy, PartialEq, Eq, Structural)]
pub enum WebhookStage {
    AwaitByTransactionId,
    AwaitByMayarId,
    AwaitUserByPhone,
    AwaitStatusUpdate,
    AwaitSubscription,
    Finished,
}

/// A webhook being processed.
#[derive(Debug)]
pub struct WebhookFlow {
    pub stage: WebhookStage,
    pub payload: WebhookPayload,
    /// The transaction id the payload names (or `unknown`).
    pub transaction_id: String,
    /// The status the payload gives the payment.
    pub status: PaymentStatus,
    /// The local form of the payload's mobile number, when it is looked up.
    pub phone: Option<String>,
    pub transaction: Option<TransactionInfo>,
}

/// The answer to a webhook.
#[derive(Debug)]
pub enum WebhookReply {
    /// 200: a testing event.
    TestAcknowledged,
    /// 200: the transaction was not found but the payer was, by phone
    /// (user id, local phone number).
    UserIdentified(String, String),
    /// 200: the status was recorded (transaction id, status).
    Processed(String, PaymentStatus),
    /// A failure: HTTP status and the `error` field.
    Failure(u16, String),
}

/// What the application reports back; errors carry their text.
#[derive(Debug)]
pub enum WebhookEvent {
    TransactionLookedUp(Result<Option<TransactionInfo>, String>),
    /// The id of the user with the looked-up phone number.
    UserByPhone(Result<Option<String>, String>),
    StatusUpdated(Result<(), String>),
    SubscriptionCreated(Result<(), String>),
}

/// What the application does next.
#[derive(Debug)]
pub enum WebhookAction {
    FindByTransactionId(String),
    FindByMayarId(String),
    FindUserByPhone(String),
    /// Record the status of a transaction (transaction id, status, payment
    /// method); the application stores the raw payload with it.
    UpdateStatus(String, PaymentStatus, Option<String>),
    /// Subscribe a user to a plan.
    CreateSubscription(String, i32),
    Reply(WebhookReply),
}

/// The webhook was answered with a failure.
pub open spec fn webhook_fails(r: (WebhookFlow, WebhookAction), status: u16, msg: Seq<char>) -> bool {
    &&& r.0.stage == WebhookStage::Finished
    &&& r.1 matches WebhookAction::Reply(WebhookReply::Failure(st, m)) && st == status && m@ == msg
}

/// How a webhook starts: a `testing` event is acknowledged; an event other
/// than `payment.received` or `payment.reminder` is refused; otherwise the
/// transaction is looked up by its transaction id.
pub open spec fn webhook_begin_ok(p: WebhookPayload, r: (WebhookFlow, WebhookAction)) -> bool {
    let ev = webhook_event(p);
    if ev == "testing"@ {
        r.0.stage == WebhookStage::Finished && r.1 == WebhookAction::Reply(
            WebhookReply::TestAcknowledged,
        )
    } else if ev != "payment.received"@ && ev != "payment.reminder"@ {
        webhook_fails(r, 400, "Unsupported webhook event: "@ + ev)
    } else {
        &&& r.0.stage == WebhookStage::AwaitByTransactionId
        &&& r.0.payload == p
        &&& r.0.transaction_id@ == webhook_transaction_id(p)
        &&& r.0.status == match p.status {
            Some(s) => webhook_status_of(s@),
            None => webhook_status_of("PENDING"@),
        }
        &&& r.0.phone is None && r.0.transaction is None
        &&& r.1 matches WebhookAction::FindByTransactionId(t) && t@ == webhook_transaction_id(p)
    }
}

fn webhook_fail(f: WebhookFlow, status: u16, msg: String) -> (r: (WebhookFlow, WebhookAction))
    ensures
        r.0.stage == WebhookStage::Finished,
        r.1 == WebhookAction::Reply(WebhookReply::Failure(status, msg)),
        r.0.payload == f.payload && r.0.transaction_id == f.transaction_id,
{
    (
        WebhookFlow { stage: WebhookStage::Finished, ..f },
        WebhookAction::Reply(WebhookReply::Failure(status, msg)),
    )
}

/// Starts the processing of a webhook.
pub fn begin_webhook(p: WebhookPayload) -> (r: (WebhookFlow, WebhookAction))
    ensures
        webhook_begin_ok(p, r),
{
    let ev = text_or(&p.event, "unknown");
    let tid = match &p.transaction_id {
        Some(t) => t.clone(),
        None => text_or(&p.transaction_id_alt, "unknown"),
    };
    let status = match &p.status {
        Some(s) => webhook_status(s.as_str()),
        None => webhook_status("PENDING"),
    };
    let testing = str_equal(ev.as_str(), "testing");
    let supported = str_equal(ev.as_str(), "payment.received") || str_equal(
        ev.as_str(),
        "payment.reminder",
    );
    let tid2 = tid.clone();
    let f = WebhookFlow {
        stage: WebhookStage::AwaitByTransactionId,
        payload: p,
        transaction_id: tid,
        status,
        phone: None,
        transaction: None,
    };
    if testing {
        (
            WebhookFlow { stage: WebhookStage::Finished, ..f },
            WebhookAction::Reply(WebhookReply::TestAcknowledged),
        )
    } else if !supported {
        webhook_fail(f, 400, concat("Unsupported webhook event: ", ev.as_str()))
    } else {
        (f, WebhookAction::FindByTransactionId(tid2))
    }
}

/// The event reports the outcome of the flow's pending action.
pub open spec fn webhook_fits(f: WebhookFlow, e: WebhookEvent) -> bool {
    match f.stage {
        WebhookStage::AwaitByTransactionId => e is TransactionLookedUp,
        WebhookStage::AwaitByMayarId => e is TransactionLookedUp,
        WebhookStage::AwaitUserByPhone => e is UserByPhone && f.phone is Some,
        WebhookStage::AwaitStatusUpdate => e is StatusUpdated && f.transaction is Some,
        WebhookStage::AwaitSubscription => e is SubscriptionCreated,
        WebhookStage::Finished => false,
    }
}

/// One step of a webhook. A transaction not found by its transaction id is
/// looked up by Mayar's id. When that lookup fails, the payer is looked up by
/// the local form of the payload's mobile number: if found, the webhook is
/// acknowledged with the user; otherwise the transaction is reported not
/// found. A transaction that is simply missing is reported not found. The
/// status is recorded, and a completed payment subscribes the transaction's
/// user to its plan.
pub open spec fn webhook_step_ok(f: WebhookFlow, e: WebhookEvent, r: (WebhookFlow, WebhookAction)) -> bool {
    let tid = f.transaction_id@;
    let not_found_by_phone = "Transaction with ID "@ + tid
        + " not found and could not find user by phone"@;
    match e {
        WebhookEvent::TransactionLookedUp(res) => if f.stage == WebhookStage::AwaitByTransactionId {
            match res {
                Ok(Some(t)) => found_transaction(f, t, r),
                _ => r.0 == WebhookFlow { stage: WebhookStage::AwaitByMayarId, ..f } && (
                r.1 matches WebhookAction::FindByMayarId(m) && m@ == or_unknown(f.payload.mayar_id)),
            }
        } else {
            match res {
                Ok(Some(t)) => found_transaction(f, t, r),
                Ok(None) => webhook_fails(r, 404, "Transaction with ID "@ + tid + " not found"@),
                Err(_) => match f.payload.customer_mobile {
                    None => webhook_fails(r, 404, not_found_by_phone),
                    Some(m) => {
                        &&& r.0 == WebhookFlow {
                            stage: WebhookStage::AwaitUserByPhone,
                            phone: r.0.phone,
                            ..f
                        }
                        &&& r.0.phone matches Some(ph) && ph@ == local_phone(m@)
                        &&& r.1 matches WebhookAction::FindUserByPhone(ph) && ph@ == local_phone(m@)
                    },
                },
            }
        },
        WebhookEvent::UserByPhone(res) => match res {
            Ok(Some(uid)) => r.0.stage == WebhookStage::Finished && r.1 == WebhookAction::Reply(
                WebhookReply::UserIdentified(uid, f.phone->0),
            ),
            _ => webhook_fails(r, 404, not_found_by_phone),
        },
        WebhookEvent::StatusUpdated(res) => match res {
            Err(m) => webhook_fails(r, 500, "Failed to update payment status: "@ + m@),
            Ok(_) => if f.status == PaymentStatus::Completed {
                r.0 == WebhookFlow { stage: WebhookStage::AwaitSubscription, ..f } && r.1
                    == WebhookAction::CreateSubscription(
                    f.transaction->0.user_id,
                    f.transaction->0.plan_id,
                )
            } else {
                processed(f, r)
            },
        },
        WebhookEvent::SubscriptionCreated(res) => match res {
            Err(m) => webhook_fails(r, 500, "Failed to create subscription: "@ + m@),
            Ok(_) => processed(f, r),
        },
    }
}

/// The transaction was found: its status is recorded next.
pub open spec fn found_transaction(f: WebhookFlow, t: TransactionInfo, r: (WebhookFlow, WebhookAction)) -> bool {
    r.0 == WebhookFlow { stage: WebhookStage::AwaitStatusUpdate, transaction: Some(t), ..f } && r.1
        == WebhookAction::UpdateStatus(f.transaction_id, f.status, f.payload.payment_method)
}

/// The webhook was processed.
pub open spec fn processed(f: WebhookFlow, r: (WebhookFlow, WebhookAction)) -> bool {
    r.0.stage == WebhookStage::Finished && r.1 == WebhookAction::Reply(
        WebhookReply::Processed(f.transaction_id, f.status),
    )
}

fn clone_opt(v: &Option<String>) -> (r: Option<String>)
    ensures
        r == *v,
{
    match v {
        Some(s) => Some(s.clone()),
        None => None,
    }
}

/// One step of the processing of a webhook.
pub fn webhook_step(f: WebhookFlow, e: WebhookEvent) -> (r: (WebhookFlow, WebhookAction))
    requires
        webhook_fits(f, e),
    ensures
        webhook_step_ok(f, e, r),
{
    match e {
        WebhookEvent::TransactionLookedUp(res) => {
            let first = f.stage == WebhookStage::AwaitByTransactionId;
            match res {
                Ok(Some(t)) => {
                    let tid = f.transaction_id.clone();
                    let status = f.status;
                    let method = clone_opt(&f.payload.payment_method);
                    (
                        WebhookFlow {
                            stage: WebhookStage::AwaitStatusUpdate,
                            transaction: Some(t),
                            ..f
                        },
                        WebhookAction::UpdateStatus(tid, status, method),
                    )
                },
                Ok(None) => {
                    if first {
                        let m = text_or(&f.payload.mayar_id, "unknown");
                        (
                            WebhookFlow { stage: WebhookStage::AwaitByMayarId, ..f },
                            WebhookAction::FindByMayarId(m),
                        )
                    } else {
                        let mut v = chars_of("Transaction with ID ");
                        push_str(&mut v, f.transaction_id.as_str());
                        push_str(&mut v, " not found");
                        let msg = string_from_chars(v.as_slice());
                        webhook_fail(f, 404, msg)
                    }
                },
                Err(_) => {
                    if first {
                        let m = text_or(&f.payload.mayar_id, "unknown");
                        (
                            WebhookFlow { stage: WebhookStage::AwaitByMayarId, ..f },
                            WebhookAction::FindByMayarId(m),
                        )
                    } else {
                        match &f.payload.customer_mobile {
                            Some(m) => {
                                let ph = normalize_phone(m.as_str());
                                let ph2 = ph.clone();
                                (
                                    WebhookFlow {
                                        stage: WebhookStage::AwaitUserByPhone,
                                        phone: Some(ph),
                                        ..f
                                    },
                                    WebhookAction::FindUserByPhone(ph2),
                                )
                            },
                            None => {
                                let msg = not_found_by_phone_text(f.transaction_id.as_str());
                                webhook_fail(f, 404, msg)
                            },
                        }
                    }
                },
            }
        },
        WebhookEvent::UserByPhone(res) => match res {
            Ok(Some(uid)) => {
                let ph = match &f.phone {
                    Some(p) => p.clone(),
                    None => String::new(),
                };
                (
                    WebhookFlow { stage: WebhookStage::Finished, ..f },
                    WebhookAction::Reply(WebhookReply::UserIdentified(uid, ph)),
                )
            },
            _ => {
                let msg = not_found_by_phone_text(f.transaction_id.as_str());
                webhook_fail(f, 404, msg)
            },
        },
        WebhookEvent::StatusUpdated(res) => match res {
            Err(m) => webhook_fail(f, 500, concat("Failed to update payment status: ", m.as_str())),
            Ok(_) => {
                if f.status == PaymentStatus::Completed {
                    let (uid, plan) = match &f.transaction {
                        Some(t) => (t.user_id.clone(), t.plan_id),
                        None => (String::new(), 0),
                    };
                    (
                        WebhookFlow { stage: WebhookStage::AwaitSubscription, ..f },
                        WebhookAction::CreateSubscription(uid, plan),
                    )
                } else {
                    let tid = f.transaction_id.clone();
                    let status = f.status;
                    (
                        WebhookFlow { stage: WebhookStage::Finished, ..f },
                        WebhookAction::Reply(WebhookReply::Processed(tid, status)),
                    )
                }
            },
        },
        WebhookEvent::SubscriptionCreated(res) => match res {
            Err(m) => webhook_fail(f, 500, concat("Failed to create subscription: ", m.as_str())),
            Ok(_) => {
                let tid = f.transaction_id.clone();
                let status = f.status;
                (
                    WebhookFlow { stage: WebhookStage::Finished, ..f },
                    WebhookAction::Reply(WebhookReply::Processed(tid, status)),
                )
            },
        },
    }
}

fn not_found_by_phone_text(tid: &str) -> (r: String)
    ensures
        r@ == "Transaction with ID "@ + tid@ + " not found and could not find user by phone"@,
{
    let mut v = chars_of("Transaction with ID ");
    push_str(&mut v, tid);
    push_str(&mut v, " not found and could not find user by phone");
    string_from_chars(v.as_slice())
}

/// What the test webhook answers: the event, the transaction id and the
/// status of the payload, each `unknown` when absent.
pub fn test_webhook_fields(p: &WebhookPayload) -> (r: (String, String, String))
    ensures
        r.0@ == webhook_event(*p),
        r.1@ == webhook_transaction_id(*p),
        r.2@ == or_unknown(p.status),
{
    let ev = text_or(&p.event, "unknown");
    let tid = match &p.transaction_id {
        Some(t) => t.clone(),
        None => text_or(&p.transaction_id_alt, "unknown"),
    };
    let st = text_or(&p.status, "unknown");
    (ev, tid, st)
}


// ---------------------------------------------------------------------------
// Who is paying
// ---------------------------------------------------------------------------

/// A failure answer: HTTP status and the `error` field.
#[derive(Debug)]
pub struct Refusal {
    pub status: u16,
    pub error: String,
}

/// The user id the authentication middleware put in the `user_id` header; a
/// request without it is refused with 401 `Unauthorized`.
pub fn require_user_header(header: Option<String>) -> (r: Result<String, Refusal>)
    ensures
        header matches Some(h) ==> r == Ok::<String, Refusal>(h),
        header is None ==> (r matches Err(f) && f.status == 401 && f.error@ == "Unauthorized"@),
{
    match header {
        Some(h) => Ok(h),
        None => Err(Refusal { status: 401, error: "Unauthorized".to_string() }),
    }
}

/// Why the payer of a new payment could not be identified; each is answered
/// with 401.
#[derive(Debug, Clone, Copy, PartialEq, Eq, Structural)]
pub enum PayerIdError {
    MissingHeaders,
    BadHeaderFormat,
    BadTokenFormat,
    Undecodable,
    BadEncoding,
    BadPayload,
    NoSubject,
}

impl PayerIdError {
    /// The `error` field of the answer.
    pub fn message(&self) -> (r: &'static str)
        ensures
            r@ == match self {
                PayerIdError::MissingHeaders =>
                    "Unauthorized: Missing user_id header and authorization header"@,
                PayerIdError::BadHeaderFormat => "Unauthorized: Invalid authorization header format"@,
                PayerIdError::BadTokenFormat => "Unauthorized: Invalid token format"@,
                PayerIdError::Undecodable => "Unauthorized: Could not decode token"@,
                PayerIdError::BadEncoding => "Unauthorized: Invalid token encoding"@,
                PayerIdError::BadPayload => "Unauthorized: Invalid token payload"@,
                PayerIdError::NoSubject => "Unauthorized: Could not extract user_id from token"@,
            },
    {
        match self {
            PayerIdError::MissingHeaders =>
                "Unauthorized: Missing user_id header and authorization header",
            PayerIdError::BadHeaderFormat => "Unauthorized: Invalid authorization header format",
            PayerIdError::BadTokenFormat => "Unauthorized: Invalid token format",
            PayerIdError::Undecodable => "Unauthorized: Could not decode token",
            PayerIdError::BadEncoding => "Unauthorized: Invalid token encoding",
            PayerIdError::BadPayload => "Unauthorized: Invalid token payload",
            PayerIdError::NoSubject => "Unauthorized: Could not extract user_id from token",
        }
    }
}

/// The payer of a new payment: the `user_id` header when present, else the
/// `sub` of the bearer token's payload.
pub open spec fn payer_id_spec(user_header: Option<Seq<char>>, auth: Option<Seq<char>>) -> Result<
    Seq<char>,
    PayerIdError,
> {
    match user_header {
        Some(u) => Ok(u),
        None => match auth {
            None => Err(PayerIdError::MissingHeaders),
            Some(h) => match token_payload_spec(h) {
                Err(TokenPayloadError::NotBearer) => Err(PayerIdError::BadHeaderFormat),
                Err(TokenPayloadError::NoPayloadPart) => Err(PayerIdError::BadTokenFormat),
                Err(TokenPayloadError::NotBase64) => Err(PayerIdError::Undecodable),
                Err(TokenPayloadError::NotUtf8) => Err(PayerIdError::BadEncoding),
                Ok(p) => if !json_parses(p) {
                    Err(PayerIdError::BadPayload)
                } else {
                    match json_str_field(p, "sub"@) {
                        Some(s) => Ok(s),
                        None => Err(PayerIdError::NoSubject),
                    }
                },
            },
        },
    }
}

/// The payer of a new payment, from the `user_id` header or the bearer token
/// (texts of the headers, when present).
pub fn payer_id(user_header: Option<&str>, auth: Option<&str>) -> (r: Result<String, PayerIdError>)
    ensures
        match payer_id_spec(
            match user_header {
                Some(u) => Some(u@),
                None => None,
            },
            match auth {
                Some(a) => Some(a@),
                None => None,
            },
        ) {
            Ok(s) => r matches Ok(x) && x@ == s,
            Err(e) => r == Err::<String, PayerIdError>(e),
        },
{
    if let Some(u) = user_header {
        return Ok(u.to_string());
    }
    let h = match auth {
        None => return Err(PayerIdError::MissingHeaders),
        Some(h) => h,
    };
    let p = match token_payload(h) {
        Err(TokenPayloadError::NotBearer) => return Err(PayerIdError::BadHeaderFormat),
        Err(TokenPayloadError::NoPayloadPart) => return Err(PayerIdError::BadTokenFormat),
        Err(TokenPayloadError::NotBase64) => return Err(PayerIdError::Undecodable),
        Err(TokenPayloadError::NotUtf8) => return Err(PayerIdError::BadEncoding),
        Ok(p) => p,
    };
    if !json_is_valid(p.as_str()) {
        return Err(PayerIdError::BadPayload);
    }
    match json_field(p.as_str(), "sub") {
        Some(s) => Ok(s),
        None => Err(PayerIdError::NoSubject),
    }
}

// ---------------------------------------------------------------------------
// Creating a payment
// ---------------------------------------------------------------------------

/// A request to pay for a plan.
#[derive(Debug)]
pub struct CreatePaymentRequest {
    pub user_id: String,
    pub plan_id: i32,
    pub redirect_url: String,
}

/// What Mayar answers to a new payment.
#[derive(Debug)]
pub struct MayarPayment {
    pub transaction_id: String,
    pub link: String,
    pub id: String,
}

/// A created payment (201).
#[derive(Debug)]
pub struct CreatedPayment {
    pub id: i64,
    pub transaction_id: String,
    pub mayar_id: String,
    pub payment_link: String,
}

/// Where the creation of a payment stands.
#[derive(Debug, Clone, Copy, PartialEq, Eq, Structural)]
pub enum PaymentStage {
    AwaitUser,
    AwaitPlan,
    AwaitMayar,
    AwaitSave,
    Finished,
}

/// A payment being created: the request and the payer's details.
#[derive(Debug)]
pub struct PaymentFlow {
    pub stage: PaymentStage,
    pub request: CreatePaymentRequest,
    pub email: String,
    pub name: String,
    pub phone: String,
    pub mayar: Option<MayarPayment>,
}

/// What the application reports back; errors carry their text.
#[derive(Debug)]
pub enum PaymentEvent {
    /// The stored phone number of the payer, if the payer was found and has one.
    UserPhone(Option<String>),
    /// The name of the plan, if it exists.
    PlanLoaded(Result<Option<String>, String>),
    MayarCreated(Result<MayarPayment, String>),
    /// The id of the stored transaction.
    Saved(Result<i64, String>),
}

/// What the application does next.
#[derive(Debug)]
pub enum PaymentAction {
    LookupUser(String),
    LoadPlan(i32),
    /// Ask Mayar for a payment at the plan's price (name, e-mail, phone,
    /// redirect URL, description).
    CreateMayarPayment(String, String, String, String, String),
    /// Store the transaction at the plan's price (user, plan, transaction
    /// id, link, Mayar id).
    SaveTransaction(String, i32, String, String, String),
    Reply(Result<CreatedPayment, Refusal>),
}

/// The creation ended with a failure answer.
pub open spec fn payment_fails(r: (PaymentFlow, PaymentAction), status: u16, msg: Seq<char>) -> bool {
    &&& r.0.stage == PaymentStage::Finished
    &&& r.1 matches PaymentAction::Reply(Err(f)) && f.status == status && f.error@ == msg
}

/// Starts the creation of a payment: the payer must be the user the request
/// names (403 otherwise); the token's details of the payer are kept and the
/// payer is looked up.
pub open spec fn payment_begin_ok(
    request: CreatePaymentRequest,
    payer: String,
    info: (String, String, String),
    r: (PaymentFlow, PaymentAction),
) -> bool {
    if payer@ != request.user_id@ {
        payment_fails(r, 403, "User ID in token does not match request"@)
    } else {
        r.0 == PaymentFlow {
            stage: PaymentStage::AwaitUser,
            request,
            email: info.0,
            name: info.1,
            phone: info.2,
            mayar: None,
        } && r.1 == PaymentAction::LookupUser(request.user_id)
    }
}

/// Starts the creation of a payment for an identified payer, with the
/// details `extract_user_info_from_token` read.
pub fn begin_payment(request: CreatePaymentRequest, payer: String, info: (String, String, String)) -> (r:
    (PaymentFlow, PaymentAction))
    ensures
        payment_begin_ok(request, payer, info, r),
{
    let same = str_equal(payer.as_str(), request.user_id.as_str());
    let uid = request.user_id.clone();
    let f = PaymentFlow {
        stage: PaymentStage::AwaitUser,
        request,
        email: info.0,
        name: info.1,
        phone: info.2,
        mayar: None,
    };
    if !same {
        (
            PaymentFlow { stage: PaymentStage::Finished, ..f },
            PaymentAction::Reply(
                Err(
                    Refusal {
                        status: 403,
                        error: "User ID in token does not match request".to_string(),
                    },
                ),
            ),
        )
    } else {
        (f, PaymentAction::LookupUser(uid))
    }
}

/// The event reports the outcome of the flow's pending action.
pub open spec fn payment_fits(f: PaymentFlow, e: PaymentEvent) -> bool {
    match f.stage {
        PaymentStage::AwaitUser => e is UserPhone,
        PaymentStage::AwaitPlan => e is PlanLoaded,
        PaymentStage::AwaitMayar => e is MayarCreated,
        PaymentStage::AwaitSave => e is Saved && f.mayar is Some,
        PaymentStage::Finished => false,
    }
}

/// One step of the creation of a payment. A stored phone number replaces the
/// token's (the token's e-mail and name stay); the plan must exist; Mayar is
/// asked for a payment described as `Payment for <plan> plan`, and the
/// transaction is stored with Mayar's ids and link.
pub open spec fn payment_step_ok(f: PaymentFlow, e: PaymentEvent, r: (PaymentFlow, PaymentAction)) -> bool {
    match e {
        PaymentEvent::UserPhone(p) => r.0 == PaymentFlow {
            stage: PaymentStage::AwaitPlan,
            phone: match p {
                Some(x) => x,
                None => f.phone,
            },
            ..f
        } && r.1 == PaymentAction::LoadPlan(f.request.plan_id),
        PaymentEvent::PlanLoaded(res) => match res {
            Err(m) => payment_fails(r, 500, "Failed to get premium plan details: "@ + m@),
            Ok(None) => payment_fails(r, 404, "Premium plan not found"@),
            Ok(Some(plan)) => r.0 == PaymentFlow { stage: PaymentStage::AwaitMayar, ..f } && (
            r.1 matches PaymentAction::CreateMayarPayment(n, em, ph, url, desc) && n == f.name && em
                == f.email && ph == f.phone && url == f.request.redirect_url && desc@
                == "Payment for "@ + plan@ + " plan"@),
        },
        PaymentEvent::MayarCreated(res) => match res {
            Err(m) => payment_fails(r, 500, "Failed to create payment: "@ + m@),
            Ok(mp) => r.0 == PaymentFlow { stage: PaymentStage::AwaitSave, mayar: Some(mp), ..f }
                && r.1 == PaymentAction::SaveTransaction(
                f.request.user_id,
                f.request.plan_id,
                mp.transaction_id,
                mp.link,
                mp.id,
            ),
        },
        PaymentEvent::Saved(res) => match res {
            Err(m) => payment_fails(r, 500, "Failed to save payment transaction: "@ + m@),
            Ok(id) => r.0.stage == PaymentStage::Finished && r.1 == PaymentAction::Reply(
                Ok(
                    CreatedPayment {
                        id,
                        transaction_id: f.mayar->0.transaction_id,
                        mayar_id: f.mayar->0.id,
                        payment_link: f.mayar->0.link,
                    },
                ),
            ),
        },
    }
}

fn payment_fail(f: PaymentFlow, status: u16, msg: String) -> (r: (PaymentFlow, PaymentAction))
    ensures
        r.0.stage == PaymentStage::Finished,
        r.1 == PaymentAction::Reply(Err(Refusal { status, error: msg })),
{
    (
        PaymentFlow { stage: PaymentStage::Finished, ..f },
        PaymentAction::Reply(Err(Refusal { status, error: msg })),
    )
}

/// One step of the creation of a payment.
pub fn payment_step(f: PaymentFlow, e: PaymentEvent) -> (r: (PaymentFlow, PaymentAction))
    requires
        payment_fits(f, e),
    ensures
        payment_step_ok(f, e, r),
{
    match e {
        PaymentEvent::UserPhone(p) => {
            let plan_id = f.request.plan_id;
            match p {
                Some(x) => (
                    PaymentFlow { stage: PaymentStage::AwaitPlan, phone: x, ..f },
                    PaymentAction::LoadPlan(plan_id),
                ),
                None => (PaymentFlow { stage: PaymentStage::AwaitPlan, ..f }, PaymentAction::LoadPlan(plan_id)),
            }
        },
        PaymentEvent::PlanLoaded(res) => match res {
            Err(m) => payment_fail(f, 500, concat("Failed to get premium plan details: ", m.as_str())),
            Ok(None) => payment_fail(f, 404, "Premium plan not found".to_string()),
            Ok(Some(plan)) => {
                let mut d = chars_of("Payment for ");
                push_str(&mut d, plan.as_str());
                push_str(&mut d, " plan");
                let desc = string_from_chars(d.as_slice());
                let action = PaymentAction::CreateMayarPayment(
                    f.name.clone(),
                    f.email.clone(),
                    f.phone.clone(),
                    f.request.redirect_url.clone(),
                    desc,
                );
                (PaymentFlow { stage: PaymentStage::AwaitMayar, ..f }, action)
            },
        },
        PaymentEvent::MayarCreated(res) => match res {
            Err(m) => payment_fail(f, 500, concat("Failed to create payment: ", m.as_str())),
            Ok(mp) => {
                let action = PaymentAction::SaveTransaction(
                    f.request.user_id.clone(),
                    f.request.plan_id,
                    mp.transaction_id.clone(),
                    mp.link.clone(),
                    mp.id.clone(),
                );
                (PaymentFlow { stage: PaymentStage::AwaitSave, mayar: Some(mp), ..f }, action)
            },
        },
        PaymentEvent::Saved(res) => match res {
            Err(m) => payment_fail(f, 500, concat("Failed to save payment transaction: ", m.as_str())),
            Ok(id) => {
                let created = match &f.mayar {
                    Some(mp) => CreatedPayment {
                        id,
                        transaction_id: mp.transaction_id.clone(),
                        mayar_id: mp.id.clone(),
                        payment_link: mp.link.clone(),
                    },
                    None => CreatedPayment {
                        id,
                        transaction_id: String::new(),
                        mayar_id: String::new(),
                        payment_link: String::new(),
                    },
                };
                (
                    PaymentFlow { stage: PaymentStage::Finished, ..f },
                    PaymentAction::Reply(Ok(created)),
                )
            },
        },
    }
}


// ---------------------------------------------------------------------------
// Checking the status of a payment
// ---------------------------------------------------------------------------

/// Where a status check stands.
#[derive(Debug, Clone, Copy, PartialEq, Eq, Structural)]
pub enum StatusCheckStage {
    AwaitTransaction,
    AwaitRemote,
    AwaitUpdate,
    AwaitSubscription,
    Finished,
}

/// A status check: the caller, the transaction id, and what was learned.
#[derive(Debug)]
pub struct StatusCheckFlow {
    pub stage: StatusCheckStage,
    pub user_id: String,
    pub transaction_id: String,
    pub transaction: Option<TransactionInfo>,
    pub remote: Option<PaymentStatus>,
}

/// What the application reports back; errors carry their text.
#[derive(Debug)]
pub enum StatusCheckEvent {
    TransactionLookedUp(Result<Option<TransactionInfo>, String>),
    RemoteStatus(Result<PaymentStatus, String>),
    StatusUpdated(Result<(), String>),
    SubscriptionCreated(Result<(), String>),
}

/// What the application does next.
#[derive(Debug)]
pub enum StatusCheckAction {
    FindTransaction(String),
    AskMayar(String),
    /// Record a new status (transaction id, status).
    UpdateStatus(String, PaymentStatus),
    /// Subscribe a user to a plan.
    CreateSubscription(String, i32),
    /// 200 with the transaction id and its status, or a refusal.
    Reply(Result<(String, PaymentStatus), Refusal>),
}

/// Starts a status check for the caller the `user_id` header names (401
/// without it).
pub fn begin_status_check(user_header: Option<String>, transaction_id: String) -> (r: (
    StatusCheckFlow,
    StatusCheckAction,
))
    ensures
        user_header is None ==> r.0.stage == StatusCheckStage::Finished,
        user_header is None ==> (r.1 matches StatusCheckAction::Reply(Err(f)) && f.status == 401
            && f.error@ == "Unauthorized"@),
        user_header matches Some(u) ==> (r.0 == StatusCheckFlow {
            stage: StatusCheckStage::AwaitTransaction,
            user_id: u,
            transaction_id,
            transaction: None,
            remote: None,
        } && r.1 == StatusCheckAction::FindTransaction(transaction_id)),
{
    let tid = transaction_id.clone();
    match require_user_header(user_header) {
        Err(refusal) => (
            StatusCheckFlow {
                stage: StatusCheckStage::Finished,
                user_id: String::new(),
                transaction_id,
                transaction: None,
                remote: None,
            },
            StatusCheckAction::Reply(Err(refusal)),
        ),
        Ok(u) => (
            StatusCheckFlow {
                stage: StatusCheckStage::AwaitTransaction,
                user_id: u,
                transaction_id,
                transaction: None,
                remote: None,
            },
            StatusCheckAction::FindTransaction(tid),
        ),
    }
}

/// The event reports the outcome of the flow's pending action.
pub open spec fn status_check_fits(f: StatusCheckFlow, e: StatusCheckEvent) -> bool {
    match f.stage {
        StatusCheckStage::AwaitTransaction => e is TransactionLookedUp,
        StatusCheckStage::AwaitRemote => e is RemoteStatus && f.transaction is Some,
        StatusCheckStage::AwaitUpdate => e is StatusUpdated && f.transaction is Some
            && f.remote is Some,
        StatusCheckStage::AwaitSubscription => e is SubscriptionCreated && f.remote is Some,
        StatusCheckStage::Finished => false,
    }
}

/// The check ended with a failure answer.
pub open spec fn check_fails(r: (StatusCheckFlow, StatusCheckAction), status: u16, msg: Seq<char>) -> bool {
    &&& r.0.stage == StatusCheckStage::Finished
    &&& r.1 matches StatusCheckAction::Reply(Err(f)) && f.status == status && f.error@ == msg
}

/// The check answered with the transaction's status.
pub open spec fn check_answers(f: StatusCheckFlow, st: PaymentStatus, r: (StatusCheckFlow, StatusCheckAction)) -> bool {
    r.0.stage == StatusCheckStage::Finished && r.1 == StatusCheckAction::Reply(
        Ok((f.transaction_id, st)),
    )
}

/// One step of a status check. Only the owner of a transaction may check it.
/// Mayar's status is recorded when it differs from the stored one, and a
/// payment that became completed subscribes the caller to the transaction's
/// plan.
pub open spec fn status_check_step_ok(
    f: StatusCheckFlow,
    e: StatusCheckEvent,
    r: (StatusCheckFlow, StatusCheckAction),
) -> bool {
    match e {
        StatusCheckEvent::TransactionLookedUp(res) => match res {
            Err(m) => check_fails(r, 500, "Failed to get transaction: "@ + m@),
            Ok(None) => check_fails(
                r,
                404,
                "Transaction with ID "@ + f.transaction_id@ + " not found"@,
            ),
            Ok(Some(t)) => if t.user_id@ != f.user_id@ {
                check_fails(r, 403, "You don't have permission to check this transaction"@)
            } else {
                r.0 == StatusCheckFlow {
                    stage: StatusCheckStage::AwaitRemote,
                    transaction: Some(t),
                    ..f
                } && r.1 == StatusCheckAction::AskMayar(f.transaction_id)
            },
        },
        StatusCheckEvent::RemoteStatus(res) => match res {
            Err(m) => check_fails(r, 500, "Failed to check payment status: "@ + m@),
            Ok(st) => if st != f.transaction->0.status {
                r.0 == StatusCheckFlow {
                    stage: StatusCheckStage::AwaitUpdate,
                    remote: Some(st),
                    ..f
                } && r.1 == StatusCheckAction::UpdateStatus(f.transaction_id, st)
            } else {
                check_answers(f, st, r)
            },
        },
        StatusCheckEvent::StatusUpdated(res) => match res {
            Err(m) => check_fails(r, 500, "Failed to update payment status: "@ + m@),
            Ok(_) => if f.remote->0 == PaymentStatus::Completed {
                r.0 == StatusCheckFlow { stage: StatusCheckStage::AwaitSubscription, ..f } && r.1
                    == StatusCheckAction::CreateSubscription(f.user_id, f.transaction->0.plan_id)
            } else {
                check_answers(f, f.remote->0, r)
            },
        },
        StatusCheckEvent::SubscriptionCreated(res) => match res {
            Err(m) => check_fails(r, 500, "Failed to create subscription: "@ + m@),
            Ok(_) => check_answers(f, f.remote->0, r),
        },
    }
}

fn check_fail(f: StatusCheckFlow, status: u16, msg: String) -> (r: (StatusCheckFlow, StatusCheckAction))
    ensures
        r.0.stage == StatusCheckStage::Finished,
        r.1 == StatusCheckAction::Reply(Err(Refusal { status, error: msg })),
{
    (
        StatusCheckFlow { stage: StatusCheckStage::Finished, ..f },
        StatusCheckAction::Reply(Err(Refusal { status, error: msg })),
    )
}

fn check_answer(f: StatusCheckFlow, st: PaymentStatus) -> (r: (StatusCheckFlow, StatusCheckAction))
    ensures
        check_answers(f, st, r),
{
    let tid = f.transaction_id.clone();
    (
        StatusCheckFlow { stage: StatusCheckStage::Finished, ..f },
        StatusCheckAction::Reply(Ok((tid, st))),
    )
}

/// One step of a status check.
pub fn status_check_step(f: StatusCheckFlow, e: StatusCheckEvent) -> (r: (
    StatusCheckFlow,
    StatusCheckAction,
))
    requires
        status_check_fits(f, e),
    ensures
        status_check_step_ok(f, e, r),
{
    match e {
        StatusCheckEvent::TransactionLookedUp(res) => match res {
            Err(m) => check_fail(f, 500, concat("Failed to get transaction: ", m.as_str())),
            Ok(None) => {
                let mut v = chars_of("Transaction with ID ");
                push_str(&mut v, f.transaction_id.as_str());
                push_str(&mut v, " not found");
                let msg = string_from_chars(v.as_slice());
                check_fail(f, 404, msg)
            },
            Ok(Some(t)) => {
                if !str_equal(t.user_id.as_str(), f.user_id.as_str()) {
                    check_fail(
                        f,
                        403,
                        "You don't have permission to check this transaction".to_string(),
                    )
                } else {
                    let tid = f.transaction_id.clone();
                    (
                        StatusCheckFlow {
                            stage: StatusCheckStage::AwaitRemote,
                            transaction: Some(t),
                            ..f
                        },
                        StatusCheckAction::AskMayar(tid),
                    )
                }
            },
        },
        StatusCheckEvent::RemoteStatus(res) => match res {
            Err(m) => check_fail(f, 500, concat("Failed to check payment status: ", m.as_str())),
            Ok(st) => {
                let stored = match &f.transaction {
                    Some(t) => t.status,
                    None => st,
                };
                if st != stored {
                    let tid = f.transaction_id.clone();
                    (
                        StatusCheckFlow { stage: StatusCheckStage::AwaitUpdate, remote: Some(st), ..f },
                        StatusCheckAction::UpdateStatus(tid, st),
                    )
                } else {
                    check_answer(f, st)
                }
            },
        },
        StatusCheckEvent::StatusUpdated(res) => match res {
            Err(m) => check_fail(f, 500, concat("Failed to update payment status: ", m.as_str())),
            Ok(_) => {
                let st = match f.remote {
                    Some(s) => s,
                    None => PaymentStatus::Pending,
                };
                if st == PaymentStatus::Completed {
                    let uid = f.user_id.clone();
                    let plan = match &f.transaction {
                        Some(t) => t.plan_id,
                        None => 0,
                    };
                    (
                        StatusCheckFlow { stage: StatusCheckStage::AwaitSubscription, ..f },
                        StatusCheckAction::CreateSubscription(uid, plan),
                    )
                } else {
                    check_answer(f, st)
                }
            },
        },
        StatusCheckEvent::SubscriptionCreated(res) => match res {
            Err(m) => check_fail(f, 500, concat("Failed to create subscription: ", m.as_str())),
            Ok(_) => {
                let st = match f.remote {
                    Some(s) => s,
                    None => PaymentStatus::Pending,
                };
                check_answer(f, st)
            },
        },
    }
}

// ---------------------------------------------------------------------------
// Phone numbers before a payment, and viewing a transaction
// ---------------------------------------------------------------------------

/// The caller (the `user_id` header) may only ask about themselves: 401
/// without the header, 403 when it names someone else.
pub fn require_same_user(header: Option<String>, user_id: &str) -> (r: Result<String, Refusal>)
    ensures
        header is None ==> (r matches Err(f) && f.status == 401 && f.error@ == "Unauthorized"@),
        header matches Some(h) ==> (if h@ == user_id@ {
            r == Ok::<String, Refusal>(h)
        } else {
            r matches Err(f) && f.status == 403 && f.error@
                == "User ID in token does not match request"@
        }),
{
    let h = require_user_header(header)?;
    if str_equal(h.as_str(), user_id) {
        Ok(h)
    } else {
        Err(Refusal { status: 403, error: "User ID in token does not match request".to_string() })
    }
}

/// A user's id and phone number.
#[derive(Debug)]
pub struct UserPhone {
    pub id: String,
    pub phone_number: Option<String>,
}

/// The answer to the phone check once the user was looked up: whether the
/// user has a phone number (and may proceed to pay), 404 for an unknown user,
/// 500 when the lookup failed.
pub fn phone_check_reply(user_id: &str, lookup: Result<Option<UserPhone>, String>) -> (r: Result<
    PhoneNumberCheckResponse,
    Refusal,
>)
    ensures
        match lookup {
            Ok(Some(u)) => r matches Ok(resp) && resp.has_phone == u.phone_number is Some
                && resp.can_proceed == u.phone_number is Some && resp.phone_number == u.phone_number
                && resp.user_id == u.id,
            Ok(None) => r matches Err(f) && f.status == 404 && f.error@ == "User with ID "@
                + user_id@ + " not found"@,
            Err(m) => r matches Err(f) && f.status == 500 && f.error@ == "Failed to get user: "@
                + m@,
        },
{
    match lookup {
        Ok(Some(u)) => {
            let has = u.phone_number.is_some();
            Ok(PhoneNumberCheckResponse {
                has_phone: has,
                phone_number: u.phone_number,
                user_id: u.id,
                can_proceed: has,
            })
        },
        Ok(None) => {
            let mut v = chars_of("User with ID ");
            push_str(&mut v, user_id);
            push_str(&mut v, " not found");
            Err(Refusal { status: 404, error: string_from_chars(v.as_slice()) })
        },
        Err(m) => Err(Refusal { status: 500, error: concat("Failed to get user: ", m.as_str()) }),
    }
}

/// Whether the caller may see a stored transaction, from the lookup of its
/// owner: only the owner may (403), an unknown id is 404, a failed lookup 500.
pub fn transaction_view_check(user_id: &str, id: i32, lookup: Result<Option<String>, String>) -> (r:
    Result<(), Refusal>)
    ensures
        match lookup {
            Ok(Some(owner)) => if owner@ == user_id@ {
                r is Ok
            } else {
                r matches Err(f) && f.status == 403 && f.error@
                    == "You don't have permission to view this transaction"@
            },
            Ok(None) => r matches Err(f) && f.status == 404 && f.error@
                == "Payment transaction with ID "@ + signed_decimal_spec(id as int) + " not found"@,
            Err(m) => r matches Err(f) && f.status == 500 && f.error@
                == "Failed to get payment transaction: "@ + m@,
        },
{
    match lookup {
        Ok(Some(owner)) => {
            if str_equal(owner.as_str(), user_id) {
                Ok(())
            } else {
                Err(Refusal {
                    status: 403,
                    error: "You don't have permission to view this transaction".to_string(),
                })
            }
        },
        Ok(None) => {
            let mut v = chars_of("Payment transaction with ID ");
            push_signed_decimal(&mut v, id as i64);
            push_str(&mut v, " not found");
            Err(Refusal { status: 404, error: string_from_chars(v.as_slice()) })
        },
        Err(m) => Err(
            Refusal { status: 500, error: concat("Failed to get payment transaction: ", m.as_str()) },
        ),
    }
}

} // verus!
