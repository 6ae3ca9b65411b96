use base64::Engine;
use quiz_backend::dao::payment_transaction_dao::{mayar_id_pattern, mayar_transaction_index};
use quiz_backend::controller::payment_controller::{
    begin_payment, begin_status_check, begin_webhook, extract_user_info_from_token, normalize_phone,
    payer_id, payment_status_str, payment_step, phone_check_reply, require_same_user,
    status_check_step, test_webhook_fields, token_payload, transaction_view_check, webhook_status,
    webhook_step, CreatePaymentRequest, MayarPayment, PayerIdError, PaymentAction, PaymentEvent,
    PaymentStatus, StatusCheckAction, StatusCheckEvent, TokenPayloadError, TransactionInfo, UserPhone,
    WebhookAction, WebhookEvent, WebhookPayload, WebhookReply, WebhookStage,
};

fn header_with_payload(json: &str) -> String {
    let p = base64::engine::general_purpose::URL_SAFE_NO_PAD.encode(json.as_bytes());
    format!("Bearer header.{}.signature", p)
}

fn payload(event: Option<&str>, tid: Option<&str>, status: Option<&str>) -> WebhookPayload {
    WebhookPayload {
        event: event.map(|s| s.to_string()),
        transaction_id: tid.map(|s| s.to_string()),
        transaction_id_alt: None,
        mayar_id: Some("m-1".to_string()),
        customer_mobile: Some("+6281234".to_string()),
        status: status.map(|s| s.to_string()),
        payment_method: Some("qris".to_string()),
    }
}

#[test]
fn token_payload_is_decoded() {
    let h = header_with_payload(r#"{"sub":"u1","email":"a@b.c"}"#);
    assert_eq!(token_payload(&h).unwrap(), r#"{"sub":"u1","email":"a@b.c"}"#);
    assert_eq!(token_payload("Basic x"), Err(TokenPayloadError::NotBearer));
    assert_eq!(token_payload("Bearer abc"), Err(TokenPayloadError::NoPayloadPart));
    assert_eq!(token_payload("Bearer a.!!!.c"), Err(TokenPayloadError::NotBase64));
    // 0xFF 0xFE is no UTF-8.
    let bad = base64::engine::general_purpose::URL_SAFE_NO_PAD.encode([0xFFu8, 0xFE]);
    assert_eq!(token_payload(&format!("Bearer a.{}", bad)), Err(TokenPayloadError::NotUtf8));
}

#[test]
fn bearer_prefix_repeats_and_spaces_are_removed() {
    let p = base64::engine::general_purpose::URL_SAFE_NO_PAD.encode(b"{}");
    let h = format!("Bearer Bearer  x.{}.y  ", p);
    assert_eq!(token_payload(&h).unwrap(), "{}");
}

#[test]
fn user_info_from_token_with_defaults() {
    let h = header_with_payload(r#"{"email":"real@mail.com","phone":"0899"}"#);
    let (e, n, p) = extract_user_info_from_token(Some(&h), "u7");
    assert_eq!(e, "real@mail.com");
    assert_eq!(n, "u7");
    assert_eq!(p, "0899");
    let (e, n, p) = extract_user_info_from_token(None, "u7");
    assert_eq!(e, "user_u7@example.com");
    assert_eq!(n, "u7");
    assert_eq!(p, "083120827585");
    let (e, _, _) = extract_user_info_from_token(Some("Bearer junk"), "u7");
    assert_eq!(e, "user_u7@example.com");
}

#[test]
fn payer_identification() {
    assert_eq!(payer_id(Some("hdr"), None), Ok("hdr".to_string()));
    assert_eq!(payer_id(None, None), Err(PayerIdError::MissingHeaders));
    assert_eq!(payer_id(None, Some("Token x")), Err(PayerIdError::BadHeaderFormat));
    assert_eq!(payer_id(None, Some("Bearer x")), Err(PayerIdError::BadTokenFormat));
    assert_eq!(payer_id(None, Some("Bearer a.%%%.c")), Err(PayerIdError::Undecodable));
    let not_json = header_with_payload("not json");
    assert_eq!(payer_id(None, Some(&not_json)), Err(PayerIdError::BadPayload));
    let no_sub = header_with_payload(r#"{"email":"x"}"#);
    assert_eq!(payer_id(None, Some(&no_sub)), Err(PayerIdError::NoSubject));
    let ok = header_with_payload(r#"{"sub":"user-9"}"#);
    assert_eq!(payer_id(None, Some(&ok)), Ok("user-9".to_string()));
    assert_eq!(PayerIdError::NoSubject.message(), "Unauthorized: Could not extract user_id from token");
}

#[test]
fn phone_numbers_lose_their_prefix() {
    assert_eq!(normalize_phone("08123"), "8123");
    assert_eq!(normalize_phone("+628123"), "8123");
    assert_eq!(normalize_phone("628123"), "8123");
    assert_eq!(normalize_phone("8123"), "8123");
}

#[test]
fn webhook_status_texts() {
    assert_eq!(webhook_status("success"), PaymentStatus::Completed);
    assert_eq!(webhook_status("SUCCESS"), PaymentStatus::Completed);
    assert_eq!(webhook_status("Expired"), PaymentStatus::Expired);
    assert_eq!(webhook_status("failed"), PaymentStatus::Failed);
    assert_eq!(webhook_status("PENDING"), PaymentStatus::Pending);
    assert_eq!(webhook_status("paid"), PaymentStatus::Pending);
    assert_eq!(payment_status_str(PaymentStatus::Completed), "Completed");
}

#[test]
fn testing_and_unsupported_events() {
    let (_, a) = begin_webhook(payload(Some("testing"), None, None));
    assert!(matches!(a, WebhookAction::Reply(WebhookReply::TestAcknowledged)));
    let (f, a) = begin_webhook(payload(Some("payment.refund"), None, None));
    assert_eq!(f.stage, WebhookStage::Finished);
    assert!(matches!(a, WebhookAction::Reply(WebhookReply::Failure(400, ref m)) if m == "Unsupported webhook event: payment.refund"));
    let (_, a) = begin_webhook(payload(None, None, None));
    assert!(matches!(a, WebhookAction::Reply(WebhookReply::Failure(400, ref m)) if m == "Unsupported webhook event: unknown"));
}

#[test]
fn completed_payment_creates_subscription() {
    let (f, a) = begin_webhook(payload(Some("payment.received"), Some("tx-1"), Some("SUCCESS")));
    assert!(matches!(a, WebhookAction::FindByTransactionId(ref t) if t == "tx-1"));
    let tx = TransactionInfo { user_id: "u1".into(), plan_id: 2, status: PaymentStatus::Pending };
    let (f, a) = webhook_step(f, WebhookEvent::TransactionLookedUp(Ok(Some(tx))));
    assert!(matches!(a, WebhookAction::UpdateStatus(ref t, PaymentStatus::Completed, Some(ref m)) if t == "tx-1" && m == "qris"));
    let (f, a) = webhook_step(f, WebhookEvent::StatusUpdated(Ok(())));
    assert!(matches!(a, WebhookAction::CreateSubscription(ref u, 2) if u == "u1"));
    let (_, a) = webhook_step(f, WebhookEvent::SubscriptionCreated(Ok(())));
    assert!(matches!(a, WebhookAction::Reply(WebhookReply::Processed(ref t, PaymentStatus::Completed)) if t == "tx-1"));
}

#[test]
fn pending_payment_only_records_status() {
    let (f, _) = begin_webhook(payload(Some("payment.reminder"), None, None));
    assert_eq!(f.transaction_id, "unknown");
    let tx = TransactionInfo { user_id: "u1".into(), plan_id: 2, status: PaymentStatus::Pending };
    let (f, _) = webhook_step(f, WebhookEvent::TransactionLookedUp(Ok(Some(tx))));
    let (_, a) = webhook_step(f, WebhookEvent::StatusUpdated(Ok(())));
    assert!(matches!(a, WebhookAction::Reply(WebhookReply::Processed(_, PaymentStatus::Pending))));
}

#[test]
fn missing_transaction_falls_back_to_mayar_id_then_phone() {
    let (f, _) = begin_webhook(payload(Some("payment.received"), Some("tx-2"), None));
    let (f, a) = webhook_step(f, WebhookEvent::TransactionLookedUp(Ok(None)));
    assert!(matches!(a, WebhookAction::FindByMayarId(ref m) if m == "m-1"));
    let (f, a) = webhook_step(f, WebhookEvent::TransactionLookedUp(Err("db".into())));
    assert!(matches!(a, WebhookAction::FindUserByPhone(ref p) if p == "81234"));
    let (_, a) = webhook_step(f, WebhookEvent::UserByPhone(Ok(Some("u5".into()))));
    assert!(matches!(a, WebhookAction::Reply(WebhookReply::UserIdentified(ref u, ref p)) if u == "u5" && p == "81234"));
}

#[test]
fn missing_transaction_is_not_found() {
    let (f, _) = begin_webhook(payload(Some("payment.received"), Some("tx-3"), None));
    let (f, _) = webhook_step(f, WebhookEvent::TransactionLookedUp(Ok(None)));
    let (_, a) = webhook_step(f, WebhookEvent::TransactionLookedUp(Ok(None)));
    assert!(matches!(a, WebhookAction::Reply(WebhookReply::Failure(404, ref m)) if m == "Transaction with ID tx-3 not found"));
    let (f, _) = begin_webhook(payload(Some("payment.received"), Some("tx-4"), None));
    let (f, _) = webhook_step(f, WebhookEvent::TransactionLookedUp(Ok(None)));
    let (f, _) = webhook_step(f, WebhookEvent::TransactionLookedUp(Err("e".into())));
    let (_, a) = webhook_step(f, WebhookEvent::UserByPhone(Ok(None)));
    assert!(matches!(a, WebhookAction::Reply(WebhookReply::Failure(404, ref m))
        if m == "Transaction with ID tx-4 not found and could not find user by phone"));
}

#[test]
fn test_webhook_defaults() {
    let (e, t, s) = test_webhook_fields(&payload(None, None, None));
    assert_eq!((e.as_str(), t.as_str(), s.as_str()), ("unknown", "unknown", "unknown"));
}

#[test]
fn payment_creation() {
    let req = CreatePaymentRequest { user_id: "u1".into(), plan_id: 3, redirect_url: "https://r".into() };
    let info = ("e@x".to_string(), "Name".to_string(), "083120827585".to_string());
    let (f, a) = begin_payment(req, "u1".into(), info);
    assert!(matches!(a, PaymentAction::LookupUser(ref u) if u == "u1"));
    let (f, a) = payment_step(f, PaymentEvent::UserPhone(Some("0811".into())));
    assert!(matches!(a, PaymentAction::LoadPlan(3)));
    let (f, a) = payment_step(f, PaymentEvent::PlanLoaded(Ok(Some("Premium".into()))));
    match a {
        PaymentAction::CreateMayarPayment(n, e, p, url, desc) => {
            assert_eq!((n.as_str(), e.as_str(), p.as_str(), url.as_str()), ("Name", "e@x", "0811", "https://r"));
            assert_eq!(desc, "Payment for Premium plan");
        },
        _ => panic!(),
    }
    let mp = MayarPayment { transaction_id: "t".into(), link: "l".into(), id: "i".into() };
    let (f, a) = payment_step(f, PaymentEvent::MayarCreated(Ok(mp)));
    assert!(matches!(a, PaymentAction::SaveTransaction(ref u, 3, ref t, ref l, ref i) if u == "u1" && t == "t" && l == "l" && i == "i"));
    let (_, a) = payment_step(f, PaymentEvent::Saved(Ok(11)));
    match a {
        PaymentAction::Reply(Ok(c)) => {
            assert_eq!(c.id, 11);
            assert_eq!(c.payment_link, "l");
        },
        _ => panic!(),
    }
}

#[test]
fn payment_refusals() {
    let req = CreatePaymentRequest { user_id: "u1".into(), plan_id: 3, redirect_url: "r".into() };
    let info = ("e".to_string(), "n".to_string(), "p".to_string());
    let (_, a) = begin_payment(req, "other".into(), info.clone());
    assert!(matches!(a, PaymentAction::Reply(Err(ref f)) if f.status == 403 && f.error == "User ID in token does not match request"));
    let req = CreatePaymentRequest { user_id: "u1".into(), plan_id: 3, redirect_url: "r".into() };
    let (f, _) = begin_payment(req, "u1".into(), info);
    let (f, _) = payment_step(f, PaymentEvent::UserPhone(None));
    assert_eq!(f.phone, "p");
    let (_, a) = payment_step(f, PaymentEvent::PlanLoaded(Ok(None)));
    assert!(matches!(a, PaymentAction::Reply(Err(ref f)) if f.status == 404 && f.error == "Premium plan not found"));
}

#[test]
fn status_check_flow() {
    let (f, a) = begin_status_check(None, "t".into());
    assert!(matches!(a, StatusCheckAction::Reply(Err(ref r)) if r.status == 401));
    let _ = f;
    let (f, _) = begin_status_check(Some("u1".into()), "t".into());
    let tx = TransactionInfo { user_id: "u1".into(), plan_id: 4, status: PaymentStatus::Pending };
    let (f, a) = status_check_step(f, StatusCheckEvent::TransactionLookedUp(Ok(Some(tx))));
    assert!(matches!(a, StatusCheckAction::AskMayar(_)));
    let (f, a) = status_check_step(f, StatusCheckEvent::RemoteStatus(Ok(PaymentStatus::Completed)));
    assert!(matches!(a, StatusCheckAction::UpdateStatus(_, PaymentStatus::Completed)));
    let (f, a) = status_check_step(f, StatusCheckEvent::StatusUpdated(Ok(())));
    assert!(matches!(a, StatusCheckAction::CreateSubscription(ref u, 4) if u == "u1"));
    let (_, a) = status_check_step(f, StatusCheckEvent::SubscriptionCreated(Ok(())));
    assert!(matches!(a, StatusCheckAction::Reply(Ok((ref t, PaymentStatus::Completed))) if t == "t"));
}

#[test]
fn status_check_of_someone_elses_transaction() {
    let (f, _) = begin_status_check(Some("u1".into()), "t".into());
    let tx = TransactionInfo { user_id: "u2".into(), plan_id: 4, status: PaymentStatus::Pending };
    let (_, a) = status_check_step(f, StatusCheckEvent::TransactionLookedUp(Ok(Some(tx))));
    assert!(matches!(a, StatusCheckAction::Reply(Err(ref r)) if r.status == 403));
    let (f, _) = begin_status_check(Some("u1".into()), "t".into());
    let tx = TransactionInfo { user_id: "u1".into(), plan_id: 4, status: PaymentStatus::Pending };
    let (f, _) = status_check_step(f, StatusCheckEvent::TransactionLookedUp(Ok(Some(tx))));
    let (_, a) = status_check_step(f, StatusCheckEvent::RemoteStatus(Ok(PaymentStatus::Pending)));
    assert!(matches!(a, StatusCheckAction::Reply(Ok((_, PaymentStatus::Pending)))));
}

#[test]
fn phone_checks() {
    assert!(matches!(require_same_user(None, "u"), Err(ref r) if r.status == 401));
    assert!(matches!(require_same_user(Some("x".into()), "u"), Err(ref r) if r.status == 403));
    assert_eq!(require_same_user(Some("u".into()), "u").unwrap(), "u");
    let ok = phone_check_reply("u", Ok(Some(UserPhone { id: "u".into(), phone_number: None })));
    let r = ok.unwrap();
    assert!(!r.has_phone && !r.can_proceed);
    let nf = phone_check_reply("u9", Ok(None));
    assert!(matches!(nf, Err(ref r) if r.status == 404 && r.error == "User with ID u9 not found"));
}

#[test]
fn transaction_visibility() {
    assert!(transaction_view_check("u", 1, Ok(Some("u".into()))).is_ok());
    assert!(matches!(transaction_view_check("u", 1, Ok(Some("v".into()))), Err(ref r) if r.status == 403));
    assert!(matches!(transaction_view_check("u", -3, Ok(None)), Err(ref r) if r.error == "Payment transaction with ID -3 not found"));
    assert!(matches!(transaction_view_check("u", 1, Err("x".into())), Err(ref r) if r.error == "Failed to get payment transaction: x"));
}

#[test]
fn mayar_id_like_pattern() {
    assert_eq!(mayar_id_pattern("abc-1"), "%\"mayar_id\":\"%abc-1%");
    assert_eq!(mayar_id_pattern(""), "%\"mayar_id\":\"%%");
}

#[test]
fn mayar_transaction_is_found_by_exact_id() {
    let rows = vec![
        None,
        Some("not json".to_string()),
        Some("{\"mayar_id\":\"abc-12\"}".to_string()),
        Some("{\"mayar_id\":7}".to_string()),
        Some("{\"mayar_id\":\"abc-1\",\"link\":\"x\"}".to_string()),
        Some("{\"mayar_id\":\"abc-1\"}".to_string()),
    ];
    assert_eq!(mayar_transaction_index(&rows, "abc-1"), Some(4));
    assert_eq!(mayar_transaction_index(&rows, "abc-12"), Some(2));
    assert_eq!(mayar_transaction_index(&rows, "abc"), None);
    assert_eq!(mayar_transaction_index(&Vec::new(), "abc-1"), None);
}
