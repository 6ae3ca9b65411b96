use quiz_backend::controller::license_controller::{
    begin_license_verification, begin_mock_license_verification, days_remaining, license_entry,
    license_step, payment_link, ActivatedLicense, LicenseAction, LicenseEvent, LicenseReply,
    LicenseRow, LicenseStage, LicenseUser, PaymentLinkError, PlanInfo, RemoteLicense,
    SubscriptionInfo, UserLookup, VerifyLicenseRequest, FALLBACK_PLAN_ID,
};
use quiz_backend::dao::license_code_dao::{license_status_from_str, license_status_str, LicenseStatus};
use quiz_backend::time::Instant;

fn request(code: &str) -> VerifyLicenseRequest {
    VerifyLicenseRequest {
        license_code: code.to_string(),
        product_id: "prod-1".to_string(),
        email: "buyer@mail.com".to_string(),
        name: "Buyer".to_string(),
        phone: Some("0812".to_string()),
    }
}

fn moment(secs: i64) -> Instant {
    Instant { secs, nanos: 0 }
}

fn license_failure(a: &LicenseAction) -> (u16, String) {
    match a {
        LicenseAction::Reply(LicenseReply::Failure(s, m)) => (*s, m.clone()),
        _ => panic!("expected a failure"),
    }
}

#[test]
fn payment_link_encodes_user_details() {
    let link = payment_link(
        &Some("https://pay.example/plan".to_string()),
        &Some("P-1".to_string()),
        "a+b@mail.com",
        "Budi Santoso",
        &None,
    )
    .unwrap();
    assert_eq!(link, "https://pay.example/plan?email=a%2Bb%40mail.com&productId=P-1&name=Budi%20Santoso&phone=");
    let link = payment_link(&Some("L".into()), &Some("P".into()), "x", "é~._-", &Some("+62 81".into())).unwrap();
    assert_eq!(link, "L?email=x&productId=P&name=%C3%A9~._-&phone=%2B62%2081");
}

#[test]
fn payment_link_needs_configuration() {
    assert_eq!(payment_link(&None, &Some("P".into()), "e", "n", &None), Err(PaymentLinkError::NoPaymentLink));
    assert_eq!(payment_link(&Some("".into()), &Some("P".into()), "e", "n", &None), Err(PaymentLinkError::NoPaymentLink));
    assert_eq!(payment_link(&Some("L".into()), &Some("".into()), "e", "n", &None), Err(PaymentLinkError::NoProductId));
    assert_eq!(PaymentLinkError::NoProductId.message(), "No product ID configured for this plan");
}

#[test]
fn days_left_on_a_license() {
    assert_eq!(days_remaining(None, moment(0)), None);
    assert_eq!(days_remaining(Some(moment(10 * 86400 + 5)), moment(0)), Some(10));
    assert_eq!(days_remaining(Some(moment(86399)), moment(0)), Some(0));
    assert_eq!(days_remaining(Some(moment(0)), moment(100)), Some(0));
    // A borrow of a second when the later instant has fewer nanoseconds.
    let later = Instant { secs: 86400, nanos: 0 };
    let earlier = Instant { secs: 0, nanos: 1 };
    assert_eq!(days_remaining(Some(later), earlier), Some(0));
}

#[test]
fn license_entries_show_status_and_plan() {
    let row = LicenseRow {
        id: 7,
        license_code: "CODE".into(),
        user_id: Some("u".into()),
        plan_id: 2,
        status: LicenseStatus::Cancelled,
        expired_at: Some(moment(3 * 86400)),
    };
    let e = license_entry(row, None, moment(0));
    assert_eq!(e.plan_name, "Unknown Plan");
    assert_eq!(e.status, "cancelled");
    assert_eq!(e.days_remaining, Some(3));
}

#[test]
fn license_status_texts_round_trip() {
    for s in [LicenseStatus::Active, LicenseStatus::Expired, LicenseStatus::Cancelled] {
        assert_eq!(license_status_from_str(license_status_str(s)), s);
    }
    assert_eq!(license_status_from_str("weird"), LicenseStatus::Active);
}

#[test]
fn short_or_long_codes_are_refused() {
    let (f, a) = begin_license_verification(request("1234567"));
    assert_eq!(f.stage, LicenseStage::Finished);
    assert_eq!(license_failure(&a), (400, "Invalid license code format".to_string()));
    let (_, a) = begin_license_verification(request(&"x".repeat(65)));
    assert_eq!(license_failure(&a).0, 400);
    let (f, a) = begin_license_verification(request("12345678"));
    assert_eq!(f.stage, LicenseStage::AwaitExisting);
    assert!(matches!(a, LicenseAction::LookupLicense(ref c) if c == "12345678"));
}

#[test]
fn full_verification() {
    let now = moment(1_000_000);
    let (f, _) = begin_license_verification(request("ABCDEFGH"));
    let (f, a) = license_step(f, LicenseEvent::LicenseLookedUp(Ok(false)), now);
    assert!(matches!(a, LicenseAction::VerifyRemote(ref c, ref p) if c == "ABCDEFGH" && p == "prod-1"));
    let (f, a) = license_step(
        f,
        LicenseEvent::RemoteVerified(Ok(RemoteLicense { is_active: true, expired_at: None })),
        now,
    );
    assert!(matches!(a, LicenseAction::FindPlanByProduct(_)));
    let (f, a) = license_step(f, LicenseEvent::PlanFoundByProduct(Ok(None)), now);
    assert_eq!(f.plan_id, FALLBACK_PLAN_ID);
    assert!(matches!(a, LicenseAction::LookupUser(ref e) if e == "buyer@mail.com"));
    let (f, a) = license_step(f, LicenseEvent::UserLookedUp(UserLookup::NotFound), now);
    assert!(matches!(a, LicenseAction::CreateUser(_, ref n, Some(ref p)) if n == "Buyer" && p == "0812"));
    let (f, a) = license_step(f, LicenseEvent::UserCreated(Ok("new-id".into())), now);
    assert!(matches!(a, LicenseAction::FetchUser(ref id) if id == "new-id"));
    let u = LicenseUser { id: "new-id".into(), email: "buyer@mail.com".into(), display_name: "Buyer".into() };
    let (f, a) = license_step(f, LicenseEvent::UserFetched(Some(u)), now);
    assert!(matches!(a, LicenseAction::LoadPlan(5)));
    // The plan is missing: a default plan of 60 days is used.
    let (f, a) = license_step(f, LicenseEvent::PlanLoaded(Ok(None)), now);
    match a {
        LicenseAction::StoreLicense(rec) => {
            assert_eq!(rec.license_code, "ABCDEFGH");
            assert_eq!(rec.user_id, "new-id");
            assert_eq!(rec.plan_id, 5);
            assert_eq!(rec.status, LicenseStatus::Active);
            assert_eq!(rec.expired_at, Some(moment(1_000_000 + 60 * 86400)));
        },
        _ => panic!("expected the license to be stored"),
    }
    assert_eq!(f.plan.as_ref().unwrap().name, "Special Plan");
    let (f, a) = license_step(f, LicenseEvent::LicenseStored(Ok(1)), now);
    assert!(matches!(a, LicenseAction::CreateSubscription(ref u, 5) if u == "new-id"));
    let (f, a) = license_step(f, LicenseEvent::SubscriptionCreated(Ok(9)), now);
    assert!(matches!(a, LicenseAction::FetchSubscription(9)));
    let sub = SubscriptionInfo { id: 9, plan_id: 5, end_date: None };
    let (f, a) = license_step(f, LicenseEvent::SubscriptionFetched(Ok(Some(sub))), now);
    assert!(matches!(a, LicenseAction::GenerateToken(ref id, _, _) if id == "new-id"));
    let (f, a) = license_step(f, LicenseEvent::TokenGenerated(Ok("tok".into())), now);
    assert_eq!(f.stage, LicenseStage::Finished);
    match a {
        LicenseAction::Reply(LicenseReply::Success(ActivatedLicense { token, plan_name, is_lifetime, mock, .. })) => {
            assert_eq!(token, "tok");
            assert_eq!(plan_name, "Special Plan");
            assert!(!is_lifetime);
            assert!(!mock);
        },
        _ => panic!("expected success"),
    }
}

#[test]
fn mayar_expiry_wins_when_it_parses() {
    let now = moment(0);
    let (f, _) = begin_license_verification(request("ABCDEFGH"));
    let (f, _) = license_step(f, LicenseEvent::LicenseLookedUp(Ok(false)), now);
    let (f, _) = license_step(
        f,
        LicenseEvent::RemoteVerified(Ok(RemoteLicense {
            is_active: true,
            expired_at: Some("1970-01-02T00:00:00Z".into()),
        })),
        now,
    );
    let (f, _) = license_step(f, LicenseEvent::PlanFoundByProduct(Ok(Some(3))), now);
    let u = LicenseUser { id: "u".into(), email: "e".into(), display_name: "d".into() };
    let (f, _) = license_step(f, LicenseEvent::UserLookedUp(UserLookup::Found(u)), now);
    let plan = PlanInfo { id: 3, name: "Pro".into(), duration_days: 30, is_lifetime: true };
    let (_, a) = license_step(f, LicenseEvent::PlanLoaded(Ok(Some(plan))), now);
    match a {
        LicenseAction::StoreLicense(rec) => assert_eq!(rec.expired_at, Some(moment(86400))),
        _ => panic!(),
    }
}

#[test]
fn lifetime_plan_without_mayar_expiry_never_expires() {
    let now = moment(0);
    let (f, _) = begin_license_verification(request("ABCDEFGH"));
    let (f, _) = license_step(f, LicenseEvent::LicenseLookedUp(Ok(false)), now);
    let (f, _) = license_step(
        f,
        LicenseEvent::RemoteVerified(Ok(RemoteLicense { is_active: true, expired_at: Some("not a date".into()) })),
        now,
    );
    let (f, _) = license_step(f, LicenseEvent::PlanFoundByProduct(Ok(Some(3))), now);
    let u = LicenseUser { id: "u".into(), email: "e".into(), display_name: "d".into() };
    let (f, _) = license_step(f, LicenseEvent::UserLookedUp(UserLookup::Found(u)), now);
    let plan = PlanInfo { id: 3, name: "Pro".into(), duration_days: 30, is_lifetime: true };
    let (_, a) = license_step(f, LicenseEvent::PlanLoaded(Ok(Some(plan))), now);
    match a {
        LicenseAction::StoreLicense(rec) => assert_eq!(rec.expired_at, None),
        _ => panic!(),
    }
}

#[test]
fn verification_failures() {
    let now = moment(0);
    let (f, _) = begin_license_verification(request("ABCDEFGH"));
    let (_, a) = license_step(f, LicenseEvent::LicenseLookedUp(Ok(true)), now);
    assert_eq!(license_failure(&a), (400, "License code already used".to_string()));
    let (f, _) = begin_license_verification(request("ABCDEFGH"));
    let (_, a) = license_step(f, LicenseEvent::LicenseLookedUp(Err("db down".into())), now);
    assert_eq!(license_failure(&a), (500, "Error checking license: db down".to_string()));
    let (f, _) = begin_license_verification(request("ABCDEFGH"));
    let (f, _) = license_step(f, LicenseEvent::LicenseLookedUp(Ok(false)), now);
    let (_, a) = license_step(f, LicenseEvent::RemoteVerified(Ok(RemoteLicense { is_active: false, expired_at: None })), now);
    assert_eq!(license_failure(&a), (400, "License is not active".to_string()));
    let (f, _) = begin_license_verification(request("ABCDEFGH"));
    let (f, _) = license_step(f, LicenseEvent::LicenseLookedUp(Ok(false)), now);
    let (_, a) = license_step(f, LicenseEvent::RemoteVerified(Err("timeout".into())), now);
    assert_eq!(license_failure(&a), (400, "License verification failed: timeout".to_string()));
}

#[test]
fn user_lookup_failure_differs_in_mock() {
    let now = moment(0);
    let (f, a) = begin_mock_license_verification(request("x"));
    assert!(matches!(a, LicenseAction::LookupUser(_)));
    assert_eq!(f.plan_id, 5);
    let (_, a) = license_step(f, LicenseEvent::UserLookedUp(UserLookup::Failed("boom".into())), now);
    assert!(matches!(a, LicenseAction::CreateUser(..)));
    let (f, _) = begin_license_verification(request("ABCDEFGH"));
    let (f, _) = license_step(f, LicenseEvent::LicenseLookedUp(Ok(false)), now);
    let (f, _) = license_step(f, LicenseEvent::RemoteVerified(Ok(RemoteLicense { is_active: true, expired_at: None })), now);
    let (f, _) = license_step(f, LicenseEvent::PlanFoundByProduct(Ok(None)), now);
    let (_, a) = license_step(f, LicenseEvent::UserLookedUp(UserLookup::Failed("boom".into())), now);
    assert_eq!(license_failure(&a), (500, "Error getting user: boom".to_string()));
}

#[test]
fn mock_verification_skips_the_license() {
    let now = moment(0);
    let (f, _) = begin_mock_license_verification(request("x"));
    let u = LicenseUser { id: "u".into(), email: "e".into(), display_name: "d".into() };
    let (f, _) = license_step(f, LicenseEvent::UserLookedUp(UserLookup::Found(u)), now);
    let (f, a) = license_step(f, LicenseEvent::PlanLoaded(Ok(None)), now);
    assert!(matches!(a, LicenseAction::CreateSubscription(ref u, 5) if u == "u"));
    let (f, _) = license_step(f, LicenseEvent::SubscriptionCreated(Ok(1)), now);
    let (_, a) = license_step(f, LicenseEvent::SubscriptionFetched(Ok(None)), now);
    assert_eq!(license_failure(&a), (500, "Failed to get subscription details".to_string()));
}

#[test]
fn activation_messages() {
    let a = ActivatedLicense {
        token: "t".into(),
        user: LicenseUser { id: "u".into(), email: "e".into(), display_name: "d".into() },
        subscription: SubscriptionInfo { id: 1, plan_id: 1, end_date: None },
        plan_name: "p".into(),
        is_lifetime: false,
        mock: true,
    };
    assert_eq!(a.message(), "License activated successfully (MOCK)");
}
