use quiz_backend::controller::subscription_controller::{
    begin_checkout, begin_notification, cancel_reply, checkout_order_id, checkout_step,
    history_item, invoice_access, midtrans_status, notification_step, plan_slug, replace,
    subscription_status, ActiveSubscription, CheckoutAction, CheckoutEvent, CheckoutPlan,
    CheckoutStage, HistoryRow, MidtransNotification, NotificationAction, NotificationEvent,
    SnapTransaction,
};
use quiz_backend::dao::user_subscription_dao::subscription_end;
use quiz_backend::time::Instant;

fn instant_at(secs: i64) -> Instant {
    Instant { secs, nanos: 0 }
}

fn checkout_failure(a: &CheckoutAction) -> (u16, String) {
    match a {
        CheckoutAction::Reply(Err((s, m))) => (*s, m.clone()),
        _ => panic!("expected a failure"),
    }
}

#[test]
fn plan_slugs() {
    assert_eq!(plan_slug("Premium Plan"), "premium");
    assert_eq!(plan_slug("Pro Max Plan"), "pro_max");
    assert_eq!(plan_slug("Lifetime"), "lifetime");
    assert_eq!(plan_slug("Plan A plan B"), "plan_a_b");
}

#[test]
fn replace_scans_left_to_right() {
    let s: Vec<char> = "aaa".chars().collect();
    let p: Vec<char> = "aa".chars().collect();
    let r: Vec<char> = "b".chars().collect();
    let out: String = replace(&s, &p, &r).into_iter().collect();
    assert_eq!(out, "ba");
}

#[test]
fn order_ids() {
    let uuid: u128 = 0x1a2b3c4d_0000_4000_8000_000000000000;
    assert_eq!(checkout_order_id("20240131", uuid), "QUIZKU-20240131-1A2B3C4D");
    assert_eq!(checkout_order_id("20240131", 0), "QUIZKU-20240131-00000000");
}

#[test]
fn status_of_subscriptions() {
    let sub = ActiveSubscription {
        id: 1,
        plan_id: 2,
        plan_name: "Premium Plan".into(),
        start_date: instant_at(0),
        end_date: Some(instant_at(5 * 86400 + 10)),
        is_lifetime: false,
    };
    let r = subscription_status(Some(sub), Some(99000), instant_at(0));
    assert_eq!(r.plan.as_deref(), Some("premium"));
    assert_eq!(r.status, "active");
    assert_eq!(r.days_remaining, Some(5));
    assert_eq!(r.price_paid, Some(99000));
    let none = subscription_status(None, Some(1), instant_at(0));
    assert_eq!(none.status, "none");
    assert_eq!(none.price_paid, None);
    let life = ActiveSubscription {
        id: 1,
        plan_id: 2,
        plan_name: "Lifetime".into(),
        start_date: instant_at(0),
        end_date: None,
        is_lifetime: true,
    };
    assert_eq!(subscription_status(Some(life), None, instant_at(0)).days_remaining, None);
}

#[test]
fn history_entries() {
    let item = history_item(HistoryRow {
        id: "tx9".into(),
        plan_name: "Basic Plan".into(),
        amount: 5000,
        status: "success".into(),
        payment_method: None,
        paid_at: None,
        invoice_number: None,
        created_at: instant_at(0),
    });
    assert_eq!(item.plan, "basic");
    assert_eq!(item.invoice_url, "/subscription/invoice/tx9");
}

#[test]
fn invoices_and_cancellation() {
    assert_eq!(invoice_access("u", Ok(Some("u".into()))), Ok(()));
    assert_eq!(invoice_access("u", Ok(Some("v".into()))), Err((403, "Akses ditolak")));
    assert_eq!(invoice_access("u", Ok(None)), Err((404, "Invoice tidak ditemukan")));
    assert_eq!(cancel_reply(Ok(None), None), Err((404, "Tidak ada langganan aktif")));
    assert_eq!(cancel_reply(Ok(Some(Some(instant_at(9)))), Some(true)), Ok(Some(instant_at(9))));
    assert_eq!(cancel_reply(Ok(Some(None)), Some(false)), Err((500, "Gagal membatalkan langganan")));
}

#[test]
fn subscription_end_dates() {
    assert_eq!(subscription_end(Some((10, 0)), instant_at(100)), Some(instant_at(100 + 10 * 86400)));
    assert_eq!(subscription_end(Some((10, 1)), instant_at(100)), None);
    assert_eq!(subscription_end(None, instant_at(0)), Some(instant_at(30 * 86400)));
}

#[test]
fn checkout_flow() {
    let now = instant_at(1000);
    let (f, a) = begin_checkout(Some("u1".into()), "  Premium ", true, "QUIZKU-1".into());
    assert_eq!(f.slug, "premium");
    assert!(matches!(a, CheckoutAction::CountRate(ref k) if k == "rate:checkout:u1"));
    let (f, a) = checkout_step(f, CheckoutEvent::RateCounted(2), now);
    assert!(matches!(a, CheckoutAction::FindPlan(ref s) if s == "premium"));
    let plan = CheckoutPlan { id: 3, name: "Premium Plan".into() };
    let (f, a) = checkout_step(f, CheckoutEvent::PlanFound(Ok(Some(plan))), now);
    assert!(matches!(a, CheckoutAction::LoadUser(ref u) if u == "u1"));
    let (f, a) = checkout_step(f, CheckoutEvent::UserLoaded(Some(("e@x".into(), "Ann".into()))), now);
    assert!(matches!(a, CheckoutAction::CreateSnap(ref o, ref e, ref n, ref s, ref p)
        if o == "QUIZKU-1" && e == "e@x" && n == "Ann" && s == "premium" && p == "Premium Plan"));
    let snap = SnapTransaction { token: "tok".into(), redirect_url: "https://snap".into() };
    let (f, a) = checkout_step(f, CheckoutEvent::SnapCreated(Some(snap)), now);
    assert!(matches!(a, CheckoutAction::SaveTransaction(ref u, 3, _, ref url, ref t, exp)
        if u == "u1" && url == "https://snap" && t == "tok" && exp == instant_at(1000 + 86400)));
    let (f, a) = checkout_step(f, CheckoutEvent::Saved(true), now);
    assert_eq!(f.stage, CheckoutStage::Finished);
    match a {
        CheckoutAction::Reply(Ok(r)) => {
            assert_eq!(r.order_id, "QUIZKU-1");
            assert_eq!(r.snap_token, "tok");
            assert_eq!(r.expires_at, instant_at(87400));
        },
        _ => panic!(),
    }
}

#[test]
fn checkout_refusals() {
    let now = instant_at(0);
    let (_, a) = begin_checkout(None, "p", false, "o".into());
    assert_eq!(checkout_failure(&a), (401, "Login diperlukan".to_string()));
    let (_, a) = begin_checkout(Some("u".into()), "   ", false, "o".into());
    assert_eq!(checkout_failure(&a), (400, "Plan tidak boleh kosong".to_string()));
    let (f, _) = begin_checkout(Some("u".into()), "x", true, "o".into());
    let (_, a) = checkout_step(f, CheckoutEvent::RateCounted(4), now);
    assert_eq!(checkout_failure(&a), (429, "Terlalu banyak permintaan checkout. Coba lagi dalam 1 menit.".to_string()));
    let (f, _) = begin_checkout(Some("u".into()), "Gold", false, "o".into());
    let (_, a) = checkout_step(f, CheckoutEvent::PlanFound(Ok(None)), now);
    assert_eq!(checkout_failure(&a), (404, "Plan 'gold' tidak ditemukan".to_string()));
    let (f, _) = begin_checkout(Some("u".into()), "Gold", false, "o".into());
    let (f, _) = checkout_step(f, CheckoutEvent::PlanFound(Ok(Some(CheckoutPlan { id: 1, name: "Gold".into() }))), now);
    let (f, _) = checkout_step(f, CheckoutEvent::UserLoaded(Some(("e".into(), "n".into()))), now);
    let (_, a) = checkout_step(f, CheckoutEvent::SnapCreated(None), now);
    assert_eq!(checkout_failure(&a), (502, "Gagal membuat transaksi Midtrans".to_string()));
}

#[test]
fn midtrans_statuses() {
    assert_eq!(midtrans_status("capture"), "success");
    assert_eq!(midtrans_status("settlement"), "success");
    assert_eq!(midtrans_status("deny"), "failed");
    assert_eq!(midtrans_status("cancel"), "failed");
    assert_eq!(midtrans_status("failure"), "failed");
    assert_eq!(midtrans_status("expire"), "expired");
    assert_eq!(midtrans_status("pending"), "pending");
    assert_eq!(midtrans_status("other"), "pending");
}

fn notification(status: &str) -> MidtransNotification {
    MidtransNotification {
        order_id: "QUIZKU-1".into(),
        status_code: "200".into(),
        transaction_status: status.into(),
        payment_type: Some("gopay".into()),
        transaction_id: Some("mt-1".into()),
    }
}

#[test]
fn settled_notification_subscribes_the_buyer() {
    let n = notification("settlement");
    let (_, a) = begin_notification(&n, false);
    assert!(matches!(a, NotificationAction::Reply(Err((401, ref m))) if m == "Invalid signature"));
    let (f, a) = begin_notification(&n, true);
    assert!(matches!(a, NotificationAction::FindOrder(ref o) if o == "QUIZKU-1"));
    let (f, a) = notification_step(f, &n, NotificationEvent::OrderFound(Some(("u1".into(), 2))));
    assert!(matches!(a, NotificationAction::UpdateTransaction(_, "success", Some(ref p), Some(ref t), ref c, true)
        if p == "gopay" && t == "mt-1" && c == "200"));
    let (f, a) = notification_step(f, &n, NotificationEvent::Updated);
    assert!(matches!(a, NotificationAction::CancelActive(ref u) if u == "u1"));
    let (f, a) = notification_step(f, &n, NotificationEvent::OldCancelled);
    assert!(matches!(a, NotificationAction::CreateSubscription(ref u, 2) if u == "u1"));
    let (f, a) = notification_step(f, &n, NotificationEvent::SubscriptionCreated(Ok((17, "2024".into()))));
    assert!(matches!(a, NotificationAction::RecordInvoice(_, 17, ref inv) if inv == "INV-2024-17"));
    let (_, a) = notification_step(f, &n, NotificationEvent::InvoiceRecorded);
    assert!(matches!(a, NotificationAction::Reply(Ok((ref o, "success"))) if o == "QUIZKU-1"));
}

#[test]
fn other_notifications() {
    let n = notification("expire");
    let (f, _) = begin_notification(&n, true);
    let (f, a) = notification_step(f, &n, NotificationEvent::OrderFound(Some(("u1".into(), 2))));
    assert!(matches!(a, NotificationAction::UpdateTransaction(_, "expired", _, _, _, false)));
    let (_, a) = notification_step(f, &n, NotificationEvent::Updated);
    assert!(matches!(a, NotificationAction::Reply(Ok((_, "expired")))));
    let (f, _) = begin_notification(&n, true);
    let (_, a) = notification_step(f, &n, NotificationEvent::OrderFound(None));
    assert!(matches!(a, NotificationAction::Reply(Err((404, ref m))) if m == "Order QUIZKU-1 tidak ditemukan"));
}
