use quiz_backend::config::{AppConfig, Config, DaoConfig, GoogleOAuthConfig, PaymentConfig};
use quiz_backend::controller::admin_kategori_controller::{check_category_deletion, check_category_name};
use quiz_backend::controller::admin_packages_controller::{
    check_package_category, check_package_name, package_search_conditions, PackageRefusal,
};
use quiz_backend::controller::admin_paket_soal_items_controller::{
    begin_mapping, mapping_step, MappingAction, MappingEvent,
};
use quiz_backend::controller::admin_soal_controller::question_search_conditions;
use quiz_backend::controller::bookmark_controller::{bookmark_check, bookmark_listing, BookmarkListQuery, BookmarkRefusal};
use quiz_backend::controller::internal_soal_controller::{
    blank_reason, check_internal_request, is_blank_question, is_internal_ip, BulkImportResponse,
    InternalRejection, IpAddress,
};
use quiz_backend::controller::leaderboard_controller::{build_xp_leaderboard, mask_name, XpRow};
use quiz_backend::controller::premium_controller::{premium_status, subscription_owner_check, SubscriptionUse};
use quiz_backend::controller::public_profile_controller::{compute_badges, validate_username};
use quiz_backend::controller::question_feedback_controller::{check_report_detail, is_rating_cleared, param_capped};
use quiz_backend::controller::search_controller::search_conditions;
use quiz_backend::controller::soal_controller::{
    offer_plans_for_category, package_access, package_cache_hash, quiz_access_reply, QuizAccessReply,
};
use quiz_backend::controller::user_controller::{
    recommendation_basis, stored_goals, validate_phone_number, xp_paging, xp_total_pages,
};
use quiz_backend::controller::parse_u32;
use quiz_backend::dao::question_feedback_dao::{reason_from_str, reason_to_str, status_from_str, status_to_str, report_offset};

fn config() -> Config {
    Config {
        app: AppConfig { url: "http://localhost".into(), port: 8080 },
        dao: DaoConfig { user: "root".into(), password: "pw".into(), address: "db:3306".into(), database: "quiz".into() },
        api_key: "k".into(),
        jwt_secret: "s".into(),
        anon_key: "a".into(),
        auth_url: "https://auth".into(),
        google_oauth: GoogleOAuthConfig { client_id: "cid".into(), client_secret: "cs".into(), redirect_uri: "https://cb".into() },
        payment: PaymentConfig {
            mayar_api_key: "mk".into(),
            mayar_api_url: "https://mayar".into(),
            mayar_webhook_url: "https://hook".into(),
            mayar_webhook_secret: "whs".into(),
            mayar_saas_api_url: "https://saas".into(),
        },
    }
}

#[test]
fn config_addresses() {
    let c = config();
    assert_eq!(c.get_app_url(), "http://localhost:8080");
    assert_eq!(c.get_database_url(), "mysql://root:pw@db:3306/quiz");
    assert_eq!(c.get_jwt_secret(), "s");
    assert_eq!(c.get_mayar_saas_api_url(), "https://saas");
    assert_eq!(c.get_google_redirect_uri(), "https://cb");
}

#[test]
fn cache_keys_are_md5_hex() {
    assert_eq!(package_cache_hash("CPNS", "Paket 1"), "b373bb7996ff7d93f4e84eb9d7ae3751");
    assert_eq!(package_cache_hash("", ""), "853ae90f0351324bd73ea615e6487517");
}

#[test]
fn premium_package_access() {
    let free = package_access(false, false, None);
    assert!(free.can_access && !free.subscription_required && !free.offer_plans);
    let visitor = package_access(true, false, None);
    assert!(!visitor.can_access && visitor.offer_plans);
    let member = package_access(true, true, Some(true));
    assert!(member.can_access && !member.offer_plans);
    let failed = package_access(true, true, None);
    assert!(!failed.can_access);
    assert!(offer_plans_for_category(false, None));
    assert!(offer_plans_for_category(true, Some(0)));
    assert!(!offer_plans_for_category(true, Some(2)));
    assert!(!offer_plans_for_category(true, None));
}

#[test]
fn quiz_access_replies() {
    assert_eq!(quiz_access_reply(Ok(Some(false)), false, None), QuizAccessReply::Free);
    assert_eq!(quiz_access_reply(Ok(Some(true)), false, None), QuizAccessReply::SubscribeFirst);
    assert_eq!(quiz_access_reply(Ok(Some(true)), true, Some(true)), QuizAccessReply::Granted);
    assert_eq!(quiz_access_reply(Ok(Some(true)), true, None), QuizAccessReply::AccessFailed);
    assert_eq!(quiz_access_reply(Ok(None), true, None), QuizAccessReply::NotFound);
    assert_eq!(quiz_access_reply(Err(()), true, None), QuizAccessReply::StatusFailed);
}

#[test]
fn internal_networks() {
    assert!(is_internal_ip(IpAddress::V4(127, 0, 0, 1)));
    assert!(is_internal_ip(IpAddress::V4(10, 1, 2, 3)));
    assert!(is_internal_ip(IpAddress::V4(172, 16, 0, 1)));
    assert!(is_internal_ip(IpAddress::V4(172, 31, 255, 255)));
    assert!(!is_internal_ip(IpAddress::V4(172, 32, 0, 1)));
    assert!(is_internal_ip(IpAddress::V4(192, 168, 1, 1)));
    assert!(is_internal_ip(IpAddress::V4(100, 64, 0, 1)));
    assert!(is_internal_ip(IpAddress::V4(100, 127, 0, 1)));
    assert!(!is_internal_ip(IpAddress::V4(100, 128, 0, 1)));
    assert!(!is_internal_ip(IpAddress::V4(8, 8, 8, 8)));
    assert!(is_internal_ip(IpAddress::V6(0, 0, 0, 0, 0, 0, 0, 1)));
    assert!(!is_internal_ip(IpAddress::V6(0, 0, 0, 0, 0, 0, 0, 2)));
}

#[test]
fn internal_gate() {
    let lan = Some(IpAddress::V4(10, 0, 0, 1));
    let key = Some("secret".to_string());
    assert_eq!(check_internal_request(Some(IpAddress::V4(1, 1, 1, 1)), &key, &key, 1), Some(InternalRejection::Forbidden));
    assert_eq!(check_internal_request(None, &key, &key, 1), Some(InternalRejection::Forbidden));
    assert_eq!(check_internal_request(lan, &Some("".into()), &key, 1), Some(InternalRejection::NotConfigured));
    assert_eq!(check_internal_request(lan, &key, &Some("wrong".into()), 1), Some(InternalRejection::BadKey));
    assert_eq!(check_internal_request(lan, &key, &None, 1), Some(InternalRejection::BadKey));
    assert_eq!(check_internal_request(lan, &key, &key, 0), Some(InternalRejection::Empty));
    assert_eq!(check_internal_request(lan, &key, &key, 3), None);
    assert_eq!(InternalRejection::BadKey.status(), 401);
}

#[test]
fn bulk_import_tally() {
    let mut t = BulkImportResponse::new();
    assert!(is_blank_question("   "));
    assert!(!is_blank_question(" q "));
    t.record(0, Err(blank_reason()));
    t.record(1, Ok(()));
    t.record(2, Err("duplicate key".to_string()));
    assert_eq!(t.success_count, 1);
    assert_eq!(t.failed_count, 2);
    assert_eq!(t.errors, vec![
        "Question 1: question text cannot be empty".to_string(),
        "Question 3: duplicate key".to_string(),
    ]);
}

#[test]
fn phone_number_lengths() {
    assert!(validate_phone_number("081234567").is_err());
    assert!(validate_phone_number("0812345678").is_ok());
    assert!(validate_phone_number("081234567890123").is_ok());
    assert_eq!(
        validate_phone_number("0812345678901234"),
        Err("Invalid phone number format. Phone number should be between 10 and 15 digits.")
    );
}

#[test]
fn recommendations_from_goals() {
    let goals: Vec<String> = ["cpns", "ppg", "snbt", "masuk_ptn", "upkp"].iter().map(|s| s.to_string()).collect();
    let (cats, matched) = recommendation_basis(&goals);
    assert_eq!(cats, vec!["CPNS", "UTBK", "UPKP"]);
    assert_eq!(matched, vec!["cpns", "snbt", "masuk_ptn", "upkp"]);
    assert_eq!(stored_goals(&Some(r#"["cpns","x"]"#.into())), vec!["cpns".to_string(), "x".to_string()]);
    assert!(stored_goals(&Some("{".into())).is_empty());
    assert!(stored_goals(&None).is_empty());
}

#[test]
fn xp_history_paging() {
    let p = xp_paging(Some("3"), Some("10"));
    assert_eq!((p.page, p.limit, p.offset), (3, 10, 20));
    let p = xp_paging(Some("0"), Some("500"));
    assert_eq!((p.page, p.limit, p.offset), (1, 100, 0));
    let p = xp_paging(Some("abc"), None);
    assert_eq!((p.page, p.limit, p.offset), (1, 20, 0));
    assert_eq!(xp_total_pages(0, 20), 1);
    assert_eq!(xp_total_pages(41, 20), 3);
    assert_eq!(parse_u32("+42"), Some(42));
    assert_eq!(parse_u32("4294967296"), None);
}

#[test]
fn bookmark_listings() {
    let q = BookmarkListQuery {
        page: Some(2),
        limit: Some(500),
        sort_by: Some("pelajaran".into()),
        sort_order: Some("asc".into()),
        category: Some("Bahasa 'Indonesia'".into()),
    };
    let l = bookmark_listing(&q);
    assert_eq!((l.page, l.limit, l.offset), (2, 100, 100));
    assert_eq!(l.sort_column, "s.pelajaran");
    assert_eq!(l.sort_direction, "ASC");
    assert_eq!(l.category_filter, "AND s.pelajaran = 'Bahasa \\'Indonesia\\''");
    let d = bookmark_listing(&BookmarkListQuery { page: None, limit: None, sort_by: Some("x".into()), sort_order: None, category: None });
    assert_eq!((d.page, d.limit, d.sort_column, d.sort_direction), (1, 20, "bq.created_at", "DESC"));
    assert_eq!(d.category_filter, "");
    assert_eq!(bookmark_check(false, false), Err(BookmarkRefusal::NoQuestion));
    assert_eq!(bookmark_check(true, true), Err(BookmarkRefusal::AlreadyBookmarked));
    assert_eq!(bookmark_check(true, false), Ok(()));
}

#[test]
fn search_conditions_of_queries() {
    let c = search_conditions(&Some("  x ".into()), &Some(" ".into()), &Some("Fisika".into()));
    assert_eq!(c.where_clause, "1=1 AND (s.soal LIKE ? OR s.solution LIKE ?) AND s.pelajaran = ?");
    assert_eq!(c.binds, vec!["%x%".to_string(), "%x%".to_string(), "Fisika".to_string()]);
    let c = search_conditions(&None, &None, &None);
    assert_eq!(c.where_clause, "1=1");
    assert!(c.binds.is_empty());
    let q = question_search_conditions(&Some("".into()), &Some("M".into()), &None, &Some("t".into()));
    assert_eq!(q.where_clause, "1=1 AND s.modul = ? AND s.tag = ?");
    assert_eq!(q.binds, vec!["M".to_string(), "t".to_string()]);
    let p = package_search_conditions(&Some("paket".into()), Some(-2), Some(true));
    assert_eq!(p.where_clause, "1=1 AND p.nama_paket_soal LIKE ? AND p.kategori_id = ? AND p.is_premium = ?");
    assert_eq!(p.binds, vec!["%paket%".to_string(), "-2".to_string(), "true".to_string()]);
}

#[test]
fn category_checks() {
    assert_eq!(check_category_name("  ", Ok(0)), Err((400, "Category name cannot be empty")));
    assert_eq!(check_category_name("A", Ok(1)), Err((400, "Category with this name already exists")));
    assert_eq!(check_category_name("A", Ok(0)), Ok(()));
    assert_eq!(
        check_category_deletion(Ok(3)),
        Err((400, "Cannot delete category. It has 3 associated quiz packages.".to_string()))
    );
    assert_eq!(check_category_deletion(Ok(0)), Ok(()));
    assert_eq!(check_package_name(" "), Err(PackageRefusal::EmptyName));
    assert_eq!(check_package_category(Some(Ok(0))), Err(PackageRefusal::NoCategory));
    assert_eq!(check_package_category(None), Ok(()));
}

#[test]
fn mapping_questions_into_a_package() {
    let (f, a) = begin_mapping(5, vec![]);
    assert!(matches!(a, MappingAction::Reply(Err((400, "No questions provided")))));
    let _ = f;
    let (f, a) = begin_mapping(5, vec![1, 2]);
    assert!(matches!(a, MappingAction::BeginTransaction));
    let (f, a) = mapping_step(f, MappingEvent::Began(true));
    assert!(matches!(a, MappingAction::Check(5, 1)));
    let (f, a) = mapping_step(f, MappingEvent::Checked(Ok(true)));
    assert!(matches!(a, MappingAction::Check(5, 2)));
    let (f, a) = mapping_step(f, MappingEvent::Checked(Ok(false)));
    assert!(matches!(a, MappingAction::Insert(5, 2)));
    let (f, a) = mapping_step(f, MappingEvent::Inserted(true));
    assert!(matches!(a, MappingAction::Commit));
    let (_, a) = mapping_step(f, MappingEvent::Committed(true));
    assert!(matches!(a, MappingAction::Reply(Ok((1, ref m))) if m == "1 questions mapped successfully"));
    let (f, _) = begin_mapping(5, vec![1]);
    let (f, _) = mapping_step(f, MappingEvent::Began(true));
    let (_, a) = mapping_step(f, MappingEvent::Checked(Err(())));
    assert!(matches!(a, MappingAction::RollbackAndFail(500, "Database error")));
}

#[test]
fn feedback_requests() {
    assert!(is_rating_cleared(b""));
    assert!(is_rating_cleared(b"null"));
    assert!(!is_rating_cleared(b"{\"rating\":\"up\"}"));
    assert!(check_report_detail(&None).is_ok());
    assert!(check_report_detail(&Some("x".repeat(500))).is_ok());
    assert_eq!(check_report_detail(&Some("x".repeat(501))), Err("Detail terlalu panjang (maks 500 karakter)"));
    assert_eq!(param_capped(Some("250"), 20, 100), 100);
    assert_eq!(param_capped(None, 20, 100), 20);
    assert_eq!(param_capped(Some("x"), 1, 100), 1);
    assert_eq!(report_offset(3, 20), 40);
    assert_eq!(report_offset(0, 20), 0);
}

#[test]
fn feedback_texts_round_trip() {
    let r = reason_from_str("wrong_answer");
    assert_eq!(reason_to_str(&r), "wrong_answer");
    let s = status_from_str("resolved");
    assert_eq!(status_to_str(&s), "resolved");
}

#[test]
fn premium_views() {
    let st = premium_status(1, Some(&["expired".to_string(), "active".to_string()]));
    assert!(st.is_premium && !st.offer_plans);
    assert_eq!(st.shown, Some(vec![1]));
    let st = premium_status(2, Some(&["cancelled".to_string()]));
    assert_eq!(st.shown, None);
    let st = premium_status(0, None);
    assert!(!st.is_premium && st.offer_plans);
    assert!(subscription_owner_check("u", 4, SubscriptionUse::View, Ok(Some("u".into()))).is_ok());
    assert_eq!(
        subscription_owner_check("u", 4, SubscriptionUse::Cancel, Ok(Some("v".into()))),
        Err((403, "You don't have permission to cancel this subscription".to_string()))
    );
    assert_eq!(
        subscription_owner_check("u", 4, SubscriptionUse::View, Ok(None)),
        Err((404, "Subscription with ID 4 not found".to_string()))
    );
}

#[test]
fn leaderboard_names_are_masked() {
    assert_eq!(mask_name("Budi"), "Budi");
    assert_eq!(mask_name("Budi Santoso Putra"), "Budi S. P.");
    let rows = vec![
        XpRow { id: "a".into(), display_name: "Ani Lestari".into(), total_xp: 2500, current_level: 3 },
        XpRow { id: "b".into(), display_name: "Bo".into(), total_xp: 10, current_level: 1 },
    ];
    let board = build_xp_leaderboard(&rows, &Some("b".to_string()));
    assert_eq!(board.entries[0].rank, 1);
    assert_eq!(board.entries[0].display_name, "Ani L.");
    assert_eq!(board.current_user_rank, Some(2));
    assert!(board.entries[1].is_current_user);
}

#[test]
fn usernames_and_badges() {
    assert_eq!(validate_username("ab"), Err("Username minimal 3 karakter"));
    assert_eq!(validate_username("_abc"), Err("Username tidak boleh diawali atau diakhiri underscore"));
    assert_eq!(validate_username("admin"), Err("Username tidak tersedia"));
    assert_eq!(validate_username("budi_01"), Ok(()));
    let b = compute_badges(10, 100, 7, 5);
    assert_eq!(b.len(), 6);
    assert!(b.iter().all(|x| x.earned));
    let b = compute_badges(0, 0, 0, 0);
    assert!(b.iter().all(|x| !x.earned));
}
