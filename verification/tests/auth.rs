use quiz_backend::controller::auth_controller::{
    admin_login_step, google_login_step, next_username_probe, slugify_display_name,
    try_slugify_display_name, username_candidate, AdminLoginAction, AdminLoginEvent,
    AdminLoginReply, AdminLoginState, GoogleLoginAction, GoogleLoginEvent, GoogleLoginReply,
    GoogleLoginState, GoogleProfile, LoginUser, UsernameProbe, access_token_claims,
};
use quiz_backend::middleware::auth_middleware::{
    after_google_check, after_supabase_check, authenticated_user, bearer_token, is_public_route,
    AuthHeader, AuthMiddleware, AuthRejection, GoogleStep, TokenCheck,
};
use quiz_backend::middleware::admin_middleware::{
    admin_bearer_token, admin_group, check_admin_role, decide_fallback, decide_with_claims,
    AdminRejection, AuthentikClaims,
};

fn user(role: Option<&str>, picture: Option<&str>) -> LoginUser {
    LoginUser {
        id: "u1".to_string(),
        email: "a@b.c".to_string(),
        display_name: "Ann".to_string(),
        role: role.map(|r| r.to_string()),
        picture_url: picture.map(|p| p.to_string()),
    }
}

#[test]
fn slug_of_plain_name() {
    assert_eq!(slugify_display_name("John Doe"), "john_doe");
    assert_eq!(slugify_display_name("  Hello,  World!! "), "hello_world");
    assert_eq!(slugify_display_name("A__B"), "a_b");
}

#[test]
fn slug_of_empty_or_symbol_name_is_user() {
    assert_eq!(slugify_display_name(""), "user");
    assert_eq!(slugify_display_name("!!!"), "user");
}

#[test]
fn slug_is_cut_to_25_bytes() {
    let s = slugify_display_name("abcdefghijklmnopqrstuvwxyz0123");
    assert_eq!(s, "abcdefghijklmnopqrstuvwxy");
    assert_eq!(s.len(), 25);
}

#[test]
fn slug_keeps_unicode_letters() {
    assert_eq!(slugify_display_name("Élodie Ünal"), "élodie_ünal");
}

#[test]
fn slug_cut_inside_a_character_is_refused() {
    // 24 ASCII letters and a two-byte letter: the cut at byte 25 splits it.
    let name = format!("{}é", "a".repeat(24));
    assert_eq!(try_slugify_display_name(&name), None);
    assert_eq!(try_slugify_display_name("Budi Santoso"), Some("budi_santoso".to_string()));
}

#[test]
fn username_candidates_are_numbered() {
    assert_eq!(username_candidate("john", 0), "john");
    assert_eq!(username_candidate("john", 3), "john_3");
    assert_eq!(username_candidate("john", 999), "john_999");
}

#[test]
fn username_search_steps() {
    assert_eq!(next_username_probe("john", 0, true), UsernameProbe::Claim("john".to_string()));
    assert_eq!(next_username_probe("john", 0, false), UsernameProbe::Probe(1, "john_1".to_string()));
    assert_eq!(next_username_probe("john", 41, false), UsernameProbe::Probe(42, "john_42".to_string()));
    assert_eq!(next_username_probe("john", 999, false), UsernameProbe::GiveUp);
}

#[test]
fn access_token_is_valid_for_an_hour() {
    let c = access_token_claims("u".into(), "e".into(), "n".into(), "http://x:8080".into(), 1000);
    assert_eq!(c.exp, 4600);
    assert_eq!(c.iat, 1000);
    assert_eq!(c.aud, "http://x:8080");
    assert_eq!(c.iss, "http://x:8080");
}

#[test]
fn admin_login_happy_path() {
    let url = "http://app:8080".to_string();
    let (s, a) = admin_login_step(
        AdminLoginState::AwaitUser,
        AdminLoginEvent::UserLookedUp(Some(user(Some("admin"), None))),
        url.clone(),
        100,
    );
    match a {
        AdminLoginAction::EncodeToken(c) => {
            assert_eq!(c.sub, "u1");
            assert_eq!(c.exp, 3700);
            assert_eq!(c.name, "Ann");
        },
        _ => panic!("expected token encoding"),
    }
    let (s, a) = admin_login_step(s, AdminLoginEvent::TokenEncoded(Some("jwt".into())), url.clone(), 100);
    assert!(matches!(a, AdminLoginAction::ResetSessions(ref id) if id == "u1"));
    let (s, a) = admin_login_step(s, AdminLoginEvent::SessionsReset, url.clone(), 100);
    assert!(matches!(a, AdminLoginAction::CreateSession(ref id) if id == "u1"));
    let (s, a) = admin_login_step(s, AdminLoginEvent::SessionCreated(true), url, 100);
    assert!(matches!(s, AdminLoginState::Finished));
    match a {
        AdminLoginAction::Reply(r) => {
            assert_eq!(r.status(), 200);
            assert!(matches!(r, AdminLoginReply::Success { ref token, .. } if token == "jwt"));
        },
        _ => panic!("expected a reply"),
    }
}

#[test]
fn admin_login_refusals() {
    let url = "u".to_string();
    let (_, a) = admin_login_step(AdminLoginState::AwaitUser, AdminLoginEvent::UserLookedUp(None), url.clone(), 0);
    match a {
        AdminLoginAction::Reply(r) => {
            assert_eq!(r.status(), 400);
            assert_eq!(r.error_fields(), Some(("invalid_credentials", "Invalid email or password")));
        },
        _ => panic!(),
    }
    let (_, a) = admin_login_step(
        AdminLoginState::AwaitUser,
        AdminLoginEvent::UserLookedUp(Some(user(None, None))),
        url.clone(),
        0,
    );
    match a {
        AdminLoginAction::Reply(r) => {
            assert_eq!(r.status(), 401);
            assert_eq!(r.error_fields(), Some(("unauthorized", "User is not an admin")));
        },
        _ => panic!(),
    }
    let (_, a) = admin_login_step(
        AdminLoginState::AwaitUser,
        AdminLoginEvent::UserLookedUp(Some(user(Some("superadmin"), None))),
        url.clone(),
        0,
    );
    assert!(matches!(a, AdminLoginAction::EncodeToken(_)));
    let (_, a) = admin_login_step(AdminLoginState::AwaitToken(user(Some("admin"), None)), AdminLoginEvent::TokenEncoded(None), url.clone(), 0);
    assert!(matches!(a, AdminLoginAction::Reply(AdminLoginReply::TokenFailed)));
    let (_, a) = admin_login_step(
        AdminLoginState::AwaitSession(user(Some("admin"), None), "t".into()),
        AdminLoginEvent::SessionCreated(false),
        url,
        0,
    );
    match a {
        AdminLoginAction::Reply(r) => {
            assert_eq!(r.status(), 500);
            assert_eq!(r.error_fields(), Some(("session_creation_failed", "Failed to create session")));
        },
        _ => panic!(),
    }
}

#[test]
fn google_login_existing_user_with_new_picture() {
    let url = "http://app".to_string();
    let (s, a) = google_login_step(GoogleLoginState::AwaitExchange, GoogleLoginEvent::CodeExchanged(Some("at".into())), url.clone(), 0);
    assert!(matches!(a, GoogleLoginAction::FetchProfile(ref t) if t == "at"));
    let profile = GoogleProfile { email: "a@b.c".into(), name: "G Name".into(), picture: Some("new.png".into()) };
    let (s, a) = google_login_step(s, GoogleLoginEvent::ProfileFetched(Some(profile)), url.clone(), 0);
    assert!(matches!(a, GoogleLoginAction::LookupUser(ref e) if e == "a@b.c"));
    let (s, a) = google_login_step(s, GoogleLoginEvent::UserFound(user(None, Some("old.png"))), url.clone(), 0);
    match a {
        GoogleLoginAction::UpdatePicture(id, name, pic) => {
            assert_eq!((id.as_str(), name.as_str(), pic.as_str()), ("u1", "Ann", "new.png"));
        },
        _ => panic!("expected a picture update"),
    }
    let (s, a) = google_login_step(s, GoogleLoginEvent::PictureUpdated, url.clone(), 0);
    assert!(matches!(a, GoogleLoginAction::EncodeToken(ref c) if c.exp == 3600));
    let (s, a) = google_login_step(s, GoogleLoginEvent::TokenEncoded(Some("jwt".into())), url.clone(), 0);
    assert!(matches!(a, GoogleLoginAction::ResetSessions(_)));
    let (s, a) = google_login_step(s, GoogleLoginEvent::SessionsReset, url.clone(), 0);
    assert!(matches!(a, GoogleLoginAction::CreateSession(_)));
    let (_, a) = google_login_step(s, GoogleLoginEvent::SessionCreated(Some("refresh".into())), url, 0);
    match a {
        GoogleLoginAction::Reply(GoogleLoginReply::Success(resp)) => {
            assert_eq!(resp.access_token, "jwt");
            assert_eq!(resp.token_type, "bearer");
            assert_eq!(resp.expires_in, 3600);
            assert_eq!(resp.refresh_token, "refresh");
            // The answer shows the picture that was stored before the update.
            assert_eq!(resp.user.picture.as_deref(), Some("old.png"));
        },
        _ => panic!("expected success"),
    }
}

#[test]
fn google_login_same_picture_skips_update() {
    let profile = GoogleProfile { email: "a@b.c".into(), name: "G".into(), picture: Some("p.png".into()) };
    let (_, a) = google_login_step(
        GoogleLoginState::AwaitLookup(profile),
        GoogleLoginEvent::UserFound(user(None, Some("p.png"))),
        "u".into(),
        0,
    );
    assert!(matches!(a, GoogleLoginAction::EncodeToken(_)));
}

#[test]
fn google_login_new_user() {
    let profile = GoogleProfile { email: "n@b.c".into(), name: "New Person".into(), picture: None };
    let (s, a) = google_login_step(GoogleLoginState::AwaitLookup(profile), GoogleLoginEvent::UserMissing("id9".into()), "u".into(), 0);
    match a {
        GoogleLoginAction::CreateUser(id, email, name, pic) => {
            assert_eq!((id.as_str(), email.as_str(), name.as_str()), ("id9", "n@b.c", "New Person"));
            assert_eq!(pic, None);
        },
        _ => panic!(),
    }
    let (s, a) = google_login_step(s, GoogleLoginEvent::UserCreated(true), "u".into(), 0);
    assert!(matches!(a, GoogleLoginAction::AssignUsername(ref id, ref n) if id == "id9" && n == "New Person"));
    let (_, a) = google_login_step(s, GoogleLoginEvent::UsernameAssigned, "u".into(), 0);
    assert!(matches!(a, GoogleLoginAction::EncodeToken(ref c) if c.sub == "id9"));
}

#[test]
fn google_login_failures() {
    let (_, a) = google_login_step(GoogleLoginState::AwaitExchange, GoogleLoginEvent::CodeExchanged(None), "u".into(), 0);
    match a {
        GoogleLoginAction::Reply(r) => {
            assert_eq!(r.status(), 400);
            assert_eq!(r.failure_text(), Some("Failed to exchange authorization code for token"));
        },
        _ => panic!(),
    }
    let (_, a) = google_login_step(GoogleLoginState::AwaitProfile, GoogleLoginEvent::ProfileFetched(None), "u".into(), 0);
    assert!(matches!(a, GoogleLoginAction::Reply(GoogleLoginReply::ProfileFailed)));
    let profile = GoogleProfile { email: "n@b.c".into(), name: "N".into(), picture: None };
    let (_, a) = google_login_step(GoogleLoginState::AwaitCreate(profile, "i".into()), GoogleLoginEvent::UserCreated(false), "u".into(), 0);
    match a {
        GoogleLoginAction::Reply(r) => {
            assert_eq!(r.status(), 500);
            assert_eq!(r.failure_text(), Some("Failed to store user data"));
        },
        _ => panic!(),
    }
}

#[test]
fn public_routes() {
    assert!(is_public_route("/signup"));
    assert!(is_public_route("/swagger-ui/index.html"));
    assert!(is_public_route("/license-public/verify"));
    assert!(!is_public_route("/signupx"));
    assert!(!is_public_route("/user/profile"));
}

#[test]
fn bearer_tokens_of_headers() {
    assert_eq!(bearer_token(&AuthHeader::Missing), Err(AuthRejection::MissingAuthHeader));
    assert_eq!(bearer_token(&AuthHeader::Unreadable), Err(AuthRejection::InvalidAuthHeader));
    assert_eq!(bearer_token(&AuthHeader::Text("Basic x".into())), Err(AuthRejection::InvalidAuthHeader));
    let t: String = bearer_token(&AuthHeader::Text("Bearer abc.def".into())).unwrap().into_iter().collect();
    assert_eq!(t, "abc.def");
    assert_eq!(AuthRejection::SessionExpired.error_code(), "session_expired");
}

#[test]
fn token_checks() {
    assert!(matches!(
        after_google_check(TokenCheck::Valid { sub: "s".into(), role: None }),
        GoogleStep::Accept(ref s) if s == "s"
    ));
    assert!(matches!(after_google_check(TokenCheck::Expired), GoogleStep::Reject(AuthRejection::SessionExpired)));
    assert!(matches!(after_google_check(TokenCheck::Invalid), GoogleStep::TrySupabase));
    assert_eq!(
        after_supabase_check(TokenCheck::Valid { sub: "s".into(), role: Some("authenticated".into()) }),
        Ok("s".to_string())
    );
    assert_eq!(
        after_supabase_check(TokenCheck::Valid { sub: "s".into(), role: Some("anon".into()) }),
        Err(AuthRejection::InvalidRole)
    );
    assert_eq!(after_supabase_check(TokenCheck::Invalid), Err(AuthRejection::InvalidToken));
}

#[test]
fn authenticated_user_prefers_google_email() {
    let u = authenticated_user(Some("id".into()), Some("g@x".into()), Some("s@x".into())).unwrap();
    assert_eq!(u.user_id, "id");
    assert_eq!(u.email.as_deref(), Some("g@x"));
    assert!(authenticated_user(None, None, None).is_none());
    assert_eq!(AuthMiddleware::new("sec".into()).jwt_secret, "sec");
}

#[test]
fn admin_checks() {
    assert_eq!(admin_group(None), "quiz-admins");
    assert_eq!(admin_group(Some("ops".into())), "ops");
    assert_eq!(admin_bearer_token(Some("Bearer tok")), Some("tok".to_string()));
    assert_eq!(admin_bearer_token(Some("tok")), None);
    assert!(check_admin_role(Some(Some("superadmin".into()))));
    assert!(!check_admin_role(Some(Some("user".into()))));
    assert!(!check_admin_role(Some(None)));
    let claims = AuthentikClaims {
        sub: "sub1".into(),
        email: None,
        name: None,
        groups: Some(vec!["staff".into(), "quiz-admins".into()]),
    };
    assert_eq!(decide_with_claims(&claims, "quiz-admins"), Ok("sub1".to_string()));
    assert_eq!(decide_with_claims(&claims, "other"), Err(AdminRejection::NotInAdminGroup));
    assert_eq!(decide_fallback(None, Ok(None)), Err(AdminRejection::InvalidToken));
    assert_eq!(decide_fallback(Some("x".into()), Ok(Some(Some("admin".into())))), Ok("x".to_string()));
    assert_eq!(decide_fallback(Some("x".into()), Ok(Some(Some("user".into())))), Err(AdminRejection::NotAdminRole));
    assert_eq!(decide_fallback(Some("x".into()), Err(())), Err(AdminRejection::InvalidToken));
}
