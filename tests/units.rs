use auth_api::dispatch::{apply_cors, request_origin};
use auth_api::client::{page_access, PageAccess};
use auth_api::access::{authorize, extract_credentials, flatten_access_error, token_id_from_cookie};
use auth_api::client::{
    auth_headers, hash_password as client_hash_password, noauth_headers, Auth, AuthPhase, ColorSemantic, Config,
    OpenIdFinalize, OpenIdFinalizePhase, OutlineButton, VerifyEmailConfirm, VerifyEmailConfirmPhase,
    VerifyPasswordResetConfirm, VerifyPasswordResetConfirmPhase, ButtonSize,
};
use auth_api::frontend_route::{AuthRoute as PageAuth, Dashboard, Landing, NotFoundReason, Route as Page};
use auth_api::mailer::{ContentLanguage, MailChannelsRequest, MailerConfig, MailerKind};
use auth_api::openid::{OpenIdProcessor, OpenIdSession, OpenIdSessionDO, OpenIdSessionPhase};
use auth_api::password::{check_password, hash_password};
use auth_api::result::{ApiError, AuthError};
use auth_api::route::{AuthRoute, Method, OpenIdProvider, Route, RouteAuthKind};
use auth_api::token::{AuthTokenAfterValidation, AuthTokenDO, AuthTokenKind, AUTH_SIGNIN_TOKEN_EXPIRES};
use auth_api::user::{UserAccount, UserId, UserStore};

fn account(token: &str, verified: bool) -> UserAccount {
    UserAccount {
        id: UserId::new(7),
        password: String::new(),
        email: "a@b.c".to_string(),
        email_verified: verified,
        user_token: token.to_string(),
        created_at: 0,
    }
}

#[test]
fn routes_parse_and_print() {
    let r = Route::try_from_url("http://localhost:8787/auth/signin", "").unwrap();
    assert_eq!(r, Route::Auth(AuthRoute::Signin));
    assert_eq!(r.link("http://x", ""), "http://x/auth/signin");
    assert_eq!(r.link("http://x", "api"), "http://x/api/auth/signin");
    let hook = Route::try_from_url("https://h/auth/openid-access-token-hook/facebook?code=1&state=2", "").unwrap();
    assert_eq!(hook, Route::Auth(AuthRoute::OpenIdAccessTokenHook(OpenIdProvider::Facebook)));
    assert_eq!(hook.to_string(), "auth/openid-access-token-hook/facebook");
    assert!(Route::try_from_url("https://h/auth/openid-access-token-hook/twitter", "").is_none());
    assert_eq!(Route::try_from_url("https://h/base/auth/check", "/base").unwrap(), Route::Auth(AuthRoute::Check));
    assert!(Route::try_from_url("https://h/auth/signin/extra", "").is_none());
    assert_eq!(Method::Post.as_str(), "POST");
    assert_eq!(OpenIdProvider::try_from_str("google"), Some(OpenIdProvider::Google));
    assert_eq!(OpenIdProvider::Google.as_str(), "google");
    assert_eq!(AuthRoute::try_from_paths(&["check-password-reset"]), Some(AuthRoute::CheckPasswordReset));
    assert_eq!(AuthRoute::try_from_paths(&[]), None);
}

#[test]
fn route_auth_kinds() {
    let kind = |a| Route::Auth(a).auth_kind();
    assert_eq!(kind(AuthRoute::Register), RouteAuthKind::CookiesOnly);
    assert_eq!(kind(AuthRoute::Signout), RouteAuthKind::PartialAuthTokenOnly);
    assert_eq!(kind(AuthRoute::SendEmailValidation), RouteAuthKind::PartialAuthAndUserTokenOnly);
    assert_eq!(kind(AuthRoute::Check), RouteAuthKind::Full);
    assert_eq!(kind(AuthRoute::SendPasswordResetMe), RouteAuthKind::Full);
    assert_eq!(kind(AuthRoute::ConfirmEmailValidation), RouteAuthKind::Public);
    assert_eq!(kind(AuthRoute::OpenIdFinalizeExec), RouteAuthKind::CookiesOnly);
}

#[test]
fn frontend_pages_parse_and_link() {
    let p = Page::from_url("http://localhost:8080/verify-email-confirm/ID/KEY", "");
    match &p {
        Page::Landing(Landing::Auth(PageAuth::VerifyEmailConfirm { oob_token_id, oob_token_key })) => {
            assert_eq!(oob_token_id, "ID");
            assert_eq!(oob_token_key, "KEY");
        },
        other => panic!("unexpected {:?}", other),
    }
    assert_eq!(p.link("http://f", ""), "http://f/verify-email-confirm/ID/KEY");
    assert!(matches!(Page::from_url("http://f/", ""), Page::Landing(Landing::Welcome)));
    assert!(matches!(Page::from_url("http://f/dashboard", ""), Page::Dashboard(Dashboard::Browse)));
    assert!(matches!(Page::from_url("http://f/dashboard/profile/x", ""), Page::NotFound(NotFoundReason::BadUrl)));
    assert!(matches!(Page::from_url("http://f/nowhere", ""), Page::NotFound(NotFoundReason::BadUrl)));
    assert!(Page::from_url("http://f/dashboard/browse", "").requires_auth());
    assert!(!Page::from_url("http://f/signin", "").requires_auth());
    assert_eq!(Page::NotFound(NotFoundReason::BadUrl).to_string(), "404");
    assert_eq!(Page::Dashboard(Dashboard::Browse).link("http://f", "app"), "http://f/app/dashboard/browse");
}

#[test]
fn server_hash_is_salted_and_checkable() {
    let salt = [3u8; 32];
    let a = hash_password("c2VjcmV0", Some(&salt)).unwrap();
    let b = hash_password("c2VjcmV0", Some(&salt)).unwrap();
    assert_eq!(a, b);
    assert_eq!(a.len(), 86);
    assert_ne!(a, hash_password("c2VjcmV0", Some(&[4u8; 32])).unwrap());
    let fresh1 = hash_password("c2VjcmV0", None).unwrap();
    let fresh2 = hash_password("c2VjcmV0", None).unwrap();
    assert_ne!(fresh1, fresh2);
    assert!(check_password(&fresh1, "c2VjcmV0"));
    assert!(!check_password(&fresh1, "c2VjcmV1"));
    assert!(matches!(hash_password("not base64!", None), Err(ApiError::Unknown(_))));
    assert!(matches!(hash_password("c2VjcmV0", Some(&[1u8; 31])), Err(ApiError::Unknown(_))));
    // the stored text begins with the salt: 32 bytes of 3 are "AwMD" repeated
    assert!(a.starts_with("AwMDAwMD"));
}

#[test]
fn client_hash_is_deterministic_per_email() {
    let config = Config {
        root_path: String::new(),
        media_root: "/media".to_string(),
        default_lang: None,
        api_domain: "http://localhost:8787".to_string(),
        api_root_path: String::new(),
        argon2_global_salt: b"example".to_vec(),
        auth_signin_key_storage_name: "auth_signin_key".to_string(),
    };
    let a = client_hash_password(&config, "a@b.c", "hunter2").unwrap();
    assert_eq!(a, client_hash_password(&config, "a@b.c", "hunter2").unwrap());
    assert_ne!(a, client_hash_password(&config, "x@b.c", "hunter2").unwrap());
    assert_eq!(a.len(), 43);
    assert!(hash_password(&a, None).is_ok());
    assert_eq!(config.app_image_url("logo.png"), "/media/logo.png");
}

#[test]
fn token_object_lifecycle() {
    let mut t = AuthTokenDO::new();
    let key = t.create(AuthTokenKind::PasswordReset, UserId::new(1), "ut".to_string(), 10, 100).unwrap();
    assert_eq!(key.len(), 22);
    assert_eq!(t.alarm_at, Some(110));
    assert!(t.create(AuthTokenKind::Signin, UserId::new(1), "ut".to_string(), 10, 100).is_err());
    assert!(t.validate(&key, AuthTokenKind::Signin, AuthTokenAfterValidation::Delete, 101).is_err());
    assert!(t.validate("wrong", AuthTokenKind::PasswordReset, AuthTokenAfterValidation::Delete, 101).is_err());
    let v = t.validate(&key, AuthTokenKind::PasswordReset, AuthTokenAfterValidation::ExtendExpiresMs(50), 105).unwrap();
    assert_eq!(v.uid, UserId::new(1));
    assert_eq!(v.user_token, "ut");
    assert_eq!(t.alarm_at, Some(155));
    assert!(t.alarm_due(155) && !t.alarm_due(154));
    t.validate(&key, AuthTokenKind::PasswordReset, AuthTokenAfterValidation::Delete, 106).unwrap();
    assert!(t.validate(&key, AuthTokenKind::PasswordReset, AuthTokenAfterValidation::Delete, 107).is_err());
    let mut u = AuthTokenDO::new();
    u.create(AuthTokenKind::Signin, UserId::new(2), "x".to_string(), u64::MAX, 5).unwrap();
    assert_eq!(u.alarm_at, Some(u64::MAX));
    u.alarm();
    assert!(u.stored.is_none());
    assert_eq!(AUTH_SIGNIN_TOKEN_EXPIRES, 1_209_600_000);
}

#[test]
fn openid_session_object() {
    let mut s = OpenIdSessionDO::new();
    assert!(s.set_nonce("n".to_string()).is_err());
    let key = s.create(OpenIdProvider::Facebook, 0).unwrap();
    assert_eq!(s.alarm_at, Some(3_600_000));
    s.set_nonce("n".to_string()).unwrap();
    assert!(s.set_nonce("m".to_string()).is_err());
    let n = s.get_nonce(&key).unwrap();
    assert_eq!(n.nonce, "n");
    assert_eq!(n.provider, OpenIdProvider::Facebook);
    assert!(s.finalize_query(&key).is_err());
    s.set_access_token("at".to_string(), "e@x".to_string(), false).unwrap();
    let q1 = s.finalize_query(&key).unwrap();
    let q2 = s.finalize_query(&key).unwrap();
    assert_eq!(q1.email, q2.email);
    assert!(s.finalize_query("bad").is_err());
    let e = s.finalize_exec(&key).unwrap();
    assert_eq!(e.access_token, "at");
    assert!(!e.email_verified);
    assert!(s.finalize_exec(&key).is_err());
    assert!(s.finalize_query(&key).is_err());
    assert!(s.key.is_none());
    let _ = OpenIdSessionPhase::Empty;
}

#[test]
fn csrf_state_round_trip() {
    let s = OpenIdSession { id: "0123abcd".to_string(), key: "k-y_Z".to_string() };
    let t = s.to_csrf_token();
    assert_eq!(t, "0123abcd.k-y_Z");
    let back = OpenIdSession::try_from_str(&t).unwrap();
    assert_eq!(back.id, "0123abcd");
    assert_eq!(back.key, "k-y_Z");
    assert!(OpenIdSession::try_from_str("nodot").is_err());
    let three = OpenIdSession::try_from_str("a.b.c").unwrap();
    assert_eq!((three.id.as_str(), three.key.as_str()), ("a", "b"));
}

#[test]
fn processor_fallbacks() {
    let g = OpenIdProcessor::new(OpenIdProvider::Google);
    let f = OpenIdProcessor::new(OpenIdProvider::Facebook);
    assert_eq!(g.issuer_url(), "https://accounts.google.com");
    assert_eq!(f.issuer_url(), "https://www.facebook.com");
    assert_eq!(g.token_endpoint(None), "https://oauth2.googleapis.com/token");
    assert_eq!(f.token_endpoint(None), "https://graph.facebook.com/oauth/access_token");
    assert_eq!(f.token_endpoint(Some("https://t".to_string())), "https://t");
    assert_eq!(g.token_endpoint_auth_methods(None), vec!["client_secret_post".to_string()]);
    assert_eq!(g.client_id_name(), "OAUTH_GOOGLE_CLIENT_ID");
    assert_eq!(f.client_secret_name(), "OAUTH_FACEBOOK_CLIENT_SECRET");
    assert_eq!(g.redirect_uri("http://localhost:8787", ""), "http://localhost:8787/auth/openid-access-token-hook/google");
    let (e, v) = OpenIdProcessor::claims_outcome(Some("e@x".to_string()), None).unwrap();
    assert_eq!(e, "e@x");
    assert!(!v);
    assert!(OpenIdProcessor::claims_outcome(None, Some(true)).is_err());
}

#[test]
fn cookie_and_credentials() {
    assert_eq!(token_id_from_cookie("a=1; X-EXAMPLE-TOKEN-ID=abc; b=2"), Some("abc".to_string()));
    assert_eq!(token_id_from_cookie("X-EXAMPLE-TOKEN-ID"), None);
    assert_eq!(token_id_from_cookie("a=1"), None);
    let (id, key) = extract_credentials(None, Some("X-EXAMPLE-TOKEN-ID=c1"), Some("k")).unwrap();
    assert_eq!((id.as_str(), key.as_str()), ("c1", "k"));
    let (id, _) = extract_credentials(Some("h1"), Some("X-EXAMPLE-TOKEN-ID=c1"), Some("k")).unwrap();
    assert_eq!(id, "h1");
    assert!(extract_credentials(Some("h1"), None, None).is_err());
    assert!(extract_credentials(None, None, Some("k")).is_err());
}

#[test]
fn authorization_per_kind() {
    let unverified = account("ut", false);
    assert!(authorize(RouteAuthKind::PartialAuthTokenOnly, "other", &unverified).is_ok());
    assert!(authorize(RouteAuthKind::PartialAuthAndUserTokenOnly, "ut", &unverified).is_ok());
    assert!(matches!(authorize(RouteAuthKind::PartialAuthAndUserTokenOnly, "old", &unverified), Err(ApiError::Unknown(_))));
    assert!(matches!(authorize(RouteAuthKind::Full, "ut", &unverified), Err(ApiError::Auth(AuthError::EmailNotVerified))));
    assert!(authorize(RouteAuthKind::Full, "ut", &account("ut", true)).is_ok());
    assert!(matches!(flatten_access_error(ApiError::Unknown("x".to_string())), ApiError::Auth(AuthError::NotAuthorized)));
    assert!(matches!(flatten_access_error(ApiError::Auth(AuthError::EmailNotVerified)), ApiError::Auth(AuthError::EmailNotVerified)));
    assert_eq!(ApiError::Auth(AuthError::InvalidSignin).status_code(), 401);
    assert_eq!(ApiError::Unknown("x".to_string()).status_code(), 500);
    assert_eq!(ApiError::Auth(AuthError::NoUserPasswordReset).to_string(), "no such user for password reset");
}

#[test]
fn user_store_keeps_emails_unique() {
    let mut s = UserStore::new();
    UserAccount::insert(&mut s, &UserId::new(1), "p", "a@b.c", "t1", 5).unwrap();
    assert!(UserAccount::insert(&mut s, &UserId::new(2), "p", "a@b.c", "t2", 5).is_err());
    assert!(UserAccount::insert(&mut s, &UserId::new(1), "p", "x@b.c", "t2", 5).is_err());
    assert!(UserAccount::exists_by_email(&s, "a@b.c"));
    assert!(UserAccount::exists_by_email(&s, "A@B.c"));
    assert!(UserAccount::insert(&mut s, &UserId::new(2), "p", "A@B.C", "t2", 5).is_err());
    assert!(!UserAccount::exists_by_email(&s, "b@b.c"));
    UserAccount::update_email_verified(&mut s, &UserId::new(1), true).unwrap();
    assert!(UserAccount::load_by_email(&s, "a@b.c").unwrap().email_verified);
    UserAccount::reset_password(&mut s, &UserId::new(1), "q", "t9").unwrap();
    let a = UserAccount::load_by_id(&s, &UserId::new(1)).unwrap();
    assert_eq!((a.password.as_str(), a.user_token.as_str()), ("q", "t9"));
    assert!(UserAccount::load_by_id(&s, &UserId::new(3)).is_err());
    assert_eq!(UserId::new(255).to_string(), "000000000000000000000000000000ff");
}

#[test]
fn mail_composition() {
    let config = MailerConfig {
        frontend_domain: "https://f".to_string(),
        frontend_root_path: String::new(),
        sender_email: "mailer@example.com".to_string(),
        sender_name: "Demo Mailer".to_string(),
        dkim: None,
    };
    let kind = MailerKind::PasswordReset { oob_token_id: "I".to_string(), oob_token_key: "K".to_string() };
    let en = MailChannelsRequest::new(&config, "a@b.c".to_string(), &kind, ContentLanguage::English);
    assert_eq!(en.subject, "Reset your password");
    assert_eq!(en.content[0].value,
        "<html><body dir=\"ltr\">Click here to reset your password: https://f/reset-password-confirm/I/K</body></html>");
    let he = MailChannelsRequest::new(&config, "a@b.c".to_string(), &kind, ContentLanguage::Hebrew);
    assert!(he.content[0].value.starts_with("<html><body dir=\"rtl\">"));
    assert_eq!(ContentLanguage::from_headers(Some("he-IL,en;q=0.5"), None), ContentLanguage::Hebrew);
    assert_eq!(ContentLanguage::from_headers(None, Some("en-US")), ContentLanguage::English);
    assert_eq!(ContentLanguage::from_headers(Some("fr"), Some("he")), ContentLanguage::English);
    assert_eq!(ContentLanguage::from_headers(None, None), ContentLanguage::English);
    assert_eq!(ContentLanguage::try_from_lang_id("he"), Some(ContentLanguage::Hebrew));
    assert_eq!(ContentLanguage::try_from_lang_id("en-GB"), Some(ContentLanguage::English));
    assert_eq!(ContentLanguage::try_from_lang_id("fr"), None);
    assert_eq!(ContentLanguage::Hebrew.to_lang_id(), "he");
}

#[test]
fn client_state_machines() {
    let mut auth = Auth::new();
    assert!(auth.on_signin(UserId::new(1), false, "k".to_string()));
    assert_eq!(auth.phase, AuthPhase::EmailNotVerified);
    auth.on_api_error(&ApiError::Auth(AuthError::InvalidSignin));
    assert_eq!(auth.try_clone_token_key(), Some("k".to_string()));
    auth.on_api_error(&ApiError::Auth(AuthError::NotAuthorized));
    assert_eq!(auth.phase, AuthPhase::Unauthenticated);
    assert_eq!(auth.try_clone_uid(), None);
    auth.on_check(Ok(UserId::new(4)));
    assert_eq!(auth.phase, AuthPhase::Authenticated);
    auth.on_check(Err(ApiError::Auth(AuthError::EmailNotVerified)));
    assert_eq!(auth.phase, AuthPhase::EmailNotVerified);
    assert!(auth_headers(None, "en").is_err());
    let h = auth_headers(Some("k".to_string()), "he").unwrap();
    assert_eq!(h[0], ("X-EXAMPLE-TOKEN-KEY".to_string(), "k".to_string()));
    assert_eq!(noauth_headers("en")[0].1, "en");

    let mut v = VerifyEmailConfirm::new("i".to_string(), "k".to_string());
    v.on_confirm(false);
    assert_eq!(v.phase, VerifyEmailConfirmPhase::Fail);
    let mut r = VerifyPasswordResetConfirm::new("i".to_string(), "k".to_string());
    assert!(!r.on_submit());
    r.on_check(Some("a@b.c".to_string()));
    assert_eq!(r.phase, VerifyPasswordResetConfirmPhase::Waiting);
    assert!(r.on_submit());
    r.on_confirm(true);
    assert_eq!(r.phase, VerifyPasswordResetConfirmPhase::Success);
    let mut o = OpenIdFinalize::new("s".to_string(), "k".to_string());
    o.on_query(Some(false));
    assert_eq!(o.phase, OpenIdFinalizePhase::AskForRegister);
    assert!(o.accept_terms());
    assert!(o.register_terms);
    assert_eq!(o.phase, OpenIdFinalizePhase::Submitting);
    let mut b = OutlineButton::new(true);
    b.set_size(ButtonSize::Sm);
    assert_eq!(b.size, ButtonSize::Sm);
    assert!(!b.hovering());
    assert_eq!(b.color(), ColorSemantic::Accent);
    b.hovering = true;
    assert_eq!(b.color(), ColorSemantic::AccentAlt);
}

#[test]
fn cors_headers() {
    let allowed = ["http://localhost:8080", "http://127.0.0.1:8080"];
    let h = apply_cors(Some("http://127.0.0.1:8080"), &allowed);
    assert_eq!(h.len(), 5);
    assert_eq!(h[0], ("Access-Control-Allow-Origin".to_string(), "http://127.0.0.1:8080".to_string()));
    assert_eq!(h[4].1, "Content-Type, X-EXAMPLE-TOKEN-KEY, X-EXAMPLE-TOKEN-ID");
    assert_eq!(apply_cors(Some("https://evil"), &allowed).len(), 4);
    assert_eq!(apply_cors(None, &allowed)[0].0, "Access-Control-Allow-Credentials");
    assert_eq!(request_origin(None, Some("r".to_string())), Some("r".to_string()));
    assert_eq!(request_origin(Some("o".to_string()), Some("r".to_string())), Some("o".to_string()));
}

#[test]
fn page_access_and_messages() {
    assert_eq!(page_access(AuthPhase::Init, false), PageAccess::Wait);
    assert_eq!(page_access(AuthPhase::Unauthenticated, true), PageAccess::RedirectNoAuth);
    assert_eq!(page_access(AuthPhase::EmailNotVerified, true), PageAccess::RedirectVerifyEmail);
    assert_eq!(page_access(AuthPhase::EmailNotVerified, false), PageAccess::Show);
    assert_eq!(page_access(AuthPhase::Authenticated, true), PageAccess::Show);
    assert_eq!(ApiError::Auth(AuthError::InvalidSignin).message_id(), "error-api-signin-invalid");
    assert_eq!(ApiError::Unknown("x".to_string()).message_id(), "error-api-unknown");
}
