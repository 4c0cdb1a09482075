use auth_api::api::{
    AuthCheckResetPasswordRequest, AuthConfirmResetPasswordRequest, AuthConfirmVerifyEmailRequest,
    AuthOpenIdConnectRequest, AuthOpenIdFinalizeRequest, AuthRegisterRequest, AuthSendResetPasswordRequestAny,
    AuthSigninRequest,
};
use auth_api::dispatch::{ApiRequestBody, ApiResponseBody, HttpRequest, HttpResponse};
use auth_api::mailer::MailerConfig;
use auth_api::result::{ApiError, AuthError};
use auth_api::route::OpenIdProvider;
use auth_api::openid::OpenIdSession;
use auth_api::service::{ApiService, OpenIdClientConfig};

const API: &str = "http://localhost:8787";
const PASSWORD: &str = "c2VjcmV0LWFyZ29uMi1vdXRwdXQ";
const NEW_PASSWORD: &str = "YW5vdGhlci1hcmdvbjItb3V0cHV0";

fn service() -> ApiService {
    ApiService::new(MailerConfig {
        frontend_domain: "http://localhost:8080".to_string(),
        frontend_root_path: "".to_string(),
        sender_email: "mailer@example.com".to_string(),
        sender_name: "Demo Mailer".to_string(),
        dkim: None,
    })
}

fn request(path: &str, body: ApiRequestBody) -> HttpRequest {
    HttpRequest {
        url: format!("{}/{}", API, path),
        token_id_header: None,
        cookie: None,
        token_key_header: None,
        content_language: None,
        accept_language: None,
        body,
    }
}

fn authed(path: &str, id: &str, key: &str) -> HttpRequest {
    let mut r = request(path, ApiRequestBody::Empty);
    r.token_id_header = Some(id.to_string());
    r.token_key_header = Some(key.to_string());
    r
}

fn send(s: &mut ApiService, req: &HttpRequest) -> HttpResponse {
    s.handle_route(req, "", true, 1_000)
}

fn cookie_id(res: &HttpResponse) -> String {
    let c = res.set_cookie.as_ref().expect("cookie");
    let rest = c.strip_prefix("X-EXAMPLE-TOKEN-ID=").expect("cookie name");
    rest.split(';').next().unwrap().to_string()
}

fn last_mail_link(s: &ApiService) -> (String, String) {
    let m = s.outbox.last().expect("a mail");
    let body = &m.content[0].value;
    let start = body.find("http://localhost:8080/").unwrap();
    let end = body.find("</body>").unwrap();
    let link = &body[start..end];
    let parts: Vec<&str> = link.split('/').collect();
    let n = parts.len();
    (parts[n - 2].to_string(), parts[n - 1].to_string())
}

fn register(s: &mut ApiService, email: &str) -> (HttpResponse, String, String) {
    let res = send(s, &request("auth/register", ApiRequestBody::Register(AuthRegisterRequest {
        email: email.to_string(),
        password: PASSWORD.to_string(),
    })));
    let id = cookie_id(&res);
    let key = match &res.body {
        ApiResponseBody::Register(r) => r.auth_key.clone(),
        other => panic!("unexpected {:?}", other),
    };
    (res, id, key)
}

fn is_auth_error(res: &HttpResponse, e: AuthError) -> bool {
    res.status == 401 && matches!(&res.body, ApiResponseBody::Error(ApiError::Auth(x)) if *x == e)
}

#[test]
fn register_verify_then_check() {
    let mut s = service();
    let (res, id, key) = register(&mut s, "a@b.c");
    assert_eq!(res.status, 200);
    let uid = match &res.body {
        ApiResponseBody::Register(r) => {
            assert!(!r.email_verified);
            r.uid
        },
        _ => unreachable!(),
    };
    assert_eq!(s.outbox.len(), 1);
    assert_eq!(s.outbox[0].personalizations[0].to[0].email, "a@b.c");
    let (oob_id, oob_key) = last_mail_link(&s);
    let confirm = send(&mut s, &request("auth/confirm-email-validation", ApiRequestBody::ConfirmVerifyEmail(
        AuthConfirmVerifyEmailRequest { oob_token_id: oob_id.clone(), oob_token_key: oob_key.clone() })));
    assert_eq!(confirm.status, 200);
    let mut check = request("auth/check", ApiRequestBody::Empty);
    check.cookie = Some(format!("other=1; X-EXAMPLE-TOKEN-ID={}", id));
    check.token_key_header = Some(key.clone());
    let checked = send(&mut s, &check);
    assert_eq!(checked.status, 200);
    match &checked.body {
        ApiResponseBody::Check(c) => assert_eq!(c.uid, uid),
        other => panic!("unexpected {:?}", other),
    }
    // the verification token is single-use
    let again = send(&mut s, &request("auth/confirm-email-validation", ApiRequestBody::ConfirmVerifyEmail(
        AuthConfirmVerifyEmailRequest { oob_token_id: oob_id, oob_token_key: oob_key })));
    assert_eq!(again.status, 500);
}

#[test]
fn register_existing_email_is_refused() {
    let mut s = service();
    register(&mut s, "a@b.c");
    let res = send(&mut s, &request("auth/register", ApiRequestBody::Register(AuthRegisterRequest {
        email: "a@b.c".to_string(),
        password: PASSWORD.to_string(),
    })));
    assert!(is_auth_error(&res, AuthError::EmailAlreadyExists));
    assert_eq!(s.users.rows.len(), 1);
}

#[test]
fn signin_wrong_then_right_password() {
    let mut s = service();
    register(&mut s, "a@b.c");
    let wrong = send(&mut s, &request("auth/signin", ApiRequestBody::Signin(AuthSigninRequest {
        email: "a@b.c".to_string(),
        password: NEW_PASSWORD.to_string(),
    })));
    assert!(is_auth_error(&wrong, AuthError::InvalidSignin));
    let unknown = send(&mut s, &request("auth/signin", ApiRequestBody::Signin(AuthSigninRequest {
        email: "x@y.z".to_string(),
        password: PASSWORD.to_string(),
    })));
    assert!(is_auth_error(&unknown, AuthError::InvalidSignin));
    let right = send(&mut s, &request("auth/signin", ApiRequestBody::Signin(AuthSigninRequest {
        email: "a@b.c".to_string(),
        password: PASSWORD.to_string(),
    })));
    assert_eq!(right.status, 200);
    assert!(right.set_cookie.as_ref().unwrap().contains("SameSite=Strict"));
    match &right.body {
        ApiResponseBody::Signin(r) => assert_eq!(r.uid, s.users.rows[0].id),
        other => panic!("unexpected {:?}", other),
    }
}

#[test]
fn password_reset_flow_invalidates_old_signin() {
    let mut s = service();
    let (_, old_id, old_key) = register(&mut s, "a@b.c");
    let sent = send(&mut s, &request("auth/send-password-reset-any", ApiRequestBody::SendResetPasswordAny(
        AuthSendResetPasswordRequestAny { email: "a@b.c".to_string() })));
    assert_eq!(sent.status, 200);
    let (id, key) = last_mail_link(&s);
    assert!(s.outbox.last().unwrap().content[0].value.contains("/reset-password-confirm/"));
    let checked = send(&mut s, &request("auth/check-password-reset", ApiRequestBody::CheckResetPassword(
        AuthCheckResetPasswordRequest { oob_token_id: id.clone(), oob_token_key: key.clone() })));
    assert_eq!(checked.status, 200);
    match &checked.body {
        ApiResponseBody::CheckResetPassword(r) => assert_eq!(r.email, "a@b.c"),
        other => panic!("unexpected {:?}", other),
    }
    let old_token = s.users.rows[0].user_token.clone();
    let confirmed = send(&mut s, &request("auth/confirm-password-reset", ApiRequestBody::ConfirmResetPassword(
        AuthConfirmResetPasswordRequest { oob_token_id: id, oob_token_key: key, password: NEW_PASSWORD.to_string() })));
    assert_eq!(confirmed.status, 200);
    assert_ne!(s.users.rows[0].user_token, old_token);
    // the old sign-in token is no longer accepted
    let stale = send(&mut s, &authed("auth/send-email-validation", &old_id, &old_key));
    assert!(is_auth_error(&stale, AuthError::NotAuthorized));
    // the new password signs in, the old one does not
    let new_signin = send(&mut s, &request("auth/signin", ApiRequestBody::Signin(AuthSigninRequest {
        email: "a@b.c".to_string(),
        password: NEW_PASSWORD.to_string(),
    })));
    assert_eq!(new_signin.status, 200);
    let old_signin = send(&mut s, &request("auth/signin", ApiRequestBody::Signin(AuthSigninRequest {
        email: "a@b.c".to_string(),
        password: PASSWORD.to_string(),
    })));
    assert!(is_auth_error(&old_signin, AuthError::InvalidSignin));
}

#[test]
fn password_reset_for_unknown_email() {
    let mut s = service();
    let res = send(&mut s, &request("auth/send-password-reset-any", ApiRequestBody::SendResetPasswordAny(
        AuthSendResetPasswordRequestAny { email: "nobody@b.c".to_string() })));
    assert!(is_auth_error(&res, AuthError::NoUserPasswordReset));
    assert!(s.outbox.is_empty());
}

#[test]
fn openid_sign_in_of_new_user() {
    let mut s = service();
    let config = OpenIdClientConfig {
        authorization_endpoint: "https://accounts.google.com/o/oauth2/v2/auth".to_string(),
        client_id: "cid".to_string(),
        api_domain: API.to_string(),
        api_root_path: String::new(),
    };
    let begun = send(&mut s, &request("auth/openid-connect", ApiRequestBody::OpenIdConnect(
        AuthOpenIdConnectRequest { provider: OpenIdProvider::Google }, config)));
    assert_eq!(begun.status, 200);
    let url = match begun.body {
        ApiResponseBody::OpenIdConnect(r) => r.url,
        other => panic!("unexpected {:?}", other),
    };
    let entry = s.sessions.last().unwrap();
    let session = OpenIdSession { id: entry.id.clone(), key: entry.object.key.clone().unwrap() };
    let nonce = entry.object.nonce.clone().unwrap();
    assert!(url.starts_with("https://accounts.google.com/o/oauth2/v2/auth?"));
    assert!(url.contains("response_type=code"));
    assert!(url.contains("client_id=cid"));
    assert!(url.contains("email"));
    assert!(url.contains(&format!("state={}.{}", session.id, session.key)));
    assert!(url.contains(&format!("nonce={}", nonce)));
    assert!(url.contains("redirect_uri=http%3A%2F%2Flocalhost%3A8787%2Fauth%2Fopenid-access-token-hook%2Fgoogle"));
    let state = session.to_csrf_token();
    assert_eq!(state, format!("{}.{}", session.id, session.key));
    let mut hook = request("auth/openid-access-token-hook/google", ApiRequestBody::OpenIdCallback {
        code: Some("X".to_string()),
        state: Some(state.clone()),
    });
    let exchange = send(&mut s, &hook);
    let session = match exchange.body {
        ApiResponseBody::OpenIdExchange { session, exchange: n, code } => {
            assert_eq!(code, "X");
            assert_eq!(n.nonce, nonce);
            assert_eq!(n.provider, OpenIdProvider::Google);
            session
        },
        other => panic!("unexpected {:?}", other),
    };
    let redirected = s.complete_access_token_hook(&session,
        Ok(("access".to_string(), Some("e@x".to_string()), Some(true))));
    assert_eq!(redirected.status, 302);
    assert_eq!(redirected.location.unwrap(),
        format!("http://localhost:8080/openid-finalize/{}/{}", session.id, session.key));
    let finalize = AuthOpenIdFinalizeRequest { session_id: session.id.clone(), session_key: session.key.clone() };
    for _ in 0..2 {
        let q = send(&mut s, &request("auth/openid-finalize-query", ApiRequestBody::OpenIdFinalize(
            AuthOpenIdFinalizeRequest { session_id: finalize.session_id.clone(), session_key: finalize.session_key.clone() })));
        match &q.body {
            ApiResponseBody::OpenIdFinalizeQuery(r) => {
                assert_eq!(r.email, "e@x");
                assert!(!r.user_exists);
            },
            other => panic!("unexpected {:?}", other),
        }
    }
    let exec = send(&mut s, &request("auth/openid-finalize-exec", ApiRequestBody::OpenIdFinalize(
        AuthOpenIdFinalizeRequest { session_id: finalize.session_id.clone(), session_key: finalize.session_key.clone() })));
    assert_eq!(exec.status, 200);
    match &exec.body {
        ApiResponseBody::OpenIdFinalizeExec(r) => assert!(r.email_verified),
        other => panic!("unexpected {:?}", other),
    }
    assert_eq!(s.users.rows.len(), 1);
    assert_eq!(s.users.rows[0].email, "e@x");
    assert!(s.users.rows[0].email_verified);
    // the session is consumed
    let again = send(&mut s, &request("auth/openid-finalize-exec", ApiRequestBody::OpenIdFinalize(finalize)));
    assert_eq!(again.status, 500);
    // a callback with a wrong provider or a missing state goes to the no-auth page
    hook.url = format!("{}/auth/openid-access-token-hook/facebook", API);
    let wrong = send(&mut s, &hook);
    assert_eq!(wrong.status, 302);
    assert_eq!(wrong.location.unwrap(), "http://localhost:8080/no-auth");
}

#[test]
fn auth_requirements_matrix() {
    let mut s = service();
    let (_, id, key) = register(&mut s, "a@b.c");
    for path in ["auth/check", "auth/send-password-reset-me", "auth/signout", "auth/send-email-validation"] {
        let res = send(&mut s, &request(path, ApiRequestBody::Empty));
        assert!(is_auth_error(&res, AuthError::NotAuthorized), "{}", path);
    }
    for path in ["auth/check", "auth/send-password-reset-me"] {
        let res = send(&mut s, &authed(path, &id, &key));
        assert!(is_auth_error(&res, AuthError::EmailNotVerified), "{}", path);
    }
    let partial = send(&mut s, &authed("auth/send-email-validation", &id, &key));
    assert_eq!(partial.status, 200);
    let wrong_key = send(&mut s, &authed("auth/check", &id, "nope"));
    assert!(is_auth_error(&wrong_key, AuthError::NotAuthorized));
    let out = send(&mut s, &authed("auth/signout", &id, &key));
    assert_eq!(out.status, 200);
    assert!(out.set_cookie.unwrap().contains("expires=Thu, 01 Jan 1970"));
    let after = send(&mut s, &authed("auth/send-email-validation", &id, &key));
    assert!(is_auth_error(&after, AuthError::NotAuthorized));
}

#[test]
fn unknown_route_is_not_found() {
    let mut s = service();
    assert_eq!(send(&mut s, &request("auth/nothing", ApiRequestBody::Empty)).status, 404);
    assert_eq!(send(&mut s, &request("other/signin", ApiRequestBody::Empty)).status, 404);
    assert_eq!(send(&mut s, &request("auth/register", ApiRequestBody::Empty)).status, 500);
}

#[test]
fn expired_tokens_are_refused() {
    let mut s = service();
    let (_, id, key) = register(&mut s, "a@b.c");
    let later = 1_000 + 1_209_599_999;
    s.fire_alarms(later);
    let alive = s.handle_route(&authed("auth/send-email-validation", &id, &key), "", true, later);
    assert_eq!(alive.status, 200);
    // each authenticated request slides the expiry forward from its own time
    s.fire_alarms(1_000 + 1_209_600_000);
    let still = s.handle_route(&authed("auth/send-email-validation", &id, &key), "", true, later + 1);
    assert_eq!(still.status, 200);
    s.fire_alarms(u64::MAX);
    let expired = send(&mut s, &authed("auth/send-email-validation", &id, &key));
    assert!(is_auth_error(&expired, AuthError::NotAuthorized));
}

#[test]
fn openid_connect_with_bad_endpoint_changes_nothing() {
    let mut s = service();
    let res = send(&mut s, &request("auth/openid-connect", ApiRequestBody::OpenIdConnect(
        AuthOpenIdConnectRequest { provider: OpenIdProvider::Facebook },
        OpenIdClientConfig {
            authorization_endpoint: "not a url".to_string(),
            client_id: "cid".to_string(),
            api_domain: API.to_string(),
            api_root_path: String::new(),
        })));
    assert_eq!(res.status, 500);
    assert!(s.sessions.is_empty());
}

#[test]
fn refusals_leave_state_alone_and_signins_are_distinct() {
    let mut s = service();
    register(&mut s, "a@b.c");
    let (tokens, mails) = (s.tokens.len(), s.outbox.len());
    let again = send(&mut s, &request("auth/register", ApiRequestBody::Register(AuthRegisterRequest {
        email: "a@b.c".to_string(),
        password: PASSWORD.to_string(),
    })));
    assert!(is_auth_error(&again, AuthError::EmailAlreadyExists));
    let wrong = send(&mut s, &request("auth/signin", ApiRequestBody::Signin(AuthSigninRequest {
        email: "a@b.c".to_string(),
        password: NEW_PASSWORD.to_string(),
    })));
    assert!(is_auth_error(&wrong, AuthError::InvalidSignin));
    assert_eq!((s.tokens.len(), s.outbox.len()), (tokens, mails));
    let signin = |s: &mut ApiService| send(s, &request("auth/signin", ApiRequestBody::Signin(AuthSigninRequest {
        email: "a@b.c".to_string(),
        password: PASSWORD.to_string(),
    })));
    let first = signin(&mut s);
    let second = signin(&mut s);
    assert_ne!(cookie_id(&first), cookie_id(&second));
    assert_eq!(s.tokens.len(), tokens + 2);
    // the registration mail carries a verification token, not the sign-in token
    assert!(s.outbox[0].content[0].value.contains("/verify-email-confirm/"));
}

#[test]
fn emails_compare_in_lower_case() {
    let mut s = service();
    register(&mut s, "a@b.c");
    let dup = send(&mut s, &request("auth/register", ApiRequestBody::Register(AuthRegisterRequest {
        email: "A@B.C".to_string(),
        password: PASSWORD.to_string(),
    })));
    assert!(is_auth_error(&dup, AuthError::EmailAlreadyExists));
    let signin = send(&mut s, &request("auth/signin", ApiRequestBody::Signin(AuthSigninRequest {
        email: "A@b.C".to_string(),
        password: PASSWORD.to_string(),
    })));
    assert_eq!(signin.status, 200);
}

#[test]
fn forged_id_token_is_refused() {
    let mut s = service();
    let config = OpenIdClientConfig {
        authorization_endpoint: "https://accounts.google.com/o/oauth2/v2/auth".to_string(),
        client_id: "cid".to_string(),
        api_domain: API.to_string(),
        api_root_path: String::new(),
    };
    let begun = send(&mut s, &request("auth/openid-connect", ApiRequestBody::OpenIdConnect(
        AuthOpenIdConnectRequest { provider: OpenIdProvider::Google }, config)));
    assert_eq!(begun.status, 200);
    let entry = s.sessions.last().unwrap();
    let session = OpenIdSession { id: entry.id.clone(), key: entry.object.key.clone().unwrap() };
    let res = s.complete_access_token_hook_verified(&session, OpenIdProvider::Google,
        Ok(("access".to_string(), "not.a.jwt".to_string())), "{\"keys\":[]}", "cid");
    assert_eq!(res.status, 302);
    assert_eq!(res.location.unwrap(), "http://localhost:8080/no-auth");
    assert!(s.sessions.last().unwrap().object.access_token.is_none());
    let wrong_provider = s.complete_access_token_hook_verified(&session, OpenIdProvider::Facebook,
        Ok(("access".to_string(), "not.a.jwt".to_string())), "{\"keys\":[]}", "cid");
    assert_eq!(wrong_provider.location.unwrap(), "http://localhost:8080/no-auth");
}
