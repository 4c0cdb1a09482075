//! Request dispatch: the URL selects a route, the route's declared authentication is checked, and
//! credentials, and the route's handler answers with a status, a body and
//! optional cookie or redirect.
use vstd::prelude::*;
use crate::api::{
    AuthCheckResetPasswordRequest, AuthCheckResetPasswordResponse, AuthCheckResponse,
    AuthConfirmResetPasswordRequest, AuthConfirmResetPasswordResponse, AuthConfirmVerifyEmailRequest,
    AuthOpenIdConnectRequest, AuthOpenIdConnectResponse, AuthOpenIdFinalizeExecResponse, AuthOpenIdFinalizeQueryResponse,
    AuthOpenIdFinalizeRequest, AuthRegisterRequest, AuthRegisterResponse, AuthSendResetPasswordRequestAny,
    AuthSigninRequest, AuthSigninResponse,
};
use crate::access::{opt_view, request_token_id};
use crate::mailer::ContentLanguage;
use crate::openid::{OpenIdSession, OpenIdSessionNonce, OpenIdSessionPhase};
use crate::frontend_route::{AuthRoute as FrontendAuthRoute, Landing, NotFoundReason, Route as FrontendRoute};
use crate::result::{ApiError, AuthError};
use crate::route::{route_segments, AuthRoute, OpenIdProvider, Route, RouteAuthKind};
use crate::service::{delete_signin_cookie, set_signin_cookie, signin_cookie, ApiService, AuthUser, OpenIdClientConfig};
use crate::codec::is_base64;
use crate::password::password_matches;
use crate::token::AuthTokenKind;

verus! {

/// A request's body, already decoded.
#[derive(Debug)]
pub enum ApiRequestBody {
    Empty,
    Signin(AuthSigninRequest),
    Register(AuthRegisterRequest),
    ConfirmVerifyEmail(AuthConfirmVerifyEmailRequest),
    SendResetPasswordAny(AuthSendResetPasswordRequestAny),
    ConfirmResetPassword(AuthConfirmResetPasswordRequest),
    CheckResetPassword(AuthCheckResetPasswordRequest),
    /// The request, and what the authorization URL is built from.
    OpenIdConnect(AuthOpenIdConnectRequest, OpenIdClientConfig),
    OpenIdFinalize(AuthOpenIdFinalizeRequest),
    /// The query of the provider's callback.
    OpenIdCallback { code: Option<String>, state: Option<String> },
}

/// A response's body, before encoding.
#[derive(Debug)]
pub enum ApiResponseBody {
    Empty,
    Signin(AuthSigninResponse),
    Register(AuthRegisterResponse),
    Check(AuthCheckResponse),
    CheckResetPassword(AuthCheckResetPasswordResponse),
    ConfirmResetPassword(AuthConfirmResetPasswordResponse),
    OpenIdFinalizeQuery(AuthOpenIdFinalizeQueryResponse),
    OpenIdFinalizeExec(AuthOpenIdFinalizeExecResponse),
    OpenIdConnect(AuthOpenIdConnectResponse),
    /// The callback checked out: the code is to be exchanged for tokens.
    OpenIdExchange { session: OpenIdSession, exchange: OpenIdSessionNonce, code: String },
    Error(ApiError),
}

/// A request: its URL, the headers that authentication and the mailer read, and its body.
#[derive(Debug)]
pub struct HttpRequest {
    pub url: String,
    pub token_id_header: Option<String>,
    pub cookie: Option<String>,
    pub token_key_header: Option<String>,
    pub content_language: Option<String>,
    pub accept_language: Option<String>,
    pub body: ApiRequestBody,
}

#[derive(Debug)]
pub struct HttpResponse {
    pub status: u16,
    pub body: ApiResponseBody,
    pub set_cookie: Option<String>,
    pub location: Option<String>,
}

fn opt_str(o: &Option<String>) -> (r: Option<&str>)
    ensures
        opt_view(r) == match o { Some(s) => Some(s@), None => None::<Seq<char>> },
{
    match o {
        Some(s) => Some(s.as_str()),
        None => None,
    }
}

fn error_response(e: ApiError) -> (r: HttpResponse)
    ensures
        r.status == e.status_spec(),
        r.body == ApiResponseBody::Error(e),
        r.set_cookie is None,
        r.location is None,
{
    HttpResponse { status: e.status_code(), body: ApiResponseBody::Error(e), set_cookie: None, location: None }
}

fn ok_response(body: ApiResponseBody, set_cookie: Option<String>) -> (r: HttpResponse)
    ensures
        r.status == 200,
        r.body == body,
        r.set_cookie == set_cookie,
        r.location is None,
{
    HttpResponse { status: 200, body, set_cookie, location: None }
}

fn bad_body() -> (r: HttpResponse)
    ensures
        r.status == 500,
{
    error_response(ApiError::unknown("invalid request body"))
}

fn redirect(location: String) -> (r: HttpResponse)
    ensures
        r.status == 302,
        r.location == Some(location),
{
    HttpResponse { status: 302, body: ApiResponseBody::Empty, set_cookie: None, location: Some(location) }
}

pub open spec fn request_id(req: &HttpRequest) -> Option<Seq<char>> {
    request_token_id(
        match req.token_id_header { Some(s) => Some(s@), None => None },
        match req.cookie { Some(s) => Some(s@), None => None },
    )
}

pub open spec fn request_key(req: &HttpRequest) -> Option<Seq<char>> {
    match req.token_key_header { Some(s) => Some(s@), None => None }
}

impl ApiService {
    /// Answers one request at time `now`. An unknown URL gives 404. On a
    /// route that reads credentials, a request that fails authentication gives 401
    /// with `EmailNotVerified` or `NotAuthorized`; one that passes reaches the
    /// handler. Handler errors give their status (401 or 500).
    pub fn handle_route(&mut self, req: &HttpRequest, api_root_path: &str, same_site_strict: bool, now: u64) -> (r: HttpResponse)
        requires
            old(self).wf(),
        ensures
            final(self).wf(),
            (forall|x: Route| x.segments() != route_segments(req.url@, api_root_path@)) <==> r.status == 404,
            forall|x: Route| #[trigger] x.segments() == route_segments(req.url@, api_root_path@)
                && x.auth_kind_spec().needs_credentials()
                && !old(self).credentials_pass(x.auth_kind_spec(), request_id(req), request_key(req))
                ==> r.status == 401 && (r.body == ApiResponseBody::Error(ApiError::Auth(AuthError::NotAuthorized))
                    || r.body == ApiResponseBody::Error(ApiError::Auth(AuthError::EmailNotVerified))),
            forall|x: Route| #[trigger] x.segments() == route_segments(req.url@, api_root_path@)
                && x.auth_kind_spec().needs_credentials()
                && old(self).credentials_unverified(x.auth_kind_spec(), request_id(req), request_key(req))
                ==> r.status == 401 && r.body == ApiResponseBody::Error(ApiError::Auth(AuthError::EmailNotVerified)),
            r.status == 200 || r.status == 302 || r.status == 401 || r.status == 404 || r.status == 500,
            forall|x: Route| #[trigger] x.segments() == route_segments(req.url@, api_root_path@)
                && x.auth_kind_spec().needs_credentials()
                && !old(self).credentials_pass(x.auth_kind_spec(), request_id(req), request_key(req))
                && !old(self).credentials_unverified(x.auth_kind_spec(), request_id(req), request_key(req))
                ==> r.status == 401 && r.body == ApiResponseBody::Error(ApiError::Auth(AuthError::NotAuthorized)),
            forall|x: Route| #[trigger] x.segments() == route_segments(req.url@, api_root_path@)
                && x.auth_kind_spec().needs_credentials()
                && !old(self).credentials_pass(x.auth_kind_spec(), request_id(req), request_key(req))
                ==> final(self).users == old(self).users && final(self).outbox == old(self).outbox
                    && final(self).sessions == old(self).sessions,
            forall|x: Route| #[trigger] x.segments() == route_segments(req.url@, api_root_path@)
                && x.auth_kind_spec().needs_credentials()
                && (request_id(req) is None || request_key(req) is None)
                ==> final(self).tokens@ == old(self).tokens@,
            forall|x: Route| #[trigger] x.segments() == route_segments(req.url@, api_root_path@)
                && x.auth_kind_spec().needs_credentials()
                && old(self).credentials_pass(x.auth_kind_spec(), request_id(req), request_key(req))
                ==> r.status == 200,
            route_segments(req.url@, api_root_path@) == Route::Auth(AuthRoute::Check).segments()
                && old(self).credentials_pass(RouteAuthKind::Full, request_id(req), request_key(req))
                ==> r.body == ApiResponseBody::Check(AuthCheckResponse {
                    uid: old(self).users.by_id(old(self).stored(request_id(req)->Some_0).uid).id }),
            route_segments(req.url@, api_root_path@) == Route::Auth(AuthRoute::ConfirmPasswordReset).segments() ==>
                (req.body matches ApiRequestBody::ConfirmResetPassword(data) ==>
                    (r.status == 200 <==> old(self).oob_valid(AuthTokenKind::PasswordReset, data.oob_token_id@, data.oob_token_key@)
                        && is_base64(data.password@))),
            route_segments(req.url@, api_root_path@) == Route::Auth(AuthRoute::OpenIdFinalizeExec).segments() ==>
                (req.body matches ApiRequestBody::OpenIdFinalize(data) ==>
                    (old(self).has_session(data.session_id@) && old(self).session(data.session_id@).can_finalize(data.session_key@)
                        ==> r.status == 200)
                    && (r.status == 200 ==> old(self).has_session(data.session_id@)
                        && old(self).session(data.session_id@).can_finalize(data.session_key@))),
            route_segments(req.url@, api_root_path@) == Route::Auth(AuthRoute::Register).segments() ==>
                (req.body matches ApiRequestBody::Register(data) ==>
                    ((!old(self).users.has_email(data.email@) && is_base64(data.password@)) ==> r.status == 200)
                    && (r.status == 200 ==> r.body is Register && r.set_cookie is Some)
                    && (r.body matches ApiResponseBody::Register(res) ==> exists|id: Seq<char>|
                        r.set_cookie == Some(r.set_cookie->Some_0)
                        && r.set_cookie->Some_0@ == #[trigger] signin_cookie(id, same_site_strict)
                        && final(self).token_accepts(id, res.auth_key@, AuthTokenKind::Signin)
                        && final(self).stored(id).uid == res.uid)),
            route_segments(req.url@, api_root_path@) == Route::Auth(AuthRoute::Signin).segments() ==>
                (req.body matches ApiRequestBody::Signin(data) ==>
                    ((old(self).users.has_email(data.email@)
                        && password_matches(old(self).users.by_email(data.email@).password@, data.password@)) <==> r.status == 200)
                    && (r.status == 200 ==> r.body is Signin && r.set_cookie is Some)
                    && (r.body matches ApiResponseBody::Signin(res) ==> exists|id: Seq<char>|
                        r.set_cookie->Some_0@ == #[trigger] signin_cookie(id, same_site_strict)
                        && final(self).token_accepts(id, res.auth_key@, AuthTokenKind::Signin)
                        && final(self).stored(id).uid == res.uid)),
            route_segments(req.url@, api_root_path@) == Route::Auth(AuthRoute::Signin).segments() ==>
                (req.body matches ApiRequestBody::Signin(data) ==>
                    (r.status == 200 || (r.status == 401 && r.body == ApiResponseBody::Error(ApiError::Auth(AuthError::InvalidSignin))))
                    && (r.status == 200 ==> old(self).users.has_email(data.email@)
                        && password_matches(old(self).users.by_email(data.email@).password@, data.password@))),
            route_segments(req.url@, api_root_path@) == Route::Auth(AuthRoute::Register).segments() ==>
                (req.body matches ApiRequestBody::Register(data) ==>
                    (old(self).users.has_email(data.email@) <==> (r.status == 401
                        && r.body == ApiResponseBody::Error(ApiError::Auth(AuthError::EmailAlreadyExists))))),
            route_segments(req.url@, api_root_path@) == Route::Auth(AuthRoute::ConfirmEmailValidation).segments() ==>
                (req.body matches ApiRequestBody::ConfirmVerifyEmail(data) ==>
                    (r.status == 200 <==> old(self).oob_valid(AuthTokenKind::VerifyEmail, data.oob_token_id@, data.oob_token_key@))),
            route_segments(req.url@, api_root_path@) == Route::Auth(AuthRoute::CheckPasswordReset).segments() ==>
                (req.body matches ApiRequestBody::CheckResetPassword(data) ==>
                    (r.status == 200 <==> old(self).oob_valid(AuthTokenKind::PasswordReset, data.oob_token_id@, data.oob_token_key@))),
            route_segments(req.url@, api_root_path@) == Route::Auth(AuthRoute::SendPasswordResetAny).segments() ==>
                (req.body matches ApiRequestBody::SendResetPasswordAny(data) ==>
                    (!old(self).users.has_email(data.email@) <==> (r.status == 401
                        && r.body == ApiResponseBody::Error(ApiError::Auth(AuthError::NoUserPasswordReset))))),
            route_segments(req.url@, api_root_path@) == Route::Auth(AuthRoute::OpenIdFinalizeQuery).segments() ==>
                (req.body matches ApiRequestBody::OpenIdFinalize(data) ==>
                    (r.status == 200 <==> old(self).has_session(data.session_id@)
                        && old(self).session(data.session_id@).can_finalize(data.session_key@))),
    {
        let route = match Route::try_from_url(req.url.as_str(), api_root_path) {
            Some(r) => r,
            None => {
                return HttpResponse { status: 404, body: ApiResponseBody::Empty, set_cookie: None, location: None };
            },
        };
        proof {
            assert forall|x: Route| x.segments() == route_segments(req.url@, api_root_path@) implies x == route by {
                lemma_route_segments_injective(x, route);
            }
        }
        let lang = ContentLanguage::from_headers(opt_str(&req.content_language), opt_str(&req.accept_language));
        let user = match AuthUser::try_new(self, &route, opt_str(&req.token_id_header), opt_str(&req.cookie),
            opt_str(&req.token_key_header), now) {
            Ok(u) => u,
            Err(e) => {
                return error_response(e);
            },
        };
        let Route::Auth(auth_route) = route;
        match auth_route {
            AuthRoute::Register => match &req.body {
                ApiRequestBody::Register(data) => match self.register(data, lang, now) {
                    Ok((res, tok)) => ok_response(ApiResponseBody::Register(res),
                        Some(set_signin_cookie(tok.id.as_str(), same_site_strict))),
                    Err(e) => error_response(e),
                },
                _ => bad_body(),
            },
            AuthRoute::Signin => match &req.body {
                ApiRequestBody::Signin(data) => match self.signin(data, now) {
                    Ok((res, tok)) => ok_response(ApiResponseBody::Signin(res),
                        Some(set_signin_cookie(tok.id.as_str(), same_site_strict))),
                    Err(e) => error_response(e),
                },
                _ => bad_body(),
            },
            AuthRoute::Check => match user {
                Some(u) => ok_response(ApiResponseBody::Check(ApiService::check(&u)), None),
                None => error_response(ApiError::Auth(AuthError::NotAuthorized)),
            },
            AuthRoute::Signout => match user {
                Some(u) => {
                    self.signout(&u);
                    ok_response(ApiResponseBody::Empty, Some(delete_signin_cookie()))
                },
                None => error_response(ApiError::Auth(AuthError::NotAuthorized)),
            },
            AuthRoute::SendEmailValidation => match user {
                Some(u) => match self.send_email_validation(&u.account, lang, now) {
                    Ok(()) => ok_response(ApiResponseBody::Empty, None),
                    Err(e) => error_response(e),
                },
                None => error_response(ApiError::Auth(AuthError::NotAuthorized)),
            },
            AuthRoute::ConfirmEmailValidation => match &req.body {
                ApiRequestBody::ConfirmVerifyEmail(data) => match self.confirm_email_validation(data, now) {
                    Ok(()) => ok_response(ApiResponseBody::Empty, None),
                    Err(e) => error_response(e),
                },
                _ => bad_body(),
            },
            AuthRoute::SendPasswordResetAny => match &req.body {
                ApiRequestBody::SendResetPasswordAny(data) => match self.send_password_reset_any(data, lang, now) {
                    Ok(()) => ok_response(ApiResponseBody::Empty, None),
                    Err(e) => error_response(e),
                },
                _ => bad_body(),
            },
            AuthRoute::SendPasswordResetMe => match user {
                Some(u) => match self.send_password_reset_me(&u, lang, now) {
                    Ok(()) => ok_response(ApiResponseBody::Empty, None),
                    Err(e) => error_response(e),
                },
                None => error_response(ApiError::Auth(AuthError::NotAuthorized)),
            },
            AuthRoute::ConfirmPasswordReset => match &req.body {
                ApiRequestBody::ConfirmResetPassword(data) => match self.confirm_password_reset(data, now) {
                    Ok((res, tok)) => ok_response(ApiResponseBody::ConfirmResetPassword(res),
                        Some(set_signin_cookie(tok.id.as_str(), same_site_strict))),
                    Err(e) => error_response(e),
                },
                _ => bad_body(),
            },
            AuthRoute::CheckPasswordReset => match &req.body {
                ApiRequestBody::CheckResetPassword(data) => match self.check_password_reset(data, now) {
                    Ok(res) => ok_response(ApiResponseBody::CheckResetPassword(res), None),
                    Err(e) => error_response(e),
                },
                _ => bad_body(),
            },
            AuthRoute::OpenIdConnect => match &req.body {
                ApiRequestBody::OpenIdConnect(data, client) => match self.openid_connect(data, client, now) {
                    Ok((_, url)) => ok_response(ApiResponseBody::OpenIdConnect(AuthOpenIdConnectResponse { url }), None),
                    Err(e) => error_response(e),
                },
                _ => bad_body(),
            },
            AuthRoute::OpenIdAccessTokenHook(provider) => match &req.body {
                ApiRequestBody::OpenIdCallback { code: Some(code), state: Some(state) } => {
                    match self.openid_callback_begin(provider, state.as_str()) {
                        Ok((session, nonce)) => ok_response(
                            ApiResponseBody::OpenIdExchange { session, exchange: nonce, code: code.clone() }, None),
                        Err(e) => redirect(self.access_token_hook_redirect(&Err(e))),
                    }
                },
                _ => redirect(self.access_token_hook_redirect(&Err(ApiError::unknown("missing code or state")))),
            },
            AuthRoute::OpenIdFinalizeExec => match &req.body {
                ApiRequestBody::OpenIdFinalize(data) => match self.openid_finalize_exec(data, now) {
                    Ok((res, tok)) => ok_response(ApiResponseBody::OpenIdFinalizeExec(res),
                        Some(set_signin_cookie(tok.id.as_str(), same_site_strict))),
                    Err(e) => error_response(e),
                },
                _ => bad_body(),
            },
            AuthRoute::OpenIdFinalizeQuery => match &req.body {
                ApiRequestBody::OpenIdFinalize(data) => match self.openid_finalize_query(data) {
                    Ok(res) => ok_response(ApiResponseBody::OpenIdFinalizeQuery(res), None),
                    Err(e) => error_response(e),
                },
                _ => bad_body(),
            },
        }
    }

    /// Completes the provider's callback once the code has been exchanged:
    /// stores the outcome on the session and redirects the browser to the
    /// finalize page, or to the "no auth" page after any failure.
    pub fn complete_access_token_hook(&mut self, session: &OpenIdSession, exchange: Result<(String, Option<String>, Option<bool>), ApiError>)
        -> (r: HttpResponse)
        requires
            old(self).wf(),
        ensures
            final(self).wf(),
            r.status == 302,
            r.location is Some,
            (exchange is Ok && exchange->Ok_0.1 is Some && old(self).has_session(session.id@)
                && old(self).session(session.id@).phase() == OpenIdSessionPhase::NonceSet)
                ==> r.location->Some_0@ == FrontendRoute::Landing(Landing::Auth(FrontendAuthRoute::OpenIdFinalize {
                    session_id: session.id, session_key: session.key })).link_spec(
                    old(self).mailer.frontend_domain@, old(self).mailer.frontend_root_path@),
            (exchange is Ok && exchange->Ok_0.1 is Some && old(self).has_session(session.id@)
                && old(self).session(session.id@).phase() == OpenIdSessionPhase::NonceSet)
                ==> final(self).has_session(session.id@)
                    && final(self).session(session.id@).access_token == Some(exchange->Ok_0.0)
                    && final(self).session(session.id@).email == exchange->Ok_0.1
                    && final(self).session(session.id@).email_verified == Some(exchange->Ok_0.2 == Some(true)),
            !(exchange is Ok && exchange->Ok_0.1 is Some && old(self).has_session(session.id@)
                && old(self).session(session.id@).phase() == OpenIdSessionPhase::NonceSet)
                ==> r.location->Some_0@ == FrontendRoute::NotFound(NotFoundReason::NoAuth).link_spec(
                    old(self).mailer.frontend_domain@, old(self).mailer.frontend_root_path@),
    {
        let outcome = match exchange {
            Ok((access_token, email, verified)) => match self.openid_callback_complete(session, access_token, email, verified) {
                Ok(()) => Ok(session.duplicate()),
                Err(e) => Err(e),
            },
            Err(e) => Err(e),
        };
        redirect(self.access_token_hook_redirect(&outcome))
    }
}

impl ApiService {
    /// Completes the provider's callback from its token response (access
    /// token and ID token): the ID token is checked (see
    /// `openid_callback_verify`) and the browser is redirected to the
    /// finalize page, or to the "no auth" page after any failure.
    pub fn complete_access_token_hook_verified(&mut self, session: &OpenIdSession, provider: OpenIdProvider,
        tokens: Result<(String, String), ApiError>, jwks_json: &str, client_id: &str) -> (r: HttpResponse)
        requires
            old(self).wf(),
        ensures
            final(self).wf(),
            final(self).users == old(self).users,
            final(self).tokens == old(self).tokens,
            r.status == 302,
            r.location is Some,
            (tokens is Err || !(old(self).has_session(session.id@) && old(self).session(session.id@).key_is(session.key@)
                && old(self).session(session.id@).phase() == OpenIdSessionPhase::NonceSet
                && old(self).session(session.id@).provider == Some(provider)))
                ==> r.location->Some_0@ == FrontendRoute::NotFound(NotFoundReason::NoAuth).link_spec(
                    old(self).mailer.frontend_domain@, old(self).mailer.frontend_root_path@)
                    && final(self).sessions@ == old(self).sessions@,
            r.location->Some_0@ != FrontendRoute::NotFound(NotFoundReason::NoAuth).link_spec(
                old(self).mailer.frontend_domain@, old(self).mailer.frontend_root_path@)
                ==> final(self).has_session(session.id@)
                    && final(self).session(session.id@).phase() == OpenIdSessionPhase::TokenSet
                    && r.location->Some_0@ == FrontendRoute::Landing(Landing::Auth(FrontendAuthRoute::OpenIdFinalize {
                        session_id: session.id, session_key: session.key })).link_spec(
                        old(self).mailer.frontend_domain@, old(self).mailer.frontend_root_path@),
    {
        let outcome = match tokens {
            Ok((access_token, id_token)) => match self.openid_callback_verify(session, provider, access_token,
                id_token.as_str(), jwks_json, client_id) {
                Ok(()) => Ok(session.duplicate()),
                Err(e) => Err(e),
            },
            Err(e) => Err(e),
        };
        redirect(self.access_token_hook_redirect(&outcome))
    }
}

/// The origin a request comes from: its `Origin` header, else its `Referer`.
pub fn request_origin(origin: Option<String>, referrer: Option<String>) -> (r: Option<String>)
    ensures
        r == (if origin is Some { origin } else { referrer }),
{
    match origin {
        Some(o) => Some(o),
        None => referrer,
    }
}

/// `o` is one of `allowed`.
pub open spec fn origin_allowed(o: Seq<char>, allowed: Seq<&str>) -> bool {
    exists|i: int| 0 <= i < allowed.len() && allowed[i]@ == o
}

/// The CORS headers of a response: the request's origin is echoed when it
/// is allowed; credentials, a day of caching, the methods and the headers
/// the API reads are always declared.
pub fn apply_cors(origin: Option<&str>, allowed_origins: &[&str]) -> (r: Vec<(String, String)>)
    ensures
        (origin matches Some(o) && origin_allowed(o@, allowed_origins@)) ==> r@.len() == 5
            && r@[0].0@ == "Access-Control-Allow-Origin"@ && r@[0].1@ == origin->Some_0@,
        !(origin matches Some(o) && origin_allowed(o@, allowed_origins@)) ==> r@.len() == 4,
        r@[r@.len() - 4].0@ == "Access-Control-Allow-Credentials"@ && r@[r@.len() - 4].1@ == "true"@,
        r@[r@.len() - 3].0@ == "Access-Control-Max-Age"@ && r@[r@.len() - 3].1@ == "86400"@,
        r@[r@.len() - 2].0@ == "Access-Control-Allow-Methods"@ && r@[r@.len() - 2].1@ == "GET, HEAD, POST, OPTIONS"@,
        r@[r@.len() - 1].0@ == "Access-Control-Allow-Headers"@
            && r@[r@.len() - 1].1@ == "Content-Type, X-EXAMPLE-TOKEN-KEY, X-EXAMPLE-TOKEN-ID"@,
{
    let mut headers: Vec<(String, String)> = Vec::new();
    match origin {
        Some(o) => {
            let mut i: usize = 0;
            let mut found = false;
            while i < allowed_origins.len()
                invariant
                    0 <= i <= allowed_origins@.len(),
                    found == exists|k: int| 0 <= k < i && allowed_origins@[k]@ == o@,
                decreases allowed_origins@.len() - i,
            {
                if crate::text::str_eq(allowed_origins[i], o) {
                    found = true;
                }
                i = i + 1;
            }
            if found {
                headers.push(("Access-Control-Allow-Origin".to_string(), o.to_string()));
            }
        },
        None => {},
    }
    headers.push(("Access-Control-Allow-Credentials".to_string(), "true".to_string()));
    headers.push(("Access-Control-Max-Age".to_string(), "86400".to_string()));
    headers.push(("Access-Control-Allow-Methods".to_string(), "GET, HEAD, POST, OPTIONS".to_string()));
    headers.push(("Access-Control-Allow-Headers".to_string(), "Content-Type, X-EXAMPLE-TOKEN-KEY, X-EXAMPLE-TOKEN-ID".to_string()));
    headers
}

/// Two endpoints with the same path segments are the same endpoint.
pub proof fn lemma_auth_segments_injective(x: AuthRoute, y: AuthRoute)
    requires
        x.segments() == y.segments(),
    ensures
        x == y,
{
    reveal_strlit("register");
    reveal_strlit("signin");
    reveal_strlit("check");
    reveal_strlit("signout");
    reveal_strlit("send-email-validation");
    reveal_strlit("confirm-email-validation");
    reveal_strlit("send-password-reset-any");
    reveal_strlit("send-password-reset-me");
    reveal_strlit("confirm-password-reset");
    reveal_strlit("check-password-reset");
    reveal_strlit("openid-connect");
    reveal_strlit("openid-access-token-hook");
    reveal_strlit("openid-finalize-exec");
    reveal_strlit("openid-finalize-query");
    reveal_strlit("google");
    reveal_strlit("facebook");
    let sx = x.segments();
    let sy = y.segments();
    assert(sx.len() == sy.len());
    assert(sx[0] == sy[0]);
    assert(sx[0].len() == sy[0].len());
    assert(sx[0][0] == sy[0][0]);
    if sx.len() == 2 {
        assert(sx[1] == sy[1]);
        assert(sx[1].len() == sy[1].len());
    }
}

/// Two routes with the same path segments are the same route.
pub proof fn lemma_route_segments_injective(a: Route, b: Route)
    requires
        a.segments() == b.segments(),
    ensures
        a == b,
{
    let Route::Auth(x) = a;
    let Route::Auth(y) = b;
    assert(x.segments() =~= a.segments().subrange(1, a.segments().len() as int));
    assert(y.segments() =~= b.segments().subrange(1, b.segments().len() as int));
    lemma_auth_segments_injective(x, y);
}

} // verus!
