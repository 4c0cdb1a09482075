//! The API's endpoints: each one's route and method, and its request and
//! response bodies.
use vstd::prelude::*;
use crate::route::{AuthRoute, Method, OpenIdProvider, Route};
use crate::user::UserId;

verus! {

/// An endpoint with a request body and a response body.
pub trait ApiBoth {
    fn route() -> Route;
    fn method() -> Method;
}

/// An endpoint with a request body only.
pub trait ApiReq {
    fn route() -> Route;
    fn method() -> Method;
}

/// An endpoint with a response body only.
pub trait ApiRes {
    fn route() -> Route;
    fn method() -> Method;
}

/// An endpoint with neither body.
pub trait ApiEmpty {
    fn route() -> Route;
    fn method() -> Method;
}

/// An endpoint without bodies whose route depends on the value.
pub trait ApiEmptyDynRoute {
    fn route(&self) -> Route;
    fn method() -> Method;
}

pub struct AuthSignin {}
pub struct AuthSignout {}
pub struct AuthRegister {}
pub struct AuthCheck {}
pub struct AuthSendVerifyEmail {}
pub struct AuthConfirmVerifyEmail {}
pub struct AuthSendResetPasswordAny {}
pub struct AuthSendResetPasswordMe {}
pub struct AuthConfirmResetPassword {}
pub struct AuthCheckResetPassword {}
pub struct AuthOpenIdConnect {}
pub struct AuthOpenIdFinalizeExec {}
pub struct AuthOpenIdFinalizeQuery {}

pub struct AuthOpenIdAccessTokenHook {
    pub provider: OpenIdProvider,
}

impl ApiBoth for AuthSignin {
    fn route() -> Route { Route::Auth(AuthRoute::Signin) }
    fn method() -> Method { Method::Post }
}

impl ApiEmpty for AuthSignout {
    fn route() -> Route { Route::Auth(AuthRoute::Signout) }
    fn method() -> Method { Method::Post }
}

impl ApiBoth for AuthRegister {
    fn route() -> Route { Route::Auth(AuthRoute::Register) }
    fn method() -> Method { Method::Post }
}

impl ApiRes for AuthCheck {
    fn route() -> Route { Route::Auth(AuthRoute::Check) }
    fn method() -> Method { Method::Post }
}

impl ApiEmpty for AuthSendVerifyEmail {
    fn route() -> Route { Route::Auth(AuthRoute::SendEmailValidation) }
    fn method() -> Method { Method::Post }
}

impl ApiReq for AuthConfirmVerifyEmail {
    fn route() -> Route { Route::Auth(AuthRoute::ConfirmEmailValidation) }
    fn method() -> Method { Method::Post }
}

impl ApiReq for AuthSendResetPasswordAny {
    fn route() -> Route { Route::Auth(AuthRoute::SendPasswordResetAny) }
    fn method() -> Method { Method::Post }
}

impl ApiEmpty for AuthSendResetPasswordMe {
    fn route() -> Route { Route::Auth(AuthRoute::SendPasswordResetMe) }
    fn method() -> Method { Method::Post }
}

impl ApiBoth for AuthConfirmResetPassword {
    fn route() -> Route { Route::Auth(AuthRoute::ConfirmPasswordReset) }
    fn method() -> Method { Method::Post }
}

impl ApiBoth for AuthCheckResetPassword {
    fn route() -> Route { Route::Auth(AuthRoute::CheckPasswordReset) }
    fn method() -> Method { Method::Post }
}

impl ApiBoth for AuthOpenIdConnect {
    fn route() -> Route { Route::Auth(AuthRoute::OpenIdConnect) }
    fn method() -> Method { Method::Post }
}

impl ApiEmptyDynRoute for AuthOpenIdAccessTokenHook {
    fn route(&self) -> Route { Route::Auth(AuthRoute::OpenIdAccessTokenHook(self.provider)) }
    fn method() -> Method { Method::Post }
}

impl ApiBoth for AuthOpenIdFinalizeExec {
    fn route() -> Route { Route::Auth(AuthRoute::OpenIdFinalizeExec) }
    fn method() -> Method { Method::Post }
}

impl ApiBoth for AuthOpenIdFinalizeQuery {
    fn route() -> Route { Route::Auth(AuthRoute::OpenIdFinalizeQuery) }
    fn method() -> Method { Method::Post }
}

#[derive(Debug)]
pub struct AuthSigninRequest {
    pub email: String,
    pub password: String,
}

#[derive(Debug)]
pub struct AuthSigninResponse {
    pub uid: UserId,
    pub email_verified: bool,
    pub auth_key: String,
}

#[derive(Debug)]
pub struct AuthRegisterRequest {
    pub email: String,
    pub password: String,
}

#[derive(Debug)]
pub struct AuthRegisterResponse {
    pub uid: UserId,
    pub email_verified: bool,
    pub auth_key: String,
}

#[derive(Debug)]
pub struct AuthCheckResponse {
    pub uid: UserId,
}

#[derive(Debug)]
pub struct AuthConfirmVerifyEmailRequest {
    pub oob_token_id: String,
    pub oob_token_key: String,
}

#[derive(Debug)]
pub struct AuthSendResetPasswordRequestAny {
    pub email: String,
}

#[derive(Debug)]
pub struct AuthConfirmResetPasswordRequest {
    pub oob_token_id: String,
    pub oob_token_key: String,
    pub password: String,
}

#[derive(Debug)]
pub struct AuthConfirmResetPasswordResponse {
    pub uid: UserId,
    pub email_verified: bool,
    pub auth_key: String,
}

#[derive(Debug)]
pub struct AuthCheckResetPasswordRequest {
    pub oob_token_id: String,
    pub oob_token_key: String,
}

#[derive(Debug)]
pub struct AuthCheckResetPasswordResponse {
    pub uid: UserId,
    pub email: String,
}

#[derive(Debug)]
pub struct AuthOpenIdConnectRequest {
    pub provider: OpenIdProvider,
}

#[derive(Debug)]
pub struct AuthOpenIdConnectResponse {
    pub url: String,
}

#[derive(Debug)]
pub struct AuthOpenIdFinalizeRequest {
    pub session_id: String,
    pub session_key: String,
}

#[derive(Debug)]
pub struct AuthOpenIdFinalizeExecResponse {
    pub uid: UserId,
    pub email_verified: bool,
    pub auth_key: String,
}

#[derive(Debug)]
pub struct AuthOpenIdFinalizeQueryResponse {
    pub email: String,
    pub user_exists: bool,
}

} // verus!
