//! The closed error taxonomy that the API reports to its clients.
use vstd::prelude::*;

verus! {

/// Authentication failures, each surfaced to clients with status 401.
#[derive(Clone, Copy, Debug, PartialEq, Eq, Structural)]
pub enum AuthError {
    EmailNotVerified,
    EmailAlreadyExists,
    NotAuthorized,
    InvalidSignin,
    NoUserPasswordReset,
}

/// Every error an endpoint can return.
#[derive(Clone, Debug)]
pub enum ApiError {
    Auth(AuthError),
    Unknown(String),
}

pub type ApiResult<T> = Result<T, ApiError>;

impl AuthError {
    pub open spec fn message_spec(self) -> Seq<char> {
        match self {
            AuthError::EmailNotVerified => "email needs to be verified"@,
            AuthError::EmailAlreadyExists => "email already exists"@,
            AuthError::NotAuthorized => "not authorized"@,
            AuthError::InvalidSignin => "invalid signin"@,
            AuthError::NoUserPasswordReset => "no such user for password reset"@,
        }
    }

    /// The human-readable text of the error.
    pub fn message(&self) -> (r: &'static str)
        ensures
            r@ == self.message_spec(),
    {
        match self {
            AuthError::EmailNotVerified => "email needs to be verified",
            AuthError::EmailAlreadyExists => "email already exists",
            AuthError::NotAuthorized => "not authorized",
            AuthError::InvalidSignin => "invalid signin",
            AuthError::NoUserPasswordReset => "no such user for password reset",
        }
    }
}

impl ApiError {
    pub open spec fn status_spec(&self) -> u16 {
        match self {
            ApiError::Auth(_) => 401,
            ApiError::Unknown(_) => 500,
        }
    }

    /// The HTTP status under which the error is reported.
    pub fn status_code(&self) -> (r: u16)
        ensures
            r == self.status_spec(),
    {
        match self {
            ApiError::Auth(_) => 401,
            ApiError::Unknown(_) => 500,
        }
    }

    /// An opaque failure carrying `msg`.
    pub fn unknown(msg: &str) -> (r: ApiError)
        ensures
            r matches ApiError::Unknown(m) && m@ == msg@,
    {
        ApiError::Unknown(msg.to_string())
    }

    /// The text a client sees for the error.
    pub fn to_string(&self) -> (r: String)
        ensures
            match self {
                ApiError::Auth(a) => r@ == a.message_spec(),
                ApiError::Unknown(m) => r@ == m@,
            },
    {
        match self {
            ApiError::Auth(a) => a.message().to_string(),
            ApiError::Unknown(m) => m.clone(),
        }
    }

    pub open spec fn is_auth(&self, e: AuthError) -> bool {
        self matches ApiError::Auth(x) && x == e
    }
}

/// Errors as the client presents them: each maps to a message of the
/// client's localized messages.
pub trait ApiErrorExt {
    fn text_id(&self) -> &'static str;
}

impl ApiError {
    pub open spec fn text_id_spec(&self) -> Seq<char> {
        match self {
            ApiError::Auth(AuthError::EmailAlreadyExists) => "error-api-register-email-already-exists"@,
            ApiError::Auth(AuthError::EmailNotVerified) => "error-api-register-email-unverified"@,
            ApiError::Auth(AuthError::NotAuthorized) => "error-api-not-authorized"@,
            ApiError::Auth(AuthError::InvalidSignin) => "error-api-signin-invalid"@,
            ApiError::Auth(AuthError::NoUserPasswordReset) => "error-api-password-reset-no-user"@,
            ApiError::Unknown(_) => "error-api-unknown"@,
        }
    }

    /// The id of the message that presents the error.
    pub fn message_id(&self) -> (r: &'static str)
        ensures
            r@ == self.text_id_spec(),
    {
        match self {
            ApiError::Auth(AuthError::EmailAlreadyExists) => "error-api-register-email-already-exists",
            ApiError::Auth(AuthError::EmailNotVerified) => "error-api-register-email-unverified",
            ApiError::Auth(AuthError::NotAuthorized) => "error-api-not-authorized",
            ApiError::Auth(AuthError::InvalidSignin) => "error-api-signin-invalid",
            ApiError::Auth(AuthError::NoUserPasswordReset) => "error-api-password-reset-no-user",
            ApiError::Unknown(_) => "error-api-unknown",
        }
    }
}

impl ApiErrorExt for ApiError {
    fn text_id(&self) -> &'static str {
        self.message_id()
    }
}

} // verus!
