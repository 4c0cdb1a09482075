//! Single-purpose tokens: one stateful object per token, holding its kind,
//! owner, user-token snapshot and secret key, with an expiry alarm.
use vstd::prelude::*;
use crate::codec::{encode_base64, encodes, random_bytes};
use crate::result::{ApiError, ApiResult};
use crate::user::UserId;

verus! {

/// Length of a token's random key, in bytes.
pub const AUTH_TOKEN_KEY_LENGTH: usize = 16;

pub const MS_PER_HOUR: u64 = 3_600_000;
pub const MS_PER_DAY: u64 = 86_400_000;
/// Sign-in tokens live two weeks, renewed on each authenticated request.
pub const AUTH_SIGNIN_TOKEN_EXPIRES: u64 = 14 * MS_PER_DAY;
pub const AUTH_RESET_PASSWORD_TOKEN_EXPIRES: u64 = MS_PER_HOUR;
pub const AUTH_VERIFY_EMAIL_TOKEN_EXPIRES: u64 = 3 * MS_PER_DAY;

#[derive(Clone, Copy, Debug, PartialEq, Eq, Structural)]
pub enum AuthTokenKind {
    Signin,
    PasswordReset,
    VerifyEmail,
}

/// What a successful validation does to the token.
#[derive(Clone, Copy, Debug, PartialEq, Eq, Structural)]
pub enum AuthTokenAfterValidation {
    /// Consume the token.
    Delete,
    /// Keep the token and move its expiry to this many milliseconds from now.
    ExtendExpiresMs(u64),
}

/// What a token object stores.
#[derive(Debug)]
pub struct AuthTokenStorage {
    pub user_token: String,
    pub uid: UserId,
    pub key: String,
    pub kind: AuthTokenKind,
}

/// Returned on creation: the object's id and its secret key.
#[derive(Debug)]
pub struct AuthTokenCreateResponse {
    pub id: String,
    pub key: String,
}

/// Returned on validation: the owner and the user token at issue.
#[derive(Debug)]
pub struct AuthTokenValidateResponse {
    pub uid: UserId,
    pub user_token: String,
}

/// One token object: its stored fields, if any, and its alarm deadline.
#[derive(Debug)]
pub struct AuthTokenDO {
    pub stored: Option<AuthTokenStorage>,
    /// When the alarm fires, in milliseconds since the epoch.
    pub alarm_at: Option<u64>,
}

/// `now + ms`, capped at the largest time.
pub open spec fn deadline(now: u64, ms: u64) -> u64 {
    if now as int + ms as int > u64::MAX as int { u64::MAX } else { (now + ms) as u64 }
}

fn deadline_of(now: u64, ms: u64) -> (r: u64)
    ensures
        r == deadline(now, ms),
{
    if ms > u64::MAX - now { u64::MAX } else { now + ms }
}

/// `key` is the URL-safe base64 text of `AUTH_TOKEN_KEY_LENGTH` bytes.
pub open spec fn is_token_key(key: Seq<char>) -> bool {
    exists|b: Seq<u8>| b.len() == AUTH_TOKEN_KEY_LENGTH && #[trigger] encodes(key, b)
}

/// A fresh secret key: random bytes, base64-encoded.
pub fn new_token_key() -> (r: String)
    ensures
        is_token_key(r@),
{
    let b = random_bytes(AUTH_TOKEN_KEY_LENGTH);
    let k = encode_base64(b.as_slice());
    assert(encodes(k@, b@));
    k
}

impl AuthTokenDO {
    /// A token object that holds nothing.
    pub fn new() -> (r: AuthTokenDO)
        ensures
            r.stored is None,
            r.alarm_at is None,
    {
        AuthTokenDO { stored: None, alarm_at: None }
    }

    /// `key` and `kind` match what the object stores.
    pub open spec fn accepts(&self, key: Seq<char>, kind: AuthTokenKind) -> bool {
        self.stored matches Some(s) && s.kind == kind && s.key@ == key
    }

    /// Stores the fields with the given key and arms the alarm; an object
    /// that already holds a token refuses.
    pub fn create_with_key(
        &mut self,
        kind: AuthTokenKind,
        uid: UserId,
        user_token: String,
        expires_ms: u64,
        now: u64,
        key: String,
    ) -> (r: ApiResult<()>)
        ensures
            r is Ok <==> old(self).stored is None,
            r is Ok ==> final(self).stored == Some(AuthTokenStorage { user_token, uid, key, kind })
                && final(self).alarm_at == Some(deadline(now, expires_ms)),
            r is Err ==> *final(self) == *old(self),
            r matches Err(e) ==> e is Unknown,
    {
        if self.stored.is_some() {
            return Err(ApiError::unknown("token object already in use"));
        }
        self.stored = Some(AuthTokenStorage { user_token, uid, key, kind });
        self.alarm_at = Some(deadline_of(now, expires_ms));
        Ok(())
    }

    /// A new object holding a token with a fresh key; returns it and the key.
    pub fn issue(kind: AuthTokenKind, uid: UserId, user_token: String, expires_ms: u64, now: u64) -> (r: (AuthTokenDO, String))
        ensures
            is_token_key(r.1@),
            r.0.stored == Some(AuthTokenStorage { user_token, uid, key: r.1, kind }),
            r.0.alarm_at == Some(deadline(now, expires_ms)),
    {
        let key = new_token_key();
        let object = AuthTokenDO {
            stored: Some(AuthTokenStorage { user_token, uid, key: key.clone(), kind }),
            alarm_at: Some(deadline_of(now, expires_ms)),
        };
        (object, key)
    }

    /// Generates a key, stores the fields and arms the alarm; returns the key.
    pub fn create(&mut self, kind: AuthTokenKind, uid: UserId, user_token: String, expires_ms: u64, now: u64) -> (r: ApiResult<String>)
        ensures
            r is Ok <==> old(self).stored is None,
            r matches Ok(key) ==> is_token_key(key@)
                && final(self).stored == Some(AuthTokenStorage { user_token, uid, key, kind })
                && final(self).alarm_at == Some(deadline(now, expires_ms)),
            r is Err ==> *final(self) == *old(self),
            r matches Err(e) ==> e is Unknown,
    {
        let key = new_token_key();
        match self.create_with_key(kind, uid, user_token, expires_ms, now, key.clone()) {
            Ok(()) => Ok(key),
            Err(e) => Err(e),
        }
    }

    /// The object after a successful validation with `after` at time `now`.
    pub open spec fn after_validation(&self, after: AuthTokenAfterValidation, now: u64) -> AuthTokenDO {
        match after {
            AuthTokenAfterValidation::Delete => AuthTokenDO { stored: None, alarm_at: None },
            AuthTokenAfterValidation::ExtendExpiresMs(ms) => AuthTokenDO {
                stored: self.stored,
                alarm_at: Some(deadline(now, ms)),
            },
        }
    }

    /// Checks kind and key against the stored token, applies `after`, and
    /// returns the owner and user token. Any mismatch, or an empty object, fails.
    pub fn validate(&mut self, key: &str, kind: AuthTokenKind, after: AuthTokenAfterValidation, now: u64)
        -> (r: ApiResult<AuthTokenValidateResponse>)
        ensures
            r is Ok <==> old(self).accepts(key@, kind),
            r matches Ok(v) ==> old(self).stored matches Some(s) && v.uid == s.uid && v.user_token == s.user_token
                && *final(self) == old(self).after_validation(after, now),
            r matches Err(e) ==> e is Unknown && *final(self) == *old(self),
    {
        let (uid, user_token) = match &self.stored {
            None => {
                return Err(ApiError::unknown("missing token"));
            },
            Some(s) => {
                if s.kind != kind {
                    return Err(ApiError::unknown("invalid kind"));
                }
                if !crate::text::str_eq(key, s.key.as_str()) {
                    return Err(ApiError::unknown("invalid key"));
                }
                (s.uid, s.user_token.clone())
            },
        };
        match after {
            AuthTokenAfterValidation::Delete => {
                self.alarm_at = None;
                self.stored = None;
            },
            AuthTokenAfterValidation::ExtendExpiresMs(ms) => {
                self.alarm_at = Some(deadline_of(now, ms));
            },
        }
        Ok(AuthTokenValidateResponse { uid, user_token })
    }

    /// Clears the alarm and erases the token.
    pub fn destroy(&mut self)
        ensures
            final(self).stored is None,
            final(self).alarm_at is None,
    {
        self.alarm_at = None;
        self.stored = None;
    }

    /// The alarm fired: the token is erased.
    pub fn alarm(&mut self)
        ensures
            final(self).stored is None,
            final(self).alarm_at is None,
    {
        self.alarm_at = None;
        self.stored = None;
    }

    /// Whether the alarm is due at time `now`.
    pub fn alarm_due(&self, now: u64) -> (r: bool)
        ensures
            r == (self.alarm_at matches Some(t) && t <= now),
    {
        match self.alarm_at {
            Some(t) => t <= now,
            None => false,
        }
    }
}

/// The operations a token object performs, one per invocation.
#[derive(Debug)]
pub enum AuthTokenAction {
    Create { user_token: String, uid: UserId, expires_ms: u64, kind: AuthTokenKind },
    Validate { key: String, kind: AuthTokenKind, after: AuthTokenAfterValidation },
    Destroy,
}

/// What a token object answers.
#[derive(Debug)]
pub enum AuthTokenReply {
    Created { key: String },
    Validated(AuthTokenValidateResponse),
    Destroyed,
}

impl AuthTokenDO {
    /// Performs one action at time `now` (see `create`, `validate`, `destroy`).
    pub fn fetch(&mut self, action: AuthTokenAction, now: u64) -> (r: ApiResult<AuthTokenReply>)
        ensures
            match action {
                AuthTokenAction::Create { user_token, uid, expires_ms, kind } =>
                    (r is Ok <==> old(self).stored is None)
                    && (r matches Ok(AuthTokenReply::Created { key }) ==> is_token_key(key@)
                        && final(self).stored == Some(AuthTokenStorage { user_token, uid, key, kind })
                        && final(self).alarm_at == Some(deadline(now, expires_ms)))
                    && (r is Ok ==> r->Ok_0 is Created),
                AuthTokenAction::Validate { key, kind, after } =>
                    (r is Ok <==> old(self).accepts(key@, kind))
                    && (r matches Ok(AuthTokenReply::Validated(v)) ==> old(self).stored matches Some(s)
                        && v.uid == s.uid && v.user_token == s.user_token
                        && *final(self) == old(self).after_validation(after, now))
                    && (r is Ok ==> r->Ok_0 is Validated),
                AuthTokenAction::Destroy => r matches Ok(AuthTokenReply::Destroyed)
                    && final(self).stored is None && final(self).alarm_at is None,
            },
            r is Err ==> *final(self) == *old(self),
    {
        match action {
            AuthTokenAction::Create { user_token, uid, expires_ms, kind } => {
                match self.create(kind, uid, user_token, expires_ms, now) {
                    Ok(key) => Ok(AuthTokenReply::Created { key }),
                    Err(e) => Err(e),
                }
            },
            AuthTokenAction::Validate { key, kind, after } => {
                match self.validate(key.as_str(), kind, after, now) {
                    Ok(v) => Ok(AuthTokenReply::Validated(v)),
                    Err(e) => Err(e),
                }
            },
            AuthTokenAction::Destroy => {
                self.destroy();
                Ok(AuthTokenReply::Destroyed)
            },
        }
    }
}

/// A token validated with `Delete` is consumed: once that validation has
/// succeeded, every later validation of the object fails, whatever key or
/// kind it presents.
pub proof fn lemma_deleted_token_rejects(
    t: AuthTokenDO,
    key: Seq<char>,
    kind: AuthTokenKind,
    now: u64,
    later_key: Seq<char>,
    later_kind: AuthTokenKind,
)
    requires
        t.accepts(key, kind),
    ensures
        !t.after_validation(AuthTokenAfterValidation::Delete, now).accepts(later_key, later_kind),
{
}

/// A token validated with `ExtendExpiresMs` stays valid for the same key and
/// kind, with its alarm moved to the new deadline.
pub proof fn lemma_extended_token_still_accepts(
    t: AuthTokenDO,
    key: Seq<char>,
    kind: AuthTokenKind,
    ms: u64,
    now: u64,
)
    requires
        t.accepts(key, kind),
    ensures
        t.after_validation(AuthTokenAfterValidation::ExtendExpiresMs(ms), now).accepts(key, kind),
        t.after_validation(AuthTokenAfterValidation::ExtendExpiresMs(ms), now).alarm_at == Some(deadline(now, ms)),
{
}

} // verus!
