//! The browser client's side of authentication: its configuration, the
//! client stage of password hashing, its sign-in state, and the state of
//! the pages that finish out-of-band and OpenID flows.
use vstd::prelude::*;
use vstd::string::StringSliceAdditionalSpecFns;
use crate::codec::{encode_base64, encodes, sha256, sha256_of};
use crate::password::concat_bytes;
use crate::result::{ApiError, ApiResult, AuthError};
use crate::route::RouteAuthKind;
use crate::user::UserId;
use argon2::PasswordHasher;

verus! {

/// The client's settings.
#[derive(Debug)]
pub struct Config {
    /// The part of the frontend's URL path before its own routes.
    pub root_path: String,
    pub media_root: String,
    pub default_lang: Option<String>,
    pub api_domain: String,
    pub api_root_path: String,
    /// Mixed into every password salt; changing it invalidates all passwords.
    pub argon2_global_salt: Vec<u8>,
    pub auth_signin_key_storage_name: String,
}

impl Config {
    /// The URL of an image under the media root.
    pub fn app_image_url(&self, path: &str) -> (r: String)
        ensures
            r@ == self.media_root@ + "/"@ + path@,
    {
        let mut s = self.media_root.clone();
        s.append("/");
        s.append(path);
        s
    }
}

/// What Argon2id (default parameters) derives from a password and a salt.
pub uninterp spec fn argon2id_of(password: Seq<u8>, salt: Seq<u8>) -> Seq<u8>;

/// Relies on argon2's `Argon2::default().hash_password` (Argon2id, version
/// 0x13, default cost) with the salt given through `SaltString::encode_b64`:
/// the raw hash output. A salt of 8 to 48 bytes has a base64 text that fits
/// a `SaltString` (shorter ones panic when converted); the hash is then given
/// for every password of up to `u32::MAX` bytes.
#[verifier::external_body]
fn argon2id_hash(password: &[u8], salt: &[u8]) -> (r: Option<Vec<u8>>)
    requires
        8 <= salt@.len() <= 48,
    ensures
        r matches Some(h) ==> h@ == argon2id_of(password@, salt@),
        password@.len() <= u32::MAX ==> r is Some,
{
    let salt = match argon2::password_hash::SaltString::encode_b64(salt) {
        Ok(s) => s,
        Err(_) => return None,
    };
    match argon2::Argon2::default().hash_password(password, &salt) {
        Ok(h) => match h.hash {
            Some(out) => Some(out.as_bytes().to_vec()),
            None => None,
        },
        Err(_) => None,
    }
}

/// The salt of the client stage: SHA-256 of the email followed by the global salt.
pub open spec fn client_salt(email: Seq<u8>, global_salt: Seq<u8>) -> Seq<u8> {
    sha256_of(email + global_salt)
}

/// The client stage of password hashing: Argon2id of the password under a
/// salt derived from the email, sent as URL-safe base64.
pub fn hash_password(config: &Config, email: &str, password: &str) -> (r: ApiResult<String>)
    ensures
        r matches Ok(t) ==> encodes(t@, argon2id_of(password.spec_bytes(),
            client_salt(email.spec_bytes(), config.argon2_global_salt@))),
        password.spec_bytes().len() <= u32::MAX ==> r is Ok,
        r matches Err(e) ==> e is Unknown,
{
    let material = concat_bytes(email.as_bytes(), config.argon2_global_salt.as_slice());
    let salt = sha256(material.as_slice());
    match argon2id_hash(password.as_bytes(), salt.as_slice()) {
        Some(h) => Ok(encode_base64(h.as_slice())),
        None => Err(ApiError::unknown("password hashing failed")),
    }
}

/// Where the client stands with the backend.
#[derive(Clone, Copy, Debug, PartialEq, Eq, Structural)]
pub enum AuthPhase {
    Init,
    Authenticated,
    EmailNotVerified,
    Unauthenticated,
}

/// The client's sign-in state.
#[derive(Debug)]
pub struct Auth {
    pub phase: AuthPhase,
    pub token_key: Option<String>,
    pub uid: Option<UserId>,
}

impl Auth {
    pub fn new() -> (r: Auth)
        ensures
            r.phase == AuthPhase::Init && r.token_key is None && r.uid is None,
    {
        Auth { phase: AuthPhase::Init, token_key: None, uid: None }
    }

    /// Forgets the credentials.
    pub fn clear(&mut self)
        ensures
            final(self).phase == AuthPhase::Unauthenticated,
            final(self).token_key is None,
            final(self).uid is None,
    {
        self.token_key = None;
        self.uid = None;
        self.phase = AuthPhase::Unauthenticated;
    }

    pub fn try_clone_uid(&self) -> (r: Option<UserId>)
        ensures
            r == self.uid,
    {
        self.uid
    }

    pub fn try_clone_token_key(&self) -> (r: Option<String>)
        ensures
            r == self.token_key,
    {
        self.token_key.clone()
    }

    /// Records a sign-in. Returns whether a verification mail is to be
    /// requested: when the email is not verified yet.
    pub fn on_signin(&mut self, uid: UserId, email_verified: bool, auth_key: String) -> (r: bool)
        ensures
            final(self).uid == Some(uid),
            final(self).token_key == Some(auth_key),
            final(self).phase == (if email_verified { AuthPhase::Authenticated } else { AuthPhase::EmailNotVerified }),
            r == !email_verified,
    {
        self.uid = Some(uid);
        self.token_key = Some(auth_key);
        if email_verified {
            self.phase = AuthPhase::Authenticated;
        } else {
            self.phase = AuthPhase::EmailNotVerified;
        }
        !email_verified
    }

    /// Records the answer to the startup check.
    pub fn on_check(&mut self, result: ApiResult<UserId>)
        ensures
            match result {
                Ok(uid) => final(self).uid == Some(uid) && final(self).phase == AuthPhase::Authenticated,
                Err(e) => final(self).phase == (if e.is_auth(AuthError::EmailNotVerified) {
                    AuthPhase::EmailNotVerified } else { AuthPhase::Unauthenticated }),
            },
    {
        match result {
            Ok(uid) => {
                self.uid = Some(uid);
                self.phase = AuthPhase::Authenticated;
            },
            Err(ApiError::Auth(AuthError::EmailNotVerified)) => {
                self.phase = AuthPhase::EmailNotVerified;
            },
            Err(_) => {
                self.phase = AuthPhase::Unauthenticated;
            },
        }
    }

    /// What an error response does to the state: `NotAuthorized` clears it,
    /// `EmailNotVerified` moves to the waiting phase, anything else leaves it.
    pub fn on_api_error(&mut self, e: &ApiError)
        ensures
            e.is_auth(AuthError::NotAuthorized) ==> final(self).phase == AuthPhase::Unauthenticated
                && final(self).token_key is None && final(self).uid is None,
            e.is_auth(AuthError::EmailNotVerified) ==> final(self).phase == AuthPhase::EmailNotVerified
                && final(self).token_key == old(self).token_key && final(self).uid == old(self).uid,
            !e.is_auth(AuthError::NotAuthorized) && !e.is_auth(AuthError::EmailNotVerified) ==> *final(self) == *old(self),
    {
        match e {
            ApiError::Auth(AuthError::NotAuthorized) => self.clear(),
            ApiError::Auth(AuthError::EmailNotVerified) => {
                self.phase = AuthPhase::EmailNotVerified;
            },
            _ => {},
        }
    }
}

/// The headers of a request to a route that needs credentials: the token
/// key and the content language. Without a key the request is not made.
pub fn auth_headers(token_key: Option<String>, lang: &str) -> (r: ApiResult<Vec<(String, String)>>)
    ensures
        token_key is None <==> r is Err,
        r matches Err(e) ==> e == ApiError::Auth(AuthError::NotAuthorized),
        r matches Ok(h) ==> h@.len() == 2 && h@[0].0@ == "X-EXAMPLE-TOKEN-KEY"@ && Some(h@[0].1) == token_key
            && h@[1].0@ == "Content-Language"@ && h@[1].1@ == lang@,
{
    match token_key {
        Some(k) => {
            let mut v: Vec<(String, String)> = Vec::new();
            v.push(("X-EXAMPLE-TOKEN-KEY".to_string(), k));
            v.push(("Content-Language".to_string(), lang.to_string()));
            Ok(v)
        },
        None => Err(ApiError::Auth(AuthError::NotAuthorized)),
    }
}

/// The headers of a request to a public route.
pub fn noauth_headers(lang: &str) -> (r: Vec<(String, String)>)
    ensures
        r@.len() == 1 && r@[0].0@ == "Content-Language"@ && r@[0].1@ == lang@,
{
    let mut v: Vec<(String, String)> = Vec::new();
    v.push(("Content-Language".to_string(), lang.to_string()));
    v
}

/// Whether a request to a route of `kind` sends cookies: all but public routes.
pub fn sends_cookies(kind: RouteAuthKind) -> (r: bool)
    ensures
        r == !(kind is Public),
{
    match kind {
        RouteAuthKind::Public => false,
        _ => true,
    }
}

/// What the client does with a page, given its sign-in phase.
#[derive(Clone, Copy, Debug, PartialEq, Eq, Structural)]
pub enum PageAccess {
    /// The startup check has not answered yet: show nothing.
    Wait,
    /// The page needs a signed-in user and there is none.
    RedirectNoAuth,
    /// The page needs a verified email: go to the waiting page.
    RedirectVerifyEmail,
    Show,
}

/// Gates pages that need a signed-in user with a verified email.
pub fn page_access(phase: AuthPhase, requires_auth: bool) -> (r: PageAccess)
    ensures
        r == (if phase == AuthPhase::Init { PageAccess::Wait }
            else if requires_auth && phase == AuthPhase::Unauthenticated { PageAccess::RedirectNoAuth }
            else if requires_auth && phase == AuthPhase::EmailNotVerified { PageAccess::RedirectVerifyEmail }
            else { PageAccess::Show }),
{
    match phase {
        AuthPhase::Init => PageAccess::Wait,
        AuthPhase::Unauthenticated => if requires_auth { PageAccess::RedirectNoAuth } else { PageAccess::Show },
        AuthPhase::EmailNotVerified => if requires_auth { PageAccess::RedirectVerifyEmail } else { PageAccess::Show },
        AuthPhase::Authenticated => PageAccess::Show,
    }
}

/// The page that confirms an email-verification link.
#[derive(Clone, Copy, Debug, PartialEq, Eq, Structural)]
pub enum VerifyEmailConfirmPhase {
    Confirming,
    Success,
    Fail,
}

#[derive(Debug)]
pub struct VerifyEmailConfirm {
    pub oob_token_id: String,
    pub oob_token_key: String,
    pub phase: VerifyEmailConfirmPhase,
}

impl VerifyEmailConfirm {
    pub fn new(oob_token_id: String, oob_token_key: String) -> (r: VerifyEmailConfirm)
        ensures
            r.oob_token_id == oob_token_id && r.oob_token_key == oob_token_key,
            r.phase == VerifyEmailConfirmPhase::Confirming,
    {
        VerifyEmailConfirm { oob_token_id, oob_token_key, phase: VerifyEmailConfirmPhase::Confirming }
    }

    /// Records the answer to the confirmation.
    pub fn on_confirm(&mut self, ok: bool)
        ensures
            final(self).phase == (if ok { VerifyEmailConfirmPhase::Success } else { VerifyEmailConfirmPhase::Fail }),
            final(self).oob_token_id == old(self).oob_token_id,
            final(self).oob_token_key == old(self).oob_token_key,
    {
        self.phase = if ok { VerifyEmailConfirmPhase::Success } else { VerifyEmailConfirmPhase::Fail };
    }
}

/// The page that sets a new password from a reset link.
#[derive(Clone, Copy, Debug, PartialEq, Eq, Structural)]
pub enum VerifyPasswordResetConfirmPhase {
    CheckingValidity,
    Invalid,
    Waiting,
    Confirming,
    Success,
    Fail,
}

#[derive(Debug)]
pub struct VerifyPasswordResetConfirm {
    pub oob_token_id: String,
    pub oob_token_key: String,
    pub phase: VerifyPasswordResetConfirmPhase,
    pub email: Option<String>,
}

impl VerifyPasswordResetConfirm {
    pub fn new(oob_token_id: String, oob_token_key: String) -> (r: VerifyPasswordResetConfirm)
        ensures
            r.oob_token_id == oob_token_id && r.oob_token_key == oob_token_key,
            r.phase == VerifyPasswordResetConfirmPhase::CheckingValidity,
            r.email is None,
    {
        VerifyPasswordResetConfirm {
            oob_token_id,
            oob_token_key,
            phase: VerifyPasswordResetConfirmPhase::CheckingValidity,
            email: None,
        }
    }

    /// Records the answer to the validity check: the account's email, or invalid.
    pub fn on_check(&mut self, email: Option<String>)
        ensures
            final(self).email == email,
            final(self).phase == (if email is Some { VerifyPasswordResetConfirmPhase::Waiting }
                else { VerifyPasswordResetConfirmPhase::Invalid }),
    {
        self.phase = if email.is_some() {
            VerifyPasswordResetConfirmPhase::Waiting
        } else {
            VerifyPasswordResetConfirmPhase::Invalid
        };
        self.email = email;
    }

    /// The new password was submitted; only a page that waits for it accepts.
    pub fn on_submit(&mut self) -> (r: bool)
        ensures
            r == (old(self).phase == VerifyPasswordResetConfirmPhase::Waiting),
            r ==> final(self).phase == VerifyPasswordResetConfirmPhase::Confirming,
            !r ==> final(self).phase == old(self).phase,
    {
        if self.phase == VerifyPasswordResetConfirmPhase::Waiting {
            self.phase = VerifyPasswordResetConfirmPhase::Confirming;
            true
        } else {
            false
        }
    }

    /// Records the answer to the confirmation.
    pub fn on_confirm(&mut self, ok: bool)
        ensures
            final(self).phase == (if ok { VerifyPasswordResetConfirmPhase::Success }
                else { VerifyPasswordResetConfirmPhase::Fail }),
    {
        self.phase = if ok { VerifyPasswordResetConfirmPhase::Success } else { VerifyPasswordResetConfirmPhase::Fail };
    }
}

/// The page that finishes an OpenID sign-in.
#[derive(Clone, Copy, Debug, PartialEq, Eq, Structural)]
pub enum OpenIdFinalizePhase {
    Loading,
    Submitting,
    Invalid,
    AskForRegister,
}

#[derive(Debug)]
pub struct OpenIdFinalize {
    pub session_id: String,
    pub session_key: String,
    pub phase: OpenIdFinalizePhase,
    pub register_terms: bool,
}

impl OpenIdFinalize {
    pub fn new(session_id: String, session_key: String) -> (r: OpenIdFinalize)
        ensures
            r.session_id == session_id && r.session_key == session_key,
            r.phase == OpenIdFinalizePhase::Loading,
            !r.register_terms,
    {
        OpenIdFinalize { session_id, session_key, phase: OpenIdFinalizePhase::Loading, register_terms: false }
    }

    /// Records the answer to the finalize query: an existing user is signed
    /// in at once; a new one is first asked to accept the registration terms.
    pub fn on_query(&mut self, user_exists: Option<bool>)
        ensures
            final(self).phase == match user_exists {
                Some(true) => OpenIdFinalizePhase::Submitting,
                Some(false) => OpenIdFinalizePhase::AskForRegister,
                None => OpenIdFinalizePhase::Invalid,
            },
            final(self).register_terms == old(self).register_terms,
    {
        self.phase = match user_exists {
            Some(true) => OpenIdFinalizePhase::Submitting,
            Some(false) => OpenIdFinalizePhase::AskForRegister,
            None => OpenIdFinalizePhase::Invalid,
        };
    }

    /// The user accepted the terms: the session may now be finalized.
    pub fn accept_terms(&mut self) -> (r: bool)
        ensures
            r == (old(self).phase == OpenIdFinalizePhase::AskForRegister),
            final(self).register_terms == (old(self).register_terms || r),
            r ==> final(self).phase == OpenIdFinalizePhase::Submitting,
            !r ==> final(self).phase == old(self).phase,
    {
        if self.phase == OpenIdFinalizePhase::AskForRegister {
            self.register_terms = true;
            self.phase = OpenIdFinalizePhase::Submitting;
            true
        } else {
            false
        }
    }
}

/// The sizes a button comes in.
#[derive(Clone, Copy, Debug, PartialEq, Eq, Structural)]
pub enum ButtonSize {
    Sm,
    Lg,
    Md,
    Xlg,
    H3,
    H2,
    H1,
}

/// The palette roles that button text and borders take.
#[derive(Clone, Copy, Debug, PartialEq, Eq, Structural)]
pub enum ColorSemantic {
    Accent,
    AccentAlt,
    Darkish,
    MidGrey,
}

/// A bordered button: accented or plain, of a size, highlighted on hover.
#[derive(Debug)]
pub struct OutlineButton {
    pub accent: bool,
    pub size: ButtonSize,
    pub hovering: bool,
}

impl OutlineButton {
    pub fn new(accent: bool) -> (r: OutlineButton)
        ensures
            r.accent == accent && r.size == ButtonSize::Lg && !r.hovering,
    {
        OutlineButton { accent, size: ButtonSize::Lg, hovering: false }
    }

    pub fn set_size(&mut self, size: ButtonSize)
        ensures
            final(self).size == size,
            final(self).accent == old(self).accent,
            final(self).hovering == old(self).hovering,
    {
        self.size = size;
    }

    /// Whether the pointer is over the button.
    pub fn hovering(&self) -> (r: bool)
        ensures
            r == self.hovering,
    {
        self.hovering
    }

    /// The color of text and border: the alternate shade while hovered.
    pub fn color(&self) -> (r: ColorSemantic)
        ensures
            r == (if self.hovering {
                if self.accent { ColorSemantic::AccentAlt } else { ColorSemantic::Darkish }
            } else {
                if self.accent { ColorSemantic::Accent } else { ColorSemantic::MidGrey }
            }),
    {
        if self.hovering {
            if self.accent { ColorSemantic::AccentAlt } else { ColorSemantic::Darkish }
        } else {
            if self.accent { ColorSemantic::Accent } else { ColorSemantic::MidGrey }
        }
    }
}

} // verus!
