//! The backend as one state: user accounts, live token objects, OpenID
//! sessions and sent mail; authentication of requests; and one handler per
//! endpoint. Time is passed in by the caller, in milliseconds.
use vstd::prelude::*;
use crate::api::{
    AuthCheckResetPasswordRequest, AuthCheckResetPasswordResponse, AuthCheckResponse,
    AuthConfirmResetPasswordRequest, AuthConfirmResetPasswordResponse, AuthConfirmVerifyEmailRequest,
    AuthOpenIdConnectRequest, AuthOpenIdFinalizeExecResponse, AuthOpenIdFinalizeQueryResponse,
    AuthOpenIdFinalizeRequest, AuthRegisterRequest, AuthRegisterResponse, AuthSendResetPasswordRequestAny,
    AuthSigninRequest, AuthSigninResponse,
};
use crate::access::{authorize, authorize_spec, Refusal, extract_credentials, flatten_access_error, opt_view, request_token_id};
use crate::mailer::{html_body, ContentLanguage, MailChannelsRequest, MailerConfig, MailerKind};
use crate::frontend_route::{AuthRoute as FrontendAuthRoute, Landing, NotFoundReason, Route as FrontendRoute};
use crate::openid::{OpenIdSession, OpenIdSessionDO, OpenIdSessionNonce, OpenIdSessionPhase, OpenIdProcessor, new_nonce, verified_email_claims, DELIMITER, authorization_url, authorize_url_of, url_parses, csrf_text, AUTH_OPEN_ID_SESSION_EXPIRES};
use crate::password::{check_password, hash_password, is_credential, password_matches, SALT_LENGTH};
use crate::codec::is_base64;
use crate::result::{ApiError, ApiResult, AuthError};
use crate::route::{AuthRoute, OpenIdProvider, Route, RouteAuthKind};
use crate::text::{split_spec, str_eq};
use crate::token::{
    deadline, is_token_key, AuthTokenAfterValidation, AuthTokenCreateResponse, AuthTokenDO, AuthTokenKind,
    AuthTokenStorage, AuthTokenValidateResponse, AUTH_RESET_PASSWORD_TOKEN_EXPIRES, AUTH_SIGNIN_TOKEN_EXPIRES,
    AUTH_VERIFY_EMAIL_TOKEN_EXPIRES,
};
use crate::user::{fresh_user_token, simple_hex, new_v7, UserAccount, UserId, UserStore};

verus! {

/// A live token object and its id.
#[derive(Debug)]
pub struct TokenEntry {
    pub id: String,
    pub object: AuthTokenDO,
}

/// A live OpenID session object and its id.
#[derive(Debug)]
pub struct SessionEntry {
    pub id: String,
    pub object: OpenIdSessionDO,
}

/// The caller of an authenticated route: the account and the sign-in token.
#[derive(Debug)]
pub struct AuthUser {
    pub account: UserAccount,
    pub token_id: String,
    pub token_key: String,
}

/// What starting an OpenID sign-in needs besides the provider: the
/// provider's authorization endpoint (from its discovery document), this
/// client's id there, and where the API is served.
#[derive(Debug)]
pub struct OpenIdClientConfig {
    pub authorization_endpoint: String,
    pub client_id: String,
    pub api_domain: String,
    pub api_root_path: String,
}

/// `k` carries the token `id`, `key`, as a verification mail when `verify`.
pub open spec fn carries(k: MailerKind, verify: bool, id: Seq<char>, key: Seq<char>) -> bool {
    match k {
        MailerKind::EmailVerification { oob_token_id, oob_token_key } => verify && oob_token_id@ == id && oob_token_key@ == key,
        MailerKind::PasswordReset { oob_token_id, oob_token_key } => !verify && oob_token_id@ == id && oob_token_key@ == key,
    }
}

pub struct ApiService {
    pub users: UserStore,
    pub tokens: Vec<TokenEntry>,
    pub sessions: Vec<SessionEntry>,
    /// Mails handed to the relay, oldest first.
    pub outbox: Vec<MailChannelsRequest>,
    pub mailer: MailerConfig,
}

/// `c`, extended with `-` until it is longer than `longest` characters.
fn lengthen_past(c: String, longest: usize) -> (r: String)
    ensures
        r@.len() > longest,
{
    let mut r = c;
    while r.unicode_len() <= longest
        decreases longest + 1 - r@.len(),
    {
        proof { reveal_strlit("-"); }
        r.append("-");
    }
    r
}

impl ApiService {
    /// Ids are unique among tokens and among sessions; accounts and sessions are well formed.
    pub open spec fn wf(&self) -> bool {
        &&& self.users.wf()
        &&& forall|i: int, j: int| 0 <= i < j < self.tokens@.len() ==>
            (#[trigger] self.tokens@[i]).id@ != (#[trigger] self.tokens@[j]).id@
        &&& forall|i: int, j: int| 0 <= i < j < self.sessions@.len() ==>
            (#[trigger] self.sessions@[i]).id@ != (#[trigger] self.sessions@[j]).id@
        &&& forall|i: int| 0 <= i < self.sessions@.len() ==> (#[trigger] self.sessions@[i]).object.wf()
    }

    pub open spec fn has_token(&self, id: Seq<char>) -> bool {
        exists|i: int| 0 <= i < self.tokens@.len() && self.tokens@[i].id@ == id
    }

    pub open spec fn token_index(&self, id: Seq<char>) -> int {
        choose|i: int| 0 <= i < self.tokens@.len() && self.tokens@[i].id@ == id
    }

    /// The token object with id `id` (meaningful when `has_token`).
    pub open spec fn token(&self, id: Seq<char>) -> AuthTokenDO {
        self.tokens@[self.token_index(id)].object
    }

    /// The object with id `id` accepts `key` for `kind`.
    pub open spec fn token_accepts(&self, id: Seq<char>, key: Seq<char>, kind: AuthTokenKind) -> bool {
        self.has_token(id) && self.token(id).accepts(key, kind)
    }

    pub open spec fn stored(&self, id: Seq<char>) -> AuthTokenStorage {
        self.token(id).stored->Some_0
    }

    pub open spec fn has_session(&self, id: Seq<char>) -> bool {
        exists|i: int| 0 <= i < self.sessions@.len() && self.sessions@[i].id@ == id
    }

    pub open spec fn session_index(&self, id: Seq<char>) -> int {
        choose|i: int| 0 <= i < self.sessions@.len() && self.sessions@[i].id@ == id
    }

    pub open spec fn session(&self, id: Seq<char>) -> OpenIdSessionDO {
        self.sessions@[self.session_index(id)].object
    }

    /// Tokens other than `id` are as they were in `old`.
    pub open spec fn tokens_kept(&self, old: &ApiService, id: Seq<char>) -> bool {
        forall|t: Seq<char>| t != id ==> (#[trigger] self.has_token(t) == old.has_token(t))
            && (old.has_token(t) ==> self.token(t) == old.token(t))
    }

    pub fn new(mailer: MailerConfig) -> (r: ApiService)
        ensures
            r.wf(),
            r.users.rows@.len() == 0,
            r.tokens@.len() == 0,
            r.sessions@.len() == 0,
            r.outbox@.len() == 0,
            r.mailer == mailer,
    {
        ApiService { users: UserStore::new(), tokens: Vec::new(), sessions: Vec::new(), outbox: Vec::new(), mailer }
    }

    fn find_token(&self, id: &str) -> (r: Option<usize>)
        requires
            self.wf(),
        ensures
            r is None <==> !self.has_token(id@),
            r matches Some(i) ==> i < self.tokens@.len() && i as int == self.token_index(id@)
                && self.tokens@[i as int].id@ == id@,
    {
        let mut i: usize = 0;
        while i < self.tokens.len()
            invariant
                self.wf(),
                0 <= i <= self.tokens@.len(),
                forall|k: int| 0 <= k < i ==> self.tokens@[k].id@ != id@,
            decreases self.tokens@.len() - i,
        {
            if str_eq(self.tokens[i].id.as_str(), id) {
                proof {
                    assert(self.tokens@[i as int].id@ == id@);
                    assert(self.has_token(id@));
                    let j = self.token_index(id@);
                    if j != i as int {
                        if j < i as int {
                            assert(self.tokens@[j].id@ != self.tokens@[i as int].id@);
                        } else {
                            assert(self.tokens@[i as int].id@ != self.tokens@[j].id@);
                        }
                    }
                }
                return Some(i);
            }
            i = i + 1;
        }
        None
    }

    fn find_session(&self, id: &str) -> (r: Option<usize>)
        requires
            self.wf(),
        ensures
            r is None <==> !self.has_session(id@),
            r matches Some(i) ==> i < self.sessions@.len() && i as int == self.session_index(id@)
                && self.sessions@[i as int].id@ == id@,
    {
        let mut i: usize = 0;
        while i < self.sessions.len()
            invariant
                self.wf(),
                0 <= i <= self.sessions@.len(),
                forall|k: int| 0 <= k < i ==> self.sessions@[k].id@ != id@,
            decreases self.sessions@.len() - i,
        {
            if str_eq(self.sessions[i].id.as_str(), id) {
                proof {
                    assert(self.sessions@[i as int].id@ == id@);
                    assert(self.has_session(id@));
                    let j = self.session_index(id@);
                    if j != i as int {
                        if j < i as int {
                            assert(self.sessions@[j].id@ != self.sessions@[i as int].id@);
                        } else {
                            assert(self.sessions@[i as int].id@ != self.sessions@[j].id@);
                        }
                    }
                }
                return Some(i);
            }
            i = i + 1;
        }
        None
    }

    /// With the same token objects, what one state keeps the other keeps.
    proof fn lemma_same_tokens(&self, mid: &ApiService, old: &ApiService, id: Seq<char>)
        requires
            self.tokens == mid.tokens,
            mid.tokens_kept(old, id),
        ensures
            self.tokens_kept(old, id),
            self.has_token(id) == mid.has_token(id),
            self.token(id) == mid.token(id),
    {
        assert forall|t: Seq<char>| t != id implies (#[trigger] self.has_token(t) == old.has_token(t))
            && (old.has_token(t) ==> self.token(t) == old.token(t)) by {
            assert(self.has_token(t) == mid.has_token(t));
        }
    }

    proof fn lemma_token_index(&self, i: int)
        requires
            self.wf(),
            0 <= i < self.tokens@.len(),
        ensures
            self.has_token(self.tokens@[i].id@),
            self.token_index(self.tokens@[i].id@) == i,
    {
        let id = self.tokens@[i].id@;
        assert(self.has_token(id));
        let j = self.token_index(id);
        if j != i {
            if j < i {
                assert(self.tokens@[j].id@ != self.tokens@[i].id@);
            } else {
                assert(self.tokens@[i].id@ != self.tokens@[j].id@);
            }
        }
    }

    /// Replacing the object at `i` keeps every other token as it was.
    proof fn lemma_token_replaced(&self, old: &ApiService, i: int)
        requires
            old.wf(),
            0 <= i < old.tokens@.len(),
            self.tokens@.len() == old.tokens@.len(),
            self.tokens@[i].id == old.tokens@[i].id,
            forall|k: int| 0 <= k < old.tokens@.len() && k != i ==> self.tokens@[k] == old.tokens@[k],
            self.users == old.users,
            self.sessions == old.sessions,
        ensures
            self.wf(),
            self.tokens_kept(old, old.tokens@[i].id@),
            self.has_token(old.tokens@[i].id@),
            self.token(old.tokens@[i].id@) == self.tokens@[i].object,
    {
        assert forall|a: int, b: int| 0 <= a < b < self.tokens@.len() implies
            (#[trigger] self.tokens@[a]).id@ != (#[trigger] self.tokens@[b]).id@ by {
            assert(old.tokens@[a].id@ != old.tokens@[b].id@);
        }
        self.lemma_token_index(i);
        assert forall|t: Seq<char>| t != old.tokens@[i].id@ implies
            (#[trigger] self.has_token(t) == old.has_token(t)) && (old.has_token(t) ==> self.token(t) == old.token(t)) by {
            if old.has_token(t) {
                let j = old.token_index(t);
                old.lemma_token_index(j);
                assert(self.tokens@[j].id@ == t);
                self.lemma_token_index(j);
            }
            if self.has_token(t) {
                let j = self.token_index(t);
                assert(old.tokens@[j].id@ == t);
            }
        }
    }

    /// An id that no token object has: the text of a new version 7 UUID,
    /// lengthened past every id in use should it collide.
    fn fresh_token_id(&self) -> (r: String)
        requires
            self.wf(),
        ensures
            !self.has_token(r@),
    {
        let c = simple_hex(new_v7());
        if self.find_token(c.as_str()).is_none() {
            return c;
        }
        let mut longest: usize = 0;
        let mut i: usize = 0;
        while i < self.tokens.len()
            invariant
                0 <= i <= self.tokens@.len(),
                forall|k: int| 0 <= k < i ==> self.tokens@[k].id@.len() <= longest,
            decreases self.tokens@.len() - i,
        {
            let n = self.tokens[i].id.unicode_len();
            if n > longest {
                longest = n;
            }
            i = i + 1;
        }
        let r = lengthen_past(c, longest);
        assert forall|k: int| 0 <= k < self.tokens@.len() implies self.tokens@[k].id@ != r@ by {
            assert(self.tokens@[k].id@.len() <= longest);
        }
        r
    }

    /// An id that no session object has (see `fresh_token_id`).
    fn fresh_session_id(&self) -> (r: String)
        requires
            self.wf(),
        ensures
            !self.has_session(r@),
    {
        let c = simple_hex(new_v7());
        if self.find_session(c.as_str()).is_none() {
            return c;
        }
        let mut longest: usize = 0;
        let mut i: usize = 0;
        while i < self.sessions.len()
            invariant
                0 <= i <= self.sessions@.len(),
                forall|k: int| 0 <= k < i ==> self.sessions@[k].id@.len() <= longest,
            decreases self.sessions@.len() - i,
        {
            let n = self.sessions[i].id.unicode_len();
            if n > longest {
                longest = n;
            }
            i = i + 1;
        }
        let r = lengthen_past(c, longest);
        assert forall|k: int| 0 <= k < self.sessions@.len() implies self.sessions@[k].id@ != r@ by {
            assert(self.sessions@[k].id@.len() <= longest);
        }
        r
    }

    /// A fresh user token that differs from `current` and from the user token
    /// of every live token object: a new UUID's text, lengthened past all of
    /// them should it collide.
    fn fresh_user_token_apart(&self, current: &str) -> (r: String)
        requires
            self.wf(),
        ensures
            r@ != current@,
            forall|k: int| 0 <= k < self.tokens@.len() && (#[trigger] self.tokens@[k]).object.stored is Some
                ==> self.tokens@[k].object.stored->Some_0.user_token@ != r@,
    {
        let c = fresh_user_token();
        let mut longest: usize = current.unicode_len();
        let mut collides = str_eq(c.as_str(), current);
        let mut i: usize = 0;
        while i < self.tokens.len()
            invariant
                0 <= i <= self.tokens@.len(),
                current@.len() <= longest,
                forall|k: int| 0 <= k < i && (#[trigger] self.tokens@[k]).object.stored is Some
                    ==> self.tokens@[k].object.stored->Some_0.user_token@.len() <= longest,
                !collides ==> c@ != current@,
                !collides ==> forall|k: int| 0 <= k < i && (#[trigger] self.tokens@[k]).object.stored is Some
                    ==> self.tokens@[k].object.stored->Some_0.user_token@ != c@,
            decreases self.tokens@.len() - i,
        {
            match &self.tokens[i].object.stored {
                Some(st) => {
                    let n = st.user_token.unicode_len();
                    if n > longest {
                        longest = n;
                    }
                    if str_eq(st.user_token.as_str(), c.as_str()) {
                        collides = true;
                    }
                },
                None => {},
            }
            i = i + 1;
        }
        if !collides {
            return c;
        }
        lengthen_past(c, longest)
    }

    /// Creates a token object of `kind` for `uid` under an unused id.
    pub fn create_token(&mut self, kind: AuthTokenKind, uid: UserId, user_token: String, expires_ms: u64, now: u64)
        -> (c: AuthTokenCreateResponse)
        requires
            old(self).wf(),
        ensures
            final(self).wf(),
            final(self).users == old(self).users,
            final(self).sessions == old(self).sessions,
            final(self).outbox == old(self).outbox,
            final(self).mailer == old(self).mailer,
            !old(self).has_token(c.id@) && final(self).has_token(c.id@),
            final(self).tokens_kept(old(self), c.id@),
            is_token_key(c.key@),
            final(self).token(c.id@).stored == Some(AuthTokenStorage { user_token, uid, key: c.key, kind }),
            final(self).token(c.id@).alarm_at == Some(deadline(now, expires_ms)),
    {
        let id = self.fresh_token_id();
        let (object, key) = AuthTokenDO::issue(kind, uid, user_token, expires_ms, now);
        let ghost prev = *old(self);
        self.tokens.push(TokenEntry { id: id.clone(), object });
        proof {
            let n = prev.tokens@.len() as int;
            assert forall|a: int, b: int| 0 <= a < b < self.tokens@.len() implies
                (#[trigger] self.tokens@[a]).id@ != (#[trigger] self.tokens@[b]).id@ by {
                if b == n {
                    assert(self.tokens@[a] == prev.tokens@[a]);
                    if prev.tokens@[a].id@ == id@ { assert(prev.has_token(id@)); }
                } else {
                    assert(self.tokens@[a] == prev.tokens@[a] && self.tokens@[b] == prev.tokens@[b]);
                }
            }
            self.lemma_token_index(n);
            assert forall|t: Seq<char>| t != id@ implies
                (#[trigger] self.has_token(t) == prev.has_token(t)) && (prev.has_token(t) ==> self.token(t) == prev.token(t)) by {
                if prev.has_token(t) {
                    let j = prev.token_index(t);
                    prev.lemma_token_index(j);
                    assert(self.tokens@[j] == prev.tokens@[j]);
                    self.lemma_token_index(j);
                }
                if self.has_token(t) {
                    let j = self.token_index(t);
                    if j < n {
                        assert(self.tokens@[j] == prev.tokens@[j]);
                        assert(prev.has_token(t));
                    }
                }
            }
        }
        AuthTokenCreateResponse { id, key }
    }

    /// Validates token `id` (see `AuthTokenDO::validate`); an unknown id fails.
    pub fn validate_token(&mut self, kind: AuthTokenKind, id: &str, key: &str, after: AuthTokenAfterValidation, now: u64)
        -> (r: ApiResult<AuthTokenValidateResponse>)
        requires
            old(self).wf(),
        ensures
            final(self).wf(),
            final(self).users == old(self).users,
            final(self).sessions == old(self).sessions,
            final(self).outbox == old(self).outbox,
            r is Ok <==> old(self).token_accepts(id@, key@, kind),
            r matches Ok(v) ==> v.uid == old(self).stored(id@).uid && v.user_token == old(self).stored(id@).user_token
                && final(self).has_token(id@)
                && final(self).token(id@) == old(self).token(id@).after_validation(after, now)
                && final(self).tokens_kept(old(self), id@),
            r matches Err(e) ==> e is Unknown && final(self).tokens@ == old(self).tokens@,
    {
        let i = match self.find_token(id) {
            Some(i) => i,
            None => {
                return Err(ApiError::unknown("no such token"));
            },
        };
        let ghost prev = *old(self);
        let mut entry = self.tokens.remove(i);
        let r = entry.object.validate(key, kind, after, now);
        self.tokens.insert(i, entry);
        proof {
            assert forall|k: int| 0 <= k < prev.tokens@.len() && k != i implies self.tokens@[k] == prev.tokens@[k] by {
                if k < i { } else { }
            }
            if r is Err {
                assert(self.tokens@ =~= prev.tokens@);
            }
            self.lemma_token_replaced(&prev, i as int);
        }
        r
    }

    /// Erases token `id`, if there is one.
    pub fn destroy_token(&mut self, id: &str)
        requires
            old(self).wf(),
        ensures
            final(self).wf(),
            final(self).users == old(self).users,
            final(self).sessions == old(self).sessions,
            final(self).outbox == old(self).outbox,
            old(self).has_token(id@) ==> final(self).has_token(id@) && final(self).token(id@).stored is None,
            !old(self).has_token(id@) ==> final(self).tokens@ == old(self).tokens@,
            final(self).tokens_kept(old(self), id@),
    {
        match self.find_token(id) {
            Some(i) => {
                let ghost prev = *old(self);
                let mut entry = self.tokens.remove(i);
                entry.object.destroy();
                self.tokens.insert(i, entry);
                proof {
                    assert forall|k: int| 0 <= k < prev.tokens@.len() && k != i implies self.tokens@[k] == prev.tokens@[k] by {
                        if k < i { } else { }
                    }
                    self.lemma_token_replaced(&prev, i as int);
                }
            },
            None => {},
        }
    }
}

impl ApiService {
    /// `m` is the mail of `kind` to `to` in `lang`, as the relay receives it.
    pub open spec fn is_mail(&self, m: MailChannelsRequest, to: Seq<char>, kind: MailerKind, lang: ContentLanguage) -> bool {
        &&& m.personalizations@.len() == 1 && m.personalizations@[0].to@.len() == 1
        &&& m.personalizations@[0].to@[0].email@ == to
        &&& m.subject@ == kind.subject_spec(lang)
        &&& m.content@.len() == 1
        &&& m.content@[0].value@ == html_body(if lang == ContentLanguage::Hebrew { "rtl"@ } else { "ltr"@ },
            kind.lead_spec(lang) + kind.page().link_spec(self.mailer.frontend_domain@, self.mailer.frontend_root_path@))
    }

    /// `m` is an out-of-band mail to `to` carrying the token `id`, `key`: an
    /// email-verification mail when `verify`, else a password-reset mail.
    pub open spec fn oob_mail(&self, m: MailChannelsRequest, to: Seq<char>, verify: bool, id: Seq<char>, key: Seq<char>,
        lang: ContentLanguage) -> bool {
        exists|k: MailerKind| #[trigger] carries(k, verify, id, key) && self.is_mail(m, to, k, lang)
    }

    /// Composes the mail of `kind` to `to` in `lang` and hands it to the relay.
    pub fn send_mail(&mut self, to: &str, kind: &MailerKind, lang: ContentLanguage)
        requires
            old(self).wf(),
        ensures
            final(self).wf(),
            final(self).users == old(self).users,
            final(self).tokens == old(self).tokens,
            final(self).sessions == old(self).sessions,
            final(self).mailer == old(self).mailer,
            final(self).outbox@ == old(self).outbox@.push(final(self).outbox@.last()),
            final(self).is_mail(final(self).outbox@.last(), to@, *kind, lang),
    {
        let m = MailChannelsRequest::new(&self.mailer, to.to_string(), kind, lang);
        self.outbox.push(m);
    }

    /// The out-of-band token `id` of `kind` validates with `key`, and its
    /// owner's account still has the user token it was issued under.
    pub open spec fn oob_valid(&self, kind: AuthTokenKind, id: Seq<char>, key: Seq<char>) -> bool {
        self.token_accepts(id, key, kind) && self.users.has_id(self.stored(id).uid)
            && self.users.by_id(self.stored(id).uid).user_token@ == self.stored(id).user_token@
    }

    /// Validates an out-of-band token and returns its owner's account.
    pub fn validate_oob_token(&mut self, kind: AuthTokenKind, oob_token_id: &str, oob_token_key: &str,
        after: AuthTokenAfterValidation, now: u64) -> (r: ApiResult<UserAccount>)
        requires
            old(self).wf(),
        ensures
            final(self).wf(),
            final(self).users == old(self).users,
            final(self).sessions == old(self).sessions,
            final(self).outbox == old(self).outbox,
            r is Ok <==> old(self).oob_valid(kind, oob_token_id@, oob_token_key@),
            r matches Ok(a) ==> a == old(self).users.by_id(old(self).stored(oob_token_id@).uid)
                && final(self).has_token(oob_token_id@)
                && final(self).token(oob_token_id@) == old(self).token(oob_token_id@).after_validation(after, now)
                && final(self).tokens_kept(old(self), oob_token_id@),
            r matches Err(e) ==> e is Unknown,
    {
        let v = match self.validate_token(kind, oob_token_id, oob_token_key, after, now) {
            Ok(v) => v,
            Err(e) => {
                return Err(e);
            },
        };
        let account = match UserAccount::load_by_id(&self.users, &v.uid) {
            Ok(v) => v,
            Err(e) => {
                return Err(e);
            },
        };
        if !str_eq(account.user_token.as_str(), v.user_token.as_str()) {
            return Err(ApiError::unknown("user token mismatch"));
        }
        Ok(account)
    }

    /// Signs a user in by email and client hash: a known email whose stored
    /// credential matches the hash gets a new sign-in token under the
    /// account's user token. Every failure is `InvalidSignin` and changes nothing.
    pub fn signin(&mut self, data: &AuthSigninRequest, now: u64)
        -> (r: ApiResult<(AuthSigninResponse, AuthTokenCreateResponse)>)
        requires
            old(self).wf(),
        ensures
            final(self).wf(),
            final(self).users == old(self).users,
            final(self).sessions == old(self).sessions,
            final(self).outbox == old(self).outbox,
            r is Ok <==> old(self).users.has_email(data.email@)
                && password_matches(old(self).users.by_email(data.email@).password@, data.password@),
            r matches Err(e) ==> e == ApiError::Auth(AuthError::InvalidSignin) && final(self).tokens@ == old(self).tokens@,
            r matches Ok((res, tok)) ==> ({
                let a = old(self).users.by_email(data.email@);
                &&& res.uid == a.id && res.email_verified == a.email_verified && res.auth_key == tok.key
                &&& !old(self).has_token(tok.id@) && final(self).has_token(tok.id@)
                &&& final(self).tokens_kept(old(self), tok.id@)
                &&& final(self).token(tok.id@).stored == Some(AuthTokenStorage {
                    user_token: a.user_token, uid: a.id, key: tok.key, kind: AuthTokenKind::Signin })
                &&& final(self).token(tok.id@).alarm_at == Some(deadline(now, AUTH_SIGNIN_TOKEN_EXPIRES))
            }),
    {
        let user = match UserAccount::load_by_email(&self.users, data.email.as_str()) {
            Ok(u) => u,
            Err(_) => {
                return Err(ApiError::Auth(AuthError::InvalidSignin));
            },
        };
        if !check_password(user.password.as_str(), data.password.as_str()) {
            return Err(ApiError::Auth(AuthError::InvalidSignin));
        }
        let tok = self.create_token(AuthTokenKind::Signin, user.id, user.user_token.clone(), AUTH_SIGNIN_TOKEN_EXPIRES, now);
        let res = AuthSigninResponse { uid: user.id, email_verified: user.email_verified, auth_key: tok.key.clone() };
        Ok((res, tok))
    }

    /// Registers an account with a fresh id and user token, signs it in, and
    /// mails a link carrying a new email-verification token. A taken email is
    /// refused with `EmailAlreadyExists` and changes nothing.
    pub fn register(&mut self, data: &AuthRegisterRequest, lang: ContentLanguage, now: u64)
        -> (r: ApiResult<(AuthRegisterResponse, AuthTokenCreateResponse)>)
        requires
            old(self).wf(),
        ensures
            final(self).wf(),
            final(self).sessions == old(self).sessions,
            old(self).users.has_email(data.email@) <==> (r is Err && r->Err_0.is_auth(AuthError::EmailAlreadyExists)),
            r matches Err(e) ==> (e is Unknown || e.is_auth(AuthError::EmailAlreadyExists))
                && final(self).users == old(self).users && final(self).tokens@ == old(self).tokens@
                && final(self).outbox@ == old(self).outbox@,
            !old(self).users.has_email(data.email@) && is_base64(data.password@) ==> r is Ok,
            !is_base64(data.password@) ==> r is Err,
            r matches Ok((res, tok)) ==> ({
                let a = final(self).users.rows@.last();
                &&& final(self).users.rows@ == old(self).users.rows@.push(a)
                &&& a.id == res.uid && a.email@ == data.email@ && !a.email_verified && a.created_at == now
                &&& exists|s: Seq<u8>| s.len() == SALT_LENGTH && #[trigger] is_credential(a.password@, s, data.password@)
                &&& !res.email_verified && res.auth_key == tok.key
                &&& !old(self).has_token(tok.id@)
                &&& final(self).token_accepts(tok.id@, tok.key@, AuthTokenKind::Signin)
                &&& final(self).stored(tok.id@).uid == a.id && final(self).stored(tok.id@).user_token@ == a.user_token@
                &&& final(self).token(tok.id@).alarm_at == Some(deadline(now, AUTH_SIGNIN_TOKEN_EXPIRES))
                &&& final(self).outbox@.len() == old(self).outbox@.len() + 1
                &&& final(self).outbox@.subrange(0, old(self).outbox@.len() as int) == old(self).outbox@
                &&& exists|id: Seq<char>, key: Seq<char>|
                    #[trigger] final(self).oob_mail(final(self).outbox@.last(), data.email@, true, id, key, lang)
                    && !old(self).has_token(id) && id != tok.id@
                    && final(self).token_accepts(id, key, AuthTokenKind::VerifyEmail)
                    && final(self).stored(id).uid == a.id && final(self).stored(id).user_token@ == a.user_token@
                    && final(self).token(id).alarm_at == Some(deadline(now, AUTH_VERIFY_EMAIL_TOKEN_EXPIRES))
            }),
    {
        if UserAccount::exists_by_email(&self.users, data.email.as_str()) {
            return Err(ApiError::Auth(AuthError::EmailAlreadyExists));
        }
        let password = match hash_password(data.password.as_str(), None) {
            Ok(p) => p,
            Err(e) => {
                return Err(e);
            },
        };
        let uid = self.users.fresh_id();
        let user_token = fresh_user_token();
        let inserted = UserAccount::insert(&mut self.users, &uid, password.as_str(), data.email.as_str(), user_token.as_str(), now);
        assert(inserted is Ok);
        let ghost rows = self.users.rows@;
        let ghost after_insert = *self;
        let tok = self.create_token(AuthTokenKind::Signin, uid, user_token.clone(), AUTH_SIGNIN_TOKEN_EXPIRES, now);
        let ghost signed = *self;
        let oob = self.create_token(AuthTokenKind::VerifyEmail, uid, user_token.clone(), AUTH_VERIFY_EMAIL_TOKEN_EXPIRES, now);
        proof {
            assert(signed.has_token(tok.id@));
            assert(oob.id@ != tok.id@);
            assert(self.has_token(tok.id@) == signed.has_token(tok.id@));
            assert(self.token(tok.id@) == signed.token(tok.id@));
            assert(!after_insert.has_token(oob.id@));
        }
        let ghost oid = oob.id@;
        let ghost okey = oob.key@;
        let kind = MailerKind::EmailVerification { oob_token_id: oob.id, oob_token_key: oob.key };
        let ghost made = *self;
        self.send_mail(data.email.as_str(), &kind, lang);
        proof {
            assert(self.users.rows@ == rows);
            assert(self.outbox@.subrange(0, old(self).outbox@.len() as int) =~= old(self).outbox@);
            assert(carries(kind, true, oid, okey));
            assert(self.oob_mail(self.outbox@.last(), data.email@, true, oid, okey, lang));
            assert(self.token(oid) == made.token(oid));
        }
        let res = AuthRegisterResponse { uid, email_verified: false, auth_key: tok.key.clone() };
        Ok((res, tok))
    }
}

impl ApiService {
    /// Ends the caller's session: its sign-in token is erased.
    pub fn signout(&mut self, user: &AuthUser)
        requires
            old(self).wf(),
        ensures
            final(self).wf(),
            final(self).users == old(self).users,
            old(self).has_token(user.token_id@) ==> final(self).token(user.token_id@).stored is None,
            final(self).tokens_kept(old(self), user.token_id@),
    {
        self.destroy_token(user.token_id.as_str());
    }

    /// The caller's user id.
    pub fn check(user: &AuthUser) -> (r: AuthCheckResponse)
        ensures
            r.uid == user.account.id,
    {
        AuthCheckResponse { uid: user.account.id }
    }

    /// Issues an email-verification token for `account` and mails its link.
    pub fn send_email_validation(&mut self, account: &UserAccount, lang: ContentLanguage, now: u64) -> (r: ApiResult<()>)
        requires
            old(self).wf(),
        ensures
            final(self).wf(),
            final(self).users == old(self).users,
            final(self).sessions == old(self).sessions,
            r is Ok,
            final(self).outbox@.len() == old(self).outbox@.len() + 1,
            final(self).outbox@.subrange(0, old(self).outbox@.len() as int) == old(self).outbox@,
            exists|id: Seq<char>, key: Seq<char>|
                #[trigger] final(self).oob_mail(final(self).outbox@.last(), account.email@, true, id, key, lang)
                && !old(self).has_token(id) && final(self).tokens_kept(old(self), id)
                && final(self).token_accepts(id, key, AuthTokenKind::VerifyEmail)
                && final(self).stored(id).uid == account.id
                && final(self).stored(id).user_token == account.user_token
                && final(self).token(id).alarm_at == Some(deadline(now, AUTH_VERIFY_EMAIL_TOKEN_EXPIRES)),
    {
        let tok = self.create_token(AuthTokenKind::VerifyEmail, account.id, account.user_token.clone(), AUTH_VERIFY_EMAIL_TOKEN_EXPIRES, now);
        let ghost id = tok.id@;
        let ghost key = tok.key@;
        let ghost made = *self;
        let kind = MailerKind::EmailVerification { oob_token_id: tok.id, oob_token_key: tok.key };
        self.send_mail(account.email.as_str(), &kind, lang);
        proof {
            assert(self.outbox@.subrange(0, old(self).outbox@.len() as int) =~= old(self).outbox@);
            assert(carries(kind, true, id, key));
            assert(self.oob_mail(self.outbox@.last(), account.email@, true, id, key, lang));
            self.lemma_same_tokens(&made, old(self), id);
        }
        Ok(())
    }

    /// Confirms an email-verification token: it is consumed and the owner's
    /// email is marked verified.
    pub fn confirm_email_validation(&mut self, data: &AuthConfirmVerifyEmailRequest, now: u64) -> (r: ApiResult<()>)
        requires
            old(self).wf(),
        ensures
            final(self).wf(),
            r is Ok <==> old(self).oob_valid(AuthTokenKind::VerifyEmail, data.oob_token_id@, data.oob_token_key@),
            r is Ok ==> ({
                let uid = old(self).stored(data.oob_token_id@).uid;
                &&& final(self).token(data.oob_token_id@).stored is None
                &&& final(self).has_token(data.oob_token_id@)
                &&& final(self).tokens_kept(old(self), data.oob_token_id@)
                &&& final(self).outbox == old(self).outbox
                &&& final(self).sessions == old(self).sessions
                &&& final(self).users.rows@ == old(self).users.rows@.update(
                    old(self).users.index_of_id(uid),
                    UserAccount { email_verified: true, ..old(self).users.by_id(uid) })
            }),
            r matches Err(e) ==> e is Unknown,
    {
        let account = match self.validate_oob_token(AuthTokenKind::VerifyEmail, data.oob_token_id.as_str(),
            data.oob_token_key.as_str(), AuthTokenAfterValidation::Delete, now) {
            Ok(a) => a,
            Err(e) => {
                return Err(e);
            },
        };
        proof { old(self).users.lemma_by_id_has_id(old(self).stored(data.oob_token_id@).uid); }
        let ghost validated = *self;
        match UserAccount::update_email_verified(&mut self.users, &account.id, true) {
            Ok(_) => {},
            Err(e) => {
                return Err(e);
            },
        }
        proof { self.lemma_same_tokens(&validated, old(self), data.oob_token_id@); }
        Ok(())
    }

    /// Issues a password-reset token for `account` and mails its link.
    pub fn helper_send_password_reset(&mut self, account: &UserAccount, lang: ContentLanguage, now: u64) -> (r: ApiResult<()>)
        requires
            old(self).wf(),
        ensures
            final(self).wf(),
            final(self).users == old(self).users,
            final(self).sessions == old(self).sessions,
            r is Ok,
            final(self).outbox@.len() == old(self).outbox@.len() + 1,
            final(self).outbox@.subrange(0, old(self).outbox@.len() as int) == old(self).outbox@,
            exists|id: Seq<char>, key: Seq<char>|
                #[trigger] final(self).oob_mail(final(self).outbox@.last(), account.email@, false, id, key, lang)
                && !old(self).has_token(id) && final(self).tokens_kept(old(self), id)
                && final(self).token_accepts(id, key, AuthTokenKind::PasswordReset)
                && final(self).stored(id).uid == account.id
                && final(self).stored(id).user_token == account.user_token
                && final(self).token(id).alarm_at == Some(deadline(now, AUTH_RESET_PASSWORD_TOKEN_EXPIRES)),
    {
        let tok = self.create_token(AuthTokenKind::PasswordReset, account.id, account.user_token.clone(), AUTH_RESET_PASSWORD_TOKEN_EXPIRES, now);
        let ghost id = tok.id@;
        let ghost key = tok.key@;
        let ghost made = *self;
        let kind = MailerKind::PasswordReset { oob_token_id: tok.id, oob_token_key: tok.key };
        self.send_mail(account.email.as_str(), &kind, lang);
        proof {
            assert(self.outbox@.subrange(0, old(self).outbox@.len() as int) =~= old(self).outbox@);
            assert(carries(kind, false, id, key));
            assert(self.oob_mail(self.outbox@.last(), account.email@, false, id, key, lang));
            self.lemma_same_tokens(&made, old(self), id);
        }
        Ok(())
    }

    /// Sends a password reset to the account with the given email; an unknown
    /// email is reported as `NoUserPasswordReset` and changes nothing.
    pub fn send_password_reset_any(&mut self, data: &AuthSendResetPasswordRequestAny, lang: ContentLanguage, now: u64)
        -> (r: ApiResult<()>)
        requires
            old(self).wf(),
        ensures
            final(self).wf(),
            final(self).users == old(self).users,
            final(self).sessions == old(self).sessions,
            r is Ok <==> old(self).users.has_email(data.email@),
            r matches Err(e) ==> e == ApiError::Auth(AuthError::NoUserPasswordReset)
                && final(self).tokens@ == old(self).tokens@ && final(self).outbox@ == old(self).outbox@,
            r is Ok ==> ({
                let a = old(self).users.by_email(data.email@);
                &&& final(self).outbox@.len() == old(self).outbox@.len() + 1
                &&& final(self).outbox@.subrange(0, old(self).outbox@.len() as int) == old(self).outbox@
                &&& exists|id: Seq<char>, key: Seq<char>|
                    #[trigger] final(self).oob_mail(final(self).outbox@.last(), a.email@, false, id, key, lang)
                    && !old(self).has_token(id) && final(self).tokens_kept(old(self), id)
                    && final(self).token_accepts(id, key, AuthTokenKind::PasswordReset)
                    && final(self).stored(id).uid == a.id
                    && final(self).stored(id).user_token == a.user_token
                    && final(self).token(id).alarm_at == Some(deadline(now, AUTH_RESET_PASSWORD_TOKEN_EXPIRES))
            }),
    {
        let account = match UserAccount::load_by_email(&self.users, data.email.as_str()) {
            Ok(a) => a,
            Err(_) => {
                return Err(ApiError::Auth(AuthError::NoUserPasswordReset));
            },
        };
        self.helper_send_password_reset(&account, lang, now)
    }

    /// Sends a password reset to the caller.
    pub fn send_password_reset_me(&mut self, user: &AuthUser, lang: ContentLanguage, now: u64) -> (r: ApiResult<()>)
        requires
            old(self).wf(),
        ensures
            final(self).wf(),
            final(self).users == old(self).users,
            final(self).sessions == old(self).sessions,
            r is Ok,
            final(self).outbox@.len() == old(self).outbox@.len() + 1,
            exists|id: Seq<char>, key: Seq<char>|
                #[trigger] final(self).oob_mail(final(self).outbox@.last(), user.account.email@, false, id, key, lang)
                && !old(self).has_token(id) && final(self).tokens_kept(old(self), id)
                && final(self).token_accepts(id, key, AuthTokenKind::PasswordReset)
                && final(self).stored(id).uid == user.account.id
                && final(self).token(id).alarm_at == Some(deadline(now, AUTH_RESET_PASSWORD_TOKEN_EXPIRES)),
    {
        self.helper_send_password_reset(&user.account, lang, now)
    }

    /// Checks a password-reset token without consuming it: its expiry is
    /// extended so that the confirmation that follows still finds it.
    pub fn check_password_reset(&mut self, data: &AuthCheckResetPasswordRequest, now: u64)
        -> (r: ApiResult<AuthCheckResetPasswordResponse>)
        requires
            old(self).wf(),
        ensures
            final(self).wf(),
            final(self).users == old(self).users,
            r is Ok <==> old(self).oob_valid(AuthTokenKind::PasswordReset, data.oob_token_id@, data.oob_token_key@),
            r matches Ok(c) ==> ({
                let a = old(self).users.by_id(old(self).stored(data.oob_token_id@).uid);
                &&& c.uid == a.id && c.email == a.email
                &&& final(self).token_accepts(data.oob_token_id@, data.oob_token_key@, AuthTokenKind::PasswordReset)
                &&& final(self).token(data.oob_token_id@).alarm_at == Some(deadline(now, AUTH_RESET_PASSWORD_TOKEN_EXPIRES))
            }),
            r matches Err(e) ==> e is Unknown,
    {
        let account = match self.validate_oob_token(AuthTokenKind::PasswordReset, data.oob_token_id.as_str(),
            data.oob_token_key.as_str(), AuthTokenAfterValidation::ExtendExpiresMs(AUTH_RESET_PASSWORD_TOKEN_EXPIRES), now) {
            Ok(a) => a,
            Err(e) => {
                return Err(e);
            },
        };
        proof {
            crate::token::lemma_extended_token_still_accepts(old(self).token(data.oob_token_id@),
                data.oob_token_key@, AuthTokenKind::PasswordReset, AUTH_RESET_PASSWORD_TOKEN_EXPIRES, now);
        }
        Ok(AuthCheckResetPasswordResponse { uid: account.id, email: account.email })
    }

    /// Confirms a password reset: the token is consumed, the account gets the
    /// new credential and a new user token together (one that no live token
    /// object holds), and is signed in anew.
    pub fn confirm_password_reset(&mut self, data: &AuthConfirmResetPasswordRequest, now: u64)
        -> (r: ApiResult<(AuthConfirmResetPasswordResponse, AuthTokenCreateResponse)>)
        requires
            old(self).wf(),
        ensures
            final(self).wf(),
            final(self).sessions == old(self).sessions,
            final(self).outbox == old(self).outbox,
            r is Ok <==> old(self).oob_valid(AuthTokenKind::PasswordReset, data.oob_token_id@, data.oob_token_key@)
                && is_base64(data.password@),
            r matches Ok((res, tok)) ==> ({
                let uid = old(self).stored(data.oob_token_id@).uid;
                let i = old(self).users.index_of_id(uid);
                let before = old(self).users.rows@[i];
                let after = final(self).users.rows@[i];
                &&& old(self).users.has_id(uid)
                &&& res.uid == uid && res.email_verified == before.email_verified && res.auth_key == tok.key
                &&& after.id == uid && after.email == before.email && after.email_verified == before.email_verified
                &&& after.user_token@ != before.user_token@
                &&& forall|t: Seq<char>| #[trigger] old(self).has_token(t) && old(self).token(t).stored is Some
                    ==> old(self).stored(t).user_token@ != after.user_token@
                &&& final(self).users.has_id(uid) && final(self).users.by_id(uid) == after
                &&& before == old(self).users.by_id(uid)
                &&& final(self).users.rows@ == old(self).users.rows@.update(i, after)
                &&& forall|t: Seq<char>| t != data.oob_token_id@ && t != tok.id@ ==>
                    (#[trigger] final(self).has_token(t) == old(self).has_token(t))
                    && (old(self).has_token(t) ==> final(self).token(t) == old(self).token(t))
                &&& exists|s: Seq<u8>| s.len() == SALT_LENGTH && #[trigger] is_credential(after.password@, s, data.password@)
                &&& final(self).has_token(data.oob_token_id@) && final(self).token(data.oob_token_id@).stored is None
                &&& !old(self).has_token(tok.id@)
                &&& final(self).token_accepts(tok.id@, tok.key@, AuthTokenKind::Signin)
                &&& final(self).stored(tok.id@).uid == uid
                &&& final(self).stored(tok.id@).user_token@ == after.user_token@
                &&& final(self).token(tok.id@).alarm_at == Some(deadline(now, AUTH_SIGNIN_TOKEN_EXPIRES))
            }),
            r matches Err(e) ==> e is Unknown,
    {
        if !crate::codec::decode_base64(data.password.as_str()).is_ok() {
            return Err(ApiError::unknown("password is not base64"));
        }
        let ghost prev = *old(self);
        let user_token = self.fresh_user_token_apart("");
        let account = match self.validate_oob_token(AuthTokenKind::PasswordReset, data.oob_token_id.as_str(),
            data.oob_token_key.as_str(), AuthTokenAfterValidation::Delete, now) {
            Ok(a) => a,
            Err(e) => {
                return Err(e);
            },
        };
        let ghost uid = account.id;
        proof { prev.users.lemma_by_id_has_id(uid); }
        let password = match hash_password(data.password.as_str(), None) {
            Ok(p) => p,
            Err(e) => {
                return Err(e);
            },
        };
        let ghost validated = *self;
        let ghost first = user_token@;
        let redraw = str_eq(user_token.as_str(), account.user_token.as_str());
        let user_token = if redraw {
            self.fresh_user_token_apart(account.user_token.as_str())
        } else {
            user_token
        };
        proof {
            let oid = data.oob_token_id@;
            assert(prev.stored(oid).user_token@ == account.user_token@);
            assert(user_token@ != account.user_token@);
            assert forall|t: Seq<char>| #[trigger] prev.has_token(t) && prev.token(t).stored is Some
                implies prev.stored(t).user_token@ != user_token@ by {
                if t != oid {
                    let j = prev.token_index(t);
                    assert(prev.tokens@[j].object.stored is Some);
                    if redraw {
                        assert(validated.has_token(t) && validated.token(t) == prev.token(t));
                        let k = validated.token_index(t);
                        assert(validated.tokens@[k].object.stored is Some);
                    }
                }
            }
        }
        let reset = UserAccount::reset_password(&mut self.users, &account.id, password.as_str(), user_token.as_str());
        assert(reset is Ok);
        let ghost before_create = *self;
        let tok = self.create_token(AuthTokenKind::Signin, account.id, user_token.clone(), AUTH_SIGNIN_TOKEN_EXPIRES, now);
        proof {
            let i = prev.users.index_of_id(uid);
            self.users.lemma_by_id_at(uid, i);
            let oid = data.oob_token_id@;
            assert(validated.has_token(oid));
            assert(before_create.has_token(oid) == validated.has_token(oid));
            assert(before_create.token(oid) == validated.token(oid));
            assert(tok.id@ != oid);
            assert(self.tokens_kept(&before_create, tok.id@));
            assert(self.has_token(oid) == before_create.has_token(oid));
            assert(before_create.has_token(oid) ==> self.token(oid) == before_create.token(oid));
        }
        proof {
            assert(before_create.has_token(tok.id@) == validated.has_token(tok.id@));
            assert(validated.has_token(tok.id@) == prev.has_token(tok.id@));
            assert(!prev.has_token(tok.id@));
            let i = prev.users.index_of_id(uid);
            assert(self.users.rows@ =~= prev.users.rows@.update(i, self.users.rows@[i]));
            assert forall|t: Seq<char>| t != data.oob_token_id@ && t != tok.id@ implies
                (#[trigger] self.has_token(t) == prev.has_token(t))
                && (prev.has_token(t) ==> self.token(t) == prev.token(t)) by {
                assert(self.has_token(t) == before_create.has_token(t));
                assert(before_create.has_token(t) == validated.has_token(t));
                assert(validated.has_token(t) == prev.has_token(t));
                if prev.has_token(t) {
                    assert(before_create.token(t) == validated.token(t));
                }
            }
        }
        let res = AuthConfirmResetPasswordResponse { uid: account.id, email_verified: account.email_verified, auth_key: tok.key.clone() };
        Ok((res, tok))
    }
}

impl ApiService {
    /// The request's credentials pass authentication for `kind`: the sign-in token
    /// they name accepts the key, its owner exists, and `authorize` passes.
    pub open spec fn credentials_pass(&self, kind: RouteAuthKind, id: Option<Seq<char>>, key: Option<Seq<char>>) -> bool {
        &&& id is Some && key is Some
        &&& self.token_accepts(id->Some_0, key->Some_0, AuthTokenKind::Signin)
        &&& self.users.has_id(self.stored(id->Some_0).uid)
        &&& authorize_spec(kind, self.stored(id->Some_0).user_token@, self.users.by_id(self.stored(id->Some_0).uid)) is None
    }

    /// Everything but the email check passes, and the email is unverified.
    pub open spec fn credentials_unverified(&self, kind: RouteAuthKind, id: Option<Seq<char>>, key: Option<Seq<char>>) -> bool {
        &&& id is Some && key is Some
        &&& self.token_accepts(id->Some_0, key->Some_0, AuthTokenKind::Signin)
        &&& self.users.has_id(self.stored(id->Some_0).uid)
        &&& authorize_spec(kind, self.stored(id->Some_0).user_token@, self.users.by_id(self.stored(id->Some_0).uid))
            == Some(Refusal::EmailNotVerified)
    }

    proof fn lemma_session_index(&self, i: int)
        requires
            self.wf(),
            0 <= i < self.sessions@.len(),
        ensures
            self.has_session(self.sessions@[i].id@),
            self.session_index(self.sessions@[i].id@) == i,
    {
        let id = self.sessions@[i].id@;
        assert(self.has_session(id));
        let j = self.session_index(id);
        if j != i {
            if j < i {
                assert(self.sessions@[j].id@ != self.sessions@[i].id@);
            } else {
                assert(self.sessions@[i].id@ != self.sessions@[j].id@);
            }
        }
    }

    proof fn lemma_session_replaced(&self, old: &ApiService, i: int)
        requires
            old.wf(),
            0 <= i < old.sessions@.len(),
            self.sessions@.len() == old.sessions@.len(),
            self.sessions@[i].id == old.sessions@[i].id,
            self.sessions@[i].object.wf(),
            forall|k: int| 0 <= k < old.sessions@.len() && k != i ==> self.sessions@[k] == old.sessions@[k],
            self.users == old.users,
            self.tokens == old.tokens,
        ensures
            self.wf(),
            self.has_session(old.sessions@[i].id@),
            self.session(old.sessions@[i].id@) == self.sessions@[i].object,
    {
        assert forall|a: int, b: int| 0 <= a < b < self.sessions@.len() implies
            (#[trigger] self.sessions@[a]).id@ != (#[trigger] self.sessions@[b]).id@ by {
            assert(old.sessions@[a].id@ != old.sessions@[b].id@);
        }
        assert forall|a: int| 0 <= a < self.sessions@.len() implies (#[trigger] self.sessions@[a]).object.wf() by {
            if a != i { assert(old.sessions@[a].object.wf()); }
        }
        self.lemma_session_index(i);
    }

    /// Starts an OpenID Connect sign-in with `provider`: a new session object
    /// holding a fresh key and nonce, and the provider's authorization URL
    /// (scope `email`, response type `code`) whose `state` is the session's
    /// id and key and whose redirect URI is the provider's callback route.
    /// Fails, changing nothing, exactly where the endpoint or the redirect URI
    /// is not a URL.
    pub fn openid_connect(&mut self, data: &AuthOpenIdConnectRequest, client: &OpenIdClientConfig, now: u64)
        -> (r: ApiResult<(OpenIdSession, String)>)
        requires
            old(self).wf(),
        ensures
            final(self).wf(),
            final(self).users == old(self).users,
            final(self).tokens == old(self).tokens,
            final(self).outbox == old(self).outbox,
            final(self).mailer == old(self).mailer,
            r is Err ==> final(self).sessions@ == old(self).sessions@,
            r is Ok <==> url_parses(client.authorization_endpoint@) && url_parses(
                Route::Auth(AuthRoute::OpenIdAccessTokenHook(data.provider)).link_spec(client.api_domain@, client.api_root_path@)),
            r matches Ok((s, url)) ==> ({
                let o = final(self).session(s.id@);
                &&& !old(self).has_session(s.id@) && final(self).has_session(s.id@)
                &&& o.key_is(s.key@) && is_token_key(s.key@)
                &&& o.provider == Some(data.provider) && o.nonce is Some && o.access_token is None
                &&& o.alarm_at == Some(deadline(now, AUTH_OPEN_ID_SESSION_EXPIRES))
                &&& url@ == authorize_url_of(client.authorization_endpoint@, client.client_id@,
                    Route::Auth(AuthRoute::OpenIdAccessTokenHook(data.provider)).link_spec(client.api_domain@, client.api_root_path@),
                    csrf_text(s.id@, s.key@), o.nonce->Some_0@, "email"@)
            }),
            r matches Err(e) ==> e is Unknown,
    {
        let id = self.fresh_session_id();
        let (mut object, key) = OpenIdSessionDO::start(data.provider, now);
        let nonce = new_nonce();
        let set = object.set_nonce(nonce.clone());
        assert(set is Ok);
        let session = OpenIdSession { id: id.clone(), key };
        let state = session.to_csrf_token();
        let redirect = OpenIdProcessor::new(data.provider).redirect_uri(client.api_domain.as_str(), client.api_root_path.as_str());
        let url = match authorization_url(client.authorization_endpoint.as_str(), client.client_id.as_str(),
            redirect.as_str(), state.as_str(), nonce.as_str(), "email") {
            Some(u) => u,
            None => {
                return Err(ApiError::unknown("invalid authorization endpoint or redirect URI"));
            },
        };
        let ghost prev = *self;
        self.sessions.push(SessionEntry { id, object });
        proof {
            let n = prev.sessions@.len() as int;
            assert forall|a: int, b: int| 0 <= a < b < self.sessions@.len() implies
                (#[trigger] self.sessions@[a]).id@ != (#[trigger] self.sessions@[b]).id@ by {
                if b == n {
                    assert(self.sessions@[a] == prev.sessions@[a]);
                    if prev.sessions@[a].id@ == session.id@ { assert(prev.has_session(session.id@)); }
                } else {
                    assert(self.sessions@[a] == prev.sessions@[a] && self.sessions@[b] == prev.sessions@[b]);
                }
            }
            assert forall|a: int| 0 <= a < self.sessions@.len() implies (#[trigger] self.sessions@[a]).object.wf() by {
                if a < n { assert(self.sessions@[a] == prev.sessions@[a]); }
            }
            self.lemma_session_index(n);
        }
        Ok((session, url))
    }

    /// The provider's callback: reads the `state` text, checks the session's
    /// key, and returns what the code exchange needs. The session must have
    /// been started for the provider whose callback this is.
    pub fn openid_callback_begin(&self, provider: OpenIdProvider, state: &str) -> (r: ApiResult<(OpenIdSession, OpenIdSessionNonce)>)
        requires
            self.wf(),
        ensures
            r is Ok <==> ({
                let parts = split_spec(state@, DELIMITER);
                &&& parts.len() >= 2 && self.has_session(parts[0])
                &&& self.session(parts[0]).key_is(parts[1])
                &&& self.session(parts[0]).phase() == OpenIdSessionPhase::NonceSet
                &&& self.session(parts[0]).provider == Some(provider)
            }),
            r matches Ok((s, n)) ==> self.has_session(s.id@) && self.session(s.id@).key_is(s.key@)
                && s.id@ == split_spec(state@, DELIMITER)[0] && s.key@ == split_spec(state@, DELIMITER)[1]
                && n.provider == provider && self.session(s.id@).nonce == Some(n.nonce),
            r matches Err(e) ==> e is Unknown,
    {
        let session = match OpenIdSession::try_from_str(state) {
            Ok(s) => s,
            Err(e) => {
                return Err(e);
            },
        };
        let i = match self.find_session(session.id.as_str()) {
            Some(i) => i,
            None => {
                return Err(ApiError::unknown("no such session"));
            },
        };
        let n = match self.sessions[i].object.get_nonce(session.key.as_str()) {
            Ok(n) => n,
            Err(_) => {
                return Err(ApiError::unknown("invalid session"));
            },
        };
        if n.provider != provider {
            return Err(ApiError::unknown("mismatched provider"));
        }
        Ok((session, n))
    }

    /// Stores the outcome of the code exchange on the session: the access
    /// token, the email (required) and whether it is verified (`false` when
    /// the provider does not say).
    pub fn openid_callback_complete(&mut self, session: &OpenIdSession, access_token: String,
        email: Option<String>, email_verified: Option<bool>) -> (r: ApiResult<()>)
        requires
            old(self).wf(),
        ensures
            final(self).wf(),
            final(self).users == old(self).users,
            final(self).tokens == old(self).tokens,
            final(self).mailer == old(self).mailer,
            final(self).outbox == old(self).outbox,
            r is Err ==> final(self).sessions@ == old(self).sessions@,
            r is Ok <==> email is Some && old(self).has_session(session.id@)
                && old(self).session(session.id@).phase() == OpenIdSessionPhase::NonceSet,
            r is Ok ==> old(self).has_session(session.id@) && final(self).has_session(session.id@)
                && final(self).session(session.id@).access_token == Some(access_token)
                && final(self).session(session.id@).email == email
                && final(self).session(session.id@).email_verified == Some(email_verified == Some(true)),
            r matches Err(e) ==> e is Unknown,
    {
        let (email, verified) = match OpenIdProcessor::claims_outcome(email, email_verified) {
            Ok(c) => c,
            Err(e) => {
                return Err(e);
            },
        };
        let i = match self.find_session(session.id.as_str()) {
            Some(i) => i,
            None => {
                return Err(ApiError::unknown("no such session"));
            },
        };
        let ghost prev = *old(self);
        let mut entry = self.sessions.remove(i);
        proof { assert(prev.sessions@[i as int].object.wf()); }
        let r = entry.object.set_access_token(access_token, email, verified);
        self.sessions.insert(i, entry);
        proof {
            if r is Err {
                assert(self.sessions@ =~= prev.sessions@);
            }
            assert forall|k: int| 0 <= k < prev.sessions@.len() && k != i implies self.sessions@[k] == prev.sessions@[k] by {
                if k < i { } else { }
            }
            self.lemma_session_replaced(&prev, i as int);
        }
        r
    }

    /// Completes the provider's callback from the token response: the ID
    /// token is checked against the provider's keys, this client's id, the
    /// provider's issuer and the session's nonce, and its claims are stored
    /// on the session with the access token. A session that is not awaiting
    /// a token for `provider` under `session.key` is refused, unchanged.
    pub fn openid_callback_verify(&mut self, session: &OpenIdSession, provider: OpenIdProvider, access_token: String,
        id_token: &str, jwks_json: &str, client_id: &str) -> (r: ApiResult<()>)
        requires
            old(self).wf(),
        ensures
            final(self).wf(),
            final(self).users == old(self).users,
            final(self).tokens == old(self).tokens,
            final(self).outbox == old(self).outbox,
            final(self).mailer == old(self).mailer,
            !(old(self).has_session(session.id@) && old(self).session(session.id@).key_is(session.key@)
                && old(self).session(session.id@).phase() == OpenIdSessionPhase::NonceSet
                && old(self).session(session.id@).provider == Some(provider)) ==> r is Err
                && final(self).sessions@ == old(self).sessions@,
            r is Err ==> final(self).sessions@ == old(self).sessions@,
            r is Ok ==> final(self).has_session(session.id@)
                && final(self).session(session.id@).access_token == Some(access_token)
                && final(self).session(session.id@).email is Some
                && final(self).session(session.id@).phase() == OpenIdSessionPhase::TokenSet,
            r matches Err(e) ==> e is Unknown,
    {
        let i = match self.find_session(session.id.as_str()) {
            Some(i) => i,
            None => {
                return Err(ApiError::unknown("no such session"));
            },
        };
        proof { assert(self.sessions@[i as int].object.wf()); }
        let n = match self.sessions[i].object.get_nonce(session.key.as_str()) {
            Ok(n) => n,
            Err(_) => {
                return Err(ApiError::unknown("invalid session"));
            },
        };
        if n.provider != provider {
            return Err(ApiError::unknown("mismatched provider"));
        }
        let issuer = OpenIdProcessor::new(provider).issuer_url();
        let (email, verified) = match verified_email_claims(id_token, jwks_json, client_id, issuer, n.nonce.as_str()) {
            Some(c) => c,
            None => {
                return Err(ApiError::unknown("invalid ID token"));
            },
        };
        match self.openid_callback_complete(session, access_token, email, verified) {
            Ok(()) => Ok(()),
            Err(e) => Err(e),
        }
    }

    /// Where the callback sends the browser: the frontend's finalize page for
    /// the session, or its "no auth" page after any failure.
    pub fn access_token_hook_redirect(&self, outcome: &ApiResult<OpenIdSession>) -> (r: String)
        ensures
            match outcome {
                Ok(s) => r@ == FrontendRoute::Landing(Landing::Auth(FrontendAuthRoute::OpenIdFinalize {
                    session_id: s.id, session_key: s.key })).link_spec(self.mailer.frontend_domain@, self.mailer.frontend_root_path@),
                Err(_) => r@ == FrontendRoute::NotFound(NotFoundReason::NoAuth).link_spec(
                    self.mailer.frontend_domain@, self.mailer.frontend_root_path@),
            },
    {
        let page = match outcome {
            Ok(s) => FrontendRoute::Landing(Landing::Auth(FrontendAuthRoute::OpenIdFinalize {
                session_id: s.id.clone(), session_key: s.key.clone() })),
            Err(_) => FrontendRoute::NotFound(NotFoundReason::NoAuth),
        };
        page.link(self.mailer.frontend_domain.as_str(), self.mailer.frontend_root_path.as_str())
    }

    /// Reads a finalizable session without consuming it: its email, and
    /// whether an account already has that email.
    pub fn openid_finalize_query(&self, data: &AuthOpenIdFinalizeRequest) -> (r: ApiResult<AuthOpenIdFinalizeQueryResponse>)
        requires
            self.wf(),
        ensures
            r is Ok <==> self.has_session(data.session_id@) && self.session(data.session_id@).can_finalize(data.session_key@),
            r matches Ok(q) ==> self.session(data.session_id@).email == Some(q.email)
                && q.user_exists == self.users.has_email(q.email@),
            r matches Err(e) ==> e is Unknown,
    {
        let i = match self.find_session(data.session_id.as_str()) {
            Some(i) => i,
            None => {
                return Err(ApiError::unknown("no such session"));
            },
        };
        proof { assert(self.sessions@[i as int].object.wf()); }
        let info = match self.sessions[i].object.finalize_query(data.session_key.as_str()) {
            Ok(info) => info,
            Err(e) => {
                return Err(e);
            },
        };
        let user_exists = UserAccount::exists_by_email(&self.users, info.email.as_str());
        Ok(AuthOpenIdFinalizeQueryResponse { email: info.email, user_exists })
    }
}

impl ApiService {
    /// The email of the session `id` (meaningful once its token is set).
    pub open spec fn session_email(&self, id: Seq<char>) -> Seq<char> {
        self.session(id).email->Some_0@
    }

    /// Consumes a finalizable session and signs its user in: the account with
    /// the session's email, created (with a random password) when there is
    /// none; its verified flag is raised when the provider vouches for the
    /// email.
    pub fn openid_finalize_exec(&mut self, data: &AuthOpenIdFinalizeRequest, now: u64)
        -> (r: ApiResult<(AuthOpenIdFinalizeExecResponse, AuthTokenCreateResponse)>)
        requires
            old(self).wf(),
        ensures
            final(self).wf(),
            final(self).outbox == old(self).outbox,
            r is Ok ==> old(self).has_session(data.session_id@)
                && old(self).session(data.session_id@).can_finalize(data.session_key@),
            old(self).has_session(data.session_id@) && old(self).session(data.session_id@).can_finalize(data.session_key@)
                ==> r is Ok,
            !(old(self).has_session(data.session_id@) && old(self).session(data.session_id@).can_finalize(data.session_key@))
                ==> r is Err && final(self).sessions@ == old(self).sessions@,
            r is Err ==> final(self).users == old(self).users && final(self).tokens@ == old(self).tokens@,
            r matches Ok((res, tok)) ==> ({
                let e = old(self).session_email(data.session_id@);
                let v = old(self).session(data.session_id@).email_verified == Some(true);
                let a = final(self).users.by_email(e);
                &&& final(self).session(data.session_id@) == OpenIdSessionDO::empty()
                &&& final(self).users.has_email(e)
                &&& old(self).users.has_email(e) ==> final(self).users.rows@.len() == old(self).users.rows@.len()
                    && res.uid == old(self).users.by_email(e).id
                    && a.user_token == old(self).users.by_email(e).user_token
                &&& !old(self).users.has_email(e) ==> final(self).users.rows@.len() == old(self).users.rows@.len() + 1
                    && final(self).users.rows@.subrange(0, old(self).users.rows@.len() as int) == old(self).users.rows@
                &&& res.email_verified == (v || (old(self).users.has_email(e) && old(self).users.by_email(e).email_verified))
                &&& a.email_verified == res.email_verified && a.id == res.uid
                &&& res.auth_key == tok.key
                &&& !old(self).has_token(tok.id@)
                &&& final(self).token_accepts(tok.id@, tok.key@, AuthTokenKind::Signin)
                &&& final(self).stored(tok.id@).uid == res.uid
                &&& final(self).stored(tok.id@).user_token@ == a.user_token@
                &&& final(self).token(tok.id@).alarm_at == Some(deadline(now, AUTH_SIGNIN_TOKEN_EXPIRES))
            }),
            r matches Err(e) ==> e is Unknown,
    {
        let i = match self.find_session(data.session_id.as_str()) {
            Some(i) => i,
            None => {
                return Err(ApiError::unknown("no such session"));
            },
        };
        proof { assert(self.sessions@[i as int].object.wf()); }
        if self.sessions[i].object.finalize_query(data.session_key.as_str()).is_err() {
            return Err(ApiError::unknown("session cannot be finalized"));
        }
        let existing = UserAccount::load_by_email(&self.users, self.sessions[i].object.email_text());
        let ghost prev = *old(self);
        let mut entry = self.sessions.remove(i);
        let finalized = entry.object.finalize_exec(data.session_key.as_str());
        self.sessions.insert(i, entry);
        proof {
            assert forall|k: int| 0 <= k < prev.sessions@.len() && k != i implies self.sessions@[k] == prev.sessions@[k] by {
                if k < i { } else { }
            }
            self.lemma_session_replaced(&prev, i as int);
        }
        let info = match finalized {
            Ok(info) => info,
            Err(e) => {
                return Err(e);
            },
        };
        let ghost e = info.email@;
        let ghost n = prev.users.rows@.len() as int;
        let user = match existing {
            Ok(u) => u,
            Err(_) => {
                let uid = self.users.fresh_id();
                let user_token = fresh_user_token();
                let random = crate::codec::random_bytes(SALT_LENGTH);
                let password = crate::codec::encode_base64(random.as_slice());
                let inserted = UserAccount::insert(&mut self.users, &uid, password.as_str(), info.email.as_str(), user_token.as_str(), now);
                assert(inserted is Ok);
                proof { self.users.lemma_by_email_at(e, n); }
                let u = self.users.rows[self.users.rows.len() - 1].duplicate();
                u
            },
        };
        proof {
            let k = if prev.users.has_email(e) { choose|k: int| 0 <= k < n && crate::user::lower_of(prev.users.rows@[k].email@) == crate::user::lower_of(e) } else { n };
            self.users.lemma_by_email_at(e, k);
            assert(self.users.rows@[k] == user);
        }
        let ghost before_update = self.users;
        if !user.email_verified && info.email_verified {
            let updated = UserAccount::update_email_verified(&mut self.users, &user.id, true);
            assert(updated is Ok);
            proof {
                let k = before_update.index_of_id(user.id);
                before_update.lemma_by_email_at(e, k);
                before_update.lemma_by_id_at(user.id, k);
                self.users.lemma_by_email_at(e, k);
            }
        }
        let ghost users_final = self.users;
        let ghost before_create = *self;
        let tok = self.create_token(AuthTokenKind::Signin, user.id, user.user_token.clone(), AUTH_SIGNIN_TOKEN_EXPIRES, now);
        proof {
            assert(self.session(data.session_id@) == before_create.session(data.session_id@));
        }
        let res = AuthOpenIdFinalizeExecResponse {
            uid: user.id,
            email_verified: user.email_verified || info.email_verified,
            auth_key: tok.key.clone(),
        };
        Ok((res, tok))
    }
}

impl ApiService {
    /// Fires every alarm due at `now`: those token and session objects are
    /// erased; the others are left as they were.
    pub fn fire_alarms(&mut self, now: u64)
        requires
            old(self).wf(),
        ensures
            final(self).wf(),
            final(self).users == old(self).users,
            final(self).tokens@.len() == old(self).tokens@.len(),
            final(self).sessions@.len() == old(self).sessions@.len(),
            forall|i: int| 0 <= i < old(self).tokens@.len() ==> {
                let t = #[trigger] final(self).tokens@[i];
                &&& t.id == old(self).tokens@[i].id
                &&& (old(self).tokens@[i].object.alarm_at matches Some(d) && d <= now) ==> t.object.stored is None
                &&& !(old(self).tokens@[i].object.alarm_at matches Some(d) && d <= now) ==> t == old(self).tokens@[i]
            },
            forall|i: int| 0 <= i < old(self).sessions@.len() ==> {
                let s = #[trigger] final(self).sessions@[i];
                &&& s.id == old(self).sessions@[i].id
                &&& (old(self).sessions@[i].object.alarm_at matches Some(d) && d <= now) ==> s.object == OpenIdSessionDO::empty()
                &&& !(old(self).sessions@[i].object.alarm_at matches Some(d) && d <= now) ==> s == old(self).sessions@[i]
            },
    {
        let ghost prev = *old(self);
        let mut i: usize = 0;
        while i < self.tokens.len()
            invariant
                prev.wf(),
                self.users == prev.users,
                self.sessions == prev.sessions,
                self.tokens@.len() == prev.tokens@.len(),
                0 <= i <= self.tokens@.len(),
                forall|k: int| 0 <= k < self.tokens@.len() ==> (#[trigger] self.tokens@[k]).id == prev.tokens@[k].id,
                forall|k: int| i <= k < self.tokens@.len() ==> self.tokens@[k] == prev.tokens@[k],
                forall|k: int| 0 <= k < i ==> {
                    let t = #[trigger] self.tokens@[k];
                    &&& (prev.tokens@[k].object.alarm_at matches Some(d) && d <= now) ==> t.object.stored is None
                    &&& !(prev.tokens@[k].object.alarm_at matches Some(d) && d <= now) ==> t == prev.tokens@[k]
                },
            decreases self.tokens@.len() - i,
        {
            if self.tokens[i].object.alarm_due(now) {
                let mut entry = self.tokens.remove(i);
                entry.object.alarm();
                self.tokens.insert(i, entry);
            }
            i = i + 1;
        }
        let mut j: usize = 0;
        while j < self.sessions.len()
            invariant
                prev.wf(),
                self.users == prev.users,
                self.sessions@.len() == prev.sessions@.len(),
                0 <= j <= self.sessions@.len(),
                forall|k: int| 0 <= k < self.sessions@.len() ==> (#[trigger] self.sessions@[k]).id == prev.sessions@[k].id,
                forall|k: int| j <= k < self.sessions@.len() ==> self.sessions@[k] == prev.sessions@[k],
                forall|k: int| 0 <= k < j ==> {
                    let s = #[trigger] self.sessions@[k];
                    &&& (prev.sessions@[k].object.alarm_at matches Some(d) && d <= now) ==> s.object == OpenIdSessionDO::empty()
                    &&& !(prev.sessions@[k].object.alarm_at matches Some(d) && d <= now) ==> s == prev.sessions@[k]
                },
                self.tokens@.len() == prev.tokens@.len(),
                forall|k: int| 0 <= k < self.tokens@.len() ==> (#[trigger] self.tokens@[k]).id == prev.tokens@[k].id,
                forall|k: int| 0 <= k < self.tokens@.len() ==> {
                    let t = #[trigger] self.tokens@[k];
                    &&& (prev.tokens@[k].object.alarm_at matches Some(d) && d <= now) ==> t.object.stored is None
                    &&& !(prev.tokens@[k].object.alarm_at matches Some(d) && d <= now) ==> t == prev.tokens@[k]
                },
            decreases self.sessions@.len() - j,
        {
            if self.sessions[j].object.alarm_due(now) {
                let mut entry = self.sessions.remove(j);
                entry.object.alarm();
                self.sessions.insert(j, entry);
            }
            j = j + 1;
        }
        proof {
            assert forall|a: int, b: int| 0 <= a < b < self.tokens@.len() implies
                (#[trigger] self.tokens@[a]).id@ != (#[trigger] self.tokens@[b]).id@ by {
                assert(prev.tokens@[a].id@ != prev.tokens@[b].id@);
            }
            assert forall|a: int, b: int| 0 <= a < b < self.sessions@.len() implies
                (#[trigger] self.sessions@[a]).id@ != (#[trigger] self.sessions@[b]).id@ by {
                assert(prev.sessions@[a].id@ != prev.sessions@[b].id@);
            }
            assert forall|a: int| 0 <= a < self.sessions@.len() implies (#[trigger] self.sessions@[a]).object.wf() by {
                assert(prev.sessions@[a].object.wf());
            }
        }
    }
}

impl AuthUser {
    fn validate(service: &mut ApiService, kind: RouteAuthKind, id_header: Option<&str>, cookie: Option<&str>, key_header: Option<&str>, now: u64)
        -> (r: ApiResult<AuthUser>)
        requires
            old(service).wf(),
        ensures
            final(service).wf(),
            final(service).users == old(service).users,
            final(service).sessions == old(service).sessions,
            final(service).outbox == old(service).outbox,
            r is Ok <==> old(service).credentials_pass(kind, request_token_id(opt_view(id_header), opt_view(cookie)), opt_view(key_header)),
            r matches Ok(u) ==> Some(u.token_id@) == request_token_id(opt_view(id_header), opt_view(cookie))
                && Some(u.token_key@) == opt_view(key_header)
                && final(service).has_token(u.token_id@)
                && final(service).token(u.token_id@).alarm_at == Some(deadline(now, AUTH_SIGNIN_TOKEN_EXPIRES))
                && u.account == old(service).users.by_id(old(service).stored(u.token_id@).uid),
            !(request_token_id(opt_view(id_header), opt_view(cookie)) is Some && key_header is Some
                && old(service).token_accepts(request_token_id(opt_view(id_header), opt_view(cookie))->Some_0,
                    key_header->Some_0@, AuthTokenKind::Signin)) ==> final(service).tokens@ == old(service).tokens@,
            r matches Err(e) ==> (e.is_auth(AuthError::EmailNotVerified) <==> old(service).credentials_unverified(kind,
                request_token_id(opt_view(id_header), opt_view(cookie)), opt_view(key_header))),
    {
        let (token_id, token_key) = match extract_credentials(id_header, cookie, key_header) {
            Ok(c) => c,
            Err(e) => {
                return Err(e);
            },
        };
        let v = match service.validate_token(AuthTokenKind::Signin, token_id.as_str(), token_key.as_str(),
            AuthTokenAfterValidation::ExtendExpiresMs(AUTH_SIGNIN_TOKEN_EXPIRES), now) {
            Ok(v) => v,
            Err(e) => {
                return Err(e);
            },
        };
        let account = match UserAccount::load_by_id(&service.users, &v.uid) {
            Ok(a) => a,
            Err(e) => {
                return Err(e);
            },
        };
        match authorize(kind, v.user_token.as_str(), &account) {
            Ok(()) => {},
            Err(e) => {
                return Err(e);
            },
        }
        Ok(AuthUser { account, token_id, token_key })
    }

    /// Authenticates a request to `route`: routes that read no credentials pass with no user; the
    /// others need a valid sign-in token (whose expiry slides forward) and
    /// the checks of their kind. Refusals are `EmailNotVerified` or
    /// `NotAuthorized`.
    pub fn try_new(service: &mut ApiService, route: &Route, id_header: Option<&str>, cookie: Option<&str>, key_header: Option<&str>, now: u64)
        -> (r: ApiResult<Option<AuthUser>>)
        requires
            old(service).wf(),
        ensures
            final(service).wf(),
            final(service).users == old(service).users,
            final(service).sessions == old(service).sessions,
            final(service).outbox == old(service).outbox,
            !(request_token_id(opt_view(id_header), opt_view(cookie)) is Some && key_header is Some
                && old(service).token_accepts(request_token_id(opt_view(id_header), opt_view(cookie))->Some_0,
                    key_header->Some_0@, AuthTokenKind::Signin)) ==> final(service).tokens@ == old(service).tokens@,
            !route.auth_kind_spec().needs_credentials() ==> (r matches Ok(None)) && final(service).tokens == old(service).tokens,
            route.auth_kind_spec().needs_credentials() ==> (r is Ok <==> old(service).credentials_pass(route.auth_kind_spec(),
                request_token_id(opt_view(id_header), opt_view(cookie)), opt_view(key_header))),
            route.auth_kind_spec().needs_credentials() && r is Ok ==> r->Ok_0 is Some,
            r matches Ok(Some(u)) ==> u.account == old(service).users.by_id(old(service).stored(u.token_id@).uid)
                && Some(u.token_id@) == request_token_id(opt_view(id_header), opt_view(cookie))
                && Some(u.token_key@) == opt_view(key_header)
                && final(service).has_token(u.token_id@)
                && final(service).token(u.token_id@).alarm_at == Some(deadline(now, AUTH_SIGNIN_TOKEN_EXPIRES)),
            r matches Err(e) ==> e == ApiError::Auth(AuthError::EmailNotVerified) || e == ApiError::Auth(AuthError::NotAuthorized),
            r matches Err(e) ==> (e == ApiError::Auth(AuthError::EmailNotVerified) <==> old(service).credentials_unverified(route.auth_kind_spec(),
                request_token_id(opt_view(id_header), opt_view(cookie)), opt_view(key_header))),
    {
        let kind = route.auth_kind();
        match kind {
            RouteAuthKind::Public | RouteAuthKind::CookiesOnly => Ok(None),
            _ => match AuthUser::validate(service, kind, id_header, cookie, key_header, now) {
                Ok(u) => Ok(Some(u)),
                Err(e) => Err(flatten_access_error(e)),
            },
        }
    }

}

/// A password reset ends every earlier session: once the account's user
/// token differs from the one a sign-in token was issued under, that token
/// no longer authenticates on any route that checks the user token, and the
/// refusal is `NotAuthorized` (not `EmailNotVerified`).
pub proof fn lemma_reset_refuses_earlier_signins(
    s: ApiService,
    kind: RouteAuthKind,
    id: Seq<char>,
    key: Seq<char>,
    issued_under: Seq<char>,
)
    requires
        kind.needs_credentials(),
        !(kind is PartialAuthTokenOnly),
        s.token_accepts(id, key, AuthTokenKind::Signin),
        s.stored(id).user_token@ == issued_under,
        s.users.has_id(s.stored(id).uid),
        s.users.by_id(s.stored(id).uid).user_token@ != issued_under,
    ensures
        !s.credentials_pass(kind, Some(id), Some(key)),
        !s.credentials_unverified(kind, Some(id), Some(key)),
{
}

/// The text of the sign-in cookie for token `id`.
pub open spec fn signin_cookie(id: Seq<char>, same_site_strict: bool) -> Seq<char> {
    "X-EXAMPLE-TOKEN-ID="@ + id + "; Path=/; HttpOnly; Secure; SameSite="@
        + (if same_site_strict { "Strict"@ } else { "None"@ })
        + "; Partitioned; Expires=Tue, 19 Jan 2038 03:14:07 GMT"@
}

/// The sign-in cookie: the token id, for all paths, HTTP-only, secure and
/// partitioned, expiring far in the future; `SameSite=Strict`, or `None`
/// where frontend and API are on different sites.
pub fn set_signin_cookie(auth_token_id: &str, same_site_strict: bool) -> (r: String)
    ensures
        r@ == signin_cookie(auth_token_id@, same_site_strict),
{
    let mut s = "X-EXAMPLE-TOKEN-ID=".to_string();
    s.append(auth_token_id);
    s.append("; Path=/; HttpOnly; Secure; SameSite=");
    s.append(if same_site_strict { "Strict" } else { "None" });
    s.append("; Partitioned; Expires=Tue, 19 Jan 2038 03:14:07 GMT");
    s
}

/// The cookie that deletes the sign-in cookie: empty, expired in the past.
pub fn delete_signin_cookie() -> (r: String)
    ensures
        r@ == "X-EXAMPLE-TOKEN-ID=; path=/; expires=Thu, 01 Jan 1970 00:00:00 GMT"@,
{
    "X-EXAMPLE-TOKEN-ID=; path=/; expires=Thu, 01 Jan 1970 00:00:00 GMT".to_string()
}

} // verus!
