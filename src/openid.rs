//! OpenID Connect sign-in: the per-flow session object, the `state`
//! parameter that carries its id and key, and provider configuration.
use vstd::prelude::*;
use openidconnect::{AuthUrl, AuthenticationFlow, ClientId, CsrfToken, IssuerUrl, Nonce, RedirectUrl, Scope};
use crate::result::{ApiError, ApiResult};
use crate::route::{AuthRoute, OpenIdProvider, Route};
use crate::text::{lemma_first_index_unique, split, split_spec};
use crate::token::{deadline, new_token_key, is_token_key, MS_PER_HOUR};

verus! {

/// Sessions expire an hour after creation.
pub const AUTH_OPEN_ID_SESSION_EXPIRES: u64 = MS_PER_HOUR;

/// Separates id and key in the `state` parameter: neither URL-encoded nor
/// part of the URL-safe base64 alphabet.
pub const DELIMITER: char = '.';

/// The public handle of a session: its object id and secret key.
#[derive(Debug)]
pub struct OpenIdSession {
    pub id: String,
    pub key: String,
}

/// `id`, the delimiter, `key`.
pub open spec fn csrf_text(id: Seq<char>, key: Seq<char>) -> Seq<char> {
    id + seq![DELIMITER] + key
}

impl OpenIdSession {
    pub fn duplicate(&self) -> (r: OpenIdSession)
        ensures
            r == *self,
    {
        OpenIdSession { id: self.id.clone(), key: self.key.clone() }
    }

    /// The `state` parameter sent to the identity provider.
    pub fn to_csrf_token(&self) -> (r: String)
        ensures
            r@ == csrf_text(self.id@, self.key@),
    {
        let mut s = self.id.clone();
        proof { reveal_strlit("."); assert("."@ =~= seq![DELIMITER]); }
        s.append(".");
        s.append(self.key.as_str());
        s
    }

    /// Reads a `state` parameter: the pieces before the first and second
    /// delimiters are the id and the key.
    pub fn try_from_str(state: &str) -> (r: ApiResult<OpenIdSession>)
        ensures
            r is Ok <==> split_spec(state@, DELIMITER).len() >= 2,
            r matches Ok(s) ==> s.id@ == split_spec(state@, DELIMITER)[0]
                && s.key@ == split_spec(state@, DELIMITER)[1],
            r matches Err(e) ==> e is Unknown,
    {
        let parts = split(state, DELIMITER);
        assert(parts@.len() == split_spec(state@, DELIMITER).len());
        if parts.len() < 2 {
            return Err(ApiError::unknown("missing key"));
        }
        let id = parts[0].to_string();
        let key = parts[1].to_string();
        assert(parts@[0]@ == split_spec(state@, DELIMITER)[0]);
        assert(parts@[1]@ == split_spec(state@, DELIMITER)[1]);
        assert(id@ == parts@[0]@);
        Ok(OpenIdSession { id, key })
    }
}

/// Reading back the `state` of a session gives its id and key, when neither
/// holds the delimiter.
pub proof fn lemma_csrf_round_trip(id: Seq<char>, key: Seq<char>)
    requires
        !id.contains(DELIMITER),
        !key.contains(DELIMITER),
    ensures
        split_spec(csrf_text(id, key), DELIMITER).len() >= 2,
        split_spec(csrf_text(id, key), DELIMITER)[0] == id,
        split_spec(csrf_text(id, key), DELIMITER)[1] == key,
{
    let s = csrf_text(id, key);
    assert forall|k: int| 0 <= k < id.len() implies s[k] != DELIMITER by {
        assert(s[k] == id[k]);
        if id[k] == DELIMITER { assert(id.contains(DELIMITER)); }
    }
    lemma_first_index_unique(s, DELIMITER, id.len() as int);
    assert(s.subrange(0, id.len() as int) =~= id);
    assert(s.subrange(id.len() as int + 1, s.len() as int) =~= key);
    assert forall|k: int| 0 <= k < key.len() implies key[k] != DELIMITER by {
        if key[k] == DELIMITER { assert(key.contains(DELIMITER)); }
    }
    lemma_first_index_unique(key, DELIMITER, key.len() as int);
    assert(split_spec(key, DELIMITER) == seq![key]);
    let parts = split_spec(s, DELIMITER);
    assert(parts == seq![id].add(split_spec(key, DELIMITER)));
    assert(parts[0] == id);
    assert(parts[1] == key);
}

/// What a session answers when it is finalized.
#[derive(Debug)]
pub struct OpenIdSessionFinalizeInfo {
    pub provider: OpenIdProvider,
    pub access_token: String,
    pub email: String,
    pub email_verified: bool,
}

/// What a session answers for the token exchange: its provider and nonce.
#[derive(Debug)]
pub struct OpenIdSessionNonce {
    pub provider: OpenIdProvider,
    pub nonce: String,
}

/// The stages of a session's life.
#[derive(Clone, Copy, Debug, PartialEq, Eq, Structural)]
pub enum OpenIdSessionPhase {
    Empty,
    Created,
    NonceSet,
    TokenSet,
}

/// One session object: what it stores at each stage, and its alarm.
#[derive(Debug)]
pub struct OpenIdSessionDO {
    pub key: Option<String>,
    pub provider: Option<OpenIdProvider>,
    pub nonce: Option<String>,
    pub access_token: Option<String>,
    pub email: Option<String>,
    pub email_verified: Option<bool>,
    pub alarm_at: Option<u64>,
}

impl OpenIdSessionDO {
    /// The fields present agree with one stage of the life cycle.
    pub open spec fn wf(&self) -> bool {
        (self.key is Some <==> self.provider is Some)
        && (self.nonce is Some ==> self.key is Some)
        && (self.access_token is Some ==> self.nonce is Some)
        && (self.access_token is Some <==> self.email is Some)
        && (self.access_token is Some <==> self.email_verified is Some)
    }

    pub open spec fn phase(&self) -> OpenIdSessionPhase {
        if self.key is None {
            OpenIdSessionPhase::Empty
        } else if self.nonce is None {
            OpenIdSessionPhase::Created
        } else if self.access_token is None {
            OpenIdSessionPhase::NonceSet
        } else {
            OpenIdSessionPhase::TokenSet
        }
    }

    pub open spec fn empty() -> OpenIdSessionDO {
        OpenIdSessionDO {
            key: None,
            provider: None,
            nonce: None,
            access_token: None,
            email: None,
            email_verified: None,
            alarm_at: None,
        }
    }

    pub fn new() -> (r: OpenIdSessionDO)
        ensures
            r == OpenIdSessionDO::empty(),
            r.wf(),
    {
        OpenIdSessionDO {
            key: None,
            provider: None,
            nonce: None,
            access_token: None,
            email: None,
            email_verified: None,
            alarm_at: None,
        }
    }

    /// `key` is the session's key.
    pub open spec fn key_is(&self, key: Seq<char>) -> bool {
        self.key matches Some(k) && k@ == key
    }

    /// Starts a session for `provider` with the given key and arms the alarm.
    pub fn create_with_key(&mut self, provider: OpenIdProvider, now: u64, key: String) -> (r: ApiResult<()>)
        requires
            old(self).wf(),
        ensures
            final(self).wf(),
            r is Ok <==> old(self).phase() == OpenIdSessionPhase::Empty,
            r is Ok ==> *final(self) == (OpenIdSessionDO {
                key: Some(key),
                provider: Some(provider),
                alarm_at: Some(deadline(now, AUTH_OPEN_ID_SESSION_EXPIRES)),
                ..OpenIdSessionDO::empty()
            }),
            r is Err ==> *final(self) == *old(self),
            r matches Err(e) ==> e is Unknown,
    {
        if self.key.is_some() {
            return Err(ApiError::unknown("session object already in use"));
        }
        self.key = Some(key);
        self.provider = Some(provider);
        self.nonce = None;
        self.access_token = None;
        self.email = None;
        self.email_verified = None;
        self.alarm_at = Some(if AUTH_OPEN_ID_SESSION_EXPIRES > u64::MAX - now {
            u64::MAX
        } else {
            now + AUTH_OPEN_ID_SESSION_EXPIRES
        });
        Ok(())
    }

    /// A new session object for `provider` with a fresh key; returns it and the key.
    pub fn start(provider: OpenIdProvider, now: u64) -> (r: (OpenIdSessionDO, String))
        ensures
            r.0.wf(),
            is_token_key(r.1@),
            r.0 == (OpenIdSessionDO {
                key: Some(r.1),
                provider: Some(provider),
                alarm_at: Some(deadline(now, AUTH_OPEN_ID_SESSION_EXPIRES)),
                ..OpenIdSessionDO::empty()
            }),
    {
        let mut object = OpenIdSessionDO::new();
        let key = new_token_key();
        let r = object.create_with_key(provider, now, key.clone());
        assert(r is Ok);
        (object, key)
    }

    /// Starts a session for `provider` with a fresh key; returns the key.
    pub fn create(&mut self, provider: OpenIdProvider, now: u64) -> (r: ApiResult<String>)
        requires
            old(self).wf(),
        ensures
            final(self).wf(),
            r is Ok <==> old(self).phase() == OpenIdSessionPhase::Empty,
            r matches Ok(key) ==> is_token_key(key@) && *final(self) == (OpenIdSessionDO {
                key: Some(key),
                provider: Some(provider),
                alarm_at: Some(deadline(now, AUTH_OPEN_ID_SESSION_EXPIRES)),
                ..OpenIdSessionDO::empty()
            }),
            r is Err ==> *final(self) == *old(self),
            r matches Err(e) ==> e is Unknown,
    {
        let key = new_token_key();
        match self.create_with_key(provider, now, key.clone()) {
            Ok(()) => Ok(key),
            Err(e) => Err(e),
        }
    }

    /// Records the nonce of the authorization request; only once, after creation.
    pub fn set_nonce(&mut self, nonce: String) -> (r: ApiResult<()>)
        requires
            old(self).wf(),
        ensures
            final(self).wf(),
            r is Ok <==> old(self).phase() == OpenIdSessionPhase::Created,
            r is Ok ==> *final(self) == (OpenIdSessionDO { nonce: Some(nonce), ..*old(self) }),
            r is Err ==> *final(self) == *old(self),
            r matches Err(e) ==> e is Unknown,
    {
        if self.key.is_none() || self.nonce.is_some() {
            return Err(ApiError::unknown("session is not awaiting a nonce"));
        }
        self.nonce = Some(nonce);
        Ok(())
    }

    /// For the token exchange: checks the key and returns provider and nonce.
    pub fn get_nonce(&self, key: &str) -> (r: ApiResult<OpenIdSessionNonce>)
        requires
            self.wf(),
        ensures
            r is Ok <==> self.key_is(key@) && self.phase() == OpenIdSessionPhase::NonceSet,
            r matches Ok(n) ==> self.provider == Some(n.provider) && self.nonce == Some(n.nonce),
    {
        match (&self.key, &self.provider, &self.nonce) {
            (Some(k), Some(p), Some(n)) => {
                if !crate::text::str_eq(k.as_str(), key) {
                    return Err(ApiError::unknown("invalid key"));
                }
                if self.access_token.is_some() {
                    return Err(ApiError::unknown("session already holds a token"));
                }
                Ok(OpenIdSessionNonce { provider: *p, nonce: n.clone() })
            },
            _ => Err(ApiError::unknown("session has no nonce")),
        }
    }

    /// Records the outcome of the token exchange.
    pub fn set_access_token(&mut self, access_token: String, email: String, email_verified: bool) -> (r: ApiResult<()>)
        requires
            old(self).wf(),
        ensures
            final(self).wf(),
            r is Ok <==> old(self).phase() == OpenIdSessionPhase::NonceSet,
            r is Ok ==> *final(self) == (OpenIdSessionDO {
                access_token: Some(access_token),
                email: Some(email),
                email_verified: Some(email_verified),
                ..*old(self)
            }),
            r is Err ==> *final(self) == *old(self),
            r matches Err(e) ==> e is Unknown,
    {
        if self.nonce.is_none() || self.access_token.is_some() {
            return Err(ApiError::unknown("session is not awaiting a token"));
        }
        self.access_token = Some(access_token);
        self.email = Some(email);
        self.email_verified = Some(email_verified);
        Ok(())
    }

    /// Finalization is possible: the key matches and the token is set.
    pub open spec fn can_finalize(&self, key: Seq<char>) -> bool {
        self.key_is(key) && self.phase() == OpenIdSessionPhase::TokenSet
    }

    /// What finalization answers, for a session that can finalize.
    pub open spec fn info_matches(&self, info: OpenIdSessionFinalizeInfo) -> bool {
        self.provider == Some(info.provider) && self.access_token == Some(info.access_token)
            && self.email == Some(info.email) && self.email_verified == Some(info.email_verified)
    }

    fn load_finalize_info(&self, key: &str) -> (r: ApiResult<OpenIdSessionFinalizeInfo>)
        requires
            self.wf(),
        ensures
            r is Ok <==> self.can_finalize(key@),
            r matches Ok(i) ==> self.info_matches(i),
            r matches Err(e) ==> e is Unknown,
    {
        match (&self.key, &self.provider, &self.access_token, &self.email, &self.email_verified) {
            (Some(k), Some(p), Some(t), Some(e), Some(v)) => {
                if !crate::text::str_eq(k.as_str(), key) {
                    return Err(ApiError::unknown("invalid key"));
                }
                Ok(OpenIdSessionFinalizeInfo {
                    provider: *p,
                    access_token: t.clone(),
                    email: e.clone(),
                    email_verified: *v,
                })
            },
            _ => Err(ApiError::unknown("session is not ready")),
        }
    }

    /// The stored email (empty before the token is set).
    pub fn email_text(&self) -> (r: &str)
        ensures
            self.email matches Some(e) ==> r@ == e@,
    {
        match &self.email {
            Some(e) => e.as_str(),
            None => "",
        }
    }

    /// Reads the finalization data without consuming the session.
    pub fn finalize_query(&self, key: &str) -> (r: ApiResult<OpenIdSessionFinalizeInfo>)
        requires
            self.wf(),
        ensures
            r is Ok <==> self.can_finalize(key@),
            r matches Ok(i) ==> self.info_matches(i),
            r matches Err(e) ==> e is Unknown,
    {
        self.load_finalize_info(key)
    }

    /// Reads the finalization data, clears the alarm and erases the session.
    pub fn finalize_exec(&mut self, key: &str) -> (r: ApiResult<OpenIdSessionFinalizeInfo>)
        requires
            old(self).wf(),
        ensures
            final(self).wf(),
            r is Ok <==> old(self).can_finalize(key@),
            r matches Ok(i) ==> old(self).info_matches(i) && *final(self) == OpenIdSessionDO::empty(),
            r is Err ==> *final(self) == *old(self),
            r matches Err(e) ==> e is Unknown,
    {
        let info = self.load_finalize_info(key);
        if info.is_ok() {
            self.erase();
        }
        info
    }

    fn erase(&mut self)
        ensures
            *final(self) == OpenIdSessionDO::empty(),
    {
        self.key = None;
        self.provider = None;
        self.nonce = None;
        self.access_token = None;
        self.email = None;
        self.email_verified = None;
        self.alarm_at = None;
    }

    /// Whether the alarm is due at time `now`.
    pub fn alarm_due(&self, now: u64) -> (r: bool)
        ensures
            r == (self.alarm_at matches Some(t) && t <= now),
    {
        match self.alarm_at {
            Some(t) => t <= now,
            None => false,
        }
    }

    /// The alarm fired: the session is erased.
    pub fn alarm(&mut self)
        ensures
            *final(self) == OpenIdSessionDO::empty(),
            final(self).wf(),
    {
        self.erase();
    }
}

/// The operations a session object performs, one per invocation.
#[derive(Debug)]
pub enum OpenIdSessionAction {
    Create { provider: OpenIdProvider },
    SetNonce { nonce: String },
    GetTokenExchange { key: String },
    SetAccessToken { access_token: String, email: String, email_verified: bool },
    FinalizeExec { key: String },
    FinalizeQuery { key: String },
}

/// What a session object answers.
#[derive(Debug)]
pub enum OpenIdSessionReply {
    Created { key: String },
    Done,
    Nonce(OpenIdSessionNonce),
    Finalized(OpenIdSessionFinalizeInfo),
}

impl OpenIdSessionDO {
    /// Performs one action at time `now`; each succeeds only from the stage
    /// the life cycle gives it.
    pub fn fetch(&mut self, action: OpenIdSessionAction, now: u64) -> (r: ApiResult<OpenIdSessionReply>)
        requires
            old(self).wf(),
        ensures
            final(self).wf(),
            r is Err ==> *final(self) == *old(self),
            match action {
                OpenIdSessionAction::Create { provider } =>
                    (r is Ok <==> old(self).phase() == OpenIdSessionPhase::Empty)
                    && (r matches Ok(OpenIdSessionReply::Created { key }) ==> is_token_key(key@)
                        && final(self).key_is(key@) && final(self).provider == Some(provider)
                        && final(self).phase() == OpenIdSessionPhase::Created
                        && final(self).alarm_at == Some(deadline(now, AUTH_OPEN_ID_SESSION_EXPIRES)))
                    && (r is Ok ==> r->Ok_0 is Created),
                OpenIdSessionAction::SetNonce { nonce } =>
                    (r is Ok <==> old(self).phase() == OpenIdSessionPhase::Created)
                    && (r is Ok ==> *final(self) == (OpenIdSessionDO { nonce: Some(nonce), ..*old(self) })),
                OpenIdSessionAction::GetTokenExchange { key } =>
                    (r is Ok <==> old(self).key_is(key@) && old(self).phase() == OpenIdSessionPhase::NonceSet)
                    && *final(self) == *old(self)
                    && (r matches Ok(OpenIdSessionReply::Nonce(n)) ==> old(self).provider == Some(n.provider)
                        && old(self).nonce == Some(n.nonce))
                    && (r is Ok ==> r->Ok_0 is Nonce),
                OpenIdSessionAction::SetAccessToken { access_token, email, email_verified } =>
                    (r is Ok <==> old(self).phase() == OpenIdSessionPhase::NonceSet)
                    && (r is Ok ==> final(self).access_token == Some(access_token) && final(self).email == Some(email)
                        && final(self).email_verified == Some(email_verified)
                        && final(self).phase() == OpenIdSessionPhase::TokenSet),
                OpenIdSessionAction::FinalizeExec { key } =>
                    (r is Ok <==> old(self).can_finalize(key@))
                    && (r matches Ok(OpenIdSessionReply::Finalized(i)) ==> old(self).info_matches(i)
                        && *final(self) == OpenIdSessionDO::empty())
                    && (r is Ok ==> r->Ok_0 is Finalized),
                OpenIdSessionAction::FinalizeQuery { key } =>
                    (r is Ok <==> old(self).can_finalize(key@))
                    && *final(self) == *old(self)
                    && (r matches Ok(OpenIdSessionReply::Finalized(i)) ==> old(self).info_matches(i))
                    && (r is Ok ==> r->Ok_0 is Finalized),
            },
    {
        match action {
            OpenIdSessionAction::Create { provider } => match self.create(provider, now) {
                Ok(key) => Ok(OpenIdSessionReply::Created { key }),
                Err(e) => Err(e),
            },
            OpenIdSessionAction::SetNonce { nonce } => match self.set_nonce(nonce) {
                Ok(()) => Ok(OpenIdSessionReply::Done),
                Err(e) => Err(e),
            },
            OpenIdSessionAction::GetTokenExchange { key } => match self.get_nonce(key.as_str()) {
                Ok(n) => Ok(OpenIdSessionReply::Nonce(n)),
                Err(e) => Err(e),
            },
            OpenIdSessionAction::SetAccessToken { access_token, email, email_verified } =>
                match self.set_access_token(access_token, email, email_verified) {
                    Ok(()) => Ok(OpenIdSessionReply::Done),
                    Err(e) => Err(e),
                },
            OpenIdSessionAction::FinalizeExec { key } => match self.finalize_exec(key.as_str()) {
                Ok(i) => Ok(OpenIdSessionReply::Finalized(i)),
                Err(e) => Err(e),
            },
            OpenIdSessionAction::FinalizeQuery { key } => match self.finalize_query(key.as_str()) {
                Ok(i) => Ok(OpenIdSessionReply::Finalized(i)),
                Err(e) => Err(e),
            },
        }
    }
}

/// Finalizing consumes a session: once `FinalizeExec` has succeeded, the
/// erased session can be finalized by no key, neither by query nor by exec.
pub proof fn lemma_finalize_exec_once(s: OpenIdSessionDO, key: Seq<char>, later_key: Seq<char>)
    requires
        s.can_finalize(key),
    ensures
        !OpenIdSessionDO::empty().can_finalize(later_key),
{
}

/// `FinalizeQuery` leaves the session as it was, so repeating it gives the
/// same answer until `FinalizeExec` consumes the session.
pub proof fn lemma_finalize_query_idempotent(
    s: OpenIdSessionDO,
    key: Seq<char>,
    a: OpenIdSessionFinalizeInfo,
    b: OpenIdSessionFinalizeInfo,
)
    requires
        s.can_finalize(key),
        s.info_matches(a),
        s.info_matches(b),
    ensures
        a == b,
{
}

/// What openidconnect's authorization request gives as its URL.
pub uninterp spec fn authorize_url_of(
    endpoint: Seq<char>,
    client_id: Seq<char>,
    redirect_uri: Seq<char>,
    state: Seq<char>,
    nonce: Seq<char>,
    scope: Seq<char>,
) -> Seq<char>;

/// Whether `url::Url::parse` accepts the text.
pub uninterp spec fn url_parses(s: Seq<char>) -> bool;

/// Relies on openidconnect's `CoreClient::authorize_url(..).add_scope(..).url()`
/// for the authorization code flow: the URL. `IssuerUrl::new`, `AuthUrl::new`
/// and `RedirectUrl::new` each parse their text with `Url::parse`, and are
/// the only steps that can fail.
#[verifier::external_body]
pub(crate) fn authorization_url(endpoint: &str, client_id: &str, redirect_uri: &str, state: &str, nonce: &str, scope: &str) -> (r: Option<String>)
    ensures
        r is Some <==> (url_parses(endpoint@) && url_parses(redirect_uri@)),
        r matches Some(u) ==> u@ == authorize_url_of(endpoint@, client_id@, redirect_uri@, state@, nonce@, scope@),
{
    let c = openidconnect::core::CoreClient::new(ClientId::new(client_id.to_string()), None, IssuerUrl::new(endpoint.to_string()).ok()?,
        AuthUrl::new(endpoint.to_string()).ok()?, None, None, openidconnect::core::CoreJsonWebKeySet::new(Vec::new()))
        .set_redirect_uri(RedirectUrl::new(redirect_uri.to_string()).ok()?);
    let (s, n) = (CsrfToken::new(state.to_string()), Nonce::new(nonce.to_string()));
    let request = c.authorize_url(AuthenticationFlow::<openidconnect::core::CoreResponseType>::AuthorizationCode, move || s, move || n);
    Some(request.add_scope(Scope::new(scope.to_string())).url().0.to_string())
}

/// Relies on openidconnect's `CoreIdTokenVerifier::new_public_client` and
/// `CoreIdToken::claims`, with the key set read by serde_json: the token's
/// signature, audience, issuer, expiry (against the current time) and nonce
/// are checked, and its email and email-verified claims returned. Whether it
/// passes depends on the clock, so nothing is promised of the outcome.
#[verifier::external_body]
pub(crate) fn verified_email_claims(id_token: &str, jwks_json: &str, client_id: &str, issuer: &str, nonce: &str) -> (r: Option<(Option<String>, Option<bool>)>) {
    let keys: openidconnect::core::CoreJsonWebKeySet = serde_json::from_str(jwks_json).ok()?;
    let token: openidconnect::core::CoreIdToken = id_token.parse().ok()?;
    let verifier = openidconnect::core::CoreIdTokenVerifier::new_public_client(ClientId::new(client_id.to_string()),
        IssuerUrl::new(issuer.to_string()).ok()?, keys);
    let claims = token.claims(&verifier, &Nonce::new(nonce.to_string())).ok()?;
    let email = match claims.email() {
        Some(e) => Some(e.to_string()),
        None => None,
    };
    Some((email, claims.email_verified()))
}

/// Relies on openidconnect's `Nonce::new_random`: a fresh random nonce.
#[verifier::external_body]
pub(crate) fn new_nonce() -> (r: String) {
    openidconnect::Nonce::new_random().secret().to_string()
}

/// Provider-specific settings of the authorization code flow.
#[derive(Clone, Copy, Debug, PartialEq, Eq, Structural)]
pub struct OpenIdProcessor {
    pub provider: OpenIdProvider,
}

impl OpenIdProcessor {
    pub fn new(provider: OpenIdProvider) -> (r: OpenIdProcessor)
        ensures
            r.provider == provider,
    {
        OpenIdProcessor { provider }
    }

    pub open spec fn issuer_spec(self) -> Seq<char> {
        match self.provider {
            OpenIdProvider::Google => "https://accounts.google.com"@,
            OpenIdProvider::Facebook => "https://www.facebook.com"@,
        }
    }

    /// Where the provider's discovery document is fetched.
    pub fn issuer_url(&self) -> (r: &'static str)
        ensures
            r@ == self.issuer_spec(),
    {
        match self.provider {
            OpenIdProvider::Google => "https://accounts.google.com",
            OpenIdProvider::Facebook => "https://www.facebook.com",
        }
    }

    pub open spec fn token_endpoint_spec(self) -> Seq<char> {
        match self.provider {
            OpenIdProvider::Google => "https://oauth2.googleapis.com/token"@,
            OpenIdProvider::Facebook => "https://graph.facebook.com/oauth/access_token"@,
        }
    }

    /// The token endpoint: the discovered one, else the provider's known one.
    pub fn token_endpoint(&self, discovered: Option<String>) -> (r: String)
        ensures
            discovered matches Some(d) ==> r == d,
            discovered is None ==> r@ == self.token_endpoint_spec(),
    {
        match discovered {
            Some(d) => d,
            None => match self.provider {
                OpenIdProvider::Google => "https://oauth2.googleapis.com/token".to_string(),
                OpenIdProvider::Facebook => "https://graph.facebook.com/oauth/access_token".to_string(),
            },
        }
    }

    /// The client authentication methods: the discovered ones, else `client_secret_post`.
    pub fn token_endpoint_auth_methods(&self, discovered: Option<Vec<String>>) -> (r: Vec<String>)
        ensures
            discovered matches Some(d) ==> r == d,
            discovered is None ==> r@.len() == 1 && r@[0]@ == "client_secret_post"@,
    {
        match discovered {
            Some(d) => d,
            None => {
                let mut v: Vec<String> = Vec::new();
                v.push("client_secret_post".to_string());
                v
            },
        }
    }

    pub open spec fn client_id_name_spec(self) -> Seq<char> {
        match self.provider {
            OpenIdProvider::Google => "OAUTH_GOOGLE_CLIENT_ID"@,
            OpenIdProvider::Facebook => "OAUTH_FACEBOOK_CLIENT_ID"@,
        }
    }

    /// The configuration entry that holds the client id.
    pub fn client_id_name(&self) -> (r: &'static str)
        ensures
            r@ == self.client_id_name_spec(),
    {
        match self.provider {
            OpenIdProvider::Google => "OAUTH_GOOGLE_CLIENT_ID",
            OpenIdProvider::Facebook => "OAUTH_FACEBOOK_CLIENT_ID",
        }
    }

    pub open spec fn client_secret_name_spec(self) -> Seq<char> {
        match self.provider {
            OpenIdProvider::Google => "OAUTH_GOOGLE_CLIENT_SECRET"@,
            OpenIdProvider::Facebook => "OAUTH_FACEBOOK_CLIENT_SECRET"@,
        }
    }

    /// The configuration entry that holds the client secret.
    pub fn client_secret_name(&self) -> (r: &'static str)
        ensures
            r@ == self.client_secret_name_spec(),
    {
        match self.provider {
            OpenIdProvider::Google => "OAUTH_GOOGLE_CLIENT_SECRET",
            OpenIdProvider::Facebook => "OAUTH_FACEBOOK_CLIENT_SECRET",
        }
    }

    /// The callback URL registered with the provider: the access-token hook
    /// route under the API's domain and root path.
    pub fn redirect_uri(&self, api_domain: &str, api_root_path: &str) -> (r: String)
        ensures
            r@ == Route::Auth(AuthRoute::OpenIdAccessTokenHook(self.provider)).link_spec(api_domain@, api_root_path@),
    {
        Route::Auth(AuthRoute::OpenIdAccessTokenHook(self.provider)).link(api_domain, api_root_path)
    }

    /// What the callback keeps of the ID token's claims: the email, which is
    /// required, and whether it is verified, `false` when the claim is absent.
    pub fn claims_outcome(email: Option<String>, email_verified: Option<bool>) -> (r: ApiResult<(String, bool)>)
        ensures
            r is Ok <==> email is Some,
            r matches Ok((e, v)) ==> Some(e) == email && v == (email_verified == Some(true)),
            r matches Err(e) ==> e is Unknown,
    {
        match email {
            Some(e) => {
                let v = match email_verified {
                    Some(b) => b,
                    None => false,
                };
                Ok((e, v))
            },
            None => Err(ApiError::unknown("no email in claims")),
        }
    }
}

} // verus!
