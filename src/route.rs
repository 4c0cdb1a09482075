//! The API's route table: URL parsing, link building and each route's
//! declared authentication requirement.
use vstd::prelude::*;
use crate::text::{split, split_spec, str_eq, find_char, first_index_of, lemma_first_index_bounds};

verus! {

/// HTTP methods used by the API.
#[derive(Clone, Copy, Debug, PartialEq, Eq, Structural)]
pub enum Method {
    Get,
    Post,
    Put,
    Delete,
}

impl Method {
    pub open spec fn name(self) -> Seq<char> {
        match self {
            Method::Get => "GET"@,
            Method::Post => "POST"@,
            Method::Put => "PUT"@,
            Method::Delete => "DELETE"@,
        }
    }

    pub fn as_str(&self) -> (r: &'static str)
        ensures
            r@ == self.name(),
    {
        match self {
            Method::Get => "GET",
            Method::Post => "POST",
            Method::Put => "PUT",
            Method::Delete => "DELETE",
        }
    }
}

/// The identity providers that OpenID Connect sign-in accepts.
#[derive(Clone, Copy, Debug, PartialEq, Eq, Structural)]
pub enum OpenIdProvider {
    Google,
    Facebook,
}

impl OpenIdProvider {
    pub open spec fn name(self) -> Seq<char> {
        match self {
            OpenIdProvider::Google => "google"@,
            OpenIdProvider::Facebook => "facebook"@,
        }
    }

    pub fn as_str(&self) -> (r: &'static str)
        ensures
            r@ == self.name(),
    {
        match self {
            OpenIdProvider::Google => "google",
            OpenIdProvider::Facebook => "facebook",
        }
    }

    /// The provider whose name is `s`, if any.
    pub fn try_from_str(s: &str) -> (r: Option<OpenIdProvider>)
        ensures
            r matches Some(p) ==> p.name() == s@,
            r is None ==> forall|p: OpenIdProvider| p.name() != s@,
    {
        if str_eq(s, "google") {
            Some(OpenIdProvider::Google)
        } else if str_eq(s, "facebook") {
            Some(OpenIdProvider::Facebook)
        } else {
            proof {
                assert forall|p: OpenIdProvider| p.name() != s@ by {
                    match p {
                        OpenIdProvider::Google => {},
                        OpenIdProvider::Facebook => {},
                    }
                }
            }
            None
        }
    }
}

/// How a route authenticates its caller.
#[derive(Clone, Copy, Debug, PartialEq, Eq, Structural)]
pub enum RouteAuthKind {
    /// Signin token, user token and verified email are all required.
    Full,
    /// No credentials are checked, but the response may set the cookie.
    CookiesOnly,
    /// The signin token must validate; nothing else is checked.
    PartialAuthTokenOnly,
    /// The signin token and the user token must validate; the email may be unverified.
    PartialAuthAndUserTokenOnly,
    /// Public access.
    Public,
}

impl RouteAuthKind {
    /// Whether the route reads and validates credentials.
    pub open spec fn needs_credentials(self) -> bool {
        !(self is Public || self is CookiesOnly)
    }
}

/// The endpoints under `auth/`.
#[derive(Clone, Copy, Debug, PartialEq, Eq, Structural)]
pub enum AuthRoute {
    Register,
    Signin,
    Check,
    Signout,
    SendEmailValidation,
    ConfirmEmailValidation,
    SendPasswordResetAny,
    SendPasswordResetMe,
    ConfirmPasswordReset,
    CheckPasswordReset,
    OpenIdConnect,
    OpenIdAccessTokenHook(OpenIdProvider),
    OpenIdFinalizeExec,
    OpenIdFinalizeQuery,
}

/// A route of the API.
#[derive(Clone, Copy, Debug, PartialEq, Eq, Structural)]
pub enum Route {
    Auth(AuthRoute),
}

impl AuthRoute {
    /// The path segments that name the route, after `auth/`.
    pub open spec fn segments(self) -> Seq<Seq<char>> {
        match self {
            AuthRoute::Register => seq!["register"@],
            AuthRoute::Signin => seq!["signin"@],
            AuthRoute::Check => seq!["check"@],
            AuthRoute::Signout => seq!["signout"@],
            AuthRoute::SendEmailValidation => seq!["send-email-validation"@],
            AuthRoute::ConfirmEmailValidation => seq!["confirm-email-validation"@],
            AuthRoute::SendPasswordResetAny => seq!["send-password-reset-any"@],
            AuthRoute::SendPasswordResetMe => seq!["send-password-reset-me"@],
            AuthRoute::ConfirmPasswordReset => seq!["confirm-password-reset"@],
            AuthRoute::CheckPasswordReset => seq!["check-password-reset"@],
            AuthRoute::OpenIdConnect => seq!["openid-connect"@],
            AuthRoute::OpenIdAccessTokenHook(p) => seq!["openid-access-token-hook"@, p.name()],
            AuthRoute::OpenIdFinalizeExec => seq!["openid-finalize-exec"@],
            AuthRoute::OpenIdFinalizeQuery => seq!["openid-finalize-query"@],
        }
    }

    /// The route's path: its segments joined by `/`.
    pub open spec fn path(self) -> Seq<char> {
        match self {
            AuthRoute::OpenIdAccessTokenHook(p) => "openid-access-token-hook/"@ + p.name(),
            _ => self.segments()[0],
        }
    }

    fn single_name(s: &str) -> (r: Option<AuthRoute>)
        ensures
            r matches Some(x) ==> x.segments() == seq![s@],
            r is None ==> forall|x: AuthRoute| x.segments().len() != 1 || x.segments()[0] != s@,
    {
        let r = if str_eq(s, "register") {
            Some(AuthRoute::Register)
        } else if str_eq(s, "signin") {
            Some(AuthRoute::Signin)
        } else if str_eq(s, "signout") {
            Some(AuthRoute::Signout)
        } else if str_eq(s, "check") {
            Some(AuthRoute::Check)
        } else if str_eq(s, "send-email-validation") {
            Some(AuthRoute::SendEmailValidation)
        } else if str_eq(s, "confirm-email-validation") {
            Some(AuthRoute::ConfirmEmailValidation)
        } else if str_eq(s, "send-password-reset-any") {
            Some(AuthRoute::SendPasswordResetAny)
        } else if str_eq(s, "send-password-reset-me") {
            Some(AuthRoute::SendPasswordResetMe)
        } else if str_eq(s, "confirm-password-reset") {
            Some(AuthRoute::ConfirmPasswordReset)
        } else if str_eq(s, "check-password-reset") {
            Some(AuthRoute::CheckPasswordReset)
        } else if str_eq(s, "openid-connect") {
            Some(AuthRoute::OpenIdConnect)
        } else if str_eq(s, "openid-finalize-exec") {
            Some(AuthRoute::OpenIdFinalizeExec)
        } else if str_eq(s, "openid-finalize-query") {
            Some(AuthRoute::OpenIdFinalizeQuery)
        } else {
            None
        };
        proof {
            if let Some(x) = r {
                assert(x.segments() =~= seq![s@]);
            }
        }
        r
    }

    /// The route named by `paths`, the segments after `auth/`.
    pub fn try_from_paths(paths: &[&str]) -> (r: Option<AuthRoute>)
        ensures
            r matches Some(x) ==> x.segments() == paths@.map_values(|p: &str| p@),
            r is None ==> forall|x: AuthRoute| x.segments() != paths@.map_values(|p: &str| p@),
    {
        let ghost pv = paths@.map_values(|p: &str| p@);
        if paths.len() == 1 {
            let r = AuthRoute::single_name(paths[0]);
            proof {
                if let Some(x) = r {
                    assert(x.segments() =~= pv);
                } else {
                    assert forall|x: AuthRoute| x.segments() != pv by {
                        if x.segments() == pv {
                            assert(x.segments()[0] == pv[0]);
                        }
                    }
                }
            }
            r
        } else if paths.len() == 2 && str_eq(paths[0], "openid-access-token-hook") {
            match OpenIdProvider::try_from_str(paths[1]) {
                Some(p) => {
                    proof { assert(AuthRoute::OpenIdAccessTokenHook(p).segments() =~= pv); }
                    Some(AuthRoute::OpenIdAccessTokenHook(p))
                },
                None => {
                    proof {
                        assert forall|x: AuthRoute| x.segments() != pv by {
                            assert(pv.len() == 2 && pv[1] == paths@[1]@);
                            if x.segments() == pv {
                                assert(x.segments()[1] == pv[1]);
                            }
                        }
                    }
                    None
                },
            }
        } else {
            proof {
                assert(pv.len() == paths@.len());
                assert forall|x: AuthRoute| x.segments() != pv by {
                    if pv.len() > 0 {
                        assert(pv[0] == paths@[0]@);
                    }
                    if x.segments() == pv {
                        assert(x.segments()[0] == pv[0]);
                    }
                }
            }
            None
        }
    }

    /// The route's path, as it stands in a URL.
    pub fn to_string(&self) -> (r: String)
        ensures
            r@ == self.path(),
    {
        match self {
            AuthRoute::Register => "register".to_string(),
            AuthRoute::Signin => "signin".to_string(),
            AuthRoute::Signout => "signout".to_string(),
            AuthRoute::Check => "check".to_string(),
            AuthRoute::SendEmailValidation => "send-email-validation".to_string(),
            AuthRoute::ConfirmEmailValidation => "confirm-email-validation".to_string(),
            AuthRoute::SendPasswordResetAny => "send-password-reset-any".to_string(),
            AuthRoute::SendPasswordResetMe => "send-password-reset-me".to_string(),
            AuthRoute::ConfirmPasswordReset => "confirm-password-reset".to_string(),
            AuthRoute::CheckPasswordReset => "check-password-reset".to_string(),
            AuthRoute::OpenIdConnect => "openid-connect".to_string(),
            AuthRoute::OpenIdAccessTokenHook(p) => {
                let s = "openid-access-token-hook/".to_string();
                s.concat(p.as_str())
            },
            AuthRoute::OpenIdFinalizeExec => "openid-finalize-exec".to_string(),
            AuthRoute::OpenIdFinalizeQuery => "openid-finalize-query".to_string(),
        }
    }
}

/// Occurrences of `c` in `s`.
pub open spec fn count_char(s: Seq<char>, c: char) -> nat
    decreases s.len(),
{
    if s.len() == 0 {
        0
    } else {
        (if s.last() == c { 1nat } else { 0nat }) + count_char(s.drop_last(), c)
    }
}

fn count_chars(s: &str, c: char) -> (r: usize)
    ensures
        r == count_char(s@, c),
{
    let n = s.unicode_len();
    let mut i: usize = 0;
    let mut k: usize = 0;
    while i < n
        invariant
            n == s@.len(),
            0 <= i <= n,
            k == count_char(s@.subrange(0, i as int), c),
            k <= i,
        decreases n - i,
    {
        proof {
            let t = s@.subrange(0, i + 1);
            assert(t.drop_last() =~= s@.subrange(0, i as int));
        }
        if s.get_char(i) == c {
            k = k + 1;
        }
        i = i + 1;
    }
    assert(s@.subrange(0, n as int) =~= s@);
    k
}

/// Occurrences of `/` in `s`.
pub fn count_slashes(s: &str) -> (r: usize)
    ensures
        r == count_char(s@, '/'),
{
    count_chars(s, '/')
}

/// The path of a URL: after the scheme and authority, before any query or fragment.
pub open spec fn url_path(url: Seq<char>) -> Seq<char> {
    let c = first_index_of(url, ':');
    let rest = if c + 2 < url.len() && url[c + 1] == '/' && url[c + 2] == '/' {
        url.subrange(c + 3, url.len() as int)
    } else {
        url
    };
    let from_slash = rest.subrange(first_index_of(rest, '/'), rest.len() as int);
    let q = first_index_of(from_slash, '?');
    let h = first_index_of(from_slash, '#');
    from_slash.subrange(0, if q < h { q } else { h })
}

/// The path of `url`, as `url_path` describes it.
pub fn path_of_url<'a>(url: &'a str) -> (r: &'a str)
    ensures
        r@ == url_path(url@),
{
    proof { lemma_first_index_bounds(url@, ':'); }
    let n = url.unicode_len();
    let c = find_char(url, ':');
    let rest = if c < n && n - c > 2 && url.get_char(c + 1) == '/' && url.get_char(c + 2) == '/' {
        url.substring_char(c + 3, n)
    } else {
        url
    };
    proof { lemma_first_index_bounds(rest@, '/'); }
    let m = rest.unicode_len();
    let slash = find_char(rest, '/');
    let from_slash = rest.substring_char(slash, m);
    proof {
        lemma_first_index_bounds(from_slash@, '?');
        lemma_first_index_bounds(from_slash@, '#');
    }
    let q = find_char(from_slash, '?');
    let h = find_char(from_slash, '#');
    from_slash.substring_char(0, if q < h { q } else { h })
}

/// The segments of `url`'s path that follow the root path.
pub open spec fn route_segments(url: Seq<char>, root_path: Seq<char>) -> Seq<Seq<char>> {
    let segs = split_spec(url_path(url), '/');
    let skip = count_char(root_path, '/') + 1;
    if skip <= segs.len() {
        segs.subrange(skip as int, segs.len() as int)
    } else {
        seq![]
    }
}

impl Route {
    pub open spec fn path(self) -> Seq<char> {
        match self {
            Route::Auth(a) => "auth/"@ + a.path(),
        }
    }

    pub open spec fn segments(self) -> Seq<Seq<char>> {
        match self {
            Route::Auth(a) => seq!["auth"@] + a.segments(),
        }
    }

    /// The route's path, as it stands in a URL.
    pub fn to_string(&self) -> (r: String)
        ensures
            r@ == self.path(),
    {
        match self {
            Route::Auth(a) => {
                let s = "auth/".to_string();
                let p = a.to_string();
                s.concat(p.as_str())
            },
        }
    }

    pub open spec fn link_spec(self, domain: Seq<char>, root_path: Seq<char>) -> Seq<char> {
        if root_path.len() == 0 {
            domain + "/"@ + self.path()
        } else {
            domain + "/"@ + root_path + "/"@ + self.path()
        }
    }

    /// The absolute URL of the route under `domain` and `root_path`.
    pub fn link(&self, domain: &str, root_path: &str) -> (r: String)
        ensures
            r@ == self.link_spec(domain@, root_path@),
    {
        let mut s = domain.to_string();
        s.append("/");
        if root_path.unicode_len() != 0 {
            s.append(root_path);
            s.append("/");
        }
        let p = self.to_string();
        s.append(p.as_str());
        s
    }

    /// The authentication that the route declares.
    pub open spec fn auth_kind_spec(self) -> RouteAuthKind {
        match self {
            Route::Auth(a) => match a {
                AuthRoute::Register => RouteAuthKind::CookiesOnly,
                AuthRoute::Signin => RouteAuthKind::CookiesOnly,
                AuthRoute::Signout => RouteAuthKind::PartialAuthTokenOnly,
                AuthRoute::SendEmailValidation => RouteAuthKind::PartialAuthAndUserTokenOnly,
                AuthRoute::SendPasswordResetAny => RouteAuthKind::Public,
                AuthRoute::SendPasswordResetMe => RouteAuthKind::Full,
                AuthRoute::ConfirmEmailValidation => RouteAuthKind::Public,
                AuthRoute::ConfirmPasswordReset => RouteAuthKind::CookiesOnly,
                AuthRoute::CheckPasswordReset => RouteAuthKind::Public,
                AuthRoute::Check => RouteAuthKind::Full,
                AuthRoute::OpenIdConnect => RouteAuthKind::Public,
                AuthRoute::OpenIdAccessTokenHook(_) => RouteAuthKind::Public,
                AuthRoute::OpenIdFinalizeExec => RouteAuthKind::CookiesOnly,
                AuthRoute::OpenIdFinalizeQuery => RouteAuthKind::Public,
            },
        }
    }

    pub fn auth_kind(&self) -> (r: RouteAuthKind)
        ensures
            r == self.auth_kind_spec(),
    {
        match self {
            Route::Auth(a) => match a {
                AuthRoute::Register => RouteAuthKind::CookiesOnly,
                AuthRoute::Signin => RouteAuthKind::CookiesOnly,
                AuthRoute::Signout => RouteAuthKind::PartialAuthTokenOnly,
                AuthRoute::SendEmailValidation => RouteAuthKind::PartialAuthAndUserTokenOnly,
                AuthRoute::SendPasswordResetAny => RouteAuthKind::Public,
                AuthRoute::SendPasswordResetMe => RouteAuthKind::Full,
                AuthRoute::ConfirmEmailValidation => RouteAuthKind::Public,
                AuthRoute::ConfirmPasswordReset => RouteAuthKind::CookiesOnly,
                AuthRoute::CheckPasswordReset => RouteAuthKind::Public,
                AuthRoute::Check => RouteAuthKind::Full,
                AuthRoute::OpenIdConnect => RouteAuthKind::Public,
                AuthRoute::OpenIdAccessTokenHook(_) => RouteAuthKind::Public,
                AuthRoute::OpenIdFinalizeExec => RouteAuthKind::CookiesOnly,
                AuthRoute::OpenIdFinalizeQuery => RouteAuthKind::Public,
            },
        }
    }

    /// The route that `url` names under `root_path`, if any: its path segments
    /// after the root are `auth` followed by an endpoint's segments.
    pub fn try_from_url(url: &str, root_path: &str) -> (r: Option<Route>)
        ensures
            r matches Some(x) ==> x.segments() == route_segments(url@, root_path@),
            r is None ==> forall|x: Route| x.segments() != route_segments(url@, root_path@),
    {
        let path = path_of_url(url);
        let segs = split(path, '/');
        let skip = count_slashes(root_path);
        let ghost rs = route_segments(url@, root_path@);
        if skip >= segs.len() {
            proof {
                assert forall|x: Route| x.segments() != rs by {
                    assert(x.segments().len() >= 1);
                }
            }
            return None;
        }
        let skip = skip + 1;
        let mut rest: Vec<&str> = Vec::new();
        let mut i: usize = skip;
        while i < segs.len()
            invariant
                skip <= i <= segs@.len(),
                segs@.len() == split_spec(url_path(url@), '/').len(),
                forall|k: int| 0 <= k < segs@.len() ==> #[trigger] segs@[k]@ == split_spec(url_path(url@), '/')[k],
                skip == count_char(root_path@, '/') + 1,
                rest@.len() == i - skip,
                forall|k: int| 0 <= k < rest@.len() ==> #[trigger] rest@[k]@ == rs[k],
                rs == split_spec(url_path(url@), '/').subrange(skip as int, segs@.len() as int),
            decreases segs@.len() - i,
        {
            rest.push(segs[i]);
            i = i + 1;
        }
        let ghost rv = rest@.map_values(|p: &str| p@);
        assert(rv =~= rs);
        if rest.len() >= 1 && str_eq(rest[0], "auth") {
            let tail = rest.split_at(1).1;
            let ghost tv = tail@.map_values(|p: &str| p@);
            assert(tv =~= rs.subrange(1, rs.len() as int));
            match AuthRoute::try_from_paths(tail) {
                Some(a) => {
                    assert(Route::Auth(a).segments() =~= rs);
                    Some(Route::Auth(a))
                },
                None => {
                    proof {
                        assert forall|x: Route| x.segments() != rs by {
                            let Route::Auth(a) = x;
                            if x.segments() == rs {
                                assert(a.segments() =~= rs.subrange(1, rs.len() as int));
                            }
                        }
                    }
                    None
                },
            }
        } else {
            proof {
                assert forall|x: Route| x.segments() != rs by {
                    if x.segments() == rs {
                        assert(x.segments()[0] == rs[0]);
                    }
                }
            }
            None
        }
    }
}

} // verus!
