//! The frontend's URL shapes: the pages that mails and redirects link to.
use vstd::prelude::*;
use crate::text::{split, str_eq};
use crate::route::{path_of_url, route_segments};

verus! {

#[derive(Clone, Copy, Debug, PartialEq, Eq, Structural)]
pub enum Dashboard {
    Browse,
}

#[derive(Clone, Copy, Debug, PartialEq, Eq, Structural)]
pub enum NotFoundReason {
    NoAuth,
    BadUrl,
    NoOobCode,
}

/// The sign-in related pages; the confirmation pages carry an object's id and key.
#[derive(Clone, Debug)]
pub enum AuthRoute {
    Signin,
    Register,
    VerifyEmailWaiting,
    VerifyEmailConfirm { oob_token_id: String, oob_token_key: String },
    PasswordResetConfirm { oob_token_id: String, oob_token_key: String },
    OpenIdFinalize { session_id: String, session_key: String },
}

#[derive(Clone, Debug)]
pub enum Landing {
    Welcome,
    Auth(AuthRoute),
}

/// A page of the frontend.
#[derive(Clone, Debug)]
pub enum Route {
    Landing(Landing),
    Dashboard(Dashboard),
    NotFound(NotFoundReason),
}

/// `a`, `/`, `b`, `/`, `c`.
pub open spec fn three(a: Seq<char>, b: Seq<char>, c: Seq<char>) -> Seq<char> {
    a + "/"@ + b + "/"@ + c
}

/// The path segments that the parser recognises as a page other than "bad URL".
pub open spec fn recognized(s: Seq<Seq<char>>) -> bool {
    s == seq![""@] || s == seq!["register"@] || s == seq!["signin"@]
        || (s.len() == 3 && s[0] == "reset-password-confirm"@)
        || s == seq!["no-auth"@] || s == seq!["no-oob-code"@]
        || s == seq!["dashboard"@] || s == seq!["dashboard"@, "browse"@]
        || s == seq!["verify-email-waiting"@]
        || (s.len() == 3 && s[0] == "verify-email-confirm"@)
        || (s.len() == 3 && s[0] == "openid-finalize"@)
}

impl Route {
    /// The URL path of the page, after the root.
    pub open spec fn path(&self) -> Seq<char> {
        match self {
            Route::Landing(Landing::Welcome) => ""@,
            Route::Landing(Landing::Auth(a)) => match a {
                AuthRoute::Signin => "signin"@,
                AuthRoute::Register => "register"@,
                AuthRoute::VerifyEmailWaiting => "verify-email-waiting"@,
                AuthRoute::VerifyEmailConfirm { oob_token_id, oob_token_key } =>
                    three("verify-email-confirm"@, oob_token_id@, oob_token_key@),
                AuthRoute::PasswordResetConfirm { oob_token_id, oob_token_key } =>
                    three("reset-password-confirm"@, oob_token_id@, oob_token_key@),
                AuthRoute::OpenIdFinalize { session_id, session_key } =>
                    three("openid-finalize"@, session_id@, session_key@),
            },
            Route::Dashboard(Dashboard::Browse) => "dashboard/browse"@,
            Route::NotFound(NotFoundReason::BadUrl) => "404"@,
            Route::NotFound(NotFoundReason::NoAuth) => "no-auth"@,
            Route::NotFound(NotFoundReason::NoOobCode) => "no-oob-code"@,
        }
    }

    /// The page that the path segments `s` name.
    pub open spec fn parsed_from(&self, s: Seq<Seq<char>>) -> bool {
        match self {
            Route::Landing(Landing::Welcome) => s == seq![""@],
            Route::Landing(Landing::Auth(a)) => match a {
                AuthRoute::Signin => s == seq!["signin"@],
                AuthRoute::Register => s == seq!["register"@],
                AuthRoute::VerifyEmailWaiting => s == seq!["verify-email-waiting"@],
                AuthRoute::VerifyEmailConfirm { oob_token_id, oob_token_key } =>
                    s == seq!["verify-email-confirm"@, oob_token_id@, oob_token_key@],
                AuthRoute::PasswordResetConfirm { oob_token_id, oob_token_key } =>
                    s == seq!["reset-password-confirm"@, oob_token_id@, oob_token_key@],
                AuthRoute::OpenIdFinalize { session_id, session_key } =>
                    s == seq!["openid-finalize"@, session_id@, session_key@],
            },
            Route::Dashboard(Dashboard::Browse) =>
                s == seq!["dashboard"@] || s == seq!["dashboard"@, "browse"@],
            Route::NotFound(NotFoundReason::NoAuth) => s == seq!["no-auth"@],
            Route::NotFound(NotFoundReason::NoOobCode) => s == seq!["no-oob-code"@],
            Route::NotFound(NotFoundReason::BadUrl) => !recognized(s),
        }
    }

    fn from_segments(p: &[&str]) -> (r: Route)
        ensures
            r.parsed_from(p@.map_values(|x: &str| x@)),
    {
        let ghost s = p@.map_values(|x: &str| x@);
        let n = p.len();
        proof {
            assert(s.len() == n);
            if n > 0 { assert(s[0] == p@[0]@); }
            if n > 1 { assert(s[1] == p@[1]@); }
            if n > 2 { assert(s[2] == p@[2]@); }
        }
        if n == 1 {
            let a = p[0];
            if str_eq(a, "") {
                assert(s =~= seq![""@]);
                return Route::Landing(Landing::Welcome);
            } else if str_eq(a, "register") {
                assert(s =~= seq!["register"@]);
                return Route::Landing(Landing::Auth(AuthRoute::Register));
            } else if str_eq(a, "signin") {
                assert(s =~= seq!["signin"@]);
                return Route::Landing(Landing::Auth(AuthRoute::Signin));
            } else if str_eq(a, "no-auth") {
                assert(s =~= seq!["no-auth"@]);
                return Route::NotFound(NotFoundReason::NoAuth);
            } else if str_eq(a, "no-oob-code") {
                assert(s =~= seq!["no-oob-code"@]);
                return Route::NotFound(NotFoundReason::NoOobCode);
            } else if str_eq(a, "dashboard") {
                assert(s =~= seq!["dashboard"@]);
                return Route::Dashboard(Dashboard::Browse);
            } else if str_eq(a, "verify-email-waiting") {
                assert(s =~= seq!["verify-email-waiting"@]);
                return Route::Landing(Landing::Auth(AuthRoute::VerifyEmailWaiting));
            }
        } else if n == 2 {
            if str_eq(p[0], "dashboard") && str_eq(p[1], "browse") {
                assert(s =~= seq!["dashboard"@, "browse"@]);
                return Route::Dashboard(Dashboard::Browse);
            }
        } else if n == 3 {
            let id = p[1].to_string();
            let key = p[2].to_string();
            if str_eq(p[0], "reset-password-confirm") {
                let r = Route::Landing(Landing::Auth(AuthRoute::PasswordResetConfirm { oob_token_id: id, oob_token_key: key }));
                assert(s =~= seq!["reset-password-confirm"@, id@, key@]);
                return r;
            } else if str_eq(p[0], "verify-email-confirm") {
                let r = Route::Landing(Landing::Auth(AuthRoute::VerifyEmailConfirm { oob_token_id: id, oob_token_key: key }));
                assert(s =~= seq!["verify-email-confirm"@, id@, key@]);
                return r;
            } else if str_eq(p[0], "openid-finalize") {
                let r = Route::Landing(Landing::Auth(AuthRoute::OpenIdFinalize { session_id: id, session_key: key }));
                assert(s =~= seq!["openid-finalize"@, id@, key@]);
                return r;
            }
        }
        Route::NotFound(NotFoundReason::BadUrl)
    }

    /// The page that `url` names under `root_path`; unknown paths give "bad URL".
    pub fn from_url(url: &str, root_path: &str) -> (r: Route)
        ensures
            r.parsed_from(route_segments(url@, root_path@)),
    {
        let path = path_of_url(url);
        let segs = split(path, '/');
        let skip = crate::route::count_slashes(root_path);
        let ghost rs = route_segments(url@, root_path@);
        let mut rest: Vec<&str> = Vec::new();
        if skip < segs.len() {
            let mut i: usize = skip + 1;
            while i < segs.len()
                invariant
                    skip + 1 <= i <= segs@.len(),
                    segs@.len() == crate::text::split_spec(crate::route::url_path(url@), '/').len(),
                    forall|k: int| 0 <= k < segs@.len() ==> #[trigger] segs@[k]@
                        == crate::text::split_spec(crate::route::url_path(url@), '/')[k],
                    skip == crate::route::count_char(root_path@, '/'),
                    rest@.len() == i - skip - 1,
                    forall|k: int| 0 <= k < rest@.len() ==> #[trigger] rest@[k]@ == rs[k],
                    rs == crate::text::split_spec(crate::route::url_path(url@), '/').subrange(skip + 1, segs@.len() as int),
                decreases segs@.len() - i,
            {
                rest.push(segs[i]);
                i = i + 1;
            }
        }
        assert(rest@.map_values(|x: &str| x@) =~= rs);
        Route::from_segments(rest.as_slice())
    }

    /// The page's path, as it stands in a URL.
    pub fn to_string(&self) -> (r: String)
        ensures
            r@ == self.path(),
    {
        match self {
            Route::Landing(Landing::Welcome) => "".to_string(),
            Route::Landing(Landing::Auth(a)) => match a {
                AuthRoute::Signin => "signin".to_string(),
                AuthRoute::Register => "register".to_string(),
                AuthRoute::VerifyEmailWaiting => "verify-email-waiting".to_string(),
                AuthRoute::VerifyEmailConfirm { oob_token_id, oob_token_key } =>
                    join_three("verify-email-confirm", oob_token_id, oob_token_key),
                AuthRoute::PasswordResetConfirm { oob_token_id, oob_token_key } =>
                    join_three("reset-password-confirm", oob_token_id, oob_token_key),
                AuthRoute::OpenIdFinalize { session_id, session_key } =>
                    join_three("openid-finalize", session_id, session_key),
            },
            Route::Dashboard(Dashboard::Browse) => "dashboard/browse".to_string(),
            Route::NotFound(NotFoundReason::BadUrl) => "404".to_string(),
            Route::NotFound(NotFoundReason::NoAuth) => "no-auth".to_string(),
            Route::NotFound(NotFoundReason::NoOobCode) => "no-oob-code".to_string(),
        }
    }

    pub open spec fn link_spec(&self, domain: Seq<char>, root_path: Seq<char>) -> Seq<char> {
        if root_path.len() == 0 {
            domain + "/"@ + self.path()
        } else {
            domain + "/"@ + root_path + "/"@ + self.path()
        }
    }

    /// The absolute URL of the page under `domain` and `root_path`.
    pub fn link(&self, domain: &str, root_path: &str) -> (r: String)
        ensures
            r@ == self.link_spec(domain@, root_path@),
    {
        let mut s = domain.to_string();
        s.append("/");
        if root_path.unicode_len() != 0 {
            s.append(root_path);
            s.append("/");
        }
        let p = self.to_string();
        s.append(p.as_str());
        s
    }

    /// Whether the page is only shown to signed-in users.
    pub fn requires_auth(&self) -> (r: bool)
        ensures
            r == (self is Dashboard),
    {
        match self {
            Route::Dashboard(_) => true,
            _ => false,
        }
    }
}

fn join_three(a: &str, b: &String, c: &String) -> (r: String)
    ensures
        r@ == three(a@, b@, c@),
{
    let mut s = a.to_string();
    s.append("/");
    s.append(b.as_str());
    s.append("/");
    s.append(c.as_str());
    s
}

} // verus!
