//! Route-level access control: where credentials come from, what
//! each authentication kind checks, and what clients are told on failure.
use vstd::prelude::*;
use crate::result::{ApiError, ApiResult, AuthError};
use crate::route::RouteAuthKind;
use crate::text::{split, split_once, split_spec, starts_with, trim_blanks, trim_spec, first_index_of, lemma_first_index_bounds};
use crate::user::UserAccount;

verus! {

/// Header (and cookie) that carries the sign-in token's id.
pub const AUTH_TOKEN_ID_NAME: &'static str = "X-EXAMPLE-TOKEN-ID";
/// Header that carries the sign-in token's key.
pub const AUTH_TOKEN_KEY_NAME: &'static str = "X-EXAMPLE-TOKEN-KEY";

pub open spec fn token_id_name() -> Seq<char> {
    "X-EXAMPLE-TOKEN-ID"@
}

pub open spec fn is_prefix(p: Seq<char>, s: Seq<char>) -> bool {
    p.len() <= s.len() && s.subrange(0, p.len() as int) == p
}

/// Index of the first cookie segment that starts with the token id's name.
pub open spec fn first_named(segs: Seq<Seq<char>>) -> int
    decreases segs.len(),
{
    if segs.len() == 0 {
        0
    } else if is_prefix(token_id_name(), trim_spec(segs[0])) {
        0
    } else {
        1 + first_named(segs.drop_first())
    }
}

/// The token id that a `Cookie` header carries: the value of the first
/// `;`-separated segment, blanks trimmed, that starts with the token id's name.
pub open spec fn cookie_token_id(cookie: Seq<char>) -> Option<Seq<char>> {
    let segs = split_spec(cookie, ';');
    let j = first_named(segs);
    if 0 <= j < segs.len() {
        let seg = trim_spec(segs[j]);
        let e = first_index_of(seg, '=');
        if e < seg.len() { Some(seg.subrange(e + 1, seg.len() as int)) } else { None }
    } else {
        None
    }
}

proof fn lemma_first_named_bounds(segs: Seq<Seq<char>>)
    ensures
        0 <= first_named(segs) <= segs.len(),
        forall|k: int| 0 <= k < first_named(segs) ==> !is_prefix(token_id_name(), trim_spec(#[trigger] segs[k])),
    decreases segs.len(),
{
    if segs.len() > 0 && !is_prefix(token_id_name(), trim_spec(segs[0])) {
        lemma_first_named_bounds(segs.drop_first());
        assert forall|k: int| 0 <= k < first_named(segs) implies !is_prefix(token_id_name(), trim_spec(#[trigger] segs[k])) by {
            if k > 0 { assert(segs[k] == segs.drop_first()[k - 1]); }
        }
    }
}

proof fn lemma_first_named_unique(segs: Seq<Seq<char>>, j: int)
    requires
        0 <= j <= segs.len(),
        forall|k: int| 0 <= k < j ==> !is_prefix(token_id_name(), trim_spec(#[trigger] segs[k])),
        j < segs.len() ==> is_prefix(token_id_name(), trim_spec(segs[j])),
    ensures
        first_named(segs) == j,
    decreases segs.len(),
{
    if segs.len() > 0 && j > 0 {
        assert(!is_prefix(token_id_name(), trim_spec(segs[0])));
        assert forall|k: int| 0 <= k < j - 1 implies !is_prefix(token_id_name(), trim_spec(#[trigger] segs.drop_first()[k])) by {
            assert(segs.drop_first()[k] == segs[k + 1]);
        }
        lemma_first_named_unique(segs.drop_first(), j - 1);
    }
}

/// The token id that `cookie` carries, as `cookie_token_id` describes it.
pub fn token_id_from_cookie(cookie: &str) -> (r: Option<String>)
    ensures
        r matches Some(s) ==> cookie_token_id(cookie@) == Some(s@),
        r is None ==> cookie_token_id(cookie@) is None,
{
    let segs = split(cookie, ';');
    let ghost ss = split_spec(cookie@, ';');
    let mut i: usize = 0;
    while i < segs.len()
        invariant
            ss == split_spec(cookie@, ';'),
            0 <= i <= segs@.len(),
            segs@.len() == ss.len(),
            forall|k: int| 0 <= k < segs@.len() ==> #[trigger] segs@[k]@ == ss[k],
            forall|k: int| 0 <= k < i ==> !is_prefix(token_id_name(), trim_spec(#[trigger] ss[k])),
        decreases segs@.len() - i,
    {
        let seg = trim_blanks(segs[i]);
        assert(seg@ == trim_spec(ss[i as int]));
        if starts_with(seg, "X-EXAMPLE-TOKEN-ID") {
            proof {
                assert(is_prefix(token_id_name(), seg@));
                lemma_first_named_unique(ss, i as int);
                assert(first_named(ss) == i);
                lemma_first_index_bounds(seg@, '=');
            }
            return match split_once(seg, '=') {
                Some((_, v)) => {
                    let t = v.to_string();
                    assert(cookie_token_id(cookie@) == Some(t@));
                    Some(t)
                },
                None => {
                    assert(cookie_token_id(cookie@) is None);
                    None
                },
            };
        }
        i = i + 1;
    }
    proof { lemma_first_named_unique(ss, ss.len() as int); }
    None
}

/// The token id of a request: the id header if present, else the cookie's.
pub open spec fn request_token_id(id_header: Option<Seq<char>>, cookie: Option<Seq<char>>) -> Option<Seq<char>> {
    match id_header {
        Some(h) => Some(h),
        None => match cookie {
            Some(c) => cookie_token_id(c),
            None => None,
        },
    }
}

/// The sign-in token's id and key from the request headers. The key comes
/// only from its header.
pub fn extract_credentials(id_header: Option<&str>, cookie: Option<&str>, key_header: Option<&str>)
    -> (r: ApiResult<(String, String)>)
    ensures
        r is Ok <==> request_token_id(opt_view(id_header), opt_view(cookie)) is Some && key_header is Some,
        r matches Ok((id, key)) ==> request_token_id(opt_view(id_header), opt_view(cookie)) == Some(id@)
            && key@ == key_header->Some_0@,
        r matches Err(e) ==> e is Unknown,
{
    let id = match id_header {
        Some(h) => Some(h.to_string()),
        None => match cookie {
            Some(c) => token_id_from_cookie(c),
            None => None,
        },
    };
    let id = match id {
        Some(i) => i,
        None => {
            return Err(ApiError::unknown("missing token id"));
        },
    };
    match key_header {
        Some(k) => Ok((id, k.to_string())),
        None => Err(ApiError::unknown("missing token key")),
    }
}

pub open spec fn opt_view(o: Option<&str>) -> Option<Seq<char>> {
    match o {
        Some(s) => Some(s@),
        None => None,
    }
}

/// Why access control refuses a caller whose sign-in token validated.
#[derive(Clone, Copy, Debug, PartialEq, Eq, Structural)]
pub enum Refusal {
    UserTokenMismatch,
    EmailNotVerified,
}

/// What access control decides once the sign-in token has validated: no
/// refusal, or the reason for one.
pub open spec fn authorize_spec(kind: RouteAuthKind, stored_user_token: Seq<char>, account: UserAccount) -> Option<Refusal> {
    if kind is PartialAuthTokenOnly {
        None
    } else if account.user_token@ != stored_user_token {
        Some(Refusal::UserTokenMismatch)
    } else if kind is Full && !account.email_verified {
        Some(Refusal::EmailNotVerified)
    } else {
        None
    }
}

/// The checks that follow a valid sign-in token, per authentication kind:
/// all but the token-only kind require the account's current user token;
/// `Full` also requires a verified email.
pub fn authorize(kind: RouteAuthKind, stored_user_token: &str, account: &UserAccount) -> (r: ApiResult<()>)
    ensures
        r is Ok <==> authorize_spec(kind, stored_user_token@, *account) is None,
        r matches Err(e) ==> (authorize_spec(kind, stored_user_token@, *account) == Some(Refusal::EmailNotVerified)
            <==> e == ApiError::Auth(AuthError::EmailNotVerified)),
        r matches Err(e) ==> (authorize_spec(kind, stored_user_token@, *account) == Some(Refusal::UserTokenMismatch)
            <==> e is Unknown),
{
    match kind {
        RouteAuthKind::PartialAuthTokenOnly => Ok(()),
        _ => {
            if !crate::text::str_eq(account.user_token.as_str(), stored_user_token) {
                return Err(ApiError::unknown("user token mismatch"));
            }
            match kind {
                RouteAuthKind::Full => {
                    if !account.email_verified {
                        return Err(ApiError::Auth(AuthError::EmailNotVerified));
                    }
                    Ok(())
                },
                _ => Ok(()),
            }
        },
    }
}

pub open spec fn flatten_spec(e: ApiError) -> AuthError {
    if e.is_auth(AuthError::EmailNotVerified) { AuthError::EmailNotVerified } else { AuthError::NotAuthorized }
}

/// What a client is told when access is refused: `EmailNotVerified` as it is,
/// every other failure as `NotAuthorized`.
pub fn flatten_access_error(e: ApiError) -> (r: ApiError)
    ensures
        r == ApiError::Auth(flatten_spec(e)),
{
    match e {
        ApiError::Auth(AuthError::EmailNotVerified) => ApiError::Auth(AuthError::EmailNotVerified),
        _ => ApiError::Auth(AuthError::NotAuthorized),
    }
}

/// A password reset gives the account a new user token; from then on every
/// sign-in token issued under the old one is refused for its user token,
/// on every route that checks more than the token itself.
pub proof fn lemma_reset_invalidates_old_tokens(
    kind: RouteAuthKind,
    before: UserAccount,
    after: UserAccount,
    issued_user_token: Seq<char>,
)
    requires
        kind.needs_credentials(),
        !(kind is PartialAuthTokenOnly),
        issued_user_token == before.user_token@,
        after.user_token@ != before.user_token@,
    ensures
        authorize_spec(kind, issued_user_token, after) == Some(Refusal::UserTokenMismatch),
{
}

/// Until the user token changes, every sign-in token issued for the account
/// passes the user-token check.
pub proof fn lemma_same_user_token_accepted(kind: RouteAuthKind, account: UserAccount, issued_user_token: Seq<char>)
    requires
        issued_user_token == account.user_token@,
        account.email_verified || !(kind is Full),
    ensures
        authorize_spec(kind, issued_user_token, account) is None,
{
}

} // verus!
