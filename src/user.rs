//! User identities and accounts, and the store that keeps them.
use vstd::prelude::*;
use crate::result::{ApiError, ApiResult};
use vstd::set_lib::{lemma_int_range, lemma_len_subset, set_int_range};

verus! {

/// The lower-case hexadecimal digit for `d < 16`.
pub open spec fn hex_digit(d: nat) -> char {
    if d < 10 {
        ((48 + d) as u32) as char
    } else {
        ((87 + d) as u32) as char
    }
}

/// The last `n` hexadecimal digits of `v`, most significant first.
pub open spec fn hex_digits(v: nat, n: nat) -> Seq<char>
    decreases n,
{
    if n == 0 {
        seq![]
    } else {
        hex_digits(v / 16, (n - 1) as nat).push(hex_digit(v % 16))
    }
}

/// Relies on uuid's `Uuid::now_v7`: a version 7 UUID (time-ordered, random low bits).
#[verifier::external_body]
pub(crate) fn new_v7() -> (r: u128) {
    uuid::Uuid::now_v7().as_u128()
}

/// Relies on uuid's `Uuid::simple` formatting of `Uuid::from_u128(v)`: the
/// 32 lower-case hexadecimal digits of `v`, most significant first.
#[verifier::external_body]
pub(crate) fn simple_hex(v: u128) -> (r: String)
    ensures
        r@ == hex_digits(v as nat, 32),
{
    uuid::Uuid::from_u128(v).simple().to_string()
}

/// What `str::to_lowercase` gives for a text.
pub uninterp spec fn lower_of(s: Seq<char>) -> Seq<char>;

/// Relies on std's `str::to_lowercase`: the lower-case form of the text,
/// which depends on its characters alone.
#[verifier::external_body]
pub(crate) fn lowercase(s: &str) -> (r: String)
    ensures
        r@ == lower_of(s@),
{
    s.to_lowercase()
}

/// A user's identifier, a UUID held as its 128-bit value.
#[derive(Clone, Copy, Debug, PartialEq, Eq, Structural)]
pub struct UserId {
    pub value: u128,
}

impl UserId {
    pub fn new(value: u128) -> (r: UserId)
        ensures
            r.value == value,
    {
        UserId { value }
    }

    /// A fresh identifier (a version 7 UUID).
    pub fn fresh() -> (r: UserId) {
        UserId { value: new_v7() }
    }

    /// The identifier's text: its 32 lower-case hexadecimal digits.
    pub fn to_string(&self) -> (r: String)
        ensures
            r@ == hex_digits(self.value as nat, 32),
    {
        simple_hex(self.value)
    }
}

/// A fresh user token: the text of a new version 7 UUID.
pub fn fresh_user_token() -> (r: String)
    ensures
        r@.len() == 32,
{
    let v = new_v7();
    proof { lemma_hex_digits_len(v as nat, 32); }
    simple_hex(v)
}

proof fn lemma_hex_digits_len(v: nat, n: nat)
    ensures
        hex_digits(v, n).len() == n,
    decreases n,
{
    if n > 0 {
        lemma_hex_digits_len(v / 16, (n - 1) as nat);
    }
}

/// A registered user.
#[derive(Debug)]
pub struct UserAccount {
    pub id: UserId,
    /// The stored credential (see `password`).
    pub password: String,
    pub email: String,
    pub email_verified: bool,
    /// Ties outstanding tokens to the current password generation.
    pub user_token: String,
    /// Creation time, in milliseconds since the epoch.
    pub created_at: u64,
}

impl UserAccount {
    /// A copy of the account.
    pub fn duplicate(&self) -> (r: UserAccount)
        ensures
            r == *self,
    {
        UserAccount {
            id: self.id,
            password: self.password.clone(),
            email: self.email.clone(),
            email_verified: self.email_verified,
            user_token: self.user_token.clone(),
            created_at: self.created_at,
        }
    }
}

/// SQLite's integer encoding of a boolean.
#[derive(Clone, Copy, Debug, PartialEq, Eq, Structural)]
pub struct DbBool {
    pub value: u32,
}

impl DbBool {
    pub fn from_bool(v: bool) -> (r: DbBool)
        ensures
            r.value == (if v { 1u32 } else { 0u32 }),
    {
        if v { DbBool { value: 1 } } else { DbBool { value: 0 } }
    }

    pub fn to_bool(&self) -> (r: bool)
        ensures
            r == (self.value == 1),
    {
        self.value == 1
    }
}

/// The user accounts, keyed by id and by email.
pub struct UserStore {
    pub rows: Vec<UserAccount>,
}

impl UserStore {
    /// No two accounts share an id or an email (compared in lower case).
    pub open spec fn wf(&self) -> bool {
        forall|i: int, j: int| 0 <= i < j < self.rows@.len() ==>
            (#[trigger] self.rows@[i]).id != (#[trigger] self.rows@[j]).id
            && lower_of(self.rows@[i].email@) != lower_of(self.rows@[j].email@)
    }

    pub open spec fn index_of_id(&self, uid: UserId) -> int {
        choose|i: int| 0 <= i < self.rows@.len() && self.rows@[i].id == uid
    }

    pub open spec fn has_id(&self, uid: UserId) -> bool {
        exists|i: int| 0 <= i < self.rows@.len() && self.rows@[i].id == uid
    }

    /// Some account has `email`, compared in lower case.
    pub open spec fn has_email(&self, email: Seq<char>) -> bool {
        exists|i: int| 0 <= i < self.rows@.len() && lower_of(self.rows@[i].email@) == lower_of(email)
    }

    /// The account with id `uid` (meaningful when `has_id`).
    pub open spec fn by_id(&self, uid: UserId) -> UserAccount {
        self.rows@[self.index_of_id(uid)]
    }

    /// The account with email `email` (meaningful when `has_email`).
    pub open spec fn by_email(&self, email: Seq<char>) -> UserAccount {
        self.rows@[choose|i: int| 0 <= i < self.rows@.len() && lower_of(self.rows@[i].email@) == lower_of(email)]
    }

    pub fn new() -> (r: UserStore)
        ensures
            r.wf(),
            r.rows@.len() == 0,
    {
        UserStore { rows: Vec::new() }
    }

    pub(crate) fn find_id(&self, uid: &UserId) -> (r: Option<usize>)
        requires
            self.wf(),
        ensures
            r is None <==> !self.has_id(*uid),
            r matches Some(i) ==> i < self.rows@.len() && self.rows@[i as int].id == *uid
                && i as int == self.index_of_id(*uid),
    {
        let mut i: usize = 0;
        while i < self.rows.len()
            invariant
                self.wf(),
                0 <= i <= self.rows@.len(),
                forall|k: int| 0 <= k < i ==> self.rows@[k].id != *uid,
            decreases self.rows@.len() - i,
        {
            if self.rows[i].id == *uid {
                proof {
                    assert(self.rows@[i as int].id == *uid);
                    assert(self.has_id(*uid));
                    let j = self.index_of_id(*uid);
                    assert(self.rows@[j].id == *uid);
                    if j != i as int {
                        if j < i as int {
                            assert(self.rows@[j].id != self.rows@[i as int].id);
                        } else {
                            assert(self.rows@[i as int].id != self.rows@[j].id);
                        }
                    }
                }
                return Some(i);
            }
            i = i + 1;
        }
        None
    }

    pub(crate) fn find_email(&self, email: &str) -> (r: Option<usize>)
        requires
            self.wf(),
        ensures
            r is None <==> !self.has_email(email@),
            r matches Some(i) ==> i < self.rows@.len() && lower_of(self.rows@[i as int].email@) == lower_of(email@)
                && self.rows@[i as int] == self.by_email(email@),
    {
        let wanted = lowercase(email);
        let mut i: usize = 0;
        while i < self.rows.len()
            invariant
                self.wf(),
                wanted@ == lower_of(email@),
                0 <= i <= self.rows@.len(),
                forall|k: int| 0 <= k < i ==> lower_of(self.rows@[k].email@) != lower_of(email@),
            decreases self.rows@.len() - i,
        {
            let l = lowercase(self.rows[i].email.as_str());
            if crate::text::str_eq(l.as_str(), wanted.as_str()) {
                proof { self.lemma_by_email_at(email@, i as int); }
                return Some(i);
            }
            i = i + 1;
        }
        None
    }

    /// The row at `i` is the account found by its id.
    pub proof fn lemma_by_id_at(&self, uid: UserId, i: int)
        requires
            self.wf(),
            0 <= i < self.rows@.len(),
            self.rows@[i].id == uid,
        ensures
            self.has_id(uid),
            self.index_of_id(uid) == i,
            self.by_id(uid) == self.rows@[i],
    {
        assert(self.has_id(uid));
        let j = self.index_of_id(uid);
        if j != i {
            if j < i {
                assert(self.rows@[j].id != self.rows@[i].id);
            } else {
                assert(self.rows@[i].id != self.rows@[j].id);
            }
        }
    }

    /// An id that no account has: a new version 7 UUID or, should it collide,
    /// the least number that is no account's id (one of 0 to the number of
    /// accounts is free).
    pub fn fresh_id(&self) -> (r: UserId)
        requires
            self.wf(),
        ensures
            !self.has_id(r),
    {
        let u = UserId { value: new_v7() };
        if self.find_id(&u).is_none() {
            return u;
        }
        let n = self.rows.len() as u128;
        let mut c: u128 = 0;
        while c <= n
            invariant
                self.wf(),
                n == self.rows@.len(),
                n <= usize::MAX as u128,
                c <= n + 1,
                forall|k: int| 0 <= k < c ==> #[trigger] self.has_id(UserId { value: k as u128 }),
            decreases n + 1 - c,
        {
            let candidate = UserId { value: c };
            if self.find_id(&candidate).is_none() {
                return candidate;
            }
            c = c + 1;
        }
        proof {
            let ids = self.rows@.map_values(|a: UserAccount| a.id.value as int);
            let range = set_int_range(0, n + 1);
            lemma_int_range(0, n + 1);
            assert forall|k: int| range.contains(k) implies ids.to_set().contains(k) by {
                assert(self.has_id(UserId { value: k as u128 }));
                let j = choose|j: int| 0 <= j < self.rows@.len() && self.rows@[j].id == UserId { value: k as u128 };
                assert(ids[j] == k);
            }
            lemma_len_subset(range, ids.to_set());
            ids.lemma_cardinality_of_set();
            assert(false);
        }
        u
    }

    /// The row at `i` is the account found by its email.
    pub proof fn lemma_by_email_at(&self, email: Seq<char>, i: int)
        requires
            self.wf(),
            0 <= i < self.rows@.len(),
            lower_of(self.rows@[i].email@) == lower_of(email),
        ensures
            self.has_email(email),
            self.by_email(email) == self.rows@[i],
    {
        assert(self.has_email(email));
        let j = choose|j: int| 0 <= j < self.rows@.len() && lower_of(self.rows@[j].email@) == lower_of(email);
        if j != i {
            if j < i {
                assert(lower_of(self.rows@[j].email@) != lower_of(self.rows@[i].email@));
            } else {
                assert(lower_of(self.rows@[i].email@) != lower_of(self.rows@[j].email@));
            }
        }
    }

    /// The account found by id has that id.
    pub proof fn lemma_by_id_has_id(&self, uid: UserId)
        requires
            self.has_id(uid),
        ensures
            0 <= self.index_of_id(uid) < self.rows@.len(),
            self.by_id(uid).id == uid,
    {
    }

    proof fn lemma_update_keeps_keys(&self, prev: &UserStore, i: int)
        requires
            prev.wf(),
            0 <= i < prev.rows@.len(),
            self.rows@.len() == prev.rows@.len(),
            self.rows@[i].id == prev.rows@[i].id,
            self.rows@[i].email == prev.rows@[i].email,
            forall|k: int| 0 <= k < prev.rows@.len() && k != i ==> self.rows@[k] == prev.rows@[k],
        ensures
            self.wf(),
    {
        assert forall|a: int, b: int| 0 <= a < b < self.rows@.len() implies
            (#[trigger] self.rows@[a]).id != (#[trigger] self.rows@[b]).id
            && lower_of(self.rows@[a].email@) != lower_of(self.rows@[b].email@) by {
            assert(prev.rows@[a].id != prev.rows@[b].id);
        }
    }
}

/// Reading and writing accounts in the store.
impl UserAccount {
    /// The account with id `uid`.
    pub fn load_by_id(store: &UserStore, uid: &UserId) -> (r: ApiResult<UserAccount>)
        requires
            store.wf(),
        ensures
            r is Ok <==> store.has_id(*uid),
            r matches Ok(a) ==> a == store.by_id(*uid),
            r matches Err(e) ==> e is Unknown,
    {
        match store.find_id(uid) {
            Some(i) => Ok(store.rows[i].duplicate()),
            None => Err(ApiError::unknown("no such user")),
        }
    }

    /// The account with email `email`.
    pub fn load_by_email(store: &UserStore, email: &str) -> (r: ApiResult<UserAccount>)
        requires
            store.wf(),
        ensures
            r is Ok <==> store.has_email(email@),
            r matches Ok(a) ==> a == store.by_email(email@) && lower_of(a.email@) == lower_of(email@),
            r matches Err(e) ==> e is Unknown,
    {
        match store.find_email(email) {
            Some(i) => Ok(store.rows[i].duplicate()),
            None => Err(ApiError::unknown("no such user")),
        }
    }

    /// Whether an account has email `email`, compared in lower case.
    pub fn exists_by_email(store: &UserStore, email: &str) -> (r: bool)
        requires
            store.wf(),
        ensures
            r == store.has_email(email@),
    {
        store.find_email(email).is_some()
    }

    /// Adds an account; fails if the id or the email is taken.
    pub fn insert(store: &mut UserStore, uid: &UserId, password: &str, email: &str, user_token: &str, now: u64) -> (r: ApiResult<()>)
        requires
            old(store).wf(),
        ensures
            final(store).wf(),
            r is Ok <==> !old(store).has_id(*uid) && !old(store).has_email(email@),
            r is Ok ==> final(store).rows@ == old(store).rows@.push(UserAccount {
                id: *uid,
                password: final(store).rows@.last().password,
                email: final(store).rows@.last().email,
                email_verified: false,
                user_token: final(store).rows@.last().user_token,
                created_at: now,
            }) && final(store).rows@.last().password@ == password@
                && final(store).rows@.last().email@ == email@
                && final(store).rows@.last().user_token@ == user_token@,
            r is Err ==> final(store).rows@ == old(store).rows@,
            r matches Err(e) ==> e is Unknown,
    {
        if store.find_id(uid).is_some() || store.find_email(email).is_some() {
            return Err(ApiError::unknown("user already exists"));
        }
        let account = UserAccount {
            id: *uid,
            password: password.to_string(),
            email: email.to_string(),
            email_verified: false,
            user_token: user_token.to_string(),
            created_at: now,
        };
        store.rows.push(account);
        proof {
            let n = old(store).rows@.len() as int;
            assert forall|i: int, j: int| 0 <= i < j < store.rows@.len() implies
                (#[trigger] store.rows@[i]).id != (#[trigger] store.rows@[j]).id
                && lower_of(store.rows@[i].email@) != lower_of(store.rows@[j].email@) by {
                if j == n {
                    assert(store.rows@[i] == old(store).rows@[i]);
                } else {
                    assert(store.rows@[i] == old(store).rows@[i] && store.rows@[j] == old(store).rows@[j]);
                }
            }
        }
        Ok(())
    }

    /// Sets the verified flag of account `uid`; no account, no change.
    pub fn update_email_verified(store: &mut UserStore, uid: &UserId, verified: bool) -> (r: ApiResult<()>)
        requires
            old(store).wf(),
        ensures
            final(store).wf(),
            r is Ok,
            old(store).has_id(*uid) ==> final(store).rows@ == old(store).rows@.update(
                old(store).index_of_id(*uid),
                UserAccount { email_verified: verified, ..old(store).by_id(*uid) },
            ),
            !old(store).has_id(*uid) ==> final(store).rows@ == old(store).rows@,
    {
        match store.find_id(uid) {
            Some(i) => {
                let mut a = store.rows[i].duplicate();
                a.email_verified = verified;
                store.rows.set(i, a);
                proof { store.lemma_update_keeps_keys(old(store), i as int); }
            },
            None => {},
        }
        Ok(())
    }

    /// Replaces the credential and the user token of account `uid` together.
    pub fn reset_password(store: &mut UserStore, uid: &UserId, password: &str, user_token: &str) -> (r: ApiResult<()>)
        requires
            old(store).wf(),
        ensures
            final(store).wf(),
            r is Ok,
            old(store).has_id(*uid) ==> final(store).rows@.len() == old(store).rows@.len() && ({
                let i = old(store).index_of_id(*uid);
                let a = final(store).rows@[i];
                &&& forall|k: int| 0 <= k < old(store).rows@.len() && k != i ==> final(store).rows@[k] == old(store).rows@[k]
                &&& a.id == *uid && a.email == old(store).rows@[i].email
                &&& a.email_verified == old(store).rows@[i].email_verified
                &&& a.created_at == old(store).rows@[i].created_at
                &&& a.password@ == password@ && a.user_token@ == user_token@
            }),
            !old(store).has_id(*uid) ==> final(store).rows@ == old(store).rows@,
    {
        match store.find_id(uid) {
            Some(i) => {
                let mut a = store.rows[i].duplicate();
                a.password = password.to_string();
                a.user_token = user_token.to_string();
                store.rows.set(i, a);
                proof { store.lemma_update_keeps_keys(old(store), i as int); }
            },
            None => {},
        }
        Ok(())
    }

}

} // verus!
