//! The server stage of password hashing: a per-user random salt, a SHA-256
//! digest of salt and client hash, both stored together as base64 text.
use vstd::prelude::*;
use crate::codec::{
    decode_base64, decoded, encode_base64, encodes, is_base64, lemma_decoding_unique,
    lemma_encoding_unique, random_bytes, sha256, sha256_of,
};
use crate::result::{ApiError, ApiResult};

verus! {

/// Length of the per-user salt, in bytes.
pub const SALT_LENGTH: usize = 32;

/// The stored credential bytes for `salt` and the decoded client hash `pw`.
pub open spec fn credential_bytes(salt: Seq<u8>, pw: Seq<u8>) -> Seq<u8> {
    salt + sha256_of(salt + pw)
}

/// `stored` is the credential of the client hash `submitted` under `salt`.
pub open spec fn is_credential(stored: Seq<char>, salt: Seq<u8>, submitted: Seq<char>) -> bool {
    encodes(stored, credential_bytes(salt, decoded(submitted)))
}

/// The salt held in a stored credential: its first bytes.
pub open spec fn stored_salt(stored: Seq<char>) -> Seq<u8> {
    decoded(stored).subrange(0, SALT_LENGTH as int)
}

/// `a` followed by `b`.
pub fn concat_bytes(a: &[u8], b: &[u8]) -> (r: Vec<u8>)
    ensures
        r@ == a@ + b@,
{
    let mut r: Vec<u8> = Vec::new();
    let mut i: usize = 0;
    while i < a.len()
        invariant
            0 <= i <= a@.len(),
            r@ == a@.subrange(0, i as int),
        decreases a@.len() - i,
    {
        r.push(a[i]);
        i = i + 1;
    }
    let mut j: usize = 0;
    while j < b.len()
        invariant
            0 <= j <= b@.len(),
            r@ == a@ + b@.subrange(0, j as int),
        decreases b@.len() - j,
    {
        r.push(b[j]);
        j = j + 1;
    }
    assert(a@.subrange(0, a@.len() as int) =~= a@);
    assert(b@.subrange(0, b@.len() as int) =~= b@);
    r
}

/// The stored text of a credential: `salt` and `digest`, base64-encoded together.
pub fn encode_credential(salt: &[u8], digest: &[u8]) -> (r: String)
    ensures
        encodes(r@, salt@ + digest@),
{
    let bytes = concat_bytes(salt, digest);
    encode_base64(bytes.as_slice())
}

/// The stored credential of the client hash `password` (base64 text), under
/// `salt` when given and under fresh random bytes otherwise.
pub fn hash_password(password: &str, salt: Option<&[u8]>) -> (r: ApiResult<String>)
    ensures
        r is Ok <==> is_base64(password@) && (salt matches Some(s) ==> s@.len() == SALT_LENGTH),
        r is Ok && salt is Some ==> is_credential(r->Ok_0@, salt->Some_0@, password@),
        r is Ok ==> exists|s: Seq<u8>| s.len() == SALT_LENGTH && #[trigger] is_credential(r->Ok_0@, s, password@),
        r matches Err(e) ==> e is Unknown,
        r matches Ok(t) ==> is_base64(t@) && decoded(t@).len() == SALT_LENGTH + 32,
{
    let pw = match decode_base64(password) {
        Ok(b) => b,
        Err(e) => {
            return Err(ApiError::Unknown(e.to_string()));
        },
    };
    proof { lemma_decoding_unique(password@, pw@, decoded(password@)); }
    let bytes: Vec<u8> = match salt {
        Some(s) => {
            if s.len() != SALT_LENGTH {
                return Err(ApiError::unknown("salt must be 32 bytes"));
            }
            first_bytes(s, s.len())
        },
        None => random_bytes(SALT_LENGTH),
    };
    assert(bytes@.len() == SALT_LENGTH);
    assert(salt matches Some(s) ==> bytes@ =~= s@);
    let msg = concat_bytes(bytes.as_slice(), pw.as_slice());
    let digest = sha256(msg.as_slice());
    let t = encode_credential(bytes.as_slice(), digest.as_slice());
    assert(is_credential(t@, bytes@, password@));
    assert(exists|s: Seq<u8>| s.len() == SALT_LENGTH && #[trigger] is_credential(t@, s, password@));
    proof { crate::codec::lemma_decoded_of_encoding(t@, bytes@ + digest@); }
    Ok(t)
}

/// `submitted` matches the `stored` credential.
pub open spec fn password_matches(stored: Seq<char>, submitted: Seq<char>) -> bool {
    is_base64(stored) && decoded(stored).len() >= SALT_LENGTH && is_base64(submitted)
        && is_credential(stored, stored_salt(stored), submitted)
}

/// Whether `submitted` (a client hash) matches the `stored` credential: the
/// stored text decodes to at least a salt, and re-hashing the submitted value
/// under that salt gives the stored text.
pub fn check_password(stored: &str, submitted: &str) -> (r: bool)
    ensures
        r == password_matches(stored@, submitted@),
{
    let bytes = match decode_base64(stored) {
        Ok(b) => b,
        Err(_) => {
            return false;
        },
    };
    proof { lemma_decoding_unique(stored@, bytes@, decoded(stored@)); }
    if bytes.len() < SALT_LENGTH {
        return false;
    }
    let salt = first_bytes(bytes.as_slice(), SALT_LENGTH);
    let rehashed = match hash_password(submitted, Some(salt.as_slice())) {
        Ok(t) => t,
        Err(_) => {
            return false;
        },
    };
    let same = crate::text::str_eq(stored, rehashed.as_str());
    proof {
        if is_credential(stored@, stored_salt(stored@), submitted@) {
            lemma_encoding_unique(stored@, rehashed@, credential_bytes(salt@, decoded(submitted@)));
        }
    }
    same
}

/// The first `n` bytes of `b`.
pub fn first_bytes(b: &[u8], n: usize) -> (r: Vec<u8>)
    requires
        n <= b@.len(),
    ensures
        r@ == b@.subrange(0, n as int),
{
    let mut r: Vec<u8> = Vec::new();
    let mut i: usize = 0;
    while i < n
        invariant
            n <= b@.len(),
            0 <= i <= n,
            r@ == b@.subrange(0, i as int),
        decreases n - i,
    {
        r.push(b[i]);
        i = i + 1;
    }
    r
}

/// Hashing is deterministic: one client hash and one salt give one stored
/// text. Salts are kept in the clear: two credentials of the same client
/// hash under different salts are different texts.
pub proof fn lemma_hash_deterministic_and_salted(
    t1: Seq<char>,
    t2: Seq<char>,
    s1: Seq<u8>,
    s2: Seq<u8>,
    password: Seq<char>,
)
    requires
        s1.len() == SALT_LENGTH,
        s2.len() == SALT_LENGTH,
        is_credential(t1, s1, password),
        is_credential(t2, s2, password),
    ensures
        s1 == s2 ==> t1 == t2,
        s1 != s2 ==> t1 != t2,
{
    let p = decoded(password);
    if s1 == s2 {
        lemma_encoding_unique(t1, t2, credential_bytes(s1, p));
    }
    if t1 == t2 {
        lemma_decoding_unique(t1, credential_bytes(s1, p), credential_bytes(s2, p));
        assert(credential_bytes(s1, p).subrange(0, 32) =~= s1);
        assert(credential_bytes(s2, p).subrange(0, 32) =~= s2);
    }
}

} // verus!
