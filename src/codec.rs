//! URL-safe base64 without padding, SHA-256 digests and random bytes.
use vstd::prelude::*;
use base64::Engine;
use rand::Rng;
use sha2::Digest;

verus! {

/// The 6-bit value of a URL-safe base64 symbol, or -1 for any other character.
pub open spec fn symbol_value(c: char) -> int {
    let u = c as u32;
    if 65 <= u <= 90 {
        u - 65
    } else if 97 <= u <= 122 {
        u - 71
    } else if 48 <= u <= 57 {
        u + 4
    } else if u == 45 {
        62
    } else if u == 95 {
        63
    } else {
        -1
    }
}

/// The 6-bit groups that encode `b`, three bytes to four groups, the last
/// partial group padded with zero bits.
pub open spec fn sextets(b: Seq<u8>) -> Seq<int>
    decreases b.len(),
{
    if b.len() == 0 {
        seq![]
    } else {
        let x = b[0] as int;
        if b.len() == 1 {
            seq![x / 4, (x % 4) * 16]
        } else {
            let y = b[1] as int;
            if b.len() == 2 {
                seq![x / 4, (x % 4) * 16 + y / 16, (y % 16) * 4]
            } else {
                let z = b[2] as int;
                seq![x / 4, (x % 4) * 16 + y / 16, (y % 16) * 4 + z / 64, z % 64]
                    + sextets(b.subrange(3, b.len() as int))
            }
        }
    }
}

/// `s` is the URL-safe, unpadded base64 text of `b`.
pub open spec fn encodes(s: Seq<char>, b: Seq<u8>) -> bool {
    s.len() == sextets(b).len() && forall|i: int| 0 <= i < s.len() ==> symbol_value(#[trigger] s[i]) == sextets(b)[i]
}

/// `s` is the base64 text of some byte string.
pub open spec fn is_base64(s: Seq<char>) -> bool {
    exists|b: Seq<u8>| encodes(s, b)
}

/// The bytes whose base64 text is `s`.
pub open spec fn decoded(s: Seq<char>) -> Seq<u8> {
    choose|b: Seq<u8>| encodes(s, b)
}

proof fn lemma_sextets_len(b: Seq<u8>)
    ensures
        b.len() == 0 ==> sextets(b).len() == 0,
        b.len() == 1 ==> sextets(b).len() == 2,
        b.len() == 2 ==> sextets(b).len() == 3,
        b.len() >= 3 ==> sextets(b).len() >= 4,
    decreases b.len(),
{
    if b.len() >= 3 {
        lemma_sextets_len(b.subrange(3, b.len() as int));
    }
}

proof fn lemma_byte_from_sextets(x: int, y: int, v0: int, v1: int)
    requires
        0 <= x < 256,
        0 <= y < 256,
        v0 == x / 4,
        v1 == (x % 4) * 16 + y / 16,
    ensures
        x == v0 * 4 + v1 / 16,
{
    assert(x == v0 * 4 + v1 / 16) by (nonlinear_arith)
        requires v0 == x / 4, v1 == (x % 4) * 16 + y / 16, 0 <= x < 256, 0 <= y < 256;
}

proof fn lemma_mid_byte(y: int, z: int, v1: int, v2: int, x: int)
    requires
        0 <= x < 256,
        0 <= y < 256,
        0 <= z < 256,
        v1 == (x % 4) * 16 + y / 16,
        v2 == (y % 16) * 4 + z / 64,
    ensures
        y == (v1 % 16) * 16 + v2 / 4,
{
    assert(y == (v1 % 16) * 16 + v2 / 4) by (nonlinear_arith)
        requires v1 == (x % 4) * 16 + y / 16, v2 == (y % 16) * 4 + z / 64,
            0 <= x < 256, 0 <= y < 256, 0 <= z < 256;
}

proof fn lemma_last_byte(z: int, v2: int, v3: int, y: int)
    requires
        0 <= y < 256,
        0 <= z < 256,
        v2 == (y % 16) * 4 + z / 64,
        v3 == z % 64,
    ensures
        z == (v2 % 4) * 64 + v3,
{
    assert(z == (v2 % 4) * 64 + v3) by (nonlinear_arith)
        requires v2 == (y % 16) * 4 + z / 64, v3 == z % 64, 0 <= y < 256, 0 <= z < 256;
}

/// Distinct byte strings have distinct sextet sequences.
pub proof fn lemma_sextets_injective(a: Seq<u8>, b: Seq<u8>)
    requires
        sextets(a) == sextets(b),
    ensures
        a == b,
    decreases a.len(),
{
    lemma_sextets_len(a);
    lemma_sextets_len(b);
    let sa = sextets(a);
    if a.len() == 1 {
        assert(sa[0] == sextets(b)[0] && sa[1] == sextets(b)[1]);
        lemma_byte_from_sextets(a[0] as int, 0, sa[0], sa[1]);
        lemma_byte_from_sextets(b[0] as int, 0, sa[0], sa[1]);
        assert(a =~= b);
    } else if a.len() == 2 {
        assert(sa[0] == sextets(b)[0] && sa[1] == sextets(b)[1] && sa[2] == sextets(b)[2]);
        lemma_byte_from_sextets(a[0] as int, a[1] as int, sa[0], sa[1]);
        lemma_byte_from_sextets(b[0] as int, b[1] as int, sa[0], sa[1]);
        lemma_mid_byte(a[1] as int, 0, sa[1], sa[2], a[0] as int);
        lemma_mid_byte(b[1] as int, 0, sa[1], sa[2], b[0] as int);
        assert(a =~= b);
    } else if a.len() >= 3 {
        let sb = sextets(b);
        assert(sa[0] == sb[0] && sa[1] == sb[1] && sa[2] == sb[2] && sa[3] == sb[3]);
        lemma_byte_from_sextets(a[0] as int, a[1] as int, sa[0], sa[1]);
        lemma_byte_from_sextets(b[0] as int, b[1] as int, sa[0], sa[1]);
        lemma_mid_byte(a[1] as int, a[2] as int, sa[1], sa[2], a[0] as int);
        lemma_mid_byte(b[1] as int, b[2] as int, sa[1], sa[2], b[0] as int);
        lemma_last_byte(a[2] as int, sa[2], sa[3], a[1] as int);
        lemma_last_byte(b[2] as int, sa[2], sa[3], b[1] as int);
        let ra = a.subrange(3, a.len() as int);
        let rb = b.subrange(3, b.len() as int);
        assert(sextets(ra) =~= sa.subrange(4, sa.len() as int));
        assert(sextets(rb) =~= sb.subrange(4, sb.len() as int));
        lemma_sextets_injective(ra, rb);
        assert forall|k: int| 3 <= k < a.len() implies a[k] == b[k] by {
            assert(a[k] == ra[k - 3] && b[k] == rb[k - 3]);
        }
        assert(a =~= b);
    }
}

/// A base64 text encodes exactly one byte string.
pub proof fn lemma_decoding_unique(s: Seq<char>, a: Seq<u8>, b: Seq<u8>)
    requires
        encodes(s, a),
        encodes(s, b),
    ensures
        a == b,
{
    assert(sextets(a) =~= sextets(b)) by {
        assert forall|i: int| 0 <= i < sextets(a).len() implies sextets(a)[i] == sextets(b)[i] by {
            assert(symbol_value(s[i]) == sextets(a)[i]);
        }
    }
    lemma_sextets_injective(a, b);
}

/// A byte string has exactly one base64 text.
pub proof fn lemma_encoding_unique(s: Seq<char>, t: Seq<char>, b: Seq<u8>)
    requires
        encodes(s, b),
        encodes(t, b),
    ensures
        s == t,
{
    assert forall|i: int| 0 <= i < s.len() implies s[i] == t[i] by {
        assert(symbol_value(s[i]) == symbol_value(t[i]));
        lemma_sextets_bounded(b, i);
        assert(0 <= symbol_value(s[i]) < 64);
        assert(s[i] as u32 == t[i] as u32);
        lemma_same_code_point(s[i], t[i]);
    }
    assert(s =~= t);
}

proof fn lemma_same_code_point(a: char, b: char)
    requires
        a as u32 == b as u32,
    ensures
        a == b,
{
}

proof fn lemma_sextets_bounded(b: Seq<u8>, i: int)
    requires
        0 <= i < sextets(b).len(),
    ensures
        0 <= sextets(b)[i] < 64,
    decreases b.len(),
{
    lemma_sextets_len(b);
    if b.len() >= 3 {
        if i >= 4 {
            lemma_sextets_bounded(b.subrange(3, b.len() as int), i - 4);
        }
    }
}

/// The base64 text of `b` decodes to `b`.
pub proof fn lemma_decoded_of_encoding(s: Seq<char>, b: Seq<u8>)
    requires
        encodes(s, b),
    ensures
        is_base64(s),
        decoded(s) == b,
{
    lemma_decoding_unique(s, decoded(s), b);
}

/// Relies on base64's URL_SAFE_NO_PAD engine: `encode` writes each 6-bit group
/// of the input as one symbol of the URL-safe alphabet, without padding.
#[verifier::external_body]
pub(crate) fn encode_base64(b: &[u8]) -> (r: String)
    ensures
        encodes(r@, b@),
{
    base64::engine::general_purpose::URL_SAFE_NO_PAD.encode(b)
}

/// base64's decoding error, carried through opaque.
#[verifier::external_type_specification]
#[verifier::external_body]
pub struct ExDecodeError(base64::DecodeError);

/// Relies on base64's URL_SAFE_NO_PAD engine: `decode` accepts exactly the
/// canonical unpadded texts (no padding, no trailing bits) and returns their bytes.
#[verifier::external_body]
pub(crate) fn decode_base64(s: &str) -> (r: Result<Vec<u8>, base64::DecodeError>)
    ensures
        r is Ok <==> is_base64(s@),
        r matches Ok(b) ==> encodes(s@, b@),
{
    base64::engine::general_purpose::URL_SAFE_NO_PAD.decode(s)
}

/// What SHA-256 computes for a message.
pub uninterp spec fn sha256_of(m: Seq<u8>) -> Seq<u8>;

/// Relies on sha2's `Sha256::digest`: the 32-byte digest of the message.
#[verifier::external_body]
pub(crate) fn sha256(m: &[u8]) -> (r: Vec<u8>)
    ensures
        r@ == sha256_of(m@),
        r@.len() == 32,
{
    sha2::Sha256::digest(m).to_vec()
}

/// Relies on rand's `thread_rng` through `Rng::fill`: `n` bytes from a
/// cryptographically secure generator.
#[verifier::external_body]
pub(crate) fn random_bytes(n: usize) -> (r: Vec<u8>)
    ensures
        r@.len() == n,
{
    let mut v = vec![0u8; n];
    rand::thread_rng().fill(&mut v[..]);
    v
}

} // verus!
