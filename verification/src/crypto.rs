//! Key hashing and verification: SHA-256 (from `sha2`) over the key followed
//! by a random salt, stored as `hex(salt):hex(hash)` (hex from `hex`), and
//! checked with a constant-time comparison.

use vstd::prelude::*;
use vstd::utf8::encode_utf8;

use rand::Rng;
use sha2::Digest;

use crate::text::{lemma_split_append_sep, lemma_split_no_sep, split_on, split_spec, views};

verus! {

/// What `sha2::Sha256::digest` gives for a byte sequence.
pub uninterp spec fn spec_sha256(data: Seq<u8>) -> Seq<u8>;

/// Calls `sha2::Sha256::digest` on `data`. The contract names the result and
/// claims what the algorithm fixes: the digest is 32 bytes long.
#[verifier::external_body]
pub(crate) fn sha256_digest(data: &[u8]) -> (r: Vec<u8>)
    ensures
        r@ == spec_sha256(data@),
        r@.len() == 32,
{
    sha2::Sha256::digest(data).to_vec()
}

/// Calls `rand::thread_rng().gen::<[u8; 32]>()`: 32 random bytes. Nothing is
/// claimed of their values.
#[verifier::external_body]
pub(crate) fn random_salt() -> (r: Vec<u8>)
    ensures
        r@.len() == 32,
{
    let salt: [u8; 32] = rand::thread_rng().gen();
    salt.to_vec()
}

/// The lower-case hexadecimal digit for `n < 16`.
pub open spec fn lower_hex_char(n: int) -> char {
    seq!['0', '1', '2', '3', '4', '5', '6', '7', '8', '9', 'a', 'b', 'c', 'd', 'e', 'f'][n]
}

/// Whether `c` is a hexadecimal digit, in either case.
pub open spec fn is_hex_digit(c: char) -> bool {
    ('0' <= c && c <= '9') || ('a' <= c && c <= 'f') || ('A' <= c && c <= 'F')
}

/// The value of a hexadecimal digit.
pub open spec fn hex_val(c: char) -> int {
    if '0' <= c && c <= '9' {
        c as int - '0' as int
    } else if 'a' <= c && c <= 'f' {
        c as int - 'a' as int + 10
    } else {
        c as int - 'A' as int + 10
    }
}

/// Lower-case hexadecimal encoding: two digits per byte, high nibble first.
#[verifier::opaque]
pub open spec fn hex_encode_spec(b: Seq<u8>) -> Seq<char> {
    Seq::new(
        2 * b.len(),
        |i: int| if i % 2 == 0 { lower_hex_char(b[i / 2] as int / 16) } else { lower_hex_char(b[i / 2] as int % 16) },
    )
}

/// Hexadecimal decoding: defined on texts of even length made of hex digits.
#[verifier::opaque]
pub open spec fn hex_decode_spec(s: Seq<char>) -> Option<Seq<u8>> {
    if s.len() % 2 == 0 && (forall|i: int| 0 <= i < s.len() ==> is_hex_digit(#[trigger] s[i])) {
        Some(Seq::new((s.len() / 2) as nat, |i: int| (hex_val(s[2 * i]) * 16 + hex_val(s[2 * i + 1])) as u8))
    } else {
        None
    }
}

/// Calls `hex::encode`. The contract states what the crate's source shows:
/// each byte becomes two lower-case hex digits, high nibble first.
#[verifier::external_body]
pub(crate) fn hex_encode(data: &[u8]) -> (r: String)
    ensures
        r@ == hex_encode_spec(data@),
{
    hex::encode(data)
}

/// Calls `hex::decode`. The contract states what the crate's source shows:
/// the text decodes when it has an even number of hex digits of either case
/// and nothing else, two digits giving one byte.
#[verifier::external_body]
pub(crate) fn hex_decode(text: &str) -> (r: Option<Vec<u8>>)
    ensures
        match r {
            Some(v) => hex_decode_spec(text@) == Some(v@),
            None => hex_decode_spec(text@) is None,
        },
{
    match hex::decode(text) {
        Ok(v) => Some(v),
        Err(_) => None,
    }
}

proof fn lemma_hex_digits_table()
    ensures
        forall|n: int| 0 <= n < 16 ==> is_hex_digit(#[trigger] lower_hex_char(n)) && hex_val(lower_hex_char(n)) == n,
        forall|n: int| 0 <= n < 16 ==> #[trigger] lower_hex_char(n) != ':',
{
    assert forall|n: int| 0 <= n < 16 implies is_hex_digit(#[trigger] lower_hex_char(n)) && hex_val(
        lower_hex_char(n),
    ) == n && lower_hex_char(n) != ':' by {
        if n == 0 {} else if n == 1 {} else if n == 2 {} else if n == 3 {} else if n == 4 {}
        else if n == 5 {} else if n == 6 {} else if n == 7 {} else if n == 8 {} else if n == 9 {}
        else if n == 10 {} else if n == 11 {} else if n == 12 {} else if n == 13 {} else if n == 14 {}
        else {}
    }
}

/// Decoding the hex encoding of a byte sequence gives the sequence back, and
/// the encoding holds no colon.
pub proof fn lemma_hex_round_trip(b: Seq<u8>)
    ensures
        hex_decode_spec(hex_encode_spec(b)) == Some(b),
        !hex_encode_spec(b).contains(':'),
{
    reveal(hex_encode_spec);
    reveal(hex_decode_spec);
    lemma_hex_digits_table();
    let e = hex_encode_spec(b);
    assert forall|i: int| 0 <= i < e.len() implies is_hex_digit(#[trigger] e[i]) by {
        if i % 2 == 0 {
            assert(0 <= b[i / 2] as int / 16 < 16);
        } else {
            assert(0 <= b[i / 2] as int % 16 < 16);
        }
    }
    let d = hex_decode_spec(e)->0;
    assert forall|i: int| 0 <= i < b.len() implies #[trigger] d[i] == b[i] by {
        assert(e[2 * i] == lower_hex_char(b[i] as int / 16));
        assert(e[2 * i + 1] == lower_hex_char(b[i] as int % 16));
        assert(0 <= b[i] as int / 16 < 16);
        assert(0 <= b[i] as int % 16 < 16);
        assert((b[i] as int / 16) * 16 + b[i] as int % 16 == b[i] as int);
    }
    assert(d =~= b);
    if e.contains(':') {
        let i = choose|i: int| 0 <= i < e.len() && e[i] == ':';
        assert(is_hex_digit(e[i]));
    }
}

/// The stored form of a key hashed with `salt`: `hex(salt):hex(sha256(key || salt))`.
pub open spec fn hash_key_spec(key: Seq<char>, salt: Seq<u8>) -> Seq<char> {
    hex_encode_spec(salt) + seq![':'] + hex_encode_spec(spec_sha256(encode_utf8(key) + salt))
}

/// Whether `candidate` is the key that `stored` was made from: `stored` has
/// exactly two colon-separated hex fields, and the second is the SHA-256 of
/// the candidate's UTF-8 bytes followed by the first.
pub open spec fn verify_key_hash_spec(candidate: Seq<char>, stored: Seq<char>) -> bool {
    let parts = split_spec(stored, ':');
    &&& parts.len() == 2
    &&& hex_decode_spec(parts[0]) is Some
    &&& hex_decode_spec(parts[1]) is Some
    &&& hex_decode_spec(parts[1])->0 == spec_sha256(encode_utf8(candidate) + hex_decode_spec(parts[0])->0)
}

/// The bytes of `key` followed by `salt`.
fn key_and_salt(key: &str, salt: &[u8]) -> (r: Vec<u8>)
    ensures
        r@ == encode_utf8(key@) + salt@,
{
    let kb = key.as_bytes();
    let mut out: Vec<u8> = Vec::new();
    let mut i: usize = 0;
    while i < kb.len()
        invariant
            i <= kb@.len(),
            kb@ == encode_utf8(key@),
            out@ == kb@.subrange(0, i as int),
        decreases kb@.len() - i,
    {
        out.push(kb[i]);
        i = i + 1;
        assert(out@ =~= kb@.subrange(0, i as int));
    }
    let mut j: usize = 0;
    while j < salt.len()
        invariant
            j <= salt@.len(),
            kb@ == encode_utf8(key@),
            out@ == kb@ + salt@.subrange(0, j as int),
        decreases salt@.len() - j,
    {
        out.push(salt[j]);
        j = j + 1;
        assert(out@ =~= kb@ + salt@.subrange(0, j as int));
    }
    assert(kb@.subrange(0, kb@.len() as int) =~= kb@);
    assert(salt@.subrange(0, salt@.len() as int) =~= salt@);
    out
}

/// Hash an API key with a salt: `hex(salt):hex(sha256(key || salt))`.
pub fn hash_key(key: &str, salt: &[u8]) -> (r: String)
    ensures
        r@ == hash_key_spec(key@, salt@),
{
    let data = key_and_salt(key, salt);
    let hash = sha256_digest(data.as_slice());
    let mut out = hex_encode(salt);
    out.append(":");
    let h = hex_encode(hash.as_slice());
    out.append(h.as_str());
    proof {
        reveal_strlit(":");
    }
    assert(out@ =~= hash_key_spec(key@, salt@));
    out
}

proof fn lemma_or_xor_zero(r: u8, a: u8, b: u8)
    ensures
        (r | (a ^ b)) == 0 <==> (r == 0 && a == b),
{
    assert((r | (a ^ b)) == 0 <==> (r == 0 && a == b)) by (bit_vector);
}

/// Verify a candidate key against a stored `salt:hash` string, comparing the
/// hashes in constant time.
pub fn verify_key_hash(candidate_key: &str, stored_hash: &str) -> (r: bool)
    ensures
        r == verify_key_hash_spec(candidate_key@, stored_hash@),
{
    let parts = split_on(stored_hash, ':');
    let ghost ps = split_spec(stored_hash@, ':');
    if parts.len() != 2 {
        return false;
    }
    assert(parts@[0]@ == ps[0] && parts@[1]@ == ps[1]) by {
        assert(views(parts@)[0] == parts@[0]@);
        assert(views(parts@)[1] == parts@[1]@);
    }
    let salt = match hex_decode(parts[0].as_str()) {
        Some(s) => s,
        None => {
            return false;
        },
    };
    let hash = match hex_decode(parts[1].as_str()) {
        Some(h) => h,
        None => {
            return false;
        },
    };
    let data = key_and_salt(candidate_key, salt.as_slice());
    let candidate_hash = sha256_digest(data.as_slice());
    if hash.len() != candidate_hash.len() {
        return false;
    }
    let mut result: u8 = 0;
    let mut i: usize = 0;
    while i < hash.len()
        invariant
            i <= hash@.len(),
            hash@.len() == candidate_hash@.len(),
            result == 0 <==> (forall|j: int| 0 <= j < i ==> hash@[j] == candidate_hash@[j]),
        decreases hash@.len() - i,
    {
        proof {
            lemma_or_xor_zero(result, hash@[i as int], candidate_hash@[i as int]);
        }
        result = result | (hash[i] ^ candidate_hash[i]);
        i = i + 1;
    }
    if result == 0 {
        assert(hash@ =~= candidate_hash@);
    } else {
        assert(hash@ != candidate_hash@);
    }
    result == 0
}

/// A key verifies against the hash made from it, whatever the salt.
pub proof fn lemma_hashed_key_verifies(key: Seq<char>, salt: Seq<u8>)
    ensures
        verify_key_hash_spec(key, hash_key_spec(key, salt)),
{
    let h = spec_sha256(encode_utf8(key) + salt);
    let a = hex_encode_spec(salt);
    let b = hex_encode_spec(h);
    lemma_hex_round_trip(salt);
    lemma_hex_round_trip(h);
    lemma_split_no_sep(b, ':');
    lemma_split_append_sep(a, b, ':');
    let parts = split_spec(hash_key_spec(key, salt), ':');
    assert(parts =~= seq![a, b]);
    assert(parts[0] == a);
    assert(parts[1] == b);
}

} // verus!
