//! Identifiers, clocks and randomness from outside crates: UUID parsing and
//! rendering (`uuid`), the current time (`chrono`), and random values.

use vstd::prelude::*;
use vstd::arithmetic::power::{lemma_pow_positive, pow};

use base64::Engine;

use crate::crypto::lower_hex_char;
use crate::text::{lemma_remove_char_absent, lemma_remove_char_append, remove_char_spec};

verus! {

/// What `uuid::Uuid::parse_str` gives for a text: the UUID as a 128-bit
/// big-endian number, or nothing when the text is not a UUID.
pub uninterp spec fn spec_uuid_parse(text: Seq<char>) -> Option<u128>;

/// The `k`-th hex digit of a 128-bit number, most significant first (`k < 32`).
pub open spec fn uuid_nibble(id: u128, k: int) -> int {
    (id as int / pow(16, (31 - k) as nat)) % 16
}

/// The 32 lower-case hex digits of a 128-bit number, most significant first:
/// the 16 big-endian bytes of a UUID, two digits each.
pub open spec fn uuid_hex(id: u128) -> Seq<char> {
    Seq::new(32, |k: int| lower_hex_char(uuid_nibble(id, k)))
}

/// The text that `uuid::Uuid`'s `Display` gives for a UUID, as a 128-bit
/// number: its hex digits in groups of 8, 4, 4, 4 and 12, joined by hyphens.
pub open spec fn spec_uuid_text(id: u128) -> Seq<char> {
    let h = uuid_hex(id);
    h.subrange(0, 8) + seq!['-'] + h.subrange(8, 12) + seq!['-'] + h.subrange(12, 16) + seq!['-'] + h.subrange(
        16,
        20,
    ) + seq!['-'] + h.subrange(20, 32)
}

/// A lower-case hex digit: `0-9` or `a-f`.
pub open spec fn is_lower_hex_digit(c: char) -> bool {
    ('0' <= c && c <= '9') || ('a' <= c && c <= 'f')
}

/// A character of the hyphenated, lower-case UUID form: `0-9`, `a-f` or `-`.
pub open spec fn is_hyphenated_uuid_char(c: char) -> bool {
    is_lower_hex_digit(c) || c == '-'
}

proof fn lemma_lower_hex_chars()
    ensures
        forall|n: int| 0 <= n < 16 ==> is_lower_hex_digit(#[trigger] lower_hex_char(n)),
{
    assert forall|n: int| 0 <= n < 16 implies is_lower_hex_digit(#[trigger] lower_hex_char(n)) by {
        if n == 0 {} else if n == 1 {} else if n == 2 {} else if n == 3 {} else if n == 4 {}
        else if n == 5 {} else if n == 6 {} else if n == 7 {} else if n == 8 {} else if n == 9 {}
        else if n == 10 {} else if n == 11 {} else if n == 12 {} else if n == 13 {} else if n == 14 {}
        else {}
    }
}

/// The hex digits of a UUID are 32 lower-case hex digits.
pub proof fn lemma_uuid_hex_form(id: u128)
    ensures
        uuid_hex(id).len() == 32,
        forall|k: int| 0 <= k < 32 ==> is_lower_hex_digit(#[trigger] uuid_hex(id)[k]),
{
    lemma_lower_hex_chars();
    assert forall|k: int| 0 <= k < 32 implies is_lower_hex_digit(#[trigger] uuid_hex(id)[k]) by {
        lemma_pow_positive(16, (31 - k) as nat);
        assert(0 <= uuid_nibble(id, k) < 16);
    }
}

/// The text of a UUID is 36 characters, each a lower-case hex digit or a hyphen.
pub proof fn lemma_uuid_text_form(id: u128)
    ensures
        spec_uuid_text(id).len() == 36,
        forall|i: int| 0 <= i < 36 ==> is_hyphenated_uuid_char(#[trigger] spec_uuid_text(id)[i]),
{
    lemma_uuid_hex_form(id);
    let h = uuid_hex(id);
    let t = spec_uuid_text(id);
    assert forall|i: int| 0 <= i < 36 implies is_hyphenated_uuid_char(#[trigger] t[i]) by {
        if i < 8 {
            assert(t[i] == h[i]);
        } else if i == 8 || i == 13 || i == 18 || i == 23 {
            assert(t[i] == '-');
        } else if i < 13 {
            assert(t[i] == h[i - 1]);
        } else if i < 18 {
            assert(t[i] == h[i - 2]);
        } else if i < 23 {
            assert(t[i] == h[i - 3]);
        } else {
            assert(t[i] == h[i - 4]);
        }
    }
}

/// Taking the hyphens out of a UUID's text leaves its 32 hex digits.
pub proof fn lemma_uuid_text_without_hyphens(id: u128)
    ensures
        remove_char_spec(spec_uuid_text(id), '-') == uuid_hex(id),
{
    lemma_uuid_hex_form(id);
    let h = uuid_hex(id);
    let hy = seq!['-'];
    let g0 = h.subrange(0, 8);
    let g1 = h.subrange(8, 12);
    let g2 = h.subrange(12, 16);
    let g3 = h.subrange(16, 20);
    let g4 = h.subrange(20, 32);
    assert forall|g: Seq<char>| g == g0 || g == g1 || g == g2 || g == g3 || g == g4 implies !g.contains('-') by {
        if g.contains('-') {
            let j = choose|j: int| 0 <= j < g.len() && g[j] == '-';
            if g == g0 { assert(g[j] == h[j]); }
            else if g == g1 { assert(g[j] == h[j + 8]); }
            else if g == g2 { assert(g[j] == h[j + 12]); }
            else if g == g3 { assert(g[j] == h[j + 16]); }
            else { assert(g[j] == h[j + 20]); }
        }
    }
    lemma_remove_char_absent(g0, '-');
    lemma_remove_char_absent(g1, '-');
    lemma_remove_char_absent(g2, '-');
    lemma_remove_char_absent(g3, '-');
    lemma_remove_char_absent(g4, '-');
    assert(remove_char_spec(hy, '-') =~= Seq::<char>::empty()) by {
        assert(hy.drop_last() =~= Seq::<char>::empty());
        assert(hy.last() == '-');
        assert(remove_char_spec(hy.drop_last(), '-') =~= Seq::<char>::empty());
    }
    lemma_remove_char_append(g0, hy, '-');
    lemma_remove_char_append(g0 + hy, g1, '-');
    lemma_remove_char_append(g0 + hy + g1, hy, '-');
    lemma_remove_char_append(g0 + hy + g1 + hy, g2, '-');
    lemma_remove_char_append(g0 + hy + g1 + hy + g2, hy, '-');
    lemma_remove_char_append(g0 + hy + g1 + hy + g2 + hy, g3, '-');
    lemma_remove_char_append(g0 + hy + g1 + hy + g2 + hy + g3, hy, '-');
    lemma_remove_char_append(g0 + hy + g1 + hy + g2 + hy + g3 + hy, g4, '-');
    assert(g0 + g1 + g2 + g3 + g4 =~= h);
}

/// Calls `uuid::Uuid::parse_str` on `text` and returns the UUID as a number.
/// The contract names the outcome: the same text always gives the same result.
#[verifier::external_body]
pub(crate) fn parse_uuid(text: &str) -> (r: Option<u128>)
    ensures
        r == spec_uuid_parse(text@),
{
    match uuid::Uuid::parse_str(text) {
        Ok(u) => Some(u.as_u128()),
        Err(_) => None,
    }
}

/// Calls `Display` of `uuid::Uuid` (through `to_string`) on the UUID with the
/// given number. The contract claims what the crate's `fmt` module shows: the
/// text is the hyphenated lower-case form of the UUID's big-endian bytes, and
/// `Uuid::parse_str` reads it back as the same UUID.
#[verifier::external_body]
pub(crate) fn uuid_text(id: u128) -> (r: String)
    ensures
        r@ == spec_uuid_text(id),
        spec_uuid_parse(r@) == Some(id),
{
    uuid::Uuid::from_u128(id).to_string()
}

/// Calls `uuid::Uuid::new_v4`: a fresh random UUID, as a number. Nothing is
/// claimed of the value, which is random.
#[verifier::external_body]
pub(crate) fn new_uuid_v4() -> (r: u128) {
    uuid::Uuid::new_v4().as_u128()
}

/// Calls `chrono::Utc::now` and returns the time in microseconds since the Unix
/// epoch. `Utc::now` panics on a clock before the epoch, and chrono's dates end
/// in the year 262142, so the value is non-negative and below the bound given;
/// nothing else is claimed, as it depends on the clock.
#[verifier::external_body]
pub(crate) fn now_micros() -> (r: i64)
    ensures
        0 <= r <= 8_300_000_000_000_000_000i64,
{
    chrono::Utc::now().timestamp_micros()
}

/// Calls `getrandom::getrandom` to fill 32 bytes from the operating system's
/// source of randomness. On success the bytes are returned (nothing is
/// claimed of their values, which are random); on failure, the error's message.
#[verifier::external_body]
pub(crate) fn random_bytes_32() -> (r: Result<Vec<u8>, String>)
    ensures
        r matches Ok(v) ==> v@.len() == 32,
{
    let mut buf = [0u8; 32];
    match getrandom::getrandom(&mut buf) {
        Ok(()) => Ok(buf.to_vec()),
        Err(e) => Err(e.to_string()),
    }
}

/// The character for a 6-bit value in the URL-safe base64 alphabet:
/// `A-Z`, `a-z`, `0-9`, then `-` and `_`.
pub open spec fn base64_url_char(n: int) -> char {
    if n < 26 {
        ('A' as int + n) as char
    } else if n < 52 {
        ('a' as int + (n - 26)) as char
    } else if n < 62 {
        ('0' as int + (n - 52)) as char
    } else if n == 62 {
        '-'
    } else {
        '_'
    }
}

/// Byte `i` of `data`, or zero past its end.
pub open spec fn byte_or_zero(data: Seq<u8>, i: int) -> int {
    if 0 <= i < data.len() {
        data[i] as int
    } else {
        0
    }
}

/// The 24-bit value of the `g`-th group of three bytes, zero-filled past the end.
pub open spec fn base64_group(data: Seq<u8>, g: int) -> int {
    byte_or_zero(data, 3 * g) * 65536 + byte_or_zero(data, 3 * g + 1) * 256 + byte_or_zero(data, 3 * g + 2)
}

/// The length of unpadded base64 for `n` bytes: four characters per whole
/// group of three, and one more than the bytes left over.
pub open spec fn base64_unpadded_len(n: nat) -> nat {
    4 * (n / 3) + if n % 3 == 0 {
        0
    } else {
        n % 3 + 1
    }
}

/// URL-safe base64 without padding (RFC 4648): each group of three bytes, read
/// as a 24-bit number, gives four characters of six bits each, most
/// significant first; a last group of one or two bytes gives two or three.
pub open spec fn spec_base64_url_no_pad(data: Seq<u8>) -> Seq<char> {
    Seq::new(
        base64_unpadded_len(data.len()),
        |i: int| base64_url_char((base64_group(data, i / 4) / pow(64, (3 - i % 4) as nat)) % 64),
    )
}

/// Calls `Engine::encode` of `base64::engine::general_purpose::URL_SAFE_NO_PAD`
/// on `data`. The contract states what the engine's configuration gives:
/// URL-safe base64 without padding.
#[verifier::external_body]
pub(crate) fn base64_url_no_pad(data: &[u8]) -> (r: String)
    ensures
        r@ == spec_base64_url_no_pad(data@),
{
    base64::engine::general_purpose::URL_SAFE_NO_PAD.encode(data)
}

} // verus!
