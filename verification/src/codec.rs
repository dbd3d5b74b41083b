//! Textual encodings of numbers: base62 (public identifiers) and the
//! hyphenated hexadecimal form of 128-bit UUIDs.

use vstd::prelude::*;
use vstd::string::*;

verus! {

// ── base62 ───────────────────────────────────────────────────────────────────

/// The base62 digit for `d < 62` in the standard alphabet `0-9A-Za-z`.
pub open spec fn b62_digit(d: nat) -> char {
    if d < 10 {
        (48 + d) as char
    } else if d < 36 {
        (55 + d) as char
    } else {
        (61 + d) as char
    }
}

/// The value of a base62 digit, or -1 for a character outside the alphabet.
pub open spec fn b62_digit_value(c: char) -> int {
    if '0' <= c && c <= '9' {
        c as int - 48
    } else if 'A' <= c && c <= 'Z' {
        c as int - 55
    } else if 'a' <= c && c <= 'z' {
        c as int - 61
    } else {
        -1
    }
}

/// Shortest standard base62 rendering of `n` (`"0"` for zero).
pub open spec fn b62_encode(n: nat) -> Seq<char>
    decreases n,
{
    if n < 62 {
        seq![b62_digit(n)]
    } else {
        b62_encode(n / 62).push(b62_digit(n % 62))
    }
}

/// Every character of `s` is a base62 digit.
pub open spec fn b62_valid(s: Seq<char>) -> bool {
    forall|i: int| 0 <= i < s.len() ==> b62_digit_value(#[trigger] s[i]) >= 0
}

/// The number denoted by a string of base62 digits, most significant first.
pub open spec fn b62_value(s: Seq<char>) -> nat
    decreases s.len(),
{
    if s.len() == 0 {
        0
    } else {
        (b62_value(s.drop_last()) * 62 + b62_digit_value(s.last())) as nat
    }
}

/// What `base62::decode` accepts: a non-empty string of digits whose value fits in 128 bits.
pub open spec fn b62_decodes(s: Seq<char>) -> bool {
    s.len() > 0 && b62_valid(s) && b62_value(s) <= u128::MAX
}

/// `base62::DecodeError`, the error of a rejected base62 string.
#[verifier::external_type_specification]
#[verifier::external_body]
pub struct ExDecodeError(base62::DecodeError);

/// `base62::encode`: the shortest standard-alphabet base62 digits of `n`.
#[verifier::external_body]
pub(crate) fn b62_encode_exec(n: u128) -> (r: String)
    ensures
        r@ == b62_encode(n as nat),
{
    base62::encode(n)
}

/// `base62::decode`: parses standard-alphabet base62 digits (leading zeros
/// allowed); fails on an empty string, a character outside the alphabet, or a
/// value above `u128::MAX`.
#[verifier::external_body]
pub(crate) fn b62_decode_exec(s: &str) -> (r: Result<u128, base62::DecodeError>)
    ensures
        r is Ok <==> b62_decodes(s@),
        r matches Ok(n) ==> n == b62_value(s@),
{
    base62::decode(s)
}

/// The display text of a base62 decoding error (`DecodeError`'s `Display`).
#[verifier::external_body]
pub(crate) fn b62_error_text(e: &base62::DecodeError) -> (r: String) {
    format!("{e}")
}

proof fn lemma_b62_digit_roundtrip(d: nat)
    requires
        d < 62,
    ensures
        b62_digit_value(b62_digit(d)) == d,
{
}

/// Decoding the base62 rendering of a number gives the number back.
pub proof fn lemma_b62_roundtrip(n: nat)
    ensures
        b62_encode(n).len() > 0,
        b62_valid(b62_encode(n)),
        b62_value(b62_encode(n)) == n,
    decreases n,
{
    if n < 62 {
        lemma_b62_digit_roundtrip(n);
        let s = b62_encode(n);
        assert(s.drop_last() =~= Seq::<char>::empty());
        assert(b62_value(s.drop_last()) == 0);
        assert(s.last() == b62_digit(n));
        assert(b62_value(s) == b62_value(s.drop_last()) * 62 + b62_digit_value(s.last()));
    } else {
        lemma_b62_roundtrip(n / 62);
        lemma_b62_digit_roundtrip(n % 62);
        let s = b62_encode(n);
        assert(s.drop_last() =~= b62_encode(n / 62));
        assert(s.last() == b62_digit(n % 62));
        assert(b62_value(s) == b62_value(s.drop_last()) * 62 + b62_digit_value(s.last()));
        assert(n == (n / 62) * 62 + n % 62);
        assert forall|i: int| 0 <= i < s.len() implies b62_digit_value(#[trigger] s[i]) >= 0 by {
            if i < s.len() - 1 {
                assert(s[i] == b62_encode(n / 62)[i]);
            }
        }
    }
}

/// A base62 rendering has at least `k + 1` digits when the number is at least `62^k`.
pub proof fn lemma_b62_len_lower_bound(n: nat, k: nat)
    requires
        n >= vstd::arithmetic::power::pow(62, k),
    ensures
        b62_encode(n).len() >= k + 1,
    decreases k,
{
    vstd::arithmetic::power::lemma_pow_positive(62, k);
    if k > 0 {
        vstd::arithmetic::power::lemma_pow_adds(62, 1, (k - 1) as nat);
        vstd::arithmetic::power::lemma_pow1(62);
        let p = vstd::arithmetic::power::pow(62, (k - 1) as nat);
        assert(n / 62 >= p) by (nonlinear_arith)
            requires
                n >= 62 * p,
        ;
        lemma_b62_len_lower_bound(n / 62, (k - 1) as nat);
    }
}

// ── UUID text ────────────────────────────────────────────────────────────────

/// Lowercase hexadecimal digit for `d < 16`.
pub open spec fn hex_digit(d: nat) -> char {
    if d < 10 {
        (48 + d) as char
    } else {
        (87 + d) as char
    }
}

/// `c` is a lowercase hexadecimal digit: `0`-`9` or `a`-`f`.
pub open spec fn is_lower_hex_char(c: char) -> bool {
    ('0' <= c && c <= '9') || ('a' <= c && c <= 'f')
}

/// Every character of `s` is a lowercase hexadecimal digit.
pub open spec fn is_lower_hex(s: Seq<char>) -> bool {
    forall|i: int| 0 <= i < s.len() ==> is_lower_hex_char(#[trigger] s[i])
}

/// The `len` lowest hexadecimal digits of `n`, most significant first, zero-padded.
pub open spec fn hex_fixed(n: nat, len: nat) -> Seq<char>
    decreases len,
{
    if len == 0 {
        Seq::empty()
    } else {
        hex_fixed(n / 16, (len - 1) as nat).push(hex_digit(n % 16))
    }
}

/// Hyphenated lowercase form of a UUID given as its 128-bit value:
/// 8-4-4-4-12 hexadecimal digits.
pub open spec fn uuid_hyphenated(u: u128) -> Seq<char> {
    let h = hex_fixed(u as nat, 32);
    h.subrange(0, 8) + "-"@ + h.subrange(8, 12) + "-"@ + h.subrange(12, 16) + "-"@
        + h.subrange(16, 20) + "-"@ + h.subrange(20, 32)
}

/// `uuid::Uuid::from_u128(u).to_string()`: the hyphenated lowercase text of a UUID.
#[verifier::external_body]
pub(crate) fn uuid_text(u: u128) -> (r: String)
    ensures
        r@ == uuid_hyphenated(u),
{
    uuid::Uuid::from_u128(u).to_string()
}

/// `u` is laid out as a version-7 UUID: version nibble 7 (bits 76..80) and
/// the RFC 4122 variant `10` (bits 62..64).
pub open spec fn is_uuid_v7(u: u128) -> bool {
    &&& (u >> 76u128) & 0xfu128 == 7u128
    &&& (u >> 62u128) & 0x3u128 == 2u128
}

/// `uuid::Uuid::now_v7()`: a fresh time-ordered UUID, as its 128-bit value.
/// It carries version 7 and the RFC 4122 variant (`encode_unix_timestamp_millis`
/// sets both); its timestamp and random bits are left unsaid.
#[verifier::external_body]
pub(crate) fn new_uuid_v7() -> (r: u128)
    ensures
        is_uuid_v7(r),
{
    uuid::Uuid::now_v7().as_u128()
}

} // verus!
