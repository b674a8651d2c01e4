//! Checksums, hashing, comparison and random key material.

use vstd::prelude::*;
use rand::Rng;
use sha2::Digest;
use crate::text::{push_char, utf8, all_ascii, lemma_utf8_injective};

verus! {

/// The CRC-32 register after `n` more bit steps: shift right, and where the bit shifted
/// out was set, add the reflected IEEE polynomial `0xEDB88320`.
pub open spec fn crc32_shift(reg: u32, n: nat) -> u32
    decreases n,
{
    if n == 0 {
        reg
    } else {
        let next: u32 = if reg & 1u32 == 1u32 { (reg >> 1u32) ^ 0xEDB8_8320u32 } else { reg >> 1u32 };
        crc32_shift(next, (n - 1) as nat)
    }
}

/// The CRC-32 register after the bytes of `data`, starting from all ones; each byte
/// enters at the low end and is followed by eight bit steps.
pub open spec fn crc32_register(data: Seq<u8>) -> u32
    decreases data.len(),
{
    if data.len() == 0 {
        0xFFFF_FFFFu32
    } else {
        crc32_shift(crc32_register(data.drop_last()) ^ (data.last() as u32), 8)
    }
}

/// The CRC-32 (IEEE) checksum of a byte sequence: the final register, inverted.
pub open spec fn crc32(data: Seq<u8>) -> u32 {
    !crc32_register(data)
}

/// The base62 digit for `d < 62`, in the standard ordering 0-9, A-Z, a-z.
pub open spec fn base62_digit(d: nat) -> char {
    if d < 10 {
        (48 + d) as char
    } else if d < 36 {
        (65 + d - 10) as char
    } else {
        (97 + d - 36) as char
    }
}

/// The base62 rendering of `n`, most significant digit first, with no leading zeros
/// (`0` renders as a single `'0'`).
pub open spec fn base62(n: nat) -> Seq<char>
    decreases n,
{
    if n < 62 {
        seq![base62_digit(n)]
    } else {
        base62(n / 62).push(base62_digit(n % 62))
    }
}

/// `crc32fast::hash`: the CRC-32 (IEEE) checksum of the whole byte slice.
#[verifier::external_body]
fn crc32_hash(data: &[u8]) -> (r: u32)
    ensures
        r == crc32(data@),
{
    crc32fast::hash(data)
}

/// `base62::encode` on a `u128`: the standard-alphabet base62 string of the number,
/// without leading zeros.
#[verifier::external_body]
fn base62_encode(n: u128) -> (s: String)
    ensures
        s@ == base62(n as nat),
{
    base62::encode(n)
}


/// The bytes of a list of strings, one after the other.
pub open spec fn joined_bytes(items: Seq<Seq<char>>) -> Seq<u8>
    decreases items.len(),
{
    if items.len() == 0 {
        seq![]
    } else {
        joined_bytes(items.drop_last()) + utf8(items.last())
    }
}

/// `s` padded on the left with `'0'` up to six characters (`format!("{:0>6}", s)`).
pub open spec fn pad_zeros6(s: Seq<char>) -> Seq<char> {
    if s.len() >= 6 {
        s
    } else {
        Seq::new((6 - s.len()) as nat, |i: int| '0') + s
    }
}

/// The checksum text of a list of strings: the CRC-32 of their bytes in base62,
/// zero-padded to six characters.
pub open spec fn checksum_text(items: Seq<Seq<char>>) -> Seq<char> {
    pad_zeros6(base62(crc32(joined_bytes(items)) as nat))
}

/// A lowercase hexadecimal digit for `d < 16`.
pub open spec fn hex_digit(d: nat) -> char {
    if d < 10 {
        (48 + d) as char
    } else {
        (87 + d) as char
    }
}

/// Lowercase hexadecimal text of a byte sequence, two digits per byte.
pub open spec fn hex_lower(b: Seq<u8>) -> Seq<char>
    decreases b.len(),
{
    if b.len() == 0 {
        seq![]
    } else {
        hex_lower(b.drop_last()) + seq![hex_digit(b.last() as nat / 16), hex_digit(b.last() as nat % 16)]
    }
}

/// The SHA-512 digest of a byte sequence, as `sha2::Sha512` computes it.
pub uninterp spec fn sha512(data: Seq<u8>) -> Seq<u8>;

/// An ASCII letter or digit.
pub open spec fn is_alphanumeric(c: char) -> bool {
    ('0' <= c <= '9') || ('A' <= c <= 'Z') || ('a' <= c <= 'z')
}

/// `Sha512::digest`: the 64-byte SHA-512 digest of the data, which the contract names.
#[verifier::external_body]
fn sha512_digest(data: &[u8]) -> (d: Vec<u8>)
    ensures
        d@ == sha512(data@),
        d@.len() == 64,
{
    sha2::Sha512::digest(data).to_vec()
}

/// `constant_time_eq::constant_time_eq`: true exactly when both slices hold the same bytes.
#[verifier::external_body]
fn bytes_eq_constant_time(a: &[u8], b: &[u8]) -> (r: bool)
    ensures
        r == (a@ == b@),
{
    constant_time_eq::constant_time_eq(a, b)
}

/// One sample of `rand::distr::Alphanumeric` from the thread-local generator: an ASCII
/// letter or digit. Which one is left to chance.
#[verifier::external_body]
fn random_alphanumeric_byte() -> (b: u8)
    ensures
        is_alphanumeric(b as char),
{
    rand::rng().sample(rand::distr::Alphanumeric)
}

/// A base62 digit is an ASCII letter or digit.
proof fn lemma_base62_digit(d: nat)
    requires
        d < 62,
    ensures
        is_alphanumeric(base62_digit(d)),
        (base62_digit(d) as u32) < 128,
{
}

/// `62^k`.
pub open spec fn pow62(k: nat) -> nat
    decreases k,
{
    if k == 0 {
        1
    } else {
        62 * pow62((k - 1) as nat)
    }
}

/// The base62 text of a number below `62^k` has at most `k` digits, all alphanumeric.
pub proof fn lemma_base62_shape(n: nat, k: nat)
    requires
        k >= 1,
        n < pow62(k),
    ensures
        base62(n).len() <= k,
        base62(n).len() >= 1,
        forall|i: int| 0 <= i < base62(n).len() ==> is_alphanumeric(#[trigger] base62(n)[i]),
        forall|i: int| 0 <= i < base62(n).len() ==> (#[trigger] base62(n)[i] as u32) < 128,
    decreases n,
{
    if n < 62 {
        lemma_base62_digit(n);
    } else {
        if k == 1 {
            assert(pow62(0) == 1);
            assert(false);
        }
        let b2 = pow62((k - 1) as nat);
        assert(n / 62 < b2) by (nonlinear_arith)
            requires
                n < 62 * b2,
        ;
        lemma_base62_shape(n / 62, (k - 1) as nat);
        lemma_base62_digit(n % 62);
        let p = base62(n / 62);
        assert forall|i: int| 0 <= i < base62(n).len() implies is_alphanumeric(#[trigger] base62(n)[i])
            && (base62(n)[i] as u32) < 128 by {
            if i < p.len() {
                assert(base62(n)[i] == p[i]);
            }
        }
    }
}

/// The checksum text of any list of strings is exactly six alphanumeric ASCII characters.
pub proof fn lemma_checksum_text_shape(items: Seq<Seq<char>>)
    ensures
        checksum_text(items).len() == 6,
        forall|i: int| 0 <= i < 6 ==> is_alphanumeric(#[trigger] checksum_text(items)[i]),
        all_ascii(checksum_text(items)),
{
    let n = crc32(joined_bytes(items)) as nat;
    reveal_with_fuel(pow62, 7);
    assert(pow62(6) == 56800235584);
    lemma_base62_shape(n, 6);
    let b = base62(n);
    let t = checksum_text(items);
    assert forall|i: int| 0 <= i < t.len() implies is_alphanumeric(#[trigger] t[i])
        && (t[i] as u32) < 128 by {
        if b.len() < 6 {
            if i >= 6 - b.len() {
                assert(t[i] == b[i - (6 - b.len())]);
            }
        }
    }
}

/// Hex-encodes a byte slice in lowercase.
fn to_hex_lower(b: &[u8]) -> (s: String)
    ensures
        s@ == hex_lower(b@),
{
    let mut s = String::new();
    let n = b.len();
    for i in 0..n
        invariant
            n == b@.len(),
            s@ == hex_lower(b@.take(i as int)),
    {
        let x = b[i];
        let hi = x / 16;
        let lo = x % 16;
        let c_hi = if hi < 10 { (48 + hi) as char } else { (87 + hi) as char };
        let c_lo = if lo < 10 { (48 + lo) as char } else { (87 + lo) as char };
        push_char(&mut s, c_hi);
        push_char(&mut s, c_lo);
        assert(b@.take(i + 1).drop_last() =~= b@.take(i as int));
    }
    assert(b@.take(n as int) =~= b@);
    s
}

/// Generates a random alphanumeric string of the given length. Each character is drawn
/// from the 62 ASCII letters and digits.
pub fn generate_random_alphanumeric(length: usize) -> (s: String)
    ensures
        s@.len() == length,
        forall|i: int| 0 <= i < length ==> is_alphanumeric(#[trigger] s@[i]),
{
    let mut s = String::new();
    for i in 0..length
        invariant
            s@.len() == i,
            forall|j: int| 0 <= j < i ==> is_alphanumeric(#[trigger] s@[j]),
    {
        let b = random_alphanumeric_byte();
        push_char(&mut s, b as char);
    }
    s
}

/// The CRC-32 checksum of the given strings' bytes, taken in order, rendered in base62
/// and zero-padded on the left to six characters.
pub fn get_checksum(items: &[&str]) -> (s: String)
    ensures
        s@ == checksum_text(items@.map_values(|x: &str| x@)),
{
    let ghost views = items@.map_values(|x: &str| x@);
    let mut data: Vec<u8> = Vec::new();
    let n = items.len();
    for i in 0..n
        invariant
            n == items@.len(),
            views == items@.map_values(|x: &str| x@),
            data@ == joined_bytes(views.take(i as int)),
    {
        let bytes = items[i].as_bytes();
        let ghost before = data@;
        data.extend_from_slice(bytes);
        assert(data@ =~= before + utf8(views[i as int]));
        assert(views.take(i + 1).drop_last() =~= views.take(i as int));
    }
    assert(views.take(n as int) =~= views);
    let crc = crc32_hash(data.as_slice());
    let encoded = base62_encode(crc as u128);
    let len = encoded.as_str().unicode_len();
    if len >= 6 {
        encoded
    } else {
        let mut padded = String::new();
        let mut k: usize = len;
        while k < 6
            invariant
                len <= k <= 6,
                padded@ =~= Seq::new((k - len) as nat, |i: int| '0'),
            decreases 6 - k,
        {
            push_char(&mut padded, '0');
            k = k + 1;
        }
        padded.append(encoded.as_str());
        padded
    }
}

/// Two hexadecimal digits per byte.
pub proof fn lemma_hex_lower_len(b: Seq<u8>)
    ensures
        hex_lower(b).len() == 2 * b.len(),
    decreases b.len(),
{
    if b.len() > 0 {
        lemma_hex_lower_len(b.drop_last());
    }
}

/// Hashes a string with SHA-512 and renders the digest in lowercase hexadecimal: 128
/// digits.
pub fn hash_sha512(input: &str) -> (s: String)
    ensures
        s@ == hex_lower(sha512(utf8(input@))),
        s@.len() == 128,
{
    let digest = sha512_digest(input.as_bytes());
    proof {
        lemma_hex_lower_len(digest@);
    }
    to_hex_lower(digest.as_slice())
}

/// Compares two strings in constant time (for equal lengths): true exactly when they
/// are equal.
pub fn constant_cmp(a: &str, b: &str) -> (r: bool)
    ensures
        r == (a@ == b@),
{
    proof {
        lemma_utf8_injective(a@, b@);
    }
    if a.len() != b.len() {
        return false;
    }
    bytes_eq_constant_time(a.as_bytes(), b.as_bytes())
}

} // verus!
