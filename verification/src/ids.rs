//! Identifiers and digests: the boundary to `uuid` and `sha2`.
use crate::text::{chars_of, has_prefix, is_lower_hex, join};
use sha2::{Digest, Sha256};
use vstd::prelude::*;

verus! {

/// Every character is a lower-case hexadecimal digit.
pub open spec fn all_lower_hex(s: Seq<char>) -> bool {
    forall|i: int| 0 <= i < s.len() ==> is_lower_hex(#[trigger] s[i])
}

/// The character of a four-bit value.
pub open spec fn hex_digit(v: int) -> char {
    if v < 10 {
        ((48 + v) as u8) as char
    } else {
        ((87 + v) as u8) as char
    }
}

/// Lower-case hexadecimal notation of a byte string.
pub open spec fn hex(bytes: Seq<u8>) -> Seq<char> {
    Seq::new(
        2 * bytes.len(),
        |i: int|
            if i % 2 == 0 {
                hex_digit(bytes[i / 2] as int / 16)
            } else {
                hex_digit(bytes[i / 2] as int % 16)
            },
    )
}

/// The SHA-256 digest of a byte string, as `Sha256::digest` computes it.
pub uninterp spec fn sha256_of(bytes: Seq<u8>) -> Seq<u8>;

/// `Sha256::digest`: 32 bytes that depend on the input alone.
#[verifier::external_body]
fn sha256(bytes: &[u8]) -> (digest: Vec<u8>)
    ensures
        digest@ == sha256_of(bytes@),
        digest@.len() == 32,
{
    Sha256::digest(bytes).to_vec()
}

/// `Uuid::new_v4` in its simple notation: 32 lower-case hexadecimal digits, at
/// random but for the version and variant bits.
#[verifier::external_body]
fn random_hex() -> (s: String)
    ensures
        s@.len() == 32,
        all_lower_hex(s@),
{
    uuid::Uuid::new_v4().simple().to_string()
}

/// One hexadecimal digit.
fn hex_char(v: u8) -> (c: char)
    requires
        v < 16,
    ensures
        c == hex_digit(v as int),
{
    if v < 10 {
        (48 + v) as char
    } else {
        (87 + v) as char
    }
}

/// Lower-case hexadecimal notation of a byte string.
pub fn hex_of(bytes: &[u8]) -> (s: String)
    ensures
        s@ == hex(bytes@),
{
    let mut out = String::new();
    let mut i: usize = 0;
    while i < bytes.len()
        invariant
            i <= bytes@.len(),
            out@ == hex(bytes@).take(2 * i),
        decreases bytes.len() - i,
    {
        out.push(hex_char(bytes[i] / 16));
        out.push(hex_char(bytes[i] % 16));
        assert(hex(bytes@).take(2 * i).push(hex_digit(bytes@[i as int] as int / 16)).push(
            hex_digit(bytes@[i as int] as int % 16),
        ) =~= hex(bytes@).take(2 * (i + 1)));
        i += 1;
    }
    assert(hex(bytes@).take(2 * bytes@.len() as int) =~= hex(bytes@));
    out
}

/// SHA-256 of a byte string in lower-case hexadecimal.
pub fn sha256_hex(bytes: &[u8]) -> (s: String)
    ensures
        s@ == hex(sha256_of(bytes@)),
        is_sha256_text(s@),
{
    let digest = sha256(bytes);
    proof {
        law_hex_is_lower(digest@);
    }
    hex_of(digest.as_slice())
}

/// Hexadecimal notation uses lower-case digits only, two for each byte.
pub proof fn law_hex_is_lower(bytes: Seq<u8>)
    ensures
        all_lower_hex(hex(bytes)),
        hex(bytes).len() == 2 * bytes.len(),
{
}

/// A text of 64 lower-case hexadecimal digits.
pub open spec fn is_sha256_text(s: Seq<char>) -> bool {
    s.len() == 64 && all_lower_hex(s)
}

/// Whether the characters from `from` on are lower-case hexadecimal digits.
fn lower_hex_from(chars: &Vec<char>, from: usize) -> (b: bool)
    requires
        from <= chars@.len(),
    ensures
        b == all_lower_hex(chars@.skip(from as int)),
{
    let mut i: usize = from;
    while i < chars.len()
        invariant
            from <= i <= chars@.len(),
            forall|j: int| from <= j < i ==> is_lower_hex(#[trigger] chars@[j]),
        decreases chars.len() - i,
    {
        let c = chars[i];
        if !(('0' <= c && c <= '9') || ('a' <= c && c <= 'f')) {
            assert(!is_lower_hex(chars@.skip(from as int)[i - from]));
            return false;
        }
        i += 1;
    }
    true
}

/// Whether a text is a lower-case SHA-256 digest.
pub fn is_lower_sha256(value: &str) -> (b: bool)
    ensures
        b == is_sha256_text(value@),
{
    let chars = chars_of(value);
    assert(chars@.skip(0) =~= chars@);
    chars.len() == 64 && lower_hex_from(&chars, 0)
}

/// `wsg_` and 32 lower-case hexadecimal digits.
pub open spec fn is_generation(s: Seq<char>) -> bool {
    s.len() == 36 && has_prefix(s, "wsg_"@) && all_lower_hex(s.skip(4))
}

/// Whether a text is a workspace generation.
pub fn valid_workspace_generation(value: &str) -> (b: bool)
    ensures
        b == is_generation(value@),
{
    let chars = chars_of(value);
    chars.len() == 36 && crate::text::starts_with(value, "wsg_") && lower_hex_from(&chars, 4)
}

/// A prefix followed by 32 random hexadecimal digits.
pub open spec fn is_fresh_id(s: Seq<char>, prefix: Seq<char>) -> bool {
    s.len() == prefix.len() + 32 && has_prefix(s, prefix) && all_lower_hex(
        s.skip(prefix.len() as int),
    )
}

/// A fresh identifier with the given prefix.
pub fn new_id(prefix: &str) -> (id: String)
    ensures
        is_fresh_id(id@, prefix@),
{
    let digits = random_hex();
    let id = join(prefix, digits.as_str());
    assert(id@.subrange(0, prefix@.len() as int) =~= prefix@);
    assert(id@.skip(prefix@.len() as int) =~= digits@);
    id
}

/// A fresh workspace generation.
pub fn new_workspace_generation() -> (generation: String)
    ensures
        is_generation(generation@),
{
    proof {
        reveal_strlit("wsg_");
    }
    new_id("wsg_")
}

/// The value of a hexadecimal digit.
pub open spec fn hex_value(c: char) -> int {
    if '0' <= c <= '9' {
        c as int - '0' as int
    } else {
        c as int - 'a' as int + 10
    }
}

/// Each byte is written as two digits, the higher one first: together they are worth it.
pub proof fn law_hex_digits_write_the_bytes(bytes: Seq<u8>, i: int)
    requires
        0 <= i < bytes.len(),
    ensures
        hex_value(hex(bytes)[2 * i]) * 16 + hex_value(hex(bytes)[2 * i + 1]) == bytes[i],
        0 <= hex_value(hex(bytes)[2 * i]) < 16,
        0 <= hex_value(hex(bytes)[2 * i + 1]) < 16,
{
    assert((2 * i) / 2 == i && (2 * i) % 2 == 0);
    assert((2 * i + 1) / 2 == i && (2 * i + 1) % 2 == 1);
}

/// A fresh identifier is its prefix and 32 hexadecimal digits; a generation is one with a
/// prefix of its own.
pub proof fn law_fresh_ids_are_prefix_and_digits(s: Seq<char>, prefix: Seq<char>)
    ensures
        is_fresh_id(s, prefix) ==> s.len() == prefix.len() + 32 && forall|i: int|
            0 <= i < prefix.len() ==> (#[trigger] s[i]) == prefix[i],
        is_fresh_id(s, prefix) ==> forall|i: int|
            prefix.len() <= i < s.len() ==> ('0' <= (#[trigger] s[i]) <= '9' || 'a' <= s[i] <= 'f'),
        is_generation(s) <==> is_fresh_id(s, "wsg_"@),
        is_sha256_text(s) <==> s.len() == 64 && forall|i: int|
            0 <= i < s.len() ==> ('0' <= (#[trigger] s[i]) <= '9' || 'a' <= s[i] <= 'f'),
{
    reveal_strlit("wsg_");
    if is_fresh_id(s, prefix) {
        assert forall|i: int| 0 <= i < prefix.len() implies (#[trigger] s[i]) == prefix[i] by {
            assert(s.subrange(0, prefix.len() as int)[i] == prefix[i]);
        }
        assert forall|i: int| prefix.len() <= i < s.len() implies ('0' <= (#[trigger] s[i]) <= '9'
            || 'a' <= s[i] <= 'f') by {
            assert(is_lower_hex(s.skip(prefix.len() as int)[i - prefix.len()]));
        }
    }
    if is_sha256_text(s) {
        assert forall|i: int| 0 <= i < s.len() implies ('0' <= (#[trigger] s[i]) <= '9' || 'a' <= s[i]
            <= 'f') by {
            assert(is_lower_hex(s[i]));
        }
    }
}

} // verus!
