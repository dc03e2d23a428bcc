//! Canonical RFC 4648 base64 with padding.
use crate::text::chars_of;
use vstd::prelude::*;

verus! {

/// The character of a six-bit value.
pub open spec fn symbol(v: int) -> char {
    if v < 26 {
        ((65 + v) as u8) as char
    } else if v < 52 {
        ((71 + v) as u8) as char
    } else if v < 62 {
        ((v - 4) as u8) as char
    } else if v == 62 {
        '+'
    } else {
        '/'
    }
}

/// The six-bit value of a character.
pub open spec fn six_bits(c: char) -> Option<int> {
    if 'A' <= c <= 'Z' {
        Some(c as int - 65)
    } else if 'a' <= c <= 'z' {
        Some(c as int - 71)
    } else if '0' <= c <= '9' {
        Some(c as int + 4)
    } else if c == '+' {
        Some(62)
    } else if c == '/' {
        Some(63)
    } else {
        None
    }
}

/// Base64 of a byte string: four characters for each three bytes, the last
/// group filled up with `=`.
pub open spec fn base64(bytes: Seq<u8>) -> Seq<char>
    decreases bytes.len(),
{
    if bytes.len() == 0 {
        Seq::empty()
    } else if bytes.len() == 1 {
        seq![symbol(bytes[0] as int / 4), symbol(bytes[0] as int % 4 * 16), '=', '=']
    } else if bytes.len() == 2 {
        seq![
            symbol(bytes[0] as int / 4),
            symbol(bytes[0] as int % 4 * 16 + bytes[1] as int / 16),
            symbol(bytes[1] as int % 16 * 4),
            '=',
        ]
    } else {
        seq![
            symbol(bytes[0] as int / 4),
            symbol(bytes[0] as int % 4 * 16 + bytes[1] as int / 16),
            symbol(bytes[1] as int % 16 * 4 + bytes[2] as int / 64),
            symbol(bytes[2] as int % 64),
        ] + base64(bytes.skip(3))
    }
}

/// The three bytes of a group without padding.
spec fn full_group(a: int, b: int, c: int, d: int) -> Seq<u8> {
    seq![(a * 4 + b / 16) as u8, (b % 16 * 16 + c / 4) as u8, (c % 4 * 64 + d) as u8]
}

/// The bytes of the last group.
spec fn last_group(s: Seq<char>) -> Option<Seq<u8>> {
    match (six_bits(s[0]), six_bits(s[1])) {
        (Some(a), Some(b)) => if s[2] == '=' && s[3] == '=' {
            if b % 16 == 0 {
                Some(seq![(a * 4 + b / 16) as u8])
            } else {
                None
            }
        } else {
            match (six_bits(s[2]), six_bits(s[3])) {
                (Some(c), Some(d)) => Some(full_group(a, b, c, d)),
                (Some(c), None) => if s[3] == '=' && c % 4 == 0 {
                    Some(seq![(a * 4 + b / 16) as u8, (b % 16 * 16 + c / 4) as u8])
                } else {
                    None
                },
                _ => None,
            }
        },
        _ => None,
    }
}

/// The bytes of a group that others follow.
spec fn inner_group(s: Seq<char>) -> Option<Seq<u8>> {
    match (six_bits(s[0]), six_bits(s[1]), six_bits(s[2]), six_bits(s[3])) {
        (Some(a), Some(b), Some(c), Some(d)) => Some(full_group(a, b, c, d)),
        _ => None,
    }
}

/// The decoder, group by group.
spec fn unbase64(s: Seq<char>) -> Option<Seq<u8>>
    decreases s.len(),
{
    if s.len() < 4 {
        None
    } else if s.len() == 4 {
        last_group(s)
    } else {
        match (inner_group(s), unbase64(s.skip(4))) {
            (Some(group), Some(rest)) => Some(group + rest),
            _ => None,
        }
    }
}

proof fn lemma_symbol_of_six_bits(c: char)
    ensures
        six_bits(c) matches Some(v) ==> 0 <= v < 64 && symbol(v) == c,
{
}

proof fn lemma_six_bits_of_symbol(v: int)
    requires
        0 <= v < 64,
    ensures
        six_bits(symbol(v)) == Some(v),
{
}

/// Splitting the bytes of a group into six-bit values gives the values back.
proof fn lemma_group_bits(a: int, b: int, c: int, d: int)
    requires
        0 <= a < 64,
        0 <= b < 64,
        0 <= c < 64,
        0 <= d < 64,
    ensures
        ({
            let x = full_group(a, b, c, d);
            &&& x[0] as int == a * 4 + b / 16
            &&& x[1] as int == b % 16 * 16 + c / 4
            &&& x[2] as int == c % 4 * 64 + d
            &&& x[0] as int / 4 == a
            &&& x[0] as int % 4 * 16 + x[1] as int / 16 == b
            &&& x[1] as int % 16 * 4 + x[2] as int / 64 == c
            &&& x[2] as int % 64 == d
        }),
{
}

/// The last group is the encoding of its bytes.
proof fn lemma_last_group(s: Seq<char>)
    requires
        s.len() == 4,
    ensures
        last_group(s) matches Some(bytes) ==> bytes.len() > 0 && base64(bytes) == s,
{
    lemma_symbol_of_six_bits(s[0]);
    lemma_symbol_of_six_bits(s[1]);
    lemma_symbol_of_six_bits(s[2]);
    lemma_symbol_of_six_bits(s[3]);
    if let Some(bytes) = last_group(s) {
        let a = six_bits(s[0])->0;
        let b = six_bits(s[1])->0;
        if s[2] == '=' && s[3] == '=' {
            lemma_group_bits(a, b, 0, 0);
            assert(bytes[0] == full_group(a, b, 0, 0)[0]);
            assert(base64(bytes) =~= s);
        } else {
            let c = six_bits(s[2])->0;
            if s[3] == '=' {
                lemma_group_bits(a, b, c, 0);
                assert(bytes[0] == full_group(a, b, c, 0)[0]);
                assert(bytes[1] == full_group(a, b, c, 0)[1]);
                assert(base64(bytes) =~= s);
            } else {
                let d = six_bits(s[3])->0;
                lemma_group_bits(a, b, c, d);
                assert(bytes == full_group(a, b, c, d));
                assert(bytes.skip(3) =~= Seq::empty());
                assert(base64(bytes.skip(3)).len() == 0);
                assert(base64(bytes) =~= s);
            }
        }
    }
}

/// What the decoder accepts is the encoding of what it returns.
proof fn lemma_decoded_encodes(s: Seq<char>)
    ensures
        unbase64(s) matches Some(bytes) ==> bytes.len() > 0 && base64(bytes) == s,
    decreases s.len(),
{
    if s.len() == 4 {
        lemma_last_group(s);
    } else if s.len() > 4 {
        let tail = s.skip(4);
        lemma_decoded_encodes(tail);
        if let Some(bytes) = unbase64(s) {
            lemma_symbol_of_six_bits(s[0]);
            lemma_symbol_of_six_bits(s[1]);
            lemma_symbol_of_six_bits(s[2]);
            lemma_symbol_of_six_bits(s[3]);
            let group = inner_group(s)->0;
            lemma_group_bits(
                six_bits(s[0])->0,
                six_bits(s[1])->0,
                six_bits(s[2])->0,
                six_bits(s[3])->0,
            );
            let rest = unbase64(tail)->0;
            assert(bytes == group + rest);
            assert(bytes[0] == group[0] && bytes[1] == group[1] && bytes[2] == group[2]);
            assert(bytes.skip(3) =~= rest);
            assert(s =~= s.take(4) + tail);
            assert(base64(bytes) =~= s);
        }
    }
}

/// Joining the six-bit values of three bytes gives the bytes back.
proof fn lemma_byte_bits(x: u8, y: u8, z: u8)
    ensures
        ({
            let a = x as int / 4;
            let b = x as int % 4 * 16 + y as int / 16;
            let c = y as int % 16 * 4 + z as int / 64;
            let d = z as int % 64;
            &&& 0 <= a < 64
            &&& 0 <= b < 64
            &&& 0 <= c < 64
            &&& 0 <= d < 64
            &&& full_group(a, b, c, d)[0] == x
            &&& full_group(a, b, c, d)[1] == y
            &&& full_group(a, b, c, d)[2] == z
        }),
{
}

/// The decoder takes back every encoding of a non-empty byte string.
proof fn lemma_encoded_decodes(bytes: Seq<u8>)
    requires
        bytes.len() > 0,
    ensures
        unbase64(base64(bytes)) == Some(bytes),
    decreases bytes.len(),
{
    let s = base64(bytes);
    let x = bytes[0];
    let y: u8 = if bytes.len() > 1 { bytes[1] } else { 0 };
    let z: u8 = if bytes.len() > 2 { bytes[2] } else { 0 };
    let a = x as int / 4;
    let b = x as int % 4 * 16 + y as int / 16;
    let c = y as int % 16 * 4 + z as int / 64;
    let d = z as int % 64;
    lemma_byte_bits(x, y, z);
    lemma_six_bits_of_symbol(a);
    lemma_six_bits_of_symbol(b);
    lemma_six_bits_of_symbol(c);
    lemma_six_bits_of_symbol(d);
    assert(six_bits('=') is None);
    assert(s[0] == symbol(a) && s[1] == symbol(b));
    if bytes.len() == 1 {
        assert(s.len() == 4 && s[2] == '=' && s[3] == '=');
        assert(unbase64(s)->0 =~= bytes);
    } else if bytes.len() == 2 {
        assert(s.len() == 4 && s[2] == symbol(c) && s[3] == '=');
        assert(unbase64(s)->0 =~= bytes);
    } else {
        let rest = bytes.skip(3);
        assert(s[2] == symbol(c) && s[3] == symbol(d));
        if rest.len() == 0 {
            assert(base64(rest).len() == 0);
            assert(s.len() == 4);
            assert(unbase64(s)->0 =~= bytes);
        } else {
            lemma_encoded_decodes(rest);
            lemma_encoding_length(rest);
            assert(s.skip(4) =~= base64(rest));
            assert(inner_group(s) == Some(full_group(a, b, c, d)));
            assert(unbase64(s)->0 =~= bytes);
        }
    }
}

/// An encoding is as long as its groups of four.
pub proof fn lemma_encoding_length(bytes: Seq<u8>)
    ensures
        base64(bytes).len() == (bytes.len() + 2) / 3 * 4,
    decreases bytes.len(),
{
    if bytes.len() > 2 {
        lemma_encoding_length(bytes.skip(3));
    }
}

/// Two byte strings with the same encoding are the same.
pub proof fn law_encoding_is_injective(a: Seq<u8>, b: Seq<u8>)
    requires
        base64(a) == base64(b),
    ensures
        a == b,
{
    lemma_encoding_length(a);
    lemma_encoding_length(b);
    if a.len() > 0 && b.len() > 0 {
        lemma_encoded_decodes(a);
        lemma_encoded_decodes(b);
    } else {
        assert(a =~= b);
    }
}

fn encode_six_bits(v: u8) -> (c: char)
    requires
        v < 64,
    ensures
        c == symbol(v as int),
{
    if v < 26 {
        (65 + v) as char
    } else if v < 52 {
        (71 + v) as char
    } else if v < 62 {
        (v - 4) as char
    } else if v == 62 {
        '+'
    } else {
        '/'
    }
}

fn decode_six_bits(c: char) -> (v: Option<u8>)
    ensures
        match v {
            Some(x) => six_bits(c) == Some(x as int) && x < 64,
            None => six_bits(c) is None,
        },
{
    if 'A' <= c && c <= 'Z' {
        Some((c as u32 - 65) as u8)
    } else if 'a' <= c && c <= 'z' {
        Some((c as u32 - 71) as u8)
    } else if '0' <= c && c <= '9' {
        Some((c as u32 + 4) as u8)
    } else if c == '+' {
        Some(62)
    } else if c == '/' {
        Some(63)
    } else {
        None
    }
}

/// Encodes a byte string.
pub fn base64_standard(bytes: &[u8]) -> (text: String)
    ensures
        text@ == base64(bytes@),
{
    let mut out = String::new();
    let mut i: usize = 0;
    let n: usize = bytes.len();
    assert(bytes@.skip(0) =~= bytes@);
    while i < n
        invariant
            i <= n,
            n == bytes@.len(),
            out@ + base64(bytes@.skip(i as int)) == base64(bytes@),
        decreases n - i,
    {
        let ghost rest = bytes@.skip(i as int);
        let ghost before = out@;
        let b0: u8 = bytes[i];
        let b1: u8 = if n - i > 1 { bytes[i + 1] } else { 0 };
        let b2: u8 = if n - i > 2 { bytes[i + 2] } else { 0 };
        out.push(encode_six_bits(b0 / 4));
        out.push(encode_six_bits(b0 % 4 * 16 + b1 / 16));
        if n - i > 1 {
            out.push(encode_six_bits(b1 % 16 * 4 + b2 / 64));
        } else {
            out.push('=');
        }
        if n - i > 2 {
            out.push(encode_six_bits(b2 % 64));
        } else {
            out.push('=');
        }
        if n - i <= 2 {
            assert(out@ =~= before + base64(rest));
            i = n;
            assert(bytes@.skip(n as int) =~= Seq::empty());
            assert(out@ + base64(bytes@.skip(i as int)) =~= out@);
        } else {
            assert(rest.skip(3) =~= bytes@.skip(i + 3));
            assert(out@ + base64(rest.skip(3)) =~= before + base64(rest));
            i += 3;
        }
    }
    assert(bytes@.skip(n as int) =~= Seq::empty());
    assert(out@ + base64(bytes@.skip(n as int)) =~= out@);
    out
}

/// The bytes are what a text stands for: it is their encoding, or it is that of no
/// bytes but the empty ones.
pub open spec fn is_decoding(bytes: Option<Seq<u8>>, text: Seq<char>) -> bool {
    match bytes {
        Some(b) => b.len() > 0 && base64(b) == text,
        None => forall|b: Seq<u8>| b.len() > 0 ==> #[trigger] base64(b) != text,
    }
}

/// What is encoded is decoded as it was.
pub proof fn law_decoding_reverses_encoding(bytes: Seq<u8>, decoded: Option<Seq<u8>>)
    requires
        bytes.len() > 0,
        is_decoding(decoded, base64(bytes)),
    ensures
        decoded == Some(bytes),
{
    if let Some(b) = decoded {
        law_encoding_is_injective(b, bytes);
    }
}

/// Decodes the canonical encoding of a non-empty byte string; refuses every
/// other text.
pub fn base64_decode_strict(value: &str) -> (bytes: Option<Vec<u8>>)
    ensures
        is_decoding(
            match bytes {
                Some(b) => Some(b@),
                None => None,
            },
            value@,
        ),
{
    let chars = chars_of(value);
    let n: usize = chars.len();
    let mut out: Vec<u8> = Vec::new();
    let mut i: usize = 0;
    proof {
        lemma_decoded_encodes(value@);
        assert forall|b: Seq<u8>| b.len() > 0 && #[trigger] base64(b) == value@ implies unbase64(
            value@,
        ) == Some(b) by {
            lemma_encoded_decodes(b);
        }
        assert(value@.skip(0) =~= value@);
        if let Some(rest) = unbase64(value@) {
            assert(out@ + rest =~= rest);
        }
    }
    while n - i > 4
        invariant
            i <= n,
            n == chars@.len(),
            chars@ == value@,
            unbase64(value@) == (match unbase64(value@.skip(i as int)) {
                Some(rest) => Some(out@ + rest),
                None => None,
            }),
            forall|b: Seq<u8>|
                b.len() > 0 && #[trigger] base64(b) == value@ ==> unbase64(value@) == Some(b),
        decreases n - i,
    {
        let ghost rest = value@.skip(i as int);
        let ghost before = out@;
        let a = decode_six_bits(chars[i]);
        let b = decode_six_bits(chars[i + 1]);
        let c = decode_six_bits(chars[i + 2]);
        let d = decode_six_bits(chars[i + 3]);
        assert(rest.skip(4) =~= value@.skip(i + 4));
        assert(rest[0] == chars@[i as int] && rest[1] == chars@[i + 1]);
        assert(rest[2] == chars@[i + 2] && rest[3] == chars@[i + 3]);
        match (a, b, c, d) {
            (Some(a), Some(b), Some(c), Some(d)) => {
                out.push(a * 4 + b / 16);
                out.push(b % 16 * 16 + c / 4);
                out.push(c % 4 * 64 + d);
                proof {
                    let group = full_group(a as int, b as int, c as int, d as int);
                    assert(out@ =~= before + group);
                    if let Some(tail) = unbase64(rest.skip(4)) {
                        assert(before + (group + tail) =~= out@ + tail);
                    }
                }
            },
            _ => {
                return None;
            },
        }
        i += 4;
    }
    if n - i != 4 {
        return None;
    }
    let ghost rest = value@.skip(i as int);
    assert(rest[0] == chars@[i as int] && rest[1] == chars@[i + 1]);
    assert(rest[2] == chars@[i + 2] && rest[3] == chars@[i + 3]);
    let ghost before = out@;
    match (decode_six_bits(chars[i]), decode_six_bits(chars[i + 1])) {
        (Some(a), Some(b)) => {
            out.push(a * 4 + b / 16);
            if chars[i + 2] == '=' && chars[i + 3] == '=' {
                if b % 16 != 0 {
                    return None;
                }
                assert(out@ =~= before + seq![(a as int * 4 + b as int / 16) as u8]);
            } else {
                match (decode_six_bits(chars[i + 2]), decode_six_bits(chars[i + 3])) {
                    (Some(c), Some(d)) => {
                        out.push(b % 16 * 16 + c / 4);
                        out.push(c % 4 * 64 + d);
                        assert(out@ =~= before + full_group(a as int, b as int, c as int, d as int));
                    },
                    (Some(c), None) => {
                        if chars[i + 3] != '=' || c % 4 != 0 {
                            return None;
                        }
                        out.push(b % 16 * 16 + c / 4);
                        assert(out@ =~= before + seq![
                            (a as int * 4 + b as int / 16) as u8,
                            (b as int % 16 * 16 + c as int / 4) as u8,
                        ]);
                    },
                    _ => {
                        return None;
                    },
                }
            }
            Some(out)
        },
        _ => None,
    }
}

/// The alphabet: capital letters, small letters, digits, plus and slash, in this order.
pub proof fn law_the_alphabet_is_standard(v: int)
    ensures
        0 <= v < 26 ==> symbol(v) as int == 'A' as int + v,
        26 <= v < 52 ==> symbol(v) as int == 'a' as int + (v - 26),
        52 <= v < 62 ==> symbol(v) as int == '0' as int + (v - 52),
        symbol(62) == '+',
        symbol(63) == '/',
{
}

/// A group of four characters writes the 24 bits of three bytes, the first byte in
/// front; one or two bytes that are left are written with padding.
pub proof fn law_groups_write_their_bits(bytes: Seq<u8>)
    requires
        bytes.len() >= 1,
    ensures
        base64(bytes).len() == (bytes.len() + 2) / 3 * 4,
        bytes.len() >= 3 ==> (match (
            six_bits(base64(bytes)[0]),
            six_bits(base64(bytes)[1]),
            six_bits(base64(bytes)[2]),
            six_bits(base64(bytes)[3]),
        ) {
            (Some(a), Some(b), Some(c), Some(d)) => a * 262144 + b * 4096 + c * 64 + d == bytes[0]
                * 65536 + bytes[1] * 256 + bytes[2],
            _ => false,
        }),
        bytes.len() > 3 ==> base64(bytes).skip(4) == base64(bytes.skip(3)),
        bytes.len() == 2 ==> base64(bytes)[3] == '=' && (match (
            six_bits(base64(bytes)[0]),
            six_bits(base64(bytes)[1]),
            six_bits(base64(bytes)[2]),
        ) {
            (Some(a), Some(b), Some(c)) => a * 4096 + b * 64 + c == (bytes[0] * 256 + bytes[1]) * 4,
            _ => false,
        }),
        bytes.len() == 1 ==> base64(bytes)[2] == '=' && base64(bytes)[3] == '=' && (match (
            six_bits(base64(bytes)[0]),
            six_bits(base64(bytes)[1]),
        ) {
            (Some(a), Some(b)) => a * 64 + b == bytes[0] * 16,
            _ => false,
        }),
{
    let x = bytes[0];
    let y: u8 = if bytes.len() > 1 { bytes[1] } else { 0 };
    let z: u8 = if bytes.len() > 2 { bytes[2] } else { 0 };
    lemma_encoding_length(bytes);
    lemma_six_bits_of_symbol(x as int / 4);
    lemma_six_bits_of_symbol(x as int % 4 * 16 + y as int / 16);
    lemma_six_bits_of_symbol(y as int % 16 * 4 + z as int / 64);
    lemma_six_bits_of_symbol(z as int % 64);
    if bytes.len() > 3 {
        assert(base64(bytes).skip(4) =~= base64(bytes.skip(3)));
    }
}

} // verus!
