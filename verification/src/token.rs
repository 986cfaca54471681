//! Session tokens: 32 random bytes carried as 64 lowercase hexadecimal
//! characters in the session cookie.
use vstd::prelude::*;
use crate::text::string_from_chars;
use vstd::utf8::is_ascii_chars;
use vstd::string::StringSliceAdditionalSpecFns;

verus! {

/// Number of bytes in a session token.
pub const TOKEN_LEN: usize = 32;

/// The lowercase hexadecimal digit for a value below 16.
pub open spec fn hex_char(n: int) -> char
    recommends
        0 <= n < 16,
{
    if n < 10 {
        (48 + n) as char
    } else {
        (87 + n) as char
    }
}

/// The 64-character lowercase hexadecimal rendering of a token, two
/// characters per byte, high nibble first.
pub open spec fn hex_string(bytes: Seq<u8>) -> Seq<char> {
    Seq::new(
        2 * bytes.len(),
        |i: int|
            if i % 2 == 0 {
                hex_char(bytes[i / 2] as int / 16)
            } else {
                hex_char(bytes[i / 2] as int % 16)
            },
    )
}

/// The value of one ASCII hexadecimal digit (either case), or `None`.
pub open spec fn hex_value(c: u8) -> Option<u8> {
    if 48 <= c <= 57 {
        Some((c - 48) as u8)
    } else if 97 <= c <= 102 {
        Some((c - 87) as u8)
    } else if 65 <= c <= 70 {
        Some((c - 55) as u8)
    } else {
        None
    }
}

/// Decoding of the bytes of a token string: defined exactly when there are
/// 64 bytes and every one is a hexadecimal digit.
pub open spec fn hex_decoded(b: Seq<u8>) -> Option<Seq<u8>> {
    if b.len() == 64 && (forall|i: int| 0 <= i < 64 ==> (#[trigger] hex_value(b[i])) is Some) {
        Some(
            Seq::new(
                32,
                |i: int| (hex_value(b[2 * i])->0 * 16 + hex_value(b[2 * i + 1])->0) as u8,
            ),
        )
    } else {
        None
    }
}

/// The bytes of an ASCII character sequence.
pub open spec fn ascii_bytes(s: Seq<char>) -> Seq<u8> {
    Seq::new(s.len(), |i: int| s[i] as u8)
}

/// Converts a single ASCII hex digit to its numeric value.
pub fn hex_digit(c: u8) -> (r: Option<u8>)
    ensures
        r == hex_value(c),
{
    if c >= 48u8 && c <= 57u8 {
        Some(c - 48u8)
    } else if c >= 97u8 && c <= 102u8 {
        Some(c - 97u8 + 10)
    } else if c >= 65u8 && c <= 70u8 {
        Some(c - 65u8 + 10)
    } else {
        None
    }
}

fn nibble_char(n: u8) -> (c: char)
    requires
        n < 16,
    ensures
        c == hex_char(n as int),
{
    if n < 10 {
        (48u8 + n) as char
    } else {
        (97u8 + n - 10) as char
    }
}

/// Hex-encodes a 32-byte token to a 64-character lowercase string.
pub fn hex_encode(bytes: &[u8; 32]) -> (s: String)
    ensures
        s@ == hex_string(bytes@),
        s@.len() == 64,
{
    let mut out: Vec<char> = Vec::new();
    let mut i: usize = 0;
    while i < 32
        invariant
            i <= 32,
            bytes@.len() == 32,
            out@ == hex_string(bytes@).subrange(0, 2 * i as int),
        decreases 32 - i,
    {
        let b = bytes[i];
        out.push(nibble_char(b / 16));
        out.push(nibble_char(b % 16));
        i = i + 1;
        assert(out@ =~= hex_string(bytes@).subrange(0, 2 * i as int));
    }
    assert(hex_string(bytes@).subrange(0, 64) =~= hex_string(bytes@));
    string_from_chars(out.as_slice())
}

/// Hex-decodes a 64-character string to a 32-byte token.
/// Returns `None` if the string is not exactly 64 hex characters.
pub fn hex_decode(hex: &str) -> (r: Option<[u8; 32]>)
    ensures
        match r {
            Some(t) => hex_decoded(hex.spec_bytes()) == Some(t@),
            None => hex_decoded(hex.spec_bytes()) is None,
        },
{
    let b = hex.as_bytes();
    if b.len() != 64 {
        return None;
    }
    let mut out = [0u8; 32];
    let mut i: usize = 0;
    while i < 32
        invariant
            i <= 32,
            b@ == hex.spec_bytes(),
            b@.len() == 64,
            out@.len() == 32,
            forall|k: int| 0 <= k < 2 * i ==> (#[trigger] hex_value(b@[k])) is Some,
            forall|k: int|
                0 <= k < i ==> out@[k] == (hex_value(b@[2 * k])->0 * 16 + hex_value(
                    b@[2 * k + 1],
                )->0) as u8,
        decreases 32 - i,
    {
        let high = match hex_digit(b[2 * i]) {
            Some(h) => h,
            None => {
                assert(hex_value(b@[2 * i as int]) is None);
                return None;
            },
        };
        let low = match hex_digit(b[2 * i + 1]) {
            Some(l) => l,
            None => {
                assert(hex_value(b@[2 * i + 1]) is None);
                return None;
            },
        };
        assert(high < 16 && low < 16);
        let v = (high << 4) | low;
        assert(v == high * 16 + low) by (bit_vector)
            requires
                high < 16,
                low < 16,
                v == (high << 4) | low,
        ;
        out[i] = v;
        i = i + 1;
    }
    assert(out@ =~= hex_decoded(b@)->0);
    Some(out)
}

/// Law: the string that `hex_encode` produces is ASCII, and decoding its
/// bytes gives back the token (round trip).
pub proof fn lemma_hex_round_trip(t: Seq<u8>)
    requires
        t.len() == 32,
    ensures
        is_ascii_chars(hex_string(t)),
        hex_decoded(ascii_bytes(hex_string(t))) == Some(t),
{
    let s = hex_string(t);
    let b = ascii_bytes(s);
    assert forall|i: int| 0 <= i < s.len() implies (#[trigger] s[i] as nat) < 128 by {
        let n = if i % 2 == 0 { t[i / 2] as int / 16 } else { t[i / 2] as int % 16 };
        assert(0 <= n < 16);
    }
    assert forall|i: int| 0 <= i < 64 implies (#[trigger] hex_value(b[i])) is Some by {
        let n = if i % 2 == 0 { t[i / 2] as int / 16 } else { t[i / 2] as int % 16 };
        assert(0 <= n < 16);
    }
    assert forall|i: int| 0 <= i < 32 implies (hex_value(b[2 * i])->0 * 16 + hex_value(
        b[2 * i + 1],
    )->0) as u8 == t[i] by {
        assert((2 * i) / 2 == i);
        assert((2 * i + 1) / 2 == i);
        assert((2 * i) % 2 == 0);
        assert((2 * i + 1) % 2 == 1);
        let x = t[i];
        assert(hex_value(b[2 * i])->0 == x / 16);
        assert(hex_value(b[2 * i + 1])->0 == x % 16);
        assert((x / 16) * 16 + x % 16 == x) by (nonlinear_arith);
    }
    assert(hex_decoded(b)->0 =~= t);
}

} // verus!
