//! Hexadecimal attribute values: an exact character-level model of the `hex`
//! crate's `encode` and `decode`, and the round trip between them.

use vstd::prelude::*;

verus! {

pub open spec fn is_hex_digit(c: char) -> bool {
    ('0' <= c && c <= '9') || ('a' <= c && c <= 'f') || ('A' <= c && c <= 'F')
}

pub open spec fn hex_digit_value(c: char) -> nat {
    if '0' <= c && c <= '9' {
        (c as nat - '0' as nat) as nat
    } else if 'a' <= c && c <= 'f' {
        (c as nat - 'a' as nat + 10) as nat
    } else {
        (c as nat - 'A' as nat + 10) as nat
    }
}

/// A string decodes as hex exactly when its length is even and every
/// character is a hex digit (either case).
pub open spec fn spec_hex_valid(s: Seq<char>) -> bool {
    s.len() % 2 == 0 && forall|i: int| 0 <= i < s.len() ==> is_hex_digit(#[trigger] s[i])
}

pub open spec fn spec_hex_decode(s: Seq<char>) -> Seq<u8> {
    Seq::new(
        s.len() / 2,
        |i: int| (hex_digit_value(s[2 * i]) * 16 + hex_digit_value(s[2 * i + 1])) as u8,
    )
}

/// The lowercase digit for a value below sixteen.
pub open spec fn hex_char_lower(n: nat) -> char {
    if n == 0 {
        '0'
    } else if n == 1 {
        '1'
    } else if n == 2 {
        '2'
    } else if n == 3 {
        '3'
    } else if n == 4 {
        '4'
    } else if n == 5 {
        '5'
    } else if n == 6 {
        '6'
    } else if n == 7 {
        '7'
    } else if n == 8 {
        '8'
    } else if n == 9 {
        '9'
    } else if n == 10 {
        'a'
    } else if n == 11 {
        'b'
    } else if n == 12 {
        'c'
    } else if n == 13 {
        'd'
    } else if n == 14 {
        'e'
    } else {
        'f'
    }
}

pub open spec fn spec_hex_encode(b: Seq<u8>) -> Seq<char> {
    Seq::new(
        2 * b.len(),
        |i: int|
            if i % 2 == 0 {
                hex_char_lower(b[i / 2] as nat / 16)
            } else {
                hex_char_lower(b[i / 2] as nat % 16)
            },
    )
}

/// Relies on `hex::decode`: it succeeds exactly on even-length strings of hex
/// digits of either case, pairing the digits high-nibble first.
#[verifier::external_body]
pub fn hex_decode(s: &str) -> (r: Option<Vec<u8>>)
    ensures
        match r {
            Some(b) => spec_hex_valid(s@) && b@ == spec_hex_decode(s@),
            None => !spec_hex_valid(s@),
        },
{
    match hex::decode(s) {
        Ok(v) => Some(v),
        Err(_) => None,
    }
}

/// Relies on `hex::encode`: two lowercase hex digits per byte, high nibble
/// first.
#[verifier::external_body]
pub fn hex_encode(b: &Vec<u8>) -> (r: String)
    ensures
        r@ == spec_hex_encode(b@),
{
    hex::encode(b)
}

proof fn lemma_hex_digit_round_trip(n: nat)
    requires
        n < 16,
    ensures
        is_hex_digit(hex_char_lower(n)),
        hex_digit_value(hex_char_lower(n)) == n,
{
}

/// Encoding bytes as hex and decoding the result gives the bytes back.
pub proof fn lemma_hex_round_trip(b: Seq<u8>)
    ensures
        spec_hex_valid(spec_hex_encode(b)),
        spec_hex_decode(spec_hex_encode(b)) == b,
{
    let e = spec_hex_encode(b);
    assert forall|i: int| 0 <= i < e.len() implies is_hex_digit(#[trigger] e[i]) by {
        if i % 2 == 0 {
            lemma_hex_digit_round_trip(b[i / 2] as nat / 16);
        } else {
            lemma_hex_digit_round_trip(b[i / 2] as nat % 16);
        }
    }
    assert forall|i: int| 0 <= i < b.len() implies spec_hex_decode(e)[i] == b[i] by {
        assert(e[2 * i] == hex_char_lower(b[i] as nat / 16));
        assert(e[2 * i + 1] == hex_char_lower(b[i] as nat % 16));
        lemma_hex_digit_round_trip(b[i] as nat / 16);
        lemma_hex_digit_round_trip(b[i] as nat % 16);
        assert(b[i] as nat / 16 * 16 + b[i] as nat % 16 == b[i] as nat) by {
            vstd::arithmetic::div_mod::lemma_fundamental_div_mod(b[i] as int, 16);
        }
    }
    assert(spec_hex_decode(e) =~= b);
}

} // verus!
