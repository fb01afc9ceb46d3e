//! Hexadecimal key text.
//!
//! Keys cross the configuration surface as hex strings: a secret key handed
//! in by the operator, and the public key of each bootstrap node. The public
//! key is also advertised in the log as uppercase hex. Both directions are
//! specified exactly, digit by digit.

use vstd::prelude::*;

verus! {

/// A hexadecimal digit, either case.
pub open spec fn is_hex_digit(c: char) -> bool {
    ('0' <= c && c <= '9') || ('a' <= c && c <= 'f') || ('A' <= c && c <= 'F')
}

/// The value of one hexadecimal digit.
pub open spec fn hex_digit_value(c: char) -> int {
    if '0' <= c && c <= '9' {
        c as int - '0' as int
    } else if 'a' <= c && c <= 'f' {
        c as int - 'a' as int + 10
    } else {
        c as int - 'A' as int + 10
    }
}

/// A well-formed hex string: an even number of hex digits.
pub open spec fn is_hex_string(s: Seq<char>) -> bool {
    s.len() % 2 == 0 && forall|i: int| 0 <= i < s.len() ==> is_hex_digit(#[trigger] s[i])
}

/// The bytes a hex string denotes, two digits per byte, high digit first.
pub open spec fn hex_bytes(s: Seq<char>) -> Seq<u8>
    decreases s.len(),
{
    if s.len() < 2 {
        Seq::empty()
    } else {
        seq![(hex_digit_value(s[0]) * 16 + hex_digit_value(s[1])) as u8] + hex_bytes(s.skip(2))
    }
}

/// The uppercase hex digit for a value below 16.
pub open spec fn upper_hex_digit(v: int) -> char {
    if v == 0 {
        '0'
    } else if v == 1 {
        '1'
    } else if v == 2 {
        '2'
    } else if v == 3 {
        '3'
    } else if v == 4 {
        '4'
    } else if v == 5 {
        '5'
    } else if v == 6 {
        '6'
    } else if v == 7 {
        '7'
    } else if v == 8 {
        '8'
    } else if v == 9 {
        '9'
    } else if v == 10 {
        'A'
    } else if v == 11 {
        'B'
    } else if v == 12 {
        'C'
    } else if v == 13 {
        'D'
    } else if v == 14 {
        'E'
    } else {
        'F'
    }
}

/// The uppercase hex text of a byte sequence, two digits per byte.
pub open spec fn hex_upper_chars(b: Seq<u8>) -> Seq<char>
    decreases b.len(),
{
    if b.len() == 0 {
        Seq::empty()
    } else {
        seq![upper_hex_digit(b[0] as int / 16), upper_hex_digit(b[0] as int % 16)]
            + hex_upper_chars(b.skip(1))
    }
}

/// An uppercase hex digit is a hex digit, and it denotes the value it was
/// made from.
proof fn lemma_upper_hex_digit(v: int)
    requires
        0 <= v < 16,
    ensures
        is_hex_digit(upper_hex_digit(v)),
        hex_digit_value(upper_hex_digit(v)) == v,
{
}

/// Formatting then parsing is the identity: the uppercase hex text of any
/// byte sequence is a well-formed hex string, two digits per byte, and it
/// denotes exactly those bytes.
pub proof fn lemma_hex_round_trip(b: Seq<u8>)
    ensures
        hex_upper_chars(b).len() == 2 * b.len(),
        is_hex_string(hex_upper_chars(b)),
        hex_bytes(hex_upper_chars(b)) == b,
    decreases b.len(),
{
    let t = hex_upper_chars(b);
    if b.len() == 0 {
        assert(hex_bytes(t) =~= b);
    } else {
        lemma_upper_hex_digit(b[0] as int / 16);
        lemma_upper_hex_digit(b[0] as int % 16);
        lemma_hex_round_trip(b.skip(1));
        assert(t.skip(2) =~= hex_upper_chars(b.skip(1)));
        assert(b[0] as int == (b[0] as int / 16) * 16 + (b[0] as int % 16));
        assert(hex_bytes(t) =~= b);
    }
}

/// Relies on hex::decode: it succeeds exactly on strings of an even number
/// of hex digits of either case, and returns the denoted bytes, two digits
/// per byte, high digit first.
#[verifier::external_body]
fn hex_decode_raw(s: &str) -> (r: Result<Vec<u8>, ()>)
    ensures
        match r {
            Ok(bytes) => is_hex_string(s@) && bytes@ == hex_bytes(s@),
            Err(_) => !is_hex_string(s@),
        },
{
    hex::decode(s).map_err(|_| ())
}

/// Relies on hex::encode_upper: the uppercase hex text of the bytes, two
/// digits per byte, high digit first.
#[verifier::external_body]
fn hex_encode_upper_raw(bytes: &Vec<u8>) -> (r: String)
    ensures
        r@ == hex_upper_chars(bytes@),
{
    hex::encode_upper(bytes.as_slice())
}

/// Why key text was rejected.
#[derive(Clone, Copy, Debug, PartialEq, Eq)]
pub enum KeyTextError {
    /// The text is not a well-formed hex string.
    NotHex,
    /// The text is well-formed hex but not of a key's 32 bytes.
    WrongLength,
}

/// Parse the hex text of one key: exactly 64 hex digits of either case.
/// Succeeds exactly on such strings and returns the key's 32 bytes.
pub fn parse_key_hex(s: &str) -> (r: Result<Vec<u8>, KeyTextError>)
    ensures
        match r {
            Ok(bytes) => {
                &&& is_hex_string(s@)
                &&& bytes@ == hex_bytes(s@)
                &&& bytes@.len() == crate::keys::PUBLIC_KEY_SIZE
            },
            Err(KeyTextError::NotHex) => !is_hex_string(s@),
            Err(KeyTextError::WrongLength) => is_hex_string(s@) && hex_bytes(s@).len()
                != crate::keys::PUBLIC_KEY_SIZE,
        },
{
    match hex_decode_raw(s) {
        Ok(bytes) => {
            if bytes.len() == crate::keys::PUBLIC_KEY_SIZE {
                Ok(bytes)
            } else {
                Err(KeyTextError::WrongLength)
            }
        },
        Err(_) => Err(KeyTextError::NotHex),
    }
}

/// The uppercase hex text a key is advertised as in the log.
pub fn format_key_hex(bytes: &Vec<u8>) -> (r: String)
    ensures
        r@ == hex_upper_chars(bytes@),
{
    hex_encode_upper_raw(bytes)
}

} // verus!
