//! Trusted entry points to the byte-to-text encodings used when signing
//! and building URLs: lowercase hex, standard base64, and RFC 3986
//! percent-encoding. Hex and percent-encoding are pinned down exactly;
//! base64 is named and bounded.

use vstd::prelude::*;
use vstd::string::StringSliceAdditionalSpecFns;
use base64::Engine;

verus! {

pub open spec fn hex_lower_digit(n: u8) -> char {
    if n == 0 { '0' }
    else if n == 1 { '1' }
    else if n == 2 { '2' }
    else if n == 3 { '3' }
    else if n == 4 { '4' }
    else if n == 5 { '5' }
    else if n == 6 { '6' }
    else if n == 7 { '7' }
    else if n == 8 { '8' }
    else if n == 9 { '9' }
    else if n == 10 { 'a' }
    else if n == 11 { 'b' }
    else if n == 12 { 'c' }
    else if n == 13 { 'd' }
    else if n == 14 { 'e' }
    else { 'f' }
}

pub open spec fn hex_upper_digit(n: u8) -> char {
    if n == 0 { '0' }
    else if n == 1 { '1' }
    else if n == 2 { '2' }
    else if n == 3 { '3' }
    else if n == 4 { '4' }
    else if n == 5 { '5' }
    else if n == 6 { '6' }
    else if n == 7 { '7' }
    else if n == 8 { '8' }
    else if n == 9 { '9' }
    else if n == 10 { 'A' }
    else if n == 11 { 'B' }
    else if n == 12 { 'C' }
    else if n == 13 { 'D' }
    else if n == 14 { 'E' }
    else { 'F' }
}

/// Lowercase hexadecimal: two digits for each byte, in order.
pub open spec fn hex_of(bytes: Seq<u8>) -> Seq<char>
    decreases bytes.len(),
{
    if bytes.len() == 0 {
        Seq::<char>::empty()
    } else {
        seq![hex_lower_digit(bytes[0] / 16), hex_lower_digit(bytes[0] % 16)] + hex_of(
            bytes.skip(1),
        )
    }
}

/// Relies on `hex::encode`: each byte rendered as two lowercase hex
/// digits, in order.
#[verifier::external_body]
pub fn hex_encode(bytes: &[u8]) -> (r: String)
    ensures
        r@ == hex_of(bytes@),
{
    hex::encode(bytes)
}

pub uninterp spec fn base64_of(bytes: Seq<u8>) -> Seq<char>;

/// Relies on the base64 `STANDARD` engine: padded standard-alphabet
/// base64, four characters for every started three-byte group, a
/// function of the bytes alone.
#[verifier::external_body]
pub fn base64_encode(bytes: &[u8]) -> (r: String)
    ensures
        r@ == base64_of(bytes@),
        r@.len() == 4 * ((bytes@.len() + 2) / 3),
{
    base64::engine::general_purpose::STANDARD.encode(bytes)
}

/// The bytes that keep their own character under RFC 3986
/// percent-encoding: ASCII alphanumerics and `-`, `.`, `_`, `~`.
pub open spec fn is_unreserved_byte(b: u8) -> bool {
    (0x30 <= b && b <= 0x39) || (0x41 <= b && b <= 0x5a) || (0x61 <= b && b <= 0x7a) || b == 0x2d
        || b == 0x2e || b == 0x5f || b == 0x7e
}

pub open spec fn pct_byte(b: u8) -> Seq<char> {
    if is_unreserved_byte(b) {
        seq![b as char]
    } else {
        seq!['%', hex_upper_digit(b / 16), hex_upper_digit(b % 16)]
    }
}

/// Percent-encoding of a byte string: unreserved bytes stand for
/// themselves, every other byte becomes `%` and two uppercase hex
/// digits.
pub open spec fn pct_encoded(bytes: Seq<u8>) -> Seq<char>
    decreases bytes.len(),
{
    if bytes.len() == 0 {
        Seq::<char>::empty()
    } else {
        pct_byte(bytes[0]) + pct_encoded(bytes.skip(1))
    }
}

/// Percent-encoding of a string: its UTF-8 bytes, percent-encoded.
pub open spec fn pct_str(s: Seq<char>) -> Seq<char> {
    pct_encoded(vstd::utf8::encode_utf8(s))
}

/// Relies on `urlencoding::encode`: percent-encodes every UTF-8 byte
/// except ASCII alphanumerics and `-`, `.`, `_`, `~`, using uppercase
/// hex digits. Space therefore becomes `%20`, `*` becomes `%2A` and
/// `~` is kept, as the signing algorithms require.
#[verifier::external_body]
pub fn percent_encode(value: &str) -> (r: String)
    ensures
        r@ == pct_str(value@),
{
    urlencoding::encode(value).into_owned()
}

} // verus!
