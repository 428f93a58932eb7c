//! Four-byte device and chip identifiers, and their hexadecimal text form.

use vstd::prelude::*;

verus! {

#[verifier::external_type_specification]
#[verifier::external_body]
pub struct ExFromHexError(hex::FromHexError);

/// A four-byte device or chip identifier.
#[derive(Debug, Clone, Copy, PartialEq, Eq, Hash)]
pub struct Address(pub [u8; 4]);

/// The reserved broadcast address, all bytes `0xff`.
pub fn broadcast() -> (r: Address)
    ensures
        r.0@ == seq![0xffu8, 0xff, 0xff, 0xff],
{
    Address([0xff, 0xff, 0xff, 0xff])
}

/// Whether `c` is an ASCII hexadecimal digit, in either case.
pub open spec fn is_hex_digit(c: char) -> bool {
    ('0' <= c && c <= '9') || ('a' <= c && c <= 'f') || ('A' <= c && c <= 'F')
}

/// The value of a hexadecimal digit.
pub open spec fn hex_value(c: char) -> int {
    if '0' <= c && c <= '9' {
        c as int - '0' as int
    } else if 'a' <= c && c <= 'f' {
        c as int - 'a' as int + 10
    } else {
        c as int - 'A' as int + 10
    }
}

/// The lowercase hexadecimal digit of a value below 16.
pub open spec fn lower_hex_digit(v: int) -> char {
    if v < 10 {
        (v + '0' as int) as char
    } else {
        (v - 10 + 'a' as int) as char
    }
}

/// The text form of a byte sequence: two lowercase digits per byte, high nibble first.
pub open spec fn lower_hex_text(b: Seq<u8>) -> Seq<char> {
    Seq::new(
        2 * b.len(),
        |i: int|
            if i % 2 == 0 {
                lower_hex_digit(b[i / 2] as int / 16)
            } else {
                lower_hex_digit(b[i / 2] as int % 16)
            },
    )
}

/// Whether `s` is the text of four bytes: exactly eight hexadecimal digits.
pub open spec fn is_address_text(s: Seq<char>) -> bool {
    s.len() == 8 && forall|i: int| 0 <= i < 8 ==> is_hex_digit(#[trigger] s[i])
}

/// The bytes that eight hexadecimal digits stand for.
pub open spec fn address_text_bytes(s: Seq<char>) -> Seq<u8> {
    Seq::new(4, |i: int| (hex_value(s[2 * i]) * 16 + hex_value(s[2 * i + 1])) as u8)
}

/// Relies on hex::encode: two lowercase digits for each byte, high nibble first.
#[verifier::external_body]
fn encode_hex4(b: [u8; 4]) -> (r: String)
    ensures
        r@ == lower_hex_text(b@),
{
    hex::encode(b)
}

/// Relies on hex::decode_to_slice into a four-byte buffer: it succeeds exactly on
/// eight hexadecimal digits, and each pair of digits gives one byte, high nibble first.
#[verifier::external_body]
fn decode_hex4(s: &str) -> (r: Result<[u8; 4], hex::FromHexError>)
    ensures
        r is Ok <==> is_address_text(s@),
        r matches Ok(b) ==> b@ == address_text_bytes(s@),
{
    let mut out = [0u8; 4];
    match hex::decode_to_slice(s, &mut out) {
        Ok(()) => Ok(out),
        Err(e) => Err(e),
    }
}

/// The text form of an address parses back to that address; a string that is not
/// eight hexadecimal digits never parses.
pub proof fn lemma_address_text_round_trip(a: Address, s: Seq<char>)
    ensures
        is_address_text(lower_hex_text(a.0@)),
        address_text_bytes(lower_hex_text(a.0@)) == a.0@,
        s.len() != 8 ==> !is_address_text(s),
        (exists|i: int| 0 <= i < s.len() && !is_hex_digit(#[trigger] s[i])) ==> !is_address_text(s),
{
    let t = lower_hex_text(a.0@);
    assert forall|i: int| 0 <= i < 8 implies is_hex_digit(#[trigger] t[i]) by {
        let b = a.0@[i / 2] as int;
        assert(0 <= b / 16 < 16 && 0 <= b % 16 < 16) by (nonlinear_arith)
            requires
                0 <= b < 256,
        ;
    }
    assert forall|i: int| 0 <= i < 4 implies #[trigger] address_text_bytes(t)[i] == a.0@[i] by {
        let b = a.0@[i] as int;
        assert(t[2 * i] == lower_hex_digit(b / 16));
        assert(t[2 * i + 1] == lower_hex_digit(b % 16));
        assert(0 <= b / 16 < 16 && 0 <= b % 16 < 16 && b == (b / 16) * 16 + b % 16)
            by (nonlinear_arith)
            requires
                0 <= b < 256,
        ;
    }
    assert(address_text_bytes(t) =~= a.0@);
}

impl Address {
    /// The text form: eight lowercase hexadecimal digits, no separators.
    pub fn to_string(&self) -> (r: String)
        ensures
            r@ == lower_hex_text(self.0@),
            r@.len() == 8,
    {
        encode_hex4(self.0)
    }

    /// Parses the text form; any string that is not exactly eight hexadecimal
    /// digits (either case) is refused.
    pub fn from_str(s: &str) -> (r: Result<Address, hex::FromHexError>)
        ensures
            r is Ok <==> is_address_text(s@),
            r matches Ok(a) ==> a.0@ == address_text_bytes(s@),
    {
        match decode_hex4(s) {
            Ok(b) => Ok(Address(b)),
            Err(e) => Err(e),
        }
    }
}

} // verus!
