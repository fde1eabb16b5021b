use vstd::prelude::*;
use vstd::string::StringSliceAdditionalSpecFns;

verus! {

#[verifier::external_type_specification]
#[verifier::external_body]
pub struct ExFromHexError(hex::FromHexError);

/// An 8-bit RGBA colour.
#[derive(Debug, Clone, Copy, PartialEq, Eq, Structural)]
pub struct Color {
    pub r: u8,
    pub g: u8,
    pub b: u8,
    pub a: u8,
}

/// The value of an ASCII hex digit, either case.
pub open spec fn hex_digit(c: u8) -> Option<nat> {
    if 0x30 <= c <= 0x39 {
        Some((c - 0x30) as nat)
    } else if 0x61 <= c <= 0x66 {
        Some((c - 0x61 + 10) as nat)
    } else if 0x41 <= c <= 0x46 {
        Some((c - 0x41 + 10) as nat)
    } else {
        None
    }
}

/// An even number of hex digits.
pub open spec fn is_hex_text(text: Seq<u8>) -> bool {
    &&& text.len() % 2 == 0
    &&& forall|i: int| 0 <= i < text.len() ==> (#[trigger] hex_digit(text[i])) is Some
}

/// The bytes that hex text spells, high digit first.
pub open spec fn hex_bytes(text: Seq<u8>) -> Seq<u8> {
    Seq::new(
        text.len() / 2,
        |i: int| (16 * hex_digit(text[2 * i])->0 + hex_digit(text[2 * i + 1])->0) as u8,
    )
}

/// Relies on hex::decode: it accepts exactly an even number of hex digits (either
/// case) and gives the byte each pair spells.
#[verifier::external_body]
fn decode_hex(text: &[u8]) -> (r: Result<Vec<u8>, hex::FromHexError>)
    ensures
        r is Ok <==> is_hex_text(text@),
        r matches Ok(bytes) ==> bytes@ == hex_bytes(text@),
{
    hex::decode(text)
}

/// The colour that eight hex digits `rrggbbaa` spell.
pub open spec fn color_of_hex(text: Seq<u8>) -> Color {
    let bytes = hex_bytes(text);
    Color { r: bytes[0], g: bytes[1], b: bytes[2], a: bytes[3] }
}

/// Construction from a hex code.
pub trait FromHex: Sized {
    /// The colour of an eight-digit code `rrggbbaa`.
    fn hex(value: &str) -> Self
        requires
            value.spec_bytes().len() == 8,
    ;
}

impl FromHex for Color {
    /// A code that is not all hex digits gives transparent black.
    fn hex(value: &str) -> (r: Color)
        ensures
            is_hex_text(value.spec_bytes()) ==> r == color_of_hex(value.spec_bytes()),
            !is_hex_text(value.spec_bytes()) ==> r == (Color { r: 0, g: 0, b: 0, a: 0 }),
    {
        match decode_hex(value.as_bytes()) {
            Ok(bytes) => Color { r: bytes[0], g: bytes[1], b: bytes[2], a: bytes[3] },
            Err(_) => Color { r: 0, g: 0, b: 0, a: 0 },
        }
    }
}

} // verus!
