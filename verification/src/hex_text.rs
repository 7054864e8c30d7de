//! Hexadecimal text as the gateway receives it: monitor ids, key images,
//! transaction hashes and keys are all sent as hex strings.

use vstd::prelude::*;
use vstd::utf8::encode_utf8;

use crate::amount::decimal_text;

verus! {

/// Why a hex string could not be decoded (one variant per case the
/// `hex` crate reports).
#[derive(Clone, Copy, Debug, PartialEq, Eq, Structural)]
pub enum HexError {
    /// The byte at `index` is not one of `0-9`, `a-f`, `A-F`; `c` is that
    /// byte taken as a character.
    InvalidHexCharacter { c: char, index: usize },
    /// The text has an odd number of bytes.
    OddLength,
    /// The decoded length did not match a fixed-size target.
    InvalidStringLength,
}

/// The value of one hex digit, or `None` for any other byte.
pub open spec fn hex_digit_value(b: u8) -> Option<u8> {
    if 0x30 <= b <= 0x39 {
        Some((b - 0x30) as u8)
    } else if 0x61 <= b <= 0x66 {
        Some((b - 0x61 + 10) as u8)
    } else if 0x41 <= b <= 0x46 {
        Some((b - 0x41 + 10) as u8)
    } else {
        None
    }
}

pub open spec fn is_hex_digit(b: u8) -> bool {
    hex_digit_value(b) is Some
}

/// `i` is the first position of `data` that holds no hex digit.
pub open spec fn is_first_invalid_hex(data: Seq<u8>, i: int) -> bool {
    &&& 0 <= i < data.len()
    &&& !is_hex_digit(data[i])
    &&& forall|j: int| 0 <= j < i ==> is_hex_digit(#[trigger] data[j])
}

/// The byte that the two hex digits at `2 * k` and `2 * k + 1` stand for.
pub open spec fn hex_pair_value(data: Seq<u8>, k: int) -> u8 {
    (hex_digit_value(data[2 * k]).unwrap() * 16 + hex_digit_value(data[2 * k + 1]).unwrap()) as u8
}

/// Decoding of hex text given as bytes: an odd length is refused first,
/// then the first byte that is no hex digit, else each pair of digits
/// gives one byte (high digit first).
pub open spec fn hex_decode_spec(data: Seq<u8>) -> Result<Seq<u8>, HexError> {
    if data.len() % 2 != 0 {
        Err(HexError::OddLength)
    } else if exists|i: int| 0 <= i < data.len() && !is_hex_digit(#[trigger] data[i]) {
        let i = choose|i: int| is_first_invalid_hex(data, i);
        Err(HexError::InvalidHexCharacter { c: data[i] as char, index: i as usize })
    } else {
        Ok(Seq::new((data.len() / 2) as nat, |k: int| hex_pair_value(data, k)))
    }
}

/// The text of a character in Rust's debug form (quoted, with escapes).
pub uninterp spec fn char_debug_text(c: char) -> Seq<char>;

/// The text that the `hex` crate displays for an invalid character: the
/// character in debug form, then its position in decimal.
pub open spec fn invalid_hex_character_text(c: char, index: usize) -> Seq<char> {
    "Invalid character "@ + char_debug_text(c) + " at position "@ + decimal_text(index as nat)
}

/// The text displayed for each decoding error.
pub open spec fn hex_error_text(e: HexError) -> Seq<char> {
    match e {
        HexError::InvalidHexCharacter { c, index } => invalid_hex_character_text(c, index),
        HexError::OddLength => "Odd number of digits"@,
        HexError::InvalidStringLength => "Invalid string length"@,
    }
}

/// Calls `hex::decode` on the bytes of hex text.  Its contract claims what
/// the `hex` crate's source shows: the length is checked first, then each
/// byte in order, and each pair of digits becomes one byte.
#[verifier::external_body]
fn hex_decode_bytes(data: &[u8]) -> (res: Result<Vec<u8>, HexError>)
    ensures
        match res {
            Ok(bytes) => hex_decode_spec(data@) == Ok::<Seq<u8>, HexError>(bytes@),
            Err(e) => hex_decode_spec(data@) == Err::<Seq<u8>, HexError>(e),
        },
{
    match hex::decode(data) {
        Ok(bytes) => Ok(bytes),
        Err(hex::FromHexError::InvalidHexCharacter { c, index }) => Err(
            HexError::InvalidHexCharacter { c, index },
        ),
        Err(hex::FromHexError::OddLength) => Err(HexError::OddLength),
        Err(hex::FromHexError::InvalidStringLength) => Err(HexError::InvalidStringLength),
    }
}

/// Calls the `Display` impl of `hex::FromHexError`.  Its contract claims
/// what the crate's source writes for each variant; of an invalid
/// character it claims the surrounding words and the decimal position, and
/// names the character's debug form (Rust's quoting and escaping).
#[verifier::external_body]
fn hex_error_display(e: HexError) -> (res: String)
    ensures
        match e {
            HexError::InvalidHexCharacter { c, index } => res@ == "Invalid character "@
                + char_debug_text(c) + " at position "@ + decimal_text(index as nat),
            HexError::OddLength => res@ == "Odd number of digits"@,
            HexError::InvalidStringLength => res@ == "Invalid string length"@,
        },
{
    let err = match e {
        HexError::InvalidHexCharacter { c, index } => hex::FromHexError::InvalidHexCharacter { c, index },
        HexError::OddLength => hex::FromHexError::OddLength,
        HexError::InvalidStringLength => hex::FromHexError::InvalidStringLength,
    };
    format!("{}", err)
}

/// Decodes hex text (its UTF-8 bytes) into raw bytes.
pub fn decode_hex(text: &str) -> (res: Result<Vec<u8>, HexError>)
    ensures
        match res {
            Ok(bytes) => hex_decode_spec(encode_utf8(text@)) == Ok::<Seq<u8>, HexError>(bytes@),
            Err(e) => hex_decode_spec(encode_utf8(text@)) == Err::<Seq<u8>, HexError>(e),
        },
{
    hex_decode_bytes(text.as_bytes())
}

/// The message for a decoding error.
pub fn hex_error_message(e: HexError) -> (res: String)
    ensures
        res@ == hex_error_text(e),
{
    hex_error_display(e)
}

/// The hex digit for a nibble, upper- or lower-case.
pub open spec fn hex_digit(n: u8, upper: bool) -> u8 {
    if n < 10 {
        (0x30 + n) as u8
    } else if upper {
        (0x41 + n - 10) as u8
    } else {
        (0x61 + n - 10) as u8
    }
}

/// Hex text of bytes, two digits per byte, high nibble first, in one case.
pub open spec fn hex_text_of(b: Seq<u8>, upper: bool) -> Seq<u8> {
    Seq::new(
        2 * b.len(),
        |i: int|
            if i % 2 == 0 {
                hex_digit(b[i / 2] / 16, upper)
            } else {
                hex_digit(b[i / 2] % 16, upper)
            },
    )
}

/// Lower-case hex text of bytes (the form in which the gateway's answers
/// carry bytes).
pub open spec fn lower_hex(b: Seq<u8>) -> Seq<u8> {
    hex_text_of(b, false)
}

/// Hex text of bytes in one case, as characters.
pub open spec fn hex_chars_of(b: Seq<u8>, upper: bool) -> Seq<char> {
    hex_text_of(b, upper).map_values(|x: u8| x as char)
}

/// Lower-case hex text as characters.
pub open spec fn lower_hex_text(b: Seq<u8>) -> Seq<char> {
    hex_chars_of(b, false)
}

proof fn lemma_hex_digit_of_nibble(n: u8, upper: bool)
    requires
        n < 16,
    ensures
        hex_digit_value(hex_digit(n, upper)) == Some(n),
{
}

/// The characters of hex text are ASCII, so its UTF-8 bytes are its digits.
pub proof fn lemma_hex_chars_bytes(b: Seq<u8>, upper: bool)
    ensures
        encode_utf8(hex_chars_of(b, upper)) == hex_text_of(b, upper),
{
    let t = hex_chars_of(b, upper);
    let h = hex_text_of(b, upper);
    assert forall|i: int| 0 <= i < h.len() implies #[trigger] h[i] < 0x80 by {
        let n = if i % 2 == 0 { b[i / 2] / 16 } else { b[i / 2] % 16 };
        assert(n < 16);
    }
    assert(vstd::utf8::is_ascii_chars(t));
    vstd::utf8::is_ascii_chars_encode_utf8(t);
    assert forall|i: int| 0 <= i < h.len() implies #[trigger] encode_utf8(t)[i] == h[i] by {
        assert(t[i] as u8 == h[i]);
    }
    assert(encode_utf8(t) =~= h);
}

/// The same for lower-case text.
pub proof fn lemma_lower_hex_text_bytes(b: Seq<u8>)
    ensures
        encode_utf8(lower_hex_text(b)) == lower_hex(b),
{
    lemma_hex_chars_bytes(b, false);
}

/// Law: hex text of any bytes, in either case, decodes back to those bytes
/// (upper-case digits are read as the lower-case ones).
pub proof fn lemma_hex_round_trip(b: Seq<u8>, upper: bool)
    ensures
        hex_decode_spec(hex_text_of(b, upper)) == Ok::<Seq<u8>, HexError>(b),
{
    let h = hex_text_of(b, upper);
    assert(h.len() % 2 == 0);
    assert forall|i: int| 0 <= i < h.len() implies is_hex_digit(#[trigger] h[i]) by {
        let n = if i % 2 == 0 { b[i / 2] / 16 } else { b[i / 2] % 16 };
        lemma_hex_digit_of_nibble(n, upper);
    }
    assert forall|k: int| 0 <= k < b.len() implies #[trigger] hex_pair_value(h, k) == b[k] by {
        assert((2 * k) / 2 == k);
        assert((2 * k + 1) / 2 == k);
        assert((2 * k) % 2 == 0);
        assert((2 * k + 1) % 2 == 1);
        lemma_hex_digit_of_nibble(b[k] / 16, upper);
        lemma_hex_digit_of_nibble(b[k] % 16, upper);
    }
    assert(Seq::new((h.len() / 2) as nat, |k: int| hex_pair_value(h, k)) =~= b);
}

} // verus!
