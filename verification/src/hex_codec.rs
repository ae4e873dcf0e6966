//! Hexadecimal text, as the `hex` and `rustc-hex` crates read and write it.
//!
//! The two crates do the work. What they return is stated here over the bytes
//! of the text, so that the callers' contracts can be proved from it.

use vstd::prelude::*;
use vstd::string::StringSliceAdditionalSpecFns;
use vstd::utf8::{decode_first_scalar, encode_utf8, is_ascii_chars, is_ascii_chars_encode_utf8};
use rustc_hex::{FromHex, ToHex};

verus! {

/// Why `hex` refused a text.
#[derive(Clone, Copy, Debug, PartialEq, Eq, Structural)]
pub enum FromHexError {
    /// A byte that is no hexadecimal digit, as a character, and its place.
    InvalidHexCharacter { c: char, index: usize },
    /// The text has an odd number of bytes.
    OddLength,
    /// The text does not fill a container of fixed size.
    InvalidStringLength,
}

/// Why `rustc-hex` refused a text.
#[derive(Clone, Copy, Debug, PartialEq, Eq, Structural)]
pub enum FromHexTextError {
    /// A character that is neither a hexadecimal digit nor blank, and the
    /// place of its first byte.
    InvalidHexCharacter(char, usize),
    /// The text has an odd number of digits.
    InvalidHexLength,
}

impl FromHexTextError {
    /// The character that was refused and its place, if one was.
    pub open spec fn stray(self) -> Option<(char, usize)> {
        match self {
            FromHexTextError::InvalidHexCharacter(c, index) => Some((c, index)),
            FromHexTextError::InvalidHexLength => None,
        }
    }
}

/// The words in which `rustc-hex` reports an error: of the character that it
/// refused and its place, or, with `None`, of a wrong length.
pub uninterp spec fn hex_text_error_words(stray: Option<(char, usize)>) -> Seq<char>;

/// Whether `byte` is one of `0` to `9`, `a` to `f` or `A` to `F`.
pub open spec fn is_hex_digit(byte: u8) -> bool {
    ||| 0x30 <= byte <= 0x39
    ||| 0x41 <= byte <= 0x46
    ||| 0x61 <= byte <= 0x66
}

/// Whether `byte` is a space, a carriage return, a line feed or a tab.
pub open spec fn is_hex_blank(byte: u8) -> bool {
    byte == 0x20 || byte == 0x0d || byte == 0x0a || byte == 0x09
}

/// The number that the hexadecimal digit `byte` stands for.
pub open spec fn hex_digit_value(byte: u8) -> u8
    recommends
        is_hex_digit(byte),
{
    if 0x30 <= byte <= 0x39 {
        (byte - 0x30) as u8
    } else if 0x41 <= byte <= 0x46 {
        (byte - 0x41 + 10) as u8
    } else {
        (byte - 0x61 + 10) as u8
    }
}

/// The lower-case hexadecimal digit for `nibble`.
pub open spec fn hex_digit_char(nibble: u8) -> char
    recommends
        nibble < 16,
{
    if nibble < 10 {
        (0x30 + nibble) as u8 as char
    } else {
        (0x61 + nibble - 10) as u8 as char
    }
}

/// The place of the first byte of `data` that may not stand in a hexadecimal
/// text, or the length of `data` if there is none. Blanks may stand in it
/// only where `blanks_pass`.
pub open spec fn first_stray(data: Seq<u8>, blanks_pass: bool) -> int
    decreases data.len(),
{
    if data.len() == 0 {
        0
    } else if is_hex_digit(data[0]) || (blanks_pass && is_hex_blank(data[0])) {
        1 + first_stray(data.drop_first(), blanks_pass)
    } else {
        0
    }
}

/// The bytes that the digits spell, two digits to a byte, the high one first.
pub open spec fn bytes_of_digits(digits: Seq<u8>) -> Seq<u8> {
    Seq::new(
        digits.len() / 2,
        |i: int| (16 * hex_digit_value(digits[2 * i]) + hex_digit_value(digits[2 * i + 1])) as u8,
    )
}

/// The text that spells `bytes`: two lower-case digits for each byte, the
/// high one first.
pub open spec fn hex_text(bytes: Seq<u8>) -> Seq<char> {
    Seq::new(
        2 * bytes.len(),
        |i: int|
            hex_digit_char(
                if i % 2 == 0 {
                    bytes[i / 2] / 16
                } else {
                    bytes[i / 2] % 16
                },
            ),
    )
}

/// What `hex` makes of a text of the bytes `data`. A text of odd length is
/// refused as such. Else the first byte that is no digit is refused. Else
/// the digits spell the result.
pub open spec fn strictly_decoded(data: Seq<u8>) -> Result<Seq<u8>, FromHexError> {
    let stray = first_stray(data, false);
    if data.len() % 2 != 0 {
        Err(FromHexError::OddLength)
    } else if stray < data.len() {
        Err(FromHexError::InvalidHexCharacter { c: data[stray] as char, index: stray as usize })
    } else {
        Ok(bytes_of_digits(data))
    }
}

/// What `rustc-hex` makes of a text of the bytes `data`. Blanks are passed
/// over. The first character that is neither digit nor blank is refused.
/// Else an odd number of digits is refused. Else the digits spell the result.
pub open spec fn leniently_decoded(data: Seq<u8>) -> Result<Seq<u8>, FromHexTextError> {
    let stray = first_stray(data, true);
    let digits = data.filter(|byte: u8| is_hex_digit(byte));
    if stray < data.len() {
        Err(
            FromHexTextError::InvalidHexCharacter(
                decode_first_scalar(data.skip(stray)) as char,
                stray as usize,
            ),
        )
    } else if digits.len() % 2 != 0 {
        Err(FromHexTextError::InvalidHexLength)
    } else {
        Ok(bytes_of_digits(digits))
    }
}

/// A run of digits holds no stray byte, and holds nothing but its digits.
pub proof fn lemma_digits_alone(data: Seq<u8>, blanks_pass: bool)
    requires
        forall|i: int| 0 <= i < data.len() ==> is_hex_digit(#[trigger] data[i]),
    ensures
        first_stray(data, blanks_pass) == data.len(),
        data.filter(|byte: u8| is_hex_digit(byte)) == data,
    decreases data.len(),
{
    if data.len() > 0 {
        lemma_digits_alone(data.drop_first(), blanks_pass);
        lemma_digits_alone(data.drop_last(), blanks_pass);
        assert(data.drop_last().push(data.last()) =~= data);
        data.drop_last().lemma_filter_push(data.last(), |byte: u8| is_hex_digit(byte));
    } else {
        reveal(Seq::filter);
    }
}

/// The text that spells some bytes is made of digits, one byte each, and
/// both crates read those bytes back from it.
pub proof fn lemma_hex_text_is_read_back(bytes: Seq<u8>)
    ensures
        is_ascii_chars(hex_text(bytes)),
        encode_utf8(hex_text(bytes)).len() == 2 * bytes.len(),
        strictly_decoded(encode_utf8(hex_text(bytes))) == Ok::<Seq<u8>, FromHexError>(bytes),
        leniently_decoded(encode_utf8(hex_text(bytes))) == Ok::<Seq<u8>, FromHexTextError>(bytes),
{
    let text = hex_text(bytes);
    let digits = encode_utf8(text);
    assert(is_ascii_chars(text));
    is_ascii_chars_encode_utf8(text);
    assert forall|i: int| 0 <= i < digits.len() implies is_hex_digit(#[trigger] digits[i]) by {
        assert(digits[i] == text[i] as u8);
    }
    lemma_digits_alone(digits, false);
    lemma_digits_alone(digits, true);
    assert forall|i: int| 0 <= i < bytes.len() implies #[trigger] bytes_of_digits(digits)[i]
        == bytes[i] by {
        assert(digits[2 * i] == text[2 * i] as u8);
        assert(digits[2 * i + 1] == text[2 * i + 1] as u8);
        assert(hex_digit_value(digits[2 * i]) == bytes[i] / 16);
        assert(hex_digit_value(digits[2 * i + 1]) == bytes[i] % 16);
    }
    assert(bytes_of_digits(digits) =~= bytes);
}

/// Whether `result` holds what `expected` says: the same error, or bytes
/// with the expected contents.
pub open spec fn holds<E>(result: Result<Vec<u8>, E>, expected: Result<Seq<u8>, E>) -> bool {
    match result {
        Ok(bytes) => expected == Ok::<Seq<u8>, E>(bytes@),
        Err(error) => expected == Err::<Seq<u8>, E>(error),
    }
}

/// `hex::decode` on a slice of bytes. The contract claims what the crate's
/// `from_hex` for `Vec<u8>` does: it tests the length first, then turns each
/// pair of bytes into one, stopping at the first byte that is no digit, which
/// it reports as the character of that number together with its index.
#[verifier::external_body]
pub(crate) fn hex_decode(data: &[u8]) -> (result: Result<Vec<u8>, FromHexError>)
    ensures
        holds(result, strictly_decoded(data@)),
{
    match hex::decode(data) {
        Ok(bytes) => Ok(bytes),
        Err(hex::FromHexError::InvalidHexCharacter { c, index }) => Err(
            FromHexError::InvalidHexCharacter { c, index },
        ),
        Err(hex::FromHexError::OddLength) => Err(FromHexError::OddLength),
        Err(hex::FromHexError::InvalidStringLength) => Err(FromHexError::InvalidStringLength),
    }
}

/// `rustc_hex::FromHex::from_hex` on a string. The contract claims what the
/// crate's iterator over the bytes of the string does: it passes over
/// blanks, packs two digits into a byte, and stops at the first other byte,
/// which it reports as the character that starts there together with the
/// byte's index; digits left over at the end are a length error.
#[verifier::external_body]
pub(crate) fn text_from_hex(text: &str) -> (result: Result<Vec<u8>, FromHexTextError>)
    ensures
        holds(result, leniently_decoded(text.spec_bytes())),
{
    match text.from_hex::<Vec<u8>>() {
        Ok(bytes) => Ok(bytes),
        Err(rustc_hex::FromHexError::InvalidHexCharacter(c, index)) => Err(
            FromHexTextError::InvalidHexCharacter(c, index),
        ),
        Err(rustc_hex::FromHexError::InvalidHexLength) => Err(FromHexTextError::InvalidHexLength),
    }
}

/// `rustc_hex::ToHex::to_hex` on a slice of bytes. The contract claims what
/// the crate's iterator does: for each byte the digit of its high four bits,
/// then that of its low four bits, out of `0123456789abcdef`.
#[verifier::external_body]
pub(crate) fn text_to_hex(bytes: &[u8]) -> (text: String)
    ensures
        text@ == hex_text(bytes@),
{
    bytes.to_hex::<String>()
}

/// `to_string` on a `rustc_hex::FromHexError`, which goes through the impl
/// of `Display` that the crate gives its error. The contract names the words;
/// they depend on the error alone.
#[verifier::external_body]
pub(crate) fn text_error_to_string(error: FromHexTextError) -> (words: String)
    ensures
        words@ == hex_text_error_words(error.stray()),
{
    let outside = match error {
        FromHexTextError::InvalidHexCharacter(c, index) => {
            rustc_hex::FromHexError::InvalidHexCharacter(c, index)
        },
        FromHexTextError::InvalidHexLength => rustc_hex::FromHexError::InvalidHexLength,
    };
    outside.to_string()
}

} // verus!
