//! A vector of bytes that travels as hexadecimal text.
//!
//! Written out, the bytes are `0x` and two lower-case digits for each byte.
//! Read back by the visitor, the text is held to that form; `from_str` also
//! takes digits without the prefix, and the prefix in upper case.

use vstd::prelude::*;
use std::str::FromStr;
use vstd::slice::slice_subrange;
use vstd::string::{StringExecFns, StringSliceAdditionalSpecFns};
use vstd::utf8::{
    encode_utf8, is_ascii_chars, is_ascii_chars_encode_utf8, is_char_boundary, valid_utf8,
};
use crate::hex_codec::{
    hex_decode, hex_text, hex_text_error_words, lemma_hex_text_is_read_back, leniently_decoded,
    strictly_decoded, text_error_to_string, text_from_hex, text_to_hex, FromHexError,
    FromHexTextError,
};

verus! {

/// The byte of the digit `0`.
pub const DIGIT_ZERO: u8 = 0x30;

/// The byte of the letter `x`.
pub const LOWER_X: u8 = 0x78;

/// The byte of the letter `X`.
pub const UPPER_X: u8 = 0x58;

/// Wrapper structure around vector of bytes.
#[derive(Debug, PartialEq, Eq, Hash)]
pub struct Bytes(pub Vec<u8>);

impl View for Bytes {
    type V = Seq<u8>;

    open spec fn view(&self) -> Seq<u8> {
        self.0@
    }
}

/// Why a text was not read as bytes.
#[derive(Clone, Copy, Debug, PartialEq, Eq, Structural)]
pub enum VisitError {
    /// The text does not begin with `0x`, or its length is odd.
    InvalidFormat,
    /// The text after the prefix is no run of hexadecimal digits.
    InvalidHex(FromHexTextError),
}

impl VisitError {
    /// The message of the error.
    pub open spec fn spec_message(self) -> Seq<char> {
        match self {
            VisitError::InvalidFormat => {
                "Invalid bytes format. Expected a 0x-prefixed hex string with even length"@
            },
            VisitError::InvalidHex(error) => "Invalid hex: "@ + hex_text_error_words(
                error.stray(),
            ),
        }
    }

    /// The message of the error: that the form is wrong, or what was wrong
    /// with the digits.
    pub fn message(&self) -> (message: String)
        ensures
            message@ == self.spec_message(),
    {
        match self {
            VisitError::InvalidFormat => {
                "Invalid bytes format. Expected a 0x-prefixed hex string with even length".to_owned()
            },
            VisitError::InvalidHex(error) => {
                let words = text_error_to_string(*error);
                "Invalid hex: ".to_owned().concat(words.as_str())
            },
        }
    }
}

/// Reads the text form of [`Bytes`].
#[derive(Clone, Copy, Debug)]
pub struct BytesVisitor;

/// Whether `result` holds what `expected` says: the same error, or bytes
/// with the expected contents.
pub open spec fn parsed_as<E>(result: Result<Bytes, E>, expected: Result<Seq<u8>, E>) -> bool {
    match result {
        Ok(bytes) => expected == Ok::<Seq<u8>, E>(bytes@),
        Err(error) => expected == Err::<Seq<u8>, E>(error),
    }
}

/// Whether `text` begins with `0x` or `0X`.
pub open spec fn has_prefix(text: Seq<u8>) -> bool {
    text.len() >= 2 && text[0] == DIGIT_ZERO && (text[1] == LOWER_X || text[1] == UPPER_X)
}

/// `text` without the `0x` or `0X` that it may begin with.
pub open spec fn without_prefix(text: Seq<u8>) -> Seq<u8> {
    if has_prefix(text) {
        text.skip(2)
    } else {
        text
    }
}

/// What a visitor makes of a text of the bytes `text`. The text is to begin
/// with `0x` and to be of even length; what follows the prefix is read as
/// hexadecimal digits, blanks passed over.
pub open spec fn visited(text: Seq<u8>) -> Result<Seq<u8>, VisitError> {
    if text.len() >= 2 && text[0] == DIGIT_ZERO && text[1] == LOWER_X && text.len() % 2 == 0 {
        match leniently_decoded(text.skip(2)) {
            Ok(bytes) => Ok(bytes),
            Err(error) => Err(VisitError::InvalidHex(error)),
        }
    } else {
        Err(VisitError::InvalidFormat)
    }
}

/// A text can be cut behind two leading bytes of one-byte characters.
proof fn lemma_boundary_behind_two_ascii(text: Seq<u8>)
    requires
        valid_utf8(text),
        text.len() >= 2,
        text[0] < 0x80,
        text[1] < 0x80,
    ensures
        is_char_boundary(text, 2),
{
    reveal_with_fuel(vstd::utf8::is_char_boundary, 3);
    reveal_with_fuel(vstd::utf8::valid_utf8, 3);
    let rest = vstd::utf8::pop_first_scalar(text);
    assert(rest =~= text.skip(1));
    assert(rest[0] == text[1]);
}

/// The text that [`Bytes::serialize`] writes for `bytes`.
pub open spec fn serialized(bytes: Seq<u8>) -> Seq<char> {
    seq!['0', 'x'] + hex_text(bytes)
}

/// What is written is read back: from the text of some bytes both `from_str`
/// and the visitor read those bytes.
pub proof fn lemma_written_is_read_back(bytes: Seq<u8>)
    ensures
        strictly_decoded(without_prefix(encode_utf8(serialized(bytes)))) == Ok::<
            Seq<u8>,
            FromHexError,
        >(bytes),
        visited(encode_utf8(serialized(bytes))) == Ok::<Seq<u8>, VisitError>(bytes),
{
    let chars = serialized(bytes);
    let text = encode_utf8(chars);
    let digits = encode_utf8(hex_text(bytes));
    lemma_hex_text_is_read_back(bytes);
    assert(is_ascii_chars(chars));
    is_ascii_chars_encode_utf8(chars);
    is_ascii_chars_encode_utf8(hex_text(bytes));
    assert(text[0] == chars[0] as u8 && text[1] == chars[1] as u8);
    assert forall|i: int| 0 <= i < digits.len() implies text.skip(2)[i] == digits[i] by {
        assert(text[i + 2] == chars[i + 2] as u8);
        assert(digits[i] == hex_text(bytes)[i] as u8);
    }
    assert(text.skip(2) =~= digits);
}

impl Clone for Bytes {
    fn clone(&self) -> (copy: Self)
        ensures
            copy@ == self@,
    {
        Self(self.0.clone())
    }
}

impl Default for Bytes {
    fn default() -> (empty: Self)
        ensures
            empty@ == Seq::<u8>::empty(),
    {
        Self(Vec::new())
    }
}

impl Bytes {
    /// Simple constructor.
    pub fn new(bytes: Vec<u8>) -> (wrapped: Self)
        ensures
            wrapped.0 == bytes,
    {
        Self(bytes)
    }

    /// Convert back to vector
    pub fn into_vec(self) -> (bytes: Vec<u8>)
        ensures
            bytes == self.0,
    {
        self.0
    }

    /// The text that the bytes are written out as: `0x`, then two lower-case
    /// digits for each byte.
    pub fn serialize(&self) -> (text: String)
        ensures
            text@ == serialized(self@),
    {
        let mut text = "0x".to_owned();
        proof {
            reveal_strlit("0x");
            assert(text@ =~= seq!['0', 'x']);
        }
        let digits = text_to_hex(self.0.as_slice());
        text.append(digits.as_str());
        text
    }
}

impl FromStr for Bytes {
    type Err = FromHexError;

    /// Convert from a hexadecimal string representation of bytes: digits of
    /// either case, two to a byte, behind `0x` or `0X` or behind nothing.
    fn from_str(hex_string: &str) -> (result: Result<Self, FromHexError>)
        ensures
            parsed_as(result, strictly_decoded(without_prefix(hex_string.spec_bytes()))),
    {
        let text = hex_string.as_bytes();
        // Remove the "0x" prefix if it exists.
        let digits = if text.len() >= 2 && text[0] == DIGIT_ZERO && (text[1] == LOWER_X || text[1]
            == UPPER_X) {
            slice_subrange(text, 2, text.len())
        } else {
            text
        };
        match hex_decode(digits) {
            Ok(bytes) => Ok(Self(bytes)),
            Err(error) => Err(error),
        }
    }
}

impl BytesVisitor {
    /// What the visitor expects to read.
    pub fn expecting(&self) -> (expected: &'static str)
        ensures
            expected@ == "a 0x-prefixed, hex-encoded vector of bytes"@,
    {
        "a 0x-prefixed, hex-encoded vector of bytes"
    }

    /// Reads bytes from their text form: `0x`, then digits of either case,
    /// two to a byte, with blanks passed over. A text that does not begin
    /// with `0x`, or whose length in bytes is odd, is refused for its form;
    /// one whose digits are refused is refused with their error.
    pub fn visit_str(self, value: &str) -> (result: Result<Bytes, VisitError>)
        ensures
            parsed_as(result, visited(value.spec_bytes())),
    {
        let text = value.as_bytes();
        if text.len() >= 2 && text[0] == DIGIT_ZERO && text[1] == LOWER_X && text.len() % 2 == 0 {
            proof {
                vstd::utf8::encode_utf8_valid_utf8(value@);
                lemma_boundary_behind_two_ascii(value.spec_bytes());
            }
            let (_, digits) = value.split_at(2);
            assert(digits.spec_bytes() =~= value.spec_bytes().skip(2));
            match text_from_hex(digits) {
                Ok(bytes) => Ok(Bytes::new(bytes)),
                Err(error) => Err(VisitError::InvalidHex(error)),
            }
        } else {
            Err(VisitError::InvalidFormat)
        }
    }

    /// Reads bytes from their text form, held in a `String`.
    pub fn visit_string(self, value: String) -> (result: Result<Bytes, VisitError>)
        ensures
            parsed_as(result, visited(encode_utf8(value@))),
    {
        self.visit_str(value.as_str())
    }
}

} // verus!
