//! Byte payloads on the wire: base64 text where people read the format, raw bytes elsewhere. Both
//! forms, and a plain list of bytes, are read back.
use base64::Engine;
use vstd::prelude::*;
use vstd::string::*;
use crate::model::StageError;
use crate::text::{decimal, size_text};

verus! {

/// What is wrong with a base64 text.
#[derive(Debug, Clone, Copy, PartialEq, Eq, Structural)]
pub enum Base64Fault {
    InvalidByte(usize, u8),
    InvalidLength(usize),
    InvalidLastSymbol(usize, u8),
    InvalidPadding,
}

/// The character for a number below 64: the upper-case letters, the lower-case ones, the digits,
/// then `+` and `/`.
pub open spec fn symbol(value: int) -> char {
    if value < 26 {
        (value + 65) as char
    } else if value < 52 {
        (value + 71) as char
    } else if value < 62 {
        (value - 4) as char
    } else if value == 62 {
        '+'
    } else {
        '/'
    }
}

/// The base64 text of bytes: four characters for each three bytes, six bits each. What is left
/// over at the end gives two characters for one byte or three for two, and is padded with `=`.
pub open spec fn encoded(bytes: Seq<u8>) -> Seq<char>
    decreases bytes.len(),
{
    let (a, b, c) = (bytes[0] as int, bytes[1] as int, bytes[2] as int);
    if bytes.len() == 0 {
        Seq::empty()
    } else if bytes.len() == 1 {
        seq![symbol(a / 4), symbol(a % 4 * 16), '=', '=']
    } else if bytes.len() == 2 {
        seq![symbol(a / 4), symbol(a % 4 * 16 + b / 16), symbol(b % 16 * 4), '=']
    } else {
        seq![
            symbol(a / 4),
            symbol(a % 4 * 16 + b / 16),
            symbol(b % 16 * 4 + c / 64),
            symbol(c % 64),
        ] + encoded(bytes.skip(3))
    }
}

/// The bytes that a base64 text stands for, or what is wrong with it.
pub uninterp spec fn decoded(text: Seq<char>) -> Result<Seq<u8>, Base64Fault>;

/// The length of the base64 text of `count` bytes: four characters for each three bytes, the last
/// ones padded.
pub open spec fn encoded_length(count: nat) -> nat {
    (count + 2) / 3 * 4
}

/// Whether a base64 text decodes to the given bytes.
pub open spec fn reads_back(text: Seq<char>, bytes: Seq<u8>) -> bool {
    decoded(text) matches Ok(back) && back == bytes
}

/// A base64 text has the length of the padded text.
pub proof fn lemma_encoded_length(bytes: Seq<u8>)
    ensures
        encoded(bytes).len() == encoded_length(bytes.len()),
    decreases bytes.len(),
{
    if bytes.len() >= 3 {
        lemma_encoded_length(bytes.skip(3));
    }
}

/// Calls `base64::Engine::encode` on `base64::engine::general_purpose::STANDARD`. The result is the
/// padded text in the standard alphabet, as [`encoded`] spells it out, and decodes to the bytes.
#[verifier::external_body]
fn encode_base64(bytes: &[u8]) -> (r: String)
    requires
        encoded_length(bytes@.len()) <= isize::MAX,
    ensures
        r@ == encoded(bytes@),
        reads_back(r@, bytes@),
{
    base64::engine::general_purpose::STANDARD.encode(bytes)
}

/// Calls `base64::Engine::decode` on `base64::engine::general_purpose::STANDARD`. The result, the
/// bytes or the variant of `base64::DecodeError` with its fields, is named by [`decoded`].
#[verifier::external_body]
fn decode_base64(text: &str) -> (r: Result<Vec<u8>, Base64Fault>)
    ensures
        match r {
            Ok(bytes) => decoded(text@) matches Ok(named) && named == bytes@,
            Err(fault) => decoded(text@) matches Err(named) && named == fault,
        },
{
    base64::engine::general_purpose::STANDARD.decode(text).map_err(|error| match error {
        base64::DecodeError::InvalidByte(at, byte) => Base64Fault::InvalidByte(at, byte),
        base64::DecodeError::InvalidLength(length) => Base64Fault::InvalidLength(length),
        base64::DecodeError::InvalidLastSymbol(at, byte) => Base64Fault::InvalidLastSymbol(at, byte),
        base64::DecodeError::InvalidPadding => Base64Fault::InvalidPadding,
    })
}

impl Base64Fault {
    /// The sentence that tells of the fault.
    pub open spec fn sentence(self) -> Seq<char> {
        match self {
            Base64Fault::InvalidByte(at, byte) => "Invalid symbol "@ + crate::text::dec(
                byte as nat,
            ) + ", offset "@ + crate::text::dec(at as nat) + "."@,
            Base64Fault::InvalidLength(length) => "Invalid input length: "@ + crate::text::dec(
                length as nat,
            ),
            Base64Fault::InvalidLastSymbol(at, byte) => "Invalid last symbol "@ + crate::text::dec(
                byte as nat,
            ) + ", offset "@ + crate::text::dec(at as nat) + "."@,
            Base64Fault::InvalidPadding => "Invalid padding"@,
        }
    }

    /// The fault as an error.
    pub fn to_error(self) -> (r: StageError)
        ensures
            r@ == self.sentence(),
    {
        match self {
            Base64Fault::InvalidByte(at, byte) => StageError::new(
                "Invalid symbol ".to_owned().concat(decimal(byte as u64).as_str()).concat(
                    ", offset ",
                ).concat(size_text(at).as_str()).concat("."),
            ),
            Base64Fault::InvalidLength(length) => StageError::new(
                "Invalid input length: ".to_owned().concat(size_text(length).as_str()),
            ),
            Base64Fault::InvalidLastSymbol(at, byte) => StageError::new(
                "Invalid last symbol ".to_owned().concat(decimal(byte as u64).as_str()).concat(
                    ", offset ",
                ).concat(size_text(at).as_str()).concat("."),
            ),
            Base64Fault::InvalidPadding => StageError::new("Invalid padding".to_owned()),
        }
    }
}

/// Bytes in the form in which they are written: base64 text, or raw.
#[derive(Debug, PartialEq, Eq)]
pub enum WrittenBytes {
    Text(String),
    Raw(Vec<u8>),
}

/// Bytes in a form in which they can be read: base64 text, raw, or a list of bytes.
#[derive(Debug, PartialEq, Eq)]
pub enum ReadBytes {
    Text(String),
    Raw(Vec<u8>),
    List(Vec<u8>),
}

/// What a reader of written bytes meets.
pub open spec fn as_read(written: WrittenBytes) -> ReadBytes {
    match written {
        WrittenBytes::Text(text) => ReadBytes::Text(text),
        WrittenBytes::Raw(bytes) => ReadBytes::Raw(bytes),
    }
}

impl ReadBytes {
    /// The bytes that were read, or what is wrong with them.
    pub open spec fn bytes(self) -> Result<Seq<u8>, Base64Fault> {
        match self {
            ReadBytes::Text(text) => decoded(text@),
            ReadBytes::Raw(bytes) => Ok(bytes@),
            ReadBytes::List(bytes) => Ok(bytes@),
        }
    }
}

/// Writes bytes: as base64 text where the format is read by people, else raw.
pub fn serialize(bytes: &Vec<u8>, human_readable: bool) -> (r: WrittenBytes)
    requires
        human_readable ==> encoded_length(bytes@.len()) <= isize::MAX,
    ensures
        match r {
            WrittenBytes::Text(text) => human_readable && text@ == encoded(bytes@),
            WrittenBytes::Raw(raw) => !human_readable && raw@ == bytes@,
        },
        as_read(r).bytes() matches Ok(back) && back == bytes@,
{
    if human_readable {
        WrittenBytes::Text(encode_base64(bytes))
    } else {
        WrittenBytes::Raw(bytes.clone())
    }
}

/// Reads bytes.
pub fn deserialize(input: ReadBytes) -> (r: Result<Vec<u8>, StageError>)
    ensures
        match input.bytes() {
            Ok(bytes) => r matches Ok(out) && out@ == bytes,
            Err(fault) => crate::model::failure(r) == Some(fault.sentence()),
        },
{
    match input {
        ReadBytes::Text(text) => match decode_base64(text.as_str()) {
            Ok(bytes) => Ok(bytes),
            Err(fault) => Err(fault.to_error()),
        },
        ReadBytes::Raw(bytes) => Ok(bytes),
        ReadBytes::List(bytes) => Ok(bytes),
    }
}

} // verus!
