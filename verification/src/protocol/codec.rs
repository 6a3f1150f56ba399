//! The wire codec. A string on the wire is one type byte, a 16-bit big-endian
//! length and that many bytes of UTF-8; a frame is a destination string
//! followed by a body string.

use bytes::Buf;
use vstd::prelude::*;
use vstd::slice::slice_subrange;
use vstd::string::*;
use vstd::utf8::*;

verus! {

/// The type byte of a string.
pub const TYPE_STRING: u8 = 0x50;

/// The longest payload, in bytes, that a 16-bit length can announce.
pub const MAX_LENGTH: usize = 0xffff;

/// Why bytes could not be decoded, or text not encoded.
#[derive(Clone, Copy, Debug, PartialEq, Eq, Structural)]
pub enum CodecError {
    /// The type byte is not that of a string.
    IllegalType,
    /// The payload is not UTF-8.
    InvalidText,
    /// The text is longer than a 16-bit length can announce.
    TooLong,
}

/// What decoding a run of bytes gives: not enough bytes yet, bytes that can
/// never be decoded, or a value and the number of bytes it took.
pub enum Parsed<T> {
    Incomplete,
    Invalid(CodecError),
    Complete { value: T, used: int },
}

/// The number that two bytes spell in big-endian order.
pub open spec fn be16(high: u8, low: u8) -> int {
    high as int * 256 + low as int
}

/// The bytes of `text` on the wire. It is meant for text of at most
/// [`MAX_LENGTH`] bytes of UTF-8.
pub open spec fn string_bytes(text: Seq<char>) -> Seq<u8> {
    let payload = encode_utf8(text);
    seq![TYPE_STRING, (payload.len() / 256) as u8, (payload.len() % 256) as u8] + payload
}

/// The bytes of a frame on the wire: the destination, then the body.
pub open spec fn frame_bytes(dest: Seq<char>, body: Seq<char>) -> Seq<u8> {
    string_bytes(dest) + string_bytes(body)
}

/// Decodes one string from the start of `bytes`. The header is awaited in
/// full before the type byte is looked at.
pub open spec fn parse_string(bytes: Seq<u8>) -> Parsed<Seq<char>> {
    if bytes.len() < 3 {
        Parsed::Incomplete
    } else if bytes[0] != TYPE_STRING {
        Parsed::Invalid(CodecError::IllegalType)
    } else {
        let len = be16(bytes[1], bytes[2]);
        if bytes.len() - 3 < len {
            Parsed::Incomplete
        } else {
            let payload = bytes.subrange(3, 3 + len);
            if valid_utf8(payload) {
                Parsed::Complete { value: decode_utf8(payload), used: 3 + len }
            } else {
                Parsed::Invalid(CodecError::InvalidText)
            }
        }
    }
}

/// Decodes one frame from the start of `bytes`: destination and body.
pub open spec fn parse_frame(bytes: Seq<u8>) -> Parsed<(Seq<char>, Seq<char>)> {
    match parse_string(bytes) {
        Parsed::Incomplete => Parsed::Incomplete,
        Parsed::Invalid(e) => Parsed::Invalid(e),
        Parsed::Complete { value: dest, used: first } => match parse_string(bytes.skip(first)) {
            Parsed::Incomplete => Parsed::Incomplete,
            Parsed::Invalid(e) => Parsed::Invalid(e),
            Parsed::Complete { value: body, used: second } => Parsed::Complete {
                value: (dest, body),
                used: first + second,
            },
        },
    }
}

/// `core::str::Utf8Error`: why bytes are no UTF-8. Nothing is read from it.
#[verifier::external_type_specification]
#[verifier::external_body]
pub struct ExUtf8Error(core::str::Utf8Error);

/// `core::str::from_utf8` succeeds exactly on well-formed UTF-8, and the
/// string slice it then returns holds the characters that the bytes encode.
pub assume_specification[ core::str::from_utf8 ](v: &[u8]) -> (text: Result<
    &str,
    core::str::Utf8Error,
>)
    ensures
        text is Ok <==> valid_utf8(v@),
        text matches Ok(s) ==> s@ == decode_utf8(v@),
;

/// `bytes::Buf::get_u16` on a byte slice: its first two bytes read as a
/// big-endian number.
#[verifier::external_body]
fn get_u16(bytes: &[u8]) -> (value: u16)
    requires
        bytes@.len() >= 2,
    ensures
        value == be16(bytes@[0], bytes@[1]),
{
    let mut cursor = bytes;
    cursor.get_u16()
}

/// Reads one string from the start of `bytes` and says how many bytes it
/// took; `None` where more bytes are needed.
pub fn read_string(bytes: &[u8]) -> (read: Result<Option<(String, usize)>, CodecError>)
    ensures
        match parse_string(bytes@) {
            Parsed::Incomplete => read == Ok::<Option<(String, usize)>, CodecError>(None),
            Parsed::Invalid(e) => read == Err::<Option<(String, usize)>, CodecError>(e),
            Parsed::Complete { value, used } => read matches Ok(Some((text, taken))) && text@
                == value && taken == used,
        },
{
    if bytes.len() < 1 + 2 {
        return Ok(None);
    }
    if bytes[0] != TYPE_STRING {
        return Err(CodecError::IllegalType);
    }
    let len = get_u16(slice_subrange(bytes, 1, 3)) as usize;
    if bytes.len() - 3 < len {
        return Ok(None);
    }
    let end = 3 + len;
    match core::str::from_utf8(slice_subrange(bytes, 3, end)) {
        Ok(text) => Ok(Some((text.to_owned(), end))),
        Err(_) => Err(CodecError::InvalidText),
    }
}

/// Reads one frame from the start of `bytes` and says how many bytes it took;
/// `None` where more bytes are needed.
pub fn read_frame(bytes: &[u8]) -> (read: Result<Option<(String, String, usize)>, CodecError>)
    ensures
        match parse_frame(bytes@) {
            Parsed::Incomplete => read == Ok::<Option<(String, String, usize)>, CodecError>(None),
            Parsed::Invalid(e) => read == Err::<Option<(String, String, usize)>, CodecError>(e),
            Parsed::Complete { value, used } => read matches Ok(Some((dest, body, taken)))
                && dest@ == value.0 && body@ == value.1 && taken == used,
        },
{
    let (dest, first) = match read_string(bytes)? {
        None => { return Ok(None); },
        Some(read) => read,
    };
    let rest = slice_subrange(bytes, first, bytes.len());
    match read_string(rest)? {
        None => Ok(None),
        Some((body, second)) => Ok(Some((dest, body, first + second))),
    }
}

/// Encodes `text` as one string on the wire. Text of more than
/// [`MAX_LENGTH`] bytes is refused as `TooLong`.
pub fn write_string(text: &str) -> (written: Result<Vec<u8>, CodecError>)
    ensures
        match written {
            Ok(bytes) => encode_utf8(text@).len() <= MAX_LENGTH && bytes@ == string_bytes(text@),
            Err(e) => encode_utf8(text@).len() > MAX_LENGTH && e == CodecError::TooLong,
        },
{
    let payload = text.as_bytes();
    let len = payload.len();
    if len > MAX_LENGTH {
        return Err(CodecError::TooLong);
    }
    let mut bytes: Vec<u8> = Vec::new();
    bytes.push(TYPE_STRING);
    bytes.push((len / 256) as u8);
    bytes.push((len % 256) as u8);
    bytes.extend_from_slice(payload);
    Ok(bytes)
}

/// Encodes a frame: the destination, then the body. It is refused as
/// `TooLong` where either is.
pub fn write_frame(dest: &str, body: &str) -> (written: Result<Vec<u8>, CodecError>)
    ensures
        match written {
            Ok(bytes) => encode_utf8(dest@).len() <= MAX_LENGTH && encode_utf8(body@).len()
                <= MAX_LENGTH && bytes@ == frame_bytes(dest@, body@),
            Err(e) => (encode_utf8(dest@).len() > MAX_LENGTH || encode_utf8(body@).len()
                > MAX_LENGTH) && e == CodecError::TooLong,
        },
{
    let mut bytes = write_string(dest)?;
    let tail = write_string(body)?;
    bytes.extend_from_slice(tail.as_slice());
    Ok(bytes)
}

/// A string on the wire decodes to the text it was made from and takes every
/// byte of it, whatever follows.
pub proof fn lemma_string_round_trip(text: Seq<char>, rest: Seq<u8>)
    requires
        encode_utf8(text).len() <= MAX_LENGTH,
    ensures
        parse_string(string_bytes(text) + rest) == (Parsed::Complete {
            value: text,
            used: string_bytes(text).len() as int,
        }),
{
    let payload = encode_utf8(text);
    let bytes = string_bytes(text) + rest;
    let len = payload.len() as int;
    assert(bytes.subrange(3, 3 + len) =~= payload);
    encode_utf8_valid_utf8(text);
    encode_utf8_decode_utf8(text);
}

/// Round trip: a frame on the wire decodes to the destination and the body it
/// was made from, and takes every byte.
pub proof fn lemma_frame_round_trip(dest: Seq<char>, body: Seq<char>)
    requires
        encode_utf8(dest).len() <= MAX_LENGTH,
        encode_utf8(body).len() <= MAX_LENGTH,
    ensures
        parse_frame(frame_bytes(dest, body)) == (Parsed::Complete {
            value: (dest, body),
            used: frame_bytes(dest, body).len() as int,
        }),
{
    let first = string_bytes(dest);
    let second = string_bytes(body);
    lemma_string_round_trip(dest, second);
    lemma_string_round_trip(body, Seq::empty());
    assert((first + second).skip(first.len() as int) =~= second);
}

/// A proper prefix of a string on the wire is incomplete.
pub proof fn lemma_string_prefix_incomplete(text: Seq<char>, n: int)
    requires
        encode_utf8(text).len() <= MAX_LENGTH,
        0 <= n < string_bytes(text).len(),
    ensures
        parse_string(string_bytes(text).take(n)) == Parsed::<Seq<char>>::Incomplete,
{
}

/// Framing safety: every proper prefix of a frame on the wire is incomplete.
pub proof fn lemma_frame_prefix_incomplete(dest: Seq<char>, body: Seq<char>, n: int)
    requires
        encode_utf8(dest).len() <= MAX_LENGTH,
        encode_utf8(body).len() <= MAX_LENGTH,
        0 <= n < frame_bytes(dest, body).len(),
    ensures
        parse_frame(frame_bytes(dest, body).take(n)) == Parsed::<(Seq<char>, Seq<char>)>::Incomplete,
{
    let first = string_bytes(dest);
    let second = string_bytes(body);
    let whole = first + second;
    if n < first.len() {
        assert(whole.take(n) =~= first.take(n));
        lemma_string_prefix_incomplete(dest, n);
    } else {
        let m = n - first.len();
        assert(whole.take(n) =~= first + second.take(m));
        lemma_string_round_trip(dest, second.take(m));
        lemma_string_prefix_incomplete(body, m);
    }
}

} // verus!
