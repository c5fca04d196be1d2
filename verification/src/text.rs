//! Decoding of stored bytes as text.
use crate::error::{Fault, GdbmError};
use std::string::FromUtf8Error;
use vstd::prelude::*;
use vstd::utf8::{
    decode_utf8, encode_utf8, encode_utf8_decode_utf8, encode_utf8_valid_utf8, valid_utf8,
};

verus! {

/// `String::from_utf8` of the standard library: it succeeds exactly on bytes
/// that are well-formed UTF-8, and the string it returns then holds the
/// characters that those bytes encode.
pub assume_specification[ String::from_utf8 ](vec: Vec<u8>) -> (result: Result<
    String,
    FromUtf8Error,
>)
    ensures
        result.is_ok() == valid_utf8(vec@),
        result.is_ok() ==> result.unwrap()@ == decode_utf8(vec@),
;

/// The bytes without one trailing zero byte, if they end in one.
pub open spec fn trim_nul(bytes: Seq<u8>) -> Seq<u8> {
    if bytes.len() > 0 && bytes.last() == 0 {
        bytes.drop_last()
    } else {
        bytes
    }
}

/// The text that the bytes encode, or the encoding failure.
pub open spec fn decoded(bytes: Seq<u8>) -> Result<Seq<char>, Fault> {
    if valid_utf8(bytes) {
        Ok(decode_utf8(bytes))
    } else {
        Err(Fault::InvalidEncoding)
    }
}

/// A text result as the contracts speak of it.
pub open spec fn text_view(r: Result<String, GdbmError>) -> Result<Seq<char>, Fault> {
    match r {
        Ok(s) => Ok(s@),
        Err(e) => Err(e@),
    }
}

/// Removes one trailing zero byte, if there is one. C programs often store
/// strings together with their terminator.
pub fn strip_trailing_nul(bytes: Vec<u8>) -> (trimmed: Vec<u8>)
    ensures
        trimmed@ == trim_nul(bytes@),
{
    let mut bytes = bytes;
    let n: usize = bytes.len();
    if n > 0 && bytes[n - 1] == 0 {
        bytes.pop();
    }
    bytes
}

/// Interprets the bytes as UTF-8, strictly: any ill-formed sequence is an
/// encoding failure.
pub fn decode(bytes: Vec<u8>) -> (r: Result<String, GdbmError>)
    ensures
        text_view(r) == decoded(bytes@),
{
    match String::from_utf8(bytes) {
        Ok(s) => Ok(s),
        Err(e) => Err(GdbmError::InvalidEncoding(e)),
    }
}

/// Interprets the bytes as UTF-8 after removing one trailing zero byte.
pub fn decode_trimmed(bytes: Vec<u8>) -> (r: Result<String, GdbmError>)
    ensures
        text_view(r) == decoded(trim_nul(bytes@)),
{
    decode(strip_trailing_nul(bytes))
}

/// One zero byte put behind any bytes is the one that trimming removes:
/// what is decoded is the bytes without it.
pub proof fn law_trailing_zero_is_trimmed(bytes: Seq<u8>)
    ensures
        trim_nul(bytes.push(0)) == bytes,
        decoded(trim_nul(bytes.push(0))) == decoded(bytes),
{
    assert(bytes.push(0).drop_last() =~= bytes);
}

/// Text stored as its UTF-8 bytes decodes to itself, strictly and, where a
/// terminating zero was stored behind it, with trimming.
pub proof fn law_text_round_trip(text: Seq<char>)
    ensures
        decoded(encode_utf8(text)) == Ok::<Seq<char>, Fault>(text),
        decoded(trim_nul(encode_utf8(text).push(0))) == Ok::<Seq<char>, Fault>(text),
{
    encode_utf8_valid_utf8(text);
    encode_utf8_decode_utf8(text);
    law_trailing_zero_is_trimmed(encode_utf8(text));
}

} // verus!
