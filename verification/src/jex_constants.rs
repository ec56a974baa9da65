//! The constants of the worked example language "jex": the literals a
//! chunk's constant pool can hold, and their wire encodings.
//!
//! Encodings (the tag byte comes first, see [`crate::parsing`]):
//!
//! - tag 0: an integer, 8 bytes big-endian, two's complement;
//! - tag 1: a string, a two-byte big-endian length followed by that
//!   many bytes of UTF-8.

use vstd::prelude::*;

use vstd::utf8::{decode_utf8, valid_utf8};

use crate::parsing::{ParsableConstant, ParseError};

verus! {

pub const TAG_INT: u8 = 0;

pub const TAG_STRING: u8 = 1;

/// A parsed jex literal, produced by the tag-dispatched constant
/// parser.
#[derive(Debug, PartialEq, Eq)]
pub enum JexConstant {
    Int(i64),
    String(String),
}

/// The mathematical model of a jex constant: the integer, or the
/// characters of the string.
pub enum JexConstantModel {
    Int(i64),
    String(Seq<char>),
}

/// The 8-byte big-endian unsigned integer at `position`, as an
/// unbounded integer.
pub open spec fn spec_be_u64_at(bytes: Seq<u8>, position: int) -> int {
    bytes[position] * 0x100_0000_0000_0000 + bytes[position + 1] * 0x1_0000_0000_0000 + bytes[
        position + 2
    ] * 0x100_0000_0000 + bytes[position + 3] * 0x1_0000_0000 + bytes[position + 4] * 0x100_0000
        + bytes[position + 5] * 0x1_0000 + bytes[position + 6] * 0x100 + bytes[position + 7]
}

/// The same 8 bytes read as a two's complement signed integer.
pub open spec fn spec_be_i64_at(bytes: Seq<u8>, position: int) -> int {
    if spec_be_u64_at(bytes, position) >= 0x8000_0000_0000_0000 {
        spec_be_u64_at(bytes, position) - 0x1_0000_0000_0000_0000
    } else {
        spec_be_u64_at(bytes, position)
    }
}

/// Relies on `String::from_utf8`: it succeeds exactly when the bytes
/// are valid UTF-8, and the returned string is their decoding.
#[verifier::external_body]
fn string_from_utf8(bytes: Vec<u8>) -> (result: Option<String>)
    ensures
        result is Some <==> valid_utf8(bytes@),
        result matches Some(text) ==> text@ == decode_utf8(bytes@),
{
    match String::from_utf8(bytes) {
        Ok(text) => Some(text),
        Err(_) => None,
    }
}

/// The 8-byte big-endian two's complement integer at `position`.
fn read_i64_be(bytes: &Vec<u8>, position: usize) -> (value: i64)
    requires
        position + 8 <= bytes@.len(),
        bytes@.len() <= usize::MAX,
    ensures
        value as int == spec_be_i64_at(bytes@, position as int),
{
    let unsigned: u64 = (bytes[position] as u64) * 0x100_0000_0000_0000 + (bytes[position
        + 1] as u64) * 0x1_0000_0000_0000 + (bytes[position + 2] as u64) * 0x100_0000_0000 + (
    bytes[position + 3] as u64) * 0x1_0000_0000 + (bytes[position + 4] as u64) * 0x100_0000 + (
    bytes[position + 5] as u64) * 0x1_0000 + (bytes[position + 6] as u64) * 0x100 + (bytes[position
        + 7] as u64);
    if unsigned < 0x8000_0000_0000_0000u64 {
        unsigned as i64
    } else {
        let complement: u64 = u64::MAX - unsigned;
        let magnitude: u64 = complement + 1;
        if magnitude == 0x8000_0000_0000_0000u64 {
            i64::MIN
        } else {
            0 - (magnitude as i64)
        }
    }
}

impl ParsableConstant for JexConstant {
    type Model = JexConstantModel;

    open spec fn model(self) -> JexConstantModel {
        match self {
            JexConstant::Int(value) => JexConstantModel::Int(value),
            JexConstant::String(text) => JexConstantModel::String(text@),
        }
    }

    open spec fn spec_parse(bytes: Seq<u8>, position: int) -> Option<(JexConstantModel, int)> {
        if position < 0 || position >= bytes.len() {
            None
        } else if bytes[position] == TAG_INT {
            if position + 9 <= bytes.len() {
                Some(
                    (
                        JexConstantModel::Int(spec_be_i64_at(bytes, position + 1) as i64),
                        position + 9,
                    ),
                )
            } else {
                None
            }
        } else if bytes[position] == TAG_STRING {
            if position + 3 <= bytes.len() {
                let length = bytes[position + 1] * 256 + bytes[position + 2];
                if position + 3 + length <= bytes.len() {
                    let content = bytes.subrange(position + 3, position + 3 + length);
                    if valid_utf8(content) {
                        Some(
                            (JexConstantModel::String(decode_utf8(content)), position + 3 + length),
                        )
                    } else {
                        None
                    }
                } else {
                    None
                }
            } else {
                None
            }
        } else {
            None
        }
    }

    proof fn parse_consumes(bytes: Seq<u8>, position: int) {
    }

    fn parse_constant(bytes: &Vec<u8>, position: usize) -> (result: Result<
        (JexConstant, usize),
        ParseError,
    >) {
        if position >= bytes.len() {
            return Err(ParseError::TruncatedBytes);
        }
        let tag = bytes[position];
        if tag == TAG_INT {
            if bytes.len() - position < 9 {
                return Err(ParseError::TruncatedBytes);
            }
            let value = read_i64_be(bytes, position + 1);
            Ok((JexConstant::Int(value), position + 9))
        } else if tag == TAG_STRING {
            if bytes.len() - position < 3 {
                return Err(ParseError::TruncatedBytes);
            }
            let length = (bytes[position + 1] as usize) * 256 + (bytes[position + 2] as usize);
            let content_start = position + 3;
            if bytes.len() - content_start < length {
                return Err(ParseError::TruncatedBytes);
            }
            let mut content: Vec<u8> = Vec::new();
            let mut copied: usize = 0;
            while copied < length
                invariant
                    copied <= length,
                    content@ =~= bytes@.subrange(content_start as int, content_start + copied),
                decreases length - copied,
            {
                content.push(bytes[content_start + copied]);
                copied = copied + 1;
                proof {
                    assert(content@ =~= bytes@.subrange(
                        content_start as int,
                        content_start + copied,
                    ));
                }
            }
            match string_from_utf8(content) {
                Some(text) => Ok((JexConstant::String(text), content_start + length)),
                None => Err(ParseError::MalformedConstant),
            }
        } else {
            Err(ParseError::UnknownConstantTag(tag))
        }
    }
}

} // verus!
