//! Bytecode parsing: a raw byte buffer is consumed sequentially
//! (cursor semantics) to produce typed [`Code`].
//!
//! The wire format is a fixed contract:
//!
//! - code := chunk ... chunk, until the buffer ends;
//! - chunk := one count byte, that many tagged constant entries, a
//!   two-byte big-endian code length, and that many instruction bytes;
//! - constant := a one-byte tag followed by the tag's variable-length
//!   encoding, which the language's constant parser defines.
//!
//! Parsing fails with a structured [`ParseError`] on an unknown
//! constant tag, a truncated buffer, or a malformed entry. A parse
//! failure happens before any machine is constructed; it is never a
//! runtime error.

use vstd::prelude::*;

use crate::code::{Chunk, Code};

verus! {

/// Malformed bytecode, detected before any machine is constructed.
#[derive(Debug, PartialEq, Eq, Structural)]
pub enum ParseError {
    /// A constant entry began with a tag no parser is registered for.
    UnknownConstantTag(u8),
    /// Fewer bytes were available than the format demands.
    TruncatedBytes,
    /// A constant entry's payload does not decode (for jex: a string
    /// constant that is not valid UTF-8).
    MalformedConstant,
}

/// A constant type that can be read from the constant pool region of a
/// chunk: the extension point of the parsing pipeline, implemented by
/// the concrete language.
pub trait ParsableConstant: Sized {
    /// The mathematical model of one parsed constant.
    type Model;

    /// The model of this constant value.
    spec fn model(self) -> Self::Model;

    /// The meaning of the constant entry at `position`: its model and
    /// the position just past the entry, or `None` for a malformed
    /// entry (unknown tag, truncated or undecodable payload).
    spec fn spec_parse(bytes: Seq<u8>, position: int) -> Option<(Self::Model, int)>;

    /// A well-formed entry consumes at least its tag byte and stays
    /// inside the buffer.
    proof fn parse_consumes(bytes: Seq<u8>, position: int)
        requires
            0 <= position <= bytes.len(),
        ensures
            Self::spec_parse(bytes, position) matches Some(entry) ==> position < entry.1
                <= bytes.len(),
    ;

    /// Reads the constant entry at `position`, returning the constant
    /// and the position just past it. Succeeds exactly where
    /// `spec_parse` is defined, and returns exactly what it says.
    fn parse_constant(bytes: &Vec<u8>, position: usize) -> (result: Result<
        (Self, usize),
        ParseError,
    >)
        requires
            position <= bytes@.len(),
        ensures
            result matches Ok(parsed) ==> Self::spec_parse(bytes@, position as int) == Some(
                (parsed.0.model(), parsed.1 as int),
            ),
            result is Err ==> Self::spec_parse(bytes@, position as int) is None,
    ;
}

/// The meaning of `count` consecutive constant entries starting at
/// `position`: their models and the position just past the last one.
pub open spec fn spec_parse_constants<C: ParsableConstant>(
    bytes: Seq<u8>,
    position: int,
    count: int,
) -> Option<(Seq<C::Model>, int)>
    decreases count,
{
    if count <= 0 {
        Some((Seq::empty(), position))
    } else {
        match C::spec_parse(bytes, position) {
            None => None,
            Some(entry) => match spec_parse_constants::<C>(bytes, entry.1, count - 1) {
                None => None,
                Some(rest) => Some((seq![entry.0] + rest.0, rest.1)),
            },
        }
    }
}

/// The meaning of the chunk starting at `position`: the models of its
/// constant pool, its instruction bytes, and the position just past
/// the chunk.
pub open spec fn spec_parse_chunk<C: ParsableConstant>(bytes: Seq<u8>, position: int) -> Option<
    ((Seq<C::Model>, Seq<u8>), int),
> {
    if position + 1 > bytes.len() {
        None
    } else {
        let count = bytes[position] as int;
        match spec_parse_constants::<C>(bytes, position + 1, count) {
            None => None,
            Some(pool) => {
                let after_pool = pool.1;
                if after_pool + 2 > bytes.len() {
                    None
                } else {
                    let code_len = bytes[after_pool] * 256 + bytes[after_pool + 1];
                    if after_pool + 2 + code_len > bytes.len() {
                        None
                    } else {
                        Some(
                            (
                                (pool.0, bytes.subrange(after_pool + 2, after_pool + 2 + code_len)),
                                after_pool + 2 + code_len,
                            ),
                        )
                    }
                }
            },
        }
    }
}

/// The meaning of the whole buffer from `position` on: the models of
/// its chunks, one after the other, until the buffer ends.
pub open spec fn spec_parse_code<C: ParsableConstant>(bytes: Seq<u8>, position: int) -> Option<
    Seq<(Seq<C::Model>, Seq<u8>)>,
>
    decreases bytes.len() - position,
{
    if position >= bytes.len() {
        Some(Seq::empty())
    } else {
        match spec_parse_chunk::<C>(bytes, position) {
            None => None,
            Some(chunk) => {
                if chunk.1 <= position || chunk.1 > bytes.len() {
                    None
                } else {
                    match spec_parse_code::<C>(bytes, chunk.1) {
                        None => None,
                        Some(rest) => Some(seq![chunk.0] + rest),
                    }
                }
            },
        }
    }
}

/// The model of a parsed chunk: its constants' models and its
/// instruction bytes.
pub open spec fn spec_chunk_model<C: ParsableConstant>(chunk: Chunk<C>) -> (
    Seq<C::Model>,
    Seq<u8>,
) {
    (chunk.constants@.map_values(|constant: C| constant.model()), chunk.code@)
}

/// The model of parsed code: the models of its chunks in order.
pub open spec fn spec_code_model<C: ParsableConstant>(code: Code<C>) -> Seq<
    (Seq<C::Model>, Seq<u8>),
> {
    code.chunks@.map_values(|chunk: Chunk<C>| spec_chunk_model(chunk))
}

/// Reads `count` consecutive constant entries starting at `position`.
fn parse_constants<C: ParsableConstant>(bytes: &Vec<u8>, position: usize, count: u8) -> (result:
    Result<(Vec<C>, usize), ParseError>)
    requires
        position <= bytes@.len(),
    ensures
        result matches Ok(parsed) ==> spec_parse_constants::<C>(
            bytes@,
            position as int,
            count as int,
        ) == Some((parsed.0@.map_values(|constant: C| constant.model()), parsed.1 as int))
            && position <= parsed.1 <= bytes@.len(),
        result is Err ==> spec_parse_constants::<C>(bytes@, position as int, count as int) is None,
{
    let ghost full = spec_parse_constants::<C>(bytes@, position as int, count as int);
    let mut constants: Vec<C> = Vec::new();
    let mut cursor = position;
    let mut remaining = count;
    while remaining > 0
        invariant
            position <= cursor <= bytes@.len(),
            full == match spec_parse_constants::<C>(bytes@, cursor as int, remaining as int) {
                None => None,
                Some(rest) => Some(
                    (constants@.map_values(|constant: C| constant.model()) + rest.0, rest.1),
                ),
            },
        decreases remaining,
    {
        let ghost models_before = constants@.map_values(|constant: C| constant.model());
        let (constant, next) = match C::parse_constant(bytes, cursor) {
            Ok(parsed) => parsed,
            Err(error) => {
                return Err(error);
            },
        };
        proof {
            C::parse_consumes(bytes@, cursor as int);
        }
        constants.push(constant);
        cursor = next;
        remaining = remaining - 1;
        proof {
            assert(constants@.map_values(|constant: C| constant.model()) =~= models_before + seq![
                constant.model(),
            ]);
            let parsed_rest = spec_parse_constants::<C>(bytes@, cursor as int, remaining as int);
            if parsed_rest is Some {
                let rest = parsed_rest.unwrap();
                assert(models_before + (seq![constant.model()] + rest.0) =~= (models_before + seq![
                    constant.model(),
                ]) + rest.0);
            }
        }
    }
    proof {
        assert(constants@.map_values(|constant: C| constant.model()) + Seq::<C::Model>::empty()
            =~= constants@.map_values(|constant: C| constant.model()));
    }
    Ok((constants, cursor))
}

/// Reads the chunk starting at `position`: its constant pool count,
/// that many constants, its code length, and its instruction bytes.
fn parse_chunk<C: ParsableConstant>(bytes: &Vec<u8>, position: usize) -> (result: Result<
    (Chunk<C>, usize),
    ParseError,
>)
    requires
        position <= bytes@.len(),
    ensures
        result matches Ok(parsed) ==> spec_parse_chunk::<C>(bytes@, position as int) == Some(
            (spec_chunk_model(parsed.0), parsed.1 as int),
        ) && position < parsed.1 <= bytes@.len(),
        result is Err ==> spec_parse_chunk::<C>(bytes@, position as int) is None,
{
    if position >= bytes.len() {
        return Err(ParseError::TruncatedBytes);
    }
    let constant_count = bytes[position];
    let (constants, after_pool) = match parse_constants::<C>(bytes, position + 1, constant_count) {
        Ok(parsed) => parsed,
        Err(error) => {
            return Err(error);
        },
    };
    if bytes.len() - after_pool < 2 {
        return Err(ParseError::TruncatedBytes);
    }
    let code_len = (bytes[after_pool] as usize) * 256 + (bytes[after_pool + 1] as usize);
    let code_start = after_pool + 2;
    if bytes.len() - code_start < code_len {
        return Err(ParseError::TruncatedBytes);
    }
    let mut code_bytes: Vec<u8> = Vec::new();
    let mut copied: usize = 0;
    while copied < code_len
        invariant
            copied <= code_len,
            code_bytes@ =~= bytes@.subrange(code_start as int, code_start + copied),
        decreases code_len - copied,
    {
        code_bytes.push(bytes[code_start + copied]);
        copied = copied + 1;
        proof {
            assert(code_bytes@ =~= bytes@.subrange(code_start as int, code_start + copied));
        }
    }
    let chunk = Chunk { constants, code: code_bytes };
    proof {
        assert(spec_chunk_model(chunk).0 =~= chunk.constants@.map_values(
            |constant: C| constant.model(),
        ));
    }
    Ok((chunk, code_start + code_len))
}

/// Turns a raw byte buffer into typed code: chunk after chunk until
/// the buffer ends. Succeeds exactly where the wire format's meaning
/// is defined, and the parsed code carries exactly that meaning.
pub fn parse_code<C: ParsableConstant>(bytes: &Vec<u8>) -> (result: Result<Code<C>, ParseError>)
    ensures
        result matches Ok(code) ==> spec_parse_code::<C>(bytes@, 0) == Some(spec_code_model(code)),
        result is Err ==> spec_parse_code::<C>(bytes@, 0) is None,
{
    let ghost full = spec_parse_code::<C>(bytes@, 0);
    let mut chunks: Vec<Chunk<C>> = Vec::new();
    let mut cursor: usize = 0;
    while cursor < bytes.len()
        invariant
            cursor <= bytes@.len(),
            full == match spec_parse_code::<C>(bytes@, cursor as int) {
                None => None,
                Some(rest) => Some(chunks@.map_values(|chunk: Chunk<C>| spec_chunk_model(chunk)) + rest),
            },
        decreases bytes@.len() - cursor,
    {
        let ghost models_before = chunks@.map_values(|chunk: Chunk<C>| spec_chunk_model(chunk));
        let (chunk, next) = match parse_chunk::<C>(bytes, cursor) {
            Ok(parsed) => parsed,
            Err(error) => {
                return Err(error);
            },
        };
        chunks.push(chunk);
        cursor = next;
        proof {
            assert(chunks@.map_values(|chunk: Chunk<C>| spec_chunk_model(chunk)) =~= models_before
                + seq![spec_chunk_model(chunk)]);
            let parsed_rest = spec_parse_code::<C>(bytes@, cursor as int);
            if parsed_rest is Some {
                let rest = parsed_rest.unwrap();
                assert(models_before + (seq![spec_chunk_model(chunk)] + rest) =~= (models_before
                    + seq![spec_chunk_model(chunk)]) + rest);
            }
        }
    }
    let code = Code { chunks };
    proof {
        assert(spec_code_model(code) + Seq::<(Seq<C::Model>, Seq<u8>)>::empty() =~= spec_code_model(
            code,
        ));
    }
    Ok(code)
}

} // verus!
