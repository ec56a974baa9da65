//! Parsed bytecode: an ordered sequence of chunks, each with a constant
//! pool and an instruction byte region. Immutable once parsed; the
//! machine only reads it.

use vstd::prelude::*;

use crate::instruction_pointer::InstructionPointer;

verus! {

/// One unit of compiled code: a constant pool plus an instruction byte
/// region. A chunk is identified by its position in the code.
#[derive(Debug, PartialEq, Eq)]
pub struct Chunk<Constant> {
    pub constants: Vec<Constant>,
    pub code: Vec<u8>,
}

/// The ordered sequence of chunks of one bytecode file.
#[derive(Debug, PartialEq, Eq)]
pub struct Code<Constant> {
    pub chunks: Vec<Chunk<Constant>>,
}

impl<Constant> Code<Constant> {
    /// There is a byte to fetch at `pointer`: the chunk exists and the
    /// offset lies inside its instruction byte region.
    pub open spec fn spec_has_next(self, pointer: InstructionPointer) -> bool {
        pointer.chunk_id < self.chunks@.len() && pointer.instruction_pointer
            < self.chunks@[pointer.chunk_id as int].code@.len()
    }

    /// The byte `pointer` refers to (meaningful when `spec_has_next`).
    pub open spec fn spec_byte_at(self, pointer: InstructionPointer) -> u8 {
        self.chunks@[pointer.chunk_id as int].code@[pointer.instruction_pointer as int]
    }

    /// Whether a byte can be fetched at `pointer`.
    pub fn has_next(&self, pointer: &InstructionPointer) -> (has: bool)
        ensures
            has == self.spec_has_next(*pointer),
    {
        pointer.chunk_id < self.chunks.len() && pointer.instruction_pointer
            < self.chunks[pointer.chunk_id].code.len()
    }

    /// Reads the byte at `pointer` and advances the pointer past it;
    /// `None`, with the pointer unchanged, when the pointer is outside
    /// the code.
    pub fn read(&self, pointer: &mut InstructionPointer) -> (byte: Option<u8>)
        ensures
            old(pointer).chunk_id < self.chunks@.len()
                && old(pointer).instruction_pointer < self.chunks@[old(pointer).chunk_id as int].code@.len()
                ==> byte == Some(self.spec_byte_at(*old(pointer))) && *final(pointer)
                == (InstructionPointer {
                chunk_id: old(pointer).chunk_id,
                instruction_pointer: (old(pointer).instruction_pointer + 1) as usize,
            }),
            !self.spec_has_next(*old(pointer)) ==> byte is None && *final(pointer) == *old(pointer),
    {
        if pointer.chunk_id < self.chunks.len() {
            let chunk = &self.chunks[pointer.chunk_id];
            if pointer.instruction_pointer < chunk.code.len() {
                let byte = chunk.code[pointer.instruction_pointer];
                pointer.instruction_pointer = pointer.instruction_pointer + 1;
                return Some(byte);
            }
        }
        None
    }
}

} // verus!
