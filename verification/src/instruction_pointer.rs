//! The (chunk, offset) cursor that tracks the next byte to fetch.

use vstd::prelude::*;

verus! {

/// Advances monotonically within a chunk except when an instruction
/// explicitly repositions it, so it supports arbitrary repositioning.
#[derive(Debug, Clone, Copy, PartialEq, Eq, Structural)]
pub struct InstructionPointer {
    /// The position of the chunk in the code.
    pub chunk_id: usize,
    /// The byte offset of the next byte to fetch within that chunk.
    pub instruction_pointer: usize,
}

impl InstructionPointer {
    /// A pointer to the first byte of the given chunk.
    pub fn new(chunk_id: usize) -> (pointer: InstructionPointer)
        ensures
            pointer == (InstructionPointer { chunk_id, instruction_pointer: 0 }),
    {
        InstructionPointer { chunk_id, instruction_pointer: 0 }
    }

    /// Moves the pointer forward, saturating at the largest offset; the
    /// saturation point lies beyond any real chunk, so a saturated
    /// pointer simply has no next byte.
    pub fn jump_forward(&mut self, offset: usize)
        ensures
            old(self).instruction_pointer + offset <= usize::MAX ==> final(self).instruction_pointer
                == old(self).instruction_pointer + offset,
            old(self).instruction_pointer + offset > usize::MAX ==> final(self).instruction_pointer
                == usize::MAX,
            final(self).chunk_id == old(self).chunk_id,
    {
        self.instruction_pointer = match self.instruction_pointer.checked_add(offset) {
            Some(moved) => moved,
            None => usize::MAX,
        };
    }
}

} // verus!
