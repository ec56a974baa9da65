//! The execution context for one chunk invocation: identity, base
//! offset into the shared operand stack, and instruction pointer.

use vstd::prelude::*;

use crate::instruction_pointer::InstructionPointer;

verus! {

#[derive(Debug, PartialEq, Eq)]
pub struct CallFrame {
    /// The chunk this frame executes.
    pub chunk_id: usize,
    /// Diagnostic name, rendered in the frame trace of a failure report.
    pub name: String,
    /// Base index into the shared operand stack reserved for this frame.
    /// While the frame is active the machine keeps
    /// `start_slot <= operand stack length`.
    pub start_slot: usize,
    /// The next byte of this frame's chunk to fetch.
    pub instruction_pointer: InstructionPointer,
}

impl CallFrame {
    /// `other` renders the same frame trace entry as `self`: all fields
    /// agree, the diagnostic names as character sequences.
    pub open spec fn describes_same_frame(self, other: CallFrame) -> bool {
        self.chunk_id == other.chunk_id && self.name@ == other.name@ && self.start_slot
            == other.start_slot && self.instruction_pointer == other.instruction_pointer
    }

    /// A frame for the given chunk, with its instruction pointer at the
    /// chunk's start.
    pub fn new(chunk_id: usize, name: String, start_slot: usize) -> (frame: CallFrame)
        ensures
            frame == (CallFrame {
                chunk_id,
                name,
                start_slot,
                instruction_pointer: InstructionPointer { chunk_id, instruction_pointer: 0 },
            }),
    {
        CallFrame { chunk_id, name, start_slot, instruction_pointer: InstructionPointer::new(chunk_id) }
    }

    /// This frame with its instruction pointer repositioned.
    pub open spec fn with_pointer(self, pointer: InstructionPointer) -> CallFrame {
        CallFrame {
            chunk_id: self.chunk_id,
            name: self.name,
            start_slot: self.start_slot,
            instruction_pointer: pointer,
        }
    }

    /// A copy that renders the same frame trace entry.
    pub fn duplicate(&self) -> (copy: CallFrame)
        ensures
            copy.describes_same_frame(*self),
    {
        CallFrame {
            chunk_id: self.chunk_id,
            name: self.name.clone(),
            start_slot: self.start_slot,
            instruction_pointer: self.instruction_pointer,
        }
    }
}

} // verus!
