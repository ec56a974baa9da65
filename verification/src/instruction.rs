//! The immutable descriptor of one opcode.

use vstd::prelude::*;

verus! {

/// Everything the engine needs to decode one opcode: its unique code,
/// a diagnostic name, and the count of immediate bytes that follow the
/// opcode in the instruction byte region. The effect of the opcode is
/// supplied separately, by the instruction set a concrete language
/// registers with the machine (see `machine::InstructionSet`), so that
/// descriptors stay plain data.
pub struct Instruction {
    /// Unique one-byte instruction identifier.
    pub op_code: u8,
    /// Diagnostics only; never interpreted by the engine.
    pub name: String,
    /// Count of immediate bytes the instruction consumes after its
    /// opcode.
    pub byte_arity: u8,
}

impl Instruction {
    pub fn new(op_code: u8, name: String, byte_arity: u8) -> (instruction: Instruction)
        ensures
            instruction == (Instruction { op_code, name, byte_arity }),
    {
        Instruction { op_code, name, byte_arity }
    }
}

} // verus!
