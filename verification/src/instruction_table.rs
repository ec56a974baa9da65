//! The immutable, statically-built mapping from opcode to instruction
//! descriptor, validated once at construction.
//!
//! No two registered instructions may share an opcode. The instruction
//! set is static configuration decided before any bytecode runs, so a
//! duplicate is a construction-time fault surfaced as a constructor
//! failure value — never a runtime error. A missing opcode at lookup
//! time, by contrast, is a legitimate runtime condition (possibly
//! malformed or version-mismatched bytecode) and is reported as `None`
//! by [`InstructionTable::get_instruction`].

use vstd::prelude::*;

use crate::instruction::Instruction;

verus! {

/// Two instructions handed to the table share an opcode: a build-time
/// configuration fault. Carries the diagnostic names of both
/// instructions and the contested opcode.
#[derive(Debug)]
pub struct DuplicateOpCode {
    pub op_code: u8,
    pub first_name: String,
    pub second_name: String,
}

pub struct InstructionTable {
    instructions: Vec<Instruction>,
}

impl InstructionTable {
    /// The registered descriptors, in registration order.
    pub closed spec fn entries(self) -> Seq<Instruction> {
        self.instructions@
    }

    /// No two registered instructions share an opcode.
    pub open spec fn well_formed(self) -> bool {
        forall|i: int, j: int|
            0 <= i < j < self.entries().len() ==> self.entries()[i].op_code
                != self.entries()[j].op_code
    }

    /// Some registered instruction has this opcode.
    pub open spec fn spec_contains(self, op_code: u8) -> bool {
        exists|i: int| 0 <= i < self.entries().len() && self.entries()[i].op_code == op_code
    }

    /// An empty table: every lookup returns `None`.
    pub fn new() -> (table: InstructionTable)
        ensures
            table.entries() == Seq::<Instruction>::empty(),
            table.well_formed(),
    {
        InstructionTable { instructions: Vec::new() }
    }

    /// Registers one instruction; rejects an opcode that is already
    /// taken.
    fn register_instruction(&mut self, instruction: Instruction) -> (result: Result<
        (),
        DuplicateOpCode,
    >)
        requires
            old(self).well_formed(),
        ensures
            final(self).well_formed(),
            old(self).spec_contains(instruction.op_code) ==> result is Err && final(self).entries()
                == old(self).entries(),
            !old(self).spec_contains(instruction.op_code) ==> result is Ok && final(self).entries()
                == old(self).entries().push(instruction),
            result matches Err(duplicate) ==> duplicate.op_code == instruction.op_code
                && duplicate.second_name@ == instruction.name@ && exists|i: int|
                0 <= i < old(self).entries().len() && old(self).entries()[i].op_code
                    == instruction.op_code && duplicate.first_name@ == old(
                self,
            ).entries()[i].name@,
    {
        let count = self.instructions.len();
        for i in 0..count
            invariant
                count == self.instructions.len(),
                forall|k: int| 0 <= k < i ==> self.instructions@[k].op_code != instruction.op_code,
        {
            if self.instructions[i].op_code == instruction.op_code {
                let duplicate = DuplicateOpCode {
                    op_code: instruction.op_code,
                    first_name: self.instructions[i].name.clone(),
                    second_name: instruction.name,
                };
                proof {
                    assert(self.entries()[i as int].op_code == duplicate.op_code);
                    assert(duplicate.first_name@ == self.entries()[i as int].name@);
                }
                return Err(duplicate);
            }
        }
        let ghost before = self.instructions@;
        self.instructions.push(instruction);
        proof {
            assert forall|a: int, b: int|
                0 <= a < b < self.entries().len() implies self.entries()[a].op_code
                != self.entries()[b].op_code by {
                assert(before =~= old(self).entries());
                if b < before.len() {
                    assert(old(self).entries()[a].op_code != old(self).entries()[b].op_code);
                    assert(self.entries()[a] == before[a] && self.entries()[b] == before[b]);
                } else {
                    assert(before[a].op_code != instruction.op_code);
                    assert(self.entries()[a] == before[a] && self.entries()[b] == instruction);
                }
            }
        }
        Ok(())
    }

    /// Builds a table from a fixed list of instructions. Construction
    /// fails exactly when two instructions in the list share an opcode;
    /// otherwise the table holds exactly the listed descriptors.
    pub fn with_instructions(instructions: Vec<Instruction>) -> (result: Result<
        InstructionTable,
        DuplicateOpCode,
    >)
        ensures
            result is Ok <==> (forall|i: int, j: int|
                0 <= i < j < instructions@.len() ==> instructions@[i].op_code
                    != instructions@[j].op_code),
            result matches Ok(table) ==> table.entries() == instructions@ && table.well_formed(),
            result matches Err(duplicate) ==> exists|i: int, j: int|
                0 <= i < j < instructions@.len() && instructions@[i].op_code == duplicate.op_code
                    && instructions@[j].op_code == duplicate.op_code && duplicate.first_name@
                    == instructions@[i].name@ && duplicate.second_name@ == instructions@[j].name@,
    {
        let ghost all = instructions@;
        let mut table = InstructionTable::new();
        let mut remaining = instructions;
        while remaining.len() > 0
            invariant
                table.well_formed(),
                all =~= table.entries() + remaining@,
            decreases remaining@.len(),
        {
            let ghost entries_before = table.entries();
            let ghost position = entries_before.len() as int;
            let ghost remaining_before = remaining@;
            let instruction = remaining.remove(0);
            match table.register_instruction(instruction) {
                Ok(()) => {
                    proof {
                        assert(all =~= table.entries() + remaining@);
                    }
                },
                Err(duplicate) => {
                    proof {
                        let earlier = choose|i: int|
                            0 <= i < entries_before.len() && entries_before[i].op_code
                                == instruction.op_code && duplicate.first_name@
                                == entries_before[i].name@;
                        assert(all[earlier] == entries_before[earlier]);
                        assert(all[position] == remaining_before[0]);
                        assert(all[earlier].op_code == duplicate.op_code);
                        assert(all[position].op_code == duplicate.op_code);
                        assert(duplicate.first_name@ == all[earlier].name@);
                        assert(duplicate.second_name@ == all[position].name@);
                        assert(0 <= earlier < position < all.len());
                    }
                    return Err(duplicate);
                },
            }
        }
        proof {
            assert(table.entries() =~= all);
        }
        Ok(table)
    }

    /// Looks the opcode up: the exact descriptor that was registered
    /// for it, or `None` for an unregistered opcode.
    pub fn get_instruction(&self, op_code: u8) -> (found: Option<&Instruction>)
        requires
            self.well_formed(),
        ensures
            found matches Some(instruction) ==> exists|i: int|
                0 <= i < self.entries().len() && self.entries()[i].op_code == op_code
                    && *instruction == self.entries()[i],
            found is None ==> !self.spec_contains(op_code),
            found is Some <==> self.spec_contains(op_code),
    {
        let count = self.instructions.len();
        for i in 0..count
            invariant
                count == self.instructions.len(),
                forall|k: int| 0 <= k < i ==> self.instructions@[k].op_code != op_code,
        {
            if self.instructions[i].op_code == op_code {
                proof {
                    assert(self.entries()[i as int].op_code == op_code);
                }
                return Some(&self.instructions[i]);
            }
        }
        None
    }
}

} // verus!
