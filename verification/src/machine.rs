//! The machine: owner of the code, the instruction table, the operand
//! and frame stacks and the global-name mapping, and driver of the
//! fetch-decode-execute loop.
//!
//! One step of the loop: fetch the next opcode byte at the top frame's
//! instruction pointer (no frame or no byte left means a clean halt),
//! resolve it in the instruction table (unresolved means
//! `UnknownOpCode`), snapshot the pointer as the arguments pointer,
//! advance the pointer past the instruction's immediate bytes, and only
//! then run the instruction's effect — so an instruction that
//! repositions the pointer does so relative to the post-immediate
//! position. The first runtime error halts the whole run.

use std::collections::HashMap;

use vstd::prelude::*;

use crate::call_frame::CallFrame;
use crate::code::Code;
use crate::exceptions::{
    EmptyCallStack, EmptyOperandStack, Exception, SlotOutOfBounds, UnknownOpCode,
};
use crate::instruction::Instruction;
use crate::instruction_pointer::InstructionPointer;
use crate::instruction_table::InstructionTable;
use crate::stack::Stack;

verus! {

/// The effect functions of one language's opcode set: the single
/// extension point of the engine. An implementation runs the effect of
/// each opcode it registered in the instruction table, touching the
/// machine only through the exposed operand/frame operations; it must
/// leave the code and the instruction table untouched, since both are
/// read-only configuration once the machine runs.
pub trait InstructionSet<Constant, Value> {
    /// Runs the effect of the already-decoded opcode `op_code`.
    /// `arguments_ip` points at the instruction's own immediate bytes;
    /// the machine's instruction pointer has already been advanced past
    /// them. Any error short-circuits the execute loop.
    fn run_instruction(
        machine: &mut Machine<Constant, Value>,
        op_code: u8,
        arguments_ip: InstructionPointer,
    ) -> (result: Result<(), Exception>)
        ensures
            final(machine).spec_code() == old(machine).spec_code(),
            final(machine).spec_instruction_table() == old(machine).spec_instruction_table(),
    ;
}

/// The structured artifact of a failed run: the exception and the
/// active frames at the moment of failure, ordered top (innermost)
/// first. Rendering is left to the caller.
#[derive(Debug, PartialEq, Eq)]
pub struct FailureReport {
    pub exception: Exception,
    pub frames: Vec<CallFrame>,
}

pub struct Machine<Constant, Value> {
    /// The parsed bytecode; read-only for the run's lifetime.
    pub code: Code<Constant>,
    instruction_table: InstructionTable,
    operand_stack: Stack<Value>,
    frame_stack: Stack<CallFrame>,
    /// The global-name mapping; untouched by the engine itself,
    /// available to instruction effects.
    pub globals: HashMap<String, Value>,
}

impl<Constant, Value> Machine<Constant, Value> {
    /// The operand stack, bottom first.
    pub closed spec fn operands(self) -> Seq<Value> {
        self.operand_stack@
    }

    /// The call frame stack, bottom first.
    pub closed spec fn frames(self) -> Seq<CallFrame> {
        self.frame_stack@
    }

    pub closed spec fn spec_code(self) -> Code<Constant> {
        self.code
    }

    pub closed spec fn spec_globals(self) -> HashMap<String, Value> {
        self.globals
    }

    pub closed spec fn spec_instruction_table(self) -> InstructionTable {
        self.instruction_table
    }

    /// Established by the constructor, preserved by every operation:
    /// the registered opcodes are unique.
    pub open spec fn wf(self) -> bool {
        self.spec_instruction_table().well_formed()
    }

    /// There is an active frame and its pointer has a next byte.
    pub open spec fn spec_has_next_byte(self) -> bool {
        self.frames().len() > 0 && self.spec_code().spec_has_next(
            self.frames().last().instruction_pointer,
        )
    }

    /// The opcode byte the active frame fetches next (meaningful when
    /// `spec_has_next_byte`).
    pub open spec fn spec_next_op_code(self) -> u8
        recommends
            self.spec_has_next_byte(),
    {
        self.spec_code().spec_byte_at(self.frames().last().instruction_pointer)
    }

    /// `fetched` is `self` after fetching exactly one byte: the active
    /// frame's pointer advanced past it, everything else unchanged.
    pub open spec fn spec_fetched_one_byte(self, fetched: Machine<Constant, Value>) -> bool {
        &&& self.frames().len() > 0
        &&& fetched.frames() == self.frames().update(
            self.frames().len() - 1,
            self.frames().last().with_pointer(
                InstructionPointer {
                    chunk_id: self.frames().last().instruction_pointer.chunk_id,
                    instruction_pointer: (self.frames().last().instruction_pointer.instruction_pointer
                        + 1) as usize,
                },
            ),
        )
        &&& fetched.operands() == self.operands()
        &&& fetched.spec_code() == self.spec_code()
        &&& fetched.spec_instruction_table() == self.spec_instruction_table()
        &&& fetched.spec_globals() == self.spec_globals()
    }

    /// A machine ready to run `code` with the given opcode set: empty
    /// operand and frame stacks, empty globals.
    pub fn new(code: Code<Constant>, instruction_table: InstructionTable) -> (machine: Machine<
        Constant,
        Value,
    >)
        requires
            instruction_table.well_formed(),
        ensures
            machine.wf(),
            machine.spec_code() == code,
            machine.spec_instruction_table() == instruction_table,
            machine.operands() == Seq::<Value>::empty(),
            machine.frames() == Seq::<CallFrame>::empty(),
            machine.spec_globals()@ == Map::<String, Value>::empty(),
    {
        Machine {
            code,
            instruction_table,
            operand_stack: Stack::empty(),
            frame_stack: Stack::empty(),
            globals: HashMap::new(),
        }
    }

    pub fn push_operand(&mut self, operand: Value)
        ensures
            final(self).operands() == old(self).operands().push(operand),
            final(self).frames() == old(self).frames(),
            final(self).spec_code() == old(self).spec_code(),
            final(self).spec_instruction_table() == old(self).spec_instruction_table(),
            final(self).spec_globals() == old(self).spec_globals(),
    {
        self.operand_stack.push(operand);
    }

    /// Read-only view of the top operand.
    pub fn peek_operand(&self) -> (result: Result<&Value, EmptyOperandStack>)
        ensures
            self.operands().len() == 0 ==> result is Err,
            self.operands().len() > 0 ==> (result matches Ok(operand) && *operand
                == self.operands().last()),
    {
        match self.operand_stack.peek() {
            Some(operand) => Ok(operand),
            None => Err(EmptyOperandStack),
        }
    }

    /// Removes and returns the top operand.
    pub fn pop_operand(&mut self) -> (result: Result<Value, EmptyOperandStack>)
        ensures
            old(self).operands().len() == 0 ==> result is Err && final(self).operands() == old(self).operands(),
            old(self).operands().len() > 0 ==> (result matches Ok(operand) && operand == old(self).operands().last() && final(self).operands() == old(self).operands().drop_last()),
            final(self).frames() == old(self).frames(),
            final(self).spec_code() == old(self).spec_code(),
            final(self).spec_instruction_table() == old(self).spec_instruction_table(),
            final(self).spec_globals() == old(self).spec_globals(),
    {
        match self.operand_stack.pop() {
            Some(operand) => Ok(operand),
            None => Err(EmptyOperandStack),
        }
    }

    /// Pops the right-hand operand, then the left-hand operand, and
    /// returns them in source order `(left, right)` — required for
    /// non-commutative operators. With fewer than two operands on the
    /// stack it fails and leaves the stack exactly as it was.
    pub fn pop_two_operands(&mut self) -> (result: Result<(Value, Value), Exception>)
        ensures
            old(self).operands().len() < 2 ==> result == Err::<(Value, Value), Exception>(
                Exception::EmptyOperandStack,
            ) && final(self).operands() == old(self).operands(),
            old(self).operands().len() >= 2 ==> (result matches Ok((left, right)) && left == old(self).operands()[old(self).operands().len() - 2] && right == old(self).operands().last()
                && final(self).operands() == old(self).operands().take(
                old(self).operands().len() - 2,
            )),
            final(self).frames() == old(self).frames(),
            final(self).spec_code() == old(self).spec_code(),
            final(self).spec_instruction_table() == old(self).spec_instruction_table(),
            final(self).spec_globals() == old(self).spec_globals(),
    {
        if self.operand_stack.len() < 2 {
            return Err(Exception::EmptyOperandStack);
        }
        let right = match self.pop_operand() {
            Ok(operand) => operand,
            Err(underflow) => {
                return Err(underflow.into_exception());
            },
        };
        let left = match self.pop_operand() {
            Ok(operand) => operand,
            Err(underflow) => {
                return Err(underflow.into_exception());
            },
        };
        proof {
            assert(self.operands() =~= old(self).operands().take(
                old(self).operands().len() - 2,
            ));
        }
        Ok((left, right))
    }

    /// Absolute operand access: slot 0 is the bottom of the stack.
    pub fn get_operand(&self, slot: usize) -> (result: Result<&Value, SlotOutOfBounds>)
        ensures
            slot < self.operands().len() ==> (result matches Ok(operand) && *operand
                == self.operands()[slot as int]),
            slot >= self.operands().len() ==> result is Err,
    {
        match self.operand_stack.get(slot) {
            Some(operand) => Ok(operand),
            None => Err(SlotOutOfBounds),
        }
    }

    /// Top-relative operand access: slot 0 is the top of the stack.
    pub fn get_operand_from_top(&self, slot_from_top: usize) -> (result: Result<
        &Value,
        SlotOutOfBounds,
    >)
        ensures
            slot_from_top < self.operands().len() ==> (result matches Ok(operand) && *operand
                == self.operands()[self.operands().len() - 1 - slot_from_top]),
            slot_from_top >= self.operands().len() ==> result is Err,
    {
        match self.operand_stack.get_from_top(slot_from_top) {
            Some(operand) => Ok(operand),
            None => Err(SlotOutOfBounds),
        }
    }

    /// Overwrites an existing operand slot.
    pub fn set_operand(&mut self, slot: usize, value: Value) -> (result: Result<
        (),
        SlotOutOfBounds,
    >)
        ensures
            slot < old(self).operands().len() ==> result is Ok && final(self).operands() == old(self).operands().update(slot as int, value),
            slot >= old(self).operands().len() ==> result is Err && final(self).operands() == old(self).operands(),
            final(self).frames() == old(self).frames(),
            final(self).spec_code() == old(self).spec_code(),
            final(self).spec_instruction_table() == old(self).spec_instruction_table(),
            final(self).spec_globals() == old(self).spec_globals(),
    {
        match self.operand_stack.set(slot, value) {
            Ok(()) => Ok(()),
            Err(()) => Err(SlotOutOfBounds),
        }
    }

    pub fn operand_stack_len(&self) -> (count: usize)
        ensures
            count == self.operands().len(),
    {
        self.operand_stack.len()
    }

    /// Read-only view of the top (active) frame.
    pub fn peek_frame(&self) -> (result: Result<&CallFrame, EmptyCallStack>)
        ensures
            self.frames().len() == 0 ==> result is Err,
            self.frames().len() > 0 ==> (result matches Ok(frame) && *frame
                == self.frames().last()),
    {
        match self.frame_stack.peek() {
            Some(frame) => Ok(frame),
            None => Err(EmptyCallStack),
        }
    }

    /// Pushes a frame for the given chunk; the frame's instruction
    /// pointer starts at the chunk's first byte.
    pub fn push_frame(&mut self, chunk_id: usize, name: String, start_slot: usize)
        ensures
            final(self).frames() == old(self).frames().push(
                CallFrame {
                    chunk_id,
                    name,
                    start_slot,
                    instruction_pointer: InstructionPointer { chunk_id, instruction_pointer: 0 },
                },
            ),
            final(self).operands() == old(self).operands(),
            final(self).spec_code() == old(self).spec_code(),
            final(self).spec_instruction_table() == old(self).spec_instruction_table(),
            final(self).spec_globals() == old(self).spec_globals(),
    {
        let frame = CallFrame::new(chunk_id, name, start_slot);
        self.frame_stack.push(frame);
    }

    /// Pops the top frame and truncates the operand stack to that
    /// frame's `start_slot`, discarding any operands the callee left
    /// behind above it.
    pub fn discard_frame(&mut self) -> (result: Result<CallFrame, EmptyCallStack>)
        ensures
            old(self).frames().len() == 0 ==> result is Err && final(self).frames() == old(self).frames() && final(self).operands() == old(self).operands(),
            old(self).frames().len() > 0 ==> (result matches Ok(frame) && frame == old(self).frames().last() && final(self).frames() == old(self).frames().drop_last() && final(self).operands() == (if frame.start_slot < old(self).operands().len() {
                old(self).operands().take(frame.start_slot as int)
            } else {
                old(self).operands()
            })),
            final(self).spec_code() == old(self).spec_code(),
            final(self).spec_instruction_table() == old(self).spec_instruction_table(),
            final(self).spec_globals() == old(self).spec_globals(),
    {
        let last_frame = match self.frame_stack.pop() {
            Some(frame) => frame,
            None => {
                return Err(EmptyCallStack);
            },
        };
        let last_frame_start = last_frame.start_slot;
        proof {
            assert(old(self).operands().take(old(self).operands().len() as int) =~= old(self).operands());
        }
        while self.operand_stack.len() > last_frame_start
            invariant
                self.frame_stack@ == old(self).frames().drop_last(),
                self.spec_code() == old(self).spec_code(),
                self.spec_instruction_table() == old(self).spec_instruction_table(),
                self.spec_globals() == old(self).spec_globals(),
                old(self).operands().len() <= last_frame_start ==> self.operand_stack@ == old(self).operands(),
                old(self).operands().len() > last_frame_start ==> self.operand_stack@ == old(self).operands().take(self.operand_stack@.len() as int) && self.operand_stack@.len()
                    >= last_frame_start && self.operand_stack@.len() <= old(self).operands().len(),
            decreases self.operand_stack@.len(),
        {
            let _ = self.operand_stack.pop();
            proof {
                assert(old(self).operands().take(self.operand_stack@.len() as int + 1).drop_last()
                    =~= old(self).operands().take(self.operand_stack@.len() as int));
            }
        }
        Ok(last_frame)
    }

    /// The position of the next byte the active frame will fetch.
    pub fn instruction_pointer(&self) -> (result: Result<InstructionPointer, EmptyCallStack>)
        ensures
            self.frames().len() == 0 ==> result is Err,
            self.frames().len() > 0 ==> result == Ok::<InstructionPointer, EmptyCallStack>(
                self.frames().last().instruction_pointer,
            ),
    {
        match self.frame_stack.peek() {
            Some(frame) => Ok(frame.instruction_pointer),
            None => Err(EmptyCallStack),
        }
    }

    /// Repositions the active frame's instruction pointer — how jump
    /// and call instructions redirect execution.
    pub fn set_instruction_pointer(&mut self, pointer: InstructionPointer) -> (result: Result<
        (),
        EmptyCallStack,
    >)
        ensures
            old(self).frames().len() == 0 ==> result is Err && final(self).frames() == old(self).frames(),
            old(self).frames().len() > 0 ==> result is Ok && final(self).frames() == old(self).frames().update(
                old(self).frames().len() - 1,
                old(self).frames().last().with_pointer(pointer),
            ),
            final(self).operands() == old(self).operands(),
            final(self).spec_code() == old(self).spec_code(),
            final(self).spec_instruction_table() == old(self).spec_instruction_table(),
            final(self).spec_globals() == old(self).spec_globals(),
    {
        self.frame_stack.set_top_pointer(pointer)
    }

    /// Fetches the byte at the active frame's pointer and advances the
    /// pointer past it. `None` — with the machine unchanged — when
    /// there is no active frame or the pointer has no next byte: the
    /// clean-halt condition of the execute loop.
    fn next_byte(&mut self) -> (byte: Option<u8>)
        ensures
            !old(self).spec_has_next_byte() ==> byte is None && *final(self) == *old(self),
            old(self).spec_has_next_byte() ==> byte == Some(
                old(self).spec_code().spec_byte_at(old(self).frames().last().instruction_pointer),
            ) && final(self).frames() == old(self).frames().update(
                old(self).frames().len() - 1,
                old(self).frames().last().with_pointer(
                    InstructionPointer {
                        chunk_id: old(self).frames().last().instruction_pointer.chunk_id,
                        instruction_pointer: (old(self).frames().last().instruction_pointer.instruction_pointer + 1) as usize,
                    },
                ),
            ),
            final(self).operands() == old(self).operands(),
            final(self).spec_code() == old(self).spec_code(),
            final(self).spec_instruction_table() == old(self).spec_instruction_table(),
            final(self).spec_globals() == old(self).spec_globals(),
    {
        let mut pointer = match self.instruction_pointer() {
            Ok(pointer) => pointer,
            Err(_) => {
                return None;
            },
        };
        match self.code.read(&mut pointer) {
            Some(byte) => {
                let _ = self.set_instruction_pointer(pointer);
                Some(byte)
            },
            None => None,
        }
    }

    /// Resolves an opcode in the instruction table; an absent opcode is
    /// the runtime error `UnknownOpCode`, not a configuration fault.
    fn find_instruction(&self, op_code: u8) -> (result: Result<&Instruction, UnknownOpCode>)
        requires
            self.wf(),
        ensures
            result matches Ok(instruction) ==> self.spec_instruction_table().spec_contains(op_code)
                && exists|i: int|
                0 <= i < self.spec_instruction_table().entries().len()
                    && self.spec_instruction_table().entries()[i].op_code == op_code && *instruction
                    == self.spec_instruction_table().entries()[i],
            result matches Err(unknown) ==> unknown == UnknownOpCode(op_code)
                && !self.spec_instruction_table().spec_contains(op_code),
    {
        match self.instruction_table.get_instruction(op_code) {
            Some(instruction) => Ok(instruction),
            None => Err(UnknownOpCode(op_code)),
        }
    }

    /// The fetch-decode-execute loop, bounded by a step budget:
    /// `Ok(true)` after a clean halt (no active frame, or no byte left
    /// to fetch), `Ok(false)` when the budget ran out first, `Err` with
    /// the first runtime error.
    fn run<Effects: InstructionSet<Constant, Value>>(&mut self, max_steps: usize) -> (outcome:
        Result<bool, Exception>)
        requires
            old(self).wf(),
        ensures
            final(self).wf(),
            final(self).spec_code() == old(self).spec_code(),
            final(self).spec_instruction_table() == old(self).spec_instruction_table(),
            outcome == Ok::<bool, Exception>(true) ==> !final(self).spec_has_next_byte(),
            max_steps > 0 && !old(self).spec_has_next_byte() ==> outcome == Ok::<
                bool,
                Exception,
            >(true) && *final(self) == *old(self),
            max_steps > 0 && old(self).spec_has_next_byte() && !old(
                self,
            ).spec_instruction_table().spec_contains(old(self).spec_next_op_code()) ==> outcome
                == Err::<bool, Exception>(Exception::UnknownOpCode(old(self).spec_next_op_code()))
                && old(self).spec_fetched_one_byte(*final(self)),
    {
        let mut steps_left = max_steps;
        loop
            invariant
                self.wf(),
                self.spec_code() == old(self).spec_code(),
                self.spec_instruction_table() == old(self).spec_instruction_table(),
                steps_left <= max_steps,
                steps_left == max_steps ==> *self == *old(self),
                steps_left < max_steps ==> max_steps > 0 && old(self).spec_has_next_byte() && old(
                    self,
                ).spec_instruction_table().spec_contains(old(self).spec_next_op_code()),
            decreases steps_left,
        {
            if steps_left == 0 {
                return Ok(false);
            }
            steps_left = steps_left - 1;
            let op_code = match self.next_byte() {
                Some(byte) => byte,
                None => {
                    return Ok(true);
                },
            };
            let byte_arity = match self.find_instruction(op_code) {
                Ok(instruction) => instruction.byte_arity,
                Err(unknown) => {
                    return Err(unknown.into_exception());
                },
            };
            let arguments_ip = match self.instruction_pointer() {
                Ok(pointer) => pointer,
                Err(empty) => {
                    return Err(empty.into_exception());
                },
            };
            let mut past_arguments = arguments_ip;
            past_arguments.jump_forward(byte_arity as usize);
            match self.set_instruction_pointer(past_arguments) {
                Ok(()) => {},
                Err(empty) => {
                    return Err(empty.into_exception());
                },
            }
            match Effects::run_instruction(self, op_code, arguments_ip) {
                Ok(()) => {},
                Err(exception) => {
                    return Err(exception);
                },
            }
        }
    }

    /// Runs to completion or first error. `Ok(true)` reports a clean
    /// halt and `Ok(false)` an exhausted step budget; a runtime error
    /// yields the structured failure report: the exception plus the
    /// frame trace at the moment of failure, top frame first.
    pub fn start<Effects: InstructionSet<Constant, Value>>(&mut self, max_steps: usize) -> (outcome:
        Result<bool, FailureReport>)
        requires
            old(self).wf(),
        ensures
            final(self).wf(),
            final(self).spec_code() == old(self).spec_code(),
            final(self).spec_instruction_table() == old(self).spec_instruction_table(),
            outcome == Ok::<bool, FailureReport>(true) ==> !final(self).spec_has_next_byte(),
            max_steps > 0 && !old(self).spec_has_next_byte() ==> outcome == Ok::<
                bool,
                FailureReport,
            >(true) && *final(self) == *old(self),
            max_steps > 0 && old(self).spec_has_next_byte() && !old(
                self,
            ).spec_instruction_table().spec_contains(old(self).spec_next_op_code()) ==> (outcome
                matches Err(report) && report.exception == Exception::UnknownOpCode(
                old(self).spec_next_op_code(),
            ) && old(self).spec_fetched_one_byte(*final(self)) && report.frames@.len() > 0),
            outcome matches Err(report) ==> report.frames@.len() == final(self).frames().len()
                && forall|i: int|
                0 <= i < report.frames@.len() ==> report.frames@[i].describes_same_frame(
                    final(self).frames()[final(self).frames().len() - 1 - i],
                ),
    {
        match self.run::<Effects>(max_steps) {
            Ok(finished) => Ok(finished),
            Err(exception) => Err(self.failure_report(exception)),
        }
    }

    /// Assembles the structured failure report for `exception`: the
    /// active frames, top (innermost) first.
    fn failure_report(&self, exception: Exception) -> (report: FailureReport)
        ensures
            report.exception == exception,
            report.frames@.len() == self.frames().len(),
            forall|i: int|
                0 <= i < report.frames@.len() ==> report.frames@[i].describes_same_frame(
                    self.frames()[self.frames().len() - 1 - i],
                ),
    {
        let count = self.frame_stack.len();
        let mut trace: Vec<CallFrame> = Vec::new();
        for i in 0..count
            invariant
                count == self.frames().len(),
                trace@.len() == i,
                forall|k: int|
                    0 <= k < i ==> trace@[k].describes_same_frame(
                        self.frames()[self.frames().len() - 1 - k],
                    ),
        {
            let frame = match self.frame_stack.get(count - 1 - i) {
                Some(frame) => frame.duplicate(),
                None => CallFrame::new(0, String::new(), 0),
            };
            trace.push(frame);
        }
        FailureReport { exception, frames: trace }
    }
}

/// Law: discarding a frame truncates the operand stack to the frame's
/// `start_slot`. However many operands were pushed while the frame was
/// active, once `start_slot` lies below the operand stack length,
/// `discard_frame` leaves exactly `start_slot` operands behind — the
/// operand stack afterward is what `discard_frame`'s contract states,
/// and its length is `start_slot`, independent of the earlier length.
pub proof fn lemma_discard_frame_length<Constant, Value>(
    pre: Machine<Constant, Value>,
    post: Machine<Constant, Value>,
    frame: CallFrame,
)
    requires
        pre.frames().len() > 0,
        frame == pre.frames().last(),
        frame.start_slot < pre.operands().len(),
        post.operands() == pre.operands().take(frame.start_slot as int),
    ensures
        post.operands().len() == frame.start_slot,
{
}

/// Law: top-relative reads see pushes in reverse order. After pushing
/// `first`, `second` and `third` onto any operand stack, the operand
/// that `get_operand_from_top(0)` returns is `third`, and the one that
/// `get_operand_from_top(2)` returns is `first`.
pub proof fn lemma_get_from_top_after_pushes<Value>(
    operands: Seq<Value>,
    first: Value,
    second: Value,
    third: Value,
)
    ensures
        ({
            let pushed = operands.push(first).push(second).push(third);
            &&& pushed[pushed.len() - 1 - 0] == third
            &&& pushed[pushed.len() - 1 - 2] == first
        }),
{
}

} // verus!
