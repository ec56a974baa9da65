//! The generic stack used both for operands and for call frames.
//!
//! It is a contiguous, zero-indexed, growable sequence with push/pop/peek
//! and both absolute (`get`/`set`) and top-relative (`get_from_top`)
//! access. Every slot-addressed operation reports an out-of-range access
//! through its result instead of panicking.

use vstd::prelude::*;

use crate::call_frame::CallFrame;
use crate::exceptions::EmptyCallStack;
use crate::instruction_pointer::InstructionPointer;

verus! {

pub struct Stack<T> {
    values: Vec<T>,
}

impl<T> View for Stack<T> {
    type V = Seq<T>;

    closed spec fn view(&self) -> Seq<T> {
        self.values@
    }
}

impl<T> Stack<T> {
    pub fn empty() -> (stack: Stack<T>)
        ensures
            stack@ == Seq::<T>::empty(),
    {
        Stack { values: Vec::new() }
    }

    pub fn len(&self) -> (n: usize)
        ensures
            n == self@.len(),
    {
        self.values.len()
    }

    pub fn push(&mut self, value: T)
        ensures
            final(self)@ == old(self)@.push(value),
    {
        self.values.push(value);
    }

    /// Removes and returns the top element; `None` on an empty stack.
    pub fn pop(&mut self) -> (popped: Option<T>)
        ensures
            old(self)@.len() == 0 ==> popped is None && final(self)@ == old(self)@,
            old(self)@.len() > 0 ==> popped == Some(old(self)@.last()) && final(self)@
                == old(self)@.drop_last(),
    {
        self.values.pop()
    }

    /// Read-only view of the top element.
    pub fn peek(&self) -> (top: Option<&T>)
        ensures
            self@.len() == 0 ==> top is None,
            self@.len() > 0 ==> (top matches Some(value) && *value == self@.last()),
    {
        if self.values.len() == 0 {
            None
        } else {
            Some(&self.values[self.values.len() - 1])
        }
    }

    /// Absolute access: slot 0 is the bottom of the stack.
    pub fn get(&self, slot: usize) -> (element: Option<&T>)
        ensures
            slot < self@.len() ==> (element matches Some(value) && *value == self@[slot as int]),
            slot >= self@.len() ==> element is None,
    {
        if slot < self.values.len() {
            Some(&self.values[slot])
        } else {
            None
        }
    }

    /// Top-relative access: slot 0 is the top of the stack.
    pub fn get_from_top(&self, slot_from_top: usize) -> (element: Option<&T>)
        ensures
            slot_from_top < self@.len() ==> (element matches Some(value) && *value == self@[self@.len()
                - 1 - slot_from_top]),
            slot_from_top >= self@.len() ==> element is None,
    {
        if slot_from_top < self.values.len() {
            Some(&self.values[self.values.len() - 1 - slot_from_top])
        } else {
            None
        }
    }

    /// Overwrites an existing slot; rejected when the slot is out of bounds.
    pub fn set(&mut self, slot: usize, value: T) -> (result: Result<(), ()>)
        ensures
            slot < old(self)@.len() ==> result is Ok && final(self)@ == old(self)@.update(
                slot as int,
                value,
            ),
            slot >= old(self)@.len() ==> result is Err && final(self)@ == old(self)@,
    {
        if slot < self.values.len() {
            let element = &mut self.values[slot];
            *element = value;
            Ok(())
        } else {
            Err(())
        }
    }
}

impl Stack<CallFrame> {
    /// Repositions the instruction pointer of the top (active) frame,
    /// leaving every other frame untouched.
    pub fn set_top_pointer(&mut self, pointer: InstructionPointer) -> (result: Result<
        (),
        EmptyCallStack,
    >)
        ensures
            old(self)@.len() == 0 ==> result is Err && final(self)@ == old(self)@,
            old(self)@.len() > 0 ==> result is Ok && final(self)@ == old(self)@.update(
                old(self)@.len() - 1,
                old(self)@.last().with_pointer(pointer),
            ),
    {
        let count = self.values.len();
        if count == 0 {
            return Err(EmptyCallStack);
        }
        let frame = &mut self.values[count - 1];
        frame.instruction_pointer = pointer;
        proof {
            assert(self@ =~= old(self)@.update(
                old(self)@.len() - 1,
                old(self)@.last().with_pointer(pointer),
            ));
        }
        Ok(())
    }
}

} // verus!
