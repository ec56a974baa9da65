//! The closed set of runtime failure kinds and the uniform exception
//! they convert into.
//!
//! All runtime errors short-circuit the fetch-decode-execute loop via
//! [`Exception`]; no instruction catches or recovers from another
//! instruction's error. Construction-time faults (duplicate opcode
//! registration, malformed bytecode) are separate types and occur
//! strictly before any instruction executes.

use vstd::prelude::*;

use crate::decimal::{spec_nat_decimal, u64_to_decimal};

verus! {

/// Pop or peek on an empty operand stack.
#[derive(Debug, PartialEq, Eq, Structural)]
pub struct EmptyOperandStack;

/// Peek or pop on an empty frame stack: no active frame.
#[derive(Debug, PartialEq, Eq, Structural)]
pub struct EmptyCallStack;

/// Absolute or top-relative slot access beyond the operand stack bounds.
#[derive(Debug, PartialEq, Eq, Structural)]
pub struct SlotOutOfBounds;

/// An opcode that is not present in the instruction table was fetched
/// during execution.
#[derive(Debug, PartialEq, Eq, Structural)]
pub struct UnknownOpCode(pub u8);

/// The uniform exception: every runtime error kind converts into it, so
/// the execute loop can short-circuit regardless of which subsystem
/// raised the error.
#[derive(Debug, PartialEq, Eq)]
pub enum Exception {
    EmptyOperandStack,
    EmptyCallStack,
    SlotOutOfBounds,
    UnknownOpCode(u8),
    /// An instruction's value-kind precondition was violated; the
    /// message names the operation and the offending operands.
    TypeError(String),
}

impl EmptyOperandStack {
    pub fn into_exception(self) -> (exception: Exception)
        ensures
            exception == Exception::EmptyOperandStack,
    {
        Exception::EmptyOperandStack
    }
}

impl EmptyCallStack {
    pub fn into_exception(self) -> (exception: Exception)
        ensures
            exception == Exception::EmptyCallStack,
    {
        Exception::EmptyCallStack
    }
}

impl SlotOutOfBounds {
    pub fn into_exception(self) -> (exception: Exception)
        ensures
            exception == Exception::SlotOutOfBounds,
    {
        Exception::SlotOutOfBounds
    }
}

impl UnknownOpCode {
    pub fn into_exception(self) -> (exception: Exception)
        ensures
            exception == Exception::UnknownOpCode(self.0),
    {
        Exception::UnknownOpCode(self.0)
    }
}

impl Exception {
    /// The human-readable message of this exception.
    pub open spec fn spec_message(self) -> Seq<char> {
        match self {
            Exception::EmptyOperandStack => "Operand stack is empty"@,
            Exception::EmptyCallStack => "Call stack is empty"@,
            Exception::SlotOutOfBounds => "Operand slot is out of bounds"@,
            Exception::UnknownOpCode(op_code) => "Unknown op code: "@ + spec_nat_decimal(
                op_code as nat,
            ),
            Exception::TypeError(message) => message@,
        }
    }

    /// Renders the uniform human-readable message; the caller decides
    /// the sink.
    pub fn message(&self) -> (message: String)
        ensures
            message@ == self.spec_message(),
    {
        match self {
            Exception::EmptyOperandStack => String::from_str("Operand stack is empty"),
            Exception::EmptyCallStack => String::from_str("Call stack is empty"),
            Exception::SlotOutOfBounds => String::from_str("Operand slot is out of bounds"),
            Exception::UnknownOpCode(op_code) => {
                let mut message = String::from_str("Unknown op code: ");
                message.append(u64_to_decimal(*op_code as u64).as_str());
                message
            },
            Exception::TypeError(message) => message.clone(),
        }
    }
}

} // verus!
