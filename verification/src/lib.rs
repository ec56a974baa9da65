//! A generic, extensible stack-based bytecode virtual machine: a
//! fetch-decode-execute engine parameterized over a constant type and a
//! runtime value type, plus an instruction-registration mechanism that
//! lets a concrete language plug in its own opcode set and value
//! representation without modifying the engine.
//!
//! - [`code`] holds the parsed bytecode: chunks of constants and
//!   instruction bytes, addressed by [`instruction_pointer`].
//! - [`parsing`] turns a raw byte buffer into typed code.
//! - [`instruction`] and [`instruction_table`] describe the opcode set
//!   a concrete language registers with the engine.
//! - [`stack`] is the growable, randomly indexable container used both
//!   for operands and for call frames ([`call_frame`]).
//! - [`machine`] owns the mutable run state and drives the
//!   fetch-decode-execute loop.
//! - [`exceptions`] is the closed set of runtime failure kinds, and
//!   [`decimal`] renders the numbers in their messages.
//! - [`jex_values`], [`jex_constants`] and [`arithmetic`] are a worked
//!   example of a language ("jex") plugged into the generic engine.
#![verifier::loop_isolation(false)]

pub mod arithmetic;
pub mod call_frame;
pub mod code;
pub mod decimal;
pub mod instruction;
pub mod instruction_pointer;
pub mod instruction_table;
pub mod jex_constants;
pub mod jex_values;
pub mod machine;
pub mod parsing;
pub mod exceptions;
pub mod stack;
