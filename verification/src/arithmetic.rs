//! The arithmetic instructions of the worked example language "jex":
//! five opcodes demonstrating how a value-type extension plugs into the
//! generic machine. Each effect touches machine state only through the
//! exposed operand operations, and dispatches on the value variants of
//! its operands.
//!
//! All five instructions take no immediate bytes. Opcodes 0 to 14 are
//! reserved for instruction families outside this crate's scope; the
//! arithmetic family occupies 15 to 19 of the same numbering space.
//!
//! Integer arithmetic wraps around on overflow, and `DIVIDE` truncates
//! toward zero; dividing by zero is a type error, raised before any
//! result is pushed.

use vstd::prelude::*;

use crate::exceptions::Exception;
use crate::instruction::Instruction;
use crate::instruction_pointer::InstructionPointer;
use crate::jex_constants::JexConstant;
use crate::jex_values::{JexObject, JexValue};
use crate::machine::{InstructionSet, Machine};

verus! {

/// The machine instantiated with the jex constant and value types.
pub type JexMachine = Machine<JexConstant, JexValue>;

pub const OP_NEGATE: u8 = 15;

pub const OP_ADD: u8 = 16;

pub const OP_SUBTRACT: u8 = 17;

pub const OP_MULTIPLY: u8 = 18;

pub const OP_DIVIDE: u8 = 19;

/// Integer division truncated toward zero, on unbounded integers.
pub open spec fn spec_truncated_div(left: int, right: int) -> int {
    let magnitude = (vstd::math::abs(left) / vstd::math::abs(right)) as int;
    if (left < 0) != (right < 0) {
        -magnitude
    } else {
        magnitude
    }
}

/// What `DIVIDE` pushes for `left / right` (`right != 0`): the
/// truncated quotient, wrapped into `i64` — the one overflowing case,
/// `i64::MIN / -1`, wraps to `i64::MIN`.
pub open spec fn spec_divide(left: i64, right: i64) -> i64 {
    if spec_truncated_div(left as int, right as int) > i64::MAX {
        i64::MIN
    } else {
        spec_truncated_div(left as int, right as int) as i64
    }
}

/// The magnitude of `value` as an unsigned integer.
fn int_magnitude(value: i64) -> (magnitude: u64)
    ensures
        magnitude as int == vstd::math::abs(value as int),
{
    if value >= 0 {
        value as u64
    } else if value == i64::MIN {
        9223372036854775808u64
    } else {
        (-value) as u64
    }
}

/// NEGATE: pop one operand, require an integer, push its negation
/// (wrapping on `i64::MIN`); a non-integer operand is a type error.
pub fn negate_instruction(machine: &mut JexMachine, arguments_ip: InstructionPointer) -> (result:
    Result<(), Exception>)
    ensures
        final(machine).frames() == old(machine).frames(),
        final(machine).spec_code() == old(machine).spec_code(),
        final(machine).spec_instruction_table() == old(machine).spec_instruction_table(),
        final(machine).spec_globals() == old(machine).spec_globals(),
        old(machine).operands().len() == 0 ==> result == Err::<(), Exception>(
            Exception::EmptyOperandStack,
        ) && final(machine).operands() == old(machine).operands(),
        old(machine).operands().len() > 0 && old(machine).operands().last().spec_is_int()
            ==> result is Ok && final(machine).operands() == old(machine).operands().drop_last().push(
            JexValue::Int(
                vstd::wrapping::i64_specs::wrapping_sub(
                    0i64,
                    old(machine).operands().last().spec_int(),
                ),
            ),
        ),
        old(machine).operands().len() > 0 && !old(machine).operands().last().spec_is_int() ==> (
        result matches Err(exception) && exception matches Exception::TypeError(message)
            && message@ == "Expected an int value but got "@ + old(machine).operands().last().spec_display() && final(machine).operands() == old(machine).operands().drop_last()),
{
    let value = match machine.pop_operand() {
        Ok(value) => value,
        Err(underflow) => {
            return Err(underflow.into_exception());
        },
    };
    let int_value = match value.as_int() {
        Ok(int_value) => int_value,
        Err(exception) => {
            return Err(exception);
        },
    };
    let negated: i64 = if int_value == i64::MIN {
        i64::MIN
    } else {
        0 - int_value
    };
    machine.push_operand(JexValue::Int(negated));
    Ok(())
}

/// ADD: pop two operands. Integer + integer pushes the (wrapping) sum;
/// string + string pushes the concatenation, left operand first; any
/// other pairing is a type error whose message shows both operands'
/// display forms.
pub fn add_instruction(machine: &mut JexMachine, arguments_ip: InstructionPointer) -> (result:
    Result<(), Exception>)
    ensures
        final(machine).frames() == old(machine).frames(),
        final(machine).spec_code() == old(machine).spec_code(),
        final(machine).spec_instruction_table() == old(machine).spec_instruction_table(),
        final(machine).spec_globals() == old(machine).spec_globals(),
        old(machine).operands().len() < 2 ==> result == Err::<(), Exception>(
            Exception::EmptyOperandStack,
        ) && final(machine).operands() == old(machine).operands(),
        old(machine).operands().len() >= 2 ==> {
            let shortened = old(machine).operands().take(old(machine).operands().len() - 2);
            let left = old(machine).operands()[old(machine).operands().len() - 2];
            let right = old(machine).operands().last();
            &&& (left.spec_is_int() && right.spec_is_int() ==> result is Ok && final(machine).operands() == shortened.push(
                JexValue::Int(
                    vstd::wrapping::i64_specs::wrapping_add(left.spec_int(), right.spec_int()),
                ),
            ))
            &&& (left.spec_is_string() && right.spec_is_string() ==> result is Ok && final(machine).operands().len() == shortened.len() + 1 && final(machine).operands() == shortened.push(
                final(machine).operands().last(),
            ) && final(machine).operands().last().spec_is_string() && final(machine).operands().last().spec_string() == left.spec_string() + right.spec_string())
            &&& (!(left.spec_is_int() && right.spec_is_int()) && !(left.spec_is_string()
                && right.spec_is_string()) ==> (result matches Err(exception) && exception
                matches Exception::TypeError(message) && message@ == "ADD not supported for "@
                + left.spec_display() + " and "@ + right.spec_display() && final(machine).operands()
                == shortened))
        },
{
    let (left, right) = match machine.pop_two_operands() {
        Ok(operands) => operands,
        Err(exception) => {
            return Err(exception);
        },
    };
    match (left, right) {
        (JexValue::Int(left_int), JexValue::Int(right_int)) => {
            machine.push_operand(JexValue::Int(left_int.wrapping_add(right_int)));
            Ok(())
        },
        (JexValue::Object(left_object), JexValue::Object(right_object)) => {
            let concatenated = match (&*left_object, &*right_object) {
                (JexObject::String(left_text), JexObject::String(right_text)) => {
                    let mut text = left_text.clone();
                    text.append(right_text.as_str());
                    text
                },
            };
            machine.push_operand(JexValue::from_string(concatenated));
            Ok(())
        },
        (left, right) => {
            let mut message = String::from_str("ADD not supported for ");
            message.append(left.to_output_string().as_str());
            message.append(" and ");
            message.append(right.to_output_string().as_str());
            proof {
                reveal_strlit(" and ");
            }
            Err(Exception::TypeError(message))
        },
    }
}

/// SUBTRACT: pop two operands, require integers, push the (wrapping)
/// difference `left - right`.
pub fn subtract_instruction(machine: &mut JexMachine, arguments_ip: InstructionPointer) -> (result:
    Result<(), Exception>)
    ensures
        final(machine).frames() == old(machine).frames(),
        final(machine).spec_code() == old(machine).spec_code(),
        final(machine).spec_instruction_table() == old(machine).spec_instruction_table(),
        final(machine).spec_globals() == old(machine).spec_globals(),
        old(machine).operands().len() < 2 ==> result == Err::<(), Exception>(
            Exception::EmptyOperandStack,
        ) && final(machine).operands() == old(machine).operands(),
        old(machine).operands().len() >= 2 ==> {
            let shortened = old(machine).operands().take(old(machine).operands().len() - 2);
            let left = old(machine).operands()[old(machine).operands().len() - 2];
            let right = old(machine).operands().last();
            &&& (left.spec_is_int() && right.spec_is_int() ==> result is Ok && final(machine).operands() == shortened.push(
                JexValue::Int(
                    vstd::wrapping::i64_specs::wrapping_sub(left.spec_int(), right.spec_int()),
                ),
            ))
            &&& (!left.spec_is_int() ==> (result matches Err(exception) && exception
                matches Exception::TypeError(message) && message@
                == "Expected an int value but got "@ + left.spec_display() && final(machine).operands() == shortened))
            &&& (left.spec_is_int() && !right.spec_is_int() ==> (result matches Err(exception)
                && exception matches Exception::TypeError(message) && message@
                == "Expected an int value but got "@ + right.spec_display() && final(machine).operands() == shortened))
        },
{
    let (left, right) = match machine.pop_two_operands() {
        Ok(operands) => operands,
        Err(exception) => {
            return Err(exception);
        },
    };
    let left_int = match left.as_int() {
        Ok(left_int) => left_int,
        Err(exception) => {
            return Err(exception);
        },
    };
    let right_int = match right.as_int() {
        Ok(right_int) => right_int,
        Err(exception) => {
            return Err(exception);
        },
    };
    machine.push_operand(JexValue::Int(left_int.wrapping_sub(right_int)));
    Ok(())
}

/// MULTIPLY: pop two operands, require integers, push the (wrapping)
/// product.
pub fn multiply_instruction(machine: &mut JexMachine, arguments_ip: InstructionPointer) -> (result:
    Result<(), Exception>)
    ensures
        final(machine).frames() == old(machine).frames(),
        final(machine).spec_code() == old(machine).spec_code(),
        final(machine).spec_instruction_table() == old(machine).spec_instruction_table(),
        final(machine).spec_globals() == old(machine).spec_globals(),
        old(machine).operands().len() < 2 ==> result == Err::<(), Exception>(
            Exception::EmptyOperandStack,
        ) && final(machine).operands() == old(machine).operands(),
        old(machine).operands().len() >= 2 ==> {
            let shortened = old(machine).operands().take(old(machine).operands().len() - 2);
            let left = old(machine).operands()[old(machine).operands().len() - 2];
            let right = old(machine).operands().last();
            &&& (left.spec_is_int() && right.spec_is_int() ==> result is Ok && final(machine).operands() == shortened.push(
                JexValue::Int(
                    vstd::wrapping::i64_specs::wrapping_mul(left.spec_int(), right.spec_int()),
                ),
            ))
            &&& (!left.spec_is_int() ==> (result matches Err(exception) && exception
                matches Exception::TypeError(message) && message@
                == "Expected an int value but got "@ + left.spec_display() && final(machine).operands() == shortened))
            &&& (left.spec_is_int() && !right.spec_is_int() ==> (result matches Err(exception)
                && exception matches Exception::TypeError(message) && message@
                == "Expected an int value but got "@ + right.spec_display() && final(machine).operands() == shortened))
        },
{
    let (left, right) = match machine.pop_two_operands() {
        Ok(operands) => operands,
        Err(exception) => {
            return Err(exception);
        },
    };
    let left_int = match left.as_int() {
        Ok(left_int) => left_int,
        Err(exception) => {
            return Err(exception);
        },
    };
    let right_int = match right.as_int() {
        Ok(right_int) => right_int,
        Err(exception) => {
            return Err(exception);
        },
    };
    machine.push_operand(JexValue::Int(left_int.wrapping_mul(right_int)));
    Ok(())
}

/// DIVIDE: pop two operands, require integers, push the quotient
/// truncated toward zero. Division by zero is a type error.
pub fn divide_instruction(machine: &mut JexMachine, arguments_ip: InstructionPointer) -> (result:
    Result<(), Exception>)
    ensures
        final(machine).frames() == old(machine).frames(),
        final(machine).spec_code() == old(machine).spec_code(),
        final(machine).spec_instruction_table() == old(machine).spec_instruction_table(),
        final(machine).spec_globals() == old(machine).spec_globals(),
        old(machine).operands().len() < 2 ==> result == Err::<(), Exception>(
            Exception::EmptyOperandStack,
        ) && final(machine).operands() == old(machine).operands(),
        old(machine).operands().len() >= 2 ==> {
            let shortened = old(machine).operands().take(old(machine).operands().len() - 2);
            let left = old(machine).operands()[old(machine).operands().len() - 2];
            let right = old(machine).operands().last();
            &&& (left.spec_is_int() && right.spec_is_int() && right.spec_int() != 0
                ==> result is Ok && final(machine).operands() == shortened.push(
                JexValue::Int(spec_divide(left.spec_int(), right.spec_int())),
            ))
            &&& (left.spec_is_int() && right.spec_is_int() && right.spec_int() == 0 ==> (result
                matches Err(exception) && exception matches Exception::TypeError(message)
                && message@ == "Division by zero"@ && final(machine).operands() == shortened))
            &&& (!left.spec_is_int() ==> (result matches Err(exception) && exception
                matches Exception::TypeError(message) && message@
                == "Expected an int value but got "@ + left.spec_display() && final(machine).operands() == shortened))
            &&& (left.spec_is_int() && !right.spec_is_int() ==> (result matches Err(exception)
                && exception matches Exception::TypeError(message) && message@
                == "Expected an int value but got "@ + right.spec_display() && final(machine).operands() == shortened))
        },
{
    let (left, right) = match machine.pop_two_operands() {
        Ok(operands) => operands,
        Err(exception) => {
            return Err(exception);
        },
    };
    let left_int = match left.as_int() {
        Ok(left_int) => left_int,
        Err(exception) => {
            return Err(exception);
        },
    };
    let right_int = match right.as_int() {
        Ok(right_int) => right_int,
        Err(exception) => {
            return Err(exception);
        },
    };
    if right_int == 0 {
        return Err(Exception::TypeError(String::from_str("Division by zero")));
    }
    let magnitude_left = int_magnitude(left_int);
    let magnitude_right = int_magnitude(right_int);
    let quotient = magnitude_left / magnitude_right;
    let negative = (left_int < 0) != (right_int < 0);
    let quotient_value: i64 = if negative {
        if quotient == 9223372036854775808u64 {
            i64::MIN
        } else {
            0 - (quotient as i64)
        }
    } else {
        if quotient >= 9223372036854775808u64 {
            i64::MIN
        } else {
            quotient as i64
        }
    };
    machine.push_operand(JexValue::Int(quotient_value));
    Ok(())
}

/// The descriptors of the five arithmetic instructions, in opcode
/// order; all take no immediate bytes, and their opcodes are pairwise
/// distinct, so registering them in an instruction table succeeds.
pub fn arithmetic_instructions() -> (instructions: Vec<Instruction>)
    ensures
        instructions@.len() == 5,
        instructions@[0].op_code == OP_NEGATE && instructions@[0].byte_arity == 0
            && instructions@[0].name@ == "NEGATE"@,
        instructions@[1].op_code == OP_ADD && instructions@[1].byte_arity == 0
            && instructions@[1].name@ == "ADD"@,
        instructions@[2].op_code == OP_SUBTRACT && instructions@[2].byte_arity == 0
            && instructions@[2].name@ == "SUBTRACT"@,
        instructions@[3].op_code == OP_MULTIPLY && instructions@[3].byte_arity == 0
            && instructions@[3].name@ == "MULTIPLY"@,
        instructions@[4].op_code == OP_DIVIDE && instructions@[4].byte_arity == 0
            && instructions@[4].name@ == "DIVIDE"@,
        forall|i: int, j: int|
            0 <= i < j < instructions@.len() ==> instructions@[i].op_code
                != instructions@[j].op_code,
{
    let mut instructions: Vec<Instruction> = Vec::new();
    instructions.push(Instruction::new(OP_NEGATE, String::from_str("NEGATE"), 0));
    instructions.push(Instruction::new(OP_ADD, String::from_str("ADD"), 0));
    instructions.push(Instruction::new(OP_SUBTRACT, String::from_str("SUBTRACT"), 0));
    instructions.push(Instruction::new(OP_MULTIPLY, String::from_str("MULTIPLY"), 0));
    instructions.push(Instruction::new(OP_DIVIDE, String::from_str("DIVIDE"), 0));
    instructions
}

/// The jex opcode set as the engine's extension point: dispatches each
/// arithmetic opcode to its effect function; any other opcode is the
/// runtime error `UnknownOpCode`.
pub struct JexInstructions;

impl InstructionSet<JexConstant, JexValue> for JexInstructions {
    fn run_instruction(
        machine: &mut Machine<JexConstant, JexValue>,
        op_code: u8,
        arguments_ip: InstructionPointer,
    ) -> (result: Result<(), Exception>) {
        if op_code == OP_NEGATE {
            negate_instruction(machine, arguments_ip)
        } else if op_code == OP_ADD {
            add_instruction(machine, arguments_ip)
        } else if op_code == OP_SUBTRACT {
            subtract_instruction(machine, arguments_ip)
        } else if op_code == OP_MULTIPLY {
            multiply_instruction(machine, arguments_ip)
        } else if op_code == OP_DIVIDE {
            divide_instruction(machine, arguments_ip)
        } else {
            Err(Exception::UnknownOpCode(op_code))
        }
    }
}

} // verus!
