use jex_vm::arithmetic::{
    add_instruction, arithmetic_instructions, divide_instruction, multiply_instruction,
    negate_instruction, subtract_instruction, JexMachine,
};
use jex_vm::code::Code;
use jex_vm::exceptions::Exception;
use jex_vm::instruction_pointer::InstructionPointer;
use jex_vm::instruction_table::InstructionTable;
use jex_vm::jex_values::JexValue;
use jex_vm::machine::Machine;

fn empty_machine() -> JexMachine {
    let table = InstructionTable::with_instructions(arithmetic_instructions()).unwrap();
    Machine::new(Code { chunks: vec![] }, table)
}

fn pointer() -> InstructionPointer {
    InstructionPointer::new(0)
}

fn string_value(text: &str) -> JexValue {
    JexValue::from_string(text.to_string())
}

fn type_error_message(result: Result<(), Exception>) -> String {
    match result {
        Err(Exception::TypeError(message)) => message,
        other => panic!("expected a type error, got {:?}", other),
    }
}

#[test]
fn add_two_ints_pushes_their_sum() {
    let mut machine = empty_machine();
    machine.push_operand(JexValue::Int(2));
    machine.push_operand(JexValue::Int(3));
    add_instruction(&mut machine, pointer()).unwrap();
    assert_eq!(machine.peek_operand().unwrap(), &JexValue::Int(5));
    assert_eq!(machine.operand_stack_len(), 1);
}

#[test]
fn add_two_strings_concatenates_left_first() {
    let mut machine = empty_machine();
    machine.push_operand(string_value("a"));
    machine.push_operand(string_value("b"));
    add_instruction(&mut machine, pointer()).unwrap();
    assert_eq!(machine.peek_operand().unwrap(), &string_value("ab"));
}

#[test]
fn add_int_and_string_is_a_type_error_naming_both_operands() {
    let mut machine = empty_machine();
    machine.push_operand(JexValue::Int(1));
    machine.push_operand(string_value("x"));
    let message = type_error_message(add_instruction(&mut machine, pointer()));
    assert_eq!(message, "ADD not supported for 1 and x");
}

#[test]
fn add_with_one_operand_underflows_without_losing_it() {
    let mut machine = empty_machine();
    machine.push_operand(JexValue::Int(1));
    let result = add_instruction(&mut machine, pointer());
    assert_eq!(result, Err(Exception::EmptyOperandStack));
    assert_eq!(machine.operand_stack_len(), 1);
}

#[test]
fn add_wraps_on_overflow() {
    let mut machine = empty_machine();
    machine.push_operand(JexValue::Int(i64::MAX));
    machine.push_operand(JexValue::Int(1));
    add_instruction(&mut machine, pointer()).unwrap();
    assert_eq!(machine.peek_operand().unwrap(), &JexValue::Int(i64::MIN));
}

#[test]
fn negate_int_pushes_its_negation() {
    let mut machine = empty_machine();
    machine.push_operand(JexValue::Int(5));
    negate_instruction(&mut machine, pointer()).unwrap();
    assert_eq!(machine.peek_operand().unwrap(), &JexValue::Int(-5));
}

#[test]
fn negate_string_is_a_type_error() {
    let mut machine = empty_machine();
    machine.push_operand(string_value("x"));
    let message = type_error_message(negate_instruction(&mut machine, pointer()));
    assert_eq!(message, "Expected an int value but got x");
}

#[test]
fn subtract_ints() {
    let mut machine = empty_machine();
    machine.push_operand(JexValue::Int(5));
    machine.push_operand(JexValue::Int(3));
    subtract_instruction(&mut machine, pointer()).unwrap();
    assert_eq!(machine.peek_operand().unwrap(), &JexValue::Int(2));
}

#[test]
fn multiply_ints() {
    let mut machine = empty_machine();
    machine.push_operand(JexValue::Int(4));
    machine.push_operand(JexValue::Int(3));
    multiply_instruction(&mut machine, pointer()).unwrap();
    assert_eq!(machine.peek_operand().unwrap(), &JexValue::Int(12));
}

#[test]
fn divide_truncates_toward_zero() {
    let mut machine = empty_machine();
    machine.push_operand(JexValue::Int(7));
    machine.push_operand(JexValue::Int(2));
    divide_instruction(&mut machine, pointer()).unwrap();
    assert_eq!(machine.peek_operand().unwrap(), &JexValue::Int(3));
}

#[test]
fn divide_truncates_toward_zero_for_negative_dividends() {
    let mut machine = empty_machine();
    machine.push_operand(JexValue::Int(-7));
    machine.push_operand(JexValue::Int(2));
    divide_instruction(&mut machine, pointer()).unwrap();
    assert_eq!(machine.peek_operand().unwrap(), &JexValue::Int(-3));
}

#[test]
fn divide_by_zero_is_a_type_error() {
    let mut machine = empty_machine();
    machine.push_operand(JexValue::Int(7));
    machine.push_operand(JexValue::Int(0));
    let message = type_error_message(divide_instruction(&mut machine, pointer()));
    assert_eq!(message, "Division by zero");
}

#[test]
fn subtract_with_string_operand_names_the_offender() {
    let mut machine = empty_machine();
    machine.push_operand(string_value("left"));
    machine.push_operand(JexValue::Int(3));
    let message = type_error_message(subtract_instruction(&mut machine, pointer()));
    assert_eq!(message, "Expected an int value but got left");

    let mut machine = empty_machine();
    machine.push_operand(JexValue::Int(3));
    machine.push_operand(string_value("right"));
    let message = type_error_message(multiply_instruction(&mut machine, pointer()));
    assert_eq!(message, "Expected an int value but got right");
}
