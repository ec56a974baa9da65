use jex_vm::arithmetic::{arithmetic_instructions, JexMachine};
use jex_vm::code::Code;
use jex_vm::instruction_table::InstructionTable;
use jex_vm::jex_values::JexValue;
use jex_vm::machine::Machine;

fn empty_machine() -> JexMachine {
    let table = InstructionTable::with_instructions(arithmetic_instructions()).unwrap();
    Machine::new(Code { chunks: vec![] }, table)
}

#[test]
fn pop_two_operands_on_empty_stack_fails_and_keeps_length() {
    let mut machine = empty_machine();
    assert!(machine.pop_two_operands().is_err());
    assert_eq!(machine.operand_stack_len(), 0);
}

#[test]
fn pop_two_operands_on_one_element_fails_and_keeps_length() {
    let mut machine = empty_machine();
    machine.push_operand(JexValue::Int(7));
    assert!(machine.pop_two_operands().is_err());
    assert_eq!(machine.operand_stack_len(), 1);
    assert_eq!(machine.peek_operand().unwrap(), &JexValue::Int(7));
}

#[test]
fn pop_two_operands_returns_left_then_right() {
    let mut machine = empty_machine();
    machine.push_operand(JexValue::Int(1));
    machine.push_operand(JexValue::Int(2));
    let (left, right) = machine.pop_two_operands().unwrap();
    assert_eq!(left, JexValue::Int(1));
    assert_eq!(right, JexValue::Int(2));
    assert_eq!(machine.operand_stack_len(), 0);
}

#[test]
fn discard_frame_truncates_operands_to_start_slot() {
    let mut machine = empty_machine();
    for i in 0..5 {
        machine.push_operand(JexValue::Int(i));
    }
    machine.push_frame(0, "callee".to_string(), 2);
    let frame = machine.discard_frame().unwrap();
    assert_eq!(frame.start_slot, 2);
    assert_eq!(machine.operand_stack_len(), 2);
    assert_eq!(machine.peek_operand().unwrap(), &JexValue::Int(1));
}

#[test]
fn discard_frame_on_empty_frame_stack_fails() {
    let mut machine = empty_machine();
    machine.push_operand(JexValue::Int(1));
    assert!(machine.discard_frame().is_err());
    assert_eq!(machine.operand_stack_len(), 1);
}

#[test]
fn get_operand_from_top_sees_pushes_in_reverse_order() {
    let mut machine = empty_machine();
    machine.push_operand(JexValue::Int(10));
    machine.push_operand(JexValue::Int(20));
    machine.push_operand(JexValue::Int(30));
    assert_eq!(machine.get_operand_from_top(0).unwrap(), &JexValue::Int(30));
    assert_eq!(machine.get_operand_from_top(2).unwrap(), &JexValue::Int(10));
    assert!(machine.get_operand_from_top(3).is_err());
}

#[test]
fn get_and_set_operand_use_absolute_slots() {
    let mut machine = empty_machine();
    machine.push_operand(JexValue::Int(10));
    machine.push_operand(JexValue::Int(20));
    assert_eq!(machine.get_operand(0).unwrap(), &JexValue::Int(10));
    machine.set_operand(0, JexValue::Int(99)).unwrap();
    assert_eq!(machine.get_operand(0).unwrap(), &JexValue::Int(99));
    assert!(machine.get_operand(2).is_err());
    assert!(machine.set_operand(2, JexValue::Int(0)).is_err());
}

#[test]
fn push_frame_starts_at_chunk_begin_and_peek_sees_it() {
    let mut machine = empty_machine();
    assert!(machine.peek_frame().is_err());
    assert!(machine.instruction_pointer().is_err());
    machine.push_frame(3, "main".to_string(), 0);
    let frame = machine.peek_frame().unwrap();
    assert_eq!(frame.chunk_id, 3);
    assert_eq!(frame.name, "main");
    let pointer = machine.instruction_pointer().unwrap();
    assert_eq!(pointer.chunk_id, 3);
    assert_eq!(pointer.instruction_pointer, 0);
}
