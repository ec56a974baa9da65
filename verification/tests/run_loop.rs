use jex_vm::arithmetic::{arithmetic_instructions, JexInstructions, JexMachine};
use jex_vm::code::{Chunk, Code};
use jex_vm::exceptions::Exception;
use jex_vm::instruction_table::InstructionTable;
use jex_vm::jex_constants::JexConstant;
use jex_vm::jex_values::JexValue;
use jex_vm::machine::Machine;
use jex_vm::parsing::parse_code;

const MAX_STEPS: usize = 10_000;

fn machine_for(code_bytes: Vec<u8>) -> JexMachine {
    let table = InstructionTable::with_instructions(arithmetic_instructions()).unwrap();
    let code = Code { chunks: vec![Chunk { constants: vec![], code: code_bytes }] };
    let mut machine = Machine::new(code, table);
    machine.push_frame(0, "main".to_string(), 0);
    machine
}

#[test]
fn machine_without_frames_halts_cleanly_at_once() {
    let table = InstructionTable::with_instructions(arithmetic_instructions()).unwrap();
    let mut machine: JexMachine = Machine::new(Code { chunks: vec![] }, table);
    assert_eq!(machine.start::<JexInstructions>(MAX_STEPS), Ok(true));
}

#[test]
fn empty_chunk_halts_cleanly() {
    let mut machine = machine_for(vec![]);
    assert_eq!(machine.start::<JexInstructions>(MAX_STEPS), Ok(true));
}

#[test]
fn add_program_leaves_sum_on_stack() {
    let mut machine = machine_for(vec![16]);
    machine.push_operand(JexValue::Int(2));
    machine.push_operand(JexValue::Int(3));
    assert_eq!(machine.start::<JexInstructions>(MAX_STEPS), Ok(true));
    assert_eq!(machine.peek_operand().unwrap(), &JexValue::Int(5));
}

#[test]
fn negate_then_add_runs_in_order() {
    let mut machine = machine_for(vec![15, 16]);
    machine.push_operand(JexValue::Int(3));
    machine.push_operand(JexValue::Int(4));
    assert_eq!(machine.start::<JexInstructions>(MAX_STEPS), Ok(true));
    assert_eq!(machine.peek_operand().unwrap(), &JexValue::Int(-1));
    assert_eq!(machine.operand_stack_len(), 1);
}

#[test]
fn zero_step_budget_reports_an_unfinished_run() {
    let mut machine = machine_for(vec![16]);
    machine.push_operand(JexValue::Int(2));
    machine.push_operand(JexValue::Int(3));
    assert_eq!(machine.start::<JexInstructions>(0), Ok(false));
}

#[test]
fn unknown_opcode_halts_with_report_naming_the_byte_and_frame() {
    let mut machine = machine_for(vec![42]);
    let report = machine.start::<JexInstructions>(MAX_STEPS).err().unwrap();
    assert_eq!(report.exception, Exception::UnknownOpCode(42));
    assert_eq!(report.exception.message(), "Unknown op code: 42");
    assert!(!report.frames.is_empty());
    assert_eq!(report.frames[0].name, "main");
    assert_eq!(report.frames[0].chunk_id, 0);
}

#[test]
fn runtime_error_mid_program_halts_the_run() {
    let mut machine = machine_for(vec![16]);
    machine.push_operand(JexValue::Int(2));
    let report = machine.start::<JexInstructions>(MAX_STEPS).err().unwrap();
    assert_eq!(report.exception, Exception::EmptyOperandStack);
    assert_eq!(report.exception.message(), "Operand stack is empty");
    assert_eq!(report.frames.len(), 1);
}

#[test]
fn type_error_report_carries_the_rendered_message() {
    let mut machine = machine_for(vec![16]);
    machine.push_operand(JexValue::Int(1));
    machine.push_operand(JexValue::from_string("x".to_string()));
    let report = machine.start::<JexInstructions>(MAX_STEPS).err().unwrap();
    assert_eq!(report.exception.message(), "ADD not supported for 1 and x");
}

#[test]
fn parsed_bytes_run_end_to_end() {
    // one chunk, no constants, code [NEGATE, NEGATE]
    let bytes = vec![0, 0, 2, 15, 15];
    let code = parse_code::<JexConstant>(&bytes).unwrap();
    let table = InstructionTable::with_instructions(arithmetic_instructions()).unwrap();
    let mut machine: JexMachine = Machine::new(code, table);
    machine.push_operand(JexValue::Int(9));
    machine.push_frame(0, "main".to_string(), 0);
    assert_eq!(machine.start::<JexInstructions>(MAX_STEPS), Ok(true));
    assert_eq!(machine.peek_operand().unwrap(), &JexValue::Int(9));
}
