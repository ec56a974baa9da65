use jex_vm::instruction::Instruction;
use jex_vm::instruction_table::InstructionTable;

fn descriptor(op_code: u8, name: &str) -> Instruction {
    Instruction::new(op_code, name.to_string(), 0)
}

#[test]
fn initially_get_instruction_should_return_none() {
    let table = InstructionTable::new();
    assert!(table.get_instruction(0).is_none());
}

#[test]
fn registered_instruction_should_be_gettable() {
    let table = InstructionTable::with_instructions(vec![descriptor(0, "ADD")]).unwrap();
    let found = table.get_instruction(0).unwrap();
    assert_eq!(found.op_code, 0);
    assert_eq!(found.name, "ADD");
    assert_eq!(found.byte_arity, 0);
}

#[test]
fn registering_instructions_with_duplicate_opcodes_fails() {
    let result = InstructionTable::with_instructions(vec![descriptor(0, "ADD"), descriptor(0, "MUL")]);
    assert!(result.is_err());
    let duplicate = result.err().unwrap();
    assert_eq!(duplicate.op_code, 0);
    assert_eq!(duplicate.first_name, "ADD");
    assert_eq!(duplicate.second_name, "MUL");
}

#[test]
fn registering_instructions_with_distinct_opcodes_succeeds() {
    let table =
        InstructionTable::with_instructions(vec![descriptor(0, "ADD"), descriptor(1, "MUL")])
            .unwrap();
    assert_eq!(table.get_instruction(0).unwrap().name, "ADD");
    assert_eq!(table.get_instruction(1).unwrap().name, "MUL");
    assert!(table.get_instruction(2).is_none());
}
