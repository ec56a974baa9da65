use jex_vm::jex_constants::JexConstant;
use jex_vm::parsing::{parse_code, ParseError};

fn parse(bytes: Vec<u8>) -> Result<jex_vm::code::Code<JexConstant>, ParseError> {
    parse_code::<JexConstant>(&bytes)
}

#[test]
fn empty_buffer_parses_to_empty_code() {
    let code = parse(vec![]).unwrap();
    assert_eq!(code.chunks.len(), 0);
}

#[test]
fn chunk_with_constants_and_code_parses() {
    let bytes = vec![
        2, // two constants
        0, 0, 0, 0, 0, 0, 0, 0, 42, // Int(42), big-endian
        1, 0, 2, b'h', b'i', // String("hi")
        0, 3, // three code bytes
        15, 16, 17,
    ];
    let code = parse(bytes).unwrap();
    assert_eq!(code.chunks.len(), 1);
    let chunk = &code.chunks[0];
    assert_eq!(chunk.constants.len(), 2);
    assert_eq!(chunk.constants[0], JexConstant::Int(42));
    assert_eq!(chunk.constants[1], JexConstant::String("hi".to_string()));
    assert_eq!(chunk.code, vec![15, 16, 17]);
}

#[test]
fn negative_int_constant_is_twos_complement() {
    let bytes = vec![
        1, // one constant
        0, 0xFF, 0xFF, 0xFF, 0xFF, 0xFF, 0xFF, 0xFF, 0xFF, // Int(-1)
        0, 0, // no code bytes
    ];
    let code = parse(bytes).unwrap();
    assert_eq!(code.chunks[0].constants[0], JexConstant::Int(-1));
}

#[test]
fn two_chunks_parse_in_order() {
    let bytes = vec![
        0, 0, 1, 15, // chunk 0: no constants, code [15]
        0, 0, 2, 16, 17, // chunk 1: no constants, code [16, 17]
    ];
    let code = parse(bytes).unwrap();
    assert_eq!(code.chunks.len(), 2);
    assert_eq!(code.chunks[0].code, vec![15]);
    assert_eq!(code.chunks[1].code, vec![16, 17]);
}

#[test]
fn unknown_constant_tag_is_rejected() {
    let bytes = vec![1, 7, 0, 0];
    assert_eq!(parse(bytes), Err(ParseError::UnknownConstantTag(7)));
}

#[test]
fn truncated_int_constant_is_rejected() {
    let bytes = vec![1, 0, 1, 2, 3];
    assert_eq!(parse(bytes), Err(ParseError::TruncatedBytes));
}

#[test]
fn missing_code_region_is_rejected() {
    let bytes = vec![0, 0, 5, 1, 2]; // declares five code bytes, has two
    assert_eq!(parse(bytes), Err(ParseError::TruncatedBytes));
}

#[test]
fn declared_constant_count_beyond_buffer_is_rejected() {
    let bytes = vec![3, 0, 0, 0, 0, 0, 0, 0, 0, 1]; // three declared, one partial
    assert_eq!(parse(bytes), Err(ParseError::TruncatedBytes));
}

#[test]
fn string_constant_with_invalid_utf8_is_rejected() {
    let bytes = vec![1, 1, 0, 1, 0xFF, 0, 0];
    assert_eq!(parse(bytes), Err(ParseError::MalformedConstant));
}
