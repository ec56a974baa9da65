use jex_vm::decimal::{i64_to_decimal, u64_to_decimal};
use jex_vm::exceptions::Exception;
use jex_vm::jex_values::JexValue;

#[test]
fn unsigned_decimal_rendering() {
    assert_eq!(u64_to_decimal(0), "0");
    assert_eq!(u64_to_decimal(7), "7");
    assert_eq!(u64_to_decimal(1234), "1234");
    assert_eq!(u64_to_decimal(u64::MAX), "18446744073709551615");
}

#[test]
fn signed_decimal_rendering() {
    assert_eq!(i64_to_decimal(0), "0");
    assert_eq!(i64_to_decimal(-123), "-123");
    assert_eq!(i64_to_decimal(i64::MIN), "-9223372036854775808");
    assert_eq!(i64_to_decimal(i64::MAX), "9223372036854775807");
}

#[test]
fn value_display_forms() {
    assert_eq!(JexValue::Int(7).to_output_string(), "7");
    assert_eq!(JexValue::Int(-40).to_output_string(), "-40");
    assert_eq!(JexValue::from_string("hello".to_string()).to_output_string(), "hello");
}

#[test]
fn exception_messages() {
    assert_eq!(Exception::EmptyOperandStack.message(), "Operand stack is empty");
    assert_eq!(Exception::EmptyCallStack.message(), "Call stack is empty");
    assert_eq!(Exception::SlotOutOfBounds.message(), "Operand slot is out of bounds");
    assert_eq!(Exception::UnknownOpCode(255).message(), "Unknown op code: 255");
    assert_eq!(Exception::TypeError("boom".to_string()).message(), "boom");
}

#[test]
fn as_int_reads_ints_and_rejects_strings() {
    assert_eq!(JexValue::Int(11).as_int(), Ok(11));
    let error = JexValue::from_string("nope".to_string()).as_int().err().unwrap();
    assert_eq!(error, Exception::TypeError("Expected an int value but got nope".to_string()));
}
