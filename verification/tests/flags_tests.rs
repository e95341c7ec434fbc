use maikor_debugger::flags::decode_flags;
use maikor_platform::registers::flags::{
    CARRY, GREATER_THAN, INTERRUPTS, LESS_THAN, OVERFLOW, SIGNED, ZERO,
};

#[test]
fn no_flags_decode_to_placeholder() {
    assert_eq!(decode_flags(0), "-");
}

#[test]
fn carry_and_zero_decode_in_table_order() {
    assert_eq!(decode_flags(CARRY | ZERO), "CARRY, ZERO");
}

#[test]
fn single_flags_decode_to_their_names() {
    assert_eq!(decode_flags(CARRY), "CARRY");
    assert_eq!(decode_flags(OVERFLOW), "OVERFLOW");
    assert_eq!(decode_flags(LESS_THAN), "LESS_THAN");
    assert_eq!(decode_flags(GREATER_THAN), "GREATER_THAN");
    assert_eq!(decode_flags(ZERO), "ZERO");
    assert_eq!(decode_flags(SIGNED), "SIGNED");
    assert_eq!(decode_flags(INTERRUPTS), "INTERRUPTS");
}

#[test]
fn all_flags_decode_in_table_order() {
    let byte = CARRY | OVERFLOW | LESS_THAN | GREATER_THAN | ZERO | SIGNED | INTERRUPTS;
    assert_eq!(
        decode_flags(byte),
        "CARRY, OVERFLOW, LESS_THAN, GREATER_THAN, ZERO, SIGNED, INTERRUPTS"
    );
}
