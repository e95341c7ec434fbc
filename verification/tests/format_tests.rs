use maikor_debugger::dump::format_registers;

#[test]
fn register_dump_has_the_fixed_four_line_layout() {
    let regs = [0x0A, 0xFF, 0x00, 0x01, 0x02, 0x03, 0x04, 0x05, 0b1010_0000];
    let text = format_registers(&regs, 0x1234, 0xFC18, 0);
    assert_eq!(
        text,
        "AH 0A AL FF BH 00 BL 01\r\n\
         CH 02 CL 03 DH 04 DL 05\r\n\
         AX 0AFF BX 0001 CX 0203 DX 0405\r\n\
         FLG 10100000 PC 1234 SP FC18 FP 0000\r\n\n"
    );
}

#[test]
fn register_dump_renders_zero_state() {
    let text = format_registers(&[0; 9], 0, 0, 0);
    assert_eq!(
        text,
        "AH 00 AL 00 BH 00 BL 00\r\n\
         CH 00 CL 00 DH 00 DL 00\r\n\
         AX 0000 BX 0000 CX 0000 DX 0000\r\n\
         FLG 00000000 PC 0000 SP 0000 FP 0000\r\n\n"
    );
}

#[test]
fn register_dump_uses_uppercase_hex_everywhere() {
    let text = format_registers(&[0xAB, 0xCD, 0xEF, 0xBE, 0xAD, 0xDE, 0xFE, 0xCA, 0xFF], 0xBEEF, 0xCAFE, 0xF00D);
    assert_eq!(
        text,
        "AH AB AL CD BH EF BL BE\r\n\
         CH AD CL DE DH FE DL CA\r\n\
         AX ABCD BX EFBE CX ADDE DX FECA\r\n\
         FLG 11111111 PC BEEF SP CAFE FP F00D\r\n\n"
    );
}
