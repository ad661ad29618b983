//! The operand classifier and line tokenizer of the assembler front end.

use mos6502::addr::AddrMode;
use mos6502::assembler::{Line, Parser};

fn assert_line(line: &Line, instr: &str, rest: Option<&str>, addr_mode: AddrMode, value: Option<u16>) {
    assert_eq!(line.instr.as_str(), instr);
    assert_eq!(line.rest.as_deref(), rest);
    assert_eq!(line.addr_mode, addr_mode);
    assert_eq!(line.value, value);
}

#[test]
fn into_lines() {
    let mut parser: Parser = Parser::default();
    let lines = parser.into_lines(
        "
            lda #$01
            sta $beef
            beq $0f
            bit
            lda ($1000),Y
        ",
    );

    assert_line(&lines[0], "lda", Some("#$01"), AddrMode::Immediate, Some(0x01));
    assert_line(&lines[1], "sta", Some("$beef"), AddrMode::Absolute, Some(0xbeef));
    assert_line(&lines[2], "beq", Some("$0f"), AddrMode::ZeroPage, Some(0x0f));
    assert_line(&lines[3], "bit", None, AddrMode::Implicit, None);
    assert_line(&lines[4], "lda", Some("($1000),Y"), AddrMode::IndirectY, Some(0x1000));
}

#[test]
fn get_instr_addr_mode() {
    let imm = Parser::get_instr_addr_mode(Some("#$0011"));
    assert_eq!(imm.0, AddrMode::Immediate);
    assert_eq!(imm.1, Some(0x0011));
}

#[test]
fn classify_implicit() {
    let r = Parser::get_instr_addr_mode(None);
    assert_eq!(r.0, AddrMode::Implicit);
    assert_eq!(r.1, None);
}

#[test]
fn classify_absolute_and_zero_page() {
    let abs = Parser::get_instr_addr_mode(Some("$beef"));
    assert_eq!(abs.0, AddrMode::Absolute);
    assert_eq!(abs.1, Some(0xbeef));

    let zp = Parser::get_instr_addr_mode(Some("$0f"));
    assert_eq!(zp.0, AddrMode::ZeroPage);
    assert_eq!(zp.1, Some(0x0f));
}

#[test]
fn classify_indexed() {
    let zpx = Parser::get_instr_addr_mode(Some("$10,X"));
    assert_eq!(zpx.0, AddrMode::ZeroPageX);
    assert_eq!(zpx.1, Some(0x10));

    let absx = Parser::get_instr_addr_mode(Some("$1234,X"));
    assert_eq!(absx.0, AddrMode::AbsoluteX);
    assert_eq!(absx.1, Some(0x1234));

    let absy = Parser::get_instr_addr_mode(Some("$10,Y"));
    assert_eq!(absy.0, AddrMode::AbsoluteY);
    assert_eq!(absy.1, Some(0x10));
}

#[test]
fn classify_indirect() {
    let indy = Parser::get_instr_addr_mode(Some("($1000),Y"));
    assert_eq!(indy.0, AddrMode::IndirectY);
    assert_eq!(indy.1, Some(0x1000));

    let indx = Parser::get_instr_addr_mode(Some("($20,X)"));
    assert_eq!(indx.0, AddrMode::IndirectX);
    assert_eq!(indx.1, Some(0x20));
}

#[test]
fn classify_rejects_malformed_operands() {
    assert_eq!(Parser::get_instr_addr_mode(Some("#$zz")).0, AddrMode::Unknown);
    assert_eq!(Parser::get_instr_addr_mode(Some("")).0, AddrMode::Unknown);
    assert_eq!(Parser::get_instr_addr_mode(Some("$10,Z")).0, AddrMode::Unknown);
    assert_eq!(Parser::get_instr_addr_mode(Some("12")).0, AddrMode::Unknown);
    // a value too wide for 16 bits is rejected, not truncated
    assert_eq!(Parser::get_instr_addr_mode(Some("#$10000")).0, AddrMode::Unknown);
}
