//! The memory map, the stack, the bit helpers, program loading, and a small
//! end-to-end program.

use mos6502::cpu::{Cpu, RESET_VECTOR_ADDR};
use mos6502::mem::MemoryMap;
use mos6502::util;

#[test]
fn crosses_page_boundary() {
    assert!(MemoryMap::crosses_page_boundary(&0x01FF, &0x0200));
    assert!(!MemoryMap::crosses_page_boundary(&0x01FF, &0x01FE));
}

#[test]
fn endianness() {
    assert_eq!(0x1000, util::to_u16(&[0x00, 0x10]));
}

#[test]
fn bit_set() {
    assert!(util::test_bit_set(0b1000_0000, 7));
    assert!(!util::test_bit_set(0b1000_0000, 6));
    assert!(util::test_bit_set(0b1111_1111, 2));
    assert!(!util::test_bit_set(0b1110_1111, 4));
}

#[test]
fn test_set_bit() {
    assert_eq!(0b0010_0101, util::set_bit(0b0000_0101, 5, true));
    assert_eq!(0b0010_0100, util::set_bit(0b0010_0101, 0, false));
}

#[test]
fn push_u8() {
    let mut cpu = Cpu::new();

    cpu.push_u8(0x01);
    cpu.push_u8(0x02);
    cpu.push_u8(0x03);

    assert_eq!(cpu.reg_sp, 0xfc);

    assert_eq!(cpu.pop_u8(), Some(0x03));
    assert_eq!(cpu.reg_sp, 0xfd);

    assert_eq!(cpu.pop_u8(), Some(0x02));
    assert_eq!(cpu.reg_sp, 0xfe);

    assert_eq!(cpu.pop_u8(), Some(0x01));
    assert_eq!(cpu.reg_sp, 0xff);
}

#[test]
fn load_program() {
    let mut cpu = Cpu::new();

    // lda #$11
    cpu.load_program(0x6000, &[0xa9, 0x11]);

    assert_eq!(cpu.memory.read_u16_at(&RESET_VECTOR_ADDR), 0x6000);
}

#[test]
fn basic_program() {
    let program = &[// LDA #$01
        0xa9,
        0x01,
        // STA $0200
        0x8d,
        0x00,
        0x02,
        // LDA #$05
        0xa9,
        0x05,
        // STA $0201
        0x8d,
        0x01,
        0x02];

    let mut cpu = Cpu::new();
    cpu.load_program(0x6000, program);

    assert!(cpu.run().is_ok());
}
