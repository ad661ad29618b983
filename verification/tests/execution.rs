//! Remaining instruction families driven through the fetch-decode-execute
//! loop and the deferred-effect interface.

use mos6502::cpu::Cpu;
use mos6502::instr;
use mos6502::instr::resolver;

#[test]
fn lsr_shifts_into_carry() {
    let mut cpu = Cpu::new();
    cpu.reg_acc = 0x03;
    let lsr = instr::lsr::acc(&mut cpu);
    lsr.run(&mut cpu).unwrap();
    assert_eq!(cpu.reg_acc, 0x01);
    assert!(cpu.reg_status.carry);
    assert!(!cpu.reg_status.negative);
}

#[test]
fn jmp_indirect_follows_pointer() {
    let mut cpu = Cpu::new();
    cpu.reg_pc = 0x10;
    cpu.memory.mem[0x10] = 0x00;
    cpu.memory.mem[0x11] = 0x03;
    cpu.memory.mem[0x0300] = 0x34;
    cpu.memory.mem[0x0301] = 0x12;

    let jmp = instr::jmp::ind(&mut cpu);
    jmp.run(&mut cpu).unwrap();
    assert_eq!(cpu.reg_pc, 0x1234);
}

#[test]
fn flag_set_and_clear() {
    let mut cpu = Cpu::new();
    let sec = instr::set::sec(&mut cpu);
    sec.run(&mut cpu).unwrap();
    assert!(cpu.reg_status.carry);

    let clc = instr::clear::clc(&mut cpu);
    clc.run(&mut cpu).unwrap();
    assert!(!cpu.reg_status.carry);

    cpu.reg_status.overflow = true;
    let clv = instr::clear::clv(&mut cpu);
    clv.run(&mut cpu).unwrap();
    assert!(!cpu.reg_status.overflow);
}

#[test]
fn rti_restores_status_and_counter() {
    let mut cpu = Cpu::new();
    // as an interrupt return would find it: high byte, low byte, status
    cpu.push_u8(0x12);
    cpu.push_u8(0x34);
    cpu.push_u8(0x81);

    let rti = instr::ret::rti(&mut cpu);
    rti.run(&mut cpu).unwrap();
    assert_eq!(cpu.reg_pc, 0x1234);
    assert!(cpu.reg_status.negative);
    assert!(cpu.reg_status.carry);
    assert_eq!(cpu.reg_sp, 0xff);
}

#[test]
fn stores_do_not_touch_flags() {
    let mut cpu = Cpu::new();
    cpu.reg_pc = 0x10;
    cpu.memory.mem[0x10] = 0x20;
    cpu.reg_x = 0x00;
    cpu.reg_status.zero = false;
    let stx = instr::stx::zero_page(&mut cpu);
    stx.run(&mut cpu).unwrap();
    assert_eq!(cpu.memory.read_u8_at(&0x20), 0x00);
    assert!(!cpu.reg_status.zero);
}

#[test]
fn loads_set_flags() {
    let mut cpu = Cpu::new();
    cpu.reg_pc = 0x10;
    cpu.memory.mem[0x10] = 0x80;
    let ldy = instr::ldy::imm(&mut cpu);
    ldy.run(&mut cpu).unwrap();
    assert_eq!(cpu.reg_y, 0x80);
    assert!(cpu.reg_status.negative);
    assert!(!cpu.reg_status.zero);
}

#[test]
fn undocumented_no_ops_consume_operands() {
    // DOP takes one operand byte, TOP takes two; neither touches the state
    let mut cpu = Cpu::new();
    cpu.load_program(0x6000, &[0x04, 0x55, 0x0c, 0x55, 0x55]);
    cpu.reset();

    assert_eq!(cpu.step(), Ok(true));
    assert_eq!(cpu.reg_pc, 0x6002);
    assert_eq!(cpu.pending_cycles, Some(3));

    cpu.pending_cycles = None;
    assert_eq!(cpu.step(), Ok(true));
    assert_eq!(cpu.reg_pc, 0x6005);
    assert_eq!(cpu.pending_cycles, Some(4));
    assert_eq!(cpu.reg_acc, 0x00);
}

#[test]
fn dispatch_table_is_total_on_documented_opcodes() {
    // every byte the table maps decodes to some handler, and a known hole
    // stays unmapped
    assert!(resolver::resolve(0xa9).is_some());
    assert!(resolver::resolve(0x00).is_some());
    assert!(resolver::resolve(0x6c).is_some());
    assert!(resolver::resolve(0xff).is_some());
    assert!(resolver::resolve(0x02).is_none());
}

#[test]
fn cpx_and_cpy_compare_index_registers() {
    let mut cpu = Cpu::new();
    cpu.reg_pc = 0x01;
    cpu.memory.mem[0x01] = 0x05;
    cpu.reg_x = 0x05;
    let cpx = instr::cpx::imm(&mut cpu);
    cpx.run(&mut cpu).unwrap();
    assert!(cpu.reg_status.zero);

    let mut cpu = Cpu::new();
    cpu.reg_pc = 0x01;
    cpu.memory.mem[0x01] = 0x06;
    cpu.reg_y = 0x05;
    let cpy = instr::cpy::imm(&mut cpu);
    cpy.run(&mut cpu).unwrap();
    assert!(!cpu.reg_status.zero);
    assert!(!cpu.reg_status.carry);
}

#[test]
fn memory_increment_and_decrement() {
    let mut cpu = Cpu::new();
    cpu.reg_pc = 0x10;
    cpu.memory.mem[0x10] = 0x20;
    cpu.memory.mem[0x20] = 0xff;
    let inc = instr::inc::zero_page(&mut cpu);
    inc.run(&mut cpu).unwrap();
    assert_eq!(cpu.memory.read_u8_at(&0x20), 0x00);
    assert!(cpu.reg_status.zero);

    let mut cpu = Cpu::new();
    cpu.reg_pc = 0x10;
    cpu.memory.mem[0x10] = 0x20;
    cpu.memory.mem[0x20] = 0x00;
    let dec = instr::dec::zero_page(&mut cpu);
    dec.run(&mut cpu).unwrap();
    assert_eq!(cpu.memory.read_u8_at(&0x20), 0xff);
    assert!(cpu.reg_status.negative);
}

#[test]
fn pha_pla_move_the_accumulator() {
    let mut cpu = Cpu::new();
    cpu.reg_acc = 0x42;
    let pha = instr::push::pha(&mut cpu);
    pha.run(&mut cpu).unwrap();

    cpu.reg_acc = 0x00;
    let pla = instr::pull::pla(&mut cpu);
    pla.run(&mut cpu).unwrap();
    assert_eq!(cpu.reg_acc, 0x42);
    assert_eq!(cpu.reg_sp, 0xff);
}
