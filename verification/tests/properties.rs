//! Behaviour the design guarantees across the board: the status-byte round
//! trip, branch cycle accounting, the indirect-jump hardware bug, the
//! page-crossing penalty, fault reporting, and one whole program.

use mos6502::addr;
use mos6502::cpu::{Cpu, CpuError};
use mos6502::instr;
use mos6502::status_reg::ProcessorStatusRegister;

#[test]
fn status_round_trip_all_bytes() {
    for v in 0..=255u16 {
        let b = v as u8;
        let decoded = ProcessorStatusRegister::from_byte(b);
        assert_eq!(decoded.to_byte(), b | 0x20);
    }
}

#[test]
fn branch_cycle_costs() {
    // not taken: 2 cycles
    let mut cpu = Cpu::new();
    cpu.reg_pc = 0x10;
    cpu.memory.mem[0x10] = 0x05;
    cpu.reg_status.carry = true;
    let not_taken = instr::branch::bcc(&mut cpu);
    assert_eq!(not_taken.get_num_cycles(), 2);

    // taken without a page crossing: 3 cycles
    let mut cpu = Cpu::new();
    cpu.reg_pc = 0x10;
    cpu.memory.mem[0x10] = 0x05;
    cpu.reg_status.carry = false;
    let taken = instr::branch::bcc(&mut cpu);
    assert_eq!(taken.get_num_cycles(), 3);

    // taken across a page boundary: 4 cycles
    let mut cpu = Cpu::new();
    cpu.reg_pc = 0xf0;
    cpu.memory.mem[0xf0] = 0x20;
    cpu.reg_status.carry = false;
    let crossing = instr::branch::bcc(&mut cpu);
    assert_eq!(crossing.get_num_cycles(), 4);
}

#[test]
fn end_to_end_store() {
    let program = &[// LDA #$01
        0xa9,
        0x01,
        // STA $0200
        0x8d,
        0x00,
        0x02,
        // LDA #$05
        0xa9,
        0x05,
        // STA $0201
        0x8d,
        0x01,
        0x02];

    let mut cpu = Cpu::new();
    cpu.load_program(0x6000, program);

    assert!(cpu.run().is_ok());

    assert_eq!(cpu.memory.read_u8_at(&0x0200), 0x01);
    assert_eq!(cpu.memory.read_u8_at(&0x0201), 0x05);
}

#[test]
fn indirect_jump_page_bug() {
    let mut cpu = Cpu::new();
    // pointer 0x02ff sits at a page end: the high byte must come from
    // 0x0200, not 0x0300
    cpu.memory.mem[0x02ff] = 0x34;
    cpu.memory.mem[0x0200] = 0x12;
    cpu.memory.mem[0x0300] = 0x56;
    cpu.reg_pc = 0x10;
    cpu.memory.mem[0x10] = 0xff;
    cpu.memory.mem[0x11] = 0x02;

    let result = addr::ind(&mut cpu);
    assert_eq!(result.value, 0x1234);
}

#[test]
fn indirect_jump_without_bug() {
    let mut cpu = Cpu::new();
    cpu.memory.mem[0x02fe] = 0x34;
    cpu.memory.mem[0x02ff] = 0x12;
    cpu.reg_pc = 0x10;
    cpu.memory.mem[0x10] = 0xfe;
    cpu.memory.mem[0x11] = 0x02;

    let result = addr::ind(&mut cpu);
    assert_eq!(result.value, 0x1234);
}

#[test]
fn sbc_subtracts_with_borrow() {
    let mut cpu = Cpu::new();
    cpu.reg_pc = 0x01;
    cpu.memory.mem[0x01] = 0x01;
    cpu.reg_acc = 0x10;

    let sbc = instr::sbc::imm(&mut cpu);
    sbc.run(&mut cpu).unwrap();

    assert_eq!(cpu.reg_acc, 0x0f);
    assert!(cpu.reg_status.carry);
    assert!(!cpu.reg_status.zero);
    assert!(!cpu.reg_status.negative);
    assert!(!cpu.reg_status.overflow);
}

#[test]
fn rotate_through_carry() {
    // ROR feeds the old carry into bit 7 and bit 0 into the carry
    let mut cpu = Cpu::new();
    cpu.reg_acc = 0x37;
    cpu.reg_status.carry = true;
    let ror = instr::ror::acc(&mut cpu);
    ror.run(&mut cpu).unwrap();
    assert_eq!(cpu.reg_acc, 0x9b);
    assert!(cpu.reg_status.carry);

    // ROL feeds the old carry into bit 0 and bit 7 into the carry
    let mut cpu = Cpu::new();
    cpu.reg_acc = 0x80;
    cpu.reg_status.carry = true;
    let rol = instr::rol::acc(&mut cpu);
    rol.run(&mut cpu).unwrap();
    assert_eq!(cpu.reg_acc, 0x01);
    assert!(cpu.reg_status.carry);
    assert!(!cpu.reg_status.zero);

    // a rotate that clears the byte sets the Zero flag
    let mut cpu = Cpu::new();
    cpu.reg_acc = 0x01;
    let ror_to_zero = instr::ror::acc(&mut cpu);
    ror_to_zero.run(&mut cpu).unwrap();
    assert_eq!(cpu.reg_acc, 0x00);
    assert!(cpu.reg_status.zero);
    assert!(cpu.reg_status.carry);
}

#[test]
fn compare_sets_flags() {
    let mut cpu = Cpu::new();
    cpu.reg_pc = 0x01;
    cpu.memory.mem[0x01] = 0x10;
    cpu.reg_acc = 0x10;
    let equal = instr::cmp::imm(&mut cpu);
    equal.run(&mut cpu).unwrap();
    assert!(cpu.reg_status.zero);
    assert!(cpu.reg_status.carry);
    assert!(!cpu.reg_status.negative);

    let mut cpu = Cpu::new();
    cpu.reg_pc = 0x01;
    cpu.memory.mem[0x01] = 0x20;
    cpu.reg_acc = 0x10;
    let below = instr::cmp::imm(&mut cpu);
    below.run(&mut cpu).unwrap();
    assert!(!cpu.reg_status.zero);
    assert!(!cpu.reg_status.carry);
    assert!(cpu.reg_status.negative);

    // the comparison is unsigned: 0x10 is below 0x90
    let mut cpu = Cpu::new();
    cpu.reg_pc = 0x01;
    cpu.memory.mem[0x01] = 0x90;
    cpu.reg_acc = 0x10;
    let below_high = instr::cmp::imm(&mut cpu);
    below_high.run(&mut cpu).unwrap();
    assert!(!cpu.reg_status.carry);
    assert!(cpu.reg_status.negative);
}

#[test]
fn unmapped_opcode_faults() {
    let mut cpu = Cpu::new();
    cpu.memory.mem[0x00] = 0x02;

    assert_eq!(cpu.step(), Err(CpuError::UnmappedOpcode(0x02)));
}

#[test]
fn stack_underflow_reported() {
    // a fresh stack holds nothing: popping underflows
    let mut cpu = Cpu::new();
    assert_eq!(cpu.pop_u8(), None);

    // and a pull instruction surfaces it as a fault
    let mut cpu = Cpu::new();
    let pla = instr::pull::pla(&mut cpu);
    assert_eq!(pla.run(&mut cpu), Err(CpuError::StackUnderflow));
}

#[test]
fn step_is_cycle_granular() {
    let mut cpu = Cpu::new();
    // LDA #$01 costs two cycles
    cpu.load_program(0x6000, &[0xa9, 0x01]);
    cpu.reset();

    assert_eq!(cpu.step(), Ok(true));
    assert_eq!(cpu.reg_acc, 0x01);
    assert_eq!(cpu.pending_cycles, Some(2));

    assert_eq!(cpu.step(), Ok(true));
    assert_eq!(cpu.pending_cycles, Some(1));

    assert_eq!(cpu.step(), Ok(true));
    assert_eq!(cpu.pending_cycles, None);
}

#[test]
fn jsr_rts_round_trip() {
    let mut cpu = Cpu::new();
    cpu.reg_pc = 0x6001;
    cpu.memory.mem[0x6001] = 0x05;
    cpu.memory.mem[0x6002] = 0x60;

    let jsr = instr::jsr::jsr(&mut cpu);
    jsr.run(&mut cpu).unwrap();
    assert_eq!(cpu.reg_pc, 0x6005);
    assert_eq!(cpu.reg_sp, 0xfd);

    let rts = instr::ret::rts(&mut cpu);
    rts.run(&mut cpu).unwrap();
    assert_eq!(cpu.reg_pc, 0x6002);
    assert_eq!(cpu.reg_sp, 0xff);
}

#[test]
fn php_plp_round_trip() {
    let mut cpu = Cpu::new();
    cpu.reg_status.carry = true;
    cpu.reg_status.zero = true;
    let saved = cpu.reg_status;

    let php = instr::push::php(&mut cpu);
    php.run(&mut cpu).unwrap();

    cpu.reg_status.carry = false;
    cpu.reg_status.zero = false;
    cpu.reg_status.negative = true;

    let plp = instr::pull::plp(&mut cpu);
    plp.run(&mut cpu).unwrap();

    assert_eq!(cpu.reg_status, saved);
}

#[test]
fn load_page_cross_penalty() {
    // base 0x00ff plus x = 1 crosses into page 1: one extra cycle
    let mut cpu = Cpu::new();
    cpu.reg_pc = 0x10;
    cpu.memory.mem[0x10] = 0xff;
    cpu.memory.mem[0x11] = 0x00;
    cpu.reg_x = 0x01;
    let crossing = instr::lda::abs_x(&mut cpu);
    assert_eq!(crossing.get_num_cycles(), 5);

    let mut cpu = Cpu::new();
    cpu.reg_pc = 0x10;
    cpu.memory.mem[0x10] = 0xff;
    cpu.memory.mem[0x11] = 0x00;
    let plain = instr::lda::abs_x(&mut cpu);
    assert_eq!(plain.get_num_cycles(), 4);
}

#[test]
fn combined_opcodes() {
    // DCP: decrement memory, then compare the accumulator against it
    let mut cpu = Cpu::new();
    cpu.reg_pc = 0x10;
    cpu.memory.mem[0x10] = 0x20;
    cpu.memory.mem[0x20] = 0x05;
    cpu.reg_acc = 0x04;
    let dcp = instr::dcp::zero_page(&mut cpu);
    dcp.run(&mut cpu).unwrap();
    assert_eq!(cpu.memory.read_u8_at(&0x20), 0x04);
    assert!(cpu.reg_status.zero);
    assert!(cpu.reg_status.carry);

    // the comparison after the decrement is unsigned: 0x10 is below 0x90
    let mut cpu = Cpu::new();
    cpu.reg_pc = 0x10;
    cpu.memory.mem[0x10] = 0x20;
    cpu.memory.mem[0x20] = 0x91;
    cpu.reg_acc = 0x10;
    let dcp_high = instr::dcp::zero_page(&mut cpu);
    dcp_high.run(&mut cpu).unwrap();
    assert_eq!(cpu.memory.read_u8_at(&0x20), 0x90);
    assert!(!cpu.reg_status.carry);

    // ISC: increment memory, then subtract it with borrow
    let mut cpu = Cpu::new();
    cpu.reg_pc = 0x10;
    cpu.memory.mem[0x10] = 0x20;
    cpu.memory.mem[0x20] = 0x01;
    cpu.reg_acc = 0x10;
    let isc = instr::isc::zero_page(&mut cpu);
    isc.run(&mut cpu).unwrap();
    assert_eq!(cpu.memory.read_u8_at(&0x20), 0x02);
    assert_eq!(cpu.reg_acc, 0x0e);

    // SLO: shift memory left, then or it into the accumulator
    let mut cpu = Cpu::new();
    cpu.reg_pc = 0x10;
    cpu.memory.mem[0x10] = 0x20;
    cpu.memory.mem[0x20] = 0x41;
    cpu.reg_acc = 0x01;
    let slo = instr::slo::zero_page(&mut cpu);
    slo.run(&mut cpu).unwrap();
    assert_eq!(cpu.memory.read_u8_at(&0x20), 0x82);
    assert_eq!(cpu.reg_acc, 0x83);
    assert!(!cpu.reg_status.carry);
    assert!(cpu.reg_status.negative);

    // RLA: rotate memory left through the carry, then and
    let mut cpu = Cpu::new();
    cpu.reg_pc = 0x10;
    cpu.memory.mem[0x10] = 0x20;
    cpu.memory.mem[0x20] = 0x40;
    cpu.reg_acc = 0xff;
    cpu.reg_status.carry = true;
    let rla = instr::rla::zero_page(&mut cpu);
    rla.run(&mut cpu).unwrap();
    assert_eq!(cpu.memory.read_u8_at(&0x20), 0x81);
    assert_eq!(cpu.reg_acc, 0x81);
    assert!(!cpu.reg_status.carry);

    // RRA: rotate memory right through the carry, then add with carry
    let mut cpu = Cpu::new();
    cpu.reg_pc = 0x10;
    cpu.memory.mem[0x10] = 0x20;
    cpu.memory.mem[0x20] = 0x03;
    cpu.reg_acc = 0x10;
    let rra = instr::rra::zero_page(&mut cpu);
    rra.run(&mut cpu).unwrap();
    assert_eq!(cpu.memory.read_u8_at(&0x20), 0x01);
    assert_eq!(cpu.reg_acc, 0x12);
    assert!(!cpu.reg_status.carry);

    // LAX: load into both the accumulator and X
    let mut cpu = Cpu::new();
    cpu.reg_pc = 0x10;
    cpu.memory.mem[0x10] = 0x20;
    cpu.memory.mem[0x20] = 0x7f;
    let lax = instr::lax::zero_page(&mut cpu);
    lax.run(&mut cpu).unwrap();
    assert_eq!(cpu.reg_acc, 0x7f);
    assert_eq!(cpu.reg_x, 0x7f);

    // AAX: store the conjunction of the accumulator and X
    let mut cpu = Cpu::new();
    cpu.reg_pc = 0x10;
    cpu.memory.mem[0x10] = 0x20;
    cpu.reg_acc = 0x0f;
    cpu.reg_x = 0x03;
    let aax = instr::aax::zero_page(&mut cpu);
    aax.run(&mut cpu).unwrap();
    assert_eq!(cpu.memory.read_u8_at(&0x20), 0x03);
}

#[test]
fn transfers_and_flags() {
    // TAX moves the byte and sets Zero
    let mut cpu = Cpu::new();
    cpu.reg_acc = 0x00;
    cpu.reg_x = 0x55;
    let tax = instr::transfer::tax(&mut cpu);
    tax.run(&mut cpu).unwrap();
    assert_eq!(cpu.reg_x, 0x00);
    assert!(cpu.reg_status.zero);

    // TXS moves into the stack pointer without touching flags
    let mut cpu = Cpu::new();
    cpu.reg_x = 0x00;
    let txs = instr::transfer::txs(&mut cpu);
    txs.run(&mut cpu).unwrap();
    assert_eq!(cpu.reg_sp, 0x00);
    assert!(!cpu.reg_status.zero);
}

#[test]
fn increment_and_decrement_wrap() {
    let mut cpu = Cpu::new();
    cpu.reg_x = 0xff;
    let inx = instr::inc::inx(&mut cpu);
    inx.run(&mut cpu).unwrap();
    assert_eq!(cpu.reg_x, 0x00);
    assert!(cpu.reg_status.zero);

    let mut cpu = Cpu::new();
    cpu.reg_x = 0x00;
    let dex = instr::dec::dex(&mut cpu);
    dex.run(&mut cpu).unwrap();
    assert_eq!(cpu.reg_x, 0xff);
    assert!(cpu.reg_status.negative);
}

#[test]
fn reset_loads_vector() {
    let mut cpu = Cpu::new();
    cpu.memory.mem[0xfffc] = 0x34;
    cpu.memory.mem[0xfffd] = 0x12;
    cpu.reset();
    assert_eq!(cpu.reg_pc, 0x1234);
}

#[test]
fn zero_page_indexed_wraps_in_page_zero() {
    // base 0xfe plus index 3 wraps to 0x01 instead of reaching 0x101
    let mut cpu = Cpu::new();
    cpu.reg_pc = 0x10;
    cpu.memory.mem[0x10] = 0xfe;
    cpu.reg_x = 0x03;
    let r = addr::zero_page_x(&mut cpu);
    assert_eq!(r.value, 0x01);
}
