//! Individual instruction families: shifts, logic, bit tests, branches and
//! the break instruction.

use mos6502::cpu::Cpu;
use mos6502::instr;

#[test]
fn asl() {
    let mut cpu = Cpu::new();
    cpu.reg_pc = 0xfe;

    cpu.memory.mem[0xfe] = 0x01;
    cpu.memory.mem[0x01] = 0b0000_1000;

    let result = instr::asl::zero_page(&mut cpu);
    result.run(&mut cpu).unwrap();

    assert_eq!(cpu.memory.read_u8_at(&0x01), 0b0001_0000);
}

#[test]
fn bit() {
    let mut cpu = Cpu::new();
    cpu.reg_pc = 0x01;
    cpu.memory.mem[0x01] = 0xff;
    cpu.memory.mem[0x02] = 0x00;
    cpu.memory.mem[0xff] = 0xff;

    cpu.reg_acc = 0x0f;

    let bit_result = instr::bit::abs(&mut cpu);
    bit_result.run(&mut cpu).unwrap();

    assert_eq!(cpu.reg_status.zero, false);
    assert_eq!(cpu.reg_status.overflow, true);
    assert_eq!(cpu.reg_status.negative, true);
}

#[test]
fn and() {
    let mut cpu = Cpu::new();
    cpu.memory.mem[0xfe] = 0x01;
    cpu.memory.mem[0x01] = 0x0f;
    cpu.reg_acc = 0xff;
    cpu.reg_pc = 0xfe;

    let result = instr::and::zero_page(&mut cpu);
    result.run(&mut cpu).unwrap();

    assert_eq!(cpu.reg_acc, 0x0f);
}

#[test]
fn eor() {
    let mut cpu = Cpu::new();
    cpu.reg_pc = 0x1000;
    cpu.reg_acc = 0x64;
    cpu.memory.mem[0x1000] = 0x52;

    let result = instr::eor::imm(&mut cpu);
    result.run(&mut cpu).unwrap();

    assert_eq!(0x64 ^ 0x52, cpu.reg_acc);
}

#[test]
fn ora() {
    let mut cpu = Cpu::new();
    cpu.reg_pc = 0x1000;
    cpu.reg_acc = 0x64;
    cpu.memory.mem[0x1000] = 0x52;

    let result = instr::ora::imm(&mut cpu);
    result.run(&mut cpu).unwrap();

    assert_eq!(0x64 | 0x52, cpu.reg_acc);
}

#[test]
fn bcc() {
    let mut cpu = Cpu::new();
    cpu.reg_pc = 0x01;
    cpu.memory.mem[0x01] = 0x38;

    cpu.reg_status.carry = false;
    let should_branch_res = instr::branch::bcc(&mut cpu);
    should_branch_res.run(&mut cpu).unwrap();

    assert_eq!(cpu.reg_pc, 0x3a);

    cpu.reg_pc = 0x01;
    cpu.memory.mem[0x01] = 0xff;

    cpu.reg_status.carry = true;
    let should_not_branch_res = instr::branch::bcc(&mut cpu);
    should_not_branch_res.run(&mut cpu).unwrap();

    assert_eq!(cpu.reg_pc, 0x2);
}

#[test]
fn bcs() {}

#[test]
fn beq() {}

#[test]
fn ror_adc() {
    let mut cpu: Cpu = Cpu::new();
    cpu.reset();

    let program = &[
        // lda #$37
        0xa9, 0x37,

        // sta $0647
        0x8d, 0x47, 0x06,

        // lda #$75
        0xa9, 0x75,

        // ror $0647
        0x6e, 0x47, 0x06,

        // adc $0647
        0x6d, 0x47, 0x06,
    ];

    cpu.load_program(0x6000, program);

    cpu.run().unwrap();

    // the carry is clear at the rotate, so 0x37 rotates to 0x1b with a
    // carry-out of 1, and the addition gives 0x75 + 0x1b + 1
    assert_eq!(cpu.reg_acc, 0x91);
}

#[test]
fn rra() {
    let mut cpu: Cpu = Cpu::new();
    cpu.reset();

    let program = &[
        // lda #$37
        0xa9, 0x37,

        // sta $0647
        0x8d, 0x47, 0x06,

        // lda #$75
        0xa9, 0x75,

        // rra $0647
        0x7b, 0x47, 0x06,
    ];

    cpu.load_program(0x6000, program);

    cpu.run().unwrap();

    // the same rotate-then-add arithmetic as the two-instruction form
    assert_eq!(cpu.reg_acc, 0x91);
}

#[test]
fn brk() {
    let mut cpu = Cpu::new();
    cpu.reg_pc = 0x1234;

    let pc_hi = ((cpu.reg_pc & 0xff00) >> 8) as u8;
    let pc_lo = (cpu.reg_pc & 0x00ff) as u8;

    cpu.reg_status.carry = true;
    cpu.reg_status.negative = true;

    let status_reg: u8 = cpu.reg_status.to_byte();
    assert_eq!(status_reg, 0xa1);

    let brk_instr = instr::brk::brk(&mut cpu);
    brk_instr.run(&mut cpu).unwrap();

    assert_eq!(cpu.reg_sp, 0xfc);
    assert_eq!(cpu.pop_u8(), Some(status_reg));
    assert_eq!(cpu.pop_u8(), Some(pc_lo));
    assert_eq!(cpu.pop_u8(), Some(pc_hi));
}
