//! The addressing-mode resolvers against fixed register/memory fixtures.

use mos6502::addr;
use mos6502::cpu::Cpu;

#[test]
fn addr_imm() {
    let mut cpu = Cpu::new();

    cpu.reg_pc = 0xfe;
    cpu.memory.mem[0xfe] = 0xbe;

    let result = addr::imm(&mut cpu);
    assert_eq!(result.value, 0xbe);
}

#[test]
fn addr_rel() {
    let mut cpu = Cpu::new();

    // starting pc: 0xbead
    // ending pc: start + 2 -> 0xbeaf
    // 0xbeef - 0xbeaf = 0x40

    // this is start + 1 (after opcode decode)
    cpu.reg_pc = 0xbeae;
    cpu.memory.mem[0xbeae] = 0x40;

    let result = addr::rel(&mut cpu);
    assert_eq!(result.value, 0xbeef);
}

#[test]
fn addr_zero_page() {
    let mut cpu = Cpu::new();

    cpu.reg_pc = 0x0e;
    cpu.memory.mem[0x0e] = 0x05;

    let result = addr::zero_page(&mut cpu);
    assert_eq!(result.value, 0x05);
}

#[test]
fn addr_zero_page_x() {
    let mut cpu = Cpu::new();

    cpu.reg_pc = 0xfe;
    cpu.memory.mem[0xfe] = 0xbe;

    let result = addr::zero_page_x(&mut cpu);
    assert_eq!(result.value, 0xbe);
}

#[test]
fn addr_abs() {
    let mut cpu = Cpu::new();

    cpu.reg_pc = 0xfe;
    cpu.memory.mem[0xfe] = 0xef;
    cpu.memory.mem[0xff] = 0xbe;

    let result = addr::abs(&mut cpu);

    assert_eq!(result.value, 0xbeef);
}

#[test]
fn addr_abs_x() {
    let mut cpu = Cpu::new();

    cpu.reg_pc = 0xfe;
    cpu.reg_x = 0x01;
    cpu.memory.mem[0xfe] = 0xee;
    cpu.memory.mem[0xff] = 0xbe;

    let result = addr::abs_x(&mut cpu);
    assert_eq!(result.value, 0xbeef);
}

#[test]
fn addr_abs_y() {
    let mut cpu = Cpu::new();

    cpu.reg_pc = 0xfe;
    cpu.reg_y = 0x01;
    cpu.memory.mem[0xfe] = 0xee;
    cpu.memory.mem[0xff] = 0xbe;

    let result = addr::abs_y(&mut cpu);
    assert_eq!(result.value, 0xbeef);
}

#[test]
fn addr_ind_x() {
    let mut cpu = Cpu::new();

    cpu.reg_pc = 0xfd;
    cpu.reg_x = 0x01;
    cpu.memory.mem[0xfd] = 0xbd;
    cpu.memory.mem[0xbe] = 0xef;

    let result = addr::ind_x(&mut cpu);
    assert_eq!(result.value, 0xef);
}

#[test]
fn addr_ind_y() {
    let mut cpu = Cpu::new();

    cpu.reg_pc = 0xfd;

    cpu.reg_y = 0x01;
    cpu.memory.mem[0xfd] = 0xfe;
    cpu.memory.mem[0xfe] = 0xee;
    cpu.memory.mem[0xff] = 0xbe;

    let result = addr::ind_y(&mut cpu);

    assert_eq!(result.value, 0xbeef);
}

#[test]
fn test_imm() {
    let mut cpu = Cpu::new();

    cpu.reg_pc = 0xfe;
    cpu.memory.mem[0xfe] = 0xbe;

    let result = addr::imm(&mut cpu);
    assert_eq!(result.value, 0xbe);
}

#[test]
fn test_rel() {
    let mut cpu = Cpu::new();

    cpu.reg_pc = 0xbeae;
    cpu.memory.mem[0xbeae] = 0x40;

    let result = addr::rel(&mut cpu);
    assert_eq!(result.value, 0xbeef);
}

#[test]
fn test_zero_page() {
    let mut cpu = Cpu::new();

    cpu.reg_pc = 0x0e;
    cpu.memory.mem[0x0e] = 0x05;

    let result = addr::zero_page(&mut cpu);
    assert_eq!(result.value, 0x05);
}

#[test]
fn test_zero_page_x() {
    let mut cpu = Cpu::new();

    cpu.reg_pc = 0xfe;
    cpu.memory.mem[0xfe] = 0xbe;

    let result = addr::zero_page_x(&mut cpu);
    assert_eq!(result.value, 0xbe);
}

#[test]
fn test_abs() {
    let mut cpu = Cpu::new();

    cpu.reg_pc = 0xfe;
    cpu.memory.mem[0xfe] = 0xef;
    cpu.memory.mem[0xff] = 0xbe;

    let result = addr::abs(&mut cpu);

    assert_eq!(result.value, 0xbeef);
}

#[test]
fn test_abs_x() {
    let mut cpu = Cpu::new();

    cpu.reg_pc = 0xfe;
    cpu.reg_x = 0x01;
    cpu.memory.mem[0xfe] = 0xee;
    cpu.memory.mem[0xff] = 0xbe;

    let result = addr::abs_x(&mut cpu);
    assert_eq!(result.value, 0xbeef);
}

#[test]
fn test_abs_y() {
    let mut cpu = Cpu::new();

    cpu.reg_pc = 0xfe;
    cpu.reg_y = 0x01;
    cpu.memory.mem[0xfe] = 0xee;
    cpu.memory.mem[0xff] = 0xbe;

    let result = addr::abs_y(&mut cpu);
    assert_eq!(result.value, 0xbeef);
}

#[test]
fn test_ind_x() {
    let mut cpu = Cpu::new();

    cpu.reg_pc = 0xfd;
    cpu.reg_x = 0x01;
    cpu.memory.mem[0xfd] = 0xbd;
    cpu.memory.mem[0xbe] = 0xef;

    let result = addr::ind_x(&mut cpu);
    assert_eq!(result.value, 0xef);
}

#[test]
fn test_ind_y() {
    let mut cpu = Cpu::new();

    cpu.reg_pc = 0xfd;

    cpu.reg_y = 0x01;
    cpu.memory.mem[0xfd] = 0xfe;
    cpu.memory.mem[0xfe] = 0xee;
    cpu.memory.mem[0xff] = 0xbe;

    let result = addr::ind_y(&mut cpu);

    assert_eq!(result.value, 0xbeef);
}
