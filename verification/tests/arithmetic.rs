//! ADC's carry, overflow and sign behaviour, through the immediate form.

use mos6502::cpu::Cpu;
use mos6502::instr::adc;

fn test_adc(
    cpu: &mut Cpu,
    acc: u8,
    imm: u8,
    expected_result: u8,
    should_carry: bool,
    should_overflow: bool,
    is_negative: bool,
) {
    cpu.reg_pc = 0x01;
    cpu.memory.mem[0x01] = imm;
    cpu.reg_acc = acc;

    let adc_res = adc::imm(cpu);
    adc_res.run(cpu).unwrap();

    assert_eq!(cpu.reg_status.overflow, should_overflow);
    assert_eq!(cpu.reg_acc, expected_result);
    assert_eq!(cpu.reg_status.negative, is_negative);
    assert_eq!(cpu.reg_status.carry, should_carry);
}

#[test]
fn adc_carry() {
    let mut cpu = Cpu::new();

    // carries from 255 to 254
    test_adc(&mut cpu, 0xff, 0xff, 0xfe, true, false, true);
}

#[test]
fn adc_overflow() {
    let mut cpu = Cpu::new();

    // overflows from 127 to -1
    test_adc(&mut cpu, 0x01, 0x7f, 0x80, false, true, true);

    // overflows and carries from -1 to 0
    test_adc(&mut cpu, 0x80, 0x80, 0x00, true, true, false);
}

#[test]
fn adc_adc_carry() {
    let mut cpu = Cpu::new();

    test_adc(&mut cpu, 0xff, 0xff, 0xfe, true, false, true);
}

#[test]
fn adc_adc_overflow() {
    let mut cpu = Cpu::new();

    test_adc(&mut cpu, 0x01, 0x7f, 0x80, false, true, true);
    test_adc(&mut cpu, 0x80, 0x80, 0x00, true, true, false);
}

#[test]
fn numeric_adc_carry() {
    let mut cpu = Cpu::new();

    test_adc(&mut cpu, 0xff, 0xff, 0xfe, true, false, true);
}

#[test]
fn numeric_adc_overflow() {
    let mut cpu = Cpu::new();

    test_adc(&mut cpu, 0x01, 0x7f, 0x80, false, true, true);
    test_adc(&mut cpu, 0x80, 0x80, 0x00, true, true, false);
}
