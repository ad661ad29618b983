//! CMP: compare the accumulator against the operand without storing; Carry, Zero and Negative follow the unstored difference.

use vstd::prelude::*;

use crate::addr;
use crate::addr::{AddrMode, AddrResult};
use crate::cpu::Cpu;
use crate::instr::{penalized_cycles, spec_penalized_cycles, Effect, InstrResult};

verus! {

pub fn imm(cpu: &mut Cpu) -> (r: InstrResult)
    requires
        old(cpu).wf(),
    ensures
        final(cpu).wf(),
        r.wf(),
        (r.effect matches Effect::Compare { reg_val, ar } && reg_val == old(cpu).reg_acc
            && addr::imm_resolved(*old(cpu), *final(cpu), ar)
            && r.cycles == spec_penalized_cycles(ar, 2)),
{
    let reg_val = cpu.reg_acc;
    let ar = addr::imm(cpu);
    InstrResult { cycles: penalized_cycles(&ar, 2), effect: Effect::Compare { reg_val, ar } }
}

pub fn zero_page(cpu: &mut Cpu) -> (r: InstrResult)
    requires
        old(cpu).wf(),
    ensures
        final(cpu).wf(),
        r.wf(),
        (r.effect matches Effect::Compare { reg_val, ar } && reg_val == old(cpu).reg_acc
            && addr::zero_page_resolved(*old(cpu), *final(cpu), ar)
            && r.cycles == spec_penalized_cycles(ar, 3)),
{
    let reg_val = cpu.reg_acc;
    let ar = addr::zero_page(cpu);
    InstrResult { cycles: penalized_cycles(&ar, 3), effect: Effect::Compare { reg_val, ar } }
}

pub fn zero_page_x(cpu: &mut Cpu) -> (r: InstrResult)
    requires
        old(cpu).wf(),
    ensures
        final(cpu).wf(),
        r.wf(),
        (r.effect matches Effect::Compare { reg_val, ar } && reg_val == old(cpu).reg_acc
            && addr::zero_page_indexed_resolved(*old(cpu), *final(cpu), ar, old(cpu).reg_x, AddrMode::ZeroPageX)
            && r.cycles == spec_penalized_cycles(ar, 4)),
{
    let reg_val = cpu.reg_acc;
    let ar = addr::zero_page_x(cpu);
    InstrResult { cycles: penalized_cycles(&ar, 4), effect: Effect::Compare { reg_val, ar } }
}

pub fn abs(cpu: &mut Cpu) -> (r: InstrResult)
    requires
        old(cpu).wf(),
    ensures
        final(cpu).wf(),
        r.wf(),
        (r.effect matches Effect::Compare { reg_val, ar } && reg_val == old(cpu).reg_acc
            && addr::abs_resolved(*old(cpu), *final(cpu), ar)
            && r.cycles == spec_penalized_cycles(ar, 4)),
{
    let reg_val = cpu.reg_acc;
    let ar = addr::abs(cpu);
    InstrResult { cycles: penalized_cycles(&ar, 4), effect: Effect::Compare { reg_val, ar } }
}

pub fn abs_x(cpu: &mut Cpu) -> (r: InstrResult)
    requires
        old(cpu).wf(),
    ensures
        final(cpu).wf(),
        r.wf(),
        (r.effect matches Effect::Compare { reg_val, ar } && reg_val == old(cpu).reg_acc
            && addr::abs_indexed_resolved(*old(cpu), *final(cpu), ar, old(cpu).reg_x, AddrMode::AbsoluteX)
            && r.cycles == spec_penalized_cycles(ar, 4)),
{
    let reg_val = cpu.reg_acc;
    let ar = addr::abs_x(cpu);
    InstrResult { cycles: penalized_cycles(&ar, 4), effect: Effect::Compare { reg_val, ar } }
}

pub fn abs_y(cpu: &mut Cpu) -> (r: InstrResult)
    requires
        old(cpu).wf(),
    ensures
        final(cpu).wf(),
        r.wf(),
        (r.effect matches Effect::Compare { reg_val, ar } && reg_val == old(cpu).reg_acc
            && addr::abs_indexed_resolved(*old(cpu), *final(cpu), ar, old(cpu).reg_y, AddrMode::AbsoluteY)
            && r.cycles == spec_penalized_cycles(ar, 4)),
{
    let reg_val = cpu.reg_acc;
    let ar = addr::abs_y(cpu);
    InstrResult { cycles: penalized_cycles(&ar, 4), effect: Effect::Compare { reg_val, ar } }
}

pub fn ind_x(cpu: &mut Cpu) -> (r: InstrResult)
    requires
        old(cpu).wf(),
    ensures
        final(cpu).wf(),
        r.wf(),
        (r.effect matches Effect::Compare { reg_val, ar } && reg_val == old(cpu).reg_acc
            && addr::ind_x_resolved(*old(cpu), *final(cpu), ar)
            && r.cycles == spec_penalized_cycles(ar, 6)),
{
    let reg_val = cpu.reg_acc;
    let ar = addr::ind_x(cpu);
    InstrResult { cycles: penalized_cycles(&ar, 6), effect: Effect::Compare { reg_val, ar } }
}

pub fn ind_y(cpu: &mut Cpu) -> (r: InstrResult)
    requires
        old(cpu).wf(),
    ensures
        final(cpu).wf(),
        r.wf(),
        (r.effect matches Effect::Compare { reg_val, ar } && reg_val == old(cpu).reg_acc
            && addr::ind_y_resolved(*old(cpu), *final(cpu), ar)
            && r.cycles == spec_penalized_cycles(ar, 5)),
{
    let reg_val = cpu.reg_acc;
    let ar = addr::ind_y(cpu);
    InstrResult { cycles: penalized_cycles(&ar, 5), effect: Effect::Compare { reg_val, ar } }
}

/// Builds the deferred CMP against the accumulator's current value, with
/// the given base cycle cost and the page-crossing penalty applied.
pub fn cmp(cpu: &mut Cpu, addr_result: AddrResult, cycles: u8) -> (r: InstrResult)
    requires
        old(cpu).wf(),
        addr_result.addr_mode != AddrMode::Unknown,
        cycles < 255,
    ensures
        *final(cpu) == *old(cpu),
        r.wf(),
        r.cycles == spec_penalized_cycles(addr_result, cycles),
        r.effect == (Effect::Compare { reg_val: old(cpu).reg_acc, ar: addr_result }),
{
    let reg_val = cpu.reg_acc;
    InstrResult {
        cycles: penalized_cycles(&addr_result, cycles),
        effect: Effect::Compare { reg_val, ar: addr_result },
    }
}

} // verus!
