//! AND: bitwise and of the accumulator and the operand, with Zero/Negative.

use vstd::prelude::*;

use crate::addr;
use crate::addr::AddrMode;
use crate::cpu::Cpu;
use crate::instr::{penalized_cycles, spec_penalized_cycles, Effect, InstrResult};

verus! {

pub fn imm(cpu: &mut Cpu) -> (r: InstrResult)
    requires
        old(cpu).wf(),
    ensures
        final(cpu).wf(),
        r.wf(),
        (r.effect matches Effect::And { ar } && addr::imm_resolved(*old(cpu), *final(cpu), ar)
            && r.cycles == spec_penalized_cycles(ar, 2)),
{
    let ar = addr::imm(cpu);
    InstrResult { cycles: penalized_cycles(&ar, 2), effect: Effect::And { ar } }
}

pub fn zero_page(cpu: &mut Cpu) -> (r: InstrResult)
    requires
        old(cpu).wf(),
    ensures
        final(cpu).wf(),
        r.wf(),
        (r.effect matches Effect::And { ar } && addr::zero_page_resolved(*old(cpu), *final(cpu), ar)
            && r.cycles == spec_penalized_cycles(ar, 3)),
{
    let ar = addr::zero_page(cpu);
    InstrResult { cycles: penalized_cycles(&ar, 3), effect: Effect::And { ar } }
}

pub fn zero_page_x(cpu: &mut Cpu) -> (r: InstrResult)
    requires
        old(cpu).wf(),
    ensures
        final(cpu).wf(),
        r.wf(),
        (r.effect matches Effect::And { ar } && addr::zero_page_indexed_resolved(*old(cpu), *final(cpu), ar, old(cpu).reg_x, AddrMode::ZeroPageX)
            && r.cycles == spec_penalized_cycles(ar, 4)),
{
    let ar = addr::zero_page_x(cpu);
    InstrResult { cycles: penalized_cycles(&ar, 4), effect: Effect::And { ar } }
}

pub fn abs(cpu: &mut Cpu) -> (r: InstrResult)
    requires
        old(cpu).wf(),
    ensures
        final(cpu).wf(),
        r.wf(),
        (r.effect matches Effect::And { ar } && addr::abs_resolved(*old(cpu), *final(cpu), ar)
            && r.cycles == spec_penalized_cycles(ar, 4)),
{
    let ar = addr::abs(cpu);
    InstrResult { cycles: penalized_cycles(&ar, 4), effect: Effect::And { ar } }
}

pub fn abs_x(cpu: &mut Cpu) -> (r: InstrResult)
    requires
        old(cpu).wf(),
    ensures
        final(cpu).wf(),
        r.wf(),
        (r.effect matches Effect::And { ar } && addr::abs_indexed_resolved(*old(cpu), *final(cpu), ar, old(cpu).reg_x, AddrMode::AbsoluteX)
            && r.cycles == spec_penalized_cycles(ar, 4)),
{
    let ar = addr::abs_x(cpu);
    InstrResult { cycles: penalized_cycles(&ar, 4), effect: Effect::And { ar } }
}

pub fn abs_y(cpu: &mut Cpu) -> (r: InstrResult)
    requires
        old(cpu).wf(),
    ensures
        final(cpu).wf(),
        r.wf(),
        (r.effect matches Effect::And { ar } && addr::abs_indexed_resolved(*old(cpu), *final(cpu), ar, old(cpu).reg_y, AddrMode::AbsoluteY)
            && r.cycles == spec_penalized_cycles(ar, 4)),
{
    let ar = addr::abs_y(cpu);
    InstrResult { cycles: penalized_cycles(&ar, 4), effect: Effect::And { ar } }
}

pub fn ind_x(cpu: &mut Cpu) -> (r: InstrResult)
    requires
        old(cpu).wf(),
    ensures
        final(cpu).wf(),
        r.wf(),
        (r.effect matches Effect::And { ar } && addr::ind_x_resolved(*old(cpu), *final(cpu), ar)
            && r.cycles == spec_penalized_cycles(ar, 6)),
{
    let ar = addr::ind_x(cpu);
    InstrResult { cycles: penalized_cycles(&ar, 6), effect: Effect::And { ar } }
}

pub fn ind_y(cpu: &mut Cpu) -> (r: InstrResult)
    requires
        old(cpu).wf(),
    ensures
        final(cpu).wf(),
        r.wf(),
        (r.effect matches Effect::And { ar } && addr::ind_y_resolved(*old(cpu), *final(cpu), ar)
            && r.cycles == spec_penalized_cycles(ar, 5)),
{
    let ar = addr::ind_y(cpu);
    InstrResult { cycles: penalized_cycles(&ar, 5), effect: Effect::And { ar } }
}

} // verus!
