//! CPY: compare the Y register against the operand without storing.

use vstd::prelude::*;

use crate::addr;
use crate::cpu::Cpu;
use crate::instr::{penalized_cycles, spec_penalized_cycles, Effect, InstrResult};

verus! {

pub fn imm(cpu: &mut Cpu) -> (r: InstrResult)
    requires
        old(cpu).wf(),
    ensures
        final(cpu).wf(),
        r.wf(),
        (r.effect matches Effect::Compare { reg_val, ar } && reg_val == old(cpu).reg_y
            && addr::imm_resolved(*old(cpu), *final(cpu), ar)
            && r.cycles == spec_penalized_cycles(ar, 2)),
{
    let reg_val = cpu.reg_y;
    let ar = addr::imm(cpu);
    InstrResult { cycles: penalized_cycles(&ar, 2), effect: Effect::Compare { reg_val, ar } }
}

pub fn zero_page(cpu: &mut Cpu) -> (r: InstrResult)
    requires
        old(cpu).wf(),
    ensures
        final(cpu).wf(),
        r.wf(),
        (r.effect matches Effect::Compare { reg_val, ar } && reg_val == old(cpu).reg_y
            && addr::zero_page_resolved(*old(cpu), *final(cpu), ar)
            && r.cycles == spec_penalized_cycles(ar, 3)),
{
    let reg_val = cpu.reg_y;
    let ar = addr::zero_page(cpu);
    InstrResult { cycles: penalized_cycles(&ar, 3), effect: Effect::Compare { reg_val, ar } }
}

pub fn abs(cpu: &mut Cpu) -> (r: InstrResult)
    requires
        old(cpu).wf(),
    ensures
        final(cpu).wf(),
        r.wf(),
        (r.effect matches Effect::Compare { reg_val, ar } && reg_val == old(cpu).reg_y
            && addr::abs_resolved(*old(cpu), *final(cpu), ar)
            && r.cycles == spec_penalized_cycles(ar, 4)),
{
    let reg_val = cpu.reg_y;
    let ar = addr::abs(cpu);
    InstrResult { cycles: penalized_cycles(&ar, 4), effect: Effect::Compare { reg_val, ar } }
}

} // verus!
