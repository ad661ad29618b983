//! DOP: the undocumented double no-ops.  Each consumes its operand byte and
//! its cycles but has no register, memory or flag effect.

use vstd::prelude::*;

use crate::addr;
use crate::cpu::{same_but_pc, Cpu};
use crate::util::wrap_add16;
use crate::instr::{Effect, InstrResult};

verus! {

pub fn zero_page(cpu: &mut Cpu) -> (r: InstrResult)
    requires
        old(cpu).wf(),
    ensures
        final(cpu).wf(),
        same_but_pc(*old(cpu), *final(cpu)),
        final(cpu).reg_pc == wrap_add16(old(cpu).reg_pc, 1),
        r.wf(),
        r.cycles == 3,
        r.effect == Effect::Nop,
{
    let _ar = addr::zero_page(cpu);
    InstrResult { cycles: 3, effect: Effect::Nop }
}

pub fn zero_page_x(cpu: &mut Cpu) -> (r: InstrResult)
    requires
        old(cpu).wf(),
    ensures
        final(cpu).wf(),
        same_but_pc(*old(cpu), *final(cpu)),
        final(cpu).reg_pc == wrap_add16(old(cpu).reg_pc, 1),
        r.wf(),
        r.cycles == 4,
        r.effect == Effect::Nop,
{
    let _ar = addr::zero_page_x(cpu);
    InstrResult { cycles: 4, effect: Effect::Nop }
}

pub fn imm(cpu: &mut Cpu) -> (r: InstrResult)
    requires
        old(cpu).wf(),
    ensures
        final(cpu).wf(),
        same_but_pc(*old(cpu), *final(cpu)),
        final(cpu).reg_pc == wrap_add16(old(cpu).reg_pc, 1),
        r.wf(),
        r.cycles == 2,
        r.effect == Effect::Nop,
{
    let _ar = addr::imm(cpu);
    InstrResult { cycles: 2, effect: Effect::Nop }
}

} // verus!
