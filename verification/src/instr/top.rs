//! TOP: the undocumented triple no-ops.  Each consumes a 16-bit operand and
//! its cycles (with the page-crossing penalty in the indexed form) but has
//! no register, memory or flag effect.

use vstd::prelude::*;

use crate::addr;
use crate::cpu::{same_but_pc, Cpu};
use crate::mem::{page_of, word_at};
use crate::util::wrap_add16;
use crate::instr::{penalized_cycles, Effect, InstrResult};

verus! {

pub fn abs(cpu: &mut Cpu) -> (r: InstrResult)
    requires
        old(cpu).wf(),
    ensures
        final(cpu).wf(),
        same_but_pc(*old(cpu), *final(cpu)),
        final(cpu).reg_pc == wrap_add16(old(cpu).reg_pc, 2),
        r.wf(),
        r.cycles == 4,
        r.effect == Effect::Nop,
{
    let _ar = addr::abs(cpu);
    InstrResult { cycles: 4, effect: Effect::Nop }
}

pub fn abs_x(cpu: &mut Cpu) -> (r: InstrResult)
    requires
        old(cpu).wf(),
    ensures
        final(cpu).wf(),
        same_but_pc(*old(cpu), *final(cpu)),
        final(cpu).reg_pc == wrap_add16(old(cpu).reg_pc, 2),
        r.wf(),
        r.effect == Effect::Nop,
        ({
            let base = word_at(old(cpu).memory.mem@, old(cpu).reg_pc);
            let eff = wrap_add16(base, old(cpu).reg_x as u16);
            r.cycles == (if page_of(base) != page_of(eff) {
                5int
            } else {
                4int
            })
        }),
{
    let ar = addr::abs_x(cpu);
    InstrResult { cycles: penalized_cycles(&ar, 4), effect: Effect::Nop }
}

} // verus!
