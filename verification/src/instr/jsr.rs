//! JSR: push the address of the instruction's last byte (the return address
//! minus one), high byte first, then jump to the absolute target.

use vstd::prelude::*;

use crate::addr;
use crate::cpu::{same_but_pc, Cpu};
use crate::mem::word_at;
use crate::util::wrap_add16;
use crate::instr::{Effect, InstrResult};

verus! {

/// JSR absolute: the only addressing mode the instruction has.
pub fn jsr(cpu: &mut Cpu) -> (r: InstrResult)
    requires
        old(cpu).wf(),
    ensures
        final(cpu).wf(),
        same_but_pc(*old(cpu), *final(cpu)),
        final(cpu).reg_pc == wrap_add16(old(cpu).reg_pc, 2),
        r.wf(),
        r.cycles == 6,
        r.effect == (Effect::Jsr { addr: word_at(old(cpu).memory.mem@, old(cpu).reg_pc) }),
{
    let ar = addr::abs(cpu);
    InstrResult { cycles: 6, effect: Effect::Jsr { addr: ar.value } }
}

} // verus!
