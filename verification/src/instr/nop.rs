//! NOP: consumes two cycles and changes nothing.

use vstd::prelude::*;

use crate::cpu::Cpu;
use crate::instr::{Effect, InstrResult};

verus! {

/// The one-byte no-op (several opcode values alias to it).
pub fn imp(cpu: &mut Cpu) -> (r: InstrResult)
    requires
        old(cpu).wf(),
    ensures
        *final(cpu) == *old(cpu),
        r.wf(),
        r.cycles == 2,
        r.effect == Effect::Nop,
{
    InstrResult { cycles: 2, effect: Effect::Nop }
}

} // verus!
