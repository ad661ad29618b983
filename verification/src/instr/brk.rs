//! BRK: pushes the program counter, high byte first, and the
//! packed status byte, then loads the program counter from the
//! interrupt/break vector and sets the Break flag.

use vstd::prelude::*;

use crate::cpu::Cpu;
use crate::instr::{Effect, InstrResult};

verus! {

/// BRK consumes no operand bytes; its whole effect is deferred.
pub fn brk(cpu: &mut Cpu) -> (r: InstrResult)
    requires
        old(cpu).wf(),
    ensures
        *final(cpu) == *old(cpu),
        r.wf(),
        r.cycles == 7,
        r.effect == Effect::Brk,
{
    InstrResult { cycles: 7, effect: Effect::Brk }
}

} // verus!
