//! PHA and PHP: push the accumulator or the packed status byte onto the
//! stack.  The pushed byte is snapshotted when the instruction decodes.

use vstd::prelude::*;

use crate::cpu::Cpu;
use crate::instr::{Effect, InstrResult};
use crate::status_reg::spec_status_byte;

verus! {

/// PHA: push the accumulator.
pub fn pha(cpu: &mut Cpu) -> (r: InstrResult)
    requires
        old(cpu).wf(),
    ensures
        *final(cpu) == *old(cpu),
        r.wf(),
        r.cycles == 3,
        r.effect == (Effect::Push { value: old(cpu).reg_acc }),
{
    let acc = cpu.reg_acc;
    InstrResult { cycles: 3, effect: Effect::Push { value: acc } }
}

/// PHP: push the packed status byte, unused bit included.
pub fn php(cpu: &mut Cpu) -> (r: InstrResult)
    requires
        old(cpu).wf(),
    ensures
        *final(cpu) == *old(cpu),
        r.wf(),
        r.cycles == 3,
        r.effect == (Effect::Push { value: spec_status_byte(old(cpu).reg_status) }),
{
    let status = cpu.reg_status.to_byte();
    InstrResult { cycles: 3, effect: Effect::Push { value: status } }
}

} // verus!
