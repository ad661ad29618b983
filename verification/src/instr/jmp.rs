//! JMP: set the program counter to an absolute or indirect target.

use vstd::prelude::*;

use crate::addr;
use crate::addr::ind_target;
use crate::cpu::{same_but_pc, Cpu};
use crate::mem::word_at;
use crate::util::wrap_add16;
use crate::instr::{Effect, InstrResult};

verus! {

/// JMP absolute: the 16-bit operand is the target.
pub fn abs(cpu: &mut Cpu) -> (r: InstrResult)
    requires
        old(cpu).wf(),
    ensures
        final(cpu).wf(),
        same_but_pc(*old(cpu), *final(cpu)),
        final(cpu).reg_pc == wrap_add16(old(cpu).reg_pc, 2),
        r.wf(),
        r.cycles == 3,
        r.effect == (Effect::Jmp { addr: word_at(old(cpu).memory.mem@, old(cpu).reg_pc) }),
{
    let ar = addr::abs(cpu);
    InstrResult { cycles: 3, effect: Effect::Jmp { addr: ar.value } }
}

/// JMP indirect: the operand names a pointer, dereferenced with the
/// hardware page bug (see [`ind_target`]).
pub fn ind(cpu: &mut Cpu) -> (r: InstrResult)
    requires
        old(cpu).wf(),
    ensures
        final(cpu).wf(),
        same_but_pc(*old(cpu), *final(cpu)),
        final(cpu).reg_pc == wrap_add16(old(cpu).reg_pc, 2),
        r.wf(),
        r.cycles == 5,
        r.effect == (Effect::Jmp {
            addr: ind_target(
                old(cpu).memory.mem@,
                word_at(old(cpu).memory.mem@, old(cpu).reg_pc),
            ),
        }),
{
    let ar = addr::ind(cpu);
    InstrResult { cycles: 5, effect: Effect::Jmp { addr: ar.value } }
}

} // verus!
