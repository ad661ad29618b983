//! The register transfers: TAX, TAY, TSX, TXA, TXS, TYA.  Zero/Negative
//! follow the moved byte except for TXS, which changes no flags.

use vstd::prelude::*;

use crate::cpu::{Cpu, Register};
use crate::instr::{Effect, InstrResult};

verus! {

/// The shared builder: a transfer costs 2 cycles and defers the move.
fn transfer(from: Register, to: Register) -> (r: InstrResult)
    ensures
        r.wf(),
        r.cycles == 2,
        r.effect == (Effect::Transfer { from, to }),
{
    InstrResult { cycles: 2, effect: Effect::Transfer { from, to } }
}

/// TAX: copy the accumulator into X.
pub fn tax(cpu: &mut Cpu) -> (r: InstrResult)
    requires
        old(cpu).wf(),
    ensures
        *final(cpu) == *old(cpu),
        r.wf(),
        r.cycles == 2,
        r.effect == (Effect::Transfer { from: Register::A, to: Register::X }),
{
    transfer(Register::A, Register::X)
}

/// TAY: copy the accumulator into Y.
pub fn tay(cpu: &mut Cpu) -> (r: InstrResult)
    requires
        old(cpu).wf(),
    ensures
        *final(cpu) == *old(cpu),
        r.wf(),
        r.cycles == 2,
        r.effect == (Effect::Transfer { from: Register::A, to: Register::Y }),
{
    transfer(Register::A, Register::Y)
}

/// TSX: copy the stack pointer into X.
pub fn tsx(cpu: &mut Cpu) -> (r: InstrResult)
    requires
        old(cpu).wf(),
    ensures
        *final(cpu) == *old(cpu),
        r.wf(),
        r.cycles == 2,
        r.effect == (Effect::Transfer { from: Register::SP, to: Register::X }),
{
    transfer(Register::SP, Register::X)
}

/// TXA: copy X into the accumulator.
pub fn txa(cpu: &mut Cpu) -> (r: InstrResult)
    requires
        old(cpu).wf(),
    ensures
        *final(cpu) == *old(cpu),
        r.wf(),
        r.cycles == 2,
        r.effect == (Effect::Transfer { from: Register::X, to: Register::A }),
{
    transfer(Register::X, Register::A)
}

/// TXS: copy X into the stack pointer; no flags change.
pub fn txs(cpu: &mut Cpu) -> (r: InstrResult)
    requires
        old(cpu).wf(),
    ensures
        *final(cpu) == *old(cpu),
        r.wf(),
        r.cycles == 2,
        r.effect == (Effect::Transfer { from: Register::X, to: Register::SP }),
{
    transfer(Register::X, Register::SP)
}

/// TYA: copy Y into the accumulator.
pub fn tya(cpu: &mut Cpu) -> (r: InstrResult)
    requires
        old(cpu).wf(),
    ensures
        *final(cpu) == *old(cpu),
        r.wf(),
        r.cycles == 2,
        r.effect == (Effect::Transfer { from: Register::Y, to: Register::A }),
{
    transfer(Register::Y, Register::A)
}

} // verus!
