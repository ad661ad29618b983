//! Instruction semantics.
//!
//! Decoding an opcode produces an [`InstrResult`]: a cycle cost plus a
//! deferred [`Effect`].  Running the result applies the effect to the CPU.
//! Each effect's exact meaning is stated by the `*_applied` spec predicate
//! beside it, and [`InstrResult::run`] promises that predicate for every
//! effect.  The per-opcode constructors live in the submodules (one file per
//! instruction family).

pub mod aax;
pub mod adc;
pub mod and;
pub mod asl;
pub mod bit;
pub mod branch;
pub mod brk;
pub mod clear;
pub mod cmp;
pub mod cpx;
pub mod cpy;
pub mod dcp;
pub mod dec;
pub mod dop;
pub mod eor;
pub mod inc;
pub mod jmp;
pub mod jsr;
pub mod nop;
pub mod pull;
pub mod push;
pub mod ret;
pub mod set;
pub mod top;
pub mod resolver;
pub mod transfer;
pub mod isc;
pub mod lax;
pub mod lda;
pub mod ldx;
pub mod ldy;
pub mod lsr;
pub mod ora;
pub mod rla;
pub mod rol;
pub mod ror;
pub mod rra;
pub mod sbc;
pub mod slo;
pub mod sta;
pub mod stx;
pub mod sty;

use vstd::prelude::*;

use crate::addr::{spec_resolve_operand, AddrMode, AddrResult};
use crate::cpu::{Cpu, CpuError, Register};
use crate::mem::word_at;
use crate::status_reg::{
    spec_status_byte, spec_status_from_byte, ProcessorStatusRegister,
};
use crate::util::{spec_bit_set, spec_to_u16, wrap_add8, wrap_sub16, wrap_sub8};
use crate::cpu::IRQ_BRK_VECTOR_ADDR;

use self::inc::IncrementType;

verus! {

/// The signed (two's-complement) reading of a byte.
pub open spec fn signed(v: u8) -> int {
    if v >= 0x80 {
        v - 256
    } else {
        v as int
    }
}

/// Where a pull instruction deposits the popped byte.
#[derive(Clone, Copy, Debug, PartialEq, Eq, Structural)]
pub enum PullDestination {
    Accumulator,
    Status,
}

/// A single status flag that a set/clear instruction targets.
#[derive(Clone, Copy, Debug, PartialEq, Eq, Structural)]
pub enum Flag {
    Carry,
    DecimalMode,
    IrqDisable,
    Overflow,
}

/// The deferred effect of one decoded instruction: everything `run` needs
/// in order to mutate registers, memory and flags.
#[derive(Clone, Copy, Debug)]
pub enum Effect {
    Adc { ar: AddrResult },
    Sbc { ar: AddrResult },
    And { ar: AddrResult },
    Ora { ar: AddrResult },
    Eor { ar: AddrResult },
    Asl { ar: AddrResult },
    Lsr { ar: AddrResult },
    Rol { ar: AddrResult },
    Ror { ar: AddrResult },
    Bit { ar: AddrResult },
    Branch { next_pc: u16 },
    Brk,
    Compare { reg_val: u8, ar: AddrResult },
    Decrement { target: IncrementType },
    Increment { target: IncrementType },
    Jmp { addr: u16 },
    Jsr { addr: u16 },
    Load { reg: Register, ar: AddrResult },
    Store { reg: Register, ar: AddrResult },
    Lax { ar: AddrResult },
    Aax { ar: AddrResult },
    Dcp { ar: AddrResult },
    Isc { ar: AddrResult },
    Slo { ar: AddrResult },
    Rla { ar: AddrResult },
    Rra { ar: AddrResult },
    Nop,
    Push { value: u8 },
    Pull { dest: PullDestination },
    Rts,
    Rti,
    Transfer { from: Register, to: Register },
    SetFlag { flag: Flag, on: bool },
}

impl Effect {
    /// The shapes the decoder actually produces: addressing results carry a
    /// known mode, and register-targeted arithmetic names an index register.
    pub open spec fn wf(&self) -> bool {
        match *self {
            Effect::Adc { ar } => ar.addr_mode != AddrMode::Unknown,
            Effect::Sbc { ar } => ar.addr_mode != AddrMode::Unknown,
            Effect::And { ar } => ar.addr_mode != AddrMode::Unknown,
            Effect::Ora { ar } => ar.addr_mode != AddrMode::Unknown,
            Effect::Eor { ar } => ar.addr_mode != AddrMode::Unknown,
            Effect::Asl { ar } => ar.addr_mode != AddrMode::Unknown,
            Effect::Lsr { ar } => ar.addr_mode != AddrMode::Unknown,
            Effect::Rol { ar } => ar.addr_mode != AddrMode::Unknown,
            Effect::Ror { ar } => ar.addr_mode != AddrMode::Unknown,
            Effect::Bit { ar } => ar.addr_mode != AddrMode::Unknown,
            Effect::Compare { reg_val, ar } => ar.addr_mode != AddrMode::Unknown,
            Effect::Decrement { target } => target.wf(),
            Effect::Increment { target } => target.wf(),
            Effect::Load { reg, ar } => reg != Register::SP && ar.addr_mode != AddrMode::Unknown,
            Effect::Store { reg, ar } => reg != Register::SP && ar.addr_mode != AddrMode::Unknown,
            Effect::Lax { ar } => ar.addr_mode != AddrMode::Unknown,
            Effect::Aax { ar } => ar.addr_mode != AddrMode::Unknown,
            Effect::Dcp { ar } => ar.addr_mode != AddrMode::Unknown,
            Effect::Isc { ar } => ar.addr_mode != AddrMode::Unknown,
            Effect::Slo { ar } => ar.addr_mode != AddrMode::Unknown,
            Effect::Rla { ar } => ar.addr_mode != AddrMode::Unknown,
            Effect::Rra { ar } => ar.addr_mode != AddrMode::Unknown,
            _ => true,
        }
    }
}

// ---------------------------------------------------------------------------
// Flag-combination helpers: each returns the full flag set after one
// instruction, spelling out which flags change and which are kept.
// ---------------------------------------------------------------------------

/// Zero and Negative set from `v`; everything else kept.
pub open spec fn status_with_zn(f: ProcessorStatusRegister, v: u8) -> ProcessorStatusRegister {
    ProcessorStatusRegister {
        negative: v >= 0x80,
        zero: v == 0,
        overflow: f.overflow,
        brk: f.brk,
        decimal_mode: f.decimal_mode,
        irq_disable: f.irq_disable,
        carry: f.carry,
    }
}

/// Zero and Negative from `v`, Carry given; everything else kept.
pub open spec fn status_with_znc(
    f: ProcessorStatusRegister,
    v: u8,
    carry: bool,
) -> ProcessorStatusRegister {
    ProcessorStatusRegister {
        negative: v >= 0x80,
        zero: v == 0,
        overflow: f.overflow,
        brk: f.brk,
        decimal_mode: f.decimal_mode,
        irq_disable: f.irq_disable,
        carry: carry,
    }
}

/// The full arithmetic flag set: Carry and Overflow given, Zero and
/// Negative from the result.
pub open spec fn status_arith(
    f: ProcessorStatusRegister,
    res: u8,
    carry: bool,
    overflow: bool,
) -> ProcessorStatusRegister {
    ProcessorStatusRegister {
        negative: res >= 0x80,
        zero: res == 0,
        overflow: overflow,
        brk: f.brk,
        decimal_mode: f.decimal_mode,
        irq_disable: f.irq_disable,
        carry: carry,
    }
}

/// Carry, Zero and Negative given (the compare instructions).
pub open spec fn status_cmp(
    f: ProcessorStatusRegister,
    carry: bool,
    zero: bool,
    negative: bool,
) -> ProcessorStatusRegister {
    ProcessorStatusRegister {
        negative: negative,
        zero: zero,
        overflow: f.overflow,
        brk: f.brk,
        decimal_mode: f.decimal_mode,
        irq_disable: f.irq_disable,
        carry: carry,
    }
}

/// Zero, Overflow and Negative given (the BIT instruction).
pub open spec fn status_bit_test(
    f: ProcessorStatusRegister,
    zero: bool,
    overflow: bool,
    negative: bool,
) -> ProcessorStatusRegister {
    ProcessorStatusRegister {
        negative: negative,
        zero: zero,
        overflow: overflow,
        brk: f.brk,
        decimal_mode: f.decimal_mode,
        irq_disable: f.irq_disable,
        carry: f.carry,
    }
}

// ---------------------------------------------------------------------------
// State-frame helpers: which parts of the CPU an instruction leaves alone.
// ---------------------------------------------------------------------------

/// Only the accumulator and the flags may differ.
pub open spec fn frame_alu(pre: Cpu, post: Cpu) -> bool {
    &&& post.reg_x == pre.reg_x
    &&& post.reg_y == pre.reg_y
    &&& post.reg_pc == pre.reg_pc
    &&& post.reg_sp == pre.reg_sp
    &&& post.memory.mem@ == pre.memory.mem@
    &&& post.pending_cycles == pre.pending_cycles
}

/// Only the memory image and the flags may differ.
pub open spec fn frame_mem(pre: Cpu, post: Cpu) -> bool {
    &&& post.reg_acc == pre.reg_acc
    &&& post.reg_x == pre.reg_x
    &&& post.reg_y == pre.reg_y
    &&& post.reg_pc == pre.reg_pc
    &&& post.reg_sp == pre.reg_sp
    &&& post.pending_cycles == pre.pending_cycles
}

/// Only the flags may differ.
pub open spec fn frame_flags(pre: Cpu, post: Cpu) -> bool {
    &&& frame_alu(pre, post)
    &&& post.reg_acc == pre.reg_acc
}

/// Only the named register and the flags may differ; `mem`, the program
/// counter and the pending-cycle counter stay.
pub open spec fn reg_write(pre: Cpu, post: Cpu, reg: Register, v: u8) -> bool {
    &&& post.reg_acc == (if reg == Register::A {
        v
    } else {
        pre.reg_acc
    })
    &&& post.reg_x == (if reg == Register::X {
        v
    } else {
        pre.reg_x
    })
    &&& post.reg_y == (if reg == Register::Y {
        v
    } else {
        pre.reg_y
    })
    &&& post.reg_sp == (if reg == Register::SP {
        v
    } else {
        pre.reg_sp
    })
    &&& post.reg_pc == pre.reg_pc
    &&& post.memory.mem@ == pre.memory.mem@
    &&& post.pending_cycles == pre.pending_cycles
}

/// The value the named register holds.
pub open spec fn reg_val(c: Cpu, reg: Register) -> u8 {
    match reg {
        Register::A => c.reg_acc,
        Register::X => c.reg_x,
        Register::Y => c.reg_y,
        Register::SP => c.reg_sp,
    }
}

// ---------------------------------------------------------------------------
// Arithmetic building blocks (shared by ADC, SBC and the combined opcodes).
// ---------------------------------------------------------------------------

/// The byte ADC leaves in the accumulator: `a + op + carry`, wrapped.
pub open spec fn adc_result(a: u8, op: u8, c: bool) -> u8 {
    ((a + op + (if c {
        1int
    } else {
        0int
    })) % 256) as u8
}

/// ADC's carry-out: bit 8 of the 9-bit unsigned sum.
pub open spec fn adc_carry_out(a: u8, op: u8, c: bool) -> bool {
    a + op + (if c {
        1int
    } else {
        0int
    }) > 255
}

/// ADC's overflow: the signed sum does not fit in an 8-bit two's-complement
/// value.
pub open spec fn adc_overflow_out(a: u8, op: u8, c: bool) -> bool {
    let s = signed(a) + signed(op) + (if c {
        1int
    } else {
        0int
    });
    s < -128 || s > 127
}

/// The byte SBC leaves in the accumulator: ADC with the operand and the
/// carry contribution negated, i.e. `a - op - carry`, wrapped.
pub open spec fn sbc_result(a: u8, op: u8, c: bool) -> u8 {
    ((a + ((256 - op) % 256) + (if c {
        255int
    } else {
        0int
    })) % 256) as u8
}

/// SBC's carry-out: bit 8 of the unsigned sum of `a`, the negated operand
/// and the negated carry contribution.
pub open spec fn sbc_carry_out(a: u8, op: u8, c: bool) -> bool {
    a + ((256 - op) % 256) + (if c {
        255int
    } else {
        0int
    }) > 255
}

/// SBC's overflow: the signed difference does not fit in 8 bits.
pub open spec fn sbc_overflow_out(a: u8, op: u8, c: bool) -> bool {
    let s = signed(a) - signed(op) - (if c {
        1int
    } else {
        0int
    });
    s < -128 || s > 127
}

// ---------------------------------------------------------------------------
// Per-family postconditions.
// ---------------------------------------------------------------------------

/// ADC: accumulator + operand + carry-in, with all four arithmetic flags.
pub open spec fn adc_applied(pre: Cpu, post: Cpu, ar: AddrResult) -> bool {
    let op = spec_resolve_operand(ar, pre);
    let a = pre.reg_acc;
    let c = pre.reg_status.carry;
    &&& frame_alu(pre, post)
    &&& post.reg_acc == adc_result(a, op, c)
    &&& post.reg_status == status_arith(
        pre.reg_status,
        adc_result(a, op, c),
        adc_carry_out(a, op, c),
        adc_overflow_out(a, op, c),
    )
}

/// SBC: accumulator - operand - carry-in, with all four arithmetic flags.
pub open spec fn sbc_applied(pre: Cpu, post: Cpu, ar: AddrResult) -> bool {
    let op = spec_resolve_operand(ar, pre);
    let a = pre.reg_acc;
    let c = pre.reg_status.carry;
    &&& frame_alu(pre, post)
    &&& post.reg_acc == sbc_result(a, op, c)
    &&& post.reg_status == status_arith(
        pre.reg_status,
        sbc_result(a, op, c),
        sbc_carry_out(a, op, c),
        sbc_overflow_out(a, op, c),
    )
}

/// AND: bitwise and of accumulator and operand, Zero/Negative from the
/// result.
pub open spec fn and_applied(pre: Cpu, post: Cpu, ar: AddrResult) -> bool {
    let res = pre.reg_acc & spec_resolve_operand(ar, pre);
    &&& frame_alu(pre, post)
    &&& post.reg_acc == res
    &&& post.reg_status == status_with_zn(pre.reg_status, res)
}

/// ORA: bitwise or of accumulator and operand, Zero/Negative from the
/// result.
pub open spec fn ora_applied(pre: Cpu, post: Cpu, ar: AddrResult) -> bool {
    let res = pre.reg_acc | spec_resolve_operand(ar, pre);
    &&& frame_alu(pre, post)
    &&& post.reg_acc == res
    &&& post.reg_status == status_with_zn(pre.reg_status, res)
}

/// EOR: bitwise exclusive-or of accumulator and operand, Zero/Negative from
/// the result.
pub open spec fn eor_applied(pre: Cpu, post: Cpu, ar: AddrResult) -> bool {
    let res = pre.reg_acc ^ spec_resolve_operand(ar, pre);
    &&& frame_alu(pre, post)
    &&& post.reg_acc == res
    &&& post.reg_status == status_with_zn(pre.reg_status, res)
}

/// Whether a shift or rotate targets the accumulator (otherwise it targets
/// the memory cell the addressing result names).
pub open spec fn shift_targets_acc(ar: AddrResult) -> bool {
    ar.addr_mode == AddrMode::Accumulator
}

/// The state change every shift/rotate shares: the new byte lands either in
/// the accumulator or in memory, and the flags become `st`.
pub open spec fn shift_applied(
    pre: Cpu,
    post: Cpu,
    ar: AddrResult,
    new_v: u8,
    st: ProcessorStatusRegister,
) -> bool {
    &&& post.reg_x == pre.reg_x
    &&& post.reg_y == pre.reg_y
    &&& post.reg_pc == pre.reg_pc
    &&& post.reg_sp == pre.reg_sp
    &&& post.pending_cycles == pre.pending_cycles
    &&& post.reg_status == st
    &&& if shift_targets_acc(ar) {
        &&& post.reg_acc == new_v
        &&& post.memory.mem@ == pre.memory.mem@
    } else {
        &&& post.reg_acc == pre.reg_acc
        &&& post.memory.mem@ == pre.memory.mem@.update(ar.value as int, new_v)
    }
}

/// ASL: shift left; bit 7 becomes the carry; Zero/Negative from the result.
pub open spec fn asl_applied(pre: Cpu, post: Cpu, ar: AddrResult) -> bool {
    let old_v = spec_resolve_operand(ar, pre);
    let new_v = ((old_v * 2) % 256) as u8;
    shift_applied(pre, post, ar, new_v, status_with_znc(pre.reg_status, new_v, old_v >= 0x80))
}

/// LSR: shift right; bit 0 becomes the carry; Zero/Negative from the result.
pub open spec fn lsr_applied(pre: Cpu, post: Cpu, ar: AddrResult) -> bool {
    let old_v = spec_resolve_operand(ar, pre);
    let new_v = (old_v / 2) as u8;
    shift_applied(pre, post, ar, new_v, status_with_znc(pre.reg_status, new_v, old_v % 2 == 1))
}

/// ROL: rotate left through the carry: the old carry enters at bit 0, bit 7
/// leaves into the carry; Zero/Negative from the result.
pub open spec fn rol_applied(pre: Cpu, post: Cpu, ar: AddrResult) -> bool {
    let old_v = spec_resolve_operand(ar, pre);
    let new_v = ((old_v * 2 + (if pre.reg_status.carry {
        1int
    } else {
        0int
    })) % 256) as u8;
    shift_applied(pre, post, ar, new_v, status_with_znc(pre.reg_status, new_v, old_v >= 0x80))
}

/// ROR: rotate right through the carry: the old carry enters at bit 7, bit 0
/// leaves into the carry; Zero/Negative from the result.
pub open spec fn ror_applied(pre: Cpu, post: Cpu, ar: AddrResult) -> bool {
    let old_v = spec_resolve_operand(ar, pre);
    let new_v = (old_v / 2 + (if pre.reg_status.carry {
        128int
    } else {
        0int
    })) as u8;
    shift_applied(pre, post, ar, new_v, status_with_znc(pre.reg_status, new_v, old_v % 2 == 1))
}

/// BIT: Zero from `acc & m`, Overflow and Negative copied from bits 6 and 7
/// of the memory byte; nothing else changes.
pub open spec fn bit_applied(pre: Cpu, post: Cpu, ar: AddrResult) -> bool {
    let m = spec_resolve_operand(ar, pre);
    &&& frame_flags(pre, post)
    &&& post.reg_status == status_bit_test(
        pre.reg_status,
        (pre.reg_acc & m) == 0,
        spec_bit_set(m, 6),
        spec_bit_set(m, 7),
    )
}

/// A branch simply installs the program counter decided at decode time.
pub open spec fn branch_applied(pre: Cpu, post: Cpu, next_pc: u16) -> bool {
    &&& crate::cpu::same_but_pc(pre, post)
    &&& post.reg_pc == next_pc
}

/// BRK: pushes the program counter's high byte, then its low byte, then
/// the packed status byte, loads the program counter from the
/// interrupt/break vector, and sets the Break flag.
pub open spec fn brk_applied(pre: Cpu, post: Cpu) -> bool {
    let sp = pre.reg_sp;
    let hi = (pre.reg_pc / 256) as u8;
    let lo = (pre.reg_pc % 256) as u8;
    let sb = spec_status_byte(pre.reg_status);
    &&& post.memory.mem@ == pre.memory.mem@.update((0x100 + sp) as int, hi).update(
        (0x100 + wrap_sub8(sp, 1)) as int,
        lo,
    ).update((0x100 + wrap_sub8(sp, 2)) as int, sb)
    &&& post.reg_sp == wrap_sub8(sp, 3)
    &&& post.reg_pc == word_at(pre.memory.mem@, IRQ_BRK_VECTOR_ADDR)
    &&& post.reg_status == (ProcessorStatusRegister {
        brk: true,
        negative: pre.reg_status.negative,
        overflow: pre.reg_status.overflow,
        decimal_mode: pre.reg_status.decimal_mode,
        irq_disable: pre.reg_status.irq_disable,
        zero: pre.reg_status.zero,
        carry: pre.reg_status.carry,
    })
    &&& post.reg_acc == pre.reg_acc
    &&& post.reg_x == pre.reg_x
    &&& post.reg_y == pre.reg_y
    &&& post.pending_cycles == pre.pending_cycles
}

/// Compare: Carry iff the register is at least the operand (as unsigned
/// bytes), Zero iff equal, Negative from the sign of the wrapped
/// difference; nothing is stored.
pub open spec fn compare_applied(pre: Cpu, post: Cpu, reg_v: u8, ar: AddrResult) -> bool {
    let op = spec_resolve_operand(ar, pre);
    &&& frame_flags(pre, post)
    &&& post.reg_status == status_cmp(
        pre.reg_status,
        reg_v >= op,
        reg_v == op,
        wrap_sub8(reg_v, op) >= 0x80,
    )
}

/// INC/DEC and their register forms: the target (an index register or a
/// memory cell) is replaced by `new_v`, and Zero/Negative follow it.
pub open spec fn step_target_applied(
    pre: Cpu,
    post: Cpu,
    target: IncrementType,
    new_v: u8,
) -> bool {
    &&& post.reg_status == status_with_zn(pre.reg_status, new_v)
    &&& post.reg_pc == pre.reg_pc
    &&& post.reg_sp == pre.reg_sp
    &&& post.pending_cycles == pre.pending_cycles
    &&& post.reg_acc == pre.reg_acc
    &&& match target {
        IncrementType::Register(reg) => {
            &&& post.memory.mem@ == pre.memory.mem@
            &&& post.reg_x == (if reg == Register::X {
                new_v
            } else {
                pre.reg_x
            })
            &&& post.reg_y == (if reg == Register::Y {
                new_v
            } else {
                pre.reg_y
            })
        },
        IncrementType::Memory(ar) => {
            &&& post.memory.mem@ == pre.memory.mem@.update(ar.value as int, new_v)
            &&& post.reg_x == pre.reg_x
            &&& post.reg_y == pre.reg_y
        },
    }
}

/// The value an increment/decrement target currently holds.
pub open spec fn step_target_value(pre: Cpu, target: IncrementType) -> u8 {
    match target {
        IncrementType::Register(reg) => reg_val(pre, reg),
        IncrementType::Memory(ar) => pre.memory.mem@[ar.value as int],
    }
}

/// INC/INX/INY: target + 1, wrapping.
pub open spec fn increment_applied(pre: Cpu, post: Cpu, target: IncrementType) -> bool {
    step_target_applied(pre, post, target, wrap_add8(step_target_value(pre, target), 1))
}

/// DEC/DEX/DEY: target - 1, wrapping.
pub open spec fn decrement_applied(pre: Cpu, post: Cpu, target: IncrementType) -> bool {
    step_target_applied(pre, post, target, wrap_sub8(step_target_value(pre, target), 1))
}

/// JMP: the program counter becomes the resolved address.
pub open spec fn jmp_applied(pre: Cpu, post: Cpu, addr: u16) -> bool {
    &&& crate::cpu::same_but_pc(pre, post)
    &&& post.reg_pc == addr
}

/// JSR: pushes (program counter - 1), high byte first, then jumps.
pub open spec fn jsr_applied(pre: Cpu, post: Cpu, addr: u16) -> bool {
    let ra = wrap_sub16(pre.reg_pc, 1);
    let sp = pre.reg_sp;
    &&& post.memory.mem@ == pre.memory.mem@.update((0x100 + sp) as int, (ra / 256) as u8).update(
        (0x100 + wrap_sub8(sp, 1)) as int,
        (ra % 256) as u8,
    )
    &&& post.reg_sp == wrap_sub8(sp, 2)
    &&& post.reg_pc == addr
    &&& post.reg_acc == pre.reg_acc
    &&& post.reg_x == pre.reg_x
    &&& post.reg_y == pre.reg_y
    &&& post.reg_status == pre.reg_status
    &&& post.pending_cycles == pre.pending_cycles
}

/// A load: the register takes the operand, Zero/Negative follow it.
pub open spec fn load_applied(pre: Cpu, post: Cpu, reg: Register, ar: AddrResult) -> bool {
    let v = spec_resolve_operand(ar, pre);
    &&& reg_write(pre, post, reg, v)
    &&& post.reg_status == status_with_zn(pre.reg_status, v)
}

/// A store: the register's byte lands in memory; no flag changes.
pub open spec fn store_applied(pre: Cpu, post: Cpu, reg: Register, ar: AddrResult) -> bool {
    &&& frame_mem(pre, post)
    &&& post.reg_status == pre.reg_status
    &&& post.memory.mem@ == pre.memory.mem@.update(ar.value as int, reg_val(pre, reg))
}

/// LAX: loads the operand into both the accumulator and X, with
/// Zero/Negative.
pub open spec fn lax_applied(pre: Cpu, post: Cpu, ar: AddrResult) -> bool {
    let v = spec_resolve_operand(ar, pre);
    &&& post.reg_acc == v
    &&& post.reg_x == v
    &&& post.reg_y == pre.reg_y
    &&& post.reg_pc == pre.reg_pc
    &&& post.reg_sp == pre.reg_sp
    &&& post.memory.mem@ == pre.memory.mem@
    &&& post.pending_cycles == pre.pending_cycles
    &&& post.reg_status == status_with_zn(pre.reg_status, v)
}

/// AAX (SAX): stores `acc & x`, with Zero/Negative from the stored byte.
pub open spec fn aax_applied(pre: Cpu, post: Cpu, ar: AddrResult) -> bool {
    let v = pre.reg_acc & pre.reg_x;
    &&& frame_mem(pre, post)
    &&& post.memory.mem@ == pre.memory.mem@.update(ar.value as int, v)
    &&& post.reg_status == status_with_zn(pre.reg_status, v)
}

/// DCP: decrement the memory cell, then compare the accumulator against the
/// updated byte.
pub open spec fn dcp_applied(pre: Cpu, post: Cpu, ar: AddrResult) -> bool {
    let new_m = wrap_sub8(pre.memory.mem@[ar.value as int], 1);
    let a = pre.reg_acc;
    &&& frame_mem(pre, post)
    &&& post.memory.mem@ == pre.memory.mem@.update(ar.value as int, new_m)
    &&& post.reg_status == status_cmp(
        pre.reg_status,
        a >= new_m,
        a == new_m,
        wrap_sub8(a, new_m) >= 0x80,
    )
}

/// ISC: increment the memory cell, then SBC the updated byte from the
/// accumulator.
pub open spec fn isc_applied(pre: Cpu, post: Cpu, ar: AddrResult) -> bool {
    let new_m = wrap_add8(pre.memory.mem@[ar.value as int], 1);
    let a = pre.reg_acc;
    let c = pre.reg_status.carry;
    &&& post.memory.mem@ == pre.memory.mem@.update(ar.value as int, new_m)
    &&& post.reg_acc == sbc_result(a, new_m, c)
    &&& post.reg_status == status_arith(
        pre.reg_status,
        sbc_result(a, new_m, c),
        sbc_carry_out(a, new_m, c),
        sbc_overflow_out(a, new_m, c),
    )
    &&& post.reg_x == pre.reg_x
    &&& post.reg_y == pre.reg_y
    &&& post.reg_pc == pre.reg_pc
    &&& post.reg_sp == pre.reg_sp
    &&& post.pending_cycles == pre.pending_cycles
}

/// SLO: shift the memory cell left (bit 7 into the carry), then OR it into
/// the accumulator, with Zero/Negative from the accumulator.
pub open spec fn slo_applied(pre: Cpu, post: Cpu, ar: AddrResult) -> bool {
    let old_m = pre.memory.mem@[ar.value as int];
    let new_m = ((old_m * 2) % 256) as u8;
    let res = pre.reg_acc | new_m;
    &&& post.memory.mem@ == pre.memory.mem@.update(ar.value as int, new_m)
    &&& post.reg_acc == res
    &&& post.reg_status == status_with_znc(pre.reg_status, res, old_m >= 0x80)
    &&& post.reg_x == pre.reg_x
    &&& post.reg_y == pre.reg_y
    &&& post.reg_pc == pre.reg_pc
    &&& post.reg_sp == pre.reg_sp
    &&& post.pending_cycles == pre.pending_cycles
}

/// RLA: rotate the memory cell left through the carry, then AND it into the
/// accumulator, with Zero/Negative from the accumulator.
pub open spec fn rla_applied(pre: Cpu, post: Cpu, ar: AddrResult) -> bool {
    let old_m = pre.memory.mem@[ar.value as int];
    let new_m = ((old_m * 2 + (if pre.reg_status.carry {
        1int
    } else {
        0int
    })) % 256) as u8;
    let res = pre.reg_acc & new_m;
    &&& post.memory.mem@ == pre.memory.mem@.update(ar.value as int, new_m)
    &&& post.reg_acc == res
    &&& post.reg_status == status_with_znc(pre.reg_status, res, old_m >= 0x80)
    &&& post.reg_x == pre.reg_x
    &&& post.reg_y == pre.reg_y
    &&& post.reg_pc == pre.reg_pc
    &&& post.reg_sp == pre.reg_sp
    &&& post.pending_cycles == pre.pending_cycles
}

/// RRA: rotate the memory cell right through the carry, then ADC the updated
/// byte (with the rotate's carry-out as carry-in).
pub open spec fn rra_applied(pre: Cpu, post: Cpu, ar: AddrResult) -> bool {
    let old_m = pre.memory.mem@[ar.value as int];
    let new_m = (old_m / 2 + (if pre.reg_status.carry {
        128int
    } else {
        0int
    })) as u8;
    let c_mid = old_m % 2 == 1;
    let a = pre.reg_acc;
    &&& post.memory.mem@ == pre.memory.mem@.update(ar.value as int, new_m)
    &&& post.reg_acc == adc_result(a, new_m, c_mid)
    &&& post.reg_status == status_arith(
        pre.reg_status,
        adc_result(a, new_m, c_mid),
        adc_carry_out(a, new_m, c_mid),
        adc_overflow_out(a, new_m, c_mid),
    )
    &&& post.reg_x == pre.reg_x
    &&& post.reg_y == pre.reg_y
    &&& post.reg_pc == pre.reg_pc
    &&& post.reg_sp == pre.reg_sp
    &&& post.pending_cycles == pre.pending_cycles
}

/// A push: the byte snapshotted at decode time lands at the stack pointer's
/// address, and the stack pointer steps down.
pub open spec fn push_applied(pre: Cpu, post: Cpu, value: u8) -> bool {
    &&& post.memory.mem@ == pre.memory.mem@.update((0x100 + pre.reg_sp) as int, value)
    &&& post.reg_sp == wrap_sub8(pre.reg_sp, 1)
    &&& post.reg_acc == pre.reg_acc
    &&& post.reg_x == pre.reg_x
    &&& post.reg_y == pre.reg_y
    &&& post.reg_pc == pre.reg_pc
    &&& post.reg_status == pre.reg_status
    &&& post.pending_cycles == pre.pending_cycles
}

/// A pull: pops one byte into the accumulator (no flag change) or into the
/// status register (all flags from the byte).  Popping past the top of the
/// stack page underflows: the state is unchanged and the error says so.
pub open spec fn pull_applied(
    pre: Cpu,
    post: Cpu,
    dest: PullDestination,
    r: Result<(), CpuError>,
) -> bool {
    if pre.reg_sp == 0xff {
        &&& r == Err::<(), CpuError>(CpuError::StackUnderflow)
        &&& post == pre
    } else {
        let v = pre.memory.mem@[(0x100 + pre.reg_sp + 1) as int];
        &&& r is Ok
        &&& post.reg_sp == pre.reg_sp + 1
        &&& post.memory.mem@ == pre.memory.mem@
        &&& post.reg_pc == pre.reg_pc
        &&& post.reg_x == pre.reg_x
        &&& post.reg_y == pre.reg_y
        &&& post.pending_cycles == pre.pending_cycles
        &&& match dest {
            PullDestination::Accumulator => {
                &&& post.reg_acc == v
                &&& post.reg_status == pre.reg_status
            },
            PullDestination::Status => {
                &&& post.reg_acc == pre.reg_acc
                &&& post.reg_status == spec_status_from_byte(v)
            },
        }
    }
}

/// RTS: pops the return address, low byte first, and resumes there.  With
/// fewer than two bytes on the stack the pull underflows and nothing
/// changes.
pub open spec fn rts_applied(pre: Cpu, post: Cpu, r: Result<(), CpuError>) -> bool {
    if pre.reg_sp >= 0xfe {
        &&& r == Err::<(), CpuError>(CpuError::StackUnderflow)
        &&& post == pre
    } else {
        let lo = pre.memory.mem@[(0x100 + pre.reg_sp + 1) as int];
        let hi = pre.memory.mem@[(0x100 + pre.reg_sp + 2) as int];
        &&& r is Ok
        &&& post.reg_sp == pre.reg_sp + 2
        &&& post.reg_pc == spec_to_u16(lo, hi)
        &&& post.memory.mem@ == pre.memory.mem@
        &&& post.reg_acc == pre.reg_acc
        &&& post.reg_x == pre.reg_x
        &&& post.reg_y == pre.reg_y
        &&& post.reg_status == pre.reg_status
        &&& post.pending_cycles == pre.pending_cycles
    }
}

/// RTI: pops the status byte, then the return address, low byte first.
/// With fewer than three bytes on the stack the pull underflows and nothing
/// changes.
pub open spec fn rti_applied(pre: Cpu, post: Cpu, r: Result<(), CpuError>) -> bool {
    if pre.reg_sp >= 0xfd {
        &&& r == Err::<(), CpuError>(CpuError::StackUnderflow)
        &&& post == pre
    } else {
        let sb = pre.memory.mem@[(0x100 + pre.reg_sp + 1) as int];
        let lo = pre.memory.mem@[(0x100 + pre.reg_sp + 2) as int];
        let hi = pre.memory.mem@[(0x100 + pre.reg_sp + 3) as int];
        &&& r is Ok
        &&& post.reg_sp == pre.reg_sp + 3
        &&& post.reg_pc == spec_to_u16(lo, hi)
        &&& post.reg_status == spec_status_from_byte(sb)
        &&& post.memory.mem@ == pre.memory.mem@
        &&& post.reg_acc == pre.reg_acc
        &&& post.reg_x == pre.reg_x
        &&& post.reg_y == pre.reg_y
        &&& post.pending_cycles == pre.pending_cycles
    }
}

/// A register-to-register transfer.  Zero/Negative follow the moved byte
/// except when the destination is the stack pointer (TXS changes no flags).
pub open spec fn transfer_applied(pre: Cpu, post: Cpu, from: Register, to: Register) -> bool {
    let v = reg_val(pre, from);
    &&& reg_write(pre, post, to, v)
    &&& post.reg_status == (if to == Register::SP {
        pre.reg_status
    } else {
        status_with_zn(pre.reg_status, v)
    })
}

/// Setting or clearing exactly one flag.
pub open spec fn set_flag_applied(pre: Cpu, post: Cpu, flag: Flag, value: bool) -> bool {
    &&& frame_flags(pre, post)
    &&& post.reg_status == (ProcessorStatusRegister {
        carry: if flag == Flag::Carry {
            value
        } else {
            pre.reg_status.carry
        },
        decimal_mode: if flag == Flag::DecimalMode {
            value
        } else {
            pre.reg_status.decimal_mode
        },
        irq_disable: if flag == Flag::IrqDisable {
            value
        } else {
            pre.reg_status.irq_disable
        },
        overflow: if flag == Flag::Overflow {
            value
        } else {
            pre.reg_status.overflow
        },
        negative: pre.reg_status.negative,
        zero: pre.reg_status.zero,
        brk: pre.reg_status.brk,
    })
}

/// The full meaning of running one decoded instruction: the state relation
/// for its effect, plus whether it can fault (only the stack pulls can).
pub open spec fn effect_applied(
    pre: Cpu,
    post: Cpu,
    eff: Effect,
    r: Result<(), CpuError>,
) -> bool {
    match eff {
        Effect::Adc { ar } => r is Ok && adc_applied(pre, post, ar),
        Effect::Sbc { ar } => r is Ok && sbc_applied(pre, post, ar),
        Effect::And { ar } => r is Ok && and_applied(pre, post, ar),
        Effect::Ora { ar } => r is Ok && ora_applied(pre, post, ar),
        Effect::Eor { ar } => r is Ok && eor_applied(pre, post, ar),
        Effect::Asl { ar } => r is Ok && asl_applied(pre, post, ar),
        Effect::Lsr { ar } => r is Ok && lsr_applied(pre, post, ar),
        Effect::Rol { ar } => r is Ok && rol_applied(pre, post, ar),
        Effect::Ror { ar } => r is Ok && ror_applied(pre, post, ar),
        Effect::Bit { ar } => r is Ok && bit_applied(pre, post, ar),
        Effect::Branch { next_pc } => r is Ok && branch_applied(pre, post, next_pc),
        Effect::Brk => r is Ok && brk_applied(pre, post),
        Effect::Compare { reg_val, ar } => r is Ok && compare_applied(pre, post, reg_val, ar),
        Effect::Decrement { target } => r is Ok && decrement_applied(pre, post, target),
        Effect::Increment { target } => r is Ok && increment_applied(pre, post, target),
        Effect::Jmp { addr } => r is Ok && jmp_applied(pre, post, addr),
        Effect::Jsr { addr } => r is Ok && jsr_applied(pre, post, addr),
        Effect::Load { reg, ar } => r is Ok && load_applied(pre, post, reg, ar),
        Effect::Store { reg, ar } => r is Ok && store_applied(pre, post, reg, ar),
        Effect::Lax { ar } => r is Ok && lax_applied(pre, post, ar),
        Effect::Aax { ar } => r is Ok && aax_applied(pre, post, ar),
        Effect::Dcp { ar } => r is Ok && dcp_applied(pre, post, ar),
        Effect::Isc { ar } => r is Ok && isc_applied(pre, post, ar),
        Effect::Slo { ar } => r is Ok && slo_applied(pre, post, ar),
        Effect::Rla { ar } => r is Ok && rla_applied(pre, post, ar),
        Effect::Rra { ar } => r is Ok && rra_applied(pre, post, ar),
        Effect::Nop => r is Ok && post == pre,
        Effect::Push { value } => r is Ok && push_applied(pre, post, value),
        Effect::Pull { dest } => pull_applied(pre, post, dest, r),
        Effect::Rts => rts_applied(pre, post, r),
        Effect::Rti => rti_applied(pre, post, r),
        Effect::Transfer { from, to } => r is Ok && transfer_applied(pre, post, from, to),
        Effect::SetFlag { flag, on } => r is Ok && set_flag_applied(pre, post, flag, on),
    }
}

/// One decoded instruction: its cycle cost and its deferred effect.
#[derive(Clone, Copy, Debug)]
pub struct InstrResult {
    pub cycles: u8,
    pub effect: Effect,
}

impl InstrResult {
    /// A decoded instruction is well formed when its effect is.
    pub open spec fn wf(&self) -> bool {
        self.effect.wf()
    }

    /// The cycle cost of this instruction, page-crossing penalty included.
    pub fn get_num_cycles(&self) -> (r: u8)
        ensures
            r == self.cycles,
    {
        self.cycles
    }

    /// Applies the deferred effect to the CPU.  The meaning of every effect
    /// is given by [`effect_applied`]; only the stack pulls (PLA, PLP, RTS,
    /// RTI) can fault, with a stack underflow.
    pub fn run(&self, cpu: &mut Cpu) -> (r: Result<(), CpuError>)
        requires
            old(cpu).wf(),
            self.wf(),
        ensures
            final(cpu).wf(),
            effect_applied(*old(cpu), *final(cpu), self.effect, r),
    {
        match &self.effect {
            Effect::Adc { ar } => apply_adc(cpu, *ar),
            Effect::Sbc { ar } => apply_sbc(cpu, *ar),
            Effect::And { ar } => apply_and(cpu, *ar),
            Effect::Ora { ar } => apply_ora(cpu, *ar),
            Effect::Eor { ar } => apply_eor(cpu, *ar),
            Effect::Asl { ar } => apply_asl(cpu, *ar),
            Effect::Lsr { ar } => apply_lsr(cpu, *ar),
            Effect::Rol { ar } => apply_rol(cpu, *ar),
            Effect::Ror { ar } => apply_ror(cpu, *ar),
            Effect::Bit { ar } => apply_bit(cpu, *ar),
            Effect::Branch { next_pc } => {
                cpu.reg_pc = *next_pc;
            },
            Effect::Brk => apply_brk(cpu),
            Effect::Compare { reg_val, ar } => apply_compare(cpu, *reg_val, *ar),
            Effect::Decrement { target } => apply_decrement(cpu, *target),
            Effect::Increment { target } => apply_increment(cpu, *target),
            Effect::Jmp { addr } => {
                cpu.reg_pc = *addr;
            },
            Effect::Jsr { addr } => apply_jsr(cpu, *addr),
            Effect::Load { reg, ar } => apply_load(cpu, *reg, *ar),
            Effect::Store { reg, ar } => apply_store(cpu, *reg, *ar),
            Effect::Lax { ar } => apply_lax(cpu, *ar),
            Effect::Aax { ar } => apply_aax(cpu, *ar),
            Effect::Dcp { ar } => apply_dcp(cpu, *ar),
            Effect::Isc { ar } => apply_isc(cpu, *ar),
            Effect::Slo { ar } => apply_slo(cpu, *ar),
            Effect::Rla { ar } => apply_rla(cpu, *ar),
            Effect::Rra { ar } => apply_rra(cpu, *ar),
            Effect::Nop => {},
            Effect::Push { value } => cpu.push_u8(*value),
            Effect::Pull { dest } => {
                return apply_pull(cpu, *dest);
            },
            Effect::Rts => {
                return apply_rts(cpu);
            },
            Effect::Rti => {
                return apply_rti(cpu);
            },
            Effect::Transfer { from, to } => apply_transfer(cpu, *from, *to),
            Effect::SetFlag { flag, on } => apply_set_flag(cpu, *flag, *on),
        }
        Ok(())
    }
}

// ---------------------------------------------------------------------------
// The interpreter's per-family workers.
// ---------------------------------------------------------------------------

/// The signed reading of a byte, computed in 16 bits.
fn signed16(v: u8) -> (r: i16)
    ensures
        r == signed(v),
{
    if v >= 0x80 {
        (v as i16) - 256
    } else {
        v as i16
    }
}

fn apply_adc(cpu: &mut Cpu, ar: AddrResult)
    requires
        old(cpu).wf(),
        ar.addr_mode != AddrMode::Unknown,
    ensures
        final(cpu).wf(),
        adc_applied(*old(cpu), *final(cpu), ar),
{
    let op = ar.resolve(cpu);
    let a = cpu.reg_acc;
    let cin: u16 = if cpu.reg_status.carry {
        1
    } else {
        0
    };
    let sum: u16 = a as u16 + op as u16 + cin;
    let res: u8 = (sum % 256) as u8;
    let ssum: i16 = signed16(a) + signed16(op) + (cin as i16);
    cpu.reg_acc = res;
    cpu.reg_status.carry = sum > 255;
    cpu.reg_status.overflow = ssum < -128 || ssum > 127;
    cpu.reg_status.negative = res >= 0x80;
    cpu.reg_status.zero = res == 0;
}

fn apply_sbc(cpu: &mut Cpu, ar: AddrResult)
    requires
        old(cpu).wf(),
        ar.addr_mode != AddrMode::Unknown,
    ensures
        final(cpu).wf(),
        sbc_applied(*old(cpu), *final(cpu), ar),
{
    let op = ar.resolve(cpu);
    let a = cpu.reg_acc;
    let neg_op: u16 = (256 - op as u16) % 256;
    let cterm: u16 = if cpu.reg_status.carry {
        255
    } else {
        0
    };
    let cin: i16 = if cpu.reg_status.carry {
        1
    } else {
        0
    };
    let sum: u16 = a as u16 + neg_op + cterm;
    let res: u8 = (sum % 256) as u8;
    let ssum: i16 = signed16(a) - signed16(op) - cin;
    cpu.reg_acc = res;
    cpu.reg_status.carry = sum > 255;
    cpu.reg_status.overflow = ssum < -128 || ssum > 127;
    cpu.reg_status.negative = res >= 0x80;
    cpu.reg_status.zero = res == 0;
}

fn apply_and(cpu: &mut Cpu, ar: AddrResult)
    requires
        old(cpu).wf(),
        ar.addr_mode != AddrMode::Unknown,
    ensures
        final(cpu).wf(),
        and_applied(*old(cpu), *final(cpu), ar),
{
    let op = ar.resolve(cpu);
    let res = cpu.reg_acc & op;
    cpu.reg_acc = res;
    cpu.reg_status.zero = res == 0;
    cpu.reg_status.negative = res >= 0x80;
}

fn apply_ora(cpu: &mut Cpu, ar: AddrResult)
    requires
        old(cpu).wf(),
        ar.addr_mode != AddrMode::Unknown,
    ensures
        final(cpu).wf(),
        ora_applied(*old(cpu), *final(cpu), ar),
{
    let op = ar.resolve(cpu);
    let res = cpu.reg_acc | op;
    cpu.reg_acc = res;
    cpu.reg_status.zero = res == 0;
    cpu.reg_status.negative = res >= 0x80;
}

fn apply_eor(cpu: &mut Cpu, ar: AddrResult)
    requires
        old(cpu).wf(),
        ar.addr_mode != AddrMode::Unknown,
    ensures
        final(cpu).wf(),
        eor_applied(*old(cpu), *final(cpu), ar),
{
    let op = ar.resolve(cpu);
    let res = cpu.reg_acc ^ op;
    cpu.reg_acc = res;
    cpu.reg_status.zero = res == 0;
    cpu.reg_status.negative = res >= 0x80;
}

/// Stores a shift/rotate result into the accumulator or memory, whichever
/// the addressing mode targets.
fn store_shift_result(cpu: &mut Cpu, ar: AddrResult, new_v: u8)
    requires
        old(cpu).wf(),
    ensures
        final(cpu).wf(),
        final(cpu).reg_x == old(cpu).reg_x,
        final(cpu).reg_y == old(cpu).reg_y,
        final(cpu).reg_pc == old(cpu).reg_pc,
        final(cpu).reg_sp == old(cpu).reg_sp,
        final(cpu).reg_status == old(cpu).reg_status,
        final(cpu).pending_cycles == old(cpu).pending_cycles,
        shift_targets_acc(ar) ==> final(cpu).reg_acc == new_v && final(cpu).memory.mem@ == old(cpu).memory.mem@,
        !shift_targets_acc(ar) ==> final(cpu).reg_acc == old(cpu).reg_acc && final(cpu).memory.mem@ == old(cpu).memory.mem@.update(ar.value as int, new_v),
{
    if ar.addr_mode == AddrMode::Accumulator {
        cpu.reg_acc = new_v;
    } else {
        cpu.memory.write_u8_at(&ar.value, new_v);
    }
}

fn apply_asl(cpu: &mut Cpu, ar: AddrResult)
    requires
        old(cpu).wf(),
        ar.addr_mode != AddrMode::Unknown,
    ensures
        final(cpu).wf(),
        asl_applied(*old(cpu), *final(cpu), ar),
{
    let old_v = ar.resolve(cpu);
    let new_v: u8 = ((old_v as u16 * 2) % 256) as u8;
    cpu.reg_status.zero = new_v == 0;
    cpu.reg_status.carry = old_v >= 0x80;
    cpu.reg_status.negative = new_v >= 0x80;
    store_shift_result(cpu, ar, new_v);
}

fn apply_lsr(cpu: &mut Cpu, ar: AddrResult)
    requires
        old(cpu).wf(),
        ar.addr_mode != AddrMode::Unknown,
    ensures
        final(cpu).wf(),
        lsr_applied(*old(cpu), *final(cpu), ar),
{
    let old_v = ar.resolve(cpu);
    let new_v: u8 = old_v / 2;
    cpu.reg_status.zero = new_v == 0;
    cpu.reg_status.carry = old_v % 2 == 1;
    cpu.reg_status.negative = new_v >= 0x80;
    store_shift_result(cpu, ar, new_v);
}

fn apply_rol(cpu: &mut Cpu, ar: AddrResult)
    requires
        old(cpu).wf(),
        ar.addr_mode != AddrMode::Unknown,
    ensures
        final(cpu).wf(),
        rol_applied(*old(cpu), *final(cpu), ar),
{
    let old_v = ar.resolve(cpu);
    let cin: u16 = if cpu.reg_status.carry {
        1
    } else {
        0
    };
    let new_v: u8 = ((old_v as u16 * 2 + cin) % 256) as u8;
    cpu.reg_status.zero = new_v == 0;
    cpu.reg_status.carry = old_v >= 0x80;
    cpu.reg_status.negative = new_v >= 0x80;
    store_shift_result(cpu, ar, new_v);
}

fn apply_ror(cpu: &mut Cpu, ar: AddrResult)
    requires
        old(cpu).wf(),
        ar.addr_mode != AddrMode::Unknown,
    ensures
        final(cpu).wf(),
        ror_applied(*old(cpu), *final(cpu), ar),
{
    let old_v = ar.resolve(cpu);
    let high: u8 = if cpu.reg_status.carry {
        128
    } else {
        0
    };
    let new_v: u8 = old_v / 2 + high;
    cpu.reg_status.zero = new_v == 0;
    cpu.reg_status.carry = old_v % 2 == 1;
    cpu.reg_status.negative = new_v >= 0x80;
    store_shift_result(cpu, ar, new_v);
}

fn apply_bit(cpu: &mut Cpu, ar: AddrResult)
    requires
        old(cpu).wf(),
        ar.addr_mode != AddrMode::Unknown,
    ensures
        final(cpu).wf(),
        bit_applied(*old(cpu), *final(cpu), ar),
{
    let m = ar.resolve(cpu);
    let masked = cpu.reg_acc & m;
    cpu.reg_status.zero = masked == 0;
    cpu.reg_status.overflow = crate::util::test_bit_set(m, 6);
    cpu.reg_status.negative = crate::util::test_bit_set(m, 7);
}

fn apply_brk(cpu: &mut Cpu)
    requires
        old(cpu).wf(),
    ensures
        final(cpu).wf(),
        brk_applied(*old(cpu), *final(cpu)),
{
    let pc = cpu.reg_pc;
    let pc_hi: u8 = (pc / 256) as u8;
    let pc_lo: u8 = (pc % 256) as u8;
    let status: u8 = cpu.reg_status.to_byte();
    cpu.push_u8(pc_hi);
    cpu.push_u8(pc_lo);
    cpu.push_u8(status);
    let irq_vec = cpu.memory.read_u16_at(&IRQ_BRK_VECTOR_ADDR);
    cpu.reg_pc = irq_vec;
    cpu.reg_status.brk = true;
}

fn apply_compare(cpu: &mut Cpu, reg_v: u8, ar: AddrResult)
    requires
        old(cpu).wf(),
        ar.addr_mode != AddrMode::Unknown,
    ensures
        final(cpu).wf(),
        compare_applied(*old(cpu), *final(cpu), reg_v, ar),
{
    let op = ar.resolve(cpu);
    let diff = reg_v.wrapping_sub(op);
    cpu.reg_status.carry = reg_v >= op;
    cpu.reg_status.zero = reg_v == op;
    cpu.reg_status.negative = diff >= 0x80;
}

fn apply_increment(cpu: &mut Cpu, target: IncrementType)
    requires
        old(cpu).wf(),
        target.wf(),
    ensures
        final(cpu).wf(),
        increment_applied(*old(cpu), *final(cpu), target),
{
    match target {
        IncrementType::Register(reg) => {
            match reg {
                Register::X => {
                    let new_v = cpu.reg_x.wrapping_add(1);
                    cpu.reg_x = new_v;
                    cpu.reg_status.zero = new_v == 0;
                    cpu.reg_status.negative = new_v >= 0x80;
                },
                Register::Y => {
                    let new_v = cpu.reg_y.wrapping_add(1);
                    cpu.reg_y = new_v;
                    cpu.reg_status.zero = new_v == 0;
                    cpu.reg_status.negative = new_v >= 0x80;
                },
                _ => {},
            }
        },
        IncrementType::Memory(ar) => {
            let old_v = cpu.memory.read_u8_at(&ar.value);
            let new_v = old_v.wrapping_add(1);
            cpu.memory.write_u8_at(&ar.value, new_v);
            cpu.reg_status.zero = new_v == 0;
            cpu.reg_status.negative = new_v >= 0x80;
        },
    }
}

fn apply_decrement(cpu: &mut Cpu, target: IncrementType)
    requires
        old(cpu).wf(),
        target.wf(),
    ensures
        final(cpu).wf(),
        decrement_applied(*old(cpu), *final(cpu), target),
{
    match target {
        IncrementType::Register(reg) => {
            match reg {
                Register::X => {
                    let new_v = cpu.reg_x.wrapping_sub(1);
                    cpu.reg_x = new_v;
                    cpu.reg_status.zero = new_v == 0;
                    cpu.reg_status.negative = new_v >= 0x80;
                },
                Register::Y => {
                    let new_v = cpu.reg_y.wrapping_sub(1);
                    cpu.reg_y = new_v;
                    cpu.reg_status.zero = new_v == 0;
                    cpu.reg_status.negative = new_v >= 0x80;
                },
                _ => {},
            }
        },
        IncrementType::Memory(ar) => {
            let old_v = cpu.memory.read_u8_at(&ar.value);
            let new_v = old_v.wrapping_sub(1);
            cpu.memory.write_u8_at(&ar.value, new_v);
            cpu.reg_status.zero = new_v == 0;
            cpu.reg_status.negative = new_v >= 0x80;
        },
    }
}

fn apply_jsr(cpu: &mut Cpu, addr: u16)
    requires
        old(cpu).wf(),
    ensures
        final(cpu).wf(),
        jsr_applied(*old(cpu), *final(cpu), addr),
{
    let rts_addr = cpu.reg_pc.wrapping_sub(1);
    let pc_hi: u8 = (rts_addr / 256) as u8;
    let pc_lo: u8 = (rts_addr % 256) as u8;
    cpu.push_u8(pc_hi);
    cpu.push_u8(pc_lo);
    cpu.reg_pc = addr;
}

fn apply_load(cpu: &mut Cpu, reg: Register, ar: AddrResult)
    requires
        old(cpu).wf(),
        reg != Register::SP,
        ar.addr_mode != AddrMode::Unknown,
    ensures
        final(cpu).wf(),
        load_applied(*old(cpu), *final(cpu), reg, ar),
{
    let v = ar.resolve(cpu);
    match reg {
        Register::A => cpu.reg_acc = v,
        Register::X => cpu.reg_x = v,
        Register::Y => cpu.reg_y = v,
        _ => {},
    }
    cpu.reg_status.zero = v == 0;
    cpu.reg_status.negative = v >= 0x80;
}

fn apply_store(cpu: &mut Cpu, reg: Register, ar: AddrResult)
    requires
        old(cpu).wf(),
        reg != Register::SP,
    ensures
        final(cpu).wf(),
        store_applied(*old(cpu), *final(cpu), reg, ar),
{
    let v = match reg {
        Register::A => cpu.reg_acc,
        Register::X => cpu.reg_x,
        Register::Y => cpu.reg_y,
        Register::SP => 0,
    };
    cpu.memory.write_u8_at(&ar.value, v);
}

fn apply_lax(cpu: &mut Cpu, ar: AddrResult)
    requires
        old(cpu).wf(),
        ar.addr_mode != AddrMode::Unknown,
    ensures
        final(cpu).wf(),
        lax_applied(*old(cpu), *final(cpu), ar),
{
    let v = ar.resolve(cpu);
    cpu.reg_acc = v;
    cpu.reg_x = v;
    cpu.reg_status.zero = v == 0;
    cpu.reg_status.negative = v >= 0x80;
}

fn apply_aax(cpu: &mut Cpu, ar: AddrResult)
    requires
        old(cpu).wf(),
    ensures
        final(cpu).wf(),
        aax_applied(*old(cpu), *final(cpu), ar),
{
    let v = cpu.reg_acc & cpu.reg_x;
    cpu.reg_status.zero = v == 0;
    cpu.reg_status.negative = v >= 0x80;
    cpu.memory.write_u8_at(&ar.value, v);
}

fn apply_dcp(cpu: &mut Cpu, ar: AddrResult)
    requires
        old(cpu).wf(),
    ensures
        final(cpu).wf(),
        dcp_applied(*old(cpu), *final(cpu), ar),
{
    let old_v = cpu.memory.read_u8_at(&ar.value);
    let new_v = old_v.wrapping_sub(1);
    cpu.memory.write_u8_at(&ar.value, new_v);
    let a = cpu.reg_acc;
    let diff = a.wrapping_sub(new_v);
    cpu.reg_status.carry = a >= new_v;
    cpu.reg_status.zero = a == new_v;
    cpu.reg_status.negative = diff >= 0x80;
}

fn apply_isc(cpu: &mut Cpu, ar: AddrResult)
    requires
        old(cpu).wf(),
    ensures
        final(cpu).wf(),
        isc_applied(*old(cpu), *final(cpu), ar),
{
    let old_v = cpu.memory.read_u8_at(&ar.value);
    let new_v = old_v.wrapping_add(1);
    cpu.memory.write_u8_at(&ar.value, new_v);
    let a = cpu.reg_acc;
    let neg_op: u16 = (256 - new_v as u16) % 256;
    let cterm: u16 = if cpu.reg_status.carry {
        255
    } else {
        0
    };
    let cin: i16 = if cpu.reg_status.carry {
        1
    } else {
        0
    };
    let sum: u16 = a as u16 + neg_op + cterm;
    let res: u8 = (sum % 256) as u8;
    let ssum: i16 = signed16(a) - signed16(new_v) - cin;
    cpu.reg_acc = res;
    cpu.reg_status.carry = sum > 255;
    cpu.reg_status.overflow = ssum < -128 || ssum > 127;
    cpu.reg_status.negative = res >= 0x80;
    cpu.reg_status.zero = res == 0;
}

fn apply_slo(cpu: &mut Cpu, ar: AddrResult)
    requires
        old(cpu).wf(),
    ensures
        final(cpu).wf(),
        slo_applied(*old(cpu), *final(cpu), ar),
{
    let old_v = cpu.memory.read_u8_at(&ar.value);
    let new_v: u8 = ((old_v as u16 * 2) % 256) as u8;
    cpu.memory.write_u8_at(&ar.value, new_v);
    let res = cpu.reg_acc | new_v;
    cpu.reg_acc = res;
    cpu.reg_status.carry = old_v >= 0x80;
    cpu.reg_status.zero = res == 0;
    cpu.reg_status.negative = res >= 0x80;
}

fn apply_rla(cpu: &mut Cpu, ar: AddrResult)
    requires
        old(cpu).wf(),
    ensures
        final(cpu).wf(),
        rla_applied(*old(cpu), *final(cpu), ar),
{
    let old_v = cpu.memory.read_u8_at(&ar.value);
    let cin: u16 = if cpu.reg_status.carry {
        1
    } else {
        0
    };
    let new_v: u8 = ((old_v as u16 * 2 + cin) % 256) as u8;
    cpu.memory.write_u8_at(&ar.value, new_v);
    let res = cpu.reg_acc & new_v;
    cpu.reg_acc = res;
    cpu.reg_status.carry = old_v >= 0x80;
    cpu.reg_status.zero = res == 0;
    cpu.reg_status.negative = res >= 0x80;
}

fn apply_rra(cpu: &mut Cpu, ar: AddrResult)
    requires
        old(cpu).wf(),
    ensures
        final(cpu).wf(),
        rra_applied(*old(cpu), *final(cpu), ar),
{
    let old_v = cpu.memory.read_u8_at(&ar.value);
    let high: u8 = if cpu.reg_status.carry {
        128
    } else {
        0
    };
    let new_v: u8 = old_v / 2 + high;
    let c_mid = old_v % 2 == 1;
    cpu.memory.write_u8_at(&ar.value, new_v);
    let a = cpu.reg_acc;
    let cin: u16 = if c_mid {
        1
    } else {
        0
    };
    let sum: u16 = a as u16 + new_v as u16 + cin;
    let res: u8 = (sum % 256) as u8;
    let ssum: i16 = signed16(a) + signed16(new_v) + (cin as i16);
    cpu.reg_acc = res;
    cpu.reg_status.carry = sum > 255;
    cpu.reg_status.overflow = ssum < -128 || ssum > 127;
    cpu.reg_status.negative = res >= 0x80;
    cpu.reg_status.zero = res == 0;
}

fn apply_pull(cpu: &mut Cpu, dest: PullDestination) -> (r: Result<(), CpuError>)
    requires
        old(cpu).wf(),
    ensures
        final(cpu).wf(),
        pull_applied(*old(cpu), *final(cpu), dest, r),
{
    match cpu.pop_u8() {
        None => Err(CpuError::StackUnderflow),
        Some(v) => {
            match dest {
                PullDestination::Accumulator => cpu.reg_acc = v,
                PullDestination::Status => {
                    cpu.reg_status = ProcessorStatusRegister::from_byte(v);
                },
            }
            Ok(())
        },
    }
}

fn apply_rts(cpu: &mut Cpu) -> (r: Result<(), CpuError>)
    requires
        old(cpu).wf(),
    ensures
        final(cpu).wf(),
        rts_applied(*old(cpu), *final(cpu), r),
{
    if cpu.reg_sp >= 0xfe {
        return Err(CpuError::StackUnderflow);
    }
    let lo = cpu.pop_u8().unwrap_or(0);
    let hi = cpu.pop_u8().unwrap_or(0);
    cpu.reg_pc = (lo as u16) + 256 * (hi as u16);
    Ok(())
}

fn apply_rti(cpu: &mut Cpu) -> (r: Result<(), CpuError>)
    requires
        old(cpu).wf(),
    ensures
        final(cpu).wf(),
        rti_applied(*old(cpu), *final(cpu), r),
{
    if cpu.reg_sp >= 0xfd {
        return Err(CpuError::StackUnderflow);
    }
    let status_byte = cpu.pop_u8().unwrap_or(0);
    cpu.reg_status = ProcessorStatusRegister::from_byte(status_byte);
    let lo = cpu.pop_u8().unwrap_or(0);
    let hi = cpu.pop_u8().unwrap_or(0);
    cpu.reg_pc = (lo as u16) + 256 * (hi as u16);
    Ok(())
}

fn apply_transfer(cpu: &mut Cpu, from: Register, to: Register)
    requires
        old(cpu).wf(),
    ensures
        final(cpu).wf(),
        transfer_applied(*old(cpu), *final(cpu), from, to),
{
    let v = match from {
        Register::A => cpu.reg_acc,
        Register::X => cpu.reg_x,
        Register::Y => cpu.reg_y,
        Register::SP => cpu.reg_sp,
    };
    match to {
        Register::A => cpu.reg_acc = v,
        Register::X => cpu.reg_x = v,
        Register::Y => cpu.reg_y = v,
        Register::SP => cpu.reg_sp = v,
    }
    if !matches!(to, Register::SP) {
        cpu.reg_status.zero = v == 0;
        cpu.reg_status.negative = v >= 0x80;
    }
}

fn apply_set_flag(cpu: &mut Cpu, flag: Flag, value: bool)
    requires
        old(cpu).wf(),
    ensures
        final(cpu).wf(),
        set_flag_applied(*old(cpu), *final(cpu), flag, value),
{
    match flag {
        Flag::Carry => cpu.reg_status.carry = value,
        Flag::DecimalMode => cpu.reg_status.decimal_mode = value,
        Flag::IrqDisable => cpu.reg_status.irq_disable = value,
        Flag::Overflow => cpu.reg_status.overflow = value,
    }
}

/// The cycle cost after the one-cycle page-crossing penalty, applied when
/// the addressing mode signals a crossing.
pub fn penalized_cycles(ar: &AddrResult, cycles: u8) -> (r: u8)
    requires
        cycles < 255,
    ensures
        r == spec_penalized_cycles(*ar, cycles),
{
    match ar.crosses_boundary {
        Some(true) => cycles + 1,
        _ => cycles,
    }
}

/// The base cycle count plus one iff a page boundary was crossed.
pub open spec fn spec_penalized_cycles(ar: AddrResult, cycles: u8) -> u8 {
    if ar.crosses_boundary == Some(true) {
        (cycles + 1) as u8
    } else {
        cycles
    }
}

} // verus!
