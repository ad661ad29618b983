//! The opcode dispatch table: a total mapping from the 256 opcode byte
//! values to an instruction handler (or to "unmapped", the fatal decode
//! error).  [`spec_resolve`] is the table itself; [`resolve`] is its
//! executable twin; [`decoded`] states, for every table entry, exactly what
//! decoding that entry does to the CPU and what instruction value it
//! produces; and [`decode`] runs the entry's constructor.

use vstd::prelude::*;

use crate::addr;
use crate::addr::{AddrMode, AddrResult};
use crate::cpu::{Cpu, Register};
use crate::mem::{page_of, word_at};
use crate::util::wrap_add16;
use crate::instr::inc::IncrementType;
use crate::instr::{
    aax, adc, and, asl, bit, branch, brk, clear, cmp, cpx, cpy, dcp, dec, dop, eor, inc, isc, jmp,
    jsr, lax, lda, ldx, ldy, lsr, nop, ora, pull, push, ret, rla, rol, ror, rra, sbc, slo, sta,
    stx, sty, top, transfer,
};
use crate::instr::{spec_penalized_cycles, Effect, Flag, InstrResult, PullDestination};

verus! {

/// The instruction mnemonics the dispatch table can name.
#[derive(Clone, Copy, Debug, PartialEq, Eq, Structural)]
pub enum Op {
    Aax,
    Adc,
    And,
    Asl,
    Bcc,
    Bcs,
    Beq,
    Bit,
    Bmi,
    Bne,
    Bpl,
    Brk,
    Bvc,
    Bvs,
    Clc,
    Cld,
    Cli,
    Clv,
    Cmp,
    Cpx,
    Cpy,
    Dcp,
    Dec,
    Dex,
    Dey,
    Dop,
    Eor,
    Inc,
    Inx,
    Iny,
    Isc,
    Jmp,
    Jsr,
    Lax,
    Lda,
    Ldx,
    Ldy,
    Lsr,
    Nop,
    Ora,
    Pha,
    Php,
    Pla,
    Plp,
    Rla,
    Rol,
    Ror,
    Rra,
    Rti,
    Rts,
    Sbc,
    Sec,
    Sed,
    Sei,
    Slo,
    Sta,
    Stx,
    Sty,
    Tax,
    Tay,
    Top,
    Tsx,
    Txa,
    Txs,
    Tya,
}

/// The dispatch table: which instruction and addressing mode each opcode
/// byte decodes to, or `None` for a byte with no mapped behaviour.
pub open spec fn spec_resolve(opcode: u8) -> Option<(Op, AddrMode)> {
    match opcode {
        0x00 => Some((Op::Brk, AddrMode::Implicit)),
        0x01 => Some((Op::Ora, AddrMode::IndirectX)),
        0x03 => Some((Op::Slo, AddrMode::IndirectX)),
        0x04 => Some((Op::Dop, AddrMode::ZeroPage)),
        0x05 => Some((Op::Ora, AddrMode::ZeroPage)),
        0x06 => Some((Op::Asl, AddrMode::ZeroPage)),
        0x07 => Some((Op::Slo, AddrMode::ZeroPage)),
        0x08 => Some((Op::Php, AddrMode::Implicit)),
        0x09 => Some((Op::Ora, AddrMode::Immediate)),
        0x0a => Some((Op::Asl, AddrMode::Accumulator)),
        0x0c => Some((Op::Top, AddrMode::Absolute)),
        0x0d => Some((Op::Ora, AddrMode::Absolute)),
        0x0e => Some((Op::Asl, AddrMode::Absolute)),
        0x0f => Some((Op::Slo, AddrMode::Absolute)),
        0x10 => Some((Op::Bpl, AddrMode::Relative)),
        0x11 => Some((Op::Ora, AddrMode::IndirectY)),
        0x13 => Some((Op::Slo, AddrMode::IndirectY)),
        0x14 => Some((Op::Dop, AddrMode::ZeroPageX)),
        0x15 => Some((Op::Ora, AddrMode::ZeroPageX)),
        0x16 => Some((Op::Asl, AddrMode::ZeroPageX)),
        0x17 => Some((Op::Slo, AddrMode::ZeroPageX)),
        0x18 => Some((Op::Clc, AddrMode::Implicit)),
        0x19 => Some((Op::Ora, AddrMode::AbsoluteY)),
        0x1a => Some((Op::Nop, AddrMode::Implicit)),
        0x1b => Some((Op::Slo, AddrMode::AbsoluteY)),
        0x1c => Some((Op::Top, AddrMode::AbsoluteX)),
        0x1d => Some((Op::Ora, AddrMode::AbsoluteX)),
        0x1e => Some((Op::Asl, AddrMode::AbsoluteX)),
        0x1f => Some((Op::Slo, AddrMode::AbsoluteX)),
        0x20 => Some((Op::Jsr, AddrMode::Absolute)),
        0x21 => Some((Op::And, AddrMode::IndirectX)),
        0x23 => Some((Op::Rla, AddrMode::IndirectX)),
        0x24 => Some((Op::Bit, AddrMode::ZeroPage)),
        0x25 => Some((Op::And, AddrMode::ZeroPage)),
        0x26 => Some((Op::Rol, AddrMode::ZeroPage)),
        0x27 => Some((Op::Rla, AddrMode::ZeroPage)),
        0x28 => Some((Op::Plp, AddrMode::Implicit)),
        0x29 => Some((Op::And, AddrMode::Immediate)),
        0x2a => Some((Op::Rol, AddrMode::Accumulator)),
        0x2c => Some((Op::Bit, AddrMode::Absolute)),
        0x2d => Some((Op::And, AddrMode::Absolute)),
        0x2e => Some((Op::Rol, AddrMode::Absolute)),
        0x2f => Some((Op::Rla, AddrMode::Absolute)),
        0x30 => Some((Op::Bmi, AddrMode::Relative)),
        0x31 => Some((Op::And, AddrMode::IndirectY)),
        0x33 => Some((Op::Rla, AddrMode::IndirectY)),
        0x34 => Some((Op::Dop, AddrMode::ZeroPageX)),
        0x35 => Some((Op::And, AddrMode::ZeroPageX)),
        0x36 => Some((Op::Rol, AddrMode::ZeroPageX)),
        0x37 => Some((Op::Rla, AddrMode::ZeroPageX)),
        0x38 => Some((Op::Sec, AddrMode::Implicit)),
        0x39 => Some((Op::And, AddrMode::AbsoluteY)),
        0x3a => Some((Op::Nop, AddrMode::Implicit)),
        0x3b => Some((Op::Rla, AddrMode::AbsoluteY)),
        0x3c => Some((Op::Top, AddrMode::AbsoluteX)),
        0x3d => Some((Op::And, AddrMode::AbsoluteX)),
        0x3e => Some((Op::Rol, AddrMode::AbsoluteX)),
        0x3f => Some((Op::Rla, AddrMode::AbsoluteX)),
        0x40 => Some((Op::Rti, AddrMode::Implicit)),
        0x41 => Some((Op::Eor, AddrMode::IndirectX)),
        0x44 => Some((Op::Dop, AddrMode::ZeroPage)),
        0x45 => Some((Op::Eor, AddrMode::ZeroPage)),
        0x46 => Some((Op::Lsr, AddrMode::ZeroPage)),
        0x48 => Some((Op::Pha, AddrMode::Implicit)),
        0x49 => Some((Op::Eor, AddrMode::Immediate)),
        0x4a => Some((Op::Lsr, AddrMode::Accumulator)),
        0x4c => Some((Op::Jmp, AddrMode::Absolute)),
        0x4d => Some((Op::Eor, AddrMode::Absolute)),
        0x4e => Some((Op::Lsr, AddrMode::Absolute)),
        0x50 => Some((Op::Bvc, AddrMode::Relative)),
        0x51 => Some((Op::Eor, AddrMode::IndirectY)),
        0x54 => Some((Op::Dop, AddrMode::ZeroPageX)),
        0x55 => Some((Op::Eor, AddrMode::ZeroPageX)),
        0x56 => Some((Op::Lsr, AddrMode::ZeroPageX)),
        0x58 => Some((Op::Cli, AddrMode::Implicit)),
        0x59 => Some((Op::Eor, AddrMode::AbsoluteY)),
        0x5a => Some((Op::Nop, AddrMode::Implicit)),
        0x5c => Some((Op::Top, AddrMode::AbsoluteX)),
        0x5d => Some((Op::Eor, AddrMode::AbsoluteX)),
        0x5e => Some((Op::Lsr, AddrMode::AbsoluteX)),
        0x60 => Some((Op::Rts, AddrMode::Implicit)),
        0x61 => Some((Op::Adc, AddrMode::IndirectX)),
        0x63 => Some((Op::Rra, AddrMode::IndirectX)),
        0x64 => Some((Op::Dop, AddrMode::ZeroPage)),
        0x65 => Some((Op::Adc, AddrMode::ZeroPage)),
        0x66 => Some((Op::Ror, AddrMode::ZeroPage)),
        0x67 => Some((Op::Rra, AddrMode::ZeroPage)),
        0x68 => Some((Op::Pla, AddrMode::Implicit)),
        0x69 => Some((Op::Adc, AddrMode::Immediate)),
        0x6a => Some((Op::Ror, AddrMode::Accumulator)),
        0x6c => Some((Op::Jmp, AddrMode::Indirect)),
        0x6d => Some((Op::Adc, AddrMode::Absolute)),
        0x6e => Some((Op::Ror, AddrMode::Absolute)),
        0x6f => Some((Op::Rra, AddrMode::Absolute)),
        0x70 => Some((Op::Bvs, AddrMode::Relative)),
        0x71 => Some((Op::Adc, AddrMode::IndirectY)),
        0x73 => Some((Op::Rra, AddrMode::IndirectY)),
        0x74 => Some((Op::Dop, AddrMode::ZeroPageX)),
        0x75 => Some((Op::Adc, AddrMode::ZeroPageX)),
        0x76 => Some((Op::Ror, AddrMode::ZeroPageX)),
        0x77 => Some((Op::Rra, AddrMode::ZeroPageX)),
        0x78 => Some((Op::Sei, AddrMode::Implicit)),
        0x79 => Some((Op::Adc, AddrMode::AbsoluteY)),
        0x7a => Some((Op::Nop, AddrMode::Implicit)),
        0x7b => Some((Op::Rra, AddrMode::AbsoluteY)),
        0x7c => Some((Op::Top, AddrMode::AbsoluteX)),
        0x7d => Some((Op::Adc, AddrMode::AbsoluteX)),
        0x7e => Some((Op::Ror, AddrMode::AbsoluteX)),
        0x7f => Some((Op::Rra, AddrMode::AbsoluteX)),
        0x80 => Some((Op::Dop, AddrMode::Immediate)),
        0x81 => Some((Op::Sta, AddrMode::IndirectX)),
        0x82 => Some((Op::Dop, AddrMode::Immediate)),
        0x83 => Some((Op::Aax, AddrMode::IndirectX)),
        0x84 => Some((Op::Sty, AddrMode::ZeroPage)),
        0x85 => Some((Op::Sta, AddrMode::ZeroPage)),
        0x86 => Some((Op::Stx, AddrMode::ZeroPage)),
        0x87 => Some((Op::Aax, AddrMode::ZeroPage)),
        0x88 => Some((Op::Dey, AddrMode::Implicit)),
        0x89 => Some((Op::Dop, AddrMode::Immediate)),
        0x8a => Some((Op::Txa, AddrMode::Implicit)),
        0x8c => Some((Op::Sty, AddrMode::Absolute)),
        0x8d => Some((Op::Sta, AddrMode::Absolute)),
        0x8e => Some((Op::Stx, AddrMode::Absolute)),
        0x8f => Some((Op::Aax, AddrMode::Absolute)),
        0x90 => Some((Op::Bcc, AddrMode::Relative)),
        0x91 => Some((Op::Sta, AddrMode::IndirectY)),
        0x94 => Some((Op::Sty, AddrMode::ZeroPageX)),
        0x95 => Some((Op::Sta, AddrMode::ZeroPageX)),
        0x96 => Some((Op::Stx, AddrMode::ZeroPageY)),
        0x97 => Some((Op::Aax, AddrMode::ZeroPageY)),
        0x98 => Some((Op::Tya, AddrMode::Implicit)),
        0x99 => Some((Op::Sta, AddrMode::AbsoluteY)),
        0x9a => Some((Op::Txs, AddrMode::Implicit)),
        0x9d => Some((Op::Sta, AddrMode::AbsoluteX)),
        0xa0 => Some((Op::Ldy, AddrMode::Immediate)),
        0xa1 => Some((Op::Lda, AddrMode::IndirectX)),
        0xa2 => Some((Op::Ldx, AddrMode::Immediate)),
        0xa3 => Some((Op::Lax, AddrMode::IndirectX)),
        0xa4 => Some((Op::Ldy, AddrMode::ZeroPage)),
        0xa5 => Some((Op::Lda, AddrMode::ZeroPage)),
        0xa6 => Some((Op::Ldx, AddrMode::ZeroPage)),
        0xa7 => Some((Op::Lax, AddrMode::ZeroPage)),
        0xa8 => Some((Op::Tay, AddrMode::Implicit)),
        0xa9 => Some((Op::Lda, AddrMode::Immediate)),
        0xaa => Some((Op::Tax, AddrMode::Implicit)),
        0xac => Some((Op::Ldy, AddrMode::Absolute)),
        0xad => Some((Op::Lda, AddrMode::Absolute)),
        0xae => Some((Op::Ldx, AddrMode::Absolute)),
        0xaf => Some((Op::Lax, AddrMode::Absolute)),
        0xb0 => Some((Op::Bcs, AddrMode::Relative)),
        0xb1 => Some((Op::Lda, AddrMode::IndirectY)),
        0xb3 => Some((Op::Lax, AddrMode::IndirectY)),
        0xb4 => Some((Op::Ldy, AddrMode::ZeroPageX)),
        0xb5 => Some((Op::Lda, AddrMode::ZeroPageX)),
        0xb6 => Some((Op::Ldx, AddrMode::ZeroPageY)),
        0xb7 => Some((Op::Lax, AddrMode::ZeroPageY)),
        0xb8 => Some((Op::Clv, AddrMode::Implicit)),
        0xb9 => Some((Op::Lda, AddrMode::AbsoluteY)),
        0xba => Some((Op::Tsx, AddrMode::Implicit)),
        0xbc => Some((Op::Ldy, AddrMode::AbsoluteX)),
        0xbd => Some((Op::Lda, AddrMode::AbsoluteX)),
        0xbe => Some((Op::Ldx, AddrMode::AbsoluteY)),
        0xbf => Some((Op::Lax, AddrMode::AbsoluteY)),
        0xc0 => Some((Op::Cpy, AddrMode::Immediate)),
        0xc1 => Some((Op::Cmp, AddrMode::IndirectX)),
        0xc2 => Some((Op::Dop, AddrMode::Immediate)),
        0xc3 => Some((Op::Dcp, AddrMode::IndirectX)),
        0xc4 => Some((Op::Cpy, AddrMode::ZeroPage)),
        0xc5 => Some((Op::Cmp, AddrMode::ZeroPage)),
        0xc6 => Some((Op::Dec, AddrMode::ZeroPage)),
        0xc7 => Some((Op::Dcp, AddrMode::ZeroPage)),
        0xc8 => Some((Op::Iny, AddrMode::Implicit)),
        0xc9 => Some((Op::Cmp, AddrMode::Immediate)),
        0xca => Some((Op::Dex, AddrMode::Implicit)),
        0xcc => Some((Op::Cpy, AddrMode::Absolute)),
        0xcd => Some((Op::Cmp, AddrMode::Absolute)),
        0xce => Some((Op::Dec, AddrMode::Absolute)),
        0xcf => Some((Op::Dcp, AddrMode::Absolute)),
        0xd0 => Some((Op::Bne, AddrMode::Relative)),
        0xd1 => Some((Op::Cmp, AddrMode::IndirectY)),
        0xd3 => Some((Op::Dcp, AddrMode::IndirectY)),
        0xd4 => Some((Op::Dop, AddrMode::ZeroPageX)),
        0xd5 => Some((Op::Cmp, AddrMode::ZeroPageX)),
        0xd6 => Some((Op::Dec, AddrMode::ZeroPageX)),
        0xd7 => Some((Op::Dcp, AddrMode::ZeroPageX)),
        0xd8 => Some((Op::Cld, AddrMode::Implicit)),
        0xd9 => Some((Op::Cmp, AddrMode::AbsoluteY)),
        0xda => Some((Op::Nop, AddrMode::Implicit)),
        0xdb => Some((Op::Dcp, AddrMode::AbsoluteY)),
        0xdc => Some((Op::Top, AddrMode::AbsoluteX)),
        0xdd => Some((Op::Cmp, AddrMode::AbsoluteX)),
        0xde => Some((Op::Dec, AddrMode::AbsoluteX)),
        0xdf => Some((Op::Dcp, AddrMode::AbsoluteX)),
        0xe0 => Some((Op::Cpx, AddrMode::Immediate)),
        0xe1 => Some((Op::Sbc, AddrMode::IndirectX)),
        0xe2 => Some((Op::Dop, AddrMode::Immediate)),
        0xe3 => Some((Op::Isc, AddrMode::IndirectX)),
        0xe4 => Some((Op::Cpx, AddrMode::ZeroPage)),
        0xe5 => Some((Op::Sbc, AddrMode::ZeroPage)),
        0xe6 => Some((Op::Inc, AddrMode::ZeroPage)),
        0xe7 => Some((Op::Isc, AddrMode::ZeroPage)),
        0xe8 => Some((Op::Inx, AddrMode::Implicit)),
        0xe9 => Some((Op::Sbc, AddrMode::Immediate)),
        0xea => Some((Op::Nop, AddrMode::Implicit)),
        0xec => Some((Op::Cpx, AddrMode::Absolute)),
        0xed => Some((Op::Sbc, AddrMode::Absolute)),
        0xee => Some((Op::Inc, AddrMode::Absolute)),
        0xef => Some((Op::Isc, AddrMode::Absolute)),
        0xf0 => Some((Op::Beq, AddrMode::Relative)),
        0xf1 => Some((Op::Sbc, AddrMode::IndirectY)),
        0xf3 => Some((Op::Isc, AddrMode::IndirectY)),
        0xf4 => Some((Op::Dop, AddrMode::ZeroPageX)),
        0xf5 => Some((Op::Sbc, AddrMode::ZeroPageX)),
        0xf6 => Some((Op::Inc, AddrMode::ZeroPageX)),
        0xf7 => Some((Op::Isc, AddrMode::ZeroPageX)),
        0xf8 => Some((Op::Sed, AddrMode::Implicit)),
        0xf9 => Some((Op::Sbc, AddrMode::AbsoluteY)),
        0xfa => Some((Op::Nop, AddrMode::Implicit)),
        0xfb => Some((Op::Isc, AddrMode::AbsoluteY)),
        0xfc => Some((Op::Top, AddrMode::AbsoluteX)),
        0xfd => Some((Op::Sbc, AddrMode::AbsoluteX)),
        0xfe => Some((Op::Inc, AddrMode::AbsoluteX)),
        0xff => Some((Op::Isc, AddrMode::AbsoluteX)),
        _ => None,
    }
}

/// Looks an opcode up in the dispatch table.
pub fn resolve(opcode: u8) -> (r: Option<(Op, AddrMode)>)
    ensures
        r == spec_resolve(opcode),
{
    match opcode {
        0x00 => Some((Op::Brk, AddrMode::Implicit)),
        0x01 => Some((Op::Ora, AddrMode::IndirectX)),
        0x03 => Some((Op::Slo, AddrMode::IndirectX)),
        0x04 => Some((Op::Dop, AddrMode::ZeroPage)),
        0x05 => Some((Op::Ora, AddrMode::ZeroPage)),
        0x06 => Some((Op::Asl, AddrMode::ZeroPage)),
        0x07 => Some((Op::Slo, AddrMode::ZeroPage)),
        0x08 => Some((Op::Php, AddrMode::Implicit)),
        0x09 => Some((Op::Ora, AddrMode::Immediate)),
        0x0a => Some((Op::Asl, AddrMode::Accumulator)),
        0x0c => Some((Op::Top, AddrMode::Absolute)),
        0x0d => Some((Op::Ora, AddrMode::Absolute)),
        0x0e => Some((Op::Asl, AddrMode::Absolute)),
        0x0f => Some((Op::Slo, AddrMode::Absolute)),
        0x10 => Some((Op::Bpl, AddrMode::Relative)),
        0x11 => Some((Op::Ora, AddrMode::IndirectY)),
        0x13 => Some((Op::Slo, AddrMode::IndirectY)),
        0x14 => Some((Op::Dop, AddrMode::ZeroPageX)),
        0x15 => Some((Op::Ora, AddrMode::ZeroPageX)),
        0x16 => Some((Op::Asl, AddrMode::ZeroPageX)),
        0x17 => Some((Op::Slo, AddrMode::ZeroPageX)),
        0x18 => Some((Op::Clc, AddrMode::Implicit)),
        0x19 => Some((Op::Ora, AddrMode::AbsoluteY)),
        0x1a => Some((Op::Nop, AddrMode::Implicit)),
        0x1b => Some((Op::Slo, AddrMode::AbsoluteY)),
        0x1c => Some((Op::Top, AddrMode::AbsoluteX)),
        0x1d => Some((Op::Ora, AddrMode::AbsoluteX)),
        0x1e => Some((Op::Asl, AddrMode::AbsoluteX)),
        0x1f => Some((Op::Slo, AddrMode::AbsoluteX)),
        0x20 => Some((Op::Jsr, AddrMode::Absolute)),
        0x21 => Some((Op::And, AddrMode::IndirectX)),
        0x23 => Some((Op::Rla, AddrMode::IndirectX)),
        0x24 => Some((Op::Bit, AddrMode::ZeroPage)),
        0x25 => Some((Op::And, AddrMode::ZeroPage)),
        0x26 => Some((Op::Rol, AddrMode::ZeroPage)),
        0x27 => Some((Op::Rla, AddrMode::ZeroPage)),
        0x28 => Some((Op::Plp, AddrMode::Implicit)),
        0x29 => Some((Op::And, AddrMode::Immediate)),
        0x2a => Some((Op::Rol, AddrMode::Accumulator)),
        0x2c => Some((Op::Bit, AddrMode::Absolute)),
        0x2d => Some((Op::And, AddrMode::Absolute)),
        0x2e => Some((Op::Rol, AddrMode::Absolute)),
        0x2f => Some((Op::Rla, AddrMode::Absolute)),
        0x30 => Some((Op::Bmi, AddrMode::Relative)),
        0x31 => Some((Op::And, AddrMode::IndirectY)),
        0x33 => Some((Op::Rla, AddrMode::IndirectY)),
        0x34 => Some((Op::Dop, AddrMode::ZeroPageX)),
        0x35 => Some((Op::And, AddrMode::ZeroPageX)),
        0x36 => Some((Op::Rol, AddrMode::ZeroPageX)),
        0x37 => Some((Op::Rla, AddrMode::ZeroPageX)),
        0x38 => Some((Op::Sec, AddrMode::Implicit)),
        0x39 => Some((Op::And, AddrMode::AbsoluteY)),
        0x3a => Some((Op::Nop, AddrMode::Implicit)),
        0x3b => Some((Op::Rla, AddrMode::AbsoluteY)),
        0x3c => Some((Op::Top, AddrMode::AbsoluteX)),
        0x3d => Some((Op::And, AddrMode::AbsoluteX)),
        0x3e => Some((Op::Rol, AddrMode::AbsoluteX)),
        0x3f => Some((Op::Rla, AddrMode::AbsoluteX)),
        0x40 => Some((Op::Rti, AddrMode::Implicit)),
        0x41 => Some((Op::Eor, AddrMode::IndirectX)),
        0x44 => Some((Op::Dop, AddrMode::ZeroPage)),
        0x45 => Some((Op::Eor, AddrMode::ZeroPage)),
        0x46 => Some((Op::Lsr, AddrMode::ZeroPage)),
        0x48 => Some((Op::Pha, AddrMode::Implicit)),
        0x49 => Some((Op::Eor, AddrMode::Immediate)),
        0x4a => Some((Op::Lsr, AddrMode::Accumulator)),
        0x4c => Some((Op::Jmp, AddrMode::Absolute)),
        0x4d => Some((Op::Eor, AddrMode::Absolute)),
        0x4e => Some((Op::Lsr, AddrMode::Absolute)),
        0x50 => Some((Op::Bvc, AddrMode::Relative)),
        0x51 => Some((Op::Eor, AddrMode::IndirectY)),
        0x54 => Some((Op::Dop, AddrMode::ZeroPageX)),
        0x55 => Some((Op::Eor, AddrMode::ZeroPageX)),
        0x56 => Some((Op::Lsr, AddrMode::ZeroPageX)),
        0x58 => Some((Op::Cli, AddrMode::Implicit)),
        0x59 => Some((Op::Eor, AddrMode::AbsoluteY)),
        0x5a => Some((Op::Nop, AddrMode::Implicit)),
        0x5c => Some((Op::Top, AddrMode::AbsoluteX)),
        0x5d => Some((Op::Eor, AddrMode::AbsoluteX)),
        0x5e => Some((Op::Lsr, AddrMode::AbsoluteX)),
        0x60 => Some((Op::Rts, AddrMode::Implicit)),
        0x61 => Some((Op::Adc, AddrMode::IndirectX)),
        0x63 => Some((Op::Rra, AddrMode::IndirectX)),
        0x64 => Some((Op::Dop, AddrMode::ZeroPage)),
        0x65 => Some((Op::Adc, AddrMode::ZeroPage)),
        0x66 => Some((Op::Ror, AddrMode::ZeroPage)),
        0x67 => Some((Op::Rra, AddrMode::ZeroPage)),
        0x68 => Some((Op::Pla, AddrMode::Implicit)),
        0x69 => Some((Op::Adc, AddrMode::Immediate)),
        0x6a => Some((Op::Ror, AddrMode::Accumulator)),
        0x6c => Some((Op::Jmp, AddrMode::Indirect)),
        0x6d => Some((Op::Adc, AddrMode::Absolute)),
        0x6e => Some((Op::Ror, AddrMode::Absolute)),
        0x6f => Some((Op::Rra, AddrMode::Absolute)),
        0x70 => Some((Op::Bvs, AddrMode::Relative)),
        0x71 => Some((Op::Adc, AddrMode::IndirectY)),
        0x73 => Some((Op::Rra, AddrMode::IndirectY)),
        0x74 => Some((Op::Dop, AddrMode::ZeroPageX)),
        0x75 => Some((Op::Adc, AddrMode::ZeroPageX)),
        0x76 => Some((Op::Ror, AddrMode::ZeroPageX)),
        0x77 => Some((Op::Rra, AddrMode::ZeroPageX)),
        0x78 => Some((Op::Sei, AddrMode::Implicit)),
        0x79 => Some((Op::Adc, AddrMode::AbsoluteY)),
        0x7a => Some((Op::Nop, AddrMode::Implicit)),
        0x7b => Some((Op::Rra, AddrMode::AbsoluteY)),
        0x7c => Some((Op::Top, AddrMode::AbsoluteX)),
        0x7d => Some((Op::Adc, AddrMode::AbsoluteX)),
        0x7e => Some((Op::Ror, AddrMode::AbsoluteX)),
        0x7f => Some((Op::Rra, AddrMode::AbsoluteX)),
        0x80 => Some((Op::Dop, AddrMode::Immediate)),
        0x81 => Some((Op::Sta, AddrMode::IndirectX)),
        0x82 => Some((Op::Dop, AddrMode::Immediate)),
        0x83 => Some((Op::Aax, AddrMode::IndirectX)),
        0x84 => Some((Op::Sty, AddrMode::ZeroPage)),
        0x85 => Some((Op::Sta, AddrMode::ZeroPage)),
        0x86 => Some((Op::Stx, AddrMode::ZeroPage)),
        0x87 => Some((Op::Aax, AddrMode::ZeroPage)),
        0x88 => Some((Op::Dey, AddrMode::Implicit)),
        0x89 => Some((Op::Dop, AddrMode::Immediate)),
        0x8a => Some((Op::Txa, AddrMode::Implicit)),
        0x8c => Some((Op::Sty, AddrMode::Absolute)),
        0x8d => Some((Op::Sta, AddrMode::Absolute)),
        0x8e => Some((Op::Stx, AddrMode::Absolute)),
        0x8f => Some((Op::Aax, AddrMode::Absolute)),
        0x90 => Some((Op::Bcc, AddrMode::Relative)),
        0x91 => Some((Op::Sta, AddrMode::IndirectY)),
        0x94 => Some((Op::Sty, AddrMode::ZeroPageX)),
        0x95 => Some((Op::Sta, AddrMode::ZeroPageX)),
        0x96 => Some((Op::Stx, AddrMode::ZeroPageY)),
        0x97 => Some((Op::Aax, AddrMode::ZeroPageY)),
        0x98 => Some((Op::Tya, AddrMode::Implicit)),
        0x99 => Some((Op::Sta, AddrMode::AbsoluteY)),
        0x9a => Some((Op::Txs, AddrMode::Implicit)),
        0x9d => Some((Op::Sta, AddrMode::AbsoluteX)),
        0xa0 => Some((Op::Ldy, AddrMode::Immediate)),
        0xa1 => Some((Op::Lda, AddrMode::IndirectX)),
        0xa2 => Some((Op::Ldx, AddrMode::Immediate)),
        0xa3 => Some((Op::Lax, AddrMode::IndirectX)),
        0xa4 => Some((Op::Ldy, AddrMode::ZeroPage)),
        0xa5 => Some((Op::Lda, AddrMode::ZeroPage)),
        0xa6 => Some((Op::Ldx, AddrMode::ZeroPage)),
        0xa7 => Some((Op::Lax, AddrMode::ZeroPage)),
        0xa8 => Some((Op::Tay, AddrMode::Implicit)),
        0xa9 => Some((Op::Lda, AddrMode::Immediate)),
        0xaa => Some((Op::Tax, AddrMode::Implicit)),
        0xac => Some((Op::Ldy, AddrMode::Absolute)),
        0xad => Some((Op::Lda, AddrMode::Absolute)),
        0xae => Some((Op::Ldx, AddrMode::Absolute)),
        0xaf => Some((Op::Lax, AddrMode::Absolute)),
        0xb0 => Some((Op::Bcs, AddrMode::Relative)),
        0xb1 => Some((Op::Lda, AddrMode::IndirectY)),
        0xb3 => Some((Op::Lax, AddrMode::IndirectY)),
        0xb4 => Some((Op::Ldy, AddrMode::ZeroPageX)),
        0xb5 => Some((Op::Lda, AddrMode::ZeroPageX)),
        0xb6 => Some((Op::Ldx, AddrMode::ZeroPageY)),
        0xb7 => Some((Op::Lax, AddrMode::ZeroPageY)),
        0xb8 => Some((Op::Clv, AddrMode::Implicit)),
        0xb9 => Some((Op::Lda, AddrMode::AbsoluteY)),
        0xba => Some((Op::Tsx, AddrMode::Implicit)),
        0xbc => Some((Op::Ldy, AddrMode::AbsoluteX)),
        0xbd => Some((Op::Lda, AddrMode::AbsoluteX)),
        0xbe => Some((Op::Ldx, AddrMode::AbsoluteY)),
        0xbf => Some((Op::Lax, AddrMode::AbsoluteY)),
        0xc0 => Some((Op::Cpy, AddrMode::Immediate)),
        0xc1 => Some((Op::Cmp, AddrMode::IndirectX)),
        0xc2 => Some((Op::Dop, AddrMode::Immediate)),
        0xc3 => Some((Op::Dcp, AddrMode::IndirectX)),
        0xc4 => Some((Op::Cpy, AddrMode::ZeroPage)),
        0xc5 => Some((Op::Cmp, AddrMode::ZeroPage)),
        0xc6 => Some((Op::Dec, AddrMode::ZeroPage)),
        0xc7 => Some((Op::Dcp, AddrMode::ZeroPage)),
        0xc8 => Some((Op::Iny, AddrMode::Implicit)),
        0xc9 => Some((Op::Cmp, AddrMode::Immediate)),
        0xca => Some((Op::Dex, AddrMode::Implicit)),
        0xcc => Some((Op::Cpy, AddrMode::Absolute)),
        0xcd => Some((Op::Cmp, AddrMode::Absolute)),
        0xce => Some((Op::Dec, AddrMode::Absolute)),
        0xcf => Some((Op::Dcp, AddrMode::Absolute)),
        0xd0 => Some((Op::Bne, AddrMode::Relative)),
        0xd1 => Some((Op::Cmp, AddrMode::IndirectY)),
        0xd3 => Some((Op::Dcp, AddrMode::IndirectY)),
        0xd4 => Some((Op::Dop, AddrMode::ZeroPageX)),
        0xd5 => Some((Op::Cmp, AddrMode::ZeroPageX)),
        0xd6 => Some((Op::Dec, AddrMode::ZeroPageX)),
        0xd7 => Some((Op::Dcp, AddrMode::ZeroPageX)),
        0xd8 => Some((Op::Cld, AddrMode::Implicit)),
        0xd9 => Some((Op::Cmp, AddrMode::AbsoluteY)),
        0xda => Some((Op::Nop, AddrMode::Implicit)),
        0xdb => Some((Op::Dcp, AddrMode::AbsoluteY)),
        0xdc => Some((Op::Top, AddrMode::AbsoluteX)),
        0xdd => Some((Op::Cmp, AddrMode::AbsoluteX)),
        0xde => Some((Op::Dec, AddrMode::AbsoluteX)),
        0xdf => Some((Op::Dcp, AddrMode::AbsoluteX)),
        0xe0 => Some((Op::Cpx, AddrMode::Immediate)),
        0xe1 => Some((Op::Sbc, AddrMode::IndirectX)),
        0xe2 => Some((Op::Dop, AddrMode::Immediate)),
        0xe3 => Some((Op::Isc, AddrMode::IndirectX)),
        0xe4 => Some((Op::Cpx, AddrMode::ZeroPage)),
        0xe5 => Some((Op::Sbc, AddrMode::ZeroPage)),
        0xe6 => Some((Op::Inc, AddrMode::ZeroPage)),
        0xe7 => Some((Op::Isc, AddrMode::ZeroPage)),
        0xe8 => Some((Op::Inx, AddrMode::Implicit)),
        0xe9 => Some((Op::Sbc, AddrMode::Immediate)),
        0xea => Some((Op::Nop, AddrMode::Implicit)),
        0xec => Some((Op::Cpx, AddrMode::Absolute)),
        0xed => Some((Op::Sbc, AddrMode::Absolute)),
        0xee => Some((Op::Inc, AddrMode::Absolute)),
        0xef => Some((Op::Isc, AddrMode::Absolute)),
        0xf0 => Some((Op::Beq, AddrMode::Relative)),
        0xf1 => Some((Op::Sbc, AddrMode::IndirectY)),
        0xf3 => Some((Op::Isc, AddrMode::IndirectY)),
        0xf4 => Some((Op::Dop, AddrMode::ZeroPageX)),
        0xf5 => Some((Op::Sbc, AddrMode::ZeroPageX)),
        0xf6 => Some((Op::Inc, AddrMode::ZeroPageX)),
        0xf7 => Some((Op::Isc, AddrMode::ZeroPageX)),
        0xf8 => Some((Op::Sed, AddrMode::Implicit)),
        0xf9 => Some((Op::Sbc, AddrMode::AbsoluteY)),
        0xfa => Some((Op::Nop, AddrMode::Implicit)),
        0xfb => Some((Op::Isc, AddrMode::AbsoluteY)),
        0xfc => Some((Op::Top, AddrMode::AbsoluteX)),
        0xfd => Some((Op::Sbc, AddrMode::AbsoluteX)),
        0xfe => Some((Op::Inc, AddrMode::AbsoluteX)),
        0xff => Some((Op::Isc, AddrMode::AbsoluteX)),
        _ => None,
    }
}

/// The base cycle cost shared by the operand-reading instructions.
pub open spec fn operand_cycles(mode: AddrMode) -> u8 {
    match mode {
        AddrMode::Immediate => 2,
        AddrMode::ZeroPage => 3,
        AddrMode::ZeroPageX | AddrMode::ZeroPageY => 4,
        AddrMode::Absolute | AddrMode::AbsoluteX | AddrMode::AbsoluteY => 4,
        AddrMode::IndirectX => 6,
        AddrMode::IndirectY => 5,
        _ => 0,
    }
}

/// The cycle cost of the shift and rotate instructions.
pub open spec fn shift_cycles(mode: AddrMode) -> u8 {
    match mode {
        AddrMode::Accumulator => 2,
        AddrMode::ZeroPage => 5,
        AddrMode::ZeroPageX => 6,
        AddrMode::Absolute => 6,
        AddrMode::AbsoluteX => 7,
        _ => 0,
    }
}

/// The cycle cost of the undocumented read-modify-write instructions.
pub open spec fn rmw_cycles(mode: AddrMode) -> u8 {
    match mode {
        AddrMode::ZeroPage => 5,
        AddrMode::ZeroPageX => 6,
        AddrMode::Absolute => 6,
        AddrMode::AbsoluteX | AddrMode::AbsoluteY => 7,
        AddrMode::IndirectX | AddrMode::IndirectY => 8,
        _ => 0,
    }
}

/// The cycle cost of INC and DEC on memory.
pub open spec fn incdec_cycles(mode: AddrMode) -> u8 {
    match mode {
        AddrMode::ZeroPage => 5,
        AddrMode::ZeroPageX => 6,
        AddrMode::Absolute => 6,
        AddrMode::AbsoluteX => 6,
        _ => 0,
    }
}

/// The cycle cost of the store instructions.
pub open spec fn sta_cycles(mode: AddrMode) -> u8 {
    match mode {
        AddrMode::ZeroPage => 3,
        AddrMode::ZeroPageX | AddrMode::ZeroPageY => 4,
        AddrMode::Absolute => 4,
        AddrMode::AbsoluteX | AddrMode::AbsoluteY => 5,
        AddrMode::IndirectX | AddrMode::IndirectY => 6,
        _ => 0,
    }
}

/// Which addressing-mode resolution relation a mode tag stands for.
pub open spec fn mode_resolved(pre: Cpu, post: Cpu, ar: AddrResult, mode: AddrMode) -> bool {
    match mode {
        AddrMode::Immediate => addr::imm_resolved(pre, post, ar),
        AddrMode::ZeroPage => addr::zero_page_resolved(pre, post, ar),
        AddrMode::ZeroPageX => addr::zero_page_indexed_resolved(
            pre,
            post,
            ar,
            pre.reg_x,
            AddrMode::ZeroPageX,
        ),
        AddrMode::ZeroPageY => addr::zero_page_indexed_resolved(
            pre,
            post,
            ar,
            pre.reg_y,
            AddrMode::ZeroPageY,
        ),
        AddrMode::Absolute => addr::abs_resolved(pre, post, ar),
        AddrMode::AbsoluteX => addr::abs_indexed_resolved(
            pre,
            post,
            ar,
            pre.reg_x,
            AddrMode::AbsoluteX,
        ),
        AddrMode::AbsoluteY => addr::abs_indexed_resolved(
            pre,
            post,
            ar,
            pre.reg_y,
            AddrMode::AbsoluteY,
        ),
        AddrMode::Indirect => addr::ind_resolved(pre, post, ar),
        AddrMode::IndirectX => addr::ind_x_resolved(pre, post, ar),
        AddrMode::IndirectY => addr::ind_y_resolved(pre, post, ar),
        AddrMode::Accumulator => addr::acc_resolved(pre, post, ar),
        AddrMode::Relative => addr::rel_resolved(pre, post, ar),
        _ => false,
    }
}

/// Decoding left the CPU exactly as it was.
pub open spec fn unchanged(pre: Cpu, post: Cpu) -> bool {
    &&& crate::cpu::same_but_pc(pre, post)
    &&& post.reg_pc == pre.reg_pc
}

/// What decoding each table entry does: how the program counter moves, what
/// deferred effect comes out, and what the instruction costs.  For an
/// instruction-and-mode pair the table never produces, nothing is claimed.
pub open spec fn decoded(pre: Cpu, post: Cpu, ir: InstrResult, op: Op, mode: AddrMode) -> bool {
    match op {
        Op::Aax => match mode {
            AddrMode::IndirectX | AddrMode::ZeroPage | AddrMode::Absolute | AddrMode::ZeroPageY => (ir.effect matches Effect::Aax { ar } && mode_resolved(pre, post, ar, mode)
                && ir.cycles == spec_penalized_cycles(ar, operand_cycles(mode))),
            _ => true,
        },
        Op::Adc => match mode {
            AddrMode::IndirectX | AddrMode::ZeroPage | AddrMode::Immediate | AddrMode::Absolute | AddrMode::IndirectY | AddrMode::ZeroPageX | AddrMode::AbsoluteY | AddrMode::AbsoluteX => (ir.effect matches Effect::Adc { ar } && mode_resolved(pre, post, ar, mode)
                && ir.cycles == spec_penalized_cycles(ar, operand_cycles(mode))),
            _ => true,
        },
        Op::And => match mode {
            AddrMode::IndirectX | AddrMode::ZeroPage | AddrMode::Immediate | AddrMode::Absolute | AddrMode::IndirectY | AddrMode::ZeroPageX | AddrMode::AbsoluteY | AddrMode::AbsoluteX => (ir.effect matches Effect::And { ar } && mode_resolved(pre, post, ar, mode)
                && ir.cycles == spec_penalized_cycles(ar, operand_cycles(mode))),
            _ => true,
        },
        Op::Asl => match mode {
            AddrMode::ZeroPage | AddrMode::Accumulator | AddrMode::Absolute | AddrMode::ZeroPageX | AddrMode::AbsoluteX => (ir.effect matches Effect::Asl { ar } && mode_resolved(pre, post, ar, mode)
                && ir.cycles == shift_cycles(mode)),
            _ => true,
        },
        Op::Bcc => branch::branch_decoded(pre, post, ir, !pre.reg_status.carry),
        Op::Bcs => branch::branch_decoded(pre, post, ir, pre.reg_status.carry),
        Op::Beq => branch::branch_decoded(pre, post, ir, pre.reg_status.zero),
        Op::Bit => match mode {
            AddrMode::ZeroPage | AddrMode::Absolute => (ir.effect matches Effect::Bit { ar } && mode_resolved(pre, post, ar, mode)
                && ir.cycles == operand_cycles(mode)),
            _ => true,
        },
        Op::Bmi => branch::branch_decoded(pre, post, ir, pre.reg_status.negative),
        Op::Bne => branch::branch_decoded(pre, post, ir, !pre.reg_status.zero),
        Op::Bpl => branch::branch_decoded(pre, post, ir, !pre.reg_status.negative),
        Op::Brk => unchanged(pre, post) && ir.cycles == 7 && ir.effect == Effect::Brk,
        Op::Bvc => branch::branch_decoded(pre, post, ir, !pre.reg_status.overflow),
        Op::Bvs => branch::branch_decoded(pre, post, ir, pre.reg_status.overflow),
        Op::Clc => unchanged(pre, post) && ir.cycles == 2 && ir.effect == (Effect::SetFlag { flag: Flag::Carry, on: false }),
        Op::Cld => unchanged(pre, post) && ir.cycles == 2 && ir.effect == (Effect::SetFlag { flag: Flag::DecimalMode, on: false }),
        Op::Cli => unchanged(pre, post) && ir.cycles == 2 && ir.effect == (Effect::SetFlag { flag: Flag::IrqDisable, on: false }),
        Op::Clv => unchanged(pre, post) && ir.cycles == 2 && ir.effect == (Effect::SetFlag { flag: Flag::Overflow, on: false }),
        Op::Cmp => match mode {
            AddrMode::IndirectX | AddrMode::ZeroPage | AddrMode::Immediate | AddrMode::Absolute | AddrMode::IndirectY | AddrMode::ZeroPageX | AddrMode::AbsoluteY | AddrMode::AbsoluteX => (ir.effect matches Effect::Compare { reg_val, ar } && reg_val == pre.reg_acc
                && mode_resolved(pre, post, ar, mode)
                && ir.cycles == spec_penalized_cycles(ar, operand_cycles(mode))),
            _ => true,
        },
        Op::Cpx => match mode {
            AddrMode::Immediate | AddrMode::ZeroPage | AddrMode::Absolute => (ir.effect matches Effect::Compare { reg_val, ar } && reg_val == pre.reg_x
                && mode_resolved(pre, post, ar, mode)
                && ir.cycles == spec_penalized_cycles(ar, operand_cycles(mode))),
            _ => true,
        },
        Op::Cpy => match mode {
            AddrMode::Immediate | AddrMode::ZeroPage | AddrMode::Absolute => (ir.effect matches Effect::Compare { reg_val, ar } && reg_val == pre.reg_y
                && mode_resolved(pre, post, ar, mode)
                && ir.cycles == spec_penalized_cycles(ar, operand_cycles(mode))),
            _ => true,
        },
        Op::Dcp => match mode {
            AddrMode::IndirectX | AddrMode::ZeroPage | AddrMode::Absolute | AddrMode::IndirectY | AddrMode::ZeroPageX | AddrMode::AbsoluteY | AddrMode::AbsoluteX => (ir.effect matches Effect::Dcp { ar } && mode_resolved(pre, post, ar, mode)
                && ir.cycles == rmw_cycles(mode)),
            _ => true,
        },
        Op::Dec => match mode {
            AddrMode::ZeroPage | AddrMode::Absolute | AddrMode::ZeroPageX | AddrMode::AbsoluteX => (ir.effect matches Effect::Decrement { target: IncrementType::Memory(ar) }
                && mode_resolved(pre, post, ar, mode) && ir.cycles == incdec_cycles(mode)),
            _ => true,
        },
        Op::Dex => unchanged(pre, post) && ir.cycles == 2 && ir.effect == (Effect::Decrement { target: IncrementType::Register(Register::X) }),
        Op::Dey => unchanged(pre, post) && ir.cycles == 2 && ir.effect == (Effect::Decrement { target: IncrementType::Register(Register::Y) }),
        Op::Dop => match mode {
            AddrMode::ZeroPage | AddrMode::ZeroPageX | AddrMode::Immediate => crate::cpu::same_but_pc(pre, post)
                && post.reg_pc == wrap_add16(pre.reg_pc, 1) && ir.effect == Effect::Nop
                && ir.cycles == operand_cycles(mode),
            _ => true,
        },
        Op::Eor => match mode {
            AddrMode::IndirectX | AddrMode::ZeroPage | AddrMode::Immediate | AddrMode::Absolute | AddrMode::IndirectY | AddrMode::ZeroPageX | AddrMode::AbsoluteY | AddrMode::AbsoluteX => (ir.effect matches Effect::Eor { ar } && mode_resolved(pre, post, ar, mode)
                && ir.cycles == spec_penalized_cycles(ar, operand_cycles(mode))),
            _ => true,
        },
        Op::Inc => match mode {
            AddrMode::ZeroPage | AddrMode::Absolute | AddrMode::ZeroPageX | AddrMode::AbsoluteX => (ir.effect matches Effect::Increment { target: IncrementType::Memory(ar) }
                && mode_resolved(pre, post, ar, mode) && ir.cycles == incdec_cycles(mode)),
            _ => true,
        },
        Op::Inx => unchanged(pre, post) && ir.cycles == 2 && ir.effect == (Effect::Increment { target: IncrementType::Register(Register::X) }),
        Op::Iny => unchanged(pre, post) && ir.cycles == 2 && ir.effect == (Effect::Increment { target: IncrementType::Register(Register::Y) }),
        Op::Isc => match mode {
            AddrMode::IndirectX | AddrMode::ZeroPage | AddrMode::Absolute | AddrMode::IndirectY | AddrMode::ZeroPageX | AddrMode::AbsoluteY | AddrMode::AbsoluteX => (ir.effect matches Effect::Isc { ar } && mode_resolved(pre, post, ar, mode)
                && ir.cycles == rmw_cycles(mode)),
            _ => true,
        },
        Op::Jmp => match mode {
            AddrMode::Absolute => crate::cpu::same_but_pc(pre, post) && post.reg_pc == wrap_add16(pre.reg_pc, 2)
                && ir.cycles == 3
                && ir.effect == (Effect::Jmp { addr: word_at(pre.memory.mem@, pre.reg_pc) }),
            AddrMode::Indirect => crate::cpu::same_but_pc(pre, post) && post.reg_pc == wrap_add16(pre.reg_pc, 2)
                && ir.cycles == 5
                && ir.effect == (Effect::Jmp {
                    addr: crate::addr::ind_target(pre.memory.mem@, word_at(pre.memory.mem@, pre.reg_pc)),
                }),
            _ => true,
        },
        Op::Jsr => crate::cpu::same_but_pc(pre, post) && post.reg_pc == wrap_add16(pre.reg_pc, 2)
            && ir.cycles == 6
            && ir.effect == (Effect::Jsr { addr: word_at(pre.memory.mem@, pre.reg_pc) }),
        Op::Lax => match mode {
            AddrMode::IndirectX | AddrMode::ZeroPage | AddrMode::Absolute | AddrMode::IndirectY | AddrMode::ZeroPageY | AddrMode::AbsoluteY => (ir.effect matches Effect::Lax { ar } && mode_resolved(pre, post, ar, mode)
                && ir.cycles == spec_penalized_cycles(ar, operand_cycles(mode))),
            _ => true,
        },
        Op::Lda => match mode {
            AddrMode::IndirectX | AddrMode::ZeroPage | AddrMode::Immediate | AddrMode::Absolute | AddrMode::IndirectY | AddrMode::ZeroPageX | AddrMode::AbsoluteY | AddrMode::AbsoluteX => (ir.effect matches Effect::Load { reg: Register::A, ar } && mode_resolved(pre, post, ar, mode)
                && ir.cycles == spec_penalized_cycles(ar, operand_cycles(mode))),
            _ => true,
        },
        Op::Ldx => match mode {
            AddrMode::Immediate | AddrMode::ZeroPage | AddrMode::Absolute | AddrMode::ZeroPageY | AddrMode::AbsoluteY => (ir.effect matches Effect::Load { reg: Register::X, ar } && mode_resolved(pre, post, ar, mode)
                && ir.cycles == spec_penalized_cycles(ar, operand_cycles(mode))),
            _ => true,
        },
        Op::Ldy => match mode {
            AddrMode::Immediate | AddrMode::ZeroPage | AddrMode::Absolute | AddrMode::ZeroPageX | AddrMode::AbsoluteX => (ir.effect matches Effect::Load { reg: Register::Y, ar } && mode_resolved(pre, post, ar, mode)
                && ir.cycles == spec_penalized_cycles(ar, operand_cycles(mode))),
            _ => true,
        },
        Op::Lsr => match mode {
            AddrMode::ZeroPage | AddrMode::Accumulator | AddrMode::Absolute | AddrMode::ZeroPageX | AddrMode::AbsoluteX => (ir.effect matches Effect::Lsr { ar } && mode_resolved(pre, post, ar, mode)
                && ir.cycles == shift_cycles(mode)),
            _ => true,
        },
        Op::Nop => unchanged(pre, post) && ir.cycles == 2 && ir.effect == Effect::Nop,
        Op::Ora => match mode {
            AddrMode::IndirectX | AddrMode::ZeroPage | AddrMode::Immediate | AddrMode::Absolute | AddrMode::IndirectY | AddrMode::ZeroPageX | AddrMode::AbsoluteY | AddrMode::AbsoluteX => (ir.effect matches Effect::Ora { ar } && mode_resolved(pre, post, ar, mode)
                && ir.cycles == spec_penalized_cycles(ar, operand_cycles(mode))),
            _ => true,
        },
        Op::Pha => unchanged(pre, post) && ir.cycles == 3 && ir.effect == (Effect::Push { value: pre.reg_acc }),
        Op::Php => unchanged(pre, post) && ir.cycles == 3 && ir.effect == (Effect::Push { value: crate::status_reg::spec_status_byte(pre.reg_status) }),
        Op::Pla => unchanged(pre, post) && ir.cycles == 3 && ir.effect == (Effect::Pull { dest: PullDestination::Accumulator }),
        Op::Plp => unchanged(pre, post) && ir.cycles == 3 && ir.effect == (Effect::Pull { dest: PullDestination::Status }),
        Op::Rla => match mode {
            AddrMode::IndirectX | AddrMode::ZeroPage | AddrMode::Absolute | AddrMode::IndirectY | AddrMode::ZeroPageX | AddrMode::AbsoluteY | AddrMode::AbsoluteX => (ir.effect matches Effect::Rla { ar } && mode_resolved(pre, post, ar, mode)
                && ir.cycles == rmw_cycles(mode)),
            _ => true,
        },
        Op::Rol => match mode {
            AddrMode::ZeroPage | AddrMode::Accumulator | AddrMode::Absolute | AddrMode::ZeroPageX | AddrMode::AbsoluteX => (ir.effect matches Effect::Rol { ar } && mode_resolved(pre, post, ar, mode)
                && ir.cycles == shift_cycles(mode)),
            _ => true,
        },
        Op::Ror => match mode {
            AddrMode::ZeroPage | AddrMode::Accumulator | AddrMode::Absolute | AddrMode::ZeroPageX | AddrMode::AbsoluteX => (ir.effect matches Effect::Ror { ar } && mode_resolved(pre, post, ar, mode)
                && ir.cycles == shift_cycles(mode)),
            _ => true,
        },
        Op::Rra => match mode {
            AddrMode::IndirectX | AddrMode::ZeroPage | AddrMode::Absolute | AddrMode::IndirectY | AddrMode::ZeroPageX | AddrMode::AbsoluteY | AddrMode::AbsoluteX => (ir.effect matches Effect::Rra { ar } && mode_resolved(pre, post, ar, mode)
                && ir.cycles == rmw_cycles(mode)),
            _ => true,
        },
        Op::Rti => unchanged(pre, post) && ir.cycles == 6 && ir.effect == Effect::Rti,
        Op::Rts => unchanged(pre, post) && ir.cycles == 6 && ir.effect == Effect::Rts,
        Op::Sbc => match mode {
            AddrMode::IndirectX | AddrMode::ZeroPage | AddrMode::Immediate | AddrMode::Absolute | AddrMode::IndirectY | AddrMode::ZeroPageX | AddrMode::AbsoluteY | AddrMode::AbsoluteX => (ir.effect matches Effect::Sbc { ar } && mode_resolved(pre, post, ar, mode)
                && ir.cycles == spec_penalized_cycles(ar, operand_cycles(mode))),
            _ => true,
        },
        Op::Sec => unchanged(pre, post) && ir.cycles == 2 && ir.effect == (Effect::SetFlag { flag: Flag::Carry, on: true }),
        Op::Sed => unchanged(pre, post) && ir.cycles == 2 && ir.effect == (Effect::SetFlag { flag: Flag::DecimalMode, on: true }),
        Op::Sei => unchanged(pre, post) && ir.cycles == 2 && ir.effect == (Effect::SetFlag { flag: Flag::IrqDisable, on: true }),
        Op::Slo => match mode {
            AddrMode::IndirectX | AddrMode::ZeroPage | AddrMode::Absolute | AddrMode::IndirectY | AddrMode::ZeroPageX | AddrMode::AbsoluteY | AddrMode::AbsoluteX => (ir.effect matches Effect::Slo { ar } && mode_resolved(pre, post, ar, mode)
                && ir.cycles == rmw_cycles(mode)),
            _ => true,
        },
        Op::Sta => match mode {
            AddrMode::IndirectX | AddrMode::ZeroPage | AddrMode::Absolute | AddrMode::IndirectY | AddrMode::ZeroPageX | AddrMode::AbsoluteY | AddrMode::AbsoluteX => (ir.effect matches Effect::Store { reg: Register::A, ar } && mode_resolved(pre, post, ar, mode)
                && ir.cycles == sta_cycles(mode)),
            _ => true,
        },
        Op::Stx => match mode {
            AddrMode::ZeroPage | AddrMode::Absolute | AddrMode::ZeroPageY => (ir.effect matches Effect::Store { reg: Register::X, ar } && mode_resolved(pre, post, ar, mode)
                && ir.cycles == sta_cycles(mode)),
            _ => true,
        },
        Op::Sty => match mode {
            AddrMode::ZeroPage | AddrMode::Absolute | AddrMode::ZeroPageX => (ir.effect matches Effect::Store { reg: Register::Y, ar } && mode_resolved(pre, post, ar, mode)
                && ir.cycles == sta_cycles(mode)),
            _ => true,
        },
        Op::Tax => unchanged(pre, post) && ir.cycles == 2 && ir.effect == (Effect::Transfer { from: Register::A, to: Register::X }),
        Op::Tay => unchanged(pre, post) && ir.cycles == 2 && ir.effect == (Effect::Transfer { from: Register::A, to: Register::Y }),
        Op::Top => match mode {
            AddrMode::Absolute => crate::cpu::same_but_pc(pre, post) && post.reg_pc == wrap_add16(pre.reg_pc, 2)
                && ir.effect == Effect::Nop && ir.cycles == 4,
            AddrMode::AbsoluteX => crate::cpu::same_but_pc(pre, post) && post.reg_pc == wrap_add16(pre.reg_pc, 2)
                && ir.effect == Effect::Nop && ({
                let base = word_at(pre.memory.mem@, pre.reg_pc);
                let eff = wrap_add16(base, pre.reg_x as u16);
                ir.cycles == (if page_of(base) != page_of(eff) {
                    5int
                } else {
                    4int
                })
            }),
            _ => true,
        },
        Op::Tsx => unchanged(pre, post) && ir.cycles == 2 && ir.effect == (Effect::Transfer { from: Register::SP, to: Register::X }),
        Op::Txa => unchanged(pre, post) && ir.cycles == 2 && ir.effect == (Effect::Transfer { from: Register::X, to: Register::A }),
        Op::Txs => unchanged(pre, post) && ir.cycles == 2 && ir.effect == (Effect::Transfer { from: Register::X, to: Register::SP }),
        Op::Tya => unchanged(pre, post) && ir.cycles == 2 && ir.effect == (Effect::Transfer { from: Register::Y, to: Register::A }),
    }
}

/// Runs the constructor a table entry names, producing the deferred
/// instruction.
pub fn decode(cpu: &mut Cpu, op: Op, mode: AddrMode) -> (r: InstrResult)
    requires
        old(cpu).wf(),
    ensures
        final(cpu).wf(),
        r.wf(),
        decoded(*old(cpu), *final(cpu), r, op, mode),
{
    match op {
        Op::Aax => match mode {
            AddrMode::ZeroPage => aax::zero_page(cpu),
            AddrMode::Absolute => aax::abs(cpu),
            AddrMode::ZeroPageY => aax::zero_page_y(cpu),
            _ => aax::ind_x(cpu),
        },
        Op::Adc => match mode {
            AddrMode::ZeroPage => adc::zero_page(cpu),
            AddrMode::Immediate => adc::imm(cpu),
            AddrMode::Absolute => adc::abs(cpu),
            AddrMode::IndirectY => adc::ind_y(cpu),
            AddrMode::ZeroPageX => adc::zero_page_x(cpu),
            AddrMode::AbsoluteY => adc::abs_y(cpu),
            AddrMode::AbsoluteX => adc::abs_x(cpu),
            _ => adc::ind_x(cpu),
        },
        Op::And => match mode {
            AddrMode::ZeroPage => and::zero_page(cpu),
            AddrMode::Immediate => and::imm(cpu),
            AddrMode::Absolute => and::abs(cpu),
            AddrMode::IndirectY => and::ind_y(cpu),
            AddrMode::ZeroPageX => and::zero_page_x(cpu),
            AddrMode::AbsoluteY => and::abs_y(cpu),
            AddrMode::AbsoluteX => and::abs_x(cpu),
            _ => and::ind_x(cpu),
        },
        Op::Asl => match mode {
            AddrMode::Accumulator => asl::acc(cpu),
            AddrMode::Absolute => asl::abs(cpu),
            AddrMode::ZeroPageX => asl::zero_page_x(cpu),
            AddrMode::AbsoluteX => asl::abs_x(cpu),
            _ => asl::zero_page(cpu),
        },
        Op::Bcc => branch::bcc(cpu),
        Op::Bcs => branch::bcs(cpu),
        Op::Beq => branch::beq(cpu),
        Op::Bit => match mode {
            AddrMode::Absolute => bit::abs(cpu),
            _ => bit::zero_page(cpu),
        },
        Op::Bmi => branch::bmi(cpu),
        Op::Bne => branch::bne(cpu),
        Op::Bpl => branch::bpl(cpu),
        Op::Brk => brk::brk(cpu),
        Op::Bvc => branch::bvc(cpu),
        Op::Bvs => branch::bvs(cpu),
        Op::Clc => clear::clc(cpu),
        Op::Cld => clear::cld(cpu),
        Op::Cli => clear::cli(cpu),
        Op::Clv => clear::clv(cpu),
        Op::Cmp => match mode {
            AddrMode::ZeroPage => cmp::zero_page(cpu),
            AddrMode::Immediate => cmp::imm(cpu),
            AddrMode::Absolute => cmp::abs(cpu),
            AddrMode::IndirectY => cmp::ind_y(cpu),
            AddrMode::ZeroPageX => cmp::zero_page_x(cpu),
            AddrMode::AbsoluteY => cmp::abs_y(cpu),
            AddrMode::AbsoluteX => cmp::abs_x(cpu),
            _ => cmp::ind_x(cpu),
        },
        Op::Cpx => match mode {
            AddrMode::ZeroPage => cpx::zero_page(cpu),
            AddrMode::Absolute => cpx::abs(cpu),
            _ => cpx::imm(cpu),
        },
        Op::Cpy => match mode {
            AddrMode::ZeroPage => cpy::zero_page(cpu),
            AddrMode::Absolute => cpy::abs(cpu),
            _ => cpy::imm(cpu),
        },
        Op::Dcp => match mode {
            AddrMode::ZeroPage => dcp::zero_page(cpu),
            AddrMode::Absolute => dcp::abs(cpu),
            AddrMode::IndirectY => dcp::ind_y(cpu),
            AddrMode::ZeroPageX => dcp::zero_page_x(cpu),
            AddrMode::AbsoluteY => dcp::abs_y(cpu),
            AddrMode::AbsoluteX => dcp::abs_x(cpu),
            _ => dcp::ind_x(cpu),
        },
        Op::Dec => match mode {
            AddrMode::Absolute => dec::abs(cpu),
            AddrMode::ZeroPageX => dec::zero_page_x(cpu),
            AddrMode::AbsoluteX => dec::abs_x(cpu),
            _ => dec::zero_page(cpu),
        },
        Op::Dex => dec::dex(cpu),
        Op::Dey => dec::dey(cpu),
        Op::Dop => match mode {
            AddrMode::ZeroPageX => dop::zero_page_x(cpu),
            AddrMode::Immediate => dop::imm(cpu),
            _ => dop::zero_page(cpu),
        },
        Op::Eor => match mode {
            AddrMode::ZeroPage => eor::zero_page(cpu),
            AddrMode::Immediate => eor::imm(cpu),
            AddrMode::Absolute => eor::abs(cpu),
            AddrMode::IndirectY => eor::ind_y(cpu),
            AddrMode::ZeroPageX => eor::zero_page_x(cpu),
            AddrMode::AbsoluteY => eor::abs_y(cpu),
            AddrMode::AbsoluteX => eor::abs_x(cpu),
            _ => eor::ind_x(cpu),
        },
        Op::Inc => match mode {
            AddrMode::Absolute => inc::abs(cpu),
            AddrMode::ZeroPageX => inc::zero_page_x(cpu),
            AddrMode::AbsoluteX => inc::abs_x(cpu),
            _ => inc::zero_page(cpu),
        },
        Op::Inx => inc::inx(cpu),
        Op::Iny => inc::iny(cpu),
        Op::Isc => match mode {
            AddrMode::ZeroPage => isc::zero_page(cpu),
            AddrMode::Absolute => isc::abs(cpu),
            AddrMode::IndirectY => isc::ind_y(cpu),
            AddrMode::ZeroPageX => isc::zero_page_x(cpu),
            AddrMode::AbsoluteY => isc::abs_y(cpu),
            AddrMode::AbsoluteX => isc::abs_x(cpu),
            _ => isc::ind_x(cpu),
        },
        Op::Jmp => match mode {
            AddrMode::Indirect => jmp::ind(cpu),
            _ => jmp::abs(cpu),
        },
        Op::Jsr => jsr::jsr(cpu),
        Op::Lax => match mode {
            AddrMode::ZeroPage => lax::zero_page(cpu),
            AddrMode::Absolute => lax::abs(cpu),
            AddrMode::IndirectY => lax::ind_y(cpu),
            AddrMode::ZeroPageY => lax::zero_page_y(cpu),
            AddrMode::AbsoluteY => lax::abs_y(cpu),
            _ => lax::ind_x(cpu),
        },
        Op::Lda => match mode {
            AddrMode::ZeroPage => lda::zero_page(cpu),
            AddrMode::Immediate => lda::imm(cpu),
            AddrMode::Absolute => lda::abs(cpu),
            AddrMode::IndirectY => lda::ind_y(cpu),
            AddrMode::ZeroPageX => lda::zero_page_x(cpu),
            AddrMode::AbsoluteY => lda::abs_y(cpu),
            AddrMode::AbsoluteX => lda::abs_x(cpu),
            _ => lda::ind_x(cpu),
        },
        Op::Ldx => match mode {
            AddrMode::ZeroPage => ldx::zero_page(cpu),
            AddrMode::Absolute => ldx::abs(cpu),
            AddrMode::ZeroPageY => ldx::zero_page_y(cpu),
            AddrMode::AbsoluteY => ldx::abs_y(cpu),
            _ => ldx::imm(cpu),
        },
        Op::Ldy => match mode {
            AddrMode::ZeroPage => ldy::zero_page(cpu),
            AddrMode::Absolute => ldy::abs(cpu),
            AddrMode::ZeroPageX => ldy::zero_page_x(cpu),
            AddrMode::AbsoluteX => ldy::abs_x(cpu),
            _ => ldy::imm(cpu),
        },
        Op::Lsr => match mode {
            AddrMode::Accumulator => lsr::acc(cpu),
            AddrMode::Absolute => lsr::abs(cpu),
            AddrMode::ZeroPageX => lsr::zero_page_x(cpu),
            AddrMode::AbsoluteX => lsr::abs_x(cpu),
            _ => lsr::zero_page(cpu),
        },
        Op::Nop => nop::imp(cpu),
        Op::Ora => match mode {
            AddrMode::ZeroPage => ora::zero_page(cpu),
            AddrMode::Immediate => ora::imm(cpu),
            AddrMode::Absolute => ora::abs(cpu),
            AddrMode::IndirectY => ora::ind_y(cpu),
            AddrMode::ZeroPageX => ora::zero_page_x(cpu),
            AddrMode::AbsoluteY => ora::abs_y(cpu),
            AddrMode::AbsoluteX => ora::abs_x(cpu),
            _ => ora::ind_x(cpu),
        },
        Op::Pha => push::pha(cpu),
        Op::Php => push::php(cpu),
        Op::Pla => pull::pla(cpu),
        Op::Plp => pull::plp(cpu),
        Op::Rla => match mode {
            AddrMode::ZeroPage => rla::zero_page(cpu),
            AddrMode::Absolute => rla::abs(cpu),
            AddrMode::IndirectY => rla::ind_y(cpu),
            AddrMode::ZeroPageX => rla::zero_page_x(cpu),
            AddrMode::AbsoluteY => rla::abs_y(cpu),
            AddrMode::AbsoluteX => rla::abs_x(cpu),
            _ => rla::ind_x(cpu),
        },
        Op::Rol => match mode {
            AddrMode::Accumulator => rol::acc(cpu),
            AddrMode::Absolute => rol::abs(cpu),
            AddrMode::ZeroPageX => rol::zero_page_x(cpu),
            AddrMode::AbsoluteX => rol::abs_x(cpu),
            _ => rol::zero_page(cpu),
        },
        Op::Ror => match mode {
            AddrMode::Accumulator => ror::acc(cpu),
            AddrMode::Absolute => ror::abs(cpu),
            AddrMode::ZeroPageX => ror::zero_page_x(cpu),
            AddrMode::AbsoluteX => ror::abs_x(cpu),
            _ => ror::zero_page(cpu),
        },
        Op::Rra => match mode {
            AddrMode::ZeroPage => rra::zero_page(cpu),
            AddrMode::Absolute => rra::abs(cpu),
            AddrMode::IndirectY => rra::ind_y(cpu),
            AddrMode::ZeroPageX => rra::zero_page_x(cpu),
            AddrMode::AbsoluteY => rra::abs_y(cpu),
            AddrMode::AbsoluteX => rra::abs_x(cpu),
            _ => rra::ind_x(cpu),
        },
        Op::Rti => ret::rti(cpu),
        Op::Rts => ret::rts(cpu),
        Op::Sbc => match mode {
            AddrMode::ZeroPage => sbc::zero_page(cpu),
            AddrMode::Immediate => sbc::imm(cpu),
            AddrMode::Absolute => sbc::abs(cpu),
            AddrMode::IndirectY => sbc::ind_y(cpu),
            AddrMode::ZeroPageX => sbc::zero_page_x(cpu),
            AddrMode::AbsoluteY => sbc::abs_y(cpu),
            AddrMode::AbsoluteX => sbc::abs_x(cpu),
            _ => sbc::ind_x(cpu),
        },
        Op::Sec => crate::instr::set::sec(cpu),
        Op::Sed => crate::instr::set::sed(cpu),
        Op::Sei => crate::instr::set::sei(cpu),
        Op::Slo => match mode {
            AddrMode::ZeroPage => slo::zero_page(cpu),
            AddrMode::Absolute => slo::abs(cpu),
            AddrMode::IndirectY => slo::ind_y(cpu),
            AddrMode::ZeroPageX => slo::zero_page_x(cpu),
            AddrMode::AbsoluteY => slo::abs_y(cpu),
            AddrMode::AbsoluteX => slo::abs_x(cpu),
            _ => slo::ind_x(cpu),
        },
        Op::Sta => match mode {
            AddrMode::ZeroPage => sta::zero_page(cpu),
            AddrMode::Absolute => sta::abs(cpu),
            AddrMode::IndirectY => sta::ind_y(cpu),
            AddrMode::ZeroPageX => sta::zero_page_x(cpu),
            AddrMode::AbsoluteY => sta::abs_y(cpu),
            AddrMode::AbsoluteX => sta::abs_x(cpu),
            _ => sta::ind_x(cpu),
        },
        Op::Stx => match mode {
            AddrMode::Absolute => stx::abs(cpu),
            AddrMode::ZeroPageY => stx::zero_page_y(cpu),
            _ => stx::zero_page(cpu),
        },
        Op::Sty => match mode {
            AddrMode::Absolute => sty::abs(cpu),
            AddrMode::ZeroPageX => sty::zero_page_x(cpu),
            _ => sty::zero_page(cpu),
        },
        Op::Tax => transfer::tax(cpu),
        Op::Tay => transfer::tay(cpu),
        Op::Top => match mode {
            AddrMode::AbsoluteX => top::abs_x(cpu),
            _ => top::abs(cpu),
        },
        Op::Tsx => transfer::tsx(cpu),
        Op::Txa => transfer::txa(cpu),
        Op::Txs => transfer::txs(cpu),
        Op::Tya => transfer::tya(cpu),
    }
}

} // verus!
