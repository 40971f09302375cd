//! The instruction decoder: every opcode byte, official or not, with its
//! operation, addressing mode, length in bytes and base cycle cost.
use vstd::prelude::*;

verus! {

/// How an instruction finds its operand.
#[derive(Clone, Copy, Debug, PartialEq, Eq, Structural)]
pub enum AddressingMode {
    Immediate,
    ZeroPage,
    ZeroPageX,
    ZeroPageY,
    Absolute,
    AbsoluteX,
    AbsoluteY,
    IndirectX,
    IndirectY,
    NoneAddressing,
}

/// The operation an opcode performs.  Accumulator forms of the shifts are
/// separate operations; the remaining names follow the usual mnemonics of
/// the documented and undocumented instruction sets.
#[derive(Clone, Copy, Debug, PartialEq, Eq, Structural)]
pub enum Op {
    Adc,
    And,
    Cmp,
    Eor,
    Lda,
    Ora,
    Sbc,
    AslA,
    Asl,
    LsrA,
    Lsr,
    RolA,
    Rol,
    RorA,
    Ror,
    Dec,
    Inc,
    Bcc,
    Bcs,
    Beq,
    Bmi,
    Bne,
    Bpl,
    Bvc,
    Bvs,
    Bit,
    Brk,
    Clc,
    Cld,
    Cli,
    Clv,
    Sec,
    Sed,
    Sei,
    Dex,
    Dey,
    Inx,
    Iny,
    Nop,
    Tax,
    Tay,
    Tsx,
    Txa,
    Txs,
    Tya,
    Cpx,
    Cpy,
    JmpAbs,
    JmpInd,
    Jsr,
    Ldx,
    Ldy,
    Pha,
    Php,
    Pla,
    Plp,
    Rti,
    Rts,
    Sta,
    Stx,
    Sty,
    Dcp,
    Isb,
    Rla,
    Rra,
    Slo,
    Sre,
    AhxAy,
    AhxIy,
    Alr,
    Anc,
    Arr,
    Axs,
    Las,
    Lax,
    Lxa,
    Sax,
    Usbc,
    Shx,
    Shy,
    Skb,
    Tas,
    Xaa,
    Unop,
    NopRead,
}

/// One row of the decode table.
#[derive(Clone, Copy, Debug, PartialEq, Eq, Structural)]
pub struct OpCode {
    pub code: u8,
    pub op: Op,
    pub mode: AddressingMode,
    pub len: u8,
    pub cycles: u8,
}

pub open spec fn entry(code: u8, op: Op, mode: AddressingMode, len: u8, cycles: u8) -> OpCode {
    OpCode { code, op, mode, len, cycles }
}

fn make_entry(code: u8, op: Op, mode: AddressingMode, len: u8, cycles: u8) -> (r: OpCode)
    ensures
        r == entry(code, op, mode, len, cycles),
{
    OpCode { code, op, mode, len, cycles }
}

/// Row `0x0_` of the decode table.
pub open spec fn table_row_0(code: u8) -> OpCode {
    match code {
        0x00 => entry(0x00, Op::Brk, AddressingMode::NoneAddressing, 1, 7),
        0x01 => entry(0x01, Op::Ora, AddressingMode::IndirectX, 2, 6),
        0x02 => entry(0x02, Op::Unop, AddressingMode::NoneAddressing, 1, 2),
        0x03 => entry(0x03, Op::Slo, AddressingMode::IndirectX, 2, 8),
        0x04 => entry(0x04, Op::NopRead, AddressingMode::ZeroPage, 2, 3),
        0x05 => entry(0x05, Op::Ora, AddressingMode::ZeroPage, 2, 3),
        0x06 => entry(0x06, Op::Asl, AddressingMode::ZeroPage, 2, 5),
        0x07 => entry(0x07, Op::Slo, AddressingMode::ZeroPage, 2, 5),
        0x08 => entry(0x08, Op::Php, AddressingMode::NoneAddressing, 1, 3),
        0x09 => entry(0x09, Op::Ora, AddressingMode::Immediate, 2, 2),
        0x0a => entry(0x0a, Op::AslA, AddressingMode::NoneAddressing, 1, 2),
        0x0b => entry(0x0b, Op::Anc, AddressingMode::Immediate, 2, 2),
        0x0c => entry(0x0c, Op::NopRead, AddressingMode::Absolute, 3, 4),
        0x0d => entry(0x0d, Op::Ora, AddressingMode::Absolute, 3, 4),
        0x0e => entry(0x0e, Op::Asl, AddressingMode::Absolute, 3, 6),
        _ => entry(0x0f, Op::Slo, AddressingMode::Absolute, 3, 6),
    }
}

/// Row `0x1_` of the decode table.
pub open spec fn table_row_1(code: u8) -> OpCode {
    match code {
        0x10 => entry(0x10, Op::Bpl, AddressingMode::NoneAddressing, 2, 2),
        0x11 => entry(0x11, Op::Ora, AddressingMode::IndirectY, 2, 5),
        0x12 => entry(0x12, Op::Unop, AddressingMode::NoneAddressing, 1, 2),
        0x13 => entry(0x13, Op::Slo, AddressingMode::IndirectY, 2, 8),
        0x14 => entry(0x14, Op::NopRead, AddressingMode::ZeroPageX, 2, 4),
        0x15 => entry(0x15, Op::Ora, AddressingMode::ZeroPageX, 2, 4),
        0x16 => entry(0x16, Op::Asl, AddressingMode::ZeroPageX, 2, 6),
        0x17 => entry(0x17, Op::Slo, AddressingMode::ZeroPageX, 2, 6),
        0x18 => entry(0x18, Op::Clc, AddressingMode::NoneAddressing, 1, 2),
        0x19 => entry(0x19, Op::Ora, AddressingMode::AbsoluteY, 3, 4),
        0x1a => entry(0x1a, Op::Unop, AddressingMode::NoneAddressing, 1, 2),
        0x1b => entry(0x1b, Op::Slo, AddressingMode::AbsoluteY, 3, 7),
        0x1c => entry(0x1c, Op::NopRead, AddressingMode::AbsoluteX, 3, 4),
        0x1d => entry(0x1d, Op::Ora, AddressingMode::AbsoluteX, 3, 4),
        0x1e => entry(0x1e, Op::Asl, AddressingMode::AbsoluteX, 3, 7),
        _ => entry(0x1f, Op::Slo, AddressingMode::AbsoluteX, 3, 7),
    }
}

/// Row `0x2_` of the decode table.
pub open spec fn table_row_2(code: u8) -> OpCode {
    match code {
        0x20 => entry(0x20, Op::Jsr, AddressingMode::NoneAddressing, 3, 6),
        0x21 => entry(0x21, Op::And, AddressingMode::IndirectX, 2, 6),
        0x22 => entry(0x22, Op::Unop, AddressingMode::NoneAddressing, 1, 2),
        0x23 => entry(0x23, Op::Rla, AddressingMode::IndirectX, 2, 8),
        0x24 => entry(0x24, Op::Bit, AddressingMode::ZeroPage, 2, 3),
        0x25 => entry(0x25, Op::And, AddressingMode::ZeroPage, 2, 3),
        0x26 => entry(0x26, Op::Rol, AddressingMode::ZeroPage, 2, 5),
        0x27 => entry(0x27, Op::Rla, AddressingMode::ZeroPage, 2, 5),
        0x28 => entry(0x28, Op::Plp, AddressingMode::NoneAddressing, 1, 4),
        0x29 => entry(0x29, Op::And, AddressingMode::Immediate, 2, 2),
        0x2a => entry(0x2a, Op::RolA, AddressingMode::NoneAddressing, 1, 2),
        0x2b => entry(0x2b, Op::Anc, AddressingMode::Immediate, 2, 2),
        0x2c => entry(0x2c, Op::Bit, AddressingMode::Absolute, 3, 4),
        0x2d => entry(0x2d, Op::And, AddressingMode::Absolute, 3, 4),
        0x2e => entry(0x2e, Op::Rol, AddressingMode::Absolute, 3, 6),
        _ => entry(0x2f, Op::Rla, AddressingMode::Absolute, 3, 6),
    }
}

/// Row `0x3_` of the decode table.
pub open spec fn table_row_3(code: u8) -> OpCode {
    match code {
        0x30 => entry(0x30, Op::Bmi, AddressingMode::NoneAddressing, 2, 2),
        0x31 => entry(0x31, Op::And, AddressingMode::IndirectY, 2, 5),
        0x32 => entry(0x32, Op::Unop, AddressingMode::NoneAddressing, 1, 2),
        0x33 => entry(0x33, Op::Rla, AddressingMode::IndirectY, 2, 8),
        0x34 => entry(0x34, Op::NopRead, AddressingMode::ZeroPageX, 2, 4),
        0x35 => entry(0x35, Op::And, AddressingMode::ZeroPageX, 2, 4),
        0x36 => entry(0x36, Op::Rol, AddressingMode::ZeroPageX, 2, 6),
        0x37 => entry(0x37, Op::Rla, AddressingMode::ZeroPageX, 2, 6),
        0x38 => entry(0x38, Op::Sec, AddressingMode::NoneAddressing, 1, 2),
        0x39 => entry(0x39, Op::And, AddressingMode::AbsoluteY, 3, 4),
        0x3a => entry(0x3a, Op::Unop, AddressingMode::NoneAddressing, 1, 2),
        0x3b => entry(0x3b, Op::Rla, AddressingMode::AbsoluteY, 3, 7),
        0x3c => entry(0x3c, Op::NopRead, AddressingMode::AbsoluteX, 3, 4),
        0x3d => entry(0x3d, Op::And, AddressingMode::AbsoluteX, 3, 4),
        0x3e => entry(0x3e, Op::Rol, AddressingMode::AbsoluteX, 3, 7),
        _ => entry(0x3f, Op::Rla, AddressingMode::AbsoluteX, 3, 7),
    }
}

/// Row `0x4_` of the decode table.
pub open spec fn table_row_4(code: u8) -> OpCode {
    match code {
        0x40 => entry(0x40, Op::Rti, AddressingMode::NoneAddressing, 1, 6),
        0x41 => entry(0x41, Op::Eor, AddressingMode::IndirectX, 2, 6),
        0x42 => entry(0x42, Op::Unop, AddressingMode::NoneAddressing, 1, 2),
        0x43 => entry(0x43, Op::Sre, AddressingMode::IndirectX, 2, 8),
        0x44 => entry(0x44, Op::NopRead, AddressingMode::ZeroPage, 2, 3),
        0x45 => entry(0x45, Op::Eor, AddressingMode::ZeroPage, 2, 3),
        0x46 => entry(0x46, Op::Lsr, AddressingMode::ZeroPage, 2, 5),
        0x47 => entry(0x47, Op::Sre, AddressingMode::ZeroPage, 2, 5),
        0x48 => entry(0x48, Op::Pha, AddressingMode::NoneAddressing, 1, 3),
        0x49 => entry(0x49, Op::Eor, AddressingMode::Immediate, 2, 2),
        0x4a => entry(0x4a, Op::LsrA, AddressingMode::NoneAddressing, 1, 2),
        0x4b => entry(0x4b, Op::Alr, AddressingMode::Immediate, 2, 2),
        0x4c => entry(0x4c, Op::JmpAbs, AddressingMode::NoneAddressing, 3, 3),
        0x4d => entry(0x4d, Op::Eor, AddressingMode::Absolute, 3, 4),
        0x4e => entry(0x4e, Op::Lsr, AddressingMode::Absolute, 3, 6),
        _ => entry(0x4f, Op::Sre, AddressingMode::Absolute, 3, 6),
    }
}

/// Row `0x5_` of the decode table.
pub open spec fn table_row_5(code: u8) -> OpCode {
    match code {
        0x50 => entry(0x50, Op::Bvc, AddressingMode::NoneAddressing, 2, 2),
        0x51 => entry(0x51, Op::Eor, AddressingMode::IndirectY, 2, 5),
        0x52 => entry(0x52, Op::Unop, AddressingMode::NoneAddressing, 1, 2),
        0x53 => entry(0x53, Op::Sre, AddressingMode::IndirectY, 2, 8),
        0x54 => entry(0x54, Op::NopRead, AddressingMode::ZeroPageX, 2, 4),
        0x55 => entry(0x55, Op::Eor, AddressingMode::ZeroPageX, 2, 4),
        0x56 => entry(0x56, Op::Lsr, AddressingMode::ZeroPageX, 2, 6),
        0x57 => entry(0x57, Op::Sre, AddressingMode::ZeroPageX, 2, 6),
        0x58 => entry(0x58, Op::Cli, AddressingMode::NoneAddressing, 1, 2),
        0x59 => entry(0x59, Op::Eor, AddressingMode::AbsoluteY, 3, 4),
        0x5a => entry(0x5a, Op::Unop, AddressingMode::NoneAddressing, 1, 2),
        0x5b => entry(0x5b, Op::Sre, AddressingMode::AbsoluteY, 3, 7),
        0x5c => entry(0x5c, Op::NopRead, AddressingMode::AbsoluteX, 3, 4),
        0x5d => entry(0x5d, Op::Eor, AddressingMode::AbsoluteX, 3, 4),
        0x5e => entry(0x5e, Op::Lsr, AddressingMode::AbsoluteX, 3, 7),
        _ => entry(0x5f, Op::Sre, AddressingMode::AbsoluteX, 3, 7),
    }
}

/// Row `0x6_` of the decode table.
pub open spec fn table_row_6(code: u8) -> OpCode {
    match code {
        0x60 => entry(0x60, Op::Rts, AddressingMode::NoneAddressing, 1, 6),
        0x61 => entry(0x61, Op::Adc, AddressingMode::IndirectX, 2, 6),
        0x62 => entry(0x62, Op::Unop, AddressingMode::NoneAddressing, 1, 2),
        0x63 => entry(0x63, Op::Rra, AddressingMode::IndirectX, 2, 8),
        0x64 => entry(0x64, Op::NopRead, AddressingMode::ZeroPage, 2, 3),
        0x65 => entry(0x65, Op::Adc, AddressingMode::ZeroPage, 2, 3),
        0x66 => entry(0x66, Op::Ror, AddressingMode::ZeroPage, 2, 5),
        0x67 => entry(0x67, Op::Rra, AddressingMode::ZeroPage, 2, 5),
        0x68 => entry(0x68, Op::Pla, AddressingMode::NoneAddressing, 1, 4),
        0x69 => entry(0x69, Op::Adc, AddressingMode::Immediate, 2, 2),
        0x6a => entry(0x6a, Op::RorA, AddressingMode::NoneAddressing, 1, 2),
        0x6b => entry(0x6b, Op::Arr, AddressingMode::Immediate, 2, 2),
        0x6c => entry(0x6c, Op::JmpInd, AddressingMode::NoneAddressing, 3, 5),
        0x6d => entry(0x6d, Op::Adc, AddressingMode::Absolute, 3, 4),
        0x6e => entry(0x6e, Op::Ror, AddressingMode::Absolute, 3, 6),
        _ => entry(0x6f, Op::Rra, AddressingMode::Absolute, 3, 6),
    }
}

/// Row `0x7_` of the decode table.
pub open spec fn table_row_7(code: u8) -> OpCode {
    match code {
        0x70 => entry(0x70, Op::Bvs, AddressingMode::NoneAddressing, 2, 2),
        0x71 => entry(0x71, Op::Adc, AddressingMode::IndirectY, 2, 5),
        0x72 => entry(0x72, Op::Unop, AddressingMode::NoneAddressing, 1, 2),
        0x73 => entry(0x73, Op::Rra, AddressingMode::IndirectY, 2, 8),
        0x74 => entry(0x74, Op::NopRead, AddressingMode::ZeroPageX, 2, 4),
        0x75 => entry(0x75, Op::Adc, AddressingMode::ZeroPageX, 2, 4),
        0x76 => entry(0x76, Op::Ror, AddressingMode::ZeroPageX, 2, 6),
        0x77 => entry(0x77, Op::Rra, AddressingMode::ZeroPageX, 2, 6),
        0x78 => entry(0x78, Op::Sei, AddressingMode::NoneAddressing, 1, 2),
        0x79 => entry(0x79, Op::Adc, AddressingMode::AbsoluteY, 3, 4),
        0x7a => entry(0x7a, Op::Unop, AddressingMode::NoneAddressing, 1, 2),
        0x7b => entry(0x7b, Op::Rra, AddressingMode::AbsoluteY, 3, 7),
        0x7c => entry(0x7c, Op::NopRead, AddressingMode::AbsoluteX, 3, 4),
        0x7d => entry(0x7d, Op::Adc, AddressingMode::AbsoluteX, 3, 4),
        0x7e => entry(0x7e, Op::Ror, AddressingMode::AbsoluteX, 3, 7),
        _ => entry(0x7f, Op::Rra, AddressingMode::AbsoluteX, 3, 7),
    }
}

/// Row `0x8_` of the decode table.
pub open spec fn table_row_8(code: u8) -> OpCode {
    match code {
        0x80 => entry(0x80, Op::Skb, AddressingMode::Immediate, 2, 2),
        0x81 => entry(0x81, Op::Sta, AddressingMode::IndirectX, 2, 6),
        0x82 => entry(0x82, Op::Skb, AddressingMode::Immediate, 2, 2),
        0x83 => entry(0x83, Op::Sax, AddressingMode::IndirectX, 2, 6),
        0x84 => entry(0x84, Op::Sty, AddressingMode::ZeroPage, 2, 3),
        0x85 => entry(0x85, Op::Sta, AddressingMode::ZeroPage, 2, 3),
        0x86 => entry(0x86, Op::Stx, AddressingMode::ZeroPage, 2, 3),
        0x87 => entry(0x87, Op::Sax, AddressingMode::ZeroPage, 2, 3),
        0x88 => entry(0x88, Op::Dey, AddressingMode::NoneAddressing, 1, 2),
        0x89 => entry(0x89, Op::Skb, AddressingMode::Immediate, 2, 2),
        0x8a => entry(0x8a, Op::Txa, AddressingMode::NoneAddressing, 1, 2),
        0x8b => entry(0x8b, Op::Xaa, AddressingMode::Immediate, 2, 2),
        0x8c => entry(0x8c, Op::Sty, AddressingMode::Absolute, 3, 4),
        0x8d => entry(0x8d, Op::Sta, AddressingMode::Absolute, 3, 4),
        0x8e => entry(0x8e, Op::Stx, AddressingMode::Absolute, 3, 4),
        _ => entry(0x8f, Op::Sax, AddressingMode::Absolute, 3, 4),
    }
}

/// Row `0x9_` of the decode table.
pub open spec fn table_row_9(code: u8) -> OpCode {
    match code {
        0x90 => entry(0x90, Op::Bcc, AddressingMode::NoneAddressing, 2, 2),
        0x91 => entry(0x91, Op::Sta, AddressingMode::IndirectY, 2, 6),
        0x92 => entry(0x92, Op::Unop, AddressingMode::NoneAddressing, 1, 2),
        0x93 => entry(0x93, Op::AhxIy, AddressingMode::IndirectY, 2, 6),
        0x94 => entry(0x94, Op::Sty, AddressingMode::ZeroPageX, 2, 4),
        0x95 => entry(0x95, Op::Sta, AddressingMode::ZeroPageX, 2, 4),
        0x96 => entry(0x96, Op::Stx, AddressingMode::ZeroPageY, 2, 4),
        0x97 => entry(0x97, Op::Sax, AddressingMode::ZeroPageY, 2, 4),
        0x98 => entry(0x98, Op::Tya, AddressingMode::NoneAddressing, 1, 2),
        0x99 => entry(0x99, Op::Sta, AddressingMode::AbsoluteY, 3, 5),
        0x9a => entry(0x9a, Op::Txs, AddressingMode::NoneAddressing, 1, 2),
        0x9b => entry(0x9b, Op::Tas, AddressingMode::AbsoluteY, 3, 5),
        0x9c => entry(0x9c, Op::Shy, AddressingMode::AbsoluteX, 3, 5),
        0x9d => entry(0x9d, Op::Sta, AddressingMode::AbsoluteX, 3, 5),
        0x9e => entry(0x9e, Op::Shx, AddressingMode::AbsoluteY, 3, 5),
        _ => entry(0x9f, Op::AhxAy, AddressingMode::AbsoluteY, 3, 5),
    }
}

/// Row `0xa_` of the decode table.
pub open spec fn table_row_a(code: u8) -> OpCode {
    match code {
        0xa0 => entry(0xa0, Op::Ldy, AddressingMode::Immediate, 2, 2),
        0xa1 => entry(0xa1, Op::Lda, AddressingMode::IndirectX, 2, 6),
        0xa2 => entry(0xa2, Op::Ldx, AddressingMode::Immediate, 2, 2),
        0xa3 => entry(0xa3, Op::Lax, AddressingMode::IndirectX, 2, 6),
        0xa4 => entry(0xa4, Op::Ldy, AddressingMode::ZeroPage, 2, 3),
        0xa5 => entry(0xa5, Op::Lda, AddressingMode::ZeroPage, 2, 3),
        0xa6 => entry(0xa6, Op::Ldx, AddressingMode::ZeroPage, 2, 3),
        0xa7 => entry(0xa7, Op::Lax, AddressingMode::ZeroPage, 2, 3),
        0xa8 => entry(0xa8, Op::Tay, AddressingMode::NoneAddressing, 1, 2),
        0xa9 => entry(0xa9, Op::Lda, AddressingMode::Immediate, 2, 2),
        0xaa => entry(0xaa, Op::Tax, AddressingMode::NoneAddressing, 1, 2),
        0xab => entry(0xab, Op::Lxa, AddressingMode::Immediate, 2, 2),
        0xac => entry(0xac, Op::Ldy, AddressingMode::Absolute, 3, 4),
        0xad => entry(0xad, Op::Lda, AddressingMode::Absolute, 3, 4),
        0xae => entry(0xae, Op::Ldx, AddressingMode::Absolute, 3, 4),
        _ => entry(0xaf, Op::Lax, AddressingMode::Absolute, 3, 4),
    }
}

/// Row `0xb_` of the decode table.
pub open spec fn table_row_b(code: u8) -> OpCode {
    match code {
        0xb0 => entry(0xb0, Op::Bcs, AddressingMode::NoneAddressing, 2, 2),
        0xb1 => entry(0xb1, Op::Lda, AddressingMode::IndirectY, 2, 5),
        0xb2 => entry(0xb2, Op::Unop, AddressingMode::NoneAddressing, 1, 2),
        0xb3 => entry(0xb3, Op::Lax, AddressingMode::IndirectY, 2, 5),
        0xb4 => entry(0xb4, Op::Ldy, AddressingMode::ZeroPageX, 2, 4),
        0xb5 => entry(0xb5, Op::Lda, AddressingMode::ZeroPageX, 2, 4),
        0xb6 => entry(0xb6, Op::Ldx, AddressingMode::ZeroPageY, 2, 4),
        0xb7 => entry(0xb7, Op::Lax, AddressingMode::ZeroPageY, 2, 4),
        0xb8 => entry(0xb8, Op::Clv, AddressingMode::NoneAddressing, 1, 2),
        0xb9 => entry(0xb9, Op::Lda, AddressingMode::AbsoluteY, 3, 4),
        0xba => entry(0xba, Op::Tsx, AddressingMode::NoneAddressing, 1, 2),
        0xbb => entry(0xbb, Op::Las, AddressingMode::AbsoluteY, 3, 4),
        0xbc => entry(0xbc, Op::Ldy, AddressingMode::AbsoluteX, 3, 4),
        0xbd => entry(0xbd, Op::Lda, AddressingMode::AbsoluteX, 3, 4),
        0xbe => entry(0xbe, Op::Ldx, AddressingMode::AbsoluteY, 3, 4),
        _ => entry(0xbf, Op::Lax, AddressingMode::AbsoluteY, 3, 4),
    }
}

/// Row `0xc_` of the decode table.
pub open spec fn table_row_c(code: u8) -> OpCode {
    match code {
        0xc0 => entry(0xc0, Op::Cpy, AddressingMode::Immediate, 2, 2),
        0xc1 => entry(0xc1, Op::Cmp, AddressingMode::IndirectX, 2, 6),
        0xc2 => entry(0xc2, Op::Skb, AddressingMode::Immediate, 2, 2),
        0xc3 => entry(0xc3, Op::Dcp, AddressingMode::IndirectX, 2, 8),
        0xc4 => entry(0xc4, Op::Cpy, AddressingMode::ZeroPage, 2, 3),
        0xc5 => entry(0xc5, Op::Cmp, AddressingMode::ZeroPage, 2, 3),
        0xc6 => entry(0xc6, Op::Dec, AddressingMode::ZeroPage, 2, 5),
        0xc7 => entry(0xc7, Op::Dcp, AddressingMode::ZeroPage, 2, 5),
        0xc8 => entry(0xc8, Op::Iny, AddressingMode::NoneAddressing, 1, 2),
        0xc9 => entry(0xc9, Op::Cmp, AddressingMode::Immediate, 2, 2),
        0xca => entry(0xca, Op::Dex, AddressingMode::NoneAddressing, 1, 2),
        0xcb => entry(0xcb, Op::Axs, AddressingMode::Immediate, 2, 2),
        0xcc => entry(0xcc, Op::Cpy, AddressingMode::Absolute, 3, 4),
        0xcd => entry(0xcd, Op::Cmp, AddressingMode::Absolute, 3, 4),
        0xce => entry(0xce, Op::Dec, AddressingMode::Absolute, 3, 6),
        _ => entry(0xcf, Op::Dcp, AddressingMode::Absolute, 3, 6),
    }
}

/// Row `0xd_` of the decode table.
pub open spec fn table_row_d(code: u8) -> OpCode {
    match code {
        0xd0 => entry(0xd0, Op::Bne, AddressingMode::NoneAddressing, 2, 2),
        0xd1 => entry(0xd1, Op::Cmp, AddressingMode::IndirectY, 2, 5),
        0xd2 => entry(0xd2, Op::Unop, AddressingMode::NoneAddressing, 1, 2),
        0xd3 => entry(0xd3, Op::Dcp, AddressingMode::IndirectY, 2, 8),
        0xd4 => entry(0xd4, Op::NopRead, AddressingMode::ZeroPageX, 2, 4),
        0xd5 => entry(0xd5, Op::Cmp, AddressingMode::ZeroPageX, 2, 4),
        0xd6 => entry(0xd6, Op::Dec, AddressingMode::ZeroPageX, 2, 6),
        0xd7 => entry(0xd7, Op::Dcp, AddressingMode::ZeroPageX, 2, 6),
        0xd8 => entry(0xd8, Op::Cld, AddressingMode::NoneAddressing, 1, 2),
        0xd9 => entry(0xd9, Op::Cmp, AddressingMode::AbsoluteY, 3, 4),
        0xda => entry(0xda, Op::Unop, AddressingMode::NoneAddressing, 1, 2),
        0xdb => entry(0xdb, Op::Dcp, AddressingMode::AbsoluteY, 3, 7),
        0xdc => entry(0xdc, Op::NopRead, AddressingMode::AbsoluteX, 3, 4),
        0xdd => entry(0xdd, Op::Cmp, AddressingMode::AbsoluteX, 3, 4),
        0xde => entry(0xde, Op::Dec, AddressingMode::AbsoluteX, 3, 7),
        _ => entry(0xdf, Op::Dcp, AddressingMode::AbsoluteX, 3, 7),
    }
}

/// Row `0xe_` of the decode table.
pub open spec fn table_row_e(code: u8) -> OpCode {
    match code {
        0xe0 => entry(0xe0, Op::Cpx, AddressingMode::Immediate, 2, 2),
        0xe1 => entry(0xe1, Op::Sbc, AddressingMode::IndirectX, 2, 6),
        0xe2 => entry(0xe2, Op::Skb, AddressingMode::Immediate, 2, 2),
        0xe3 => entry(0xe3, Op::Isb, AddressingMode::IndirectX, 2, 8),
        0xe4 => entry(0xe4, Op::Cpx, AddressingMode::ZeroPage, 2, 3),
        0xe5 => entry(0xe5, Op::Sbc, AddressingMode::ZeroPage, 2, 3),
        0xe6 => entry(0xe6, Op::Inc, AddressingMode::ZeroPage, 2, 5),
        0xe7 => entry(0xe7, Op::Isb, AddressingMode::ZeroPage, 2, 5),
        0xe8 => entry(0xe8, Op::Inx, AddressingMode::NoneAddressing, 1, 2),
        0xe9 => entry(0xe9, Op::Sbc, AddressingMode::Immediate, 2, 2),
        0xea => entry(0xea, Op::Nop, AddressingMode::NoneAddressing, 1, 2),
        0xeb => entry(0xeb, Op::Usbc, AddressingMode::Immediate, 2, 2),
        0xec => entry(0xec, Op::Cpx, AddressingMode::Absolute, 3, 4),
        0xed => entry(0xed, Op::Sbc, AddressingMode::Absolute, 3, 4),
        0xee => entry(0xee, Op::Inc, AddressingMode::Absolute, 3, 6),
        _ => entry(0xef, Op::Isb, AddressingMode::Absolute, 3, 6),
    }
}

/// Row `0xf_` of the decode table.
pub open spec fn table_row_f(code: u8) -> OpCode {
    match code {
        0xf0 => entry(0xf0, Op::Beq, AddressingMode::NoneAddressing, 2, 2),
        0xf1 => entry(0xf1, Op::Sbc, AddressingMode::IndirectY, 2, 5),
        0xf2 => entry(0xf2, Op::Unop, AddressingMode::NoneAddressing, 1, 2),
        0xf3 => entry(0xf3, Op::Isb, AddressingMode::IndirectY, 2, 8),
        0xf4 => entry(0xf4, Op::NopRead, AddressingMode::ZeroPageX, 2, 4),
        0xf5 => entry(0xf5, Op::Sbc, AddressingMode::ZeroPageX, 2, 4),
        0xf6 => entry(0xf6, Op::Inc, AddressingMode::ZeroPageX, 2, 6),
        0xf7 => entry(0xf7, Op::Isb, AddressingMode::ZeroPageX, 2, 6),
        0xf8 => entry(0xf8, Op::Sed, AddressingMode::NoneAddressing, 1, 2),
        0xf9 => entry(0xf9, Op::Sbc, AddressingMode::AbsoluteY, 3, 4),
        0xfa => entry(0xfa, Op::Unop, AddressingMode::NoneAddressing, 1, 2),
        0xfb => entry(0xfb, Op::Isb, AddressingMode::AbsoluteY, 3, 7),
        0xfc => entry(0xfc, Op::NopRead, AddressingMode::AbsoluteX, 3, 4),
        0xfd => entry(0xfd, Op::Sbc, AddressingMode::AbsoluteX, 3, 4),
        0xfe => entry(0xfe, Op::Inc, AddressingMode::AbsoluteX, 3, 7),
        _ => entry(0xff, Op::Isb, AddressingMode::AbsoluteX, 3, 7),
    }
}

/// Every row of the decode table is one to three bytes long and costs two
/// to eight cycles before penalties.
pub proof fn lemma_table_bounds(code: u8)
    ensures
        1 <= opcode_table(code).len <= 3,
        2 <= opcode_table(code).cycles <= 8,
{
    reveal(opcode_table);
}

/// The decode table, by the high nibble of the opcode.
#[verifier::opaque]
pub open spec fn opcode_table(code: u8) -> OpCode {
    match code / 16 {
        0 => table_row_0(code),
        1 => table_row_1(code),
        2 => table_row_2(code),
        3 => table_row_3(code),
        4 => table_row_4(code),
        5 => table_row_5(code),
        6 => table_row_6(code),
        7 => table_row_7(code),
        8 => table_row_8(code),
        9 => table_row_9(code),
        10 => table_row_a(code),
        11 => table_row_b(code),
        12 => table_row_c(code),
        13 => table_row_d(code),
        14 => table_row_e(code),
        _ => table_row_f(code),
    }
}

fn decode_row_0(code: u8) -> (r: OpCode)
    requires
        code / 16 == 0,
    ensures
        r == opcode_table(code),
        1 <= r.len <= 3,
        2 <= r.cycles <= 8,
{
    reveal(opcode_table);
    match code {
        0x00 => make_entry(0x00, Op::Brk, AddressingMode::NoneAddressing, 1, 7),
        0x01 => make_entry(0x01, Op::Ora, AddressingMode::IndirectX, 2, 6),
        0x02 => make_entry(0x02, Op::Unop, AddressingMode::NoneAddressing, 1, 2),
        0x03 => make_entry(0x03, Op::Slo, AddressingMode::IndirectX, 2, 8),
        0x04 => make_entry(0x04, Op::NopRead, AddressingMode::ZeroPage, 2, 3),
        0x05 => make_entry(0x05, Op::Ora, AddressingMode::ZeroPage, 2, 3),
        0x06 => make_entry(0x06, Op::Asl, AddressingMode::ZeroPage, 2, 5),
        0x07 => make_entry(0x07, Op::Slo, AddressingMode::ZeroPage, 2, 5),
        0x08 => make_entry(0x08, Op::Php, AddressingMode::NoneAddressing, 1, 3),
        0x09 => make_entry(0x09, Op::Ora, AddressingMode::Immediate, 2, 2),
        0x0a => make_entry(0x0a, Op::AslA, AddressingMode::NoneAddressing, 1, 2),
        0x0b => make_entry(0x0b, Op::Anc, AddressingMode::Immediate, 2, 2),
        0x0c => make_entry(0x0c, Op::NopRead, AddressingMode::Absolute, 3, 4),
        0x0d => make_entry(0x0d, Op::Ora, AddressingMode::Absolute, 3, 4),
        0x0e => make_entry(0x0e, Op::Asl, AddressingMode::Absolute, 3, 6),
        _ => make_entry(0x0f, Op::Slo, AddressingMode::Absolute, 3, 6),
    }
}

fn decode_row_1(code: u8) -> (r: OpCode)
    requires
        code / 16 == 1,
    ensures
        r == opcode_table(code),
        1 <= r.len <= 3,
        2 <= r.cycles <= 8,
{
    reveal(opcode_table);
    match code {
        0x10 => make_entry(0x10, Op::Bpl, AddressingMode::NoneAddressing, 2, 2),
        0x11 => make_entry(0x11, Op::Ora, AddressingMode::IndirectY, 2, 5),
        0x12 => make_entry(0x12, Op::Unop, AddressingMode::NoneAddressing, 1, 2),
        0x13 => make_entry(0x13, Op::Slo, AddressingMode::IndirectY, 2, 8),
        0x14 => make_entry(0x14, Op::NopRead, AddressingMode::ZeroPageX, 2, 4),
        0x15 => make_entry(0x15, Op::Ora, AddressingMode::ZeroPageX, 2, 4),
        0x16 => make_entry(0x16, Op::Asl, AddressingMode::ZeroPageX, 2, 6),
        0x17 => make_entry(0x17, Op::Slo, AddressingMode::ZeroPageX, 2, 6),
        0x18 => make_entry(0x18, Op::Clc, AddressingMode::NoneAddressing, 1, 2),
        0x19 => make_entry(0x19, Op::Ora, AddressingMode::AbsoluteY, 3, 4),
        0x1a => make_entry(0x1a, Op::Unop, AddressingMode::NoneAddressing, 1, 2),
        0x1b => make_entry(0x1b, Op::Slo, AddressingMode::AbsoluteY, 3, 7),
        0x1c => make_entry(0x1c, Op::NopRead, AddressingMode::AbsoluteX, 3, 4),
        0x1d => make_entry(0x1d, Op::Ora, AddressingMode::AbsoluteX, 3, 4),
        0x1e => make_entry(0x1e, Op::Asl, AddressingMode::AbsoluteX, 3, 7),
        _ => make_entry(0x1f, Op::Slo, AddressingMode::AbsoluteX, 3, 7),
    }
}

fn decode_row_2(code: u8) -> (r: OpCode)
    requires
        code / 16 == 2,
    ensures
        r == opcode_table(code),
        1 <= r.len <= 3,
        2 <= r.cycles <= 8,
{
    reveal(opcode_table);
    match code {
        0x20 => make_entry(0x20, Op::Jsr, AddressingMode::NoneAddressing, 3, 6),
        0x21 => make_entry(0x21, Op::And, AddressingMode::IndirectX, 2, 6),
        0x22 => make_entry(0x22, Op::Unop, AddressingMode::NoneAddressing, 1, 2),
        0x23 => make_entry(0x23, Op::Rla, AddressingMode::IndirectX, 2, 8),
        0x24 => make_entry(0x24, Op::Bit, AddressingMode::ZeroPage, 2, 3),
        0x25 => make_entry(0x25, Op::And, AddressingMode::ZeroPage, 2, 3),
        0x26 => make_entry(0x26, Op::Rol, AddressingMode::ZeroPage, 2, 5),
        0x27 => make_entry(0x27, Op::Rla, AddressingMode::ZeroPage, 2, 5),
        0x28 => make_entry(0x28, Op::Plp, AddressingMode::NoneAddressing, 1, 4),
        0x29 => make_entry(0x29, Op::And, AddressingMode::Immediate, 2, 2),
        0x2a => make_entry(0x2a, Op::RolA, AddressingMode::NoneAddressing, 1, 2),
        0x2b => make_entry(0x2b, Op::Anc, AddressingMode::Immediate, 2, 2),
        0x2c => make_entry(0x2c, Op::Bit, AddressingMode::Absolute, 3, 4),
        0x2d => make_entry(0x2d, Op::And, AddressingMode::Absolute, 3, 4),
        0x2e => make_entry(0x2e, Op::Rol, AddressingMode::Absolute, 3, 6),
        _ => make_entry(0x2f, Op::Rla, AddressingMode::Absolute, 3, 6),
    }
}

fn decode_row_3(code: u8) -> (r: OpCode)
    requires
        code / 16 == 3,
    ensures
        r == opcode_table(code),
        1 <= r.len <= 3,
        2 <= r.cycles <= 8,
{
    reveal(opcode_table);
    match code {
        0x30 => make_entry(0x30, Op::Bmi, AddressingMode::NoneAddressing, 2, 2),
        0x31 => make_entry(0x31, Op::And, AddressingMode::IndirectY, 2, 5),
        0x32 => make_entry(0x32, Op::Unop, AddressingMode::NoneAddressing, 1, 2),
        0x33 => make_entry(0x33, Op::Rla, AddressingMode::IndirectY, 2, 8),
        0x34 => make_entry(0x34, Op::NopRead, AddressingMode::ZeroPageX, 2, 4),
        0x35 => make_entry(0x35, Op::And, AddressingMode::ZeroPageX, 2, 4),
        0x36 => make_entry(0x36, Op::Rol, AddressingMode::ZeroPageX, 2, 6),
        0x37 => make_entry(0x37, Op::Rla, AddressingMode::ZeroPageX, 2, 6),
        0x38 => make_entry(0x38, Op::Sec, AddressingMode::NoneAddressing, 1, 2),
        0x39 => make_entry(0x39, Op::And, AddressingMode::AbsoluteY, 3, 4),
        0x3a => make_entry(0x3a, Op::Unop, AddressingMode::NoneAddressing, 1, 2),
        0x3b => make_entry(0x3b, Op::Rla, AddressingMode::AbsoluteY, 3, 7),
        0x3c => make_entry(0x3c, Op::NopRead, AddressingMode::AbsoluteX, 3, 4),
        0x3d => make_entry(0x3d, Op::And, AddressingMode::AbsoluteX, 3, 4),
        0x3e => make_entry(0x3e, Op::Rol, AddressingMode::AbsoluteX, 3, 7),
        _ => make_entry(0x3f, Op::Rla, AddressingMode::AbsoluteX, 3, 7),
    }
}

fn decode_row_4(code: u8) -> (r: OpCode)
    requires
        code / 16 == 4,
    ensures
        r == opcode_table(code),
        1 <= r.len <= 3,
        2 <= r.cycles <= 8,
{
    reveal(opcode_table);
    match code {
        0x40 => make_entry(0x40, Op::Rti, AddressingMode::NoneAddressing, 1, 6),
        0x41 => make_entry(0x41, Op::Eor, AddressingMode::IndirectX, 2, 6),
        0x42 => make_entry(0x42, Op::Unop, AddressingMode::NoneAddressing, 1, 2),
        0x43 => make_entry(0x43, Op::Sre, AddressingMode::IndirectX, 2, 8),
        0x44 => make_entry(0x44, Op::NopRead, AddressingMode::ZeroPage, 2, 3),
        0x45 => make_entry(0x45, Op::Eor, AddressingMode::ZeroPage, 2, 3),
        0x46 => make_entry(0x46, Op::Lsr, AddressingMode::ZeroPage, 2, 5),
        0x47 => make_entry(0x47, Op::Sre, AddressingMode::ZeroPage, 2, 5),
        0x48 => make_entry(0x48, Op::Pha, AddressingMode::NoneAddressing, 1, 3),
        0x49 => make_entry(0x49, Op::Eor, AddressingMode::Immediate, 2, 2),
        0x4a => make_entry(0x4a, Op::LsrA, AddressingMode::NoneAddressing, 1, 2),
        0x4b => make_entry(0x4b, Op::Alr, AddressingMode::Immediate, 2, 2),
        0x4c => make_entry(0x4c, Op::JmpAbs, AddressingMode::NoneAddressing, 3, 3),
        0x4d => make_entry(0x4d, Op::Eor, AddressingMode::Absolute, 3, 4),
        0x4e => make_entry(0x4e, Op::Lsr, AddressingMode::Absolute, 3, 6),
        _ => make_entry(0x4f, Op::Sre, AddressingMode::Absolute, 3, 6),
    }
}

fn decode_row_5(code: u8) -> (r: OpCode)
    requires
        code / 16 == 5,
    ensures
        r == opcode_table(code),
        1 <= r.len <= 3,
        2 <= r.cycles <= 8,
{
    reveal(opcode_table);
    match code {
        0x50 => make_entry(0x50, Op::Bvc, AddressingMode::NoneAddressing, 2, 2),
        0x51 => make_entry(0x51, Op::Eor, AddressingMode::IndirectY, 2, 5),
        0x52 => make_entry(0x52, Op::Unop, AddressingMode::NoneAddressing, 1, 2),
        0x53 => make_entry(0x53, Op::Sre, AddressingMode::IndirectY, 2, 8),
        0x54 => make_entry(0x54, Op::NopRead, AddressingMode::ZeroPageX, 2, 4),
        0x55 => make_entry(0x55, Op::Eor, AddressingMode::ZeroPageX, 2, 4),
        0x56 => make_entry(0x56, Op::Lsr, AddressingMode::ZeroPageX, 2, 6),
        0x57 => make_entry(0x57, Op::Sre, AddressingMode::ZeroPageX, 2, 6),
        0x58 => make_entry(0x58, Op::Cli, AddressingMode::NoneAddressing, 1, 2),
        0x59 => make_entry(0x59, Op::Eor, AddressingMode::AbsoluteY, 3, 4),
        0x5a => make_entry(0x5a, Op::Unop, AddressingMode::NoneAddressing, 1, 2),
        0x5b => make_entry(0x5b, Op::Sre, AddressingMode::AbsoluteY, 3, 7),
        0x5c => make_entry(0x5c, Op::NopRead, AddressingMode::AbsoluteX, 3, 4),
        0x5d => make_entry(0x5d, Op::Eor, AddressingMode::AbsoluteX, 3, 4),
        0x5e => make_entry(0x5e, Op::Lsr, AddressingMode::AbsoluteX, 3, 7),
        _ => make_entry(0x5f, Op::Sre, AddressingMode::AbsoluteX, 3, 7),
    }
}

fn decode_row_6(code: u8) -> (r: OpCode)
    requires
        code / 16 == 6,
    ensures
        r == opcode_table(code),
        1 <= r.len <= 3,
        2 <= r.cycles <= 8,
{
    reveal(opcode_table);
    match code {
        0x60 => make_entry(0x60, Op::Rts, AddressingMode::NoneAddressing, 1, 6),
        0x61 => make_entry(0x61, Op::Adc, AddressingMode::IndirectX, 2, 6),
        0x62 => make_entry(0x62, Op::Unop, AddressingMode::NoneAddressing, 1, 2),
        0x63 => make_entry(0x63, Op::Rra, AddressingMode::IndirectX, 2, 8),
        0x64 => make_entry(0x64, Op::NopRead, AddressingMode::ZeroPage, 2, 3),
        0x65 => make_entry(0x65, Op::Adc, AddressingMode::ZeroPage, 2, 3),
        0x66 => make_entry(0x66, Op::Ror, AddressingMode::ZeroPage, 2, 5),
        0x67 => make_entry(0x67, Op::Rra, AddressingMode::ZeroPage, 2, 5),
        0x68 => make_entry(0x68, Op::Pla, AddressingMode::NoneAddressing, 1, 4),
        0x69 => make_entry(0x69, Op::Adc, AddressingMode::Immediate, 2, 2),
        0x6a => make_entry(0x6a, Op::RorA, AddressingMode::NoneAddressing, 1, 2),
        0x6b => make_entry(0x6b, Op::Arr, AddressingMode::Immediate, 2, 2),
        0x6c => make_entry(0x6c, Op::JmpInd, AddressingMode::NoneAddressing, 3, 5),
        0x6d => make_entry(0x6d, Op::Adc, AddressingMode::Absolute, 3, 4),
        0x6e => make_entry(0x6e, Op::Ror, AddressingMode::Absolute, 3, 6),
        _ => make_entry(0x6f, Op::Rra, AddressingMode::Absolute, 3, 6),
    }
}

fn decode_row_7(code: u8) -> (r: OpCode)
    requires
        code / 16 == 7,
    ensures
        r == opcode_table(code),
        1 <= r.len <= 3,
        2 <= r.cycles <= 8,
{
    reveal(opcode_table);
    match code {
        0x70 => make_entry(0x70, Op::Bvs, AddressingMode::NoneAddressing, 2, 2),
        0x71 => make_entry(0x71, Op::Adc, AddressingMode::IndirectY, 2, 5),
        0x72 => make_entry(0x72, Op::Unop, AddressingMode::NoneAddressing, 1, 2),
        0x73 => make_entry(0x73, Op::Rra, AddressingMode::IndirectY, 2, 8),
        0x74 => make_entry(0x74, Op::NopRead, AddressingMode::ZeroPageX, 2, 4),
        0x75 => make_entry(0x75, Op::Adc, AddressingMode::ZeroPageX, 2, 4),
        0x76 => make_entry(0x76, Op::Ror, AddressingMode::ZeroPageX, 2, 6),
        0x77 => make_entry(0x77, Op::Rra, AddressingMode::ZeroPageX, 2, 6),
        0x78 => make_entry(0x78, Op::Sei, AddressingMode::NoneAddressing, 1, 2),
        0x79 => make_entry(0x79, Op::Adc, AddressingMode::AbsoluteY, 3, 4),
        0x7a => make_entry(0x7a, Op::Unop, AddressingMode::NoneAddressing, 1, 2),
        0x7b => make_entry(0x7b, Op::Rra, AddressingMode::AbsoluteY, 3, 7),
        0x7c => make_entry(0x7c, Op::NopRead, AddressingMode::AbsoluteX, 3, 4),
        0x7d => make_entry(0x7d, Op::Adc, AddressingMode::AbsoluteX, 3, 4),
        0x7e => make_entry(0x7e, Op::Ror, AddressingMode::AbsoluteX, 3, 7),
        _ => make_entry(0x7f, Op::Rra, AddressingMode::AbsoluteX, 3, 7),
    }
}

fn decode_row_8(code: u8) -> (r: OpCode)
    requires
        code / 16 == 8,
    ensures
        r == opcode_table(code),
        1 <= r.len <= 3,
        2 <= r.cycles <= 8,
{
    reveal(opcode_table);
    match code {
        0x80 => make_entry(0x80, Op::Skb, AddressingMode::Immediate, 2, 2),
        0x81 => make_entry(0x81, Op::Sta, AddressingMode::IndirectX, 2, 6),
        0x82 => make_entry(0x82, Op::Skb, AddressingMode::Immediate, 2, 2),
        0x83 => make_entry(0x83, Op::Sax, AddressingMode::IndirectX, 2, 6),
        0x84 => make_entry(0x84, Op::Sty, AddressingMode::ZeroPage, 2, 3),
        0x85 => make_entry(0x85, Op::Sta, AddressingMode::ZeroPage, 2, 3),
        0x86 => make_entry(0x86, Op::Stx, AddressingMode::ZeroPage, 2, 3),
        0x87 => make_entry(0x87, Op::Sax, AddressingMode::ZeroPage, 2, 3),
        0x88 => make_entry(0x88, Op::Dey, AddressingMode::NoneAddressing, 1, 2),
        0x89 => make_entry(0x89, Op::Skb, AddressingMode::Immediate, 2, 2),
        0x8a => make_entry(0x8a, Op::Txa, AddressingMode::NoneAddressing, 1, 2),
        0x8b => make_entry(0x8b, Op::Xaa, AddressingMode::Immediate, 2, 2),
        0x8c => make_entry(0x8c, Op::Sty, AddressingMode::Absolute, 3, 4),
        0x8d => make_entry(0x8d, Op::Sta, AddressingMode::Absolute, 3, 4),
        0x8e => make_entry(0x8e, Op::Stx, AddressingMode::Absolute, 3, 4),
        _ => make_entry(0x8f, Op::Sax, AddressingMode::Absolute, 3, 4),
    }
}

fn decode_row_9(code: u8) -> (r: OpCode)
    requires
        code / 16 == 9,
    ensures
        r == opcode_table(code),
        1 <= r.len <= 3,
        2 <= r.cycles <= 8,
{
    reveal(opcode_table);
    match code {
        0x90 => make_entry(0x90, Op::Bcc, AddressingMode::NoneAddressing, 2, 2),
        0x91 => make_entry(0x91, Op::Sta, AddressingMode::IndirectY, 2, 6),
        0x92 => make_entry(0x92, Op::Unop, AddressingMode::NoneAddressing, 1, 2),
        0x93 => make_entry(0x93, Op::AhxIy, AddressingMode::IndirectY, 2, 6),
        0x94 => make_entry(0x94, Op::Sty, AddressingMode::ZeroPageX, 2, 4),
        0x95 => make_entry(0x95, Op::Sta, AddressingMode::ZeroPageX, 2, 4),
        0x96 => make_entry(0x96, Op::Stx, AddressingMode::ZeroPageY, 2, 4),
        0x97 => make_entry(0x97, Op::Sax, AddressingMode::ZeroPageY, 2, 4),
        0x98 => make_entry(0x98, Op::Tya, AddressingMode::NoneAddressing, 1, 2),
        0x99 => make_entry(0x99, Op::Sta, AddressingMode::AbsoluteY, 3, 5),
        0x9a => make_entry(0x9a, Op::Txs, AddressingMode::NoneAddressing, 1, 2),
        0x9b => make_entry(0x9b, Op::Tas, AddressingMode::AbsoluteY, 3, 5),
        0x9c => make_entry(0x9c, Op::Shy, AddressingMode::AbsoluteX, 3, 5),
        0x9d => make_entry(0x9d, Op::Sta, AddressingMode::AbsoluteX, 3, 5),
        0x9e => make_entry(0x9e, Op::Shx, AddressingMode::AbsoluteY, 3, 5),
        _ => make_entry(0x9f, Op::AhxAy, AddressingMode::AbsoluteY, 3, 5),
    }
}

fn decode_row_a(code: u8) -> (r: OpCode)
    requires
        code / 16 == 10,
    ensures
        r == opcode_table(code),
        1 <= r.len <= 3,
        2 <= r.cycles <= 8,
{
    reveal(opcode_table);
    match code {
        0xa0 => make_entry(0xa0, Op::Ldy, AddressingMode::Immediate, 2, 2),
        0xa1 => make_entry(0xa1, Op::Lda, AddressingMode::IndirectX, 2, 6),
        0xa2 => make_entry(0xa2, Op::Ldx, AddressingMode::Immediate, 2, 2),
        0xa3 => make_entry(0xa3, Op::Lax, AddressingMode::IndirectX, 2, 6),
        0xa4 => make_entry(0xa4, Op::Ldy, AddressingMode::ZeroPage, 2, 3),
        0xa5 => make_entry(0xa5, Op::Lda, AddressingMode::ZeroPage, 2, 3),
        0xa6 => make_entry(0xa6, Op::Ldx, AddressingMode::ZeroPage, 2, 3),
        0xa7 => make_entry(0xa7, Op::Lax, AddressingMode::ZeroPage, 2, 3),
        0xa8 => make_entry(0xa8, Op::Tay, AddressingMode::NoneAddressing, 1, 2),
        0xa9 => make_entry(0xa9, Op::Lda, AddressingMode::Immediate, 2, 2),
        0xaa => make_entry(0xaa, Op::Tax, AddressingMode::NoneAddressing, 1, 2),
        0xab => make_entry(0xab, Op::Lxa, AddressingMode::Immediate, 2, 2),
        0xac => make_entry(0xac, Op::Ldy, AddressingMode::Absolute, 3, 4),
        0xad => make_entry(0xad, Op::Lda, AddressingMode::Absolute, 3, 4),
        0xae => make_entry(0xae, Op::Ldx, AddressingMode::Absolute, 3, 4),
        _ => make_entry(0xaf, Op::Lax, AddressingMode::Absolute, 3, 4),
    }
}

fn decode_row_b(code: u8) -> (r: OpCode)
    requires
        code / 16 == 11,
    ensures
        r == opcode_table(code),
        1 <= r.len <= 3,
        2 <= r.cycles <= 8,
{
    reveal(opcode_table);
    match code {
        0xb0 => make_entry(0xb0, Op::Bcs, AddressingMode::NoneAddressing, 2, 2),
        0xb1 => make_entry(0xb1, Op::Lda, AddressingMode::IndirectY, 2, 5),
        0xb2 => make_entry(0xb2, Op::Unop, AddressingMode::NoneAddressing, 1, 2),
        0xb3 => make_entry(0xb3, Op::Lax, AddressingMode::IndirectY, 2, 5),
        0xb4 => make_entry(0xb4, Op::Ldy, AddressingMode::ZeroPageX, 2, 4),
        0xb5 => make_entry(0xb5, Op::Lda, AddressingMode::ZeroPageX, 2, 4),
        0xb6 => make_entry(0xb6, Op::Ldx, AddressingMode::ZeroPageY, 2, 4),
        0xb7 => make_entry(0xb7, Op::Lax, AddressingMode::ZeroPageY, 2, 4),
        0xb8 => make_entry(0xb8, Op::Clv, AddressingMode::NoneAddressing, 1, 2),
        0xb9 => make_entry(0xb9, Op::Lda, AddressingMode::AbsoluteY, 3, 4),
        0xba => make_entry(0xba, Op::Tsx, AddressingMode::NoneAddressing, 1, 2),
        0xbb => make_entry(0xbb, Op::Las, AddressingMode::AbsoluteY, 3, 4),
        0xbc => make_entry(0xbc, Op::Ldy, AddressingMode::AbsoluteX, 3, 4),
        0xbd => make_entry(0xbd, Op::Lda, AddressingMode::AbsoluteX, 3, 4),
        0xbe => make_entry(0xbe, Op::Ldx, AddressingMode::AbsoluteY, 3, 4),
        _ => make_entry(0xbf, Op::Lax, AddressingMode::AbsoluteY, 3, 4),
    }
}

fn decode_row_c(code: u8) -> (r: OpCode)
    requires
        code / 16 == 12,
    ensures
        r == opcode_table(code),
        1 <= r.len <= 3,
        2 <= r.cycles <= 8,
{
    reveal(opcode_table);
    match code {
        0xc0 => make_entry(0xc0, Op::Cpy, AddressingMode::Immediate, 2, 2),
        0xc1 => make_entry(0xc1, Op::Cmp, AddressingMode::IndirectX, 2, 6),
        0xc2 => make_entry(0xc2, Op::Skb, AddressingMode::Immediate, 2, 2),
        0xc3 => make_entry(0xc3, Op::Dcp, AddressingMode::IndirectX, 2, 8),
        0xc4 => make_entry(0xc4, Op::Cpy, AddressingMode::ZeroPage, 2, 3),
        0xc5 => make_entry(0xc5, Op::Cmp, AddressingMode::ZeroPage, 2, 3),
        0xc6 => make_entry(0xc6, Op::Dec, AddressingMode::ZeroPage, 2, 5),
        0xc7 => make_entry(0xc7, Op::Dcp, AddressingMode::ZeroPage, 2, 5),
        0xc8 => make_entry(0xc8, Op::Iny, AddressingMode::NoneAddressing, 1, 2),
        0xc9 => make_entry(0xc9, Op::Cmp, AddressingMode::Immediate, 2, 2),
        0xca => make_entry(0xca, Op::Dex, AddressingMode::NoneAddressing, 1, 2),
        0xcb => make_entry(0xcb, Op::Axs, AddressingMode::Immediate, 2, 2),
        0xcc => make_entry(0xcc, Op::Cpy, AddressingMode::Absolute, 3, 4),
        0xcd => make_entry(0xcd, Op::Cmp, AddressingMode::Absolute, 3, 4),
        0xce => make_entry(0xce, Op::Dec, AddressingMode::Absolute, 3, 6),
        _ => make_entry(0xcf, Op::Dcp, AddressingMode::Absolute, 3, 6),
    }
}

fn decode_row_d(code: u8) -> (r: OpCode)
    requires
        code / 16 == 13,
    ensures
        r == opcode_table(code),
        1 <= r.len <= 3,
        2 <= r.cycles <= 8,
{
    reveal(opcode_table);
    match code {
        0xd0 => make_entry(0xd0, Op::Bne, AddressingMode::NoneAddressing, 2, 2),
        0xd1 => make_entry(0xd1, Op::Cmp, AddressingMode::IndirectY, 2, 5),
        0xd2 => make_entry(0xd2, Op::Unop, AddressingMode::NoneAddressing, 1, 2),
        0xd3 => make_entry(0xd3, Op::Dcp, AddressingMode::IndirectY, 2, 8),
        0xd4 => make_entry(0xd4, Op::NopRead, AddressingMode::ZeroPageX, 2, 4),
        0xd5 => make_entry(0xd5, Op::Cmp, AddressingMode::ZeroPageX, 2, 4),
        0xd6 => make_entry(0xd6, Op::Dec, AddressingMode::ZeroPageX, 2, 6),
        0xd7 => make_entry(0xd7, Op::Dcp, AddressingMode::ZeroPageX, 2, 6),
        0xd8 => make_entry(0xd8, Op::Cld, AddressingMode::NoneAddressing, 1, 2),
        0xd9 => make_entry(0xd9, Op::Cmp, AddressingMode::AbsoluteY, 3, 4),
        0xda => make_entry(0xda, Op::Unop, AddressingMode::NoneAddressing, 1, 2),
        0xdb => make_entry(0xdb, Op::Dcp, AddressingMode::AbsoluteY, 3, 7),
        0xdc => make_entry(0xdc, Op::NopRead, AddressingMode::AbsoluteX, 3, 4),
        0xdd => make_entry(0xdd, Op::Cmp, AddressingMode::AbsoluteX, 3, 4),
        0xde => make_entry(0xde, Op::Dec, AddressingMode::AbsoluteX, 3, 7),
        _ => make_entry(0xdf, Op::Dcp, AddressingMode::AbsoluteX, 3, 7),
    }
}

fn decode_row_e(code: u8) -> (r: OpCode)
    requires
        code / 16 == 14,
    ensures
        r == opcode_table(code),
        1 <= r.len <= 3,
        2 <= r.cycles <= 8,
{
    reveal(opcode_table);
    match code {
        0xe0 => make_entry(0xe0, Op::Cpx, AddressingMode::Immediate, 2, 2),
        0xe1 => make_entry(0xe1, Op::Sbc, AddressingMode::IndirectX, 2, 6),
        0xe2 => make_entry(0xe2, Op::Skb, AddressingMode::Immediate, 2, 2),
        0xe3 => make_entry(0xe3, Op::Isb, AddressingMode::IndirectX, 2, 8),
        0xe4 => make_entry(0xe4, Op::Cpx, AddressingMode::ZeroPage, 2, 3),
        0xe5 => make_entry(0xe5, Op::Sbc, AddressingMode::ZeroPage, 2, 3),
        0xe6 => make_entry(0xe6, Op::Inc, AddressingMode::ZeroPage, 2, 5),
        0xe7 => make_entry(0xe7, Op::Isb, AddressingMode::ZeroPage, 2, 5),
        0xe8 => make_entry(0xe8, Op::Inx, AddressingMode::NoneAddressing, 1, 2),
        0xe9 => make_entry(0xe9, Op::Sbc, AddressingMode::Immediate, 2, 2),
        0xea => make_entry(0xea, Op::Nop, AddressingMode::NoneAddressing, 1, 2),
        0xeb => make_entry(0xeb, Op::Usbc, AddressingMode::Immediate, 2, 2),
        0xec => make_entry(0xec, Op::Cpx, AddressingMode::Absolute, 3, 4),
        0xed => make_entry(0xed, Op::Sbc, AddressingMode::Absolute, 3, 4),
        0xee => make_entry(0xee, Op::Inc, AddressingMode::Absolute, 3, 6),
        _ => make_entry(0xef, Op::Isb, AddressingMode::Absolute, 3, 6),
    }
}

fn decode_row_f(code: u8) -> (r: OpCode)
    requires
        code / 16 == 15,
    ensures
        r == opcode_table(code),
        1 <= r.len <= 3,
        2 <= r.cycles <= 8,
{
    reveal(opcode_table);
    match code {
        0xf0 => make_entry(0xf0, Op::Beq, AddressingMode::NoneAddressing, 2, 2),
        0xf1 => make_entry(0xf1, Op::Sbc, AddressingMode::IndirectY, 2, 5),
        0xf2 => make_entry(0xf2, Op::Unop, AddressingMode::NoneAddressing, 1, 2),
        0xf3 => make_entry(0xf3, Op::Isb, AddressingMode::IndirectY, 2, 8),
        0xf4 => make_entry(0xf4, Op::NopRead, AddressingMode::ZeroPageX, 2, 4),
        0xf5 => make_entry(0xf5, Op::Sbc, AddressingMode::ZeroPageX, 2, 4),
        0xf6 => make_entry(0xf6, Op::Inc, AddressingMode::ZeroPageX, 2, 6),
        0xf7 => make_entry(0xf7, Op::Isb, AddressingMode::ZeroPageX, 2, 6),
        0xf8 => make_entry(0xf8, Op::Sed, AddressingMode::NoneAddressing, 1, 2),
        0xf9 => make_entry(0xf9, Op::Sbc, AddressingMode::AbsoluteY, 3, 4),
        0xfa => make_entry(0xfa, Op::Unop, AddressingMode::NoneAddressing, 1, 2),
        0xfb => make_entry(0xfb, Op::Isb, AddressingMode::AbsoluteY, 3, 7),
        0xfc => make_entry(0xfc, Op::NopRead, AddressingMode::AbsoluteX, 3, 4),
        0xfd => make_entry(0xfd, Op::Sbc, AddressingMode::AbsoluteX, 3, 4),
        0xfe => make_entry(0xfe, Op::Inc, AddressingMode::AbsoluteX, 3, 7),
        _ => make_entry(0xff, Op::Isb, AddressingMode::AbsoluteX, 3, 7),
    }
}

/// Looks `code` up in the decode table.
pub fn decode(code: u8) -> (r: OpCode)
    ensures
        r == opcode_table(code),
        1 <= r.len <= 3,
        2 <= r.cycles <= 8,
{
    match code / 16 {
        0 => decode_row_0(code),
        1 => decode_row_1(code),
        2 => decode_row_2(code),
        3 => decode_row_3(code),
        4 => decode_row_4(code),
        5 => decode_row_5(code),
        6 => decode_row_6(code),
        7 => decode_row_7(code),
        8 => decode_row_8(code),
        9 => decode_row_9(code),
        10 => decode_row_a(code),
        11 => decode_row_b(code),
        12 => decode_row_c(code),
        13 => decode_row_d(code),
        14 => decode_row_e(code),
        _ => decode_row_f(code),
    }
}

} // verus!
