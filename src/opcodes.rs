use vstd::prelude::*;

verus! {

/// The rule by which an instruction finds its operand.
#[derive(Clone, Copy, Debug, PartialEq, Eq, Structural)]
pub enum AddressingMode {
    Implied,
    Accumulator,
    Immediate,
    ZeroPage,
    ZeroPageX,
    ZeroPageY,
    Absolute,
    AbsoluteX,
    AbsoluteY,
    Indirect,
    IndirectX,
    IndirectY,
    Relative,
}

/// The instruction names of the 6502's official instruction set.
#[derive(Clone, Copy, Debug, PartialEq, Eq, Structural)]
pub enum Mnemonic {
    Adc,
    And,
    Asl,
    Bcc,
    Bcs,
    Beq,
    Bit,
    Bmi,
    Bne,
    Bpl,
    Brk,
    Bvc,
    Bvs,
    Clc,
    Cld,
    Cli,
    Clv,
    Cmp,
    Cpx,
    Cpy,
    Dec,
    Dex,
    Dey,
    Eor,
    Inc,
    Inx,
    Iny,
    Jmp,
    Jsr,
    Lda,
    Ldx,
    Ldy,
    Lsr,
    Nop,
    Ora,
    Pha,
    Php,
    Pla,
    Plp,
    Rol,
    Ror,
    Rti,
    Rts,
    Sbc,
    Sec,
    Sed,
    Sei,
    Sta,
    Stx,
    Sty,
    Tax,
    Tay,
    Tsx,
    Txa,
    Txs,
    Tya,
}

/// One row of the opcode table.
#[derive(Clone, Copy, Debug, PartialEq, Eq, Structural)]
pub struct OpCode {
    pub code: u8,
    pub mnemonic: Mnemonic,
    pub len: u8,
    pub cycles: u8,
    pub mode: AddressingMode,
}

/// The opcode table: the record of each documented opcode byte, `None` for the others.
pub open spec fn opcode_of(code: u8) -> Option<OpCode> {
    match code {
        0x00 => Some(OpCode { code: 0x00, mnemonic: Mnemonic::Brk, len: 1, cycles: 7, mode: AddressingMode::Implied }),
        0x01 => Some(OpCode { code: 0x01, mnemonic: Mnemonic::Ora, len: 2, cycles: 6, mode: AddressingMode::IndirectX }),
        0x05 => Some(OpCode { code: 0x05, mnemonic: Mnemonic::Ora, len: 2, cycles: 3, mode: AddressingMode::ZeroPage }),
        0x06 => Some(OpCode { code: 0x06, mnemonic: Mnemonic::Asl, len: 2, cycles: 5, mode: AddressingMode::ZeroPage }),
        0x08 => Some(OpCode { code: 0x08, mnemonic: Mnemonic::Php, len: 1, cycles: 3, mode: AddressingMode::Implied }),
        0x09 => Some(OpCode { code: 0x09, mnemonic: Mnemonic::Ora, len: 2, cycles: 2, mode: AddressingMode::Immediate }),
        0x0A => Some(OpCode { code: 0x0A, mnemonic: Mnemonic::Asl, len: 1, cycles: 2, mode: AddressingMode::Accumulator }),
        0x0D => Some(OpCode { code: 0x0D, mnemonic: Mnemonic::Ora, len: 3, cycles: 4, mode: AddressingMode::Absolute }),
        0x0E => Some(OpCode { code: 0x0E, mnemonic: Mnemonic::Asl, len: 3, cycles: 6, mode: AddressingMode::Absolute }),
        0x10 => Some(OpCode { code: 0x10, mnemonic: Mnemonic::Bpl, len: 2, cycles: 2, mode: AddressingMode::Relative }),
        0x11 => Some(OpCode { code: 0x11, mnemonic: Mnemonic::Ora, len: 2, cycles: 5, mode: AddressingMode::IndirectY }),
        0x15 => Some(OpCode { code: 0x15, mnemonic: Mnemonic::Ora, len: 2, cycles: 4, mode: AddressingMode::ZeroPageX }),
        0x16 => Some(OpCode { code: 0x16, mnemonic: Mnemonic::Asl, len: 2, cycles: 6, mode: AddressingMode::ZeroPageX }),
        0x18 => Some(OpCode { code: 0x18, mnemonic: Mnemonic::Clc, len: 1, cycles: 2, mode: AddressingMode::Implied }),
        0x19 => Some(OpCode { code: 0x19, mnemonic: Mnemonic::Ora, len: 3, cycles: 4, mode: AddressingMode::AbsoluteY }),
        0x1D => Some(OpCode { code: 0x1D, mnemonic: Mnemonic::Ora, len: 3, cycles: 4, mode: AddressingMode::AbsoluteX }),
        0x1E => Some(OpCode { code: 0x1E, mnemonic: Mnemonic::Asl, len: 3, cycles: 7, mode: AddressingMode::AbsoluteX }),
        0x20 => Some(OpCode { code: 0x20, mnemonic: Mnemonic::Jsr, len: 3, cycles: 6, mode: AddressingMode::Absolute }),
        0x21 => Some(OpCode { code: 0x21, mnemonic: Mnemonic::And, len: 2, cycles: 6, mode: AddressingMode::IndirectX }),
        0x24 => Some(OpCode { code: 0x24, mnemonic: Mnemonic::Bit, len: 2, cycles: 3, mode: AddressingMode::ZeroPage }),
        0x25 => Some(OpCode { code: 0x25, mnemonic: Mnemonic::And, len: 2, cycles: 3, mode: AddressingMode::ZeroPage }),
        0x26 => Some(OpCode { code: 0x26, mnemonic: Mnemonic::Rol, len: 2, cycles: 5, mode: AddressingMode::ZeroPage }),
        0x28 => Some(OpCode { code: 0x28, mnemonic: Mnemonic::Plp, len: 1, cycles: 4, mode: AddressingMode::Implied }),
        0x29 => Some(OpCode { code: 0x29, mnemonic: Mnemonic::And, len: 2, cycles: 2, mode: AddressingMode::Immediate }),
        0x2A => Some(OpCode { code: 0x2A, mnemonic: Mnemonic::Rol, len: 1, cycles: 2, mode: AddressingMode::Accumulator }),
        0x2C => Some(OpCode { code: 0x2C, mnemonic: Mnemonic::Bit, len: 3, cycles: 4, mode: AddressingMode::Absolute }),
        0x2D => Some(OpCode { code: 0x2D, mnemonic: Mnemonic::And, len: 3, cycles: 4, mode: AddressingMode::Absolute }),
        0x2E => Some(OpCode { code: 0x2E, mnemonic: Mnemonic::Rol, len: 3, cycles: 6, mode: AddressingMode::Absolute }),
        0x30 => Some(OpCode { code: 0x30, mnemonic: Mnemonic::Bmi, len: 2, cycles: 2, mode: AddressingMode::Relative }),
        0x31 => Some(OpCode { code: 0x31, mnemonic: Mnemonic::And, len: 2, cycles: 5, mode: AddressingMode::IndirectY }),
        0x35 => Some(OpCode { code: 0x35, mnemonic: Mnemonic::And, len: 2, cycles: 4, mode: AddressingMode::ZeroPageX }),
        0x36 => Some(OpCode { code: 0x36, mnemonic: Mnemonic::Rol, len: 2, cycles: 6, mode: AddressingMode::ZeroPageX }),
        0x38 => Some(OpCode { code: 0x38, mnemonic: Mnemonic::Sec, len: 1, cycles: 2, mode: AddressingMode::Implied }),
        0x39 => Some(OpCode { code: 0x39, mnemonic: Mnemonic::And, len: 3, cycles: 4, mode: AddressingMode::AbsoluteY }),
        0x3D => Some(OpCode { code: 0x3D, mnemonic: Mnemonic::And, len: 3, cycles: 4, mode: AddressingMode::AbsoluteX }),
        0x3E => Some(OpCode { code: 0x3E, mnemonic: Mnemonic::Rol, len: 3, cycles: 7, mode: AddressingMode::AbsoluteX }),
        0x40 => Some(OpCode { code: 0x40, mnemonic: Mnemonic::Rti, len: 1, cycles: 6, mode: AddressingMode::Implied }),
        0x41 => Some(OpCode { code: 0x41, mnemonic: Mnemonic::Eor, len: 2, cycles: 6, mode: AddressingMode::IndirectX }),
        0x45 => Some(OpCode { code: 0x45, mnemonic: Mnemonic::Eor, len: 2, cycles: 3, mode: AddressingMode::ZeroPage }),
        0x46 => Some(OpCode { code: 0x46, mnemonic: Mnemonic::Lsr, len: 2, cycles: 5, mode: AddressingMode::ZeroPage }),
        0x48 => Some(OpCode { code: 0x48, mnemonic: Mnemonic::Pha, len: 1, cycles: 3, mode: AddressingMode::Implied }),
        0x49 => Some(OpCode { code: 0x49, mnemonic: Mnemonic::Eor, len: 2, cycles: 2, mode: AddressingMode::Immediate }),
        0x4A => Some(OpCode { code: 0x4A, mnemonic: Mnemonic::Lsr, len: 1, cycles: 2, mode: AddressingMode::Accumulator }),
        0x4C => Some(OpCode { code: 0x4C, mnemonic: Mnemonic::Jmp, len: 3, cycles: 3, mode: AddressingMode::Absolute }),
        0x4D => Some(OpCode { code: 0x4D, mnemonic: Mnemonic::Eor, len: 3, cycles: 4, mode: AddressingMode::Absolute }),
        0x4E => Some(OpCode { code: 0x4E, mnemonic: Mnemonic::Lsr, len: 3, cycles: 6, mode: AddressingMode::Absolute }),
        0x50 => Some(OpCode { code: 0x50, mnemonic: Mnemonic::Bvc, len: 2, cycles: 2, mode: AddressingMode::Relative }),
        0x51 => Some(OpCode { code: 0x51, mnemonic: Mnemonic::Eor, len: 2, cycles: 5, mode: AddressingMode::IndirectY }),
        0x55 => Some(OpCode { code: 0x55, mnemonic: Mnemonic::Eor, len: 2, cycles: 4, mode: AddressingMode::ZeroPageX }),
        0x56 => Some(OpCode { code: 0x56, mnemonic: Mnemonic::Lsr, len: 2, cycles: 6, mode: AddressingMode::ZeroPageX }),
        0x58 => Some(OpCode { code: 0x58, mnemonic: Mnemonic::Cli, len: 1, cycles: 2, mode: AddressingMode::Implied }),
        0x59 => Some(OpCode { code: 0x59, mnemonic: Mnemonic::Eor, len: 3, cycles: 4, mode: AddressingMode::AbsoluteY }),
        0x5D => Some(OpCode { code: 0x5D, mnemonic: Mnemonic::Eor, len: 3, cycles: 4, mode: AddressingMode::AbsoluteX }),
        0x5E => Some(OpCode { code: 0x5E, mnemonic: Mnemonic::Lsr, len: 3, cycles: 7, mode: AddressingMode::AbsoluteX }),
        0x60 => Some(OpCode { code: 0x60, mnemonic: Mnemonic::Rts, len: 1, cycles: 6, mode: AddressingMode::Implied }),
        0x61 => Some(OpCode { code: 0x61, mnemonic: Mnemonic::Adc, len: 2, cycles: 6, mode: AddressingMode::IndirectX }),
        0x65 => Some(OpCode { code: 0x65, mnemonic: Mnemonic::Adc, len: 2, cycles: 3, mode: AddressingMode::ZeroPage }),
        0x66 => Some(OpCode { code: 0x66, mnemonic: Mnemonic::Ror, len: 2, cycles: 5, mode: AddressingMode::ZeroPage }),
        0x68 => Some(OpCode { code: 0x68, mnemonic: Mnemonic::Pla, len: 1, cycles: 4, mode: AddressingMode::Implied }),
        0x69 => Some(OpCode { code: 0x69, mnemonic: Mnemonic::Adc, len: 2, cycles: 2, mode: AddressingMode::Immediate }),
        0x6A => Some(OpCode { code: 0x6A, mnemonic: Mnemonic::Ror, len: 1, cycles: 2, mode: AddressingMode::Accumulator }),
        0x6C => Some(OpCode { code: 0x6C, mnemonic: Mnemonic::Jmp, len: 3, cycles: 5, mode: AddressingMode::Indirect }),
        0x6D => Some(OpCode { code: 0x6D, mnemonic: Mnemonic::Adc, len: 3, cycles: 4, mode: AddressingMode::Absolute }),
        0x6E => Some(OpCode { code: 0x6E, mnemonic: Mnemonic::Ror, len: 3, cycles: 6, mode: AddressingMode::Absolute }),
        0x70 => Some(OpCode { code: 0x70, mnemonic: Mnemonic::Bvs, len: 2, cycles: 2, mode: AddressingMode::Relative }),
        0x71 => Some(OpCode { code: 0x71, mnemonic: Mnemonic::Adc, len: 2, cycles: 5, mode: AddressingMode::IndirectY }),
        0x75 => Some(OpCode { code: 0x75, mnemonic: Mnemonic::Adc, len: 2, cycles: 4, mode: AddressingMode::ZeroPageX }),
        0x76 => Some(OpCode { code: 0x76, mnemonic: Mnemonic::Ror, len: 2, cycles: 6, mode: AddressingMode::ZeroPageX }),
        0x78 => Some(OpCode { code: 0x78, mnemonic: Mnemonic::Sei, len: 1, cycles: 2, mode: AddressingMode::Implied }),
        0x79 => Some(OpCode { code: 0x79, mnemonic: Mnemonic::Adc, len: 3, cycles: 4, mode: AddressingMode::AbsoluteY }),
        0x7D => Some(OpCode { code: 0x7D, mnemonic: Mnemonic::Adc, len: 3, cycles: 4, mode: AddressingMode::AbsoluteX }),
        0x7E => Some(OpCode { code: 0x7E, mnemonic: Mnemonic::Ror, len: 3, cycles: 7, mode: AddressingMode::AbsoluteX }),
        0x81 => Some(OpCode { code: 0x81, mnemonic: Mnemonic::Sta, len: 2, cycles: 6, mode: AddressingMode::IndirectX }),
        0x84 => Some(OpCode { code: 0x84, mnemonic: Mnemonic::Sty, len: 2, cycles: 3, mode: AddressingMode::ZeroPage }),
        0x85 => Some(OpCode { code: 0x85, mnemonic: Mnemonic::Sta, len: 2, cycles: 3, mode: AddressingMode::ZeroPage }),
        0x86 => Some(OpCode { code: 0x86, mnemonic: Mnemonic::Stx, len: 2, cycles: 3, mode: AddressingMode::ZeroPage }),
        0x88 => Some(OpCode { code: 0x88, mnemonic: Mnemonic::Dey, len: 1, cycles: 2, mode: AddressingMode::Implied }),
        0x8A => Some(OpCode { code: 0x8A, mnemonic: Mnemonic::Txa, len: 1, cycles: 2, mode: AddressingMode::Implied }),
        0x8C => Some(OpCode { code: 0x8C, mnemonic: Mnemonic::Sty, len: 3, cycles: 4, mode: AddressingMode::Absolute }),
        0x8D => Some(OpCode { code: 0x8D, mnemonic: Mnemonic::Sta, len: 3, cycles: 4, mode: AddressingMode::Absolute }),
        0x8E => Some(OpCode { code: 0x8E, mnemonic: Mnemonic::Stx, len: 3, cycles: 4, mode: AddressingMode::Absolute }),
        0x90 => Some(OpCode { code: 0x90, mnemonic: Mnemonic::Bcc, len: 2, cycles: 2, mode: AddressingMode::Relative }),
        0x91 => Some(OpCode { code: 0x91, mnemonic: Mnemonic::Sta, len: 2, cycles: 6, mode: AddressingMode::IndirectY }),
        0x94 => Some(OpCode { code: 0x94, mnemonic: Mnemonic::Sty, len: 2, cycles: 4, mode: AddressingMode::ZeroPageX }),
        0x95 => Some(OpCode { code: 0x95, mnemonic: Mnemonic::Sta, len: 2, cycles: 4, mode: AddressingMode::ZeroPageX }),
        0x96 => Some(OpCode { code: 0x96, mnemonic: Mnemonic::Stx, len: 2, cycles: 4, mode: AddressingMode::ZeroPageY }),
        0x98 => Some(OpCode { code: 0x98, mnemonic: Mnemonic::Tya, len: 1, cycles: 2, mode: AddressingMode::Implied }),
        0x99 => Some(OpCode { code: 0x99, mnemonic: Mnemonic::Sta, len: 3, cycles: 5, mode: AddressingMode::AbsoluteY }),
        0x9A => Some(OpCode { code: 0x9A, mnemonic: Mnemonic::Txs, len: 1, cycles: 2, mode: AddressingMode::Implied }),
        0x9D => Some(OpCode { code: 0x9D, mnemonic: Mnemonic::Sta, len: 3, cycles: 5, mode: AddressingMode::AbsoluteX }),
        0xA0 => Some(OpCode { code: 0xA0, mnemonic: Mnemonic::Ldy, len: 2, cycles: 2, mode: AddressingMode::Immediate }),
        0xA1 => Some(OpCode { code: 0xA1, mnemonic: Mnemonic::Lda, len: 2, cycles: 6, mode: AddressingMode::IndirectX }),
        0xA2 => Some(OpCode { code: 0xA2, mnemonic: Mnemonic::Ldx, len: 2, cycles: 2, mode: AddressingMode::Immediate }),
        0xA4 => Some(OpCode { code: 0xA4, mnemonic: Mnemonic::Ldy, len: 2, cycles: 3, mode: AddressingMode::ZeroPage }),
        0xA5 => Some(OpCode { code: 0xA5, mnemonic: Mnemonic::Lda, len: 2, cycles: 3, mode: AddressingMode::ZeroPage }),
        0xA6 => Some(OpCode { code: 0xA6, mnemonic: Mnemonic::Ldx, len: 2, cycles: 3, mode: AddressingMode::ZeroPage }),
        0xA8 => Some(OpCode { code: 0xA8, mnemonic: Mnemonic::Tay, len: 1, cycles: 2, mode: AddressingMode::Implied }),
        0xA9 => Some(OpCode { code: 0xA9, mnemonic: Mnemonic::Lda, len: 2, cycles: 2, mode: AddressingMode::Immediate }),
        0xAA => Some(OpCode { code: 0xAA, mnemonic: Mnemonic::Tax, len: 1, cycles: 2, mode: AddressingMode::Implied }),
        0xAC => Some(OpCode { code: 0xAC, mnemonic: Mnemonic::Ldy, len: 3, cycles: 4, mode: AddressingMode::Absolute }),
        0xAD => Some(OpCode { code: 0xAD, mnemonic: Mnemonic::Lda, len: 3, cycles: 4, mode: AddressingMode::Absolute }),
        0xAE => Some(OpCode { code: 0xAE, mnemonic: Mnemonic::Ldx, len: 3, cycles: 4, mode: AddressingMode::Absolute }),
        0xB0 => Some(OpCode { code: 0xB0, mnemonic: Mnemonic::Bcs, len: 2, cycles: 2, mode: AddressingMode::Relative }),
        0xB1 => Some(OpCode { code: 0xB1, mnemonic: Mnemonic::Lda, len: 2, cycles: 5, mode: AddressingMode::IndirectY }),
        0xB4 => Some(OpCode { code: 0xB4, mnemonic: Mnemonic::Ldy, len: 2, cycles: 4, mode: AddressingMode::ZeroPageX }),
        0xB5 => Some(OpCode { code: 0xB5, mnemonic: Mnemonic::Lda, len: 2, cycles: 4, mode: AddressingMode::ZeroPageX }),
        0xB6 => Some(OpCode { code: 0xB6, mnemonic: Mnemonic::Ldx, len: 2, cycles: 4, mode: AddressingMode::ZeroPageY }),
        0xB8 => Some(OpCode { code: 0xB8, mnemonic: Mnemonic::Clv, len: 1, cycles: 2, mode: AddressingMode::Implied }),
        0xB9 => Some(OpCode { code: 0xB9, mnemonic: Mnemonic::Lda, len: 3, cycles: 4, mode: AddressingMode::AbsoluteY }),
        0xBA => Some(OpCode { code: 0xBA, mnemonic: Mnemonic::Tsx, len: 1, cycles: 2, mode: AddressingMode::Implied }),
        0xBC => Some(OpCode { code: 0xBC, mnemonic: Mnemonic::Ldy, len: 3, cycles: 4, mode: AddressingMode::AbsoluteX }),
        0xBD => Some(OpCode { code: 0xBD, mnemonic: Mnemonic::Lda, len: 3, cycles: 4, mode: AddressingMode::AbsoluteX }),
        0xBE => Some(OpCode { code: 0xBE, mnemonic: Mnemonic::Ldx, len: 3, cycles: 4, mode: AddressingMode::AbsoluteY }),
        0xC0 => Some(OpCode { code: 0xC0, mnemonic: Mnemonic::Cpy, len: 2, cycles: 2, mode: AddressingMode::Immediate }),
        0xC1 => Some(OpCode { code: 0xC1, mnemonic: Mnemonic::Cmp, len: 2, cycles: 6, mode: AddressingMode::IndirectX }),
        0xC4 => Some(OpCode { code: 0xC4, mnemonic: Mnemonic::Cpy, len: 2, cycles: 3, mode: AddressingMode::ZeroPage }),
        0xC5 => Some(OpCode { code: 0xC5, mnemonic: Mnemonic::Cmp, len: 2, cycles: 3, mode: AddressingMode::ZeroPage }),
        0xC6 => Some(OpCode { code: 0xC6, mnemonic: Mnemonic::Dec, len: 2, cycles: 5, mode: AddressingMode::ZeroPage }),
        0xC8 => Some(OpCode { code: 0xC8, mnemonic: Mnemonic::Iny, len: 1, cycles: 2, mode: AddressingMode::Implied }),
        0xC9 => Some(OpCode { code: 0xC9, mnemonic: Mnemonic::Cmp, len: 2, cycles: 2, mode: AddressingMode::Immediate }),
        0xCA => Some(OpCode { code: 0xCA, mnemonic: Mnemonic::Dex, len: 1, cycles: 2, mode: AddressingMode::Implied }),
        0xCC => Some(OpCode { code: 0xCC, mnemonic: Mnemonic::Cpy, len: 3, cycles: 4, mode: AddressingMode::Absolute }),
        0xCD => Some(OpCode { code: 0xCD, mnemonic: Mnemonic::Cmp, len: 3, cycles: 4, mode: AddressingMode::Absolute }),
        0xCE => Some(OpCode { code: 0xCE, mnemonic: Mnemonic::Dec, len: 3, cycles: 6, mode: AddressingMode::Absolute }),
        0xD0 => Some(OpCode { code: 0xD0, mnemonic: Mnemonic::Bne, len: 2, cycles: 2, mode: AddressingMode::Relative }),
        0xD1 => Some(OpCode { code: 0xD1, mnemonic: Mnemonic::Cmp, len: 2, cycles: 5, mode: AddressingMode::IndirectY }),
        0xD5 => Some(OpCode { code: 0xD5, mnemonic: Mnemonic::Cmp, len: 2, cycles: 4, mode: AddressingMode::ZeroPageX }),
        0xD6 => Some(OpCode { code: 0xD6, mnemonic: Mnemonic::Dec, len: 2, cycles: 6, mode: AddressingMode::ZeroPageX }),
        0xD8 => Some(OpCode { code: 0xD8, mnemonic: Mnemonic::Cld, len: 1, cycles: 2, mode: AddressingMode::Implied }),
        0xD9 => Some(OpCode { code: 0xD9, mnemonic: Mnemonic::Cmp, len: 3, cycles: 4, mode: AddressingMode::AbsoluteY }),
        0xDD => Some(OpCode { code: 0xDD, mnemonic: Mnemonic::Cmp, len: 3, cycles: 4, mode: AddressingMode::AbsoluteX }),
        0xDE => Some(OpCode { code: 0xDE, mnemonic: Mnemonic::Dec, len: 3, cycles: 7, mode: AddressingMode::AbsoluteX }),
        0xE0 => Some(OpCode { code: 0xE0, mnemonic: Mnemonic::Cpx, len: 2, cycles: 2, mode: AddressingMode::Immediate }),
        0xE1 => Some(OpCode { code: 0xE1, mnemonic: Mnemonic::Sbc, len: 2, cycles: 6, mode: AddressingMode::IndirectX }),
        0xE4 => Some(OpCode { code: 0xE4, mnemonic: Mnemonic::Cpx, len: 2, cycles: 3, mode: AddressingMode::ZeroPage }),
        0xE5 => Some(OpCode { code: 0xE5, mnemonic: Mnemonic::Sbc, len: 2, cycles: 3, mode: AddressingMode::ZeroPage }),
        0xE6 => Some(OpCode { code: 0xE6, mnemonic: Mnemonic::Inc, len: 2, cycles: 5, mode: AddressingMode::ZeroPage }),
        0xE8 => Some(OpCode { code: 0xE8, mnemonic: Mnemonic::Inx, len: 1, cycles: 2, mode: AddressingMode::Implied }),
        0xE9 => Some(OpCode { code: 0xE9, mnemonic: Mnemonic::Sbc, len: 2, cycles: 2, mode: AddressingMode::Immediate }),
        0xEA => Some(OpCode { code: 0xEA, mnemonic: Mnemonic::Nop, len: 1, cycles: 2, mode: AddressingMode::Implied }),
        0xEC => Some(OpCode { code: 0xEC, mnemonic: Mnemonic::Cpx, len: 3, cycles: 4, mode: AddressingMode::Absolute }),
        0xED => Some(OpCode { code: 0xED, mnemonic: Mnemonic::Sbc, len: 3, cycles: 4, mode: AddressingMode::Absolute }),
        0xEE => Some(OpCode { code: 0xEE, mnemonic: Mnemonic::Inc, len: 3, cycles: 6, mode: AddressingMode::Absolute }),
        0xF0 => Some(OpCode { code: 0xF0, mnemonic: Mnemonic::Beq, len: 2, cycles: 2, mode: AddressingMode::Relative }),
        0xF1 => Some(OpCode { code: 0xF1, mnemonic: Mnemonic::Sbc, len: 2, cycles: 5, mode: AddressingMode::IndirectY }),
        0xF5 => Some(OpCode { code: 0xF5, mnemonic: Mnemonic::Sbc, len: 2, cycles: 4, mode: AddressingMode::ZeroPageX }),
        0xF6 => Some(OpCode { code: 0xF6, mnemonic: Mnemonic::Inc, len: 2, cycles: 6, mode: AddressingMode::ZeroPageX }),
        0xF8 => Some(OpCode { code: 0xF8, mnemonic: Mnemonic::Sed, len: 1, cycles: 2, mode: AddressingMode::Implied }),
        0xF9 => Some(OpCode { code: 0xF9, mnemonic: Mnemonic::Sbc, len: 3, cycles: 4, mode: AddressingMode::AbsoluteY }),
        0xFD => Some(OpCode { code: 0xFD, mnemonic: Mnemonic::Sbc, len: 3, cycles: 4, mode: AddressingMode::AbsoluteX }),
        0xFE => Some(OpCode { code: 0xFE, mnemonic: Mnemonic::Inc, len: 3, cycles: 7, mode: AddressingMode::AbsoluteX }),
        _ => None,
    }
}

/// Looks an opcode byte up in the table.
pub fn lookup(code: u8) -> (r: Option<OpCode>)
    ensures
        r == opcode_of(code),
{
    match code {
        0x00 => Some(OpCode { code: 0x00, mnemonic: Mnemonic::Brk, len: 1, cycles: 7, mode: AddressingMode::Implied }),
        0x01 => Some(OpCode { code: 0x01, mnemonic: Mnemonic::Ora, len: 2, cycles: 6, mode: AddressingMode::IndirectX }),
        0x05 => Some(OpCode { code: 0x05, mnemonic: Mnemonic::Ora, len: 2, cycles: 3, mode: AddressingMode::ZeroPage }),
        0x06 => Some(OpCode { code: 0x06, mnemonic: Mnemonic::Asl, len: 2, cycles: 5, mode: AddressingMode::ZeroPage }),
        0x08 => Some(OpCode { code: 0x08, mnemonic: Mnemonic::Php, len: 1, cycles: 3, mode: AddressingMode::Implied }),
        0x09 => Some(OpCode { code: 0x09, mnemonic: Mnemonic::Ora, len: 2, cycles: 2, mode: AddressingMode::Immediate }),
        0x0A => Some(OpCode { code: 0x0A, mnemonic: Mnemonic::Asl, len: 1, cycles: 2, mode: AddressingMode::Accumulator }),
        0x0D => Some(OpCode { code: 0x0D, mnemonic: Mnemonic::Ora, len: 3, cycles: 4, mode: AddressingMode::Absolute }),
        0x0E => Some(OpCode { code: 0x0E, mnemonic: Mnemonic::Asl, len: 3, cycles: 6, mode: AddressingMode::Absolute }),
        0x10 => Some(OpCode { code: 0x10, mnemonic: Mnemonic::Bpl, len: 2, cycles: 2, mode: AddressingMode::Relative }),
        0x11 => Some(OpCode { code: 0x11, mnemonic: Mnemonic::Ora, len: 2, cycles: 5, mode: AddressingMode::IndirectY }),
        0x15 => Some(OpCode { code: 0x15, mnemonic: Mnemonic::Ora, len: 2, cycles: 4, mode: AddressingMode::ZeroPageX }),
        0x16 => Some(OpCode { code: 0x16, mnemonic: Mnemonic::Asl, len: 2, cycles: 6, mode: AddressingMode::ZeroPageX }),
        0x18 => Some(OpCode { code: 0x18, mnemonic: Mnemonic::Clc, len: 1, cycles: 2, mode: AddressingMode::Implied }),
        0x19 => Some(OpCode { code: 0x19, mnemonic: Mnemonic::Ora, len: 3, cycles: 4, mode: AddressingMode::AbsoluteY }),
        0x1D => Some(OpCode { code: 0x1D, mnemonic: Mnemonic::Ora, len: 3, cycles: 4, mode: AddressingMode::AbsoluteX }),
        0x1E => Some(OpCode { code: 0x1E, mnemonic: Mnemonic::Asl, len: 3, cycles: 7, mode: AddressingMode::AbsoluteX }),
        0x20 => Some(OpCode { code: 0x20, mnemonic: Mnemonic::Jsr, len: 3, cycles: 6, mode: AddressingMode::Absolute }),
        0x21 => Some(OpCode { code: 0x21, mnemonic: Mnemonic::And, len: 2, cycles: 6, mode: AddressingMode::IndirectX }),
        0x24 => Some(OpCode { code: 0x24, mnemonic: Mnemonic::Bit, len: 2, cycles: 3, mode: AddressingMode::ZeroPage }),
        0x25 => Some(OpCode { code: 0x25, mnemonic: Mnemonic::And, len: 2, cycles: 3, mode: AddressingMode::ZeroPage }),
        0x26 => Some(OpCode { code: 0x26, mnemonic: Mnemonic::Rol, len: 2, cycles: 5, mode: AddressingMode::ZeroPage }),
        0x28 => Some(OpCode { code: 0x28, mnemonic: Mnemonic::Plp, len: 1, cycles: 4, mode: AddressingMode::Implied }),
        0x29 => Some(OpCode { code: 0x29, mnemonic: Mnemonic::And, len: 2, cycles: 2, mode: AddressingMode::Immediate }),
        0x2A => Some(OpCode { code: 0x2A, mnemonic: Mnemonic::Rol, len: 1, cycles: 2, mode: AddressingMode::Accumulator }),
        0x2C => Some(OpCode { code: 0x2C, mnemonic: Mnemonic::Bit, len: 3, cycles: 4, mode: AddressingMode::Absolute }),
        0x2D => Some(OpCode { code: 0x2D, mnemonic: Mnemonic::And, len: 3, cycles: 4, mode: AddressingMode::Absolute }),
        0x2E => Some(OpCode { code: 0x2E, mnemonic: Mnemonic::Rol, len: 3, cycles: 6, mode: AddressingMode::Absolute }),
        0x30 => Some(OpCode { code: 0x30, mnemonic: Mnemonic::Bmi, len: 2, cycles: 2, mode: AddressingMode::Relative }),
        0x31 => Some(OpCode { code: 0x31, mnemonic: Mnemonic::And, len: 2, cycles: 5, mode: AddressingMode::IndirectY }),
        0x35 => Some(OpCode { code: 0x35, mnemonic: Mnemonic::And, len: 2, cycles: 4, mode: AddressingMode::ZeroPageX }),
        0x36 => Some(OpCode { code: 0x36, mnemonic: Mnemonic::Rol, len: 2, cycles: 6, mode: AddressingMode::ZeroPageX }),
        0x38 => Some(OpCode { code: 0x38, mnemonic: Mnemonic::Sec, len: 1, cycles: 2, mode: AddressingMode::Implied }),
        0x39 => Some(OpCode { code: 0x39, mnemonic: Mnemonic::And, len: 3, cycles: 4, mode: AddressingMode::AbsoluteY }),
        0x3D => Some(OpCode { code: 0x3D, mnemonic: Mnemonic::And, len: 3, cycles: 4, mode: AddressingMode::AbsoluteX }),
        0x3E => Some(OpCode { code: 0x3E, mnemonic: Mnemonic::Rol, len: 3, cycles: 7, mode: AddressingMode::AbsoluteX }),
        0x40 => Some(OpCode { code: 0x40, mnemonic: Mnemonic::Rti, len: 1, cycles: 6, mode: AddressingMode::Implied }),
        0x41 => Some(OpCode { code: 0x41, mnemonic: Mnemonic::Eor, len: 2, cycles: 6, mode: AddressingMode::IndirectX }),
        0x45 => Some(OpCode { code: 0x45, mnemonic: Mnemonic::Eor, len: 2, cycles: 3, mode: AddressingMode::ZeroPage }),
        0x46 => Some(OpCode { code: 0x46, mnemonic: Mnemonic::Lsr, len: 2, cycles: 5, mode: AddressingMode::ZeroPage }),
        0x48 => Some(OpCode { code: 0x48, mnemonic: Mnemonic::Pha, len: 1, cycles: 3, mode: AddressingMode::Implied }),
        0x49 => Some(OpCode { code: 0x49, mnemonic: Mnemonic::Eor, len: 2, cycles: 2, mode: AddressingMode::Immediate }),
        0x4A => Some(OpCode { code: 0x4A, mnemonic: Mnemonic::Lsr, len: 1, cycles: 2, mode: AddressingMode::Accumulator }),
        0x4C => Some(OpCode { code: 0x4C, mnemonic: Mnemonic::Jmp, len: 3, cycles: 3, mode: AddressingMode::Absolute }),
        0x4D => Some(OpCode { code: 0x4D, mnemonic: Mnemonic::Eor, len: 3, cycles: 4, mode: AddressingMode::Absolute }),
        0x4E => Some(OpCode { code: 0x4E, mnemonic: Mnemonic::Lsr, len: 3, cycles: 6, mode: AddressingMode::Absolute }),
        0x50 => Some(OpCode { code: 0x50, mnemonic: Mnemonic::Bvc, len: 2, cycles: 2, mode: AddressingMode::Relative }),
        0x51 => Some(OpCode { code: 0x51, mnemonic: Mnemonic::Eor, len: 2, cycles: 5, mode: AddressingMode::IndirectY }),
        0x55 => Some(OpCode { code: 0x55, mnemonic: Mnemonic::Eor, len: 2, cycles: 4, mode: AddressingMode::ZeroPageX }),
        0x56 => Some(OpCode { code: 0x56, mnemonic: Mnemonic::Lsr, len: 2, cycles: 6, mode: AddressingMode::ZeroPageX }),
        0x58 => Some(OpCode { code: 0x58, mnemonic: Mnemonic::Cli, len: 1, cycles: 2, mode: AddressingMode::Implied }),
        0x59 => Some(OpCode { code: 0x59, mnemonic: Mnemonic::Eor, len: 3, cycles: 4, mode: AddressingMode::AbsoluteY }),
        0x5D => Some(OpCode { code: 0x5D, mnemonic: Mnemonic::Eor, len: 3, cycles: 4, mode: AddressingMode::AbsoluteX }),
        0x5E => Some(OpCode { code: 0x5E, mnemonic: Mnemonic::Lsr, len: 3, cycles: 7, mode: AddressingMode::AbsoluteX }),
        0x60 => Some(OpCode { code: 0x60, mnemonic: Mnemonic::Rts, len: 1, cycles: 6, mode: AddressingMode::Implied }),
        0x61 => Some(OpCode { code: 0x61, mnemonic: Mnemonic::Adc, len: 2, cycles: 6, mode: AddressingMode::IndirectX }),
        0x65 => Some(OpCode { code: 0x65, mnemonic: Mnemonic::Adc, len: 2, cycles: 3, mode: AddressingMode::ZeroPage }),
        0x66 => Some(OpCode { code: 0x66, mnemonic: Mnemonic::Ror, len: 2, cycles: 5, mode: AddressingMode::ZeroPage }),
        0x68 => Some(OpCode { code: 0x68, mnemonic: Mnemonic::Pla, len: 1, cycles: 4, mode: AddressingMode::Implied }),
        0x69 => Some(OpCode { code: 0x69, mnemonic: Mnemonic::Adc, len: 2, cycles: 2, mode: AddressingMode::Immediate }),
        0x6A => Some(OpCode { code: 0x6A, mnemonic: Mnemonic::Ror, len: 1, cycles: 2, mode: AddressingMode::Accumulator }),
        0x6C => Some(OpCode { code: 0x6C, mnemonic: Mnemonic::Jmp, len: 3, cycles: 5, mode: AddressingMode::Indirect }),
        0x6D => Some(OpCode { code: 0x6D, mnemonic: Mnemonic::Adc, len: 3, cycles: 4, mode: AddressingMode::Absolute }),
        0x6E => Some(OpCode { code: 0x6E, mnemonic: Mnemonic::Ror, len: 3, cycles: 6, mode: AddressingMode::Absolute }),
        0x70 => Some(OpCode { code: 0x70, mnemonic: Mnemonic::Bvs, len: 2, cycles: 2, mode: AddressingMode::Relative }),
        0x71 => Some(OpCode { code: 0x71, mnemonic: Mnemonic::Adc, len: 2, cycles: 5, mode: AddressingMode::IndirectY }),
        0x75 => Some(OpCode { code: 0x75, mnemonic: Mnemonic::Adc, len: 2, cycles: 4, mode: AddressingMode::ZeroPageX }),
        0x76 => Some(OpCode { code: 0x76, mnemonic: Mnemonic::Ror, len: 2, cycles: 6, mode: AddressingMode::ZeroPageX }),
        0x78 => Some(OpCode { code: 0x78, mnemonic: Mnemonic::Sei, len: 1, cycles: 2, mode: AddressingMode::Implied }),
        0x79 => Some(OpCode { code: 0x79, mnemonic: Mnemonic::Adc, len: 3, cycles: 4, mode: AddressingMode::AbsoluteY }),
        0x7D => Some(OpCode { code: 0x7D, mnemonic: Mnemonic::Adc, len: 3, cycles: 4, mode: AddressingMode::AbsoluteX }),
        0x7E => Some(OpCode { code: 0x7E, mnemonic: Mnemonic::Ror, len: 3, cycles: 7, mode: AddressingMode::AbsoluteX }),
        0x81 => Some(OpCode { code: 0x81, mnemonic: Mnemonic::Sta, len: 2, cycles: 6, mode: AddressingMode::IndirectX }),
        0x84 => Some(OpCode { code: 0x84, mnemonic: Mnemonic::Sty, len: 2, cycles: 3, mode: AddressingMode::ZeroPage }),
        0x85 => Some(OpCode { code: 0x85, mnemonic: Mnemonic::Sta, len: 2, cycles: 3, mode: AddressingMode::ZeroPage }),
        0x86 => Some(OpCode { code: 0x86, mnemonic: Mnemonic::Stx, len: 2, cycles: 3, mode: AddressingMode::ZeroPage }),
        0x88 => Some(OpCode { code: 0x88, mnemonic: Mnemonic::Dey, len: 1, cycles: 2, mode: AddressingMode::Implied }),
        0x8A => Some(OpCode { code: 0x8A, mnemonic: Mnemonic::Txa, len: 1, cycles: 2, mode: AddressingMode::Implied }),
        0x8C => Some(OpCode { code: 0x8C, mnemonic: Mnemonic::Sty, len: 3, cycles: 4, mode: AddressingMode::Absolute }),
        0x8D => Some(OpCode { code: 0x8D, mnemonic: Mnemonic::Sta, len: 3, cycles: 4, mode: AddressingMode::Absolute }),
        0x8E => Some(OpCode { code: 0x8E, mnemonic: Mnemonic::Stx, len: 3, cycles: 4, mode: AddressingMode::Absolute }),
        0x90 => Some(OpCode { code: 0x90, mnemonic: Mnemonic::Bcc, len: 2, cycles: 2, mode: AddressingMode::Relative }),
        0x91 => Some(OpCode { code: 0x91, mnemonic: Mnemonic::Sta, len: 2, cycles: 6, mode: AddressingMode::IndirectY }),
        0x94 => Some(OpCode { code: 0x94, mnemonic: Mnemonic::Sty, len: 2, cycles: 4, mode: AddressingMode::ZeroPageX }),
        0x95 => Some(OpCode { code: 0x95, mnemonic: Mnemonic::Sta, len: 2, cycles: 4, mode: AddressingMode::ZeroPageX }),
        0x96 => Some(OpCode { code: 0x96, mnemonic: Mnemonic::Stx, len: 2, cycles: 4, mode: AddressingMode::ZeroPageY }),
        0x98 => Some(OpCode { code: 0x98, mnemonic: Mnemonic::Tya, len: 1, cycles: 2, mode: AddressingMode::Implied }),
        0x99 => Some(OpCode { code: 0x99, mnemonic: Mnemonic::Sta, len: 3, cycles: 5, mode: AddressingMode::AbsoluteY }),
        0x9A => Some(OpCode { code: 0x9A, mnemonic: Mnemonic::Txs, len: 1, cycles: 2, mode: AddressingMode::Implied }),
        0x9D => Some(OpCode { code: 0x9D, mnemonic: Mnemonic::Sta, len: 3, cycles: 5, mode: AddressingMode::AbsoluteX }),
        0xA0 => Some(OpCode { code: 0xA0, mnemonic: Mnemonic::Ldy, len: 2, cycles: 2, mode: AddressingMode::Immediate }),
        0xA1 => Some(OpCode { code: 0xA1, mnemonic: Mnemonic::Lda, len: 2, cycles: 6, mode: AddressingMode::IndirectX }),
        0xA2 => Some(OpCode { code: 0xA2, mnemonic: Mnemonic::Ldx, len: 2, cycles: 2, mode: AddressingMode::Immediate }),
        0xA4 => Some(OpCode { code: 0xA4, mnemonic: Mnemonic::Ldy, len: 2, cycles: 3, mode: AddressingMode::ZeroPage }),
        0xA5 => Some(OpCode { code: 0xA5, mnemonic: Mnemonic::Lda, len: 2, cycles: 3, mode: AddressingMode::ZeroPage }),
        0xA6 => Some(OpCode { code: 0xA6, mnemonic: Mnemonic::Ldx, len: 2, cycles: 3, mode: AddressingMode::ZeroPage }),
        0xA8 => Some(OpCode { code: 0xA8, mnemonic: Mnemonic::Tay, len: 1, cycles: 2, mode: AddressingMode::Implied }),
        0xA9 => Some(OpCode { code: 0xA9, mnemonic: Mnemonic::Lda, len: 2, cycles: 2, mode: AddressingMode::Immediate }),
        0xAA => Some(OpCode { code: 0xAA, mnemonic: Mnemonic::Tax, len: 1, cycles: 2, mode: AddressingMode::Implied }),
        0xAC => Some(OpCode { code: 0xAC, mnemonic: Mnemonic::Ldy, len: 3, cycles: 4, mode: AddressingMode::Absolute }),
        0xAD => Some(OpCode { code: 0xAD, mnemonic: Mnemonic::Lda, len: 3, cycles: 4, mode: AddressingMode::Absolute }),
        0xAE => Some(OpCode { code: 0xAE, mnemonic: Mnemonic::Ldx, len: 3, cycles: 4, mode: AddressingMode::Absolute }),
        0xB0 => Some(OpCode { code: 0xB0, mnemonic: Mnemonic::Bcs, len: 2, cycles: 2, mode: AddressingMode::Relative }),
        0xB1 => Some(OpCode { code: 0xB1, mnemonic: Mnemonic::Lda, len: 2, cycles: 5, mode: AddressingMode::IndirectY }),
        0xB4 => Some(OpCode { code: 0xB4, mnemonic: Mnemonic::Ldy, len: 2, cycles: 4, mode: AddressingMode::ZeroPageX }),
        0xB5 => Some(OpCode { code: 0xB5, mnemonic: Mnemonic::Lda, len: 2, cycles: 4, mode: AddressingMode::ZeroPageX }),
        0xB6 => Some(OpCode { code: 0xB6, mnemonic: Mnemonic::Ldx, len: 2, cycles: 4, mode: AddressingMode::ZeroPageY }),
        0xB8 => Some(OpCode { code: 0xB8, mnemonic: Mnemonic::Clv, len: 1, cycles: 2, mode: AddressingMode::Implied }),
        0xB9 => Some(OpCode { code: 0xB9, mnemonic: Mnemonic::Lda, len: 3, cycles: 4, mode: AddressingMode::AbsoluteY }),
        0xBA => Some(OpCode { code: 0xBA, mnemonic: Mnemonic::Tsx, len: 1, cycles: 2, mode: AddressingMode::Implied }),
        0xBC => Some(OpCode { code: 0xBC, mnemonic: Mnemonic::Ldy, len: 3, cycles: 4, mode: AddressingMode::AbsoluteX }),
        0xBD => Some(OpCode { code: 0xBD, mnemonic: Mnemonic::Lda, len: 3, cycles: 4, mode: AddressingMode::AbsoluteX }),
        0xBE => Some(OpCode { code: 0xBE, mnemonic: Mnemonic::Ldx, len: 3, cycles: 4, mode: AddressingMode::AbsoluteY }),
        0xC0 => Some(OpCode { code: 0xC0, mnemonic: Mnemonic::Cpy, len: 2, cycles: 2, mode: AddressingMode::Immediate }),
        0xC1 => Some(OpCode { code: 0xC1, mnemonic: Mnemonic::Cmp, len: 2, cycles: 6, mode: AddressingMode::IndirectX }),
        0xC4 => Some(OpCode { code: 0xC4, mnemonic: Mnemonic::Cpy, len: 2, cycles: 3, mode: AddressingMode::ZeroPage }),
        0xC5 => Some(OpCode { code: 0xC5, mnemonic: Mnemonic::Cmp, len: 2, cycles: 3, mode: AddressingMode::ZeroPage }),
        0xC6 => Some(OpCode { code: 0xC6, mnemonic: Mnemonic::Dec, len: 2, cycles: 5, mode: AddressingMode::ZeroPage }),
        0xC8 => Some(OpCode { code: 0xC8, mnemonic: Mnemonic::Iny, len: 1, cycles: 2, mode: AddressingMode::Implied }),
        0xC9 => Some(OpCode { code: 0xC9, mnemonic: Mnemonic::Cmp, len: 2, cycles: 2, mode: AddressingMode::Immediate }),
        0xCA => Some(OpCode { code: 0xCA, mnemonic: Mnemonic::Dex, len: 1, cycles: 2, mode: AddressingMode::Implied }),
        0xCC => Some(OpCode { code: 0xCC, mnemonic: Mnemonic::Cpy, len: 3, cycles: 4, mode: AddressingMode::Absolute }),
        0xCD => Some(OpCode { code: 0xCD, mnemonic: Mnemonic::Cmp, len: 3, cycles: 4, mode: AddressingMode::Absolute }),
        0xCE => Some(OpCode { code: 0xCE, mnemonic: Mnemonic::Dec, len: 3, cycles: 6, mode: AddressingMode::Absolute }),
        0xD0 => Some(OpCode { code: 0xD0, mnemonic: Mnemonic::Bne, len: 2, cycles: 2, mode: AddressingMode::Relative }),
        0xD1 => Some(OpCode { code: 0xD1, mnemonic: Mnemonic::Cmp, len: 2, cycles: 5, mode: AddressingMode::IndirectY }),
        0xD5 => Some(OpCode { code: 0xD5, mnemonic: Mnemonic::Cmp, len: 2, cycles: 4, mode: AddressingMode::ZeroPageX }),
        0xD6 => Some(OpCode { code: 0xD6, mnemonic: Mnemonic::Dec, len: 2, cycles: 6, mode: AddressingMode::ZeroPageX }),
        0xD8 => Some(OpCode { code: 0xD8, mnemonic: Mnemonic::Cld, len: 1, cycles: 2, mode: AddressingMode::Implied }),
        0xD9 => Some(OpCode { code: 0xD9, mnemonic: Mnemonic::Cmp, len: 3, cycles: 4, mode: AddressingMode::AbsoluteY }),
        0xDD => Some(OpCode { code: 0xDD, mnemonic: Mnemonic::Cmp, len: 3, cycles: 4, mode: AddressingMode::AbsoluteX }),
        0xDE => Some(OpCode { code: 0xDE, mnemonic: Mnemonic::Dec, len: 3, cycles: 7, mode: AddressingMode::AbsoluteX }),
        0xE0 => Some(OpCode { code: 0xE0, mnemonic: Mnemonic::Cpx, len: 2, cycles: 2, mode: AddressingMode::Immediate }),
        0xE1 => Some(OpCode { code: 0xE1, mnemonic: Mnemonic::Sbc, len: 2, cycles: 6, mode: AddressingMode::IndirectX }),
        0xE4 => Some(OpCode { code: 0xE4, mnemonic: Mnemonic::Cpx, len: 2, cycles: 3, mode: AddressingMode::ZeroPage }),
        0xE5 => Some(OpCode { code: 0xE5, mnemonic: Mnemonic::Sbc, len: 2, cycles: 3, mode: AddressingMode::ZeroPage }),
        0xE6 => Some(OpCode { code: 0xE6, mnemonic: Mnemonic::Inc, len: 2, cycles: 5, mode: AddressingMode::ZeroPage }),
        0xE8 => Some(OpCode { code: 0xE8, mnemonic: Mnemonic::Inx, len: 1, cycles: 2, mode: AddressingMode::Implied }),
        0xE9 => Some(OpCode { code: 0xE9, mnemonic: Mnemonic::Sbc, len: 2, cycles: 2, mode: AddressingMode::Immediate }),
        0xEA => Some(OpCode { code: 0xEA, mnemonic: Mnemonic::Nop, len: 1, cycles: 2, mode: AddressingMode::Implied }),
        0xEC => Some(OpCode { code: 0xEC, mnemonic: Mnemonic::Cpx, len: 3, cycles: 4, mode: AddressingMode::Absolute }),
        0xED => Some(OpCode { code: 0xED, mnemonic: Mnemonic::Sbc, len: 3, cycles: 4, mode: AddressingMode::Absolute }),
        0xEE => Some(OpCode { code: 0xEE, mnemonic: Mnemonic::Inc, len: 3, cycles: 6, mode: AddressingMode::Absolute }),
        0xF0 => Some(OpCode { code: 0xF0, mnemonic: Mnemonic::Beq, len: 2, cycles: 2, mode: AddressingMode::Relative }),
        0xF1 => Some(OpCode { code: 0xF1, mnemonic: Mnemonic::Sbc, len: 2, cycles: 5, mode: AddressingMode::IndirectY }),
        0xF5 => Some(OpCode { code: 0xF5, mnemonic: Mnemonic::Sbc, len: 2, cycles: 4, mode: AddressingMode::ZeroPageX }),
        0xF6 => Some(OpCode { code: 0xF6, mnemonic: Mnemonic::Inc, len: 2, cycles: 6, mode: AddressingMode::ZeroPageX }),
        0xF8 => Some(OpCode { code: 0xF8, mnemonic: Mnemonic::Sed, len: 1, cycles: 2, mode: AddressingMode::Implied }),
        0xF9 => Some(OpCode { code: 0xF9, mnemonic: Mnemonic::Sbc, len: 3, cycles: 4, mode: AddressingMode::AbsoluteY }),
        0xFD => Some(OpCode { code: 0xFD, mnemonic: Mnemonic::Sbc, len: 3, cycles: 4, mode: AddressingMode::AbsoluteX }),
        0xFE => Some(OpCode { code: 0xFE, mnemonic: Mnemonic::Inc, len: 3, cycles: 7, mode: AddressingMode::AbsoluteX }),
        _ => None,
    }
}

/// The assembler name of an instruction.
pub open spec fn mnemonic_text(m: Mnemonic) -> Seq<char> {
    match m {
        Mnemonic::Adc => "ADC"@,
        Mnemonic::And => "AND"@,
        Mnemonic::Asl => "ASL"@,
        Mnemonic::Bcc => "BCC"@,
        Mnemonic::Bcs => "BCS"@,
        Mnemonic::Beq => "BEQ"@,
        Mnemonic::Bit => "BIT"@,
        Mnemonic::Bmi => "BMI"@,
        Mnemonic::Bne => "BNE"@,
        Mnemonic::Bpl => "BPL"@,
        Mnemonic::Brk => "BRK"@,
        Mnemonic::Bvc => "BVC"@,
        Mnemonic::Bvs => "BVS"@,
        Mnemonic::Clc => "CLC"@,
        Mnemonic::Cld => "CLD"@,
        Mnemonic::Cli => "CLI"@,
        Mnemonic::Clv => "CLV"@,
        Mnemonic::Cmp => "CMP"@,
        Mnemonic::Cpx => "CPX"@,
        Mnemonic::Cpy => "CPY"@,
        Mnemonic::Dec => "DEC"@,
        Mnemonic::Dex => "DEX"@,
        Mnemonic::Dey => "DEY"@,
        Mnemonic::Eor => "EOR"@,
        Mnemonic::Inc => "INC"@,
        Mnemonic::Inx => "INX"@,
        Mnemonic::Iny => "INY"@,
        Mnemonic::Jmp => "JMP"@,
        Mnemonic::Jsr => "JSR"@,
        Mnemonic::Lda => "LDA"@,
        Mnemonic::Ldx => "LDX"@,
        Mnemonic::Ldy => "LDY"@,
        Mnemonic::Lsr => "LSR"@,
        Mnemonic::Nop => "NOP"@,
        Mnemonic::Ora => "ORA"@,
        Mnemonic::Pha => "PHA"@,
        Mnemonic::Php => "PHP"@,
        Mnemonic::Pla => "PLA"@,
        Mnemonic::Plp => "PLP"@,
        Mnemonic::Rol => "ROL"@,
        Mnemonic::Ror => "ROR"@,
        Mnemonic::Rti => "RTI"@,
        Mnemonic::Rts => "RTS"@,
        Mnemonic::Sbc => "SBC"@,
        Mnemonic::Sec => "SEC"@,
        Mnemonic::Sed => "SED"@,
        Mnemonic::Sei => "SEI"@,
        Mnemonic::Sta => "STA"@,
        Mnemonic::Stx => "STX"@,
        Mnemonic::Sty => "STY"@,
        Mnemonic::Tax => "TAX"@,
        Mnemonic::Tay => "TAY"@,
        Mnemonic::Tsx => "TSX"@,
        Mnemonic::Txa => "TXA"@,
        Mnemonic::Txs => "TXS"@,
        Mnemonic::Tya => "TYA"@,
    }
}

impl Mnemonic {
    /// The three-letter assembler name of the instruction.
    pub fn name(&self) -> (r: &'static str)
        ensures
            r@ == mnemonic_text(*self),
    {
        match self {
            Mnemonic::Adc => "ADC",
            Mnemonic::And => "AND",
            Mnemonic::Asl => "ASL",
            Mnemonic::Bcc => "BCC",
            Mnemonic::Bcs => "BCS",
            Mnemonic::Beq => "BEQ",
            Mnemonic::Bit => "BIT",
            Mnemonic::Bmi => "BMI",
            Mnemonic::Bne => "BNE",
            Mnemonic::Bpl => "BPL",
            Mnemonic::Brk => "BRK",
            Mnemonic::Bvc => "BVC",
            Mnemonic::Bvs => "BVS",
            Mnemonic::Clc => "CLC",
            Mnemonic::Cld => "CLD",
            Mnemonic::Cli => "CLI",
            Mnemonic::Clv => "CLV",
            Mnemonic::Cmp => "CMP",
            Mnemonic::Cpx => "CPX",
            Mnemonic::Cpy => "CPY",
            Mnemonic::Dec => "DEC",
            Mnemonic::Dex => "DEX",
            Mnemonic::Dey => "DEY",
            Mnemonic::Eor => "EOR",
            Mnemonic::Inc => "INC",
            Mnemonic::Inx => "INX",
            Mnemonic::Iny => "INY",
            Mnemonic::Jmp => "JMP",
            Mnemonic::Jsr => "JSR",
            Mnemonic::Lda => "LDA",
            Mnemonic::Ldx => "LDX",
            Mnemonic::Ldy => "LDY",
            Mnemonic::Lsr => "LSR",
            Mnemonic::Nop => "NOP",
            Mnemonic::Ora => "ORA",
            Mnemonic::Pha => "PHA",
            Mnemonic::Php => "PHP",
            Mnemonic::Pla => "PLA",
            Mnemonic::Plp => "PLP",
            Mnemonic::Rol => "ROL",
            Mnemonic::Ror => "ROR",
            Mnemonic::Rti => "RTI",
            Mnemonic::Rts => "RTS",
            Mnemonic::Sbc => "SBC",
            Mnemonic::Sec => "SEC",
            Mnemonic::Sed => "SED",
            Mnemonic::Sei => "SEI",
            Mnemonic::Sta => "STA",
            Mnemonic::Stx => "STX",
            Mnemonic::Sty => "STY",
            Mnemonic::Tax => "TAX",
            Mnemonic::Tay => "TAY",
            Mnemonic::Tsx => "TSX",
            Mnemonic::Txa => "TXA",
            Mnemonic::Txs => "TXS",
            Mnemonic::Tya => "TYA",
        }
    }
}

} // verus!
