use vstd::prelude::*;

verus! {

/// The documented 6502 instructions, by their assembler names.
#[derive(Clone, Copy, Debug, PartialEq, Eq, Structural)]
pub enum Mnemonic {
    Adc,
    And,
    Asl,
    Bcc,
    Bcs,
    Beq,
    Bit,
    Bmi,
    Bne,
    Bpl,
    Brk,
    Bvc,
    Bvs,
    Clc,
    Cld,
    Cli,
    Clv,
    Cmp,
    Cpx,
    Cpy,
    Dec,
    Dex,
    Dey,
    Eor,
    Inc,
    Inx,
    Iny,
    Jmp,
    Jsr,
    Lda,
    Ldx,
    Ldy,
    Lsr,
    Nop,
    Ora,
    Pha,
    Php,
    Pla,
    Plp,
    Rol,
    Ror,
    Rti,
    Rts,
    Sbc,
    Sec,
    Sed,
    Sei,
    Sta,
    Stx,
    Sty,
    Tax,
    Tay,
    Tsx,
    Txa,
    Txs,
    Tya,
}

/// How an instruction turns the bytes after its opcode into an effective
/// address, or acts on registers alone (`Implied`, `Accumulator`).
#[derive(Clone, Copy, Debug, PartialEq, Eq, Structural)]
pub enum AddressingModes {
    Implied,
    Accumulator,
    Immediate,
    ZeroPage,
    ZeroPageX,
    ZeroPageY,
    Relative,
    Absolute,
    AbsoluteX,
    AbsoluteY,
    Indirect,
    IndirectX,
    IndirectY,
}

/// The two ways execution can stop: a byte that names no instruction, and an
/// instruction routine handed an addressing mode that it does not define.
#[derive(Clone, Copy, Debug, PartialEq, Eq, Structural)]
pub enum CpuError {
    UnknownOpcode(u8),
    UnsupportedAddressingMode(Mnemonic),
}

/// Number of operand bytes that follow the opcode in `mode`.
pub open spec fn operand_length(mode: AddressingModes) -> nat {
    match mode {
        AddressingModes::Implied | AddressingModes::Accumulator => 0,
        AddressingModes::Absolute | AddressingModes::AbsoluteX | AddressingModes::AbsoluteY
        | AddressingModes::Indirect => 2,
        _ => 1,
    }
}

/// Length in bytes of an instruction in `mode`, opcode included.
pub open spec fn instruction_length(mode: AddressingModes) -> nat {
    1 + operand_length(mode)
}

/// An entry of the instruction table.
#[derive(Clone, Copy, Debug, PartialEq, Eq, Structural)]
pub struct Opcode {
    pub code: u8,
    pub mnemonic: Mnemonic,
    pub bytes: u8,
    pub cycles: u8,
    pub addressing_mode: AddressingModes,
}

impl Opcode {
    pub fn new(code: u8, mnemonic: Mnemonic, bytes: u8, cycles: u8, addressing_mode: AddressingModes) -> (r: Self)
        ensures
            r == (Opcode { code, mnemonic, bytes, cycles, addressing_mode }),
    {
        Opcode { code, mnemonic, bytes, cycles, addressing_mode }
    }
}

/// The instruction table: mnemonic, addressing mode and base cycle count of
/// each documented opcode byte; `None` for the undocumented ones.
pub open spec fn decode(code: u8) -> Option<(Mnemonic, AddressingModes, u8)> {
    match code {
        0x00 => Some((Mnemonic::Brk, AddressingModes::Implied, 7)),
        0x01 => Some((Mnemonic::Ora, AddressingModes::IndirectX, 6)),
        0x05 => Some((Mnemonic::Ora, AddressingModes::ZeroPage, 3)),
        0x06 => Some((Mnemonic::Asl, AddressingModes::ZeroPage, 5)),
        0x08 => Some((Mnemonic::Php, AddressingModes::Implied, 3)),
        0x09 => Some((Mnemonic::Ora, AddressingModes::Immediate, 2)),
        0x0A => Some((Mnemonic::Asl, AddressingModes::Accumulator, 2)),
        0x0D => Some((Mnemonic::Ora, AddressingModes::Absolute, 4)),
        0x0E => Some((Mnemonic::Asl, AddressingModes::Absolute, 6)),
        0x10 => Some((Mnemonic::Bpl, AddressingModes::Relative, 2)),
        0x11 => Some((Mnemonic::Ora, AddressingModes::IndirectY, 5)),
        0x15 => Some((Mnemonic::Ora, AddressingModes::ZeroPageX, 4)),
        0x16 => Some((Mnemonic::Asl, AddressingModes::ZeroPageX, 6)),
        0x18 => Some((Mnemonic::Clc, AddressingModes::Implied, 2)),
        0x19 => Some((Mnemonic::Ora, AddressingModes::AbsoluteY, 4)),
        0x1D => Some((Mnemonic::Ora, AddressingModes::AbsoluteX, 4)),
        0x1E => Some((Mnemonic::Asl, AddressingModes::AbsoluteX, 7)),
        0x20 => Some((Mnemonic::Jsr, AddressingModes::Absolute, 6)),
        0x21 => Some((Mnemonic::And, AddressingModes::IndirectX, 6)),
        0x24 => Some((Mnemonic::Bit, AddressingModes::ZeroPage, 3)),
        0x25 => Some((Mnemonic::And, AddressingModes::ZeroPage, 3)),
        0x26 => Some((Mnemonic::Rol, AddressingModes::ZeroPage, 5)),
        0x28 => Some((Mnemonic::Plp, AddressingModes::Implied, 4)),
        0x29 => Some((Mnemonic::And, AddressingModes::Immediate, 2)),
        0x2A => Some((Mnemonic::Rol, AddressingModes::Accumulator, 2)),
        0x2C => Some((Mnemonic::Bit, AddressingModes::Absolute, 4)),
        0x2D => Some((Mnemonic::And, AddressingModes::Absolute, 4)),
        0x2E => Some((Mnemonic::Rol, AddressingModes::Absolute, 6)),
        0x30 => Some((Mnemonic::Bmi, AddressingModes::Relative, 2)),
        0x31 => Some((Mnemonic::And, AddressingModes::IndirectY, 5)),
        0x35 => Some((Mnemonic::And, AddressingModes::ZeroPageX, 4)),
        0x36 => Some((Mnemonic::Rol, AddressingModes::ZeroPageX, 6)),
        0x38 => Some((Mnemonic::Sec, AddressingModes::Implied, 2)),
        0x39 => Some((Mnemonic::And, AddressingModes::AbsoluteY, 4)),
        0x3D => Some((Mnemonic::And, AddressingModes::AbsoluteX, 4)),
        0x3E => Some((Mnemonic::Rol, AddressingModes::AbsoluteX, 7)),
        0x40 => Some((Mnemonic::Rti, AddressingModes::Implied, 6)),
        0x41 => Some((Mnemonic::Eor, AddressingModes::IndirectX, 6)),
        0x45 => Some((Mnemonic::Eor, AddressingModes::ZeroPage, 3)),
        0x46 => Some((Mnemonic::Lsr, AddressingModes::ZeroPage, 5)),
        0x48 => Some((Mnemonic::Pha, AddressingModes::Implied, 3)),
        0x49 => Some((Mnemonic::Eor, AddressingModes::Immediate, 2)),
        0x4A => Some((Mnemonic::Lsr, AddressingModes::Accumulator, 2)),
        0x4C => Some((Mnemonic::Jmp, AddressingModes::Absolute, 3)),
        0x4D => Some((Mnemonic::Eor, AddressingModes::Absolute, 4)),
        0x4E => Some((Mnemonic::Lsr, AddressingModes::Absolute, 6)),
        0x50 => Some((Mnemonic::Bvc, AddressingModes::Relative, 2)),
        0x51 => Some((Mnemonic::Eor, AddressingModes::IndirectY, 5)),
        0x55 => Some((Mnemonic::Eor, AddressingModes::ZeroPageX, 4)),
        0x56 => Some((Mnemonic::Lsr, AddressingModes::ZeroPageX, 6)),
        0x58 => Some((Mnemonic::Cli, AddressingModes::Implied, 2)),
        0x59 => Some((Mnemonic::Eor, AddressingModes::AbsoluteY, 4)),
        0x5D => Some((Mnemonic::Eor, AddressingModes::AbsoluteX, 4)),
        0x5E => Some((Mnemonic::Lsr, AddressingModes::AbsoluteX, 7)),
        0x60 => Some((Mnemonic::Rts, AddressingModes::Implied, 6)),
        0x61 => Some((Mnemonic::Adc, AddressingModes::IndirectX, 6)),
        0x65 => Some((Mnemonic::Adc, AddressingModes::ZeroPage, 3)),
        0x66 => Some((Mnemonic::Ror, AddressingModes::ZeroPage, 5)),
        0x68 => Some((Mnemonic::Pla, AddressingModes::Implied, 4)),
        0x69 => Some((Mnemonic::Adc, AddressingModes::Immediate, 2)),
        0x6A => Some((Mnemonic::Ror, AddressingModes::Accumulator, 2)),
        0x6C => Some((Mnemonic::Jmp, AddressingModes::Indirect, 5)),
        0x6D => Some((Mnemonic::Adc, AddressingModes::Absolute, 4)),
        0x6E => Some((Mnemonic::Ror, AddressingModes::Absolute, 6)),
        0x70 => Some((Mnemonic::Bvs, AddressingModes::Relative, 2)),
        0x71 => Some((Mnemonic::Adc, AddressingModes::IndirectY, 5)),
        0x75 => Some((Mnemonic::Adc, AddressingModes::ZeroPageX, 4)),
        0x76 => Some((Mnemonic::Ror, AddressingModes::ZeroPageX, 6)),
        0x78 => Some((Mnemonic::Sei, AddressingModes::Implied, 2)),
        0x79 => Some((Mnemonic::Adc, AddressingModes::AbsoluteY, 4)),
        0x7D => Some((Mnemonic::Adc, AddressingModes::AbsoluteX, 4)),
        0x7E => Some((Mnemonic::Ror, AddressingModes::AbsoluteX, 7)),
        0x81 => Some((Mnemonic::Sta, AddressingModes::IndirectX, 6)),
        0x84 => Some((Mnemonic::Sty, AddressingModes::ZeroPage, 3)),
        0x85 => Some((Mnemonic::Sta, AddressingModes::ZeroPage, 3)),
        0x86 => Some((Mnemonic::Stx, AddressingModes::ZeroPage, 3)),
        0x88 => Some((Mnemonic::Dey, AddressingModes::Implied, 2)),
        0x8A => Some((Mnemonic::Txa, AddressingModes::Implied, 2)),
        0x8C => Some((Mnemonic::Sty, AddressingModes::Absolute, 4)),
        0x8D => Some((Mnemonic::Sta, AddressingModes::Absolute, 4)),
        0x8E => Some((Mnemonic::Stx, AddressingModes::Absolute, 4)),
        0x90 => Some((Mnemonic::Bcc, AddressingModes::Relative, 2)),
        0x91 => Some((Mnemonic::Sta, AddressingModes::IndirectY, 6)),
        0x94 => Some((Mnemonic::Sty, AddressingModes::ZeroPageX, 4)),
        0x95 => Some((Mnemonic::Sta, AddressingModes::ZeroPageX, 4)),
        0x96 => Some((Mnemonic::Stx, AddressingModes::ZeroPageY, 4)),
        0x98 => Some((Mnemonic::Tya, AddressingModes::Implied, 2)),
        0x99 => Some((Mnemonic::Sta, AddressingModes::AbsoluteY, 5)),
        0x9A => Some((Mnemonic::Txs, AddressingModes::Implied, 2)),
        0x9D => Some((Mnemonic::Sta, AddressingModes::AbsoluteX, 5)),
        0xA0 => Some((Mnemonic::Ldy, AddressingModes::Immediate, 2)),
        0xA1 => Some((Mnemonic::Lda, AddressingModes::IndirectX, 6)),
        0xA2 => Some((Mnemonic::Ldx, AddressingModes::Immediate, 2)),
        0xA4 => Some((Mnemonic::Ldy, AddressingModes::ZeroPage, 3)),
        0xA5 => Some((Mnemonic::Lda, AddressingModes::ZeroPage, 3)),
        0xA6 => Some((Mnemonic::Ldx, AddressingModes::ZeroPage, 3)),
        0xA8 => Some((Mnemonic::Tay, AddressingModes::Implied, 2)),
        0xA9 => Some((Mnemonic::Lda, AddressingModes::Immediate, 2)),
        0xAA => Some((Mnemonic::Tax, AddressingModes::Implied, 2)),
        0xAC => Some((Mnemonic::Ldy, AddressingModes::Absolute, 4)),
        0xAD => Some((Mnemonic::Lda, AddressingModes::Absolute, 4)),
        0xAE => Some((Mnemonic::Ldx, AddressingModes::Absolute, 4)),
        0xB0 => Some((Mnemonic::Bcs, AddressingModes::Relative, 2)),
        0xB1 => Some((Mnemonic::Lda, AddressingModes::IndirectY, 5)),
        0xB4 => Some((Mnemonic::Ldy, AddressingModes::ZeroPageX, 4)),
        0xB5 => Some((Mnemonic::Lda, AddressingModes::ZeroPageX, 4)),
        0xB6 => Some((Mnemonic::Ldx, AddressingModes::ZeroPageY, 4)),
        0xB8 => Some((Mnemonic::Clv, AddressingModes::Implied, 2)),
        0xB9 => Some((Mnemonic::Lda, AddressingModes::AbsoluteY, 4)),
        0xBA => Some((Mnemonic::Tsx, AddressingModes::Implied, 2)),
        0xBC => Some((Mnemonic::Ldy, AddressingModes::AbsoluteX, 4)),
        0xBD => Some((Mnemonic::Lda, AddressingModes::AbsoluteX, 4)),
        0xBE => Some((Mnemonic::Ldx, AddressingModes::AbsoluteY, 4)),
        0xC0 => Some((Mnemonic::Cpy, AddressingModes::Immediate, 2)),
        0xC1 => Some((Mnemonic::Cmp, AddressingModes::IndirectX, 6)),
        0xC4 => Some((Mnemonic::Cpy, AddressingModes::ZeroPage, 3)),
        0xC5 => Some((Mnemonic::Cmp, AddressingModes::ZeroPage, 3)),
        0xC6 => Some((Mnemonic::Dec, AddressingModes::ZeroPage, 5)),
        0xC8 => Some((Mnemonic::Iny, AddressingModes::Implied, 2)),
        0xC9 => Some((Mnemonic::Cmp, AddressingModes::Immediate, 2)),
        0xCA => Some((Mnemonic::Dex, AddressingModes::Implied, 2)),
        0xCC => Some((Mnemonic::Cpy, AddressingModes::Absolute, 4)),
        0xCD => Some((Mnemonic::Cmp, AddressingModes::Absolute, 4)),
        0xCE => Some((Mnemonic::Dec, AddressingModes::Absolute, 6)),
        0xD0 => Some((Mnemonic::Bne, AddressingModes::Relative, 2)),
        0xD1 => Some((Mnemonic::Cmp, AddressingModes::IndirectY, 5)),
        0xD5 => Some((Mnemonic::Cmp, AddressingModes::ZeroPageX, 4)),
        0xD6 => Some((Mnemonic::Dec, AddressingModes::ZeroPageX, 6)),
        0xD8 => Some((Mnemonic::Cld, AddressingModes::Implied, 2)),
        0xD9 => Some((Mnemonic::Cmp, AddressingModes::AbsoluteY, 4)),
        0xDD => Some((Mnemonic::Cmp, AddressingModes::AbsoluteX, 4)),
        0xDE => Some((Mnemonic::Dec, AddressingModes::AbsoluteX, 7)),
        0xE0 => Some((Mnemonic::Cpx, AddressingModes::Immediate, 2)),
        0xE1 => Some((Mnemonic::Sbc, AddressingModes::IndirectX, 6)),
        0xE4 => Some((Mnemonic::Cpx, AddressingModes::ZeroPage, 3)),
        0xE5 => Some((Mnemonic::Sbc, AddressingModes::ZeroPage, 3)),
        0xE6 => Some((Mnemonic::Inc, AddressingModes::ZeroPage, 5)),
        0xE8 => Some((Mnemonic::Inx, AddressingModes::Implied, 2)),
        0xE9 => Some((Mnemonic::Sbc, AddressingModes::Immediate, 2)),
        0xEA => Some((Mnemonic::Nop, AddressingModes::Implied, 2)),
        0xEC => Some((Mnemonic::Cpx, AddressingModes::Absolute, 4)),
        0xED => Some((Mnemonic::Sbc, AddressingModes::Absolute, 4)),
        0xEE => Some((Mnemonic::Inc, AddressingModes::Absolute, 6)),
        0xF0 => Some((Mnemonic::Beq, AddressingModes::Relative, 2)),
        0xF1 => Some((Mnemonic::Sbc, AddressingModes::IndirectY, 5)),
        0xF5 => Some((Mnemonic::Sbc, AddressingModes::ZeroPageX, 4)),
        0xF6 => Some((Mnemonic::Inc, AddressingModes::ZeroPageX, 6)),
        0xF8 => Some((Mnemonic::Sed, AddressingModes::Implied, 2)),
        0xF9 => Some((Mnemonic::Sbc, AddressingModes::AbsoluteY, 4)),
        0xFD => Some((Mnemonic::Sbc, AddressingModes::AbsoluteX, 4)),
        0xFE => Some((Mnemonic::Inc, AddressingModes::AbsoluteX, 7)),
        _ => None,
    }
}

/// The table entry that `decode` describes for `code`.
pub open spec fn table_entry(code: u8) -> Result<Opcode, CpuError> {
    match decode(code) {
        Some((mnemonic, mode, cycles)) => Ok(
            Opcode {
                code,
                mnemonic,
                bytes: instruction_length(mode) as u8,
                cycles,
                addressing_mode: mode,
            },
        ),
        None => Err(CpuError::UnknownOpcode(code)),
    }
}

/// Looks up the table entry of an opcode byte.
#[verifier::rlimit(50)]
pub fn lookup(code: u8) -> (r: Result<Opcode, CpuError>)
    ensures
        r == table_entry(code),
{
    let entry = match code {
        0x00 => Opcode::new(0x00, Mnemonic::Brk, 1, 7, AddressingModes::Implied),
        0x01 => Opcode::new(0x01, Mnemonic::Ora, 2, 6, AddressingModes::IndirectX),
        0x05 => Opcode::new(0x05, Mnemonic::Ora, 2, 3, AddressingModes::ZeroPage),
        0x06 => Opcode::new(0x06, Mnemonic::Asl, 2, 5, AddressingModes::ZeroPage),
        0x08 => Opcode::new(0x08, Mnemonic::Php, 1, 3, AddressingModes::Implied),
        0x09 => Opcode::new(0x09, Mnemonic::Ora, 2, 2, AddressingModes::Immediate),
        0x0A => Opcode::new(0x0A, Mnemonic::Asl, 1, 2, AddressingModes::Accumulator),
        0x0D => Opcode::new(0x0D, Mnemonic::Ora, 3, 4, AddressingModes::Absolute),
        0x0E => Opcode::new(0x0E, Mnemonic::Asl, 3, 6, AddressingModes::Absolute),
        0x10 => Opcode::new(0x10, Mnemonic::Bpl, 2, 2, AddressingModes::Relative),
        0x11 => Opcode::new(0x11, Mnemonic::Ora, 2, 5, AddressingModes::IndirectY),
        0x15 => Opcode::new(0x15, Mnemonic::Ora, 2, 4, AddressingModes::ZeroPageX),
        0x16 => Opcode::new(0x16, Mnemonic::Asl, 2, 6, AddressingModes::ZeroPageX),
        0x18 => Opcode::new(0x18, Mnemonic::Clc, 1, 2, AddressingModes::Implied),
        0x19 => Opcode::new(0x19, Mnemonic::Ora, 3, 4, AddressingModes::AbsoluteY),
        0x1D => Opcode::new(0x1D, Mnemonic::Ora, 3, 4, AddressingModes::AbsoluteX),
        0x1E => Opcode::new(0x1E, Mnemonic::Asl, 3, 7, AddressingModes::AbsoluteX),
        0x20 => Opcode::new(0x20, Mnemonic::Jsr, 3, 6, AddressingModes::Absolute),
        0x21 => Opcode::new(0x21, Mnemonic::And, 2, 6, AddressingModes::IndirectX),
        0x24 => Opcode::new(0x24, Mnemonic::Bit, 2, 3, AddressingModes::ZeroPage),
        0x25 => Opcode::new(0x25, Mnemonic::And, 2, 3, AddressingModes::ZeroPage),
        0x26 => Opcode::new(0x26, Mnemonic::Rol, 2, 5, AddressingModes::ZeroPage),
        0x28 => Opcode::new(0x28, Mnemonic::Plp, 1, 4, AddressingModes::Implied),
        0x29 => Opcode::new(0x29, Mnemonic::And, 2, 2, AddressingModes::Immediate),
        0x2A => Opcode::new(0x2A, Mnemonic::Rol, 1, 2, AddressingModes::Accumulator),
        0x2C => Opcode::new(0x2C, Mnemonic::Bit, 3, 4, AddressingModes::Absolute),
        0x2D => Opcode::new(0x2D, Mnemonic::And, 3, 4, AddressingModes::Absolute),
        0x2E => Opcode::new(0x2E, Mnemonic::Rol, 3, 6, AddressingModes::Absolute),
        0x30 => Opcode::new(0x30, Mnemonic::Bmi, 2, 2, AddressingModes::Relative),
        0x31 => Opcode::new(0x31, Mnemonic::And, 2, 5, AddressingModes::IndirectY),
        0x35 => Opcode::new(0x35, Mnemonic::And, 2, 4, AddressingModes::ZeroPageX),
        0x36 => Opcode::new(0x36, Mnemonic::Rol, 2, 6, AddressingModes::ZeroPageX),
        0x38 => Opcode::new(0x38, Mnemonic::Sec, 1, 2, AddressingModes::Implied),
        0x39 => Opcode::new(0x39, Mnemonic::And, 3, 4, AddressingModes::AbsoluteY),
        0x3D => Opcode::new(0x3D, Mnemonic::And, 3, 4, AddressingModes::AbsoluteX),
        0x3E => Opcode::new(0x3E, Mnemonic::Rol, 3, 7, AddressingModes::AbsoluteX),
        0x40 => Opcode::new(0x40, Mnemonic::Rti, 1, 6, AddressingModes::Implied),
        0x41 => Opcode::new(0x41, Mnemonic::Eor, 2, 6, AddressingModes::IndirectX),
        0x45 => Opcode::new(0x45, Mnemonic::Eor, 2, 3, AddressingModes::ZeroPage),
        0x46 => Opcode::new(0x46, Mnemonic::Lsr, 2, 5, AddressingModes::ZeroPage),
        0x48 => Opcode::new(0x48, Mnemonic::Pha, 1, 3, AddressingModes::Implied),
        0x49 => Opcode::new(0x49, Mnemonic::Eor, 2, 2, AddressingModes::Immediate),
        0x4A => Opcode::new(0x4A, Mnemonic::Lsr, 1, 2, AddressingModes::Accumulator),
        0x4C => Opcode::new(0x4C, Mnemonic::Jmp, 3, 3, AddressingModes::Absolute),
        0x4D => Opcode::new(0x4D, Mnemonic::Eor, 3, 4, AddressingModes::Absolute),
        0x4E => Opcode::new(0x4E, Mnemonic::Lsr, 3, 6, AddressingModes::Absolute),
        0x50 => Opcode::new(0x50, Mnemonic::Bvc, 2, 2, AddressingModes::Relative),
        0x51 => Opcode::new(0x51, Mnemonic::Eor, 2, 5, AddressingModes::IndirectY),
        0x55 => Opcode::new(0x55, Mnemonic::Eor, 2, 4, AddressingModes::ZeroPageX),
        0x56 => Opcode::new(0x56, Mnemonic::Lsr, 2, 6, AddressingModes::ZeroPageX),
        0x58 => Opcode::new(0x58, Mnemonic::Cli, 1, 2, AddressingModes::Implied),
        0x59 => Opcode::new(0x59, Mnemonic::Eor, 3, 4, AddressingModes::AbsoluteY),
        0x5D => Opcode::new(0x5D, Mnemonic::Eor, 3, 4, AddressingModes::AbsoluteX),
        0x5E => Opcode::new(0x5E, Mnemonic::Lsr, 3, 7, AddressingModes::AbsoluteX),
        0x60 => Opcode::new(0x60, Mnemonic::Rts, 1, 6, AddressingModes::Implied),
        0x61 => Opcode::new(0x61, Mnemonic::Adc, 2, 6, AddressingModes::IndirectX),
        0x65 => Opcode::new(0x65, Mnemonic::Adc, 2, 3, AddressingModes::ZeroPage),
        0x66 => Opcode::new(0x66, Mnemonic::Ror, 2, 5, AddressingModes::ZeroPage),
        0x68 => Opcode::new(0x68, Mnemonic::Pla, 1, 4, AddressingModes::Implied),
        0x69 => Opcode::new(0x69, Mnemonic::Adc, 2, 2, AddressingModes::Immediate),
        0x6A => Opcode::new(0x6A, Mnemonic::Ror, 1, 2, AddressingModes::Accumulator),
        0x6C => Opcode::new(0x6C, Mnemonic::Jmp, 3, 5, AddressingModes::Indirect),
        0x6D => Opcode::new(0x6D, Mnemonic::Adc, 3, 4, AddressingModes::Absolute),
        0x6E => Opcode::new(0x6E, Mnemonic::Ror, 3, 6, AddressingModes::Absolute),
        0x70 => Opcode::new(0x70, Mnemonic::Bvs, 2, 2, AddressingModes::Relative),
        0x71 => Opcode::new(0x71, Mnemonic::Adc, 2, 5, AddressingModes::IndirectY),
        0x75 => Opcode::new(0x75, Mnemonic::Adc, 2, 4, AddressingModes::ZeroPageX),
        0x76 => Opcode::new(0x76, Mnemonic::Ror, 2, 6, AddressingModes::ZeroPageX),
        0x78 => Opcode::new(0x78, Mnemonic::Sei, 1, 2, AddressingModes::Implied),
        0x79 => Opcode::new(0x79, Mnemonic::Adc, 3, 4, AddressingModes::AbsoluteY),
        0x7D => Opcode::new(0x7D, Mnemonic::Adc, 3, 4, AddressingModes::AbsoluteX),
        0x7E => Opcode::new(0x7E, Mnemonic::Ror, 3, 7, AddressingModes::AbsoluteX),
        0x81 => Opcode::new(0x81, Mnemonic::Sta, 2, 6, AddressingModes::IndirectX),
        0x84 => Opcode::new(0x84, Mnemonic::Sty, 2, 3, AddressingModes::ZeroPage),
        0x85 => Opcode::new(0x85, Mnemonic::Sta, 2, 3, AddressingModes::ZeroPage),
        0x86 => Opcode::new(0x86, Mnemonic::Stx, 2, 3, AddressingModes::ZeroPage),
        0x88 => Opcode::new(0x88, Mnemonic::Dey, 1, 2, AddressingModes::Implied),
        0x8A => Opcode::new(0x8A, Mnemonic::Txa, 1, 2, AddressingModes::Implied),
        0x8C => Opcode::new(0x8C, Mnemonic::Sty, 3, 4, AddressingModes::Absolute),
        0x8D => Opcode::new(0x8D, Mnemonic::Sta, 3, 4, AddressingModes::Absolute),
        0x8E => Opcode::new(0x8E, Mnemonic::Stx, 3, 4, AddressingModes::Absolute),
        0x90 => Opcode::new(0x90, Mnemonic::Bcc, 2, 2, AddressingModes::Relative),
        0x91 => Opcode::new(0x91, Mnemonic::Sta, 2, 6, AddressingModes::IndirectY),
        0x94 => Opcode::new(0x94, Mnemonic::Sty, 2, 4, AddressingModes::ZeroPageX),
        0x95 => Opcode::new(0x95, Mnemonic::Sta, 2, 4, AddressingModes::ZeroPageX),
        0x96 => Opcode::new(0x96, Mnemonic::Stx, 2, 4, AddressingModes::ZeroPageY),
        0x98 => Opcode::new(0x98, Mnemonic::Tya, 1, 2, AddressingModes::Implied),
        0x99 => Opcode::new(0x99, Mnemonic::Sta, 3, 5, AddressingModes::AbsoluteY),
        0x9A => Opcode::new(0x9A, Mnemonic::Txs, 1, 2, AddressingModes::Implied),
        0x9D => Opcode::new(0x9D, Mnemonic::Sta, 3, 5, AddressingModes::AbsoluteX),
        0xA0 => Opcode::new(0xA0, Mnemonic::Ldy, 2, 2, AddressingModes::Immediate),
        0xA1 => Opcode::new(0xA1, Mnemonic::Lda, 2, 6, AddressingModes::IndirectX),
        0xA2 => Opcode::new(0xA2, Mnemonic::Ldx, 2, 2, AddressingModes::Immediate),
        0xA4 => Opcode::new(0xA4, Mnemonic::Ldy, 2, 3, AddressingModes::ZeroPage),
        0xA5 => Opcode::new(0xA5, Mnemonic::Lda, 2, 3, AddressingModes::ZeroPage),
        0xA6 => Opcode::new(0xA6, Mnemonic::Ldx, 2, 3, AddressingModes::ZeroPage),
        0xA8 => Opcode::new(0xA8, Mnemonic::Tay, 1, 2, AddressingModes::Implied),
        0xA9 => Opcode::new(0xA9, Mnemonic::Lda, 2, 2, AddressingModes::Immediate),
        0xAA => Opcode::new(0xAA, Mnemonic::Tax, 1, 2, AddressingModes::Implied),
        0xAC => Opcode::new(0xAC, Mnemonic::Ldy, 3, 4, AddressingModes::Absolute),
        0xAD => Opcode::new(0xAD, Mnemonic::Lda, 3, 4, AddressingModes::Absolute),
        0xAE => Opcode::new(0xAE, Mnemonic::Ldx, 3, 4, AddressingModes::Absolute),
        0xB0 => Opcode::new(0xB0, Mnemonic::Bcs, 2, 2, AddressingModes::Relative),
        0xB1 => Opcode::new(0xB1, Mnemonic::Lda, 2, 5, AddressingModes::IndirectY),
        0xB4 => Opcode::new(0xB4, Mnemonic::Ldy, 2, 4, AddressingModes::ZeroPageX),
        0xB5 => Opcode::new(0xB5, Mnemonic::Lda, 2, 4, AddressingModes::ZeroPageX),
        0xB6 => Opcode::new(0xB6, Mnemonic::Ldx, 2, 4, AddressingModes::ZeroPageY),
        0xB8 => Opcode::new(0xB8, Mnemonic::Clv, 1, 2, AddressingModes::Implied),
        0xB9 => Opcode::new(0xB9, Mnemonic::Lda, 3, 4, AddressingModes::AbsoluteY),
        0xBA => Opcode::new(0xBA, Mnemonic::Tsx, 1, 2, AddressingModes::Implied),
        0xBC => Opcode::new(0xBC, Mnemonic::Ldy, 3, 4, AddressingModes::AbsoluteX),
        0xBD => Opcode::new(0xBD, Mnemonic::Lda, 3, 4, AddressingModes::AbsoluteX),
        0xBE => Opcode::new(0xBE, Mnemonic::Ldx, 3, 4, AddressingModes::AbsoluteY),
        0xC0 => Opcode::new(0xC0, Mnemonic::Cpy, 2, 2, AddressingModes::Immediate),
        0xC1 => Opcode::new(0xC1, Mnemonic::Cmp, 2, 6, AddressingModes::IndirectX),
        0xC4 => Opcode::new(0xC4, Mnemonic::Cpy, 2, 3, AddressingModes::ZeroPage),
        0xC5 => Opcode::new(0xC5, Mnemonic::Cmp, 2, 3, AddressingModes::ZeroPage),
        0xC6 => Opcode::new(0xC6, Mnemonic::Dec, 2, 5, AddressingModes::ZeroPage),
        0xC8 => Opcode::new(0xC8, Mnemonic::Iny, 1, 2, AddressingModes::Implied),
        0xC9 => Opcode::new(0xC9, Mnemonic::Cmp, 2, 2, AddressingModes::Immediate),
        0xCA => Opcode::new(0xCA, Mnemonic::Dex, 1, 2, AddressingModes::Implied),
        0xCC => Opcode::new(0xCC, Mnemonic::Cpy, 3, 4, AddressingModes::Absolute),
        0xCD => Opcode::new(0xCD, Mnemonic::Cmp, 3, 4, AddressingModes::Absolute),
        0xCE => Opcode::new(0xCE, Mnemonic::Dec, 3, 6, AddressingModes::Absolute),
        0xD0 => Opcode::new(0xD0, Mnemonic::Bne, 2, 2, AddressingModes::Relative),
        0xD1 => Opcode::new(0xD1, Mnemonic::Cmp, 2, 5, AddressingModes::IndirectY),
        0xD5 => Opcode::new(0xD5, Mnemonic::Cmp, 2, 4, AddressingModes::ZeroPageX),
        0xD6 => Opcode::new(0xD6, Mnemonic::Dec, 2, 6, AddressingModes::ZeroPageX),
        0xD8 => Opcode::new(0xD8, Mnemonic::Cld, 1, 2, AddressingModes::Implied),
        0xD9 => Opcode::new(0xD9, Mnemonic::Cmp, 3, 4, AddressingModes::AbsoluteY),
        0xDD => Opcode::new(0xDD, Mnemonic::Cmp, 3, 4, AddressingModes::AbsoluteX),
        0xDE => Opcode::new(0xDE, Mnemonic::Dec, 3, 7, AddressingModes::AbsoluteX),
        0xE0 => Opcode::new(0xE0, Mnemonic::Cpx, 2, 2, AddressingModes::Immediate),
        0xE1 => Opcode::new(0xE1, Mnemonic::Sbc, 2, 6, AddressingModes::IndirectX),
        0xE4 => Opcode::new(0xE4, Mnemonic::Cpx, 2, 3, AddressingModes::ZeroPage),
        0xE5 => Opcode::new(0xE5, Mnemonic::Sbc, 2, 3, AddressingModes::ZeroPage),
        0xE6 => Opcode::new(0xE6, Mnemonic::Inc, 2, 5, AddressingModes::ZeroPage),
        0xE8 => Opcode::new(0xE8, Mnemonic::Inx, 1, 2, AddressingModes::Implied),
        0xE9 => Opcode::new(0xE9, Mnemonic::Sbc, 2, 2, AddressingModes::Immediate),
        0xEA => Opcode::new(0xEA, Mnemonic::Nop, 1, 2, AddressingModes::Implied),
        0xEC => Opcode::new(0xEC, Mnemonic::Cpx, 3, 4, AddressingModes::Absolute),
        0xED => Opcode::new(0xED, Mnemonic::Sbc, 3, 4, AddressingModes::Absolute),
        0xEE => Opcode::new(0xEE, Mnemonic::Inc, 3, 6, AddressingModes::Absolute),
        0xF0 => Opcode::new(0xF0, Mnemonic::Beq, 2, 2, AddressingModes::Relative),
        0xF1 => Opcode::new(0xF1, Mnemonic::Sbc, 2, 5, AddressingModes::IndirectY),
        0xF5 => Opcode::new(0xF5, Mnemonic::Sbc, 2, 4, AddressingModes::ZeroPageX),
        0xF6 => Opcode::new(0xF6, Mnemonic::Inc, 2, 6, AddressingModes::ZeroPageX),
        0xF8 => Opcode::new(0xF8, Mnemonic::Sed, 1, 2, AddressingModes::Implied),
        0xF9 => Opcode::new(0xF9, Mnemonic::Sbc, 3, 4, AddressingModes::AbsoluteY),
        0xFD => Opcode::new(0xFD, Mnemonic::Sbc, 3, 4, AddressingModes::AbsoluteX),
        0xFE => Opcode::new(0xFE, Mnemonic::Inc, 3, 7, AddressingModes::AbsoluteX),
        _ => {
            return Err(CpuError::UnknownOpcode(code));
        },
    };
    Ok(entry)
}

} // verus!
