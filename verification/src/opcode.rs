use vstd::prelude::*;

verus! {

/// How an instruction finds its operand.
#[derive(Clone, Copy, Debug, PartialEq, Eq, Structural)]
pub enum Mode {
    /// No operand.
    Implied,
    /// The accumulator is the operand.
    Accumulator,
    /// The byte after the opcode is the operand.
    Immediate,
    /// The byte after the opcode is an address in page zero.
    ZeroPage,
    /// That address plus X, within page zero.
    ZeroPageX,
    /// That address plus Y, within page zero.
    ZeroPageY,
    /// The two bytes after the opcode are the address.
    Absolute,
    /// That address plus X.
    AbsoluteX,
    /// That address plus Y.
    AbsoluteY,
    /// The two bytes after the opcode point at the address.
    Indirect,
    /// The byte after the opcode, plus X, points at the address, within page zero.
    IndirectX,
    /// The byte after the opcode points, within page zero, at an address; Y is added to it.
    IndirectY,
    /// The byte after the opcode is a signed distance from the next instruction.
    Relative,
}

/// What an instruction does.
#[derive(Clone, Copy, Debug, PartialEq, Eq, Structural)]
pub enum Op {
    Adc,
    And,
    Asl,
    Bcc,
    Bcs,
    Beq,
    Bit,
    Bmi,
    Bne,
    Bpl,
    Brk,
    Bvc,
    Bvs,
    Clc,
    Cld,
    Cli,
    Clv,
    /// CMP: compares the accumulator.
    Compare,
    /// CPX: compares X.
    CompareX,
    /// CPY: compares Y.
    CompareY,
    Dec,
    Dex,
    Dey,
    Eor,
    Inc,
    Inx,
    Iny,
    Jmp,
    Jsr,
    Lda,
    Ldx,
    Ldy,
    Lsr,
    Nop,
    Ora,
    Pha,
    Php,
    Pla,
    Plp,
    Rol,
    Ror,
    Rti,
    Rts,
    Sbc,
    Sec,
    Sed,
    Sei,
    Sta,
    Stx,
    Sty,
    Tax,
    Tay,
    Tsx,
    Txa,
    Txs,
    Tya,
}

/// One decoded opcode.
#[derive(Clone, Copy, Debug, PartialEq, Eq, Structural)]
pub struct Instruction {
    pub op: Op,
    pub mode: Mode,
    /// How many cycles the instruction takes at least.
    pub cycles: u8,
    /// The instruction takes one cycle more where its indexed address lies
    /// in another page than the address that was indexed.
    pub page_cycle: bool,
}

/// An entry of the instruction set.
pub open spec fn entry(op: Op, mode: Mode, cycles: u8, page_cycle: bool) -> Instruction {
    Instruction { op, mode, cycles, page_cycle }
}

/// The instruction set: the 151 documented opcodes. Every other opcode is
/// taken for a `NOP` of one byte and two cycles.
#[verifier::opaque]
pub open spec fn decoded(opcode: u8) -> Instruction {
    if opcode == 0x00 {
        entry(Op::Brk, Mode::Implied, 7, false)
    } else if opcode == 0x01 {
        entry(Op::Ora, Mode::IndirectX, 6, false)
    } else if opcode == 0x05 {
        entry(Op::Ora, Mode::ZeroPage, 3, false)
    } else if opcode == 0x06 {
        entry(Op::Asl, Mode::ZeroPage, 5, false)
    } else if opcode == 0x08 {
        entry(Op::Php, Mode::Implied, 3, false)
    } else if opcode == 0x09 {
        entry(Op::Ora, Mode::Immediate, 2, false)
    } else if opcode == 0x0a {
        entry(Op::Asl, Mode::Accumulator, 2, false)
    } else if opcode == 0x0d {
        entry(Op::Ora, Mode::Absolute, 4, false)
    } else if opcode == 0x0e {
        entry(Op::Asl, Mode::Absolute, 6, false)
    } else if opcode == 0x10 {
        entry(Op::Bpl, Mode::Relative, 2, false)
    } else if opcode == 0x11 {
        entry(Op::Ora, Mode::IndirectY, 5, true)
    } else if opcode == 0x15 {
        entry(Op::Ora, Mode::ZeroPageX, 4, false)
    } else if opcode == 0x16 {
        entry(Op::Asl, Mode::ZeroPageX, 6, false)
    } else if opcode == 0x18 {
        entry(Op::Clc, Mode::Implied, 2, false)
    } else if opcode == 0x19 {
        entry(Op::Ora, Mode::AbsoluteY, 4, true)
    } else if opcode == 0x1d {
        entry(Op::Ora, Mode::AbsoluteX, 4, true)
    } else if opcode == 0x1e {
        entry(Op::Asl, Mode::AbsoluteX, 7, false)
    } else if opcode == 0x20 {
        entry(Op::Jsr, Mode::Absolute, 6, false)
    } else if opcode == 0x21 {
        entry(Op::And, Mode::IndirectX, 6, false)
    } else if opcode == 0x24 {
        entry(Op::Bit, Mode::ZeroPage, 3, false)
    } else if opcode == 0x25 {
        entry(Op::And, Mode::ZeroPage, 3, false)
    } else if opcode == 0x26 {
        entry(Op::Rol, Mode::ZeroPage, 5, false)
    } else if opcode == 0x28 {
        entry(Op::Plp, Mode::Implied, 4, false)
    } else if opcode == 0x29 {
        entry(Op::And, Mode::Immediate, 2, false)
    } else if opcode == 0x2a {
        entry(Op::Rol, Mode::Accumulator, 2, false)
    } else if opcode == 0x2c {
        entry(Op::Bit, Mode::Absolute, 4, false)
    } else if opcode == 0x2d {
        entry(Op::And, Mode::Absolute, 4, false)
    } else if opcode == 0x2e {
        entry(Op::Rol, Mode::Absolute, 6, false)
    } else if opcode == 0x30 {
        entry(Op::Bmi, Mode::Relative, 2, false)
    } else if opcode == 0x31 {
        entry(Op::And, Mode::IndirectY, 5, true)
    } else if opcode == 0x35 {
        entry(Op::And, Mode::ZeroPageX, 4, false)
    } else if opcode == 0x36 {
        entry(Op::Rol, Mode::ZeroPageX, 6, false)
    } else if opcode == 0x38 {
        entry(Op::Sec, Mode::Implied, 2, false)
    } else if opcode == 0x39 {
        entry(Op::And, Mode::AbsoluteY, 4, true)
    } else if opcode == 0x3d {
        entry(Op::And, Mode::AbsoluteX, 4, true)
    } else if opcode == 0x3e {
        entry(Op::Rol, Mode::AbsoluteX, 7, false)
    } else if opcode == 0x40 {
        entry(Op::Rti, Mode::Implied, 6, false)
    } else if opcode == 0x41 {
        entry(Op::Eor, Mode::IndirectX, 6, false)
    } else if opcode == 0x45 {
        entry(Op::Eor, Mode::ZeroPage, 3, false)
    } else if opcode == 0x46 {
        entry(Op::Lsr, Mode::ZeroPage, 5, false)
    } else if opcode == 0x48 {
        entry(Op::Pha, Mode::Implied, 3, false)
    } else if opcode == 0x49 {
        entry(Op::Eor, Mode::Immediate, 2, false)
    } else if opcode == 0x4a {
        entry(Op::Lsr, Mode::Accumulator, 2, false)
    } else if opcode == 0x4c {
        entry(Op::Jmp, Mode::Absolute, 3, false)
    } else if opcode == 0x4d {
        entry(Op::Eor, Mode::Absolute, 4, false)
    } else if opcode == 0x4e {
        entry(Op::Lsr, Mode::Absolute, 6, false)
    } else if opcode == 0x50 {
        entry(Op::Bvc, Mode::Relative, 2, false)
    } else if opcode == 0x51 {
        entry(Op::Eor, Mode::IndirectY, 5, true)
    } else if opcode == 0x55 {
        entry(Op::Eor, Mode::ZeroPageX, 4, false)
    } else if opcode == 0x56 {
        entry(Op::Lsr, Mode::ZeroPageX, 6, false)
    } else if opcode == 0x58 {
        entry(Op::Cli, Mode::Implied, 2, false)
    } else if opcode == 0x59 {
        entry(Op::Eor, Mode::AbsoluteY, 4, true)
    } else if opcode == 0x5d {
        entry(Op::Eor, Mode::AbsoluteX, 4, true)
    } else if opcode == 0x5e {
        entry(Op::Lsr, Mode::AbsoluteX, 7, false)
    } else if opcode == 0x60 {
        entry(Op::Rts, Mode::Implied, 6, false)
    } else if opcode == 0x61 {
        entry(Op::Adc, Mode::IndirectX, 6, false)
    } else if opcode == 0x65 {
        entry(Op::Adc, Mode::ZeroPage, 3, false)
    } else if opcode == 0x66 {
        entry(Op::Ror, Mode::ZeroPage, 5, false)
    } else if opcode == 0x68 {
        entry(Op::Pla, Mode::Implied, 4, false)
    } else if opcode == 0x69 {
        entry(Op::Adc, Mode::Immediate, 2, false)
    } else if opcode == 0x6a {
        entry(Op::Ror, Mode::Accumulator, 2, false)
    } else if opcode == 0x6c {
        entry(Op::Jmp, Mode::Indirect, 5, false)
    } else if opcode == 0x6d {
        entry(Op::Adc, Mode::Absolute, 4, false)
    } else if opcode == 0x6e {
        entry(Op::Ror, Mode::Absolute, 6, false)
    } else if opcode == 0x70 {
        entry(Op::Bvs, Mode::Relative, 2, false)
    } else if opcode == 0x71 {
        entry(Op::Adc, Mode::IndirectY, 5, true)
    } else if opcode == 0x75 {
        entry(Op::Adc, Mode::ZeroPageX, 4, false)
    } else if opcode == 0x76 {
        entry(Op::Ror, Mode::ZeroPageX, 6, false)
    } else if opcode == 0x78 {
        entry(Op::Sei, Mode::Implied, 2, false)
    } else if opcode == 0x79 {
        entry(Op::Adc, Mode::AbsoluteY, 4, true)
    } else if opcode == 0x7d {
        entry(Op::Adc, Mode::AbsoluteX, 4, true)
    } else if opcode == 0x7e {
        entry(Op::Ror, Mode::AbsoluteX, 7, false)
    } else if opcode == 0x81 {
        entry(Op::Sta, Mode::IndirectX, 6, false)
    } else if opcode == 0x84 {
        entry(Op::Sty, Mode::ZeroPage, 3, false)
    } else if opcode == 0x85 {
        entry(Op::Sta, Mode::ZeroPage, 3, false)
    } else if opcode == 0x86 {
        entry(Op::Stx, Mode::ZeroPage, 3, false)
    } else if opcode == 0x88 {
        entry(Op::Dey, Mode::Implied, 2, false)
    } else if opcode == 0x8a {
        entry(Op::Txa, Mode::Implied, 2, false)
    } else if opcode == 0x8c {
        entry(Op::Sty, Mode::Absolute, 4, false)
    } else if opcode == 0x8d {
        entry(Op::Sta, Mode::Absolute, 4, false)
    } else if opcode == 0x8e {
        entry(Op::Stx, Mode::Absolute, 4, false)
    } else if opcode == 0x90 {
        entry(Op::Bcc, Mode::Relative, 2, false)
    } else if opcode == 0x91 {
        entry(Op::Sta, Mode::IndirectY, 6, false)
    } else if opcode == 0x94 {
        entry(Op::Sty, Mode::ZeroPageX, 4, false)
    } else if opcode == 0x95 {
        entry(Op::Sta, Mode::ZeroPageX, 4, false)
    } else if opcode == 0x96 {
        entry(Op::Stx, Mode::ZeroPageY, 4, false)
    } else if opcode == 0x98 {
        entry(Op::Tya, Mode::Implied, 2, false)
    } else if opcode == 0x99 {
        entry(Op::Sta, Mode::AbsoluteY, 5, false)
    } else if opcode == 0x9a {
        entry(Op::Txs, Mode::Implied, 2, false)
    } else if opcode == 0x9d {
        entry(Op::Sta, Mode::AbsoluteX, 5, false)
    } else if opcode == 0xa0 {
        entry(Op::Ldy, Mode::Immediate, 2, false)
    } else if opcode == 0xa1 {
        entry(Op::Lda, Mode::IndirectX, 6, false)
    } else if opcode == 0xa2 {
        entry(Op::Ldx, Mode::Immediate, 2, false)
    } else if opcode == 0xa4 {
        entry(Op::Ldy, Mode::ZeroPage, 3, false)
    } else if opcode == 0xa5 {
        entry(Op::Lda, Mode::ZeroPage, 3, false)
    } else if opcode == 0xa6 {
        entry(Op::Ldx, Mode::ZeroPage, 3, false)
    } else if opcode == 0xa8 {
        entry(Op::Tay, Mode::Implied, 2, false)
    } else if opcode == 0xa9 {
        entry(Op::Lda, Mode::Immediate, 2, false)
    } else if opcode == 0xaa {
        entry(Op::Tax, Mode::Implied, 2, false)
    } else if opcode == 0xac {
        entry(Op::Ldy, Mode::Absolute, 4, false)
    } else if opcode == 0xad {
        entry(Op::Lda, Mode::Absolute, 4, false)
    } else if opcode == 0xae {
        entry(Op::Ldx, Mode::Absolute, 4, false)
    } else if opcode == 0xb0 {
        entry(Op::Bcs, Mode::Relative, 2, false)
    } else if opcode == 0xb1 {
        entry(Op::Lda, Mode::IndirectY, 5, true)
    } else if opcode == 0xb4 {
        entry(Op::Ldy, Mode::ZeroPageX, 4, false)
    } else if opcode == 0xb5 {
        entry(Op::Lda, Mode::ZeroPageX, 4, false)
    } else if opcode == 0xb6 {
        entry(Op::Ldx, Mode::ZeroPageY, 4, false)
    } else if opcode == 0xb8 {
        entry(Op::Clv, Mode::Implied, 2, false)
    } else if opcode == 0xb9 {
        entry(Op::Lda, Mode::AbsoluteY, 4, true)
    } else if opcode == 0xba {
        entry(Op::Tsx, Mode::Implied, 2, false)
    } else if opcode == 0xbc {
        entry(Op::Ldy, Mode::AbsoluteX, 4, true)
    } else if opcode == 0xbd {
        entry(Op::Lda, Mode::AbsoluteX, 4, true)
    } else if opcode == 0xbe {
        entry(Op::Ldx, Mode::AbsoluteY, 4, true)
    } else if opcode == 0xc0 {
        entry(Op::CompareY, Mode::Immediate, 2, false)
    } else if opcode == 0xc1 {
        entry(Op::Compare, Mode::IndirectX, 6, false)
    } else if opcode == 0xc4 {
        entry(Op::CompareY, Mode::ZeroPage, 3, false)
    } else if opcode == 0xc5 {
        entry(Op::Compare, Mode::ZeroPage, 3, false)
    } else if opcode == 0xc6 {
        entry(Op::Dec, Mode::ZeroPage, 5, false)
    } else if opcode == 0xc8 {
        entry(Op::Iny, Mode::Implied, 2, false)
    } else if opcode == 0xc9 {
        entry(Op::Compare, Mode::Immediate, 2, false)
    } else if opcode == 0xca {
        entry(Op::Dex, Mode::Implied, 2, false)
    } else if opcode == 0xcc {
        entry(Op::CompareY, Mode::Absolute, 4, false)
    } else if opcode == 0xcd {
        entry(Op::Compare, Mode::Absolute, 4, false)
    } else if opcode == 0xce {
        entry(Op::Dec, Mode::Absolute, 6, false)
    } else if opcode == 0xd0 {
        entry(Op::Bne, Mode::Relative, 2, false)
    } else if opcode == 0xd1 {
        entry(Op::Compare, Mode::IndirectY, 5, true)
    } else if opcode == 0xd5 {
        entry(Op::Compare, Mode::ZeroPageX, 4, false)
    } else if opcode == 0xd6 {
        entry(Op::Dec, Mode::ZeroPageX, 6, false)
    } else if opcode == 0xd8 {
        entry(Op::Cld, Mode::Implied, 2, false)
    } else if opcode == 0xd9 {
        entry(Op::Compare, Mode::AbsoluteY, 4, true)
    } else if opcode == 0xdd {
        entry(Op::Compare, Mode::AbsoluteX, 4, true)
    } else if opcode == 0xde {
        entry(Op::Dec, Mode::AbsoluteX, 7, false)
    } else if opcode == 0xe0 {
        entry(Op::CompareX, Mode::Immediate, 2, false)
    } else if opcode == 0xe1 {
        entry(Op::Sbc, Mode::IndirectX, 6, false)
    } else if opcode == 0xe4 {
        entry(Op::CompareX, Mode::ZeroPage, 3, false)
    } else if opcode == 0xe5 {
        entry(Op::Sbc, Mode::ZeroPage, 3, false)
    } else if opcode == 0xe6 {
        entry(Op::Inc, Mode::ZeroPage, 5, false)
    } else if opcode == 0xe8 {
        entry(Op::Inx, Mode::Implied, 2, false)
    } else if opcode == 0xe9 {
        entry(Op::Sbc, Mode::Immediate, 2, false)
    } else if opcode == 0xea {
        entry(Op::Nop, Mode::Implied, 2, false)
    } else if opcode == 0xec {
        entry(Op::CompareX, Mode::Absolute, 4, false)
    } else if opcode == 0xed {
        entry(Op::Sbc, Mode::Absolute, 4, false)
    } else if opcode == 0xee {
        entry(Op::Inc, Mode::Absolute, 6, false)
    } else if opcode == 0xf0 {
        entry(Op::Beq, Mode::Relative, 2, false)
    } else if opcode == 0xf1 {
        entry(Op::Sbc, Mode::IndirectY, 5, true)
    } else if opcode == 0xf5 {
        entry(Op::Sbc, Mode::ZeroPageX, 4, false)
    } else if opcode == 0xf6 {
        entry(Op::Inc, Mode::ZeroPageX, 6, false)
    } else if opcode == 0xf8 {
        entry(Op::Sed, Mode::Implied, 2, false)
    } else if opcode == 0xf9 {
        entry(Op::Sbc, Mode::AbsoluteY, 4, true)
    } else if opcode == 0xfd {
        entry(Op::Sbc, Mode::AbsoluteX, 4, true)
    } else if opcode == 0xfe {
        entry(Op::Inc, Mode::AbsoluteX, 7, false)
    } else {
        entry(Op::Nop, Mode::Implied, 2, false)
    }

}

/// How many bytes follow the opcode.
pub open spec fn operand_length(mode: Mode) -> int {
    match mode {
        Mode::Implied | Mode::Accumulator => 0,
        Mode::Absolute | Mode::AbsoluteX | Mode::AbsoluteY | Mode::Indirect => 2,
        _ => 1,
    }
}

/// An entry of the instruction set.
fn make(op: Op, mode: Mode, cycles: u8, page_cycle: bool) -> (instruction: Instruction)
    ensures
        instruction == entry(op, mode, cycles, page_cycle),
{
    Instruction { op, mode, cycles, page_cycle }
}

/// The opcodes that end in the bits 01: eight operations on the
/// accumulator, each in the same eight addressing modes.
fn decode_accumulator_group(row: u8, column: u8) -> (instruction: Instruction)
    requires
        row < 8,
        column < 8,
    ensures
        instruction == decoded((row * 32 + column * 4 + 1) as u8),
        2 <= instruction.cycles <= 7,
{
    reveal(decoded);
    let op: Op = if row == 0 {
        Op::Ora
    } else if row == 1 {
        Op::And
    } else if row == 2 {
        Op::Eor
    } else if row == 3 {
        Op::Adc
    } else if row == 4 {
        Op::Sta
    } else if row == 5 {
        Op::Lda
    } else if row == 6 {
        Op::Compare
    } else {
        Op::Sbc
    };
    let store: bool = row == 4;
    if column == 0 {
        make(op, Mode::IndirectX, 6, false)
    } else if column == 1 {
        make(op, Mode::ZeroPage, 3, false)
    } else if column == 2 {
        if store {
            make(Op::Nop, Mode::Implied, 2, false)
        } else {
            make(op, Mode::Immediate, 2, false)
        }
    } else if column == 3 {
        make(op, Mode::Absolute, 4, false)
    } else if column == 4 {
        if store {
            make(op, Mode::IndirectY, 6, false)
        } else {
            make(op, Mode::IndirectY, 5, true)
        }
    } else if column == 5 {
        make(op, Mode::ZeroPageX, 4, false)
    } else if column == 6 {
        if store {
            make(op, Mode::AbsoluteY, 5, false)
        } else {
            make(op, Mode::AbsoluteY, 4, true)
        }
    } else {
        if store {
            make(op, Mode::AbsoluteX, 5, false)
        } else {
            make(op, Mode::AbsoluteX, 4, true)
        }
    }
}

/// The opcodes that end in the bits 10: the shifts and rotations, the
/// increment and decrement of memory, the load and store of X, and the
/// transfers that stand where those have no addressing mode.
fn decode_modify_group(row: u8, column: u8) -> (instruction: Instruction)
    requires
        row < 8,
        column < 8,
    ensures
        instruction == decoded((row * 32 + column * 4 + 2) as u8),
        2 <= instruction.cycles <= 7,
{
    reveal(decoded);
    let nop: Instruction = make(Op::Nop, Mode::Implied, 2, false);
    if row == 4 {
        if column == 1 {
            make(Op::Stx, Mode::ZeroPage, 3, false)
        } else if column == 2 {
            make(Op::Txa, Mode::Implied, 2, false)
        } else if column == 3 {
            make(Op::Stx, Mode::Absolute, 4, false)
        } else if column == 5 {
            make(Op::Stx, Mode::ZeroPageY, 4, false)
        } else if column == 6 {
            make(Op::Txs, Mode::Implied, 2, false)
        } else {
            nop
        }
    } else if row == 5 {
        if column == 0 {
            make(Op::Ldx, Mode::Immediate, 2, false)
        } else if column == 1 {
            make(Op::Ldx, Mode::ZeroPage, 3, false)
        } else if column == 2 {
            make(Op::Tax, Mode::Implied, 2, false)
        } else if column == 3 {
            make(Op::Ldx, Mode::Absolute, 4, false)
        } else if column == 5 {
            make(Op::Ldx, Mode::ZeroPageY, 4, false)
        } else if column == 6 {
            make(Op::Tsx, Mode::Implied, 2, false)
        } else if column == 7 {
            make(Op::Ldx, Mode::AbsoluteY, 4, true)
        } else {
            nop
        }
    } else {
        let op: Op = if row == 0 {
            Op::Asl
        } else if row == 1 {
            Op::Rol
        } else if row == 2 {
            Op::Lsr
        } else if row == 3 {
            Op::Ror
        } else if row == 6 {
            Op::Dec
        } else {
            Op::Inc
        };
        if column == 1 {
            make(op, Mode::ZeroPage, 5, false)
        } else if column == 2 {
            if row < 4 {
                make(op, Mode::Accumulator, 2, false)
            } else if row == 6 {
                make(Op::Dex, Mode::Implied, 2, false)
            } else {
                nop
            }
        } else if column == 3 {
            make(op, Mode::Absolute, 6, false)
        } else if column == 5 {
            make(op, Mode::ZeroPageX, 6, false)
        } else if column == 7 {
            make(op, Mode::AbsoluteX, 7, false)
        } else {
            nop
        }
    }
}

/// The opcodes that end in the bits 00: the branches, the flag
/// instructions, the jumps, the stack instructions, and the loads, stores
/// and comparisons of the index registers.
fn decode_control_group(row: u8, column: u8) -> (instruction: Instruction)
    requires
        row < 8,
        column < 8,
    ensures
        instruction == decoded((row * 32 + column * 4) as u8),
        2 <= instruction.cycles <= 7,
{
    reveal(decoded);
    let nop: Instruction = make(Op::Nop, Mode::Implied, 2, false);
    if column == 4 {
        let op: Op = if row == 0 {
            Op::Bpl
        } else if row == 1 {
            Op::Bmi
        } else if row == 2 {
            Op::Bvc
        } else if row == 3 {
            Op::Bvs
        } else if row == 4 {
            Op::Bcc
        } else if row == 5 {
            Op::Bcs
        } else if row == 6 {
            Op::Bne
        } else {
            Op::Beq
        };
        make(op, Mode::Relative, 2, false)
    } else if column == 6 {
        let op: Op = if row == 0 {
            Op::Clc
        } else if row == 1 {
            Op::Sec
        } else if row == 2 {
            Op::Cli
        } else if row == 3 {
            Op::Sei
        } else if row == 4 {
            Op::Tya
        } else if row == 5 {
            Op::Clv
        } else if row == 6 {
            Op::Cld
        } else {
            Op::Sed
        };
        make(op, Mode::Implied, 2, false)
    } else if column == 2 {
        if row == 0 {
            make(Op::Php, Mode::Implied, 3, false)
        } else if row == 1 {
            make(Op::Plp, Mode::Implied, 4, false)
        } else if row == 2 {
            make(Op::Pha, Mode::Implied, 3, false)
        } else if row == 3 {
            make(Op::Pla, Mode::Implied, 4, false)
        } else if row == 4 {
            make(Op::Dey, Mode::Implied, 2, false)
        } else if row == 5 {
            make(Op::Tay, Mode::Implied, 2, false)
        } else if row == 6 {
            make(Op::Iny, Mode::Implied, 2, false)
        } else {
            make(Op::Inx, Mode::Implied, 2, false)
        }
    } else if column == 0 {
        if row == 0 {
            make(Op::Brk, Mode::Implied, 7, false)
        } else if row == 1 {
            make(Op::Jsr, Mode::Absolute, 6, false)
        } else if row == 2 {
            make(Op::Rti, Mode::Implied, 6, false)
        } else if row == 3 {
            make(Op::Rts, Mode::Implied, 6, false)
        } else if row == 4 {
            nop
        } else if row == 5 {
            make(Op::Ldy, Mode::Immediate, 2, false)
        } else if row == 6 {
            make(Op::CompareY, Mode::Immediate, 2, false)
        } else {
            make(Op::CompareX, Mode::Immediate, 2, false)
        }
    } else if row == 2 && column == 3 {
        make(Op::Jmp, Mode::Absolute, 3, false)
    } else if row == 3 && column == 3 {
        make(Op::Jmp, Mode::Indirect, 5, false)
    } else if row == 0 || row == 2 || row == 3 {
        nop
    } else if row == 1 {
        if column == 1 {
            make(Op::Bit, Mode::ZeroPage, 3, false)
        } else if column == 3 {
            make(Op::Bit, Mode::Absolute, 4, false)
        } else {
            nop
        }
    } else if row == 4 {
        if column == 1 {
            make(Op::Sty, Mode::ZeroPage, 3, false)
        } else if column == 3 {
            make(Op::Sty, Mode::Absolute, 4, false)
        } else if column == 5 {
            make(Op::Sty, Mode::ZeroPageX, 4, false)
        } else {
            nop
        }
    } else if row == 5 {
        if column == 1 {
            make(Op::Ldy, Mode::ZeroPage, 3, false)
        } else if column == 3 {
            make(Op::Ldy, Mode::Absolute, 4, false)
        } else if column == 5 {
            make(Op::Ldy, Mode::ZeroPageX, 4, false)
        } else {
            make(Op::Ldy, Mode::AbsoluteX, 4, true)
        }
    } else {
        let op: Op = if row == 6 {
            Op::CompareY
        } else {
            Op::CompareX
        };
        if column == 1 {
            make(op, Mode::ZeroPage, 3, false)
        } else if column == 3 {
            make(op, Mode::Absolute, 4, false)
        } else {
            nop
        }
    }
}

/// Decodes an opcode by its three fields: the two lowest bits name a group
/// of instructions, the three highest bits an operation of the group and
/// the three bits between them an addressing mode.
pub fn decode(opcode: u8) -> (instruction: Instruction)
    ensures
        instruction == decoded(opcode),
        2 <= instruction.cycles <= 7,
{
    let group: u8 = opcode % 4;
    let column: u8 = (opcode / 4) % 8;
    let row: u8 = opcode / 32;
    assert(opcode == row * 32 + column * 4 + group);
    if group == 0 {
        decode_control_group(row, column)
    } else if group == 1 {
        decode_accumulator_group(row, column)
    } else if group == 2 {
        decode_modify_group(row, column)
    } else {
        proof {
            lemma_undocumented(row, column);
        }
        make(Op::Nop, Mode::Implied, 2, false)
    }
}

/// Every instruction takes two cycles at least and seven at most, before
/// what a branch or a page crossing adds; only indexed reads pay for a page
/// crossing, and no branch does.
pub proof fn law_cycles_of_the_table(opcode: u8)
    ensures
        2 <= decoded(opcode).cycles <= 7,
        decoded(opcode).page_cycle ==> decoded(opcode).mode == Mode::AbsoluteX || decoded(
            opcode,
        ).mode == Mode::AbsoluteY || decoded(opcode).mode == Mode::IndirectY,
        decoded(opcode).mode == Mode::Relative ==> decoded(opcode).cycles == 2 && !decoded(
            opcode,
        ).page_cycle,
{
    reveal(decoded);
}

/// The opcode `$69` is `ADC` with an immediate operand.
pub proof fn lemma_adc_immediate_entry()
    ensures
        decoded(0x69) == entry(Op::Adc, Mode::Immediate, 2, false),
{
    reveal(decoded);
}

/// No documented opcode ends in the bits 11.
proof fn lemma_undocumented(row: u8, column: u8)
    requires
        row < 8,
        column < 8,
    ensures
        decoded((row * 32 + column * 4 + 3) as u8) == entry(Op::Nop, Mode::Implied, 2, false),
{
    reveal(decoded);
}

/// How many bytes follow the opcode.
pub fn operand_bytes(mode: Mode) -> (length: u16)
    ensures
        length == operand_length(mode),
{
    match mode {
        Mode::Implied | Mode::Accumulator => 0,
        Mode::Absolute | Mode::AbsoluteX | Mode::AbsoluteY | Mode::Indirect => 2,
        _ => 1,
    }
}

} // verus!
