use vstd::prelude::*;

use crate::bus::{ram_index, BUS};

verus! {

// Status register bits, from bit 0 to bit 7.
pub const CARRY: u8 = 0x01;
pub const ZERO: u8 = 0x02;
pub const INTERRUPT_DISABLE: u8 = 0x04;
pub const DECIMAL: u8 = 0x08;
pub const BREAK: u8 = 0x10;
pub const UNUSED: u8 = 0x20;
pub const OVERFLOW: u8 = 0x40;
pub const NEGATIVE: u8 = 0x80;

/// Interrupt vectors: each holds a little-endian address.
pub const NMI_VECTOR: u16 = 0xFFFA;
pub const RESET_VECTOR: u16 = 0xFFFC;
pub const IRQ_VECTOR: u16 = 0xFFFE;

/// Addressing modes. The accumulator forms of the shifts have instructions of their own.
#[derive(Clone, Copy, Debug, PartialEq, Eq, Structural)]
pub enum Mode {
    Immediate,
    ZeroPage,
    ZeroPageX,
    ZeroPageY,
    Relative,
    Absolute,
    AbsoluteX,
    AbsoluteY,
    Indirect,
    IndirectX,
    IndirectY,
    Implied,
}

impl Mode {
    /// The mode names an operand in memory.
    pub open spec fn addressable(self) -> bool {
        !(self is Relative) && !(self is Implied)
    }
}

/// Interrupt sources.
#[derive(Clone, Copy, Debug, PartialEq, Eq, Structural)]
pub enum Interrupt {
    Reset,
    Irq,
    Nmi,
    Break,
}

/// The registers of the 2A03 core, its cycle bookkeeping, and the bus it drives.
pub struct CPU {
    pub bus: BUS,
    /// Cycles left before the current instruction completes.
    pub cycles: u8,
    /// Cycles elapsed since power-on; wraps.
    pub cycle_count: usize,
    pub a: u8,
    pub x: u8,
    pub y: u8,
    pub p: u8,
    pub sp: u8,
    pub pc: u16,
}

/// The machine state at the start of an instruction, as one line of a trace shows it.
#[derive(Clone, Copy, Debug, PartialEq, Eq, Structural)]
pub struct TraceRecord {
    pub pc: u16,
    pub opcode: u8,
    pub operand1: u8,
    pub operand2: u8,
    pub a: u8,
    pub x: u8,
    pub y: u8,
    pub p: u8,
    pub sp: u8,
    pub cycle_count: usize,
}

/// Where an operand lies, where the program counter goes past it, and whether
/// indexing crossed a page.
pub struct Fetch {
    pub addr: u16,
    pub pc: u16,
    pub crossed: bool,
}

/// The flag `mask` is set in `p`.
pub open spec fn flag_on(p: u8, mask: u8) -> bool {
    p & mask == mask
}

/// `p` with the flag `mask` set to `on`.
pub open spec fn set_flag(p: u8, mask: u8, on: bool) -> u8 {
    if on {
        p | mask
    } else {
        p & !mask
    }
}

/// `p` with Z and N set from `v`.
pub open spec fn with_zn(p: u8, v: u8) -> u8 {
    set_flag(set_flag(p, ZERO, v == 0), NEGATIVE, v & 0x80 != 0)
}

/// The little-endian word of two bytes.
pub open spec fn word(lo: u8, hi: u8) -> u16 {
    (hi as int * 256 + lo as int) as u16
}

/// The page of an address: its high byte, in place.
pub open spec fn page(addr: u16) -> u16 {
    addr & 0xFF00
}

/// Stack slot addressed by the stack pointer `sp` (the stack lives in page 1).
pub open spec fn stack_addr(sp: u8) -> u16 {
    (0x100 + sp as int) as u16
}

/// One more cycle where an indexed access crossed a page and the instruction pays for it.
pub open spec fn charge(cycles: u8, f: Fetch, sensitive: bool) -> u8 {
    if f.crossed && sensitive {
        (cycles + 1) as u8
    } else {
        cycles
    }
}

/// Sign extension of a branch offset to 16 bits.
pub open spec fn branch_offset(b: u8) -> u16 {
    if b < 128 {
        b as u16
    } else {
        (b as int + 0xFF00) as u16
    }
}

/// The unrounded sum that ADC forms.
pub open spec fn adc_sum(a: u8, m: u8, carry: bool) -> u16 {
    (a as int + m as int + if carry {
        1int
    } else {
        0int
    }) as u16
}

/// Status after adding `m` and the carry to `a`: V, C, Z and N in that order.
pub open spec fn adc_flags(p: u8, a: u8, m: u8) -> u8 {
    let sum = adc_sum(a, m, flag_on(p, CARRY));
    let r = sum as u8;
    let v = (a ^ r) & (m ^ r) & 0x80 != 0;
    with_zn(set_flag(set_flag(p, OVERFLOW, v), CARRY, sum > 0xFF), r)
}

/// Status after comparing register `reg` with `m`: Z, N, then C.
pub open spec fn compare_flags(p: u8, reg: u8, m: u8) -> u8 {
    set_flag(with_zn(p, reg.wrapping_sub(m)), CARRY, reg >= m)
}

/// Status after BIT: Z from `a & m`, V and N from bits 6 and 7 of `m`.
pub open spec fn bit_flags(p: u8, a: u8, m: u8) -> u8 {
    set_flag(set_flag(set_flag(p, ZERO, a & m == 0), OVERFLOW, m & 0x40 != 0), NEGATIVE, m & 0x80 != 0)
}

/// Status pulled from the stack: B keeps its current value, U reads 1.
pub open spec fn pulled_status(p: u8, v: u8) -> u8 {
    (v & 0xCF) | (p & BREAK) | UNUSED
}

/// Status as pushed by PHP and BRK: B and U set.
pub open spec fn pushed_status(p: u8) -> u8 {
    p | BREAK | UNUSED
}

/// Status as pushed by a hardware interrupt: B clear, U set.
pub open spec fn irq_status(p: u8) -> u8 {
    (p & !BREAK) | UNUSED
}

/// The shift and rotate operations.
#[derive(Clone, Copy, Debug, PartialEq, Eq, Structural)]
pub enum Shift {
    Asl,
    Lsr,
    Rol,
    Ror,
}

/// The value that a shift or rotate of `m` gives, with `carry` as the bit rotated in.
pub open spec fn shifted(k: Shift, m: u8, carry: bool) -> u8 {
    let c: u8 = if carry { 1 } else { 0 };
    match k {
        Shift::Asl => m << 1u8,
        Shift::Lsr => m >> 1u8,
        Shift::Rol => (m << 1u8) | c,
        Shift::Ror => (m >> 1u8) | (c << 7u8),
    }
}

/// The bit that a shift or rotate of `m` moves into the carry.
pub open spec fn shifted_out(k: Shift, m: u8) -> bool {
    match k {
        Shift::Asl | Shift::Rol => m & 0x80 != 0,
        Shift::Lsr | Shift::Ror => m & 0x01 != 0,
    }
}

/// Status after a shift or rotate of `m` that gave `r`: C, then Z and N.
pub open spec fn shift_flags(k: Shift, p: u8, m: u8, r: u8) -> u8 {
    with_zn(set_flag(p, CARRY, shifted_out(k, m)), r)
}

/// The instructions; the undocumented ones are named as the community names them.
#[derive(Clone, Copy, Debug, PartialEq, Eq, Structural)]
pub enum Instr {
    Adc, And, Asl, AslA, Bcc, Bcs, Beq, Bit, Bmi, Bne, Bpl, Brk, Bvc, Bvs, Clc, Cld, Cli, Clv,
    Cmp, Cpx, Cpy, Dcp, Dec, Dex, Dey, Eor, Inc, Inx, Iny, Isc, Jmp, Jsr, Lax, Lda, Ldx, Ldy,
    Lsr, LsrA, Nop, NopRead, Ora, Pha, Php, Pla, Plp, Rla, Rol, RolA, Ror, RorA, Rra, Rti, Rts,
    Sax, Sbc, Sec, Sed, Sei, Slo, Sre, Sta, Stx, Sty, Tax, Tay, Tsx, Txa, Txs, Tya,
}

/// Base cycle count of each opcode.
pub const CYCLES_LIST: [u8; 256] = [
    7, 6, 2, 8, 3, 3, 5, 5, 3, 2, 2, 2, 4, 4, 6, 6,
    2, 5, 2, 8, 4, 4, 6, 6, 2, 4, 2, 7, 4, 4, 7, 7,
    6, 6, 2, 8, 3, 3, 5, 5, 4, 2, 2, 2, 4, 4, 6, 6,
    2, 5, 2, 8, 4, 4, 6, 6, 2, 4, 2, 7, 4, 4, 7, 7,
    6, 6, 2, 8, 3, 3, 5, 5, 3, 2, 2, 2, 3, 4, 6, 6,
    2, 5, 2, 8, 4, 4, 6, 6, 2, 4, 2, 7, 4, 4, 7, 7,
    6, 6, 2, 8, 3, 3, 5, 5, 4, 2, 2, 2, 5, 4, 6, 6,
    2, 5, 2, 8, 4, 4, 6, 6, 2, 4, 2, 7, 4, 4, 7, 7,
    2, 6, 2, 6, 3, 3, 3, 3, 2, 2, 2, 2, 4, 4, 4, 4,
    2, 6, 2, 6, 4, 4, 4, 4, 2, 5, 2, 5, 5, 5, 5, 5,
    2, 6, 2, 6, 3, 3, 3, 3, 2, 2, 2, 2, 4, 4, 4, 4,
    2, 5, 2, 5, 4, 4, 4, 4, 2, 4, 2, 4, 4, 4, 4, 4,
    2, 6, 2, 8, 3, 3, 5, 5, 2, 2, 2, 2, 4, 4, 6, 6,
    2, 5, 2, 8, 4, 4, 6, 6, 2, 4, 2, 7, 4, 4, 7, 7,
    2, 6, 2, 8, 3, 3, 5, 5, 2, 2, 2, 2, 4, 4, 6, 6,
    2, 5, 2, 8, 4, 4, 6, 6, 2, 4, 2, 7, 4, 4, 7, 7,
];

/// The instruction and addressing mode of each opcode; opcodes without one run as NOP.
pub open spec fn decode(opcode: u8) -> (Instr, Mode) {
    match opcode {
        0x00 => (Instr::Brk, Mode::Implied),
        0x01 => (Instr::Ora, Mode::IndirectX),
        0x05 => (Instr::Ora, Mode::ZeroPage),
        0x06 => (Instr::Asl, Mode::ZeroPage),
        0x08 => (Instr::Php, Mode::Implied),
        0x09 => (Instr::Ora, Mode::Immediate),
        0x0A => (Instr::AslA, Mode::Implied),
        0x0D => (Instr::Ora, Mode::Absolute),
        0x0E => (Instr::Asl, Mode::Absolute),
        0x10 => (Instr::Bpl, Mode::Relative),
        0x11 => (Instr::Ora, Mode::IndirectY),
        0x15 => (Instr::Ora, Mode::ZeroPageX),
        0x16 => (Instr::Asl, Mode::ZeroPageX),
        0x18 => (Instr::Clc, Mode::Implied),
        0x19 => (Instr::Ora, Mode::AbsoluteY),
        0x1D => (Instr::Ora, Mode::AbsoluteX),
        0x1E => (Instr::Asl, Mode::AbsoluteX),
        0x20 => (Instr::Jsr, Mode::Absolute),
        0x21 => (Instr::And, Mode::IndirectX),
        0x24 => (Instr::Bit, Mode::ZeroPage),
        0x25 => (Instr::And, Mode::ZeroPage),
        0x26 => (Instr::Rol, Mode::ZeroPage),
        0x28 => (Instr::Plp, Mode::Implied),
        0x29 => (Instr::And, Mode::Immediate),
        0x2A => (Instr::RolA, Mode::Implied),
        0x2C => (Instr::Bit, Mode::Absolute),
        0x2D => (Instr::And, Mode::Absolute),
        0x2E => (Instr::Rol, Mode::Absolute),
        0x30 => (Instr::Bmi, Mode::Relative),
        0x31 => (Instr::And, Mode::IndirectY),
        0x35 => (Instr::And, Mode::ZeroPageX),
        0x36 => (Instr::Rol, Mode::ZeroPageX),
        0x38 => (Instr::Sec, Mode::Implied),
        0x39 => (Instr::And, Mode::AbsoluteY),
        0x3D => (Instr::And, Mode::AbsoluteX),
        0x3E => (Instr::Rol, Mode::AbsoluteX),
        0x40 => (Instr::Rti, Mode::Implied),
        0x41 => (Instr::Eor, Mode::IndirectX),
        0x45 => (Instr::Eor, Mode::ZeroPage),
        0x46 => (Instr::Lsr, Mode::ZeroPage),
        0x48 => (Instr::Pha, Mode::Implied),
        0x49 => (Instr::Eor, Mode::Immediate),
        0x4A => (Instr::LsrA, Mode::Implied),
        0x4C => (Instr::Jmp, Mode::Absolute),
        0x4D => (Instr::Eor, Mode::Absolute),
        0x4E => (Instr::Lsr, Mode::Absolute),
        0x50 => (Instr::Bvc, Mode::Relative),
        0x51 => (Instr::Eor, Mode::IndirectY),
        0x55 => (Instr::Eor, Mode::ZeroPageX),
        0x56 => (Instr::Lsr, Mode::ZeroPageX),
        0x58 => (Instr::Cli, Mode::Implied),
        0x59 => (Instr::Eor, Mode::AbsoluteY),
        0x5D => (Instr::Eor, Mode::AbsoluteX),
        0x5E => (Instr::Lsr, Mode::AbsoluteX),
        0x60 => (Instr::Rts, Mode::Implied),
        0x61 => (Instr::Adc, Mode::IndirectX),
        0x65 => (Instr::Adc, Mode::ZeroPage),
        0x66 => (Instr::Ror, Mode::ZeroPage),
        0x68 => (Instr::Pla, Mode::Implied),
        0x69 => (Instr::Adc, Mode::Immediate),
        0x6A => (Instr::RorA, Mode::Implied),
        0x6C => (Instr::Jmp, Mode::Indirect),
        0x6D => (Instr::Adc, Mode::Absolute),
        0x6E => (Instr::Ror, Mode::Absolute),
        0x70 => (Instr::Bvs, Mode::Relative),
        0x71 => (Instr::Adc, Mode::IndirectY),
        0x75 => (Instr::Adc, Mode::ZeroPageX),
        0x76 => (Instr::Ror, Mode::ZeroPageX),
        0x78 => (Instr::Sei, Mode::Implied),
        0x79 => (Instr::Adc, Mode::AbsoluteY),
        0x7D => (Instr::Adc, Mode::AbsoluteX),
        0x7E => (Instr::Ror, Mode::AbsoluteX),
        0x81 => (Instr::Sta, Mode::IndirectX),
        0x84 => (Instr::Sty, Mode::ZeroPage),
        0x85 => (Instr::Sta, Mode::ZeroPage),
        0x86 => (Instr::Stx, Mode::ZeroPage),
        0x88 => (Instr::Dey, Mode::Implied),
        0x8A => (Instr::Txa, Mode::Implied),
        0x8C => (Instr::Sty, Mode::Absolute),
        0x8D => (Instr::Sta, Mode::Absolute),
        0x8E => (Instr::Stx, Mode::Absolute),
        0x90 => (Instr::Bcc, Mode::Relative),
        0x91 => (Instr::Sta, Mode::IndirectY),
        0x94 => (Instr::Sty, Mode::ZeroPageX),
        0x95 => (Instr::Sta, Mode::ZeroPageX),
        0x96 => (Instr::Stx, Mode::ZeroPageY),
        0x98 => (Instr::Tya, Mode::Implied),
        0x99 => (Instr::Sta, Mode::AbsoluteY),
        0x9A => (Instr::Txs, Mode::Implied),
        0x9D => (Instr::Sta, Mode::AbsoluteX),
        0xA0 => (Instr::Ldy, Mode::Immediate),
        0xA1 => (Instr::Lda, Mode::IndirectX),
        0xA2 => (Instr::Ldx, Mode::Immediate),
        0xA4 => (Instr::Ldy, Mode::ZeroPage),
        0xA5 => (Instr::Lda, Mode::ZeroPage),
        0xA6 => (Instr::Ldx, Mode::ZeroPage),
        0xA8 => (Instr::Tay, Mode::Implied),
        0xA9 => (Instr::Lda, Mode::Immediate),
        0xAA => (Instr::Tax, Mode::Implied),
        0xAC => (Instr::Ldy, Mode::Absolute),
        0xAD => (Instr::Lda, Mode::Absolute),
        0xAE => (Instr::Ldx, Mode::Absolute),
        0xB0 => (Instr::Bcs, Mode::Relative),
        0xB1 => (Instr::Lda, Mode::IndirectY),
        0xB4 => (Instr::Ldy, Mode::ZeroPageX),
        0xB5 => (Instr::Lda, Mode::ZeroPageX),
        0xB6 => (Instr::Ldx, Mode::ZeroPageY),
        0xB8 => (Instr::Clv, Mode::Implied),
        0xB9 => (Instr::Lda, Mode::AbsoluteY),
        0xBA => (Instr::Tsx, Mode::Implied),
        0xBC => (Instr::Ldy, Mode::AbsoluteX),
        0xBD => (Instr::Lda, Mode::AbsoluteX),
        0xBE => (Instr::Ldx, Mode::AbsoluteY),
        0xC0 => (Instr::Cpy, Mode::Immediate),
        0xC1 => (Instr::Cmp, Mode::IndirectX),
        0xC4 => (Instr::Cpy, Mode::ZeroPage),
        0xC5 => (Instr::Cmp, Mode::ZeroPage),
        0xC6 => (Instr::Dec, Mode::ZeroPage),
        0xC8 => (Instr::Iny, Mode::Implied),
        0xC9 => (Instr::Cmp, Mode::Immediate),
        0xCA => (Instr::Dex, Mode::Implied),
        0xCC => (Instr::Cpy, Mode::Absolute),
        0xCD => (Instr::Cmp, Mode::Absolute),
        0xCE => (Instr::Dec, Mode::Absolute),
        0xD0 => (Instr::Bne, Mode::Relative),
        0xD1 => (Instr::Cmp, Mode::IndirectY),
        0xD5 => (Instr::Cmp, Mode::ZeroPageX),
        0xD6 => (Instr::Dec, Mode::ZeroPageX),
        0xD8 => (Instr::Cld, Mode::Implied),
        0xD9 => (Instr::Cmp, Mode::AbsoluteY),
        0xDD => (Instr::Cmp, Mode::AbsoluteX),
        0xDE => (Instr::Dec, Mode::AbsoluteX),
        0xE0 => (Instr::Cpx, Mode::Immediate),
        0xE1 => (Instr::Sbc, Mode::IndirectX),
        0xE4 => (Instr::Cpx, Mode::ZeroPage),
        0xE5 => (Instr::Sbc, Mode::ZeroPage),
        0xE6 => (Instr::Inc, Mode::ZeroPage),
        0xE8 => (Instr::Inx, Mode::Implied),
        0xE9 => (Instr::Sbc, Mode::Immediate),
        0xEA => (Instr::Nop, Mode::Implied),
        0xEC => (Instr::Cpx, Mode::Absolute),
        0xED => (Instr::Sbc, Mode::Absolute),
        0xEE => (Instr::Inc, Mode::Absolute),
        0xF0 => (Instr::Beq, Mode::Relative),
        0xF1 => (Instr::Sbc, Mode::IndirectY),
        0xF5 => (Instr::Sbc, Mode::ZeroPageX),
        0xF6 => (Instr::Inc, Mode::ZeroPageX),
        0xF8 => (Instr::Sed, Mode::Implied),
        0xF9 => (Instr::Sbc, Mode::AbsoluteY),
        0xFD => (Instr::Sbc, Mode::AbsoluteX),
        0xFE => (Instr::Inc, Mode::AbsoluteX),
        0x0C => (Instr::NopRead, Mode::Absolute),
        0x1C | 0x3C | 0x5C | 0x7C | 0xDC | 0xFC => (Instr::NopRead, Mode::AbsoluteX),
        0x04 | 0x44 | 0x64 => (Instr::NopRead, Mode::ZeroPage),
        0x14 | 0x34 | 0x54 | 0x74 | 0xD4 | 0xF4 => (Instr::NopRead, Mode::ZeroPageX),
        0x80 | 0x82 | 0x89 | 0xC2 | 0xE2 => (Instr::NopRead, Mode::Immediate),
        0xA7 => (Instr::Lax, Mode::ZeroPage),
        0xB7 => (Instr::Lax, Mode::ZeroPageY),
        0xA3 => (Instr::Lax, Mode::IndirectX),
        0xB3 => (Instr::Lax, Mode::IndirectY),
        0xAF => (Instr::Lax, Mode::Absolute),
        0xBF => (Instr::Lax, Mode::AbsoluteY),
        0x87 => (Instr::Sax, Mode::ZeroPage),
        0x97 => (Instr::Sax, Mode::ZeroPageY),
        0x83 => (Instr::Sax, Mode::IndirectX),
        0x8F => (Instr::Sax, Mode::Absolute),
        0xEB => (Instr::Sbc, Mode::Immediate),
        0xC7 => (Instr::Dcp, Mode::ZeroPage),
        0xD7 => (Instr::Dcp, Mode::ZeroPageX),
        0xC3 => (Instr::Dcp, Mode::IndirectX),
        0xD3 => (Instr::Dcp, Mode::IndirectY),
        0xCF => (Instr::Dcp, Mode::Absolute),
        0xDF => (Instr::Dcp, Mode::AbsoluteX),
        0xDB => (Instr::Dcp, Mode::AbsoluteY),
        0xE7 => (Instr::Isc, Mode::ZeroPage),
        0xF7 => (Instr::Isc, Mode::ZeroPageX),
        0xE3 => (Instr::Isc, Mode::IndirectX),
        0xF3 => (Instr::Isc, Mode::IndirectY),
        0xEF => (Instr::Isc, Mode::Absolute),
        0xFF => (Instr::Isc, Mode::AbsoluteX),
        0xFB => (Instr::Isc, Mode::AbsoluteY),
        0x07 => (Instr::Slo, Mode::ZeroPage),
        0x17 => (Instr::Slo, Mode::ZeroPageX),
        0x03 => (Instr::Slo, Mode::IndirectX),
        0x13 => (Instr::Slo, Mode::IndirectY),
        0x0F => (Instr::Slo, Mode::Absolute),
        0x1F => (Instr::Slo, Mode::AbsoluteX),
        0x1B => (Instr::Slo, Mode::AbsoluteY),
        0x27 => (Instr::Rla, Mode::ZeroPage),
        0x37 => (Instr::Rla, Mode::ZeroPageX),
        0x23 => (Instr::Rla, Mode::IndirectX),
        0x33 => (Instr::Rla, Mode::IndirectY),
        0x2F => (Instr::Rla, Mode::Absolute),
        0x3F => (Instr::Rla, Mode::AbsoluteX),
        0x3B => (Instr::Rla, Mode::AbsoluteY),
        0x47 => (Instr::Sre, Mode::ZeroPage),
        0x57 => (Instr::Sre, Mode::ZeroPageX),
        0x43 => (Instr::Sre, Mode::IndirectX),
        0x53 => (Instr::Sre, Mode::IndirectY),
        0x4F => (Instr::Sre, Mode::Absolute),
        0x5F => (Instr::Sre, Mode::AbsoluteX),
        0x5B => (Instr::Sre, Mode::AbsoluteY),
        0x67 => (Instr::Rra, Mode::ZeroPage),
        0x77 => (Instr::Rra, Mode::ZeroPageX),
        0x63 => (Instr::Rra, Mode::IndirectX),
        0x73 => (Instr::Rra, Mode::IndirectY),
        0x6F => (Instr::Rra, Mode::Absolute),
        0x7F => (Instr::Rra, Mode::AbsoluteX),
        0x7B => (Instr::Rra, Mode::AbsoluteY),
        _ => (Instr::Nop, Mode::Implied),
    }
}

/// The flag test of a branch instruction.
pub open spec fn branch_condition(i: Instr, p: u8) -> bool {
    match i {
        Instr::Bpl => !flag_on(p, NEGATIVE),
        Instr::Bmi => flag_on(p, NEGATIVE),
        Instr::Bvc => !flag_on(p, OVERFLOW),
        Instr::Bvs => flag_on(p, OVERFLOW),
        Instr::Bcc => !flag_on(p, CARRY),
        Instr::Bcs => flag_on(p, CARRY),
        Instr::Bne => !flag_on(p, ZERO),
        Instr::Beq => flag_on(p, ZERO),
        _ => false,
    }
}

/// The instruction is one of the eight conditional branches.
pub open spec fn is_branch(i: Instr) -> bool {
    matches!(i, Instr::Bpl | Instr::Bmi | Instr::Bvc | Instr::Bvs | Instr::Bcc | Instr::Bcs | Instr::Bne | Instr::Beq)
}

/// The high byte of a word.
pub open spec fn upper(w: u16) -> u8 {
    (w / 256) as u8
}

/// The low byte of a word.
pub open spec fn lower(w: u16) -> u8 {
    (w % 256) as u8
}

impl CPU {
    /// The result of a read-modify-write shift of the operand of `mode`.
    pub open spec fn shift_result(&self, k: Shift, mode: Mode) -> u8 {
        shifted(k, self.operand(mode), flag_on(self.p, CARRY))
    }

    /// `next` is this state after storing `v` at the operand address of `mode`;
    /// the registers become those of `regs` (whose bus is ignored).
    pub open spec fn stores(&self, mode: Mode, v: u8, regs: CPU, next: CPU) -> bool {
        &&& self.bus.written(self.fetch(mode).addr, v, next.bus)
        &&& next == (CPU { bus: next.bus, ..regs })
    }

    /// The state after a conditional branch whose test gave `taken`: one more cycle
    /// when taken, and one more again when the target lies on another page.
    pub open spec fn branched(&self, taken: bool) -> CPU {
        let s = self.fetched(Mode::Immediate, false);
        let target = s.pc.wrapping_add(branch_offset(self.operand(Mode::Immediate)));
        if !taken {
            s
        } else if page(target) != page(s.pc) {
            CPU { pc: target, cycles: (s.cycles + 2) as u8, ..s }
        } else {
            CPU { pc: target, cycles: (s.cycles + 1) as u8, ..s }
        }
    }

    /// The state after an interrupt sequence: the return address and `status` are pushed,
    /// I is set in `p` and the program counter is loaded from `vector`.
    pub open spec fn vectored(&self, ret: u16, status: u8, p: u8, vector: u16) -> CPU {
        let s = self.pushed(upper(ret)).pushed(lower(ret)).pushed(status);
        CPU {
            p: set_flag(p, INTERRUPT_DISABLE, true),
            pc: word(s.bus.peek(vector), s.bus.peek(vector.wrapping_add(1))),
            ..s
        }
    }

    /// What instruction `i` with addressing mode `mode` does: `next` is the state after it,
    /// where the program counter of this state points just past the opcode byte.
    #[verifier::opaque]
    pub open spec fn performs(&self, i: Instr, mode: Mode, next: CPU) -> bool {
        let s = self.fetched(mode, false);
        let t = self.fetched(mode, true);
        let v = self.operand(mode);
        let c = flag_on(self.p, CARRY);
        match i {
            Instr::Lda => next == (CPU { a: v, p: with_zn(t.p, v), ..t }),
            Instr::Ldx => next == (CPU { x: v, p: with_zn(t.p, v), ..t }),
            Instr::Ldy => next == (CPU { y: v, p: with_zn(t.p, v), ..t }),
            Instr::Lax => next == (CPU { a: v, x: v, p: with_zn(t.p, v), ..t }),
            Instr::Sta => self.stores(mode, self.a, s, next),
            Instr::Stx => self.stores(mode, self.x, s, next),
            Instr::Sty => self.stores(mode, self.y, s, next),
            Instr::Sax => self.stores(mode, self.a & self.x, s, next),
            Instr::Ora => next == (CPU { a: t.a | v, p: with_zn(t.p, t.a | v), ..t }),
            Instr::And => next == (CPU { a: t.a & v, p: with_zn(t.p, t.a & v), ..t }),
            Instr::Eor => next == (CPU { a: t.a ^ v, p: with_zn(t.p, t.a ^ v), ..t }),
            Instr::Bit => next == (CPU { p: bit_flags(s.p, s.a, v), ..s }),
            Instr::Adc => next == (CPU {
                a: adc_sum(t.a, v, c) as u8,
                p: adc_flags(t.p, t.a, v),
                ..t
            }),
            Instr::Sbc => next == (CPU {
                a: adc_sum(t.a, !v, c) as u8,
                p: adc_flags(t.p, t.a, !v),
                ..t
            }),
            Instr::Cmp => next == (CPU { p: compare_flags(t.p, t.a, v), ..t }),
            Instr::Cpx => next == (CPU { p: compare_flags(s.p, s.x, v), ..s }),
            Instr::Cpy => next == (CPU { p: compare_flags(s.p, s.y, v), ..s }),
            Instr::Asl | Instr::Lsr | Instr::Rol | Instr::Ror => {
                let k = match i {
                    Instr::Asl => Shift::Asl,
                    Instr::Lsr => Shift::Lsr,
                    Instr::Rol => Shift::Rol,
                    _ => Shift::Ror,
                };
                let r = self.shift_result(k, mode);
                self.stores(mode, r, CPU { p: shift_flags(k, s.p, v, r), ..s }, next)
            },
            Instr::AslA | Instr::LsrA | Instr::RolA | Instr::RorA => {
                let k = match i {
                    Instr::AslA => Shift::Asl,
                    Instr::LsrA => Shift::Lsr,
                    Instr::RolA => Shift::Rol,
                    _ => Shift::Ror,
                };
                let r = shifted(k, self.a, c);
                next == (CPU { a: r, p: shift_flags(k, self.p, self.a, r), ..*self })
            },
            Instr::Slo => {
                let r = self.shift_result(Shift::Asl, mode);
                let flags = shift_flags(Shift::Asl, s.p, v, r);
                self.stores(mode, r, CPU { a: s.a | r, p: with_zn(flags, s.a | r), ..s }, next)
            },
            Instr::Rla => {
                let r = self.shift_result(Shift::Rol, mode);
                let flags = shift_flags(Shift::Rol, s.p, v, r);
                self.stores(mode, r, CPU { a: s.a & r, p: with_zn(flags, s.a & r), ..s }, next)
            },
            Instr::Sre => {
                let r = self.shift_result(Shift::Lsr, mode);
                let flags = shift_flags(Shift::Lsr, s.p, v, r);
                self.stores(mode, r, CPU { a: s.a ^ r, p: with_zn(flags, s.a ^ r), ..s }, next)
            },
            Instr::Rra => {
                let r = self.shift_result(Shift::Ror, mode);
                let flags = shift_flags(Shift::Ror, s.p, v, r);
                self.stores(
                    mode,
                    r,
                    CPU {
                        a: adc_sum(s.a, r, flag_on(flags, CARRY)) as u8,
                        p: adc_flags(flags, s.a, r),
                        ..s
                    },
                    next,
                )
            },
            Instr::Inc => self.stores(
                mode,
                v.wrapping_add(1),
                CPU { p: with_zn(s.p, v.wrapping_add(1)), ..s },
                next,
            ),
            Instr::Dec => self.stores(
                mode,
                v.wrapping_sub(1),
                CPU { p: with_zn(s.p, v.wrapping_sub(1)), ..s },
                next,
            ),
            Instr::Dcp => self.stores(
                mode,
                v.wrapping_sub(1),
                CPU { p: compare_flags(s.p, s.a, v.wrapping_sub(1)), ..s },
                next,
            ),
            Instr::Isc => {
                let m = !v.wrapping_add(1);
                self.stores(
                    mode,
                    v.wrapping_add(1),
                    CPU { a: adc_sum(s.a, m, c) as u8, p: adc_flags(s.p, s.a, m), ..s },
                    next,
                )
            },
            Instr::Inx => next == (CPU {
                x: self.x.wrapping_add(1),
                p: with_zn(self.p, self.x.wrapping_add(1)),
                ..*self
            }),
            Instr::Iny => next == (CPU {
                y: self.y.wrapping_add(1),
                p: with_zn(self.p, self.y.wrapping_add(1)),
                ..*self
            }),
            Instr::Dex => next == (CPU {
                x: self.x.wrapping_sub(1),
                p: with_zn(self.p, self.x.wrapping_sub(1)),
                ..*self
            }),
            Instr::Dey => next == (CPU {
                y: self.y.wrapping_sub(1),
                p: with_zn(self.p, self.y.wrapping_sub(1)),
                ..*self
            }),
            Instr::Tax => next == (CPU { x: self.a, p: with_zn(self.p, self.a), ..*self }),
            Instr::Tay => next == (CPU { y: self.a, p: with_zn(self.p, self.a), ..*self }),
            Instr::Txa => next == (CPU { a: self.x, p: with_zn(self.p, self.x), ..*self }),
            Instr::Tya => next == (CPU { a: self.y, p: with_zn(self.p, self.y), ..*self }),
            Instr::Tsx => next == (CPU { x: self.sp, p: with_zn(self.p, self.sp), ..*self }),
            Instr::Txs => next == (CPU { sp: self.x, ..*self }),
            Instr::Clc => next == (CPU { p: set_flag(self.p, CARRY, false), ..*self }),
            Instr::Sec => next == (CPU { p: set_flag(self.p, CARRY, true), ..*self }),
            Instr::Cli => next == (CPU { p: set_flag(self.p, INTERRUPT_DISABLE, false), ..*self }),
            Instr::Sei => next == (CPU { p: set_flag(self.p, INTERRUPT_DISABLE, true), ..*self }),
            Instr::Cld => next == (CPU { p: set_flag(self.p, DECIMAL, false), ..*self }),
            Instr::Sed => next == (CPU { p: set_flag(self.p, DECIMAL, true), ..*self }),
            Instr::Clv => next == (CPU { p: set_flag(self.p, OVERFLOW, false), ..*self }),
            Instr::Pha => next == self.pushed(self.a),
            Instr::Php => next == self.pushed(pushed_status(self.p)),
            Instr::Pla => next == (CPU {
                a: self.top(),
                p: with_zn(self.p, self.top()),
                ..self.pulled()
            }),
            Instr::Plp => next == (CPU { p: pulled_status(self.p, self.top()), ..self.pulled() }),
            Instr::Jmp => next == (CPU { pc: self.fetch(mode).addr, ..s }),
            Instr::Jsr => {
                let f = self.fetched(Mode::Absolute, false);
                let ret = f.pc.wrapping_sub(1);
                next == (CPU {
                    pc: self.fetch(Mode::Absolute).addr,
                    ..f.pushed(upper(ret)).pushed(lower(ret))
                })
            },
            Instr::Rts => {
                let s1 = self.pulled();
                next == (CPU {
                    pc: word(self.top(), s1.top()).wrapping_add(1),
                    ..s1.pulled()
                })
            },
            Instr::Rti => {
                let s1 = self.pulled();
                let s2 = s1.pulled();
                next == (CPU {
                    p: pulled_status(self.p, self.top()),
                    pc: word(s1.top(), s2.top()),
                    ..s2.pulled()
                })
            },
            Instr::Brk => {
                let ret = self.pc.wrapping_add(1);
                next == (CPU { pc: ret, ..*self }).vectored(
                    ret,
                    pushed_status(self.p),
                    self.p,
                    IRQ_VECTOR,
                )
            },
            Instr::Bpl | Instr::Bmi | Instr::Bvc | Instr::Bvs | Instr::Bcc | Instr::Bcs
            | Instr::Bne | Instr::Beq => next == self.branched(branch_condition(i, self.p)),
            Instr::Nop => next == *self,
            Instr::NopRead => next == t,
        }
    }

    /// `performs`, together with what every instruction keeps: a well-formed bus, the
    /// elapsed-cycle counter, and a cycle budget that grows by at most two.
    #[verifier::opaque]
    pub open spec fn steps_to(&self, i: Instr, mode: Mode, next: CPU) -> bool {
        &&& self.performs(i, mode, next)
        &&& next.bus.wf()
        &&& next.cycle_count == self.cycle_count
        &&& self.cycles <= next.cycles <= self.cycles + 2
    }
}

impl CPU {
    /// The bus is well formed and the cycle budget leaves room for an instruction's extras.
    pub open spec fn ready(&self) -> bool {
        self.bus.wf() && self.cycles <= 8
    }

    /// The zero-page cells that hold the pointer of an indirect-indexed mode.
    pub open spec fn pointer_cells(&self, mode: Mode) -> (u16, u16) {
        let b = self.bus.peek(self.pc);
        match mode {
            Mode::IndirectX => {
                let i = (b as u16).wrapping_add(self.x as u16);
                (i & 0xFF, i.wrapping_add(1) & 0xFF)
            },
            _ => (b as u16, b.wrapping_add(1) as u16),
        }
    }

    /// Operand address of `mode` for the instruction whose operand starts at `pc`.
    pub open spec fn fetch(&self, mode: Mode) -> Fetch {
        let pc = self.pc;
        let pc1 = pc.wrapping_add(1);
        let pc2 = pc1.wrapping_add(1);
        let b = self.bus.peek(pc);
        let w = word(b, self.bus.peek(pc1));
        match mode {
            Mode::Immediate => Fetch { addr: pc, pc: pc1, crossed: false },
            Mode::ZeroPage => Fetch { addr: b as u16, pc: pc1, crossed: false },
            Mode::ZeroPageX => Fetch {
                addr: (b as u16).wrapping_add(self.x as u16) & 0xFF,
                pc: pc1,
                crossed: false,
            },
            Mode::ZeroPageY => Fetch {
                addr: (b as u16).wrapping_add(self.y as u16) & 0xFF,
                pc: pc1,
                crossed: false,
            },
            Mode::Absolute => Fetch { addr: w, pc: pc2, crossed: false },
            Mode::AbsoluteX => {
                let r = w.wrapping_add(self.x as u16);
                Fetch { addr: r, pc: pc2, crossed: page(w) != page(r) }
            },
            Mode::AbsoluteY => {
                let r = w.wrapping_add(self.y as u16);
                Fetch { addr: r, pc: pc2, crossed: page(w) != page(r) }
            },
            Mode::Indirect => {
                let hi_cell = page(w) | (w.wrapping_add(1) & 0xFF);
                Fetch {
                    addr: word(self.bus.peek(w), self.bus.peek(hi_cell)),
                    pc: pc2,
                    crossed: false,
                }
            },
            Mode::IndirectX => {
                let (lo, hi) = self.pointer_cells(mode);
                Fetch {
                    addr: word(self.bus.peek(lo), self.bus.peek(hi)),
                    pc: pc1,
                    crossed: false,
                }
            },
            Mode::IndirectY => {
                let (lo, hi) = self.pointer_cells(mode);
                let base = word(self.bus.peek(lo), self.bus.peek(hi));
                let r = base.wrapping_add(self.y as u16);
                Fetch { addr: r, pc: pc1, crossed: page(base) != page(r) }
            },
            Mode::Relative | Mode::Implied => Fetch { addr: 0, pc, crossed: false },
        }
    }

    /// The state once the operand of `mode` has been located.
    pub open spec fn fetched(&self, mode: Mode, sensitive: bool) -> CPU {
        let f = self.fetch(mode);
        CPU { pc: f.pc, cycles: charge(self.cycles, f, sensitive), ..*self }
    }

    /// The operand byte of `mode`.
    pub open spec fn operand(&self, mode: Mode) -> u8 {
        self.bus.peek(self.fetch(mode).addr)
    }

    /// The state after pushing `v`.
    pub open spec fn pushed(&self, v: u8) -> CPU {
        CPU {
            bus: BUS {
                memory: vstd::array::spec_array_update(
                    self.bus.memory,
                    ram_index(stack_addr(self.sp)),
                    v,
                ),
                ..self.bus
            },
            sp: self.sp.wrapping_sub(1),
            ..*self
        }
    }

    /// The byte that a pull takes off the stack.
    pub open spec fn top(&self) -> u8 {
        self.bus.peek(stack_addr(self.sp.wrapping_add(1)))
    }

    /// The state after a pull.
    pub open spec fn pulled(&self) -> CPU {
        CPU { sp: self.sp.wrapping_add(1), ..*self }
    }

    /// Sets the status flag `mask` to `on`.
    fn set_flag(&mut self, mask: u8, on: bool)
        ensures
            *final(self) == (CPU { p: set_flag(old(self).p, mask, on), ..*old(self) }),
    {
        if on {
            self.p = self.p | mask;
        } else {
            self.p = self.p & !mask;
        }
    }

    /// Sets Z and N from `v`.
    fn set_zn(&mut self, v: u8)
        ensures
            *final(self) == (CPU { p: with_zn(old(self).p, v), ..*old(self) }),
    {
        self.set_zero(v == 0);
        self.set_negative(v & 0x80 != 0);
    }

    fn increment_pc(&mut self)
        ensures
            *final(self) == (CPU { pc: old(self).pc.wrapping_add(1), ..*old(self) }),
    {
        self.pc = self.pc.wrapping_add(1);
    }

    fn read(&mut self, addr: u16) -> (r: u8)
        requires
            old(self).bus.wf(),
        ensures
            r == old(self).bus.peek(addr),
            *final(self) == *old(self),
    {
        self.bus.read(addr)
    }

    fn write(&mut self, addr: u16, data: u8)
        requires
            old(self).bus.wf(),
        ensures
            final(self).bus.wf(),
            old(self).bus.written(addr, data, final(self).bus),
            *final(self) == (CPU { bus: final(self).bus, ..*old(self) }),
    {
        self.bus.write(addr, data);
    }

    fn next_byte(&mut self) -> (r: u8)
        requires
            old(self).bus.wf(),
        ensures
            r == old(self).bus.peek(old(self).pc),
            *final(self) == (CPU { pc: old(self).pc.wrapping_add(1), ..*old(self) }),
    {
        let start_pc = self.pc;
        self.increment_pc();
        self.read(start_pc)
    }

    fn next_word(&mut self) -> (r: u16)
        requires
            old(self).bus.wf(),
        ensures
            r == word(
                old(self).bus.peek(old(self).pc),
                old(self).bus.peek(old(self).pc.wrapping_add(1)),
            ),
            *final(self) == (CPU {
                pc: old(self).pc.wrapping_add(1).wrapping_add(1),
                ..*old(self)
            }),
    {
        let start_pc: u16 = self.pc;
        self.increment_pc();
        self.increment_pc();
        let lo = self.read(start_pc);
        let hi = self.read(start_pc.wrapping_add(1));
        (hi as u16) * 256 + (lo as u16)
    }

    fn push_to_stack(&mut self, val: u8)
        requires
            old(self).bus.wf(),
        ensures
            final(self).bus.wf(),
            *final(self) == old(self).pushed(val),
    {
        proof {
            lemma_stack_in_ram(self.sp);
        }
        let addr: u16 = 0x100 + self.sp as u16;
        self.write(addr, val);
        self.sp = self.sp.wrapping_sub(1);
        proof {
            let want = vstd::array::spec_array_update(
                old(self).bus.memory,
                ram_index(stack_addr(old(self).sp)),
                val,
            );
            assert(self.bus.memory =~= want);
        }
    }

    fn pop_from_stack(&mut self) -> (r: u8)
        requires
            old(self).bus.wf(),
        ensures
            r == old(self).top(),
            *final(self) == old(self).pulled(),
    {
        self.sp = self.sp.wrapping_add(1);
        let addr: u16 = 0x100 + self.sp as u16;
        self.read(addr)
    }

    /// Locates the operand of `mode`, moving the program counter past it and charging
    /// the page-cross cycle where `needs_additional_cycle` asks for it.
    fn operand_address(&mut self, mode: Mode, needs_additional_cycle: bool) -> (r: u16)
        requires
            old(self).ready(),
            mode.addressable(),
        ensures
            r == old(self).fetch(mode).addr,
            *final(self) == old(self).fetched(mode, needs_additional_cycle),
    {
        match mode {
            Mode::Immediate => {
                let start_pc = self.pc;
                self.increment_pc();
                start_pc
            },
            Mode::ZeroPage => self.next_byte() as u16,
            Mode::ZeroPageX => {
                let b = self.next_byte();
                low_byte(offset(b as u16, self.x))
            },
            Mode::ZeroPageY => {
                let b = self.next_byte();
                low_byte(offset(b as u16, self.y))
            },
            Mode::Absolute => self.next_word(),
            Mode::AbsoluteX => {
                let base = self.next_word();
                let res = offset(base, self.x);
                if high_byte(base) != high_byte(res) && needs_additional_cycle {
                    self.cycles = self.cycles + 1;
                }
                res
            },
            Mode::AbsoluteY => {
                let base = self.next_word();
                let res = offset(base, self.y);
                if high_byte(base) != high_byte(res) && needs_additional_cycle {
                    self.cycles = self.cycles + 1;
                }
                res
            },
            Mode::Indirect => {
                let i = self.next_word();
                let lo = self.read(i);
                let hi = self.read(high_byte(i) | low_byte(i.wrapping_add(1)));
                (hi as u16) * 256 + (lo as u16)
            },
            Mode::IndirectX => {
                let b = self.next_byte();
                let i = offset(b as u16, self.x);
                let lo = self.read(low_byte(i));
                let hi = self.read(low_byte(i.wrapping_add(1)));
                (hi as u16) * 256 + (lo as u16)
            },
            Mode::IndirectY => {
                let i = self.next_byte();
                let lo = self.read(i as u16);
                let hi = self.read(i.wrapping_add(1) as u16);
                let base = (hi as u16) * 256 + (lo as u16);
                let res = offset(base, self.y);
                if high_byte(base) != high_byte(res) && needs_additional_cycle {
                    self.cycles = self.cycles + 1;
                }
                res
            },
            Mode::Relative | Mode::Implied => 0,
        }
    }

    /// Reads the operand of `mode`.
    fn read_operand(&mut self, mode: Mode, needs_additional_cycle: bool) -> (r: u8)
        requires
            old(self).ready(),
            mode.addressable(),
        ensures
            r == old(self).operand(mode),
            *final(self) == old(self).fetched(mode, needs_additional_cycle),
    {
        let address: u16 = self.operand_address(mode, needs_additional_cycle);
        self.read(address)
    }


    pub fn new(bus: BUS) -> (r: Self)
        ensures
            r.bus == bus,
            r.cycles == 0,
            r.cycle_count == 7,
            r.a == 0 && r.x == 0 && r.y == 0,
            r.p == 0x24,
            r.sp == 0xFD,
            r.pc == 0,
    {
        CPU { bus, cycles: 0, cycle_count: 7, a: 0, x: 0, y: 0, p: 0x24, sp: 0xFD, pc: 0 }
    }

    /// The opcode at the program counter.
    pub open spec fn opcode(&self) -> u8 {
        self.bus.peek(self.pc)
    }

    /// The state in which the instruction at the program counter starts: its base
    /// cycles charged, U set, and the program counter past the opcode.
    pub open spec fn issued(&self) -> CPU {
        CPU {
            cycles: CYCLES_LIST@[self.opcode() as int],
            p: self.p | UNUSED,
            pc: self.pc.wrapping_add(1),
            ..*self
        }
    }

    /// One tick of the CPU clock. With cycles still owed, the tick only pays one of them;
    /// otherwise it runs the instruction at the program counter in full and charges its
    /// cycles, of which this tick pays the first.
    pub fn clock(&mut self)
        requires
            old(self).bus.wf(),
        ensures
            final(self).bus.wf(),
            old(self).cycles > 0 ==> *final(self) == (CPU {
                cycles: (old(self).cycles - 1) as u8,
                cycle_count: old(self).cycle_count.wrapping_add(1),
                ..*old(self)
            }),
            old(self).cycles == 0 ==> exists|mid: CPU|
                #[trigger] old(self).issued().steps_to(
                    decode(old(self).opcode()).0,
                    decode(old(self).opcode()).1,
                    mid,
                ) && *final(self) == (CPU {
                    p: mid.p | UNUSED,
                    cycles: (mid.cycles - 1) as u8,
                    cycle_count: old(self).cycle_count.wrapping_add(1),
                    ..mid
                }),
            old(self).cycles == 0 || flag_on(old(self).p, UNUSED) ==> flag_on(
                final(self).p,
                UNUSED,
            ),
    {
        if self.cycles == 0 {
            let opcode = self.read(self.pc);
            self.cycles = CYCLES_LIST[opcode as usize];
            assert(2 <= self.cycles <= 8);
            self.set_unused();
            self.increment_pc();
            self.execute(opcode);
            proof {
                reveal(CPU::steps_to);
            }
            let p = self.p;
            self.set_unused();
            assert((p | 0x20u8) & 0x20u8 == 0x20u8) by (bit_vector);
        }
        self.cycle_count = self.cycle_count.wrapping_add(1);
        self.cycles = self.cycles - 1;
    }

    /// Runs the instruction that `opcode` names.
    fn execute(&mut self, opcode: u8)
        requires
            old(self).ready(),
        ensures
            old(self).steps_to(decode(opcode).0, decode(opcode).1, *final(self)),
    {
        match opcode % 4 {
            0 => self.execute_control(opcode),
            1 => self.execute_alu(opcode),
            2 => self.execute_rmw(opcode),
            _ => self.execute_combined(opcode),
        }
    }

    /// Runs one of the control and index-register instructions (opcode bits 1-0 = 00).
    #[verifier::rlimit(100)]
    #[verifier::spinoff_prover]
    fn execute_control(&mut self, opcode: u8)
        requires
            old(self).ready(),
            opcode % 4 == 0,
        ensures
            old(self).steps_to(decode(opcode).0, decode(opcode).1, *final(self)),
    {
        match opcode {
            0x00 => self.brk(),
            0x08 => self.php(Mode::Implied),
            0x10 => self.bpl(Mode::Relative),
            0x18 => self.clc(Mode::Implied),
            0x20 => self.jsr(Mode::Absolute),
            0x24 => self.bit(Mode::ZeroPage),
            0x28 => self.plp(Mode::Implied),
            0x2C => self.bit(Mode::Absolute),
            0x30 => self.bmi(Mode::Relative),
            0x38 => self.sec(Mode::Implied),
            0x40 => self.rti(Mode::Implied),
            0x48 => self.pha(Mode::Implied),
            0x4C => self.jmp(Mode::Absolute),
            0x50 => self.bvc(Mode::Relative),
            0x58 => self.cli(Mode::Implied),
            0x60 => self.rts(Mode::Implied),
            0x68 => self.pla(Mode::Implied),
            0x6C => self.jmp(Mode::Indirect),
            0x70 => self.bvs(Mode::Relative),
            0x78 => self.sei(Mode::Implied),
            0x84 => self.sty(Mode::ZeroPage),
            0x88 => self.dey(Mode::Implied),
            0x8C => self.sty(Mode::Absolute),
            0x90 => self.bcc(Mode::Relative),
            0x94 => self.sty(Mode::ZeroPageX),
            0x98 => self.tya(Mode::Implied),
            0xA0 => self.ldy(Mode::Immediate),
            0xA4 => self.ldy(Mode::ZeroPage),
            0xA8 => self.tay(Mode::Implied),
            0xAC => self.ldy(Mode::Absolute),
            0xB0 => self.bcs(Mode::Relative),
            0xB4 => self.ldy(Mode::ZeroPageX),
            0xB8 => self.clv(Mode::Implied),
            0xBC => self.ldy(Mode::AbsoluteX),
            0xC0 => self.cpy(Mode::Immediate),
            0xC4 => self.cpy(Mode::ZeroPage),
            0xC8 => self.iny(Mode::Implied),
            0xCC => self.cpy(Mode::Absolute),
            0xD0 => self.bne(Mode::Relative),
            0xD8 => self.cld(Mode::Implied),
            0xE0 => self.cpx(Mode::Immediate),
            0xE4 => self.cpx(Mode::ZeroPage),
            0xE8 => self.inx(Mode::Implied),
            0xEC => self.cpx(Mode::Absolute),
            0xF0 => self.beq(Mode::Relative),
            0xF8 => self.sed(Mode::Implied),
            0x0C => self.nop_read(Mode::Absolute),
            0x1C | 0x3C | 0x5C | 0x7C | 0xDC | 0xFC => self.nop_read(Mode::AbsoluteX),
            0x04 | 0x44 | 0x64 => self.nop_read(Mode::ZeroPage),
            0x14 | 0x34 | 0x54 | 0x74 | 0xD4 | 0xF4 => self.nop_read(Mode::ZeroPageX),
            0x80 => self.nop_read(Mode::Immediate),
            _ => self.nop(Mode::Implied),
        }
    }

    /// Runs one of the accumulator instructions (opcode bits 1-0 = 01).
    #[verifier::rlimit(100)]
    #[verifier::spinoff_prover]
    fn execute_alu(&mut self, opcode: u8)
        requires
            old(self).ready(),
            opcode % 4 == 1,
        ensures
            old(self).steps_to(decode(opcode).0, decode(opcode).1, *final(self)),
    {
        match opcode {
            0x01 => self.ora(Mode::IndirectX),
            0x05 => self.ora(Mode::ZeroPage),
            0x09 => self.ora(Mode::Immediate),
            0x0D => self.ora(Mode::Absolute),
            0x11 => self.ora(Mode::IndirectY),
            0x15 => self.ora(Mode::ZeroPageX),
            0x19 => self.ora(Mode::AbsoluteY),
            0x1D => self.ora(Mode::AbsoluteX),
            0x21 => self.and(Mode::IndirectX),
            0x25 => self.and(Mode::ZeroPage),
            0x29 => self.and(Mode::Immediate),
            0x2D => self.and(Mode::Absolute),
            0x31 => self.and(Mode::IndirectY),
            0x35 => self.and(Mode::ZeroPageX),
            0x39 => self.and(Mode::AbsoluteY),
            0x3D => self.and(Mode::AbsoluteX),
            0x41 => self.eor(Mode::IndirectX),
            0x45 => self.eor(Mode::ZeroPage),
            0x49 => self.eor(Mode::Immediate),
            0x4D => self.eor(Mode::Absolute),
            0x51 => self.eor(Mode::IndirectY),
            0x55 => self.eor(Mode::ZeroPageX),
            0x59 => self.eor(Mode::AbsoluteY),
            0x5D => self.eor(Mode::AbsoluteX),
            0x61 => self.adc(Mode::IndirectX),
            0x65 => self.adc(Mode::ZeroPage),
            0x69 => self.adc(Mode::Immediate),
            0x6D => self.adc(Mode::Absolute),
            0x71 => self.adc(Mode::IndirectY),
            0x75 => self.adc(Mode::ZeroPageX),
            0x79 => self.adc(Mode::AbsoluteY),
            0x7D => self.adc(Mode::AbsoluteX),
            0x81 => self.sta(Mode::IndirectX),
            0x85 => self.sta(Mode::ZeroPage),
            0x8D => self.sta(Mode::Absolute),
            0x91 => self.sta(Mode::IndirectY),
            0x95 => self.sta(Mode::ZeroPageX),
            0x99 => self.sta(Mode::AbsoluteY),
            0x9D => self.sta(Mode::AbsoluteX),
            0xA1 => self.lda(Mode::IndirectX),
            0xA5 => self.lda(Mode::ZeroPage),
            0xA9 => self.lda(Mode::Immediate),
            0xAD => self.lda(Mode::Absolute),
            0xB1 => self.lda(Mode::IndirectY),
            0xB5 => self.lda(Mode::ZeroPageX),
            0xB9 => self.lda(Mode::AbsoluteY),
            0xBD => self.lda(Mode::AbsoluteX),
            0xC1 => self.cmp(Mode::IndirectX),
            0xC5 => self.cmp(Mode::ZeroPage),
            0xC9 => self.cmp(Mode::Immediate),
            0xCD => self.cmp(Mode::Absolute),
            0xD1 => self.cmp(Mode::IndirectY),
            0xD5 => self.cmp(Mode::ZeroPageX),
            0xD9 => self.cmp(Mode::AbsoluteY),
            0xDD => self.cmp(Mode::AbsoluteX),
            0xE1 => self.sbc(Mode::IndirectX),
            0xE5 => self.sbc(Mode::ZeroPage),
            0xE9 => self.sbc(Mode::Immediate),
            0xED => self.sbc(Mode::Absolute),
            0xF1 => self.sbc(Mode::IndirectY),
            0xF5 => self.sbc(Mode::ZeroPageX),
            0xF9 => self.sbc(Mode::AbsoluteY),
            0xFD => self.sbc(Mode::AbsoluteX),
            0x89 => self.nop_read(Mode::Immediate),
            _ => self.nop(Mode::Implied),
        }
    }

    /// Runs one of the shifts, increments and X-register instructions (opcode bits 1-0 = 10).
    #[verifier::rlimit(100)]
    #[verifier::spinoff_prover]
    fn execute_rmw(&mut self, opcode: u8)
        requires
            old(self).ready(),
            opcode % 4 == 2,
        ensures
            old(self).steps_to(decode(opcode).0, decode(opcode).1, *final(self)),
    {
        match opcode {
            0x06 => self.asl(Mode::ZeroPage),
            0x0A => self.asl_a(),
            0x0E => self.asl(Mode::Absolute),
            0x16 => self.asl(Mode::ZeroPageX),
            0x1E => self.asl(Mode::AbsoluteX),
            0x26 => self.rol(Mode::ZeroPage),
            0x2A => self.rol_a(),
            0x2E => self.rol(Mode::Absolute),
            0x36 => self.rol(Mode::ZeroPageX),
            0x3E => self.rol(Mode::AbsoluteX),
            0x46 => self.lsr(Mode::ZeroPage),
            0x4A => self.lsr_a(),
            0x4E => self.lsr(Mode::Absolute),
            0x56 => self.lsr(Mode::ZeroPageX),
            0x5E => self.lsr(Mode::AbsoluteX),
            0x66 => self.ror(Mode::ZeroPage),
            0x6A => self.ror_a(),
            0x6E => self.ror(Mode::Absolute),
            0x76 => self.ror(Mode::ZeroPageX),
            0x7E => self.ror(Mode::AbsoluteX),
            0x86 => self.stx(Mode::ZeroPage),
            0x8A => self.txa(Mode::Implied),
            0x8E => self.stx(Mode::Absolute),
            0x96 => self.stx(Mode::ZeroPageY),
            0x9A => self.txs(Mode::Implied),
            0xA2 => self.ldx(Mode::Immediate),
            0xA6 => self.ldx(Mode::ZeroPage),
            0xAA => self.tax(Mode::Implied),
            0xAE => self.ldx(Mode::Absolute),
            0xB6 => self.ldx(Mode::ZeroPageY),
            0xBA => self.tsx(Mode::Implied),
            0xBE => self.ldx(Mode::AbsoluteY),
            0xC6 => self.dec(Mode::ZeroPage),
            0xCA => self.dex(Mode::Implied),
            0xCE => self.dec(Mode::Absolute),
            0xD6 => self.dec(Mode::ZeroPageX),
            0xDE => self.dec(Mode::AbsoluteX),
            0xE6 => self.inc(Mode::ZeroPage),
            0xEA => self.nop(Mode::Implied),
            0xEE => self.inc(Mode::Absolute),
            0xF6 => self.inc(Mode::ZeroPageX),
            0xFE => self.inc(Mode::AbsoluteX),
            0x82 | 0xC2 | 0xE2 => self.nop_read(Mode::Immediate),
            _ => self.nop(Mode::Implied),
        }
    }

    /// Runs one of the combined undocumented instructions (opcode bits 1-0 = 11).
    #[verifier::rlimit(100)]
    #[verifier::spinoff_prover]
    fn execute_combined(&mut self, opcode: u8)
        requires
            old(self).ready(),
            opcode % 4 == 3,
        ensures
            old(self).steps_to(decode(opcode).0, decode(opcode).1, *final(self)),
    {
        match opcode {
            0xA7 => self.lax(Mode::ZeroPage),
            0xB7 => self.lax(Mode::ZeroPageY),
            0xA3 => self.lax(Mode::IndirectX),
            0xB3 => self.lax(Mode::IndirectY),
            0xAF => self.lax(Mode::Absolute),
            0xBF => self.lax(Mode::AbsoluteY),
            0x87 => self.sax(Mode::ZeroPage),
            0x97 => self.sax(Mode::ZeroPageY),
            0x83 => self.sax(Mode::IndirectX),
            0x8F => self.sax(Mode::Absolute),
            0xEB => self.sbc(Mode::Immediate),
            0xC7 => self.dcp(Mode::ZeroPage),
            0xD7 => self.dcp(Mode::ZeroPageX),
            0xC3 => self.dcp(Mode::IndirectX),
            0xD3 => self.dcp(Mode::IndirectY),
            0xCF => self.dcp(Mode::Absolute),
            0xDF => self.dcp(Mode::AbsoluteX),
            0xDB => self.dcp(Mode::AbsoluteY),
            0xE7 => self.isc(Mode::ZeroPage),
            0xF7 => self.isc(Mode::ZeroPageX),
            0xE3 => self.isc(Mode::IndirectX),
            0xF3 => self.isc(Mode::IndirectY),
            0xEF => self.isc(Mode::Absolute),
            0xFF => self.isc(Mode::AbsoluteX),
            0xFB => self.isc(Mode::AbsoluteY),
            0x07 => self.slo(Mode::ZeroPage),
            0x17 => self.slo(Mode::ZeroPageX),
            0x03 => self.slo(Mode::IndirectX),
            0x13 => self.slo(Mode::IndirectY),
            0x0F => self.slo(Mode::Absolute),
            0x1F => self.slo(Mode::AbsoluteX),
            0x1B => self.slo(Mode::AbsoluteY),
            0x27 => self.rla(Mode::ZeroPage),
            0x37 => self.rla(Mode::ZeroPageX),
            0x23 => self.rla(Mode::IndirectX),
            0x33 => self.rla(Mode::IndirectY),
            0x2F => self.rla(Mode::Absolute),
            0x3F => self.rla(Mode::AbsoluteX),
            0x3B => self.rla(Mode::AbsoluteY),
            0x47 => self.sre(Mode::ZeroPage),
            0x57 => self.sre(Mode::ZeroPageX),
            0x43 => self.sre(Mode::IndirectX),
            0x53 => self.sre(Mode::IndirectY),
            0x4F => self.sre(Mode::Absolute),
            0x5F => self.sre(Mode::AbsoluteX),
            0x5B => self.sre(Mode::AbsoluteY),
            0x67 => self.rra(Mode::ZeroPage),
            0x77 => self.rra(Mode::ZeroPageX),
            0x63 => self.rra(Mode::IndirectX),
            0x73 => self.rra(Mode::IndirectY),
            0x6F => self.rra(Mode::Absolute),
            0x7F => self.rra(Mode::AbsoluteX),
            0x7B => self.rra(Mode::AbsoluteY),
            _ => self.nop(Mode::Implied),
        }
    }

    /// The registers, the three bytes at the program counter, and the elapsed cycles.
    pub fn trace_record(&mut self) -> (r: TraceRecord)
        requires
            old(self).bus.wf(),
        ensures
            *final(self) == *old(self),
            r == (TraceRecord {
                pc: old(self).pc,
                opcode: old(self).bus.peek(old(self).pc),
                operand1: old(self).bus.peek(old(self).pc.wrapping_add(1)),
                operand2: old(self).bus.peek(old(self).pc.wrapping_add(2)),
                a: old(self).a,
                x: old(self).x,
                y: old(self).y,
                p: old(self).p,
                sp: old(self).sp,
                cycle_count: old(self).cycle_count,
            }),
    {
        let pc = self.pc;
        let opcode = self.read(pc);
        let operand1 = self.read(pc.wrapping_add(1));
        let operand2 = self.read(pc.wrapping_add(2));
        TraceRecord {
            pc,
            opcode,
            operand1,
            operand2,
            a: self.a,
            x: self.x,
            y: self.y,
            p: self.p,
            sp: self.sp,
            cycle_count: self.cycle_count,
        }
    }

    /// The current instruction has used up its cycles.
    pub fn complete(&self) -> (r: bool)
        ensures
            r == (self.cycles == 0),
    {
        self.cycles == 0
    }

    /// The state after RESET: registers cleared, SP = 0xFD, P = 0x24, and the program
    /// counter loaded from the reset vector; RESET takes 8 cycles.
    pub open spec fn after_reset(&self) -> CPU {
        CPU {
            pc: word(self.bus.peek(RESET_VECTOR), self.bus.peek(RESET_VECTOR.wrapping_add(1))),
            a: 0,
            x: 0,
            y: 0,
            sp: 0xFD,
            p: 0x24,
            cycles: 8,
            ..*self
        }
    }

    /// The state after a hardware interrupt through `vector`: the program counter and
    /// the status with B clear are pushed, I is set, and the sequence takes 7 cycles.
    pub open spec fn after_interrupt(&self, vector: u16) -> CPU {
        CPU {
            cycles: 7,
            ..self.vectored(self.pc, irq_status(self.p), irq_status(self.p), vector)
        }
    }

    /// Pushes the return address and `status`, sets I, and jumps through `vector`.
    fn enter_interrupt(&mut self, status: u8, vector: u16)
        requires
            old(self).bus.wf(),
            vector == NMI_VECTOR || vector == IRQ_VECTOR,
        ensures
            final(self).bus.wf(),
            *final(self) == old(self).vectored(old(self).pc, status, old(self).p, vector),
    {
        let ret = self.pc;
        self.push_to_stack((ret / 256) as u8);
        self.push_to_stack((ret % 256) as u8);
        self.push_to_stack(status);
        self.set_interrupt_disable(true);
        let lo = self.read(vector);
        let hi = self.read(vector + 1);
        self.pc = (hi as u16) * 256 + (lo as u16);
    }

    pub fn interrupt(&mut self, interrupt_type: Interrupt)
        requires
            old(self).bus.wf(),
        ensures
            final(self).bus.wf(),
            interrupt_type is Reset ==> *final(self) == old(self).after_reset(),
            interrupt_type is Irq ==> *final(self) == if flag_on(old(self).p, INTERRUPT_DISABLE) {
                *old(self)
            } else {
                old(self).after_interrupt(IRQ_VECTOR)
            },
            interrupt_type is Nmi ==> *final(self) == old(self).after_interrupt(NMI_VECTOR),
            interrupt_type is Break ==> (CPU {
                pc: old(self).pc.wrapping_sub(1),
                ..*old(self)
            }).performs(Instr::Brk, Mode::Implied, *final(self)),
    {
        proof {
            reveal(CPU::performs);
            reveal(CPU::steps_to);
        }
        match interrupt_type {
            Interrupt::Reset => self.reset(),
            Interrupt::Irq => self.irq(),
            Interrupt::Nmi => self.nmi(),
            Interrupt::Break => {
                // BRK as an instruction skips a padding byte; raised from outside it does not.
                self.pc = self.pc.wrapping_sub(1);
                self.brk();
            },
        }
    }

    fn reset(&mut self)
        requires
            old(self).bus.wf(),
        ensures
            *final(self) == old(self).after_reset(),
    {
        let lo: u8 = self.read(RESET_VECTOR);
        let hi: u8 = self.read(RESET_VECTOR + 1);
        self.pc = (hi as u16) * 256 + (lo as u16);
        self.a = 0;
        self.x = 0;
        self.y = 0;
        self.sp = 0xFD;
        self.p = 0x24;
        self.cycles = 8;
    }

    fn irq(&mut self)
        requires
            old(self).bus.wf(),
        ensures
            final(self).bus.wf(),
            *final(self) == if flag_on(old(self).p, INTERRUPT_DISABLE) {
                *old(self)
            } else {
                old(self).after_interrupt(IRQ_VECTOR)
            },
    {
        if !self.get_interrupt_disable() {
            let status = (self.p & !BREAK) | UNUSED;
            self.p = status;
            proof {
                lemma_vectored_status(*old(self), *self, IRQ_VECTOR);
            }
            self.enter_interrupt(status, IRQ_VECTOR);
            self.cycles = 7;
        }
    }

    fn nmi(&mut self)
        requires
            old(self).bus.wf(),
        ensures
            final(self).bus.wf(),
            *final(self) == old(self).after_interrupt(NMI_VECTOR),
    {
        let status = (self.p & !BREAK) | UNUSED;
        self.p = status;
        proof {
            lemma_vectored_status(*old(self), *self, NMI_VECTOR);
        }
        self.enter_interrupt(status, NMI_VECTOR);
        self.cycles = 7;
    }

    fn brk(&mut self)
        requires
            old(self).bus.wf(),
        ensures
            old(self).steps_to(Instr::Brk, Mode::Implied, *final(self)),
    {
        proof {
            reveal(CPU::performs);
            reveal(CPU::steps_to);
        }
        self.pc = self.pc.wrapping_add(1);
        let status = self.p | BREAK | UNUSED;
        self.enter_interrupt(status, IRQ_VECTOR);
    }

    /// Adds `m` and the carry to the accumulator, setting V, C, Z and N (ADC; SBC passes
    /// the complement of its operand).
    fn add_to_accumulator(&mut self, m: u8)
        ensures
            *final(self) == (CPU {
                a: adc_sum(old(self).a, m, flag_on(old(self).p, CARRY)) as u8,
                p: adc_flags(old(self).p, old(self).a, m),
                ..*old(self)
            }),
    {
        let carry: u16 = if self.get_carry() { 1 } else { 0 };
        let a = self.a;
        let sum: u16 = a as u16 + m as u16 + carry;
        let result = sum as u8;
        self.set_overflow((a ^ result) & (m ^ result) & 0x80 != 0);
        self.set_carry(sum > 0xFF);
        self.set_zn(result);
        self.a = result;
    }

    /// Sets Z, N and C from comparing `reg` with `m`.
    fn compare(&mut self, reg: u8, m: u8)
        ensures
            *final(self) == (CPU { p: compare_flags(old(self).p, reg, m), ..*old(self) }),
    {
        self.set_zn(reg.wrapping_sub(m));
        self.set_carry(reg >= m);
    }

    /// Shifts or rotates `m`, setting C, Z and N; returns the result.
    fn shift(&mut self, k: Shift, m: u8) -> (r: u8)
        ensures
            r == shifted(k, m, flag_on(old(self).p, CARRY)),
            *final(self) == (CPU { p: shift_flags(k, old(self).p, m, r), ..*old(self) }),
    {
        let c: u8 = if self.get_carry() { 1 } else { 0 };
        let (result, out) = match k {
            Shift::Asl => (m << 1u8, m & 0x80 != 0),
            Shift::Lsr => (m >> 1u8, m & 0x01 != 0),
            Shift::Rol => ((m << 1u8) | c, m & 0x80 != 0),
            Shift::Ror => ((m >> 1u8) | (c << 7u8), m & 0x01 != 0),
        };
        self.set_carry(out);
        self.set_zn(result);
        result
    }

    /// Shifts or rotates the operand of `mode` in memory; returns the value written.
    fn shift_memory(&mut self, k: Shift, mode: Mode) -> (r: u8)
        requires
            old(self).ready(),
            mode.addressable(),
        ensures
            r == old(self).shift_result(k, mode),
            final(self).bus.wf(),
            old(self).stores(
                mode,
                r,
                CPU {
                    p: shift_flags(k, old(self).p, old(self).operand(mode), r),
                    ..old(self).fetched(mode, false)
                },
                *final(self),
            ),
    {
        let address = self.operand_address(mode, false);
        let operand = self.read(address);
        let result = self.shift(k, operand);
        self.write(address, result);
        result
    }

    fn asl_ret(&mut self, mode: Mode) -> (r: u8)
        requires
            old(self).ready(),
            mode.addressable(),
        ensures
            r == old(self).shift_result(Shift::Asl, mode),
            final(self).bus.wf(),
            old(self).stores(
                mode,
                r,
                CPU {
                    p: shift_flags(Shift::Asl, old(self).p, old(self).operand(mode), r),
                    ..old(self).fetched(mode, false)
                },
                *final(self),
            ),
    {
        self.shift_memory(Shift::Asl, mode)
    }

    fn lsr_ret(&mut self, mode: Mode) -> (r: u8)
        requires
            old(self).ready(),
            mode.addressable(),
        ensures
            r == old(self).shift_result(Shift::Lsr, mode),
            final(self).bus.wf(),
            old(self).stores(
                mode,
                r,
                CPU {
                    p: shift_flags(Shift::Lsr, old(self).p, old(self).operand(mode), r),
                    ..old(self).fetched(mode, false)
                },
                *final(self),
            ),
    {
        self.shift_memory(Shift::Lsr, mode)
    }

    fn rol_ret(&mut self, mode: Mode) -> (r: u8)
        requires
            old(self).ready(),
            mode.addressable(),
        ensures
            r == old(self).shift_result(Shift::Rol, mode),
            final(self).bus.wf(),
            old(self).stores(
                mode,
                r,
                CPU {
                    p: shift_flags(Shift::Rol, old(self).p, old(self).operand(mode), r),
                    ..old(self).fetched(mode, false)
                },
                *final(self),
            ),
    {
        self.shift_memory(Shift::Rol, mode)
    }

    fn ror_ret(&mut self, mode: Mode) -> (r: u8)
        requires
            old(self).ready(),
            mode.addressable(),
        ensures
            r == old(self).shift_result(Shift::Ror, mode),
            final(self).bus.wf(),
            old(self).stores(
                mode,
                r,
                CPU {
                    p: shift_flags(Shift::Ror, old(self).p, old(self).operand(mode), r),
                    ..old(self).fetched(mode, false)
                },
                *final(self),
            ),
    {
        self.shift_memory(Shift::Ror, mode)
    }

    /// Takes the branch when `condition` holds, charging its cycles.
    fn branch(&mut self, condition: bool)
        requires
            old(self).ready(),
        ensures
            *final(self) == old(self).branched(condition),
    {
        let offset = self.read_operand(Mode::Immediate, false);
        if condition {
            self.cycles = self.cycles + 1;
            let extended: u16 = if offset < 128 { offset as u16 } else { offset as u16 + 0xFF00 };
            let absolute_addr = self.pc.wrapping_add(extended);
            if high_byte(absolute_addr) != high_byte(self.pc) {
                self.cycles = self.cycles + 1;
            }
            self.pc = absolute_addr;
        }
    }

    fn ora(&mut self, mode: Mode)
        requires
            old(self).ready(),
            mode.addressable(),
        ensures
            old(self).steps_to(Instr::Ora, mode, *final(self)),
    {
        proof {
            reveal(CPU::performs);
            reveal(CPU::steps_to);
        }
        let operand = self.read_operand(mode, true);
        let result = self.a | operand;
        self.set_zn(result);
        self.a = result;
    }

    fn and(&mut self, mode: Mode)
        requires
            old(self).ready(),
            mode.addressable(),
        ensures
            old(self).steps_to(Instr::And, mode, *final(self)),
    {
        proof {
            reveal(CPU::performs);
            reveal(CPU::steps_to);
        }
        let operand = self.read_operand(mode, true);
        let result = self.a & operand;
        self.set_zn(result);
        self.a = result;
    }

    fn eor(&mut self, mode: Mode)
        requires
            old(self).ready(),
            mode.addressable(),
        ensures
            old(self).steps_to(Instr::Eor, mode, *final(self)),
    {
        proof {
            reveal(CPU::performs);
            reveal(CPU::steps_to);
        }
        let operand = self.read_operand(mode, true);
        let result = self.a ^ operand;
        self.set_zn(result);
        self.a = result;
    }

    fn bit(&mut self, mode: Mode)
        requires
            old(self).ready(),
            mode.addressable(),
        ensures
            old(self).steps_to(Instr::Bit, mode, *final(self)),
    {
        proof {
            reveal(CPU::performs);
            reveal(CPU::steps_to);
        }
        let operand = self.read_operand(mode, false);
        let a = self.a;
        self.set_zero(a & operand == 0);
        self.set_overflow(operand & 0x40 != 0);
        self.set_negative(operand & 0x80 != 0);
    }

    fn adc(&mut self, mode: Mode)
        requires
            old(self).ready(),
            mode.addressable(),
        ensures
            old(self).steps_to(Instr::Adc, mode, *final(self)),
    {
        proof {
            reveal(CPU::performs);
            reveal(CPU::steps_to);
        }
        let operand = self.read_operand(mode, true);
        self.add_to_accumulator(operand);
    }

    fn sbc(&mut self, mode: Mode)
        requires
            old(self).ready(),
            mode.addressable(),
        ensures
            old(self).steps_to(Instr::Sbc, mode, *final(self)),
    {
        proof {
            reveal(CPU::performs);
            reveal(CPU::steps_to);
        }
        let operand = self.read_operand(mode, true);
        self.add_to_accumulator(!operand);
    }

    fn cmp(&mut self, mode: Mode)
        requires
            old(self).ready(),
            mode.addressable(),
        ensures
            old(self).steps_to(Instr::Cmp, mode, *final(self)),
    {
        proof {
            reveal(CPU::performs);
            reveal(CPU::steps_to);
        }
        let operand = self.read_operand(mode, true);
        let a = self.a;
        self.compare(a, operand);
    }

    fn cpx(&mut self, mode: Mode)
        requires
            old(self).ready(),
            mode.addressable(),
        ensures
            old(self).steps_to(Instr::Cpx, mode, *final(self)),
    {
        proof {
            reveal(CPU::performs);
            reveal(CPU::steps_to);
        }
        let operand = self.read_operand(mode, false);
        let x = self.x;
        self.compare(x, operand);
    }

    fn cpy(&mut self, mode: Mode)
        requires
            old(self).ready(),
            mode.addressable(),
        ensures
            old(self).steps_to(Instr::Cpy, mode, *final(self)),
    {
        proof {
            reveal(CPU::performs);
            reveal(CPU::steps_to);
        }
        let operand = self.read_operand(mode, false);
        let y = self.y;
        self.compare(y, operand);
    }

    fn lda(&mut self, mode: Mode)
        requires
            old(self).ready(),
            mode.addressable(),
        ensures
            old(self).steps_to(Instr::Lda, mode, *final(self)),
    {
        proof {
            reveal(CPU::performs);
            reveal(CPU::steps_to);
        }
        let operand = self.read_operand(mode, true);
        self.set_zn(operand);
        self.a = operand;
    }

    fn ldx(&mut self, mode: Mode)
        requires
            old(self).ready(),
            mode.addressable(),
        ensures
            old(self).steps_to(Instr::Ldx, mode, *final(self)),
    {
        proof {
            reveal(CPU::performs);
            reveal(CPU::steps_to);
        }
        let operand = self.read_operand(mode, true);
        self.set_zn(operand);
        self.x = operand;
    }

    fn ldy(&mut self, mode: Mode)
        requires
            old(self).ready(),
            mode.addressable(),
        ensures
            old(self).steps_to(Instr::Ldy, mode, *final(self)),
    {
        proof {
            reveal(CPU::performs);
            reveal(CPU::steps_to);
        }
        let operand = self.read_operand(mode, true);
        self.set_zn(operand);
        self.y = operand;
    }

    fn lax(&mut self, mode: Mode)
        requires
            old(self).ready(),
            mode.addressable(),
        ensures
            old(self).steps_to(Instr::Lax, mode, *final(self)),
    {
        proof {
            reveal(CPU::performs);
            reveal(CPU::steps_to);
        }
        self.lda(mode);
        self.x = self.a;
    }

    fn sta(&mut self, mode: Mode)
        requires
            old(self).ready(),
            mode.addressable(),
        ensures
            old(self).steps_to(Instr::Sta, mode, *final(self)),
    {
        proof {
            reveal(CPU::performs);
            reveal(CPU::steps_to);
        }
        let address = self.operand_address(mode, false);
        let value = self.a;
        self.write(address, value);
    }

    fn stx(&mut self, mode: Mode)
        requires
            old(self).ready(),
            mode.addressable(),
        ensures
            old(self).steps_to(Instr::Stx, mode, *final(self)),
    {
        proof {
            reveal(CPU::performs);
            reveal(CPU::steps_to);
        }
        let address = self.operand_address(mode, false);
        let value = self.x;
        self.write(address, value);
    }

    fn sty(&mut self, mode: Mode)
        requires
            old(self).ready(),
            mode.addressable(),
        ensures
            old(self).steps_to(Instr::Sty, mode, *final(self)),
    {
        proof {
            reveal(CPU::performs);
            reveal(CPU::steps_to);
        }
        let address = self.operand_address(mode, false);
        let value = self.y;
        self.write(address, value);
    }

    fn sax(&mut self, mode: Mode)
        requires
            old(self).ready(),
            mode.addressable(),
        ensures
            old(self).steps_to(Instr::Sax, mode, *final(self)),
    {
        proof {
            reveal(CPU::performs);
            reveal(CPU::steps_to);
        }
        let address = self.operand_address(mode, false);
        let value = self.a & self.x;
        self.write(address, value);
    }

    fn asl(&mut self, mode: Mode)
        requires
            old(self).ready(),
            mode.addressable(),
        ensures
            old(self).steps_to(Instr::Asl, mode, *final(self)),
    {
        proof {
            reveal(CPU::performs);
            reveal(CPU::steps_to);
        }
        self.asl_ret(mode);
    }

    fn asl_a(&mut self)
        requires
            old(self).ready(),
        ensures
            old(self).steps_to(Instr::AslA, Mode::Implied, *final(self)),
    {
        proof {
            reveal(CPU::performs);
            reveal(CPU::steps_to);
        }
        let operand = self.a;
        let result = self.shift(Shift::Asl, operand);
        self.a = result;
    }

    fn lsr(&mut self, mode: Mode)
        requires
            old(self).ready(),
            mode.addressable(),
        ensures
            old(self).steps_to(Instr::Lsr, mode, *final(self)),
    {
        proof {
            reveal(CPU::performs);
            reveal(CPU::steps_to);
        }
        self.lsr_ret(mode);
    }

    fn lsr_a(&mut self)
        requires
            old(self).ready(),
        ensures
            old(self).steps_to(Instr::LsrA, Mode::Implied, *final(self)),
    {
        proof {
            reveal(CPU::performs);
            reveal(CPU::steps_to);
        }
        let operand = self.a;
        let result = self.shift(Shift::Lsr, operand);
        self.a = result;
    }

    fn rol(&mut self, mode: Mode)
        requires
            old(self).ready(),
            mode.addressable(),
        ensures
            old(self).steps_to(Instr::Rol, mode, *final(self)),
    {
        proof {
            reveal(CPU::performs);
            reveal(CPU::steps_to);
        }
        self.rol_ret(mode);
    }

    fn rol_a(&mut self)
        requires
            old(self).ready(),
        ensures
            old(self).steps_to(Instr::RolA, Mode::Implied, *final(self)),
    {
        proof {
            reveal(CPU::performs);
            reveal(CPU::steps_to);
        }
        let operand = self.a;
        let result = self.shift(Shift::Rol, operand);
        self.a = result;
    }

    fn ror(&mut self, mode: Mode)
        requires
            old(self).ready(),
            mode.addressable(),
        ensures
            old(self).steps_to(Instr::Ror, mode, *final(self)),
    {
        proof {
            reveal(CPU::performs);
            reveal(CPU::steps_to);
        }
        self.ror_ret(mode);
    }

    fn ror_a(&mut self)
        requires
            old(self).ready(),
        ensures
            old(self).steps_to(Instr::RorA, Mode::Implied, *final(self)),
    {
        proof {
            reveal(CPU::performs);
            reveal(CPU::steps_to);
        }
        let operand = self.a;
        let result = self.shift(Shift::Ror, operand);
        self.a = result;
    }

    fn inc(&mut self, mode: Mode)
        requires
            old(self).ready(),
            mode.addressable(),
        ensures
            old(self).steps_to(Instr::Inc, mode, *final(self)),
    {
        proof {
            reveal(CPU::performs);
            reveal(CPU::steps_to);
        }
        let address = self.operand_address(mode, false);
        let operand = self.read(address);
        let result = operand.wrapping_add(1);
        self.set_zn(result);
        self.write(address, result);
    }

    fn dec(&mut self, mode: Mode)
        requires
            old(self).ready(),
            mode.addressable(),
        ensures
            old(self).steps_to(Instr::Dec, mode, *final(self)),
    {
        proof {
            reveal(CPU::performs);
            reveal(CPU::steps_to);
        }
        let address = self.operand_address(mode, false);
        let operand = self.read(address);
        let result = operand.wrapping_sub(1);
        self.set_zn(result);
        self.write(address, result);
    }

    fn dcp(&mut self, mode: Mode)
        requires
            old(self).ready(),
            mode.addressable(),
        ensures
            old(self).steps_to(Instr::Dcp, mode, *final(self)),
    {
        proof {
            reveal(CPU::performs);
            reveal(CPU::steps_to);
        }
        let address = self.operand_address(mode, false);
        let operand = self.read(address);
        let result = operand.wrapping_sub(1);
        self.write(address, result);
        let a = self.a;
        self.compare(a, result);
    }

    fn isc(&mut self, mode: Mode)
        requires
            old(self).ready(),
            mode.addressable(),
        ensures
            old(self).steps_to(Instr::Isc, mode, *final(self)),
    {
        proof {
            reveal(CPU::performs);
            reveal(CPU::steps_to);
        }
        let address = self.operand_address(mode, false);
        let operand = self.read(address);
        let result = operand.wrapping_add(1);
        self.write(address, result);
        self.add_to_accumulator(!result);
    }

    fn slo(&mut self, mode: Mode)
        requires
            old(self).ready(),
            mode.addressable(),
        ensures
            old(self).steps_to(Instr::Slo, mode, *final(self)),
    {
        proof {
            reveal(CPU::performs);
            reveal(CPU::steps_to);
        }
        let shifted = self.asl_ret(mode);
        let result = self.a | shifted;
        self.set_zn(result);
        self.a = result;
    }

    fn rla(&mut self, mode: Mode)
        requires
            old(self).ready(),
            mode.addressable(),
        ensures
            old(self).steps_to(Instr::Rla, mode, *final(self)),
    {
        proof {
            reveal(CPU::performs);
            reveal(CPU::steps_to);
        }
        let shifted = self.rol_ret(mode);
        let result = self.a & shifted;
        self.set_zn(result);
        self.a = result;
    }

    fn sre(&mut self, mode: Mode)
        requires
            old(self).ready(),
            mode.addressable(),
        ensures
            old(self).steps_to(Instr::Sre, mode, *final(self)),
    {
        proof {
            reveal(CPU::performs);
            reveal(CPU::steps_to);
        }
        let shifted = self.lsr_ret(mode);
        let result = self.a ^ shifted;
        self.set_zn(result);
        self.a = result;
    }

    fn rra(&mut self, mode: Mode)
        requires
            old(self).ready(),
            mode.addressable(),
        ensures
            old(self).steps_to(Instr::Rra, mode, *final(self)),
    {
        proof {
            reveal(CPU::performs);
            reveal(CPU::steps_to);
        }
        let rotated = self.ror_ret(mode);
        self.add_to_accumulator(rotated);
    }

    fn inx(&mut self, _mode: Mode)
        requires
            old(self).ready(),
        ensures
            old(self).steps_to(Instr::Inx, _mode, *final(self)),
    {
        proof {
            reveal(CPU::performs);
            reveal(CPU::steps_to);
        }
        let result = self.x.wrapping_add(1);
        self.set_zn(result);
        self.x = result;
    }

    fn iny(&mut self, _mode: Mode)
        requires
            old(self).ready(),
        ensures
            old(self).steps_to(Instr::Iny, _mode, *final(self)),
    {
        proof {
            reveal(CPU::performs);
            reveal(CPU::steps_to);
        }
        let result = self.y.wrapping_add(1);
        self.set_zn(result);
        self.y = result;
    }

    fn dex(&mut self, _mode: Mode)
        requires
            old(self).ready(),
        ensures
            old(self).steps_to(Instr::Dex, _mode, *final(self)),
    {
        proof {
            reveal(CPU::performs);
            reveal(CPU::steps_to);
        }
        let result = self.x.wrapping_sub(1);
        self.set_zn(result);
        self.x = result;
    }

    fn dey(&mut self, _mode: Mode)
        requires
            old(self).ready(),
        ensures
            old(self).steps_to(Instr::Dey, _mode, *final(self)),
    {
        proof {
            reveal(CPU::performs);
            reveal(CPU::steps_to);
        }
        let result = self.y.wrapping_sub(1);
        self.set_zn(result);
        self.y = result;
    }

    fn tax(&mut self, _mode: Mode)
        requires
            old(self).ready(),
        ensures
            old(self).steps_to(Instr::Tax, _mode, *final(self)),
    {
        proof {
            reveal(CPU::performs);
            reveal(CPU::steps_to);
        }
        let result = self.a;
        self.set_zn(result);
        self.x = result;
    }

    fn tay(&mut self, _mode: Mode)
        requires
            old(self).ready(),
        ensures
            old(self).steps_to(Instr::Tay, _mode, *final(self)),
    {
        proof {
            reveal(CPU::performs);
            reveal(CPU::steps_to);
        }
        let result = self.a;
        self.set_zn(result);
        self.y = result;
    }

    fn txa(&mut self, _mode: Mode)
        requires
            old(self).ready(),
        ensures
            old(self).steps_to(Instr::Txa, _mode, *final(self)),
    {
        proof {
            reveal(CPU::performs);
            reveal(CPU::steps_to);
        }
        let result = self.x;
        self.set_zn(result);
        self.a = result;
    }

    fn tya(&mut self, _mode: Mode)
        requires
            old(self).ready(),
        ensures
            old(self).steps_to(Instr::Tya, _mode, *final(self)),
    {
        proof {
            reveal(CPU::performs);
            reveal(CPU::steps_to);
        }
        let result = self.y;
        self.set_zn(result);
        self.a = result;
    }

    fn tsx(&mut self, _mode: Mode)
        requires
            old(self).ready(),
        ensures
            old(self).steps_to(Instr::Tsx, _mode, *final(self)),
    {
        proof {
            reveal(CPU::performs);
            reveal(CPU::steps_to);
        }
        let result = self.sp;
        self.set_zn(result);
        self.x = result;
    }

    fn txs(&mut self, _mode: Mode)
        requires
            old(self).ready(),
        ensures
            old(self).steps_to(Instr::Txs, _mode, *final(self)),
    {
        proof {
            reveal(CPU::performs);
            reveal(CPU::steps_to);
        }
        self.sp = self.x;
    }

    fn clc(&mut self, _mode: Mode)
        requires
            old(self).ready(),
        ensures
            old(self).steps_to(Instr::Clc, _mode, *final(self)),
    {
        proof {
            reveal(CPU::performs);
            reveal(CPU::steps_to);
        }
        self.set_carry(false);
    }

    fn sec(&mut self, _mode: Mode)
        requires
            old(self).ready(),
        ensures
            old(self).steps_to(Instr::Sec, _mode, *final(self)),
    {
        proof {
            reveal(CPU::performs);
            reveal(CPU::steps_to);
        }
        self.set_carry(true);
    }

    fn cli(&mut self, _mode: Mode)
        requires
            old(self).ready(),
        ensures
            old(self).steps_to(Instr::Cli, _mode, *final(self)),
    {
        proof {
            reveal(CPU::performs);
            reveal(CPU::steps_to);
        }
        self.set_interrupt_disable(false);
    }

    fn sei(&mut self, _mode: Mode)
        requires
            old(self).ready(),
        ensures
            old(self).steps_to(Instr::Sei, _mode, *final(self)),
    {
        proof {
            reveal(CPU::performs);
            reveal(CPU::steps_to);
        }
        self.set_interrupt_disable(true);
    }

    fn cld(&mut self, _mode: Mode)
        requires
            old(self).ready(),
        ensures
            old(self).steps_to(Instr::Cld, _mode, *final(self)),
    {
        proof {
            reveal(CPU::performs);
            reveal(CPU::steps_to);
        }
        self.set_decimal(false);
    }

    fn sed(&mut self, _mode: Mode)
        requires
            old(self).ready(),
        ensures
            old(self).steps_to(Instr::Sed, _mode, *final(self)),
    {
        proof {
            reveal(CPU::performs);
            reveal(CPU::steps_to);
        }
        self.set_decimal(true);
    }

    fn clv(&mut self, _mode: Mode)
        requires
            old(self).ready(),
        ensures
            old(self).steps_to(Instr::Clv, _mode, *final(self)),
    {
        proof {
            reveal(CPU::performs);
            reveal(CPU::steps_to);
        }
        self.set_overflow(false);
    }

    fn pha(&mut self, _mode: Mode)
        requires
            old(self).ready(),
        ensures
            old(self).steps_to(Instr::Pha, _mode, *final(self)),
    {
        proof {
            reveal(CPU::performs);
            reveal(CPU::steps_to);
        }
        let a = self.a;
        self.push_to_stack(a);
    }

    fn php(&mut self, _mode: Mode)
        requires
            old(self).ready(),
        ensures
            old(self).steps_to(Instr::Php, _mode, *final(self)),
    {
        proof {
            reveal(CPU::performs);
            reveal(CPU::steps_to);
        }
        let status = self.p | BREAK | UNUSED;
        self.push_to_stack(status);
    }

    fn pla(&mut self, _mode: Mode)
        requires
            old(self).ready(),
        ensures
            old(self).steps_to(Instr::Pla, _mode, *final(self)),
    {
        proof {
            reveal(CPU::performs);
            reveal(CPU::steps_to);
        }
        let result = self.pop_from_stack();
        self.set_zn(result);
        self.a = result;
    }

    fn plp(&mut self, _mode: Mode)
        requires
            old(self).ready(),
        ensures
            old(self).steps_to(Instr::Plp, _mode, *final(self)),
    {
        proof {
            reveal(CPU::performs);
            reveal(CPU::steps_to);
        }
        let pulled = self.pop_from_stack();
        self.p = (pulled & 0xCF) | (self.p & BREAK) | UNUSED;
    }

    fn jmp(&mut self, mode: Mode)
        requires
            old(self).ready(),
            mode.addressable(),
        ensures
            old(self).steps_to(Instr::Jmp, mode, *final(self)),
    {
        proof {
            reveal(CPU::performs);
            reveal(CPU::steps_to);
        }
        self.pc = self.operand_address(mode, false);
    }

    fn jsr(&mut self, _mode: Mode)
        requires
            old(self).ready(),
        ensures
            old(self).steps_to(Instr::Jsr, _mode, *final(self)),
    {
        proof {
            reveal(CPU::performs);
            reveal(CPU::steps_to);
        }
        let target_address = self.operand_address(Mode::Absolute, false);
        let return_address = self.pc.wrapping_sub(1);
        self.push_to_stack((return_address / 256) as u8);
        self.push_to_stack((return_address % 256) as u8);
        self.pc = target_address;
    }

    fn rts(&mut self, _mode: Mode)
        requires
            old(self).ready(),
        ensures
            old(self).steps_to(Instr::Rts, _mode, *final(self)),
    {
        proof {
            reveal(CPU::performs);
            reveal(CPU::steps_to);
        }
        let lo = self.pop_from_stack();
        let hi = self.pop_from_stack();
        self.pc = ((hi as u16) * 256 + (lo as u16)).wrapping_add(1);
    }

    fn rti(&mut self, _mode: Mode)
        requires
            old(self).ready(),
        ensures
            old(self).steps_to(Instr::Rti, _mode, *final(self)),
    {
        proof {
            reveal(CPU::performs);
            reveal(CPU::steps_to);
        }
        let pulled = self.pop_from_stack();
        self.p = (pulled & 0xCF) | (self.p & BREAK) | UNUSED;
        let lo = self.pop_from_stack();
        let hi = self.pop_from_stack();
        self.pc = (hi as u16) * 256 + (lo as u16);
    }

    fn bpl(&mut self, _mode: Mode)
        requires
            old(self).ready(),
        ensures
            old(self).steps_to(Instr::Bpl, _mode, *final(self)),
    {
        proof {
            reveal(CPU::performs);
            reveal(CPU::steps_to);
        }
        let condition = !self.get_negative();
        self.branch(condition);
    }

    fn bmi(&mut self, _mode: Mode)
        requires
            old(self).ready(),
        ensures
            old(self).steps_to(Instr::Bmi, _mode, *final(self)),
    {
        proof {
            reveal(CPU::performs);
            reveal(CPU::steps_to);
        }
        let condition = self.get_negative();
        self.branch(condition);
    }

    fn bvc(&mut self, _mode: Mode)
        requires
            old(self).ready(),
        ensures
            old(self).steps_to(Instr::Bvc, _mode, *final(self)),
    {
        proof {
            reveal(CPU::performs);
            reveal(CPU::steps_to);
        }
        let condition = !self.get_overflow();
        self.branch(condition);
    }

    fn bvs(&mut self, _mode: Mode)
        requires
            old(self).ready(),
        ensures
            old(self).steps_to(Instr::Bvs, _mode, *final(self)),
    {
        proof {
            reveal(CPU::performs);
            reveal(CPU::steps_to);
        }
        let condition = self.get_overflow();
        self.branch(condition);
    }

    fn bcc(&mut self, _mode: Mode)
        requires
            old(self).ready(),
        ensures
            old(self).steps_to(Instr::Bcc, _mode, *final(self)),
    {
        proof {
            reveal(CPU::performs);
            reveal(CPU::steps_to);
        }
        let condition = !self.get_carry();
        self.branch(condition);
    }

    fn bcs(&mut self, _mode: Mode)
        requires
            old(self).ready(),
        ensures
            old(self).steps_to(Instr::Bcs, _mode, *final(self)),
    {
        proof {
            reveal(CPU::performs);
            reveal(CPU::steps_to);
        }
        let condition = self.get_carry();
        self.branch(condition);
    }

    fn bne(&mut self, _mode: Mode)
        requires
            old(self).ready(),
        ensures
            old(self).steps_to(Instr::Bne, _mode, *final(self)),
    {
        proof {
            reveal(CPU::performs);
            reveal(CPU::steps_to);
        }
        let condition = !self.get_zero();
        self.branch(condition);
    }

    fn beq(&mut self, _mode: Mode)
        requires
            old(self).ready(),
        ensures
            old(self).steps_to(Instr::Beq, _mode, *final(self)),
    {
        proof {
            reveal(CPU::performs);
            reveal(CPU::steps_to);
        }
        let condition = self.get_zero();
        self.branch(condition);
    }

    fn nop(&mut self, _mode: Mode)
        requires
            old(self).ready(),
        ensures
            old(self).steps_to(Instr::Nop, _mode, *final(self)),
    {
        proof {
            reveal(CPU::performs);
            reveal(CPU::steps_to);
        }
    }

    fn nop_read(&mut self, mode: Mode)
        requires
            old(self).ready(),
            mode.addressable(),
        ensures
            old(self).steps_to(Instr::NopRead, mode, *final(self)),
    {
        proof {
            reveal(CPU::performs);
            reveal(CPU::steps_to);
        }
        self.read_operand(mode, true);
    }

    pub fn get_carry(&self) -> (r: bool)
        ensures
            r == flag_on(self.p, CARRY),
    {
        self.p & CARRY == CARRY
    }

    pub fn get_zero(&self) -> (r: bool)
        ensures
            r == flag_on(self.p, ZERO),
    {
        self.p & ZERO == ZERO
    }

    pub fn get_interrupt_disable(&self) -> (r: bool)
        ensures
            r == flag_on(self.p, INTERRUPT_DISABLE),
    {
        self.p & INTERRUPT_DISABLE == INTERRUPT_DISABLE
    }

    pub fn get_decimal(&self) -> (r: bool)
        ensures
            r == flag_on(self.p, DECIMAL),
    {
        self.p & DECIMAL == DECIMAL
    }

    pub fn get_break(&self) -> (r: bool)
        ensures
            r == flag_on(self.p, BREAK),
    {
        self.p & BREAK == BREAK
    }

    pub fn get_unsed(&self) -> (r: bool)
        ensures
            r == flag_on(self.p, UNUSED),
    {
        self.p & UNUSED == UNUSED
    }

    pub fn get_overflow(&self) -> (r: bool)
        ensures
            r == flag_on(self.p, OVERFLOW),
    {
        self.p & OVERFLOW == OVERFLOW
    }

    pub fn get_negative(&self) -> (r: bool)
        ensures
            r == flag_on(self.p, NEGATIVE),
    {
        self.p & NEGATIVE == NEGATIVE
    }

    pub fn set_carry(&mut self, val: bool)
        ensures
            *final(self) == (CPU { p: set_flag(old(self).p, CARRY, val), ..*old(self) }),
    {
        self.set_flag(CARRY, val);
    }

    pub fn set_zero(&mut self, val: bool)
        ensures
            *final(self) == (CPU { p: set_flag(old(self).p, ZERO, val), ..*old(self) }),
    {
        self.set_flag(ZERO, val);
    }

    pub fn set_interrupt_disable(&mut self, val: bool)
        ensures
            *final(self) == (CPU {
                p: set_flag(old(self).p, INTERRUPT_DISABLE, val),
                ..*old(self)
            }),
    {
        self.set_flag(INTERRUPT_DISABLE, val);
    }

    pub fn set_decimal(&mut self, val: bool)
        ensures
            *final(self) == (CPU { p: set_flag(old(self).p, DECIMAL, val), ..*old(self) }),
    {
        self.set_flag(DECIMAL, val);
    }

    pub fn set_break(&mut self, val: bool)
        ensures
            *final(self) == (CPU { p: set_flag(old(self).p, BREAK, val), ..*old(self) }),
    {
        self.set_flag(BREAK, val);
    }

    pub fn set_unused(&mut self)
        ensures
            *final(self) == (CPU { p: old(self).p | UNUSED, ..*old(self) }),
    {
        self.p = self.p | UNUSED;
    }

    pub fn set_overflow(&mut self, val: bool)
        ensures
            *final(self) == (CPU { p: set_flag(old(self).p, OVERFLOW, val), ..*old(self) }),
    {
        self.set_flag(OVERFLOW, val);
    }

    pub fn set_negative(&mut self, val: bool)
        ensures
            *final(self) == (CPU { p: set_flag(old(self).p, NEGATIVE, val), ..*old(self) }),
    {
        self.set_flag(NEGATIVE, val);
    }
}

/// Where the status register only changes by the pushed status, vectoring from either
/// state gives the same result.
proof fn lemma_vectored_status(before: CPU, now: CPU, vector: u16)
    requires
        now == (CPU { p: now.p, ..before }),
    ensures
        now.vectored(now.pc, now.p, now.p, vector) == before.vectored(before.pc, now.p, now.p, vector),
{
}

/// The stack lies in RAM, below any cartridge window, and is not mirrored away.
pub proof fn lemma_stack_in_ram(sp: u8)
    ensures
        stack_addr(sp) <= 0x1FF,
        0x100 <= stack_addr(sp),
        ram_index(stack_addr(sp)) == stack_addr(sp),
{
    let a: u16 = (0x100 + sp as int) as u16;
    assert(0x100u16 <= a <= 0x1FFu16 ==> a & 0x07FFu16 == a) by (bit_vector);
}

/// The page of an address, kept in place.
fn high_byte(value: u16) -> (r: u16)
    ensures
        r == page(value),
{
    value & 0xFF00
}

/// The low byte of `value`, as an address in page zero.
pub fn low_byte(value: u16) -> (r: u16)
    ensures
        r == value & 0xFF,
{
    value & 0xFF
}

/// `base` indexed by a register, wrapping at the top of memory.
fn offset(base: u16, index: u8) -> (r: u16)
    ensures
        r == base.wrapping_add(index as u16),
{
    base.wrapping_add(index as u16)
}

} // verus!
