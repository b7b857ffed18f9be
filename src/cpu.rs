//! SM83 (GBZ80) emulation.
use vstd::prelude::*;

use crate::bus::{Bus, Port};
use vstd::arithmetic::div_mod::{lemma_fundamental_div_mod, lemma_fundamental_div_mod_converse};

verus! {

/// The processor state: registers, flags and the latent control bits.
///
/// The flag register F is kept as its four flag bits; its low nibble is
/// always zero.
#[derive(Copy, Clone)]
pub struct Cpu {
    pub pc: u16,
    pub sp: u16,
    pub a: u8,
    pub b: u8,
    pub c: u8,
    pub d: u8,
    pub e: u8,
    pub h: u8,
    pub l: u8,
    pub zf: bool,
    pub nf: bool,
    pub hf: bool,
    pub cf: bool,
    /// Interrupt master enable.
    pub ime: bool,
    /// Set by EI: interrupts become enabled at the next instruction boundary.
    pub ei_pending: bool,
    pub halted: bool,
    pub stopped: bool,
}

#[derive(Copy, Clone)]
pub enum WideRegister {
    PC,
    SP,
    AF,
    BC,
    DE,
    HL,
}

#[derive(Copy, Clone)]
pub enum Register {
    A,
    F,
    B,
    C,
    D,
    E,
    H,
    L,
}

#[derive(Copy, Clone)]
pub enum Flag {
    Zero,
    Negative,
    HalfCarry,
    Carry,
}

/// Branch conditions of JR/JP/CALL/RET.
#[derive(Copy, Clone)]
pub enum Condition {
    Zero,
    NotZero,
    Carry,
    NotCarry,
}

/// `x + d` modulo 2^16.
pub open spec fn off16(x: u16, d: int) -> u16 {
    ((x as int + d) % 65536) as u16
}

/// 1 for a set carry, 0 otherwise.
pub open spec fn bit(b: bool) -> int {
    if b {
        1
    } else {
        0
    }
}

/// The byte F for the given flags.
pub open spec fn flags_byte(z: bool, n: bool, h: bool, c: bool) -> u8 {
    (0x80 * bit(z) + 0x40 * bit(n) + 0x20 * bit(h) + 0x10 * bit(c)) as u8
}

/// The signed value of an 8-bit two's complement offset.
pub open spec fn signed8(e: u8) -> int {
    if e < 128 {
        e as int
    } else {
        e as int - 256
    }
}

/// Flags kept from a byte written to F.
pub open spec fn zero_bit(v: u8) -> bool {
    v & 0x80 != 0
}

pub open spec fn negative_bit(v: u8) -> bool {
    v & 0x40 != 0
}

pub open spec fn half_bit(v: u8) -> bool {
    v & 0x20 != 0
}

pub open spec fn carry_bit(v: u8) -> bool {
    v & 0x10 != 0
}


/// The sum a + v + carry-in, modulo 256.
pub open spec fn add8(a: u8, v: u8, ci: bool) -> u8 {
    ((a + v + bit(ci)) % 256) as u8
}

/// Carry out of bit 3 of a + v + carry-in.
pub open spec fn add8_half(a: u8, v: u8, ci: bool) -> bool {
    a % 16 + v % 16 + bit(ci) > 15
}

/// Carry out of bit 7 of a + v + carry-in.
pub open spec fn add8_carry(a: u8, v: u8, ci: bool) -> bool {
    a + v + bit(ci) > 255
}

/// The difference a - v - borrow-in, modulo 256.
pub open spec fn sub8(a: u8, v: u8, ci: bool) -> u8 {
    ((a - v - bit(ci)) % 256) as u8
}

/// Borrow from bit 4 of a - v - borrow-in.
pub open spec fn sub8_half(a: u8, v: u8, ci: bool) -> bool {
    a % 16 < v % 16 + bit(ci)
}

/// Borrow out of a - v - borrow-in.
pub open spec fn sub8_carry(a: u8, v: u8, ci: bool) -> bool {
    a < v + bit(ci)
}

pub open spec fn rlc8(v: u8) -> u8 {
    ((v % 128) * 2 + v / 128) as u8
}

pub open spec fn rl8(v: u8, c: bool) -> u8 {
    ((v % 128) * 2 + bit(c)) as u8
}

pub open spec fn rrc8(v: u8) -> u8 {
    (v / 2 + (v % 2) * 128) as u8
}

pub open spec fn rr8(v: u8, c: bool) -> u8 {
    (v / 2 + bit(c) * 128) as u8
}

pub open spec fn sla8(v: u8) -> u8 {
    ((v % 128) * 2) as u8
}

/// Arithmetic shift right: bit 7 is kept.
pub open spec fn sra8(v: u8) -> u8 {
    (v / 2 + (v / 128) * 128) as u8
}

pub open spec fn srl8(v: u8) -> u8 {
    (v / 2) as u8
}

pub open spec fn swap8(v: u8) -> u8 {
    ((v % 16) * 16 + v / 16) as u8
}

pub open spec fn bit_set(v: u8, b: u8) -> bool {
    (v >> b) & 1 == 1
}

/// The decimal adjustment of A after a BCD addition (n false) or subtraction (n true).
pub open spec fn daa_offset(a: u8, n: bool, h: bool, c: bool) -> int {
    if !n {
        (if c || a > 0x99 { 0x60int } else { 0 }) + (if h || a % 16 > 9 { 6int } else { 0 })
    } else {
        -((if c { 0x60int } else { 0 }) + (if h { 6int } else { 0 }))
    }
}

pub open spec fn daa8(a: u8, n: bool, h: bool, c: bool) -> u8 {
    ((a + daa_offset(a, n, h, c)) % 256) as u8
}

pub open spec fn daa_carry(a: u8, n: bool, h: bool, c: bool) -> bool {
    c || (!n && a > 0x99)
}


/// The little-endian 16-bit value at `addr` and `addr + 1`.
pub open spec fn peek16<B: Bus>(bus: B, addr: u16) -> u16 {
    (bus.peek(addr) as int + 256 * bus.peek(off16(addr, 1)) as int) as u16
}

/// The bus after `value` is pushed onto a stack whose pointer was `sp`.
pub open spec fn pushed<B: Bus>(bus: B, sp: u16, value: u16) -> B {
    bus.poke(off16(sp, -1), (value / 256) as u8).poke(off16(sp, -2), (value % 256) as u8)
}


/// The eight rotate/shift/swap operations of the 0xCB page, in opcode order.
#[derive(Copy, Clone)]
pub enum ShiftOp {
    Rlc,
    Rrc,
    Rl,
    Rr,
    Sla,
    Sra,
    Swap,
    Srl,
}

pub open spec fn shift_result(op: ShiftOp, v: u8, c: bool) -> u8 {
    match op {
        ShiftOp::Rlc => rlc8(v),
        ShiftOp::Rrc => rrc8(v),
        ShiftOp::Rl => rl8(v, c),
        ShiftOp::Rr => rr8(v, c),
        ShiftOp::Sla => sla8(v),
        ShiftOp::Sra => sra8(v),
        ShiftOp::Swap => swap8(v),
        ShiftOp::Srl => srl8(v),
    }
}

/// The carry flag after a rotate/shift/swap of `v`.
pub open spec fn shift_carry(op: ShiftOp, v: u8) -> bool {
    match op {
        ShiftOp::Rlc | ShiftOp::Rl | ShiftOp::Sla => v >= 128,
        ShiftOp::Swap => false,
        _ => v % 2 == 1,
    }
}

/// The eight accumulator operations of opcodes 0x80-0xBF, in opcode order.
#[derive(Copy, Clone)]
pub enum AluOp {
    Add,
    Adc,
    Sub,
    Sbc,
    And,
    Xor,
    Or,
    Cp,
}

/// The state after an accumulator operation with operand `v`.
#[verifier::opaque]
pub open spec fn alu(op: AluOp, s: Cpu, v: u8) -> Cpu {
    match op {
        AluOp::Add => s.with_a(add8(s.a, v, false)).with_flags(
            add8(s.a, v, false) == 0,
            false,
            add8_half(s.a, v, false),
            add8_carry(s.a, v, false),
        ),
        AluOp::Adc => s.with_a(add8(s.a, v, s.cf)).with_flags(
            add8(s.a, v, s.cf) == 0,
            false,
            add8_half(s.a, v, s.cf),
            add8_carry(s.a, v, s.cf),
        ),
        AluOp::Sub => s.with_a(sub8(s.a, v, false)).with_flags(
            sub8(s.a, v, false) == 0,
            true,
            sub8_half(s.a, v, false),
            sub8_carry(s.a, v, false),
        ),
        AluOp::Sbc => s.with_a(sub8(s.a, v, s.cf)).with_flags(
            sub8(s.a, v, s.cf) == 0,
            true,
            sub8_half(s.a, v, s.cf),
            sub8_carry(s.a, v, s.cf),
        ),
        AluOp::And => s.with_a(s.a & v).with_flags(s.a & v == 0, false, true, false),
        AluOp::Xor => s.with_a(s.a ^ v).with_flags(s.a ^ v == 0, false, false, false),
        AluOp::Or => s.with_a(s.a | v).with_flags(s.a | v == 0, false, false, false),
        AluOp::Cp => s.with_flags(
            sub8(s.a, v, false) == 0,
            true,
            sub8_half(s.a, v, false),
            sub8_carry(s.a, v, false),
        ),
    }
}



/// The 8-bit register that operand index `i` (bits 0-2 or 3-5 of an opcode)
/// names; index 6 stands for (HL) and has no register.
pub open spec fn operand_reg(i: int) -> Register {
    if i == 0 {
        Register::B
    } else if i == 1 {
        Register::C
    } else if i == 2 {
        Register::D
    } else if i == 3 {
        Register::E
    } else if i == 4 {
        Register::H
    } else if i == 5 {
        Register::L
    } else {
        Register::A
    }
}

/// The value of operand index `i`: a register, or the byte at (HL) for 6.
pub open spec fn operand<B: Bus>(s: Cpu, b: B, i: int) -> u8 {
    if i == 6 {
        b.peek(s.hl())
    } else {
        s.reg(operand_reg(i))
    }
}

pub open spec fn alu_op(i: int) -> AluOp {
    if i == 0 {
        AluOp::Add
    } else if i == 1 {
        AluOp::Adc
    } else if i == 2 {
        AluOp::Sub
    } else if i == 3 {
        AluOp::Sbc
    } else if i == 4 {
        AluOp::And
    } else if i == 5 {
        AluOp::Xor
    } else if i == 6 {
        AluOp::Or
    } else {
        AluOp::Cp
    }
}

pub open spec fn shift_op(i: int) -> ShiftOp {
    if i == 0 {
        ShiftOp::Rlc
    } else if i == 1 {
        ShiftOp::Rrc
    } else if i == 2 {
        ShiftOp::Rl
    } else if i == 3 {
        ShiftOp::Rr
    } else if i == 4 {
        ShiftOp::Sla
    } else if i == 5 {
        ShiftOp::Sra
    } else if i == 6 {
        ShiftOp::Swap
    } else {
        ShiftOp::Srl
    }
}

/// The effect of LD r,r' / LD r,(HL) / LD (HL),r (opcodes 0x40-0x7F but HALT).
pub open spec fn load_effect<B: Bus>(op: u8, s: Cpu, b: B, s2: Cpu, b2: B) -> bool {
    let d = (op - 0x40) / 8;
    let r = op % 8;
    if d == 6 {
        s2 == s && b2 == b.poke(s.hl(), s.reg(operand_reg(r as int)))
    } else {
        s2 == s.with_reg(operand_reg(d as int), operand(s, b, r as int)) && b2 == b
    }
}

/// The effect of a 0xCB-page instruction with second byte `c` on operand
/// index `c % 8`, the byte after the prefix already consumed.
pub open spec fn cb_effect<B: Bus>(c: u8, s: Cpu, b: B, s2: Cpu, b2: B) -> bool {
    let i = (c % 8) as int;
    let n = ((c / 8) % 8) as u8;
    let v = operand(s, b, i);
    let x = if c < 0x40 {
        shift_result(shift_op((c / 8) as int), v, s.cf)
    } else if c < 0x80 {
        v
    } else if c < 0xC0 {
        v & !(1u8 << n)
    } else {
        v | (1u8 << n)
    };
    let flags = if c < 0x40 {
        s.with_flags(x == 0, false, false, shift_carry(shift_op((c / 8) as int), v))
    } else if c < 0x80 {
        s.with_flags(!bit_set(v, n), false, true, s.cf)
    } else {
        s
    };
    if c >= 0x40 && c < 0x80 {
        s2 == flags && b2 == b
    } else if i == 6 {
        s2 == flags && b2 == b.poke(s.hl(), x)
    } else {
        s2 == flags.with_reg(operand_reg(i), x) && b2 == b
    }
}


/// INC r: Z from the result, N clear, H from the carry out of bit 3, C kept.
pub open spec fn inc_reg(s: Cpu, r: Register) -> Cpu {
    let v = s.reg(r);
    s.with_reg(r, add8(v, 1, false)).with_flags(add8(v, 1, false) == 0, false, v % 16 == 15, s.cf)
}

/// DEC r: Z from the result, N set, H from the borrow from bit 4, C kept.
pub open spec fn dec_reg(s: Cpu, r: Register) -> Cpu {
    let v = s.reg(r);
    s.with_reg(r, sub8(v, 1, false)).with_flags(sub8(v, 1, false) == 0, true, v % 16 == 0, s.cf)
}

/// ADD HL,v: Z kept, N clear, H from the carry out of bit 11, C out of bit 15.
pub open spec fn add_hl(s: Cpu, v: u16) -> Cpu {
    s.with_wide(WideRegister::HL, off16(s.hl(), v as int)).with_flags(
        s.zf,
        false,
        s.hl() % 4096 + v % 4096 > 4095,
        s.hl() + v > 65535,
    )
}

/// What opcode `op` of 0x00-0x3F or 0xC0-0xFF does, already fetched, from
/// state `s` on bus `b`: one entry per opcode.
pub open spec fn misc_effect<B: Bus>(op: u8, s: Cpu, b: B, s2: Cpu, b2: B) -> bool {
    match op {
        0x00 => s2 == s && b2 == b,
        0x01 => s2 == s.advanced(2).with_wide(WideRegister::BC, peek16(b, s.pc)) && b2 == b,
        0x02 => s2 == s && b2 == b.poke(s.wide(WideRegister::BC), s.reg(Register::A)),
        0x03 => s2 == s.with_wide(WideRegister::BC, off16(s.wide(WideRegister::BC), 1)) && b2 == b,
        0x04 => s2 == inc_reg(s, Register::B) && b2 == b,
        0x05 => s2 == dec_reg(s, Register::B) && b2 == b,
        0x06 => s2 == s.advanced(1).with_reg(Register::B, b.peek(s.pc)) && b2 == b,
        0x07 => s2 == s.with_a(shift_result(ShiftOp::Rlc, s.a, s.cf)).with_flags(false, false, false, shift_carry(ShiftOp::Rlc, s.a)) && b2 == b,
        0x08 => s2 == s.advanced(2) && b2 == b.poke(peek16(b, s.pc), (s.sp % 256) as u8).poke(off16(peek16(b, s.pc), 1), (s.sp / 256) as u8),
        0x09 => s2 == add_hl(s, s.wide(WideRegister::BC)) && b2 == b,
        0x0A => s2 == s.with_reg(Register::A, b.peek(s.wide(WideRegister::BC))) && b2 == b,
        0x0B => s2 == s.with_wide(WideRegister::BC, off16(s.wide(WideRegister::BC), -1)) && b2 == b,
        0x0C => s2 == inc_reg(s, Register::C) && b2 == b,
        0x0D => s2 == dec_reg(s, Register::C) && b2 == b,
        0x0E => s2 == s.advanced(1).with_reg(Register::C, b.peek(s.pc)) && b2 == b,
        0x0F => s2 == s.with_a(shift_result(ShiftOp::Rrc, s.a, s.cf)).with_flags(false, false, false, shift_carry(ShiftOp::Rrc, s.a)) && b2 == b,
        0x10 => s2 == (Cpu { stopped: true, ..s.advanced(1) }) && b2 == b,
        0x11 => s2 == s.advanced(2).with_wide(WideRegister::DE, peek16(b, s.pc)) && b2 == b,
        0x12 => s2 == s && b2 == b.poke(s.wide(WideRegister::DE), s.reg(Register::A)),
        0x13 => s2 == s.with_wide(WideRegister::DE, off16(s.wide(WideRegister::DE), 1)) && b2 == b,
        0x14 => s2 == inc_reg(s, Register::D) && b2 == b,
        0x15 => s2 == dec_reg(s, Register::D) && b2 == b,
        0x16 => s2 == s.advanced(1).with_reg(Register::D, b.peek(s.pc)) && b2 == b,
        0x17 => s2 == s.with_a(shift_result(ShiftOp::Rl, s.a, s.cf)).with_flags(false, false, false, shift_carry(ShiftOp::Rl, s.a)) && b2 == b,
        0x18 => s2 == s.advanced(1 + signed8(b.peek(s.pc))) && b2 == b,
        0x19 => s2 == add_hl(s, s.wide(WideRegister::DE)) && b2 == b,
        0x1A => s2 == s.with_reg(Register::A, b.peek(s.wide(WideRegister::DE))) && b2 == b,
        0x1B => s2 == s.with_wide(WideRegister::DE, off16(s.wide(WideRegister::DE), -1)) && b2 == b,
        0x1C => s2 == inc_reg(s, Register::E) && b2 == b,
        0x1D => s2 == dec_reg(s, Register::E) && b2 == b,
        0x1E => s2 == s.advanced(1).with_reg(Register::E, b.peek(s.pc)) && b2 == b,
        0x1F => s2 == s.with_a(shift_result(ShiftOp::Rr, s.a, s.cf)).with_flags(false, false, false, shift_carry(ShiftOp::Rr, s.a)) && b2 == b,
        0x20 => s2 == (if s.condition_holds(Condition::NotZero) { s.advanced(1 + signed8(b.peek(s.pc))) } else { s.advanced(1) }) && b2 == b,
        0x21 => s2 == s.advanced(2).with_wide(WideRegister::HL, peek16(b, s.pc)) && b2 == b,
        0x22 => s2 == s.with_wide(WideRegister::HL, off16(s.hl(), 1)) && b2 == b.poke(s.hl(), s.a),
        0x23 => s2 == s.with_wide(WideRegister::HL, off16(s.wide(WideRegister::HL), 1)) && b2 == b,
        0x24 => s2 == inc_reg(s, Register::H) && b2 == b,
        0x25 => s2 == dec_reg(s, Register::H) && b2 == b,
        0x26 => s2 == s.advanced(1).with_reg(Register::H, b.peek(s.pc)) && b2 == b,
        0x27 => s2 == s.with_a(daa8(s.a, s.nf, s.hf, s.cf)).with_flags(daa8(s.a, s.nf, s.hf, s.cf) == 0, s.nf, false, daa_carry(s.a, s.nf, s.hf, s.cf)) && b2 == b,
        0x28 => s2 == (if s.condition_holds(Condition::Zero) { s.advanced(1 + signed8(b.peek(s.pc))) } else { s.advanced(1) }) && b2 == b,
        0x29 => s2 == add_hl(s, s.wide(WideRegister::HL)) && b2 == b,
        0x2A => s2 == s.with_a(b.peek(s.hl())).with_wide(WideRegister::HL, off16(s.hl(), 1)) && b2 == b,
        0x2B => s2 == s.with_wide(WideRegister::HL, off16(s.wide(WideRegister::HL), -1)) && b2 == b,
        0x2C => s2 == inc_reg(s, Register::L) && b2 == b,
        0x2D => s2 == dec_reg(s, Register::L) && b2 == b,
        0x2E => s2 == s.advanced(1).with_reg(Register::L, b.peek(s.pc)) && b2 == b,
        0x2F => s2 == s.with_a(!s.a).with_flags(s.zf, true, true, s.cf) && b2 == b,
        0x30 => s2 == (if s.condition_holds(Condition::NotCarry) { s.advanced(1 + signed8(b.peek(s.pc))) } else { s.advanced(1) }) && b2 == b,
        0x31 => s2 == s.advanced(2).with_wide(WideRegister::SP, peek16(b, s.pc)) && b2 == b,
        0x32 => s2 == s.with_wide(WideRegister::HL, off16(s.hl(), -1)) && b2 == b.poke(s.hl(), s.a),
        0x33 => s2 == s.with_wide(WideRegister::SP, off16(s.wide(WideRegister::SP), 1)) && b2 == b,
        0x34 => s2 == s.with_flags(add8(b.peek(s.hl()), 1, false) == 0, false, b.peek(s.hl()) % 16 == 15, s.cf) && b2 == b.poke(s.hl(), add8(b.peek(s.hl()), 1, false)),
        0x35 => s2 == s.with_flags(sub8(b.peek(s.hl()), 1, false) == 0, true, b.peek(s.hl()) % 16 == 0, s.cf) && b2 == b.poke(s.hl(), sub8(b.peek(s.hl()), 1, false)),
        0x36 => s2 == s.advanced(1) && b2 == b.poke(s.hl(), b.peek(s.pc)),
        0x37 => s2 == s.with_flags(s.zf, false, false, true) && b2 == b,
        0x38 => s2 == (if s.condition_holds(Condition::Carry) { s.advanced(1 + signed8(b.peek(s.pc))) } else { s.advanced(1) }) && b2 == b,
        0x39 => s2 == add_hl(s, s.wide(WideRegister::SP)) && b2 == b,
        0x3A => s2 == s.with_a(b.peek(s.hl())).with_wide(WideRegister::HL, off16(s.hl(), -1)) && b2 == b,
        0x3B => s2 == s.with_wide(WideRegister::SP, off16(s.wide(WideRegister::SP), -1)) && b2 == b,
        0x3C => s2 == inc_reg(s, Register::A) && b2 == b,
        0x3D => s2 == dec_reg(s, Register::A) && b2 == b,
        0x3E => s2 == s.advanced(1).with_reg(Register::A, b.peek(s.pc)) && b2 == b,
        0x3F => s2 == s.with_flags(s.zf, false, false, !s.cf) && b2 == b,
        0xC0 => s2 == (if s.condition_holds(Condition::NotZero) { Cpu { pc: peek16(b, s.sp), sp: off16(s.sp, 2), ..s } } else { s }) && b2 == b,
        0xC1 => s2 == (Cpu { sp: off16(s.sp, 2), ..s }).with_wide(WideRegister::BC, peek16(b, s.sp)) && b2 == b,
        0xC2 => s2 == (if s.condition_holds(Condition::NotZero) { Cpu { pc: peek16(b, s.pc), ..s } } else { s.advanced(2) }) && b2 == b,
        0xC3 => s2 == (Cpu { pc: peek16(b, s.pc), ..s }) && b2 == b,
        0xC4 => (if s.condition_holds(Condition::NotZero) { s2 == (Cpu { pc: peek16(b, s.pc), sp: off16(s.sp, -2), ..s }) && b2 == pushed(b, s.sp, off16(s.pc, 2)) } else { s2 == s.advanced(2) && b2 == b }),
        0xC5 => s2 == (Cpu { sp: off16(s.sp, -2), ..s }) && b2 == pushed(b, s.sp, s.wide(WideRegister::BC)),
        0xC6 => s2 == alu(AluOp::Add, s.advanced(1), b.peek(s.pc)) && b2 == b,
        0xC7 => s2 == (Cpu { pc: 0x0000, sp: off16(s.sp, -2), ..s }) && b2 == pushed(b, s.sp, s.pc),
        0xC8 => s2 == (if s.condition_holds(Condition::Zero) { Cpu { pc: peek16(b, s.sp), sp: off16(s.sp, 2), ..s } } else { s }) && b2 == b,
        0xC9 => s2 == (Cpu { pc: peek16(b, s.sp), sp: off16(s.sp, 2), ..s }) && b2 == b,
        0xCA => s2 == (if s.condition_holds(Condition::Zero) { Cpu { pc: peek16(b, s.pc), ..s } } else { s.advanced(2) }) && b2 == b,
        0xCB => cb_effect(b.peek(s.pc), s.advanced(1), b, s2, b2),
        0xCC => (if s.condition_holds(Condition::Zero) { s2 == (Cpu { pc: peek16(b, s.pc), sp: off16(s.sp, -2), ..s }) && b2 == pushed(b, s.sp, off16(s.pc, 2)) } else { s2 == s.advanced(2) && b2 == b }),
        0xCD => s2 == (Cpu { pc: peek16(b, s.pc), sp: off16(s.sp, -2), ..s }) && b2 == pushed(b, s.sp, off16(s.pc, 2)),
        0xCE => s2 == alu(AluOp::Adc, s.advanced(1), b.peek(s.pc)) && b2 == b,
        0xCF => s2 == (Cpu { pc: 0x0008, sp: off16(s.sp, -2), ..s }) && b2 == pushed(b, s.sp, s.pc),
        0xD0 => s2 == (if s.condition_holds(Condition::NotCarry) { Cpu { pc: peek16(b, s.sp), sp: off16(s.sp, 2), ..s } } else { s }) && b2 == b,
        0xD1 => s2 == (Cpu { sp: off16(s.sp, 2), ..s }).with_wide(WideRegister::DE, peek16(b, s.sp)) && b2 == b,
        0xD2 => s2 == (if s.condition_holds(Condition::NotCarry) { Cpu { pc: peek16(b, s.pc), ..s } } else { s.advanced(2) }) && b2 == b,
        0xD3 => s2 == s && b2 == b,
        0xD4 => (if s.condition_holds(Condition::NotCarry) { s2 == (Cpu { pc: peek16(b, s.pc), sp: off16(s.sp, -2), ..s }) && b2 == pushed(b, s.sp, off16(s.pc, 2)) } else { s2 == s.advanced(2) && b2 == b }),
        0xD5 => s2 == (Cpu { sp: off16(s.sp, -2), ..s }) && b2 == pushed(b, s.sp, s.wide(WideRegister::DE)),
        0xD6 => s2 == alu(AluOp::Sub, s.advanced(1), b.peek(s.pc)) && b2 == b,
        0xD7 => s2 == (Cpu { pc: 0x0010, sp: off16(s.sp, -2), ..s }) && b2 == pushed(b, s.sp, s.pc),
        0xD8 => s2 == (if s.condition_holds(Condition::Carry) { Cpu { pc: peek16(b, s.sp), sp: off16(s.sp, 2), ..s } } else { s }) && b2 == b,
        0xD9 => s2 == (Cpu { pc: peek16(b, s.sp), sp: off16(s.sp, 2), ime: true, ..s }) && b2 == b,
        0xDA => s2 == (if s.condition_holds(Condition::Carry) { Cpu { pc: peek16(b, s.pc), ..s } } else { s.advanced(2) }) && b2 == b,
        0xDB => s2 == s && b2 == b,
        0xDC => (if s.condition_holds(Condition::Carry) { s2 == (Cpu { pc: peek16(b, s.pc), sp: off16(s.sp, -2), ..s }) && b2 == pushed(b, s.sp, off16(s.pc, 2)) } else { s2 == s.advanced(2) && b2 == b }),
        0xDD => s2 == s && b2 == b,
        0xDE => s2 == alu(AluOp::Sbc, s.advanced(1), b.peek(s.pc)) && b2 == b,
        0xDF => s2 == (Cpu { pc: 0x0018, sp: off16(s.sp, -2), ..s }) && b2 == pushed(b, s.sp, s.pc),
        0xE0 => s2 == s.advanced(1) && b2 == b.poke((0xFF00 + b.peek(s.pc)) as u16, s.a),
        0xE1 => s2 == (Cpu { sp: off16(s.sp, 2), ..s }).with_wide(WideRegister::HL, peek16(b, s.sp)) && b2 == b,
        0xE2 => s2 == s && b2 == b.poke((0xFF00 + s.c) as u16, s.a),
        0xE3 => s2 == s && b2 == b,
        0xE4 => s2 == s && b2 == b,
        0xE5 => s2 == (Cpu { sp: off16(s.sp, -2), ..s }) && b2 == pushed(b, s.sp, s.wide(WideRegister::HL)),
        0xE6 => s2 == alu(AluOp::And, s.advanced(1), b.peek(s.pc)) && b2 == b,
        0xE7 => s2 == (Cpu { pc: 0x0020, sp: off16(s.sp, -2), ..s }) && b2 == pushed(b, s.sp, s.pc),
        0xE8 => s2 == (Cpu { sp: off16(s.sp, signed8(b.peek(s.pc))), ..s.advanced(1) }).with_flags(false, false, s.sp % 16 + b.peek(s.pc) % 16 > 15, s.sp % 256 + b.peek(s.pc) > 255) && b2 == b,
        0xE9 => s2 == (Cpu { pc: s.hl(), ..s }) && b2 == b,
        0xEA => s2 == s.advanced(2) && b2 == b.poke(peek16(b, s.pc), s.a),
        0xEB => s2 == s && b2 == b,
        0xEC => s2 == s && b2 == b,
        0xED => s2 == s && b2 == b,
        0xEE => s2 == alu(AluOp::Xor, s.advanced(1), b.peek(s.pc)) && b2 == b,
        0xEF => s2 == (Cpu { pc: 0x0028, sp: off16(s.sp, -2), ..s }) && b2 == pushed(b, s.sp, s.pc),
        0xF0 => s2 == s.advanced(1).with_a(b.peek((0xFF00 + b.peek(s.pc)) as u16)) && b2 == b,
        0xF1 => s2 == (Cpu { sp: off16(s.sp, 2), ..s }).with_wide(WideRegister::AF, peek16(b, s.sp)) && b2 == b,
        0xF2 => s2 == s.with_a(b.peek((0xFF00 + s.c) as u16)) && b2 == b,
        0xF3 => s2 == (Cpu { ime: false, ei_pending: false, ..s }) && b2 == b,
        0xF4 => s2 == s && b2 == b,
        0xF5 => s2 == (Cpu { sp: off16(s.sp, -2), ..s }) && b2 == pushed(b, s.sp, s.wide(WideRegister::AF)),
        0xF6 => s2 == alu(AluOp::Or, s.advanced(1), b.peek(s.pc)) && b2 == b,
        0xF7 => s2 == (Cpu { pc: 0x0030, sp: off16(s.sp, -2), ..s }) && b2 == pushed(b, s.sp, s.pc),
        0xF8 => s2 == s.advanced(1).with_wide(WideRegister::HL, off16(s.sp, signed8(b.peek(s.pc)))).with_flags(false, false, s.sp % 16 + b.peek(s.pc) % 16 > 15, s.sp % 256 + b.peek(s.pc) > 255) && b2 == b,
        0xF9 => s2 == s.with_wide(WideRegister::SP, s.wide(WideRegister::HL)) && b2 == b,
        0xFA => s2 == s.advanced(2).with_a(b.peek(peek16(b, s.pc))) && b2 == b,
        0xFB => s2 == (Cpu { ei_pending: true, ..s }) && b2 == b,
        0xFC => s2 == s && b2 == b,
        0xFD => s2 == s && b2 == b,
        0xFE => s2 == alu(AluOp::Cp, s.advanced(1), b.peek(s.pc)) && b2 == b,
        0xFF => s2 == (Cpu { pc: 0x0038, sp: off16(s.sp, -2), ..s }) && b2 == pushed(b, s.sp, s.pc),
        _ => true,
    }
}

/// The state from which the instruction at PC runs: PC past the opcode, out
/// of HALT/STOP, and a pending EI taken into IME.
pub open spec fn fetched(s: Cpu) -> Cpu {
    Cpu {
        pc: off16(s.pc, 1),
        halted: false,
        stopped: false,
        ime: s.ime || s.ei_pending,
        ei_pending: false,
        ..s
    }
}

/// What running opcode `op` (already fetched) does.
pub open spec fn exec_effect<B: Bus>(op: u8, s: Cpu, b: B, s2: Cpu, b2: B) -> bool {
    &&& (op < 0x40 || op >= 0xC0) ==> misc_effect(op, s, b, s2, b2)
    &&& is_illegal(op) ==> s2 == s && b2 == b
    &&& (0x40 <= op <= 0x7F && op != 0x76) ==> load_effect(op, s, b, s2, b2)
    &&& op == 0x76 ==> s2 == (Cpu { halted: true, ..s }) && b2 == b
    &&& (0x80 <= op <= 0xBF) ==> s2 == alu(alu_op(((op - 0x80) / 8) as int), s, operand(s, b, (op % 8) as int))
        && b2 == b
    &&& op == 0xCB ==> cb_effect(b.peek(s.pc), s.advanced(1), b, s2, b2)
}

/// The published cycle count of a 0xCB-page instruction, prefix included.
pub open spec fn cb_cycles(op: u8) -> usize {
    if op % 8 != 6 {
        8
    } else if 0x40 <= op < 0x80 {
        12
    } else {
        16
    }
}

/// The condition in bits 3-4 of a conditional JR/JP/CALL/RET opcode.
pub open spec fn branch_condition(op: u8) -> Condition {
    if (op / 8) % 4 == 0 {
        Condition::NotZero
    } else if (op / 8) % 4 == 1 {
        Condition::Zero
    } else if (op / 8) % 4 == 2 {
        Condition::NotCarry
    } else {
        Condition::Carry
    }
}

/// The published SM83 cycle count of opcode `op`; `cb` is the byte after it
/// (read for the 0xCB page) and `taken` whether its branch condition holds.
pub open spec fn op_cycles(op: u8, cb: u8, taken: bool) -> usize {
    if op == 0xCB {
        cb_cycles(cb)
    } else if 0x40 <= op < 0xC0 {
        if op == 0x76 {
            4
        } else if op % 8 == 6 || (0x70 <= op < 0x78) {
            8
        } else {
            4
        }
    } else {
        match op {
            0x20 | 0x28 | 0x30 | 0x38 => if taken { 12 } else { 8 },
            0xC0 | 0xC8 | 0xD0 | 0xD8 => if taken { 20 } else { 8 },
            0xC2 | 0xCA | 0xD2 | 0xDA => if taken { 16 } else { 12 },
            0xC4 | 0xCC | 0xD4 | 0xDC => if taken { 24 } else { 12 },
            0x01 | 0x11 | 0x21 | 0x31 => 12,
            0x02 | 0x12 | 0x22 | 0x32 => 8,
            0x03 | 0x13 | 0x23 | 0x33 => 8,
            0x06 | 0x0E | 0x16 | 0x1E | 0x26 | 0x2E | 0x3E => 8,
            0x09 | 0x19 | 0x29 | 0x39 => 8,
            0x0A | 0x1A | 0x2A | 0x3A => 8,
            0x0B | 0x1B | 0x2B | 0x3B => 8,
            0x34 | 0x35 | 0x36 => 12,
            0x08 => 20,
            0x18 => 12,
            0xC1 | 0xD1 | 0xE1 | 0xF1 => 12,
            0xC5 | 0xD5 | 0xE5 | 0xF5 => 16,
            0xC6 | 0xCE | 0xD6 | 0xDE | 0xE6 | 0xEE | 0xF6 | 0xFE => 8,
            0xC7 | 0xCF | 0xD7 | 0xDF | 0xE7 | 0xEF | 0xF7 | 0xFF => 16,
            0xC3 | 0xC9 | 0xD9 => 16,
            0xCD => 24,
            0xE0 | 0xF0 => 12,
            0xE2 | 0xF2 => 8,
            0xE8 => 16,
            0xEA | 0xFA => 16,
            0xF8 => 12,
            0xF9 => 8,
            _ => 4,
        }
    }
}

/// The opcodes that no instruction uses.
pub open spec fn is_illegal(op: u8) -> bool {
    op == 0xD3 || op == 0xDB || op == 0xDD || op == 0xE3 || op == 0xE4 || op == 0xEB || op == 0xEC
        || op == 0xED || op == 0xF4 || op == 0xFC || op == 0xFD
}

/// The interrupts that are both requested and enabled.
pub open spec fn pending_irqs<B: Bus>(bus: B) -> u8 {
    bus.peek(Port::IE) & bus.peek(Port::IF) & 0x1F
}

/// The cycles that `Cpu::tick` takes from state `s` on bus `b`.
pub open spec fn tick_cycles<B: Bus>(s: Cpu, b: B) -> usize {
    let pending = pending_irqs(b);
    if (s.halted || s.stopped) && pending == 0 {
        4
    } else if s.ime && pending != 0 {
        20
    } else {
        let op = b.peek(s.pc);
        op_cycles(op, b.peek(off16(s.pc, 1)), s.condition_holds(branch_condition(op)))
    }
}

/// What one `Cpu::tick` does from state `s` on bus `b`, leaving state `s2`
/// on bus `b2` after `cycles` cycles: asleep (HALT or STOP) with nothing
/// pending it idles for 4 cycles, and any enabled request wakes it; with IME set and an interrupt pending it services the
/// highest-priority one; otherwise it runs the instruction at PC, taking the
/// published number of cycles, with the effect `exec_effect` gives.
pub open spec fn cpu_step<B: Bus>(s: Cpu, b: B, s2: Cpu, b2: B, cycles: usize) -> bool {
    &&& cycles == tick_cycles(s, b)
    &&& {
        let pending = pending_irqs(b);
        let asleep = s.halted || s.stopped;
        let op = b.peek(s.pc);
        &&& asleep && pending == 0 ==> cycles == 4 && s2 == s && b2 == b
        &&& (!asleep || pending != 0) && s.ime && pending != 0 ==> {
            &&& cycles == 20
            &&& s2 == (Cpu {
                pc: irq_vector(irq_index(pending)),
                sp: off16(s.sp, -2),
                ime: false,
                halted: false,
                stopped: false,
                ..s
            })
            &&& b2 == pushed(b, s.sp, s.pc).poke(
                Port::IF,
                b.peek(Port::IF) & !irq_mask(irq_index(pending)),
            )
        }
        &&& (!asleep || pending != 0) && !(s.ime && pending != 0) ==> {
            &&& cycles == op_cycles(op, b.peek(off16(s.pc, 1)), s.condition_holds(branch_condition(op)))
            &&& exec_effect(op, fetched(s), b, s2, b2)
        }
    }
}

/// The index of the highest-priority (lowest) set bit among the five interrupt bits.
pub open spec fn irq_index(p: u8) -> u8 {
    if p & 0x01 != 0 {
        0
    } else if p & 0x02 != 0 {
        1
    } else if p & 0x04 != 0 {
        2
    } else if p & 0x08 != 0 {
        3
    } else {
        4
    }
}

pub open spec fn irq_mask(i: u8) -> u8 {
    if i == 0 {
        0x01
    } else if i == 1 {
        0x02
    } else if i == 2 {
        0x04
    } else if i == 3 {
        0x08
    } else {
        0x10
    }
}

/// The handler address of interrupt `i`.
pub open spec fn irq_vector(i: u8) -> u16 {
    (0x40 + 8 * i) as u16
}


/// The flags of the accumulator operations: after ADD A,b the carry says
/// a + b > 0xFF, the half-carry (a & 0xF) + (b & 0xF) > 0xF, zero that the
/// result is 0, and N is clear; SUB sets N and takes the borrows instead;
/// CP has SUB's flags and leaves A alone; AND always sets H and clears C.
pub proof fn lemma_flag_algebra(s: Cpu, b: u8)
    ensures
        alu(AluOp::Add, s, b).cf == (s.a + b > 0xFF),
        alu(AluOp::Add, s, b).hf == (s.a % 16 + b % 16 > 0xF),
        alu(AluOp::Add, s, b).zf == ((s.a + b) % 256 == 0),
        alu(AluOp::Add, s, b).a == (s.a + b) % 256,
        !alu(AluOp::Add, s, b).nf,
        alu(AluOp::Sub, s, b).cf == (s.a < b),
        alu(AluOp::Sub, s, b).hf == (s.a % 16 < b % 16),
        alu(AluOp::Sub, s, b).zf == (s.a == b),
        alu(AluOp::Sub, s, b).a == (s.a - b) % 256,
        alu(AluOp::Sub, s, b).nf,
        alu(AluOp::Cp, s, b).a == s.a,
        alu(AluOp::Cp, s, b).with_a(alu(AluOp::Sub, s, b).a) == alu(AluOp::Sub, s, b),
        alu(AluOp::And, s, b).hf,
        !alu(AluOp::And, s, b).cf,
{
    reveal(alu);
}

/// The flag byte rebuilt from a written F is that byte with its low nibble cleared.
pub proof fn lemma_flags_byte_masks(v: u8)
    ensures
        flags_byte(zero_bit(v), negative_bit(v), half_bit(v), carry_bit(v)) == v & 0xF0,
{
    let z: u8 = if v & 0x80 != 0 { 0x80 } else { 0 };
    let n: u8 = if v & 0x40 != 0 { 0x40 } else { 0 };
    let h: u8 = if v & 0x20 != 0 { 0x20 } else { 0 };
    let c: u8 = if v & 0x10 != 0 { 0x10 } else { 0 };
    assert(z + n + h + c == v & 0xF0) by (bit_vector)
        requires
            z == if v & 0x80 != 0 { 0x80u8 } else { 0 },
            n == if v & 0x40 != 0 { 0x40u8 } else { 0 },
            h == if v & 0x20 != 0 { 0x20u8 } else { 0 },
            c == if v & 0x10 != 0 { 0x10u8 } else { 0 },
    ;
}

/// Loading AF with `v` and reading it back gives `v` with the low nibble of F cleared.
pub proof fn lemma_af_load(s: Cpu, v: u16)
    ensures
        s.with_wide(WideRegister::AF, v).wide(WideRegister::AF) == v & 0xFFF0,
{
    let lo = (v % 256) as u8;
    lemma_flags_byte_masks(lo);
    assert((v / 256) * 256 + ((v % 256) as u8 & 0xF0) as u16 == v & 0xFFF0) by (bit_vector);
}

/// Binary-coded decimal of `n` in 0..=99.
pub open spec fn bcd(n: int) -> int {
    (n / 10) * 16 + n % 10
}

/// The value of a two-digit BCD byte.
pub open spec fn from_bcd(x: u8) -> int {
    (x / 16) * 10 + x % 16
}

pub open spec fn is_bcd(x: u8) -> bool {
    x / 16 <= 9 && x % 16 <= 9
}

/// ADD then DAA on two BCD values leaves their decimal sum modulo 100 in A
/// and the decimal overflow in the carry.
#[verifier::spinoff_prover]
#[verifier::rlimit(100)]
pub proof fn lemma_daa_bcd_add(x: u8, y: u8)
    requires
        is_bcd(x),
        is_bcd(y),
    ensures
        ({
            let s = add8(x, y, false);
            let h = add8_half(x, y, false);
            let c = add8_carry(x, y, false);
            &&& daa8(s, false, h, c) as int == bcd((from_bcd(x) + from_bcd(y)) % 100)
            &&& daa_carry(s, false, h, c) == (from_bcd(x) + from_bcd(y) >= 100)
        }),
{
    let x1 = (x / 16) as int;
    let x0 = (x % 16) as int;
    let y1 = (y / 16) as int;
    let y0 = (y % 16) as int;
    lemma_fundamental_div_mod(x as int, 16);
    lemma_fundamental_div_mod(y as int, 16);
    let t = x1 + y1;
    let u = x0 + y0;
    let raw = x + y;
    let sum = from_bcd(x) + from_bcd(y);
    assert(raw == 16 * t + u);
    assert(sum == 10 * t + u);
    let s = add8(x, y, false);
    let c = add8_carry(x, y, false);
    let h = add8_half(x, y, false);
    assert(c == (raw > 255));
    assert(h == (u > 15));
    // the low digit that the sum shows, and the value DAA leaves
    let (hi, lo, dec) = if u <= 9 {
        (t, u, false)
    } else {
        (t + 1, u - 10, true)
    };
    assert(sum == 10 * hi + lo);
    if raw >= 256 {
        lemma_fundamental_div_mod_converse(raw, 256, 1, raw - 256);
        assert(s == raw - 256);
    } else {
        lemma_fundamental_div_mod_converse(raw, 256, 0, raw);
        assert(s == raw);
    }
    if u <= 15 {
        lemma_fundamental_div_mod_converse(s as int, 16, (s - u) / 16, u);
    } else {
        lemma_fundamental_div_mod_converse(s as int, 16, (s - (u - 16)) / 16, u - 16);
    }
    assert((h || s % 16 > 9) == dec);
    assert((c || s > 0x99) == (hi >= 10));
    if hi >= 10 {
        lemma_fundamental_div_mod_converse(sum, 100, 1, sum - 100);
        lemma_fundamental_div_mod_converse(sum - 100, 10, hi - 10, lo);
        let adjusted = s + 0x60 + if dec { 6int } else { 0 };
        assert(adjusted == 256 + 16 * (hi - 10) + lo || adjusted == 16 * (hi - 10) + lo);
        if adjusted >= 256 {
            lemma_fundamental_div_mod_converse(adjusted, 256, 1, 16 * (hi - 10) + lo);
        } else {
            lemma_fundamental_div_mod_converse(adjusted, 256, 0, 16 * (hi - 10) + lo);
        }
    } else {
        lemma_fundamental_div_mod_converse(sum, 100, 0, sum);
        lemma_fundamental_div_mod_converse(sum, 10, hi, lo);
        let adjusted = s + if dec { 6int } else { 0 };
        assert(adjusted == 16 * hi + lo);
        lemma_fundamental_div_mod_converse(adjusted, 256, 0, 16 * hi + lo);
    }
}

impl Cpu {
    pub open spec fn f_spec(self) -> u8 {
        flags_byte(self.zf, self.nf, self.hf, self.cf)
    }

    pub open spec fn flag_spec(self, flag: Flag) -> bool {
        match flag {
            Flag::Zero => self.zf,
            Flag::Negative => self.nf,
            Flag::HalfCarry => self.hf,
            Flag::Carry => self.cf,
        }
    }

    pub open spec fn reg(self, reg: Register) -> u8 {
        match reg {
            Register::A => self.a,
            Register::F => self.f_spec(),
            Register::B => self.b,
            Register::C => self.c,
            Register::D => self.d,
            Register::E => self.e,
            Register::H => self.h,
            Register::L => self.l,
        }
    }

    pub open spec fn wide(self, reg: WideRegister) -> u16 {
        match reg {
            WideRegister::PC => self.pc,
            WideRegister::SP => self.sp,
            WideRegister::AF => (self.a as int * 256 + self.f_spec() as int) as u16,
            WideRegister::BC => (self.b as int * 256 + self.c as int) as u16,
            WideRegister::DE => (self.d as int * 256 + self.e as int) as u16,
            WideRegister::HL => (self.h as int * 256 + self.l as int) as u16,
        }
    }

    pub open spec fn hl(self) -> u16 {
        self.wide(WideRegister::HL)
    }

    /// The state with the flags replaced.
    pub open spec fn with_flags(self, z: bool, n: bool, h: bool, c: bool) -> Cpu {
        Cpu { zf: z, nf: n, hf: h, cf: c, ..self }
    }

    /// The state with one 8-bit register replaced; a write to F keeps its high nibble.
    pub open spec fn with_reg(self, reg: Register, v: u8) -> Cpu {
        match reg {
            Register::A => Cpu { a: v, ..self },
            Register::F => self.with_flags(zero_bit(v), negative_bit(v), half_bit(v), carry_bit(v)),
            Register::B => Cpu { b: v, ..self },
            Register::C => Cpu { c: v, ..self },
            Register::D => Cpu { d: v, ..self },
            Register::E => Cpu { e: v, ..self },
            Register::H => Cpu { h: v, ..self },
            Register::L => Cpu { l: v, ..self },
        }
    }

    /// The state with one 16-bit register replaced (high byte first in each pair).
    pub open spec fn with_wide(self, reg: WideRegister, v: u16) -> Cpu {
        let hi = (v / 256) as u8;
        let lo = (v % 256) as u8;
        match reg {
            WideRegister::PC => Cpu { pc: v, ..self },
            WideRegister::SP => Cpu { sp: v, ..self },
            WideRegister::AF => Cpu { a: hi, ..self }.with_reg(Register::F, lo),
            WideRegister::BC => Cpu { b: hi, c: lo, ..self },
            WideRegister::DE => Cpu { d: hi, e: lo, ..self },
            WideRegister::HL => Cpu { h: hi, l: lo, ..self },
        }
    }

    pub open spec fn condition_holds(self, condition: Condition) -> bool {
        match condition {
            Condition::Zero => self.zf,
            Condition::NotZero => !self.zf,
            Condition::Carry => self.cf,
            Condition::NotCarry => !self.cf,
        }
    }

    /// The state after power-on.
    pub open spec fn initial() -> Cpu {
        Cpu {
            pc: 0,
            sp: 0,
            a: 0,
            b: 0,
            c: 0,
            d: 0,
            e: 0,
            h: 0,
            l: 0,
            zf: false,
            nf: false,
            hf: false,
            cf: false,
            ime: false,
            ei_pending: false,
            halted: false,
            stopped: false,
        }
    }

    pub fn new() -> (r: Self)
        ensures
            r == Cpu::initial(),
    {
        Cpu {
            pc: 0,
            sp: 0,
            a: 0,
            b: 0,
            c: 0,
            d: 0,
            e: 0,
            h: 0,
            l: 0,
            zf: false,
            nf: false,
            hf: false,
            cf: false,
            ime: false,
            ei_pending: false,
            halted: false,
            stopped: false,
        }
    }

    /// Puts the processor back in its power-on control state: PC at 0,
    /// interrupts disabled, not halted or stopped.
    pub fn reset(&mut self)
        ensures
            *final(self) == (Cpu {
                pc: 0,
                ime: false,
                ei_pending: false,
                halted: false,
                stopped: false,
                ..*old(self)
            }),
    {
        self.pc = 0;
        self.ime = false;
        self.ei_pending = false;
        self.halted = false;
        self.stopped = false;
    }

    pub fn flag(&self, flag: Flag) -> (r: bool)
        ensures
            r == self.flag_spec(flag),
    {
        match flag {
            Flag::Zero => self.zf,
            Flag::Negative => self.nf,
            Flag::HalfCarry => self.hf,
            Flag::Carry => self.cf,
        }
    }

    pub fn set_flag(&mut self, flag: Flag, value: bool)
        ensures
            *final(self) == match flag {
                Flag::Zero => Cpu { zf: value, ..*old(self) },
                Flag::Negative => Cpu { nf: value, ..*old(self) },
                Flag::HalfCarry => Cpu { hf: value, ..*old(self) },
                Flag::Carry => Cpu { cf: value, ..*old(self) },
            },
    {
        match flag {
            Flag::Zero => self.zf = value,
            Flag::Negative => self.nf = value,
            Flag::HalfCarry => self.hf = value,
            Flag::Carry => self.cf = value,
        }
    }

    fn set_flags(&mut self, z: bool, n: bool, h: bool, c: bool)
        ensures
            *final(self) == old(self).with_flags(z, n, h, c),
    {
        self.zf = z;
        self.nf = n;
        self.hf = h;
        self.cf = c;
    }

    fn f_byte(&self) -> (r: u8)
        ensures
            r == self.f_spec(),
    {
        let mut f: u8 = 0;
        if self.zf {
            f = f + 0x80;
        }
        if self.nf {
            f = f + 0x40;
        }
        if self.hf {
            f = f + 0x20;
        }
        if self.cf {
            f = f + 0x10;
        }
        f
    }

    pub fn register(&self, reg: Register) -> (r: u8)
        ensures
            r == self.reg(reg),
    {
        match reg {
            Register::A => self.a,
            Register::F => self.f_byte(),
            Register::B => self.b,
            Register::C => self.c,
            Register::D => self.d,
            Register::E => self.e,
            Register::H => self.h,
            Register::L => self.l,
        }
    }

    pub fn set_register(&mut self, reg: Register, value: u8)
        ensures
            *final(self) == old(self).with_reg(reg, value),
    {
        match reg {
            Register::A => self.a = value,
            Register::F => {
                self.zf = value & 0x80 != 0;
                self.nf = value & 0x40 != 0;
                self.hf = value & 0x20 != 0;
                self.cf = value & 0x10 != 0;
            },
            Register::B => self.b = value,
            Register::C => self.c = value,
            Register::D => self.d = value,
            Register::E => self.e = value,
            Register::H => self.h = value,
            Register::L => self.l = value,
        }
    }

    pub fn wide_register(&self, reg: WideRegister) -> (r: u16)
        ensures
            r == self.wide(reg),
    {
        match reg {
            WideRegister::PC => self.pc,
            WideRegister::SP => self.sp,
            WideRegister::AF => self.a as u16 * 256 + self.f_byte() as u16,
            WideRegister::BC => self.b as u16 * 256 + self.c as u16,
            WideRegister::DE => self.d as u16 * 256 + self.e as u16,
            WideRegister::HL => self.h as u16 * 256 + self.l as u16,
        }
    }

    pub fn set_wide_register(&mut self, reg: WideRegister, value: u16)
        ensures
            *final(self) == old(self).with_wide(reg, value),
    {
        let hi = (value / 256) as u8;
        let lo = (value % 256) as u8;
        match reg {
            WideRegister::PC => self.pc = value,
            WideRegister::SP => self.sp = value,
            WideRegister::AF => {
                self.a = hi;
                self.set_register(Register::F, lo);
            },
            WideRegister::BC => {
                self.b = hi;
                self.c = lo;
            },
            WideRegister::DE => {
                self.d = hi;
                self.e = lo;
            },
            WideRegister::HL => {
                self.h = hi;
                self.l = lo;
            },
        }
    }


    pub open spec fn with_a(self, v: u8) -> Cpu {
        Cpu { a: v, ..self }
    }

    fn nop(&mut self) -> (r: usize)
        ensures
            r == 4,
            *final(self) == *old(self),
    {
        4
    }

    fn copy(&mut self, dest: Register, src: Register) -> (r: usize)
        ensures
            r == 4,
            *final(self) == old(self).with_reg(dest, old(self).reg(src)),
    {
        let value = self.register(src);
        self.set_register(dest, value);
        4
    }

    fn copy_wide(&mut self, dest: WideRegister, src: WideRegister) -> (r: usize)
        ensures
            r == 8,
            *final(self) == old(self).with_wide(dest, old(self).wide(src)),
    {
        let value = self.wide_register(src);
        self.set_wide_register(dest, value);
        8
    }

    fn inc_wide(&mut self, reg: WideRegister) -> (r: usize)
        ensures
            r == 8,
            *final(self) == old(self).with_wide(reg, off16(old(self).wide(reg), 1)),
    {
        let value = self.wide_register(reg).wrapping_add(1);
        self.set_wide_register(reg, value);
        8
    }

    fn dec_wide(&mut self, reg: WideRegister) -> (r: usize)
        ensures
            r == 8,
            *final(self) == old(self).with_wide(reg, off16(old(self).wide(reg), -1)),
    {
        let value = self.wide_register(reg).wrapping_sub(1);
        self.set_wide_register(reg, value);
        8
    }

    fn inc_value(&mut self, value: u8) -> (r: u8)
        ensures
            r == add8(value, 1, false),
            *final(self) == old(self).with_flags(r == 0, false, value % 16 == 15, old(self).cf),
    {
        let result = if value == 255 { 0 } else { value + 1 };
        let half = value % 16 == 15;
        self.set_flags(result == 0, false, half, self.cf);
        result
    }

    fn dec_value(&mut self, value: u8) -> (r: u8)
        ensures
            r == sub8(value, 1, false),
            *final(self) == old(self).with_flags(r == 0, true, value % 16 == 0, old(self).cf),
    {
        let result = if value == 0 { 255 } else { value - 1 };
        let half = value % 16 == 0;
        self.set_flags(result == 0, true, half, self.cf);
        result
    }

    fn inc(&mut self, reg: Register) -> (r: usize)
        ensures
            r == 4,
            *final(self) == old(self).with_reg(reg, add8(old(self).reg(reg), 1, false)).with_flags(
                add8(old(self).reg(reg), 1, false) == 0,
                false,
                old(self).reg(reg) % 16 == 15,
                old(self).with_reg(reg, add8(old(self).reg(reg), 1, false)).cf,
            ),
    {
        let value = self.register(reg);
        let result = if value == 255 { 0 } else { value + 1 };
        self.set_register(reg, result);
        let half = value % 16 == 15;
        self.set_flags(result == 0, false, half, self.cf);
        4
    }

    fn dec(&mut self, reg: Register) -> (r: usize)
        ensures
            r == 4,
            *final(self) == old(self).with_reg(reg, sub8(old(self).reg(reg), 1, false)).with_flags(
                sub8(old(self).reg(reg), 1, false) == 0,
                true,
                old(self).reg(reg) % 16 == 0,
                old(self).with_reg(reg, sub8(old(self).reg(reg), 1, false)).cf,
            ),
    {
        let value = self.register(reg);
        let result = if value == 0 { 255 } else { value - 1 };
        self.set_register(reg, result);
        let half = value % 16 == 0;
        self.set_flags(result == 0, true, half, self.cf);
        4
    }

    fn rlc_value(&mut self, value: u8) -> (r: u8)
        ensures
            r == rlc8(value),
            *final(self) == old(self).with_flags(r == 0, false, false, value >= 128),
    {
        let result = (value % 128) * 2 + value / 128;
        self.set_flags(result == 0, false, false, value >= 128);
        result
    }

    fn rl_value(&mut self, value: u8) -> (r: u8)
        ensures
            r == rl8(value, old(self).cf),
            *final(self) == old(self).with_flags(r == 0, false, false, value >= 128),
    {
        let carry_in: u8 = if self.cf { 1 } else { 0 };
        let result = (value % 128) * 2 + carry_in;
        self.set_flags(result == 0, false, false, value >= 128);
        result
    }

    fn rrc_value(&mut self, value: u8) -> (r: u8)
        ensures
            r == rrc8(value),
            *final(self) == old(self).with_flags(r == 0, false, false, value % 2 == 1),
    {
        let result = value / 2 + (value % 2) * 128;
        self.set_flags(result == 0, false, false, value % 2 == 1);
        result
    }

    fn rr_value(&mut self, value: u8) -> (r: u8)
        ensures
            r == rr8(value, old(self).cf),
            *final(self) == old(self).with_flags(r == 0, false, false, value % 2 == 1),
    {
        let carry_in: u8 = if self.cf { 128 } else { 0 };
        let result = value / 2 + carry_in;
        self.set_flags(result == 0, false, false, value % 2 == 1);
        result
    }

    fn sla_value(&mut self, value: u8) -> (r: u8)
        ensures
            r == sla8(value),
            *final(self) == old(self).with_flags(r == 0, false, false, value >= 128),
    {
        let result = (value % 128) * 2;
        self.set_flags(result == 0, false, false, value >= 128);
        result
    }

    fn sra_value(&mut self, value: u8) -> (r: u8)
        ensures
            r == sra8(value),
            *final(self) == old(self).with_flags(r == 0, false, false, value % 2 == 1),
    {
        let result = value / 2 + (value / 128) * 128;
        self.set_flags(result == 0, false, false, value % 2 == 1);
        result
    }

    fn srl_value(&mut self, value: u8) -> (r: u8)
        ensures
            r == srl8(value),
            *final(self) == old(self).with_flags(r == 0, false, false, value % 2 == 1),
    {
        let result = value / 2;
        self.set_flags(result == 0, false, false, value % 2 == 1);
        result
    }

    fn swap_value(&mut self, value: u8) -> (r: u8)
        ensures
            r == swap8(value),
            *final(self) == old(self).with_flags(r == 0, false, false, false),
    {
        let result = (value % 16) * 16 + value / 16;
        self.set_flags(result == 0, false, false, false);
        result
    }

    fn bit_value(&mut self, bit: u8, value: u8)
        requires
            bit < 8,
        ensures
            *final(self) == old(self).with_flags(!bit_set(value, bit), false, true, old(self).cf),
    {
        let z = (value >> bit) & 1 != 1;
        self.set_flags(z, false, true, self.cf);
    }

    fn reset_bit_value(&mut self, bit: u8, value: u8) -> (r: u8)
        requires
            bit < 8,
        ensures
            r == value & !(1u8 << bit),
            *final(self) == *old(self),
    {
        value & !(1u8 << bit)
    }

    fn set_bit_value(&mut self, bit: u8, value: u8) -> (r: u8)
        requires
            bit < 8,
        ensures
            r == value | (1u8 << bit),
            *final(self) == *old(self),
    {
        value | (1u8 << bit)
    }

    /// A <- A + value + carry-in, with the flags of the addition.
    pub fn add_value(&mut self, value: u8, carry: bool)
        ensures
            *final(self) == old(self).with_a(add8(old(self).a, value, carry)).with_flags(
                add8(old(self).a, value, carry) == 0,
                false,
                add8_half(old(self).a, value, carry),
                add8_carry(old(self).a, value, carry),
            ),
    {
        let a = self.a;
        let ci: u16 = if carry { 1 } else { 0 };
        let sum: u16 = a as u16 + value as u16 + ci;
        let result = (sum % 256) as u8;
        let half = (a % 16) as u16 + (value % 16) as u16 + ci > 15;
        self.a = result;
        self.set_flags(result == 0, false, half, sum > 255);
    }

    /// A <- A - value - borrow-in, with the flags of the subtraction.
    pub fn sub_value(&mut self, value: u8, carry: bool)
        ensures
            *final(self) == old(self).with_a(sub8(old(self).a, value, carry)).with_flags(
                sub8(old(self).a, value, carry) == 0,
                true,
                sub8_half(old(self).a, value, carry),
                sub8_carry(old(self).a, value, carry),
            ),
    {
        let a = self.a;
        let ci: u16 = if carry { 1 } else { 0 };
        let diff: u16 = (a as u16 + 256) - value as u16 - ci;
        let result = (diff % 256) as u8;
        let half = ((a % 16) as u16) < (value % 16) as u16 + ci;
        let borrow = (a as u16) < value as u16 + ci;
        self.a = result;
        self.set_flags(result == 0, true, half, borrow);
    }

    /// The flags of A - value; A is kept.
    pub fn compare_value(&mut self, value: u8)
        ensures
            *final(self) == old(self).with_flags(
                sub8(old(self).a, value, false) == 0,
                true,
                sub8_half(old(self).a, value, false),
                sub8_carry(old(self).a, value, false),
            ),
    {
        let a = self.a;
        let diff: u16 = (a as u16 + 256) - value as u16;
        let result = (diff % 256) as u8;
        let half = a % 16 < value % 16;
        self.set_flags(result == 0, true, half, a < value);
    }

    pub fn and_value(&mut self, value: u8)
        ensures
            *final(self) == old(self).with_a(old(self).a & value).with_flags(
                old(self).a & value == 0,
                false,
                true,
                false,
            ),
    {
        let result = self.a & value;
        self.a = result;
        self.set_flags(result == 0, false, true, false);
    }

    fn xor_value(&mut self, value: u8)
        ensures
            *final(self) == old(self).with_a(old(self).a ^ value).with_flags(
                old(self).a ^ value == 0,
                false,
                false,
                false,
            ),
    {
        let result = self.a ^ value;
        self.a = result;
        self.set_flags(result == 0, false, false, false);
    }

    fn or_value(&mut self, value: u8)
        ensures
            *final(self) == old(self).with_a(old(self).a | value).with_flags(
                old(self).a | value == 0,
                false,
                false,
                false,
            ),
    {
        let result = self.a | value;
        self.a = result;
        self.set_flags(result == 0, false, false, false);
    }

    pub fn daa(&mut self) -> (r: usize)
        ensures
            r == 4,
            *final(self) == old(self).with_a(
                daa8(old(self).a, old(self).nf, old(self).hf, old(self).cf),
            ).with_flags(
                daa8(old(self).a, old(self).nf, old(self).hf, old(self).cf) == 0,
                old(self).nf,
                false,
                daa_carry(old(self).a, old(self).nf, old(self).hf, old(self).cf),
            ),
    {
        let value = self.a;
        let mut result = value;
        let mut carry = self.cf;
        if self.nf {
            if self.hf {
                result = result.wrapping_sub(0x06);
            }
            if self.cf {
                result = result.wrapping_sub(0x60);
            }
        } else {
            if value % 16 > 9 || self.hf {
                result = result.wrapping_add(0x06);
            }
            if value > 0x99 || self.cf {
                result = result.wrapping_add(0x60);
                carry = true;
            }
        }
        self.a = result;
        self.set_flags(result == 0, self.nf, false, carry);
        4
    }

    fn scf(&mut self) -> (r: usize)
        ensures
            r == 4,
            *final(self) == old(self).with_flags(old(self).zf, false, false, true),
    {
        self.set_flags(self.zf, false, false, true);
        4
    }

    fn ccf(&mut self) -> (r: usize)
        ensures
            r == 4,
            *final(self) == old(self).with_flags(old(self).zf, false, false, !old(self).cf),
    {
        self.set_flags(self.zf, false, false, !self.cf);
        4
    }

    fn cpl(&mut self) -> (r: usize)
        ensures
            r == 4,
            *final(self) == old(self).with_a(!old(self).a).with_flags(
                old(self).zf,
                true,
                true,
                old(self).cf,
            ),
    {
        self.a = !self.a;
        self.set_flags(self.zf, true, true, self.cf);
        4
    }

    fn halt(&mut self) -> (r: usize)
        ensures
            r == 4,
            *final(self) == (Cpu { halted: true, ..*old(self) }),
    {
        self.halted = true;
        4
    }

    fn di(&mut self) -> (r: usize)
        ensures
            r == 4,
            *final(self) == (Cpu { ime: false, ei_pending: false, ..*old(self) }),
    {
        self.ime = false;
        self.ei_pending = false;
        4
    }

    /// Interrupts become enabled once the next instruction has completed.
    fn ei(&mut self) -> (r: usize)
        ensures
            r == 4,
            *final(self) == (Cpu { ei_pending: true, ..*old(self) }),
    {
        self.ei_pending = true;
        4
    }

    fn jmp_hl(&mut self) -> (r: usize)
        ensures
            r == 4,
            *final(self) == (Cpu { pc: old(self).hl(), ..*old(self) }),
    {
        self.pc = self.wide_register(WideRegister::HL);
        4
    }

    fn add_wide(&mut self, reg: WideRegister) -> (r: usize)
        ensures
            r == 8,
            *final(self) == old(self).with_wide(
                WideRegister::HL,
                off16(old(self).hl(), old(self).wide(reg) as int),
            ).with_flags(
                old(self).zf,
                false,
                old(self).hl() % 4096 + old(self).wide(reg) % 4096 > 4095,
                old(self).hl() + old(self).wide(reg) > 65535,
            ),
    {
        let hl = self.wide_register(WideRegister::HL);
        let rhs = self.wide_register(reg);
        let sum: u32 = hl as u32 + rhs as u32;
        let result = (sum % 65536) as u16;
        let half = (hl % 4096) as u32 + (rhs % 4096) as u32 > 4095;
        self.set_wide_register(WideRegister::HL, result);
        self.set_flags(self.zf, false, half, sum > 65535);
        8
    }


    /// The state with PC moved forward by `n` bytes.
    pub open spec fn advanced(self, n: int) -> Cpu {
        Cpu { pc: off16(self.pc, n), ..self }
    }

    fn fetch<B: Bus>(&mut self, bus: &mut B) -> (r: u8)
        ensures
            r == old(bus).peek(old(self).pc),
            *final(bus) == *old(bus),
            *final(self) == old(self).advanced(1),
    {
        let value = bus.read(self.pc);
        self.pc = self.pc.wrapping_add(1);
        value
    }

    fn fetch_wide<B: Bus>(&mut self, bus: &mut B) -> (r: u16)
        ensures
            r == peek16(*old(bus), old(self).pc),
            *final(bus) == *old(bus),
            *final(self) == old(self).advanced(2),
    {
        let lo = self.fetch(bus);
        let hi = self.fetch(bus);
        lo as u16 + hi as u16 * 256
    }

    fn load_wide_immediate<B: Bus>(&mut self, bus: &mut B, reg: WideRegister) -> (r: usize)
        ensures
            r == 12,
            *final(bus) == *old(bus),
            *final(self) == old(self).advanced(2).with_wide(reg, peek16(*old(bus), old(self).pc)),
    {
        let value = self.fetch_wide(bus);
        self.set_wide_register(reg, value);
        12
    }

    fn load_immediate<B: Bus>(&mut self, bus: &mut B, reg: Register) -> (r: usize)
        ensures
            r == 8,
            *final(bus) == *old(bus),
            *final(self) == old(self).advanced(1).with_reg(reg, old(bus).peek(old(self).pc)),
    {
        let value = self.fetch(bus);
        self.set_register(reg, value);
        8
    }

    fn store_register_indirect<B: Bus>(&self, bus: &mut B, addr: WideRegister, reg: Register) -> (r: usize)
        ensures
            r == 8,
            *final(bus) == old(bus).poke(self.wide(addr), self.reg(reg)),
    {
        let a = self.wide_register(addr);
        let v = self.register(reg);
        bus.write(a, v);
        8
    }

    fn load_register_indirect<B: Bus>(&mut self, bus: &mut B, addr: WideRegister, reg: Register) -> (r: usize)
        ensures
            r == 8,
            *final(bus) == *old(bus),
            *final(self) == old(self).with_reg(reg, old(bus).peek(old(self).wide(addr))),
    {
        let value = bus.read(self.wide_register(addr));
        self.set_register(reg, value);
        8
    }

    fn inc_hl_indirect<B: Bus>(&mut self, bus: &mut B) -> (r: usize)
        ensures
            r == 12,
            ({
                let v = old(bus).peek(old(self).hl());
                &&& *final(bus) == old(bus).poke(old(self).hl(), add8(v, 1, false))
                &&& *final(self) == old(self).with_flags(add8(v, 1, false) == 0, false, v % 16 == 15, old(self).cf)
            }),
    {
        let addr = self.wide_register(WideRegister::HL);
        let value = bus.read(addr);
        let result = self.inc_value(value);
        bus.write(addr, result);
        12
    }

    fn dec_hl_indirect<B: Bus>(&mut self, bus: &mut B) -> (r: usize)
        ensures
            r == 12,
            ({
                let v = old(bus).peek(old(self).hl());
                &&& *final(bus) == old(bus).poke(old(self).hl(), sub8(v, 1, false))
                &&& *final(self) == old(self).with_flags(sub8(v, 1, false) == 0, true, v % 16 == 0, old(self).cf)
            }),
    {
        let addr = self.wide_register(WideRegister::HL);
        let value = bus.read(addr);
        let result = self.dec_value(value);
        bus.write(addr, result);
        12
    }

    fn write_wide<B: Bus>(&self, bus: &mut B, addr: u16, value: u16)
        ensures
            *final(bus) == old(bus).poke(addr, (value % 256) as u8).poke(off16(addr, 1), (value / 256) as u8),
    {
        bus.write(addr, (value % 256) as u8);
        bus.write(addr.wrapping_add(1), (value / 256) as u8);
    }

    fn write_stack_immediate<B: Bus>(&mut self, bus: &mut B) -> (r: usize)
        ensures
            r == 20,
            *final(self) == old(self).advanced(2),
            ({
                let addr = peek16(*old(bus), old(self).pc);
                *final(bus) == old(bus).poke(addr, (old(self).sp % 256) as u8).poke(off16(addr, 1), (old(self).sp / 256) as u8)
            }),
    {
        let addr = self.fetch_wide(bus);
        self.write_wide(bus, addr, self.sp);
        20
    }

    fn stop<B: Bus>(&mut self, bus: &mut B) -> (r: usize)
        ensures
            r == 4,
            *final(bus) == *old(bus),
            *final(self) == (Cpu { stopped: true, ..old(self).advanced(1) }),
    {
        self.stopped = true;
        self.fetch(bus);
        4
    }

    fn jr<B: Bus>(&mut self, bus: &mut B) -> (r: usize)
        ensures
            r == 12,
            *final(bus) == *old(bus),
            *final(self) == old(self).advanced(1 + signed8(old(bus).peek(old(self).pc))),
    {
        let offset = self.fetch(bus);
        if offset < 128 {
            self.pc = self.pc.wrapping_add(offset as u16);
        } else {
            self.pc = self.pc.wrapping_sub(256 - offset as u16);
        }
        12
    }

    fn jr_condition<B: Bus>(&mut self, bus: &mut B, condition: Condition) -> (r: usize)
        ensures
            r == if old(self).condition_holds(condition) { 12usize } else { 8 },
            *final(bus) == *old(bus),
            *final(self) == if old(self).condition_holds(condition) {
                old(self).advanced(1 + signed8(old(bus).peek(old(self).pc)))
            } else {
                old(self).advanced(1)
            },
    {
        if self.condition(condition) {
            self.jr(bus)
        } else {
            self.fetch(bus);
            8
        }
    }

    fn pop_value<B: Bus>(&mut self, bus: &mut B) -> (r: u16)
        ensures
            r == peek16(*old(bus), old(self).sp),
            *final(bus) == *old(bus),
            *final(self) == (Cpu { sp: off16(old(self).sp, 2), ..*old(self) }),
    {
        let lo = bus.read(self.sp);
        self.sp = self.sp.wrapping_add(1);
        let hi = bus.read(self.sp);
        self.sp = self.sp.wrapping_add(1);
        lo as u16 + hi as u16 * 256
    }

    fn push_value<B: Bus>(&mut self, bus: &mut B, value: u16)
        ensures
            *final(bus) == pushed(*old(bus), old(self).sp, value),
            *final(self) == (Cpu { sp: off16(old(self).sp, -2), ..*old(self) }),
    {
        self.sp = self.sp.wrapping_sub(1);
        bus.write(self.sp, (value / 256) as u8);
        self.sp = self.sp.wrapping_sub(1);
        bus.write(self.sp, (value % 256) as u8);
    }

    pub fn pop<B: Bus>(&mut self, bus: &mut B, reg: WideRegister) -> (r: usize)
        ensures
            r == 12,
            *final(bus) == *old(bus),
            *final(self) == (Cpu { sp: off16(old(self).sp, 2), ..*old(self) }).with_wide(
                reg,
                peek16(*old(bus), old(self).sp),
            ),
    {
        let value = self.pop_value(bus);
        self.set_wide_register(reg, value);
        12
    }

    pub fn push<B: Bus>(&mut self, bus: &mut B, reg: WideRegister) -> (r: usize)
        ensures
            r == 16,
            *final(bus) == pushed(*old(bus), old(self).sp, old(self).wide(reg)),
            *final(self) == (Cpu { sp: off16(old(self).sp, -2), ..*old(self) }),
    {
        let value = self.wide_register(reg);
        self.push_value(bus, value);
        16
    }

    fn ret<B: Bus>(&mut self, bus: &mut B) -> (r: usize)
        ensures
            r == 16,
            *final(bus) == *old(bus),
            *final(self) == (Cpu {
                pc: peek16(*old(bus), old(self).sp),
                sp: off16(old(self).sp, 2),
                ..*old(self)
            }),
    {
        self.pc = self.pop_value(bus);
        16
    }

    fn ret_condition<B: Bus>(&mut self, bus: &mut B, condition: Condition) -> (r: usize)
        ensures
            r == if old(self).condition_holds(condition) { 20usize } else { 8 },
            *final(bus) == *old(bus),
            *final(self) == if old(self).condition_holds(condition) {
                Cpu { pc: peek16(*old(bus), old(self).sp), sp: off16(old(self).sp, 2), ..*old(self) }
            } else {
                *old(self)
            },
    {
        if self.condition(condition) {
            4 + self.ret(bus)
        } else {
            8
        }
    }

    fn reti<B: Bus>(&mut self, bus: &mut B) -> (r: usize)
        ensures
            r == 16,
            *final(bus) == *old(bus),
            *final(self) == (Cpu {
                pc: peek16(*old(bus), old(self).sp),
                sp: off16(old(self).sp, 2),
                ime: true,
                ..*old(self)
            }),
    {
        self.ime = true;
        self.ret(bus)
    }

    fn jmp<B: Bus>(&mut self, bus: &mut B) -> (r: usize)
        ensures
            r == 16,
            *final(bus) == *old(bus),
            *final(self) == (Cpu { pc: peek16(*old(bus), old(self).pc), ..*old(self) }),
    {
        self.pc = self.fetch_wide(bus);
        16
    }

    fn jmp_condition<B: Bus>(&mut self, bus: &mut B, condition: Condition) -> (r: usize)
        ensures
            r == if old(self).condition_holds(condition) { 16usize } else { 12 },
            *final(bus) == *old(bus),
            *final(self) == if old(self).condition_holds(condition) {
                Cpu { pc: peek16(*old(bus), old(self).pc), ..*old(self) }
            } else {
                old(self).advanced(2)
            },
    {
        if self.condition(condition) {
            self.jmp(bus)
        } else {
            self.fetch_wide(bus);
            12
        }
    }

    fn call<B: Bus>(&mut self, bus: &mut B) -> (r: usize)
        ensures
            r == 24,
            *final(bus) == pushed(*old(bus), old(self).sp, off16(old(self).pc, 2)),
            *final(self) == (Cpu {
                pc: peek16(*old(bus), old(self).pc),
                sp: off16(old(self).sp, -2),
                ..*old(self)
            }),
    {
        let addr = self.fetch_wide(bus);
        self.push(bus, WideRegister::PC);
        self.pc = addr;
        24
    }

    fn call_condition<B: Bus>(&mut self, bus: &mut B, condition: Condition) -> (r: usize)
        ensures
            r == if old(self).condition_holds(condition) { 24usize } else { 12 },
            *final(bus) == if old(self).condition_holds(condition) {
                pushed(*old(bus), old(self).sp, off16(old(self).pc, 2))
            } else {
                *old(bus)
            },
            *final(self) == if old(self).condition_holds(condition) {
                Cpu { pc: peek16(*old(bus), old(self).pc), sp: off16(old(self).sp, -2), ..*old(self) }
            } else {
                old(self).advanced(2)
            },
    {
        if self.condition(condition) {
            self.call(bus)
        } else {
            self.fetch_wide(bus);
            12
        }
    }

    fn rst<B: Bus>(&mut self, bus: &mut B, addr: u16) -> (r: usize)
        ensures
            r == 16,
            *final(bus) == pushed(*old(bus), old(self).sp, old(self).pc),
            *final(self) == (Cpu { pc: addr, sp: off16(old(self).sp, -2), ..*old(self) }),
    {
        self.push(bus, WideRegister::PC);
        self.pc = addr;
        16
    }

    fn store_a_hli_indirect<B: Bus>(&mut self, bus: &mut B) -> (r: usize)
        ensures
            r == 8,
            *final(bus) == old(bus).poke(old(self).hl(), old(self).a),
            *final(self) == old(self).with_wide(WideRegister::HL, off16(old(self).hl(), 1)),
    {
        let addr = self.wide_register(WideRegister::HL);
        bus.write(addr, self.a);
        self.set_wide_register(WideRegister::HL, addr.wrapping_add(1));
        8
    }

    fn store_a_hld_indirect<B: Bus>(&mut self, bus: &mut B) -> (r: usize)
        ensures
            r == 8,
            *final(bus) == old(bus).poke(old(self).hl(), old(self).a),
            *final(self) == old(self).with_wide(WideRegister::HL, off16(old(self).hl(), -1)),
    {
        let addr = self.wide_register(WideRegister::HL);
        bus.write(addr, self.a);
        self.set_wide_register(WideRegister::HL, addr.wrapping_sub(1));
        8
    }

    fn load_a_hli_indirect<B: Bus>(&mut self, bus: &mut B) -> (r: usize)
        ensures
            r == 8,
            *final(bus) == *old(bus),
            *final(self) == old(self).with_a(old(bus).peek(old(self).hl())).with_wide(
                WideRegister::HL,
                off16(old(self).hl(), 1),
            ),
    {
        let addr = self.wide_register(WideRegister::HL);
        let value = bus.read(addr);
        self.a = value;
        self.set_wide_register(WideRegister::HL, addr.wrapping_add(1));
        8
    }

    fn load_a_hld_indirect<B: Bus>(&mut self, bus: &mut B) -> (r: usize)
        ensures
            r == 8,
            *final(bus) == *old(bus),
            *final(self) == old(self).with_a(old(bus).peek(old(self).hl())).with_wide(
                WideRegister::HL,
                off16(old(self).hl(), -1),
            ),
    {
        let addr = self.wide_register(WideRegister::HL);
        let value = bus.read(addr);
        self.a = value;
        self.set_wide_register(WideRegister::HL, addr.wrapping_sub(1));
        8
    }

    fn store_immediate_hl_indirect<B: Bus>(&mut self, bus: &mut B) -> (r: usize)
        ensures
            r == 12,
            *final(bus) == old(bus).poke(old(self).hl(), old(bus).peek(old(self).pc)),
            *final(self) == old(self).advanced(1),
    {
        let value = self.fetch(bus);
        bus.write(self.wide_register(WideRegister::HL), value);
        12
    }

    fn store_indirect<B: Bus>(&mut self, bus: &mut B) -> (r: usize)
        ensures
            r == 16,
            *final(bus) == old(bus).poke(peek16(*old(bus), old(self).pc), old(self).a),
            *final(self) == old(self).advanced(2),
    {
        let addr = self.fetch_wide(bus);
        bus.write(addr, self.a);
        16
    }

    fn load_indirect<B: Bus>(&mut self, bus: &mut B) -> (r: usize)
        ensures
            r == 16,
            *final(bus) == *old(bus),
            *final(self) == old(self).advanced(2).with_a(old(bus).peek(peek16(*old(bus), old(self).pc))),
    {
        let addr = self.fetch_wide(bus);
        let value = bus.read(addr);
        self.a = value;
        16
    }

    fn write_high_offset<B: Bus>(&mut self, bus: &mut B, offset: u8, value: u8)
        ensures
            *final(bus) == old(bus).poke((0xFF00 + offset) as u16, value),
            *final(self) == *old(self),
    {
        bus.write(0xFF00 + offset as u16, value);
    }

    fn read_high_indirect<B: Bus>(&mut self, bus: &mut B, offset: u8) -> (r: u8)
        ensures
            r == old(bus).peek((0xFF00 + offset) as u16),
            *final(bus) == *old(bus),
            *final(self) == *old(self),
    {
        bus.read(0xFF00 + offset as u16)
    }

    fn store_high_indirect<B: Bus>(&mut self, bus: &mut B) -> (r: usize)
        ensures
            r == 12,
            *final(bus) == old(bus).poke((0xFF00 + old(bus).peek(old(self).pc)) as u16, old(self).a),
            *final(self) == old(self).advanced(1),
    {
        let offset = self.fetch(bus);
        let value = self.a;
        self.write_high_offset(bus, offset, value);
        12
    }

    fn store_high_c_indirect<B: Bus>(&mut self, bus: &mut B) -> (r: usize)
        ensures
            r == 8,
            *final(bus) == old(bus).poke((0xFF00 + old(self).c) as u16, old(self).a),
            *final(self) == *old(self),
    {
        let offset = self.c;
        let value = self.a;
        self.write_high_offset(bus, offset, value);
        8
    }

    fn load_high_indirect<B: Bus>(&mut self, bus: &mut B) -> (r: usize)
        ensures
            r == 12,
            *final(bus) == *old(bus),
            *final(self) == old(self).advanced(1).with_a(
                old(bus).peek((0xFF00 + old(bus).peek(old(self).pc)) as u16),
            ),
    {
        let offset = self.fetch(bus);
        let value = self.read_high_indirect(bus, offset);
        self.a = value;
        12
    }

    fn load_high_c_indirect<B: Bus>(&mut self, bus: &mut B) -> (r: usize)
        ensures
            r == 8,
            *final(bus) == *old(bus),
            *final(self) == old(self).with_a(old(bus).peek((0xFF00 + old(self).c) as u16)),
    {
        let offset = self.c;
        let value = self.read_high_indirect(bus, offset);
        self.a = value;
        8
    }

    /// SP + e for a signed immediate e; the flags come from the unsigned
    /// addition of SP's low byte and e.
    fn sp_offset(&mut self, offset: u8) -> (r: u16)
        ensures
            r == off16(old(self).sp, signed8(offset)),
            *final(self) == old(self).with_flags(
                false,
                false,
                old(self).sp % 16 + offset % 16 > 15,
                old(self).sp % 256 + offset > 255,
            ),
    {
        let sp = self.sp;
        let result = if offset < 128 {
            sp.wrapping_add(offset as u16)
        } else {
            sp.wrapping_sub(256 - offset as u16)
        };
        let lo = (sp % 256) as u16;
        let half = (sp % 16) + (offset % 16) as u16 > 15;
        self.set_flags(false, false, half, lo + offset as u16 > 255);
        result
    }

    fn add_sp<B: Bus>(&mut self, bus: &mut B) -> (r: usize)
        ensures
            r == 16,
            *final(bus) == *old(bus),
            ({
                let e = old(bus).peek(old(self).pc);
                *final(self) == (Cpu { sp: off16(old(self).sp, signed8(e)), ..old(self).advanced(1) }).with_flags(
                    false,
                    false,
                    old(self).sp % 16 + e % 16 > 15,
                    old(self).sp % 256 + e > 255,
                )
            }),
    {
        let offset = self.fetch(bus);
        let result = self.sp_offset(offset);
        self.sp = result;
        16
    }

    fn load_sp_indirect<B: Bus>(&mut self, bus: &mut B) -> (r: usize)
        ensures
            r == 12,
            *final(bus) == *old(bus),
            ({
                let e = old(bus).peek(old(self).pc);
                *final(self) == old(self).advanced(1).with_wide(
                    WideRegister::HL,
                    off16(old(self).sp, signed8(e)),
                ).with_flags(
                    false,
                    false,
                    old(self).sp % 16 + e % 16 > 15,
                    old(self).sp % 256 + e > 255,
                )
            }),
    {
        let offset = self.fetch(bus);
        let result = self.sp_offset(offset);
        self.set_wide_register(WideRegister::HL, result);
        12
    }


    fn rlc(&mut self, reg: Register) -> (r: usize)
        ensures
            r == 8,
            ({
                let v = old(self).reg(reg);
                let x = shift_result(ShiftOp::Rlc, v, old(self).cf);
                *final(self) == old(self).with_flags(x == 0, false, false, shift_carry(ShiftOp::Rlc, v)).with_reg(reg, x)
            }),
    {
        let value = self.register(reg);
        let result = self.rlc_value(value);
        self.set_register(reg, result);
        8
    }

    fn rlc_hl_indirect<B: Bus>(&mut self, bus: &mut B) -> (r: usize)
        ensures
            r == 16,
            ({
                let v = old(bus).peek(old(self).hl());
                let x = shift_result(ShiftOp::Rlc, v, old(self).cf);
                &&& *final(bus) == old(bus).poke(old(self).hl(), x)
                &&& *final(self) == old(self).with_flags(x == 0, false, false, shift_carry(ShiftOp::Rlc, v))
            }),
    {
        let addr = self.wide_register(WideRegister::HL);
        let value = bus.read(addr);
        let result = self.rlc_value(value);
        bus.write(addr, result);
        16
    }

    fn rl(&mut self, reg: Register) -> (r: usize)
        ensures
            r == 8,
            ({
                let v = old(self).reg(reg);
                let x = shift_result(ShiftOp::Rl, v, old(self).cf);
                *final(self) == old(self).with_flags(x == 0, false, false, shift_carry(ShiftOp::Rl, v)).with_reg(reg, x)
            }),
    {
        let value = self.register(reg);
        let result = self.rl_value(value);
        self.set_register(reg, result);
        8
    }

    fn rl_hl_indirect<B: Bus>(&mut self, bus: &mut B) -> (r: usize)
        ensures
            r == 16,
            ({
                let v = old(bus).peek(old(self).hl());
                let x = shift_result(ShiftOp::Rl, v, old(self).cf);
                &&& *final(bus) == old(bus).poke(old(self).hl(), x)
                &&& *final(self) == old(self).with_flags(x == 0, false, false, shift_carry(ShiftOp::Rl, v))
            }),
    {
        let addr = self.wide_register(WideRegister::HL);
        let value = bus.read(addr);
        let result = self.rl_value(value);
        bus.write(addr, result);
        16
    }

    fn rrc(&mut self, reg: Register) -> (r: usize)
        ensures
            r == 8,
            ({
                let v = old(self).reg(reg);
                let x = shift_result(ShiftOp::Rrc, v, old(self).cf);
                *final(self) == old(self).with_flags(x == 0, false, false, shift_carry(ShiftOp::Rrc, v)).with_reg(reg, x)
            }),
    {
        let value = self.register(reg);
        let result = self.rrc_value(value);
        self.set_register(reg, result);
        8
    }

    fn rrc_hl_indirect<B: Bus>(&mut self, bus: &mut B) -> (r: usize)
        ensures
            r == 16,
            ({
                let v = old(bus).peek(old(self).hl());
                let x = shift_result(ShiftOp::Rrc, v, old(self).cf);
                &&& *final(bus) == old(bus).poke(old(self).hl(), x)
                &&& *final(self) == old(self).with_flags(x == 0, false, false, shift_carry(ShiftOp::Rrc, v))
            }),
    {
        let addr = self.wide_register(WideRegister::HL);
        let value = bus.read(addr);
        let result = self.rrc_value(value);
        bus.write(addr, result);
        16
    }

    fn rr(&mut self, reg: Register) -> (r: usize)
        ensures
            r == 8,
            ({
                let v = old(self).reg(reg);
                let x = shift_result(ShiftOp::Rr, v, old(self).cf);
                *final(self) == old(self).with_flags(x == 0, false, false, shift_carry(ShiftOp::Rr, v)).with_reg(reg, x)
            }),
    {
        let value = self.register(reg);
        let result = self.rr_value(value);
        self.set_register(reg, result);
        8
    }

    fn rr_hl_indirect<B: Bus>(&mut self, bus: &mut B) -> (r: usize)
        ensures
            r == 16,
            ({
                let v = old(bus).peek(old(self).hl());
                let x = shift_result(ShiftOp::Rr, v, old(self).cf);
                &&& *final(bus) == old(bus).poke(old(self).hl(), x)
                &&& *final(self) == old(self).with_flags(x == 0, false, false, shift_carry(ShiftOp::Rr, v))
            }),
    {
        let addr = self.wide_register(WideRegister::HL);
        let value = bus.read(addr);
        let result = self.rr_value(value);
        bus.write(addr, result);
        16
    }

    fn sla(&mut self, reg: Register) -> (r: usize)
        ensures
            r == 8,
            ({
                let v = old(self).reg(reg);
                let x = shift_result(ShiftOp::Sla, v, old(self).cf);
                *final(self) == old(self).with_flags(x == 0, false, false, shift_carry(ShiftOp::Sla, v)).with_reg(reg, x)
            }),
    {
        let value = self.register(reg);
        let result = self.sla_value(value);
        self.set_register(reg, result);
        8
    }

    fn sla_hl_indirect<B: Bus>(&mut self, bus: &mut B) -> (r: usize)
        ensures
            r == 16,
            ({
                let v = old(bus).peek(old(self).hl());
                let x = shift_result(ShiftOp::Sla, v, old(self).cf);
                &&& *final(bus) == old(bus).poke(old(self).hl(), x)
                &&& *final(self) == old(self).with_flags(x == 0, false, false, shift_carry(ShiftOp::Sla, v))
            }),
    {
        let addr = self.wide_register(WideRegister::HL);
        let value = bus.read(addr);
        let result = self.sla_value(value);
        bus.write(addr, result);
        16
    }

    fn sra(&mut self, reg: Register) -> (r: usize)
        ensures
            r == 8,
            ({
                let v = old(self).reg(reg);
                let x = shift_result(ShiftOp::Sra, v, old(self).cf);
                *final(self) == old(self).with_flags(x == 0, false, false, shift_carry(ShiftOp::Sra, v)).with_reg(reg, x)
            }),
    {
        let value = self.register(reg);
        let result = self.sra_value(value);
        self.set_register(reg, result);
        8
    }

    fn sra_hl_indirect<B: Bus>(&mut self, bus: &mut B) -> (r: usize)
        ensures
            r == 16,
            ({
                let v = old(bus).peek(old(self).hl());
                let x = shift_result(ShiftOp::Sra, v, old(self).cf);
                &&& *final(bus) == old(bus).poke(old(self).hl(), x)
                &&& *final(self) == old(self).with_flags(x == 0, false, false, shift_carry(ShiftOp::Sra, v))
            }),
    {
        let addr = self.wide_register(WideRegister::HL);
        let value = bus.read(addr);
        let result = self.sra_value(value);
        bus.write(addr, result);
        16
    }

    fn srl(&mut self, reg: Register) -> (r: usize)
        ensures
            r == 8,
            ({
                let v = old(self).reg(reg);
                let x = shift_result(ShiftOp::Srl, v, old(self).cf);
                *final(self) == old(self).with_flags(x == 0, false, false, shift_carry(ShiftOp::Srl, v)).with_reg(reg, x)
            }),
    {
        let value = self.register(reg);
        let result = self.srl_value(value);
        self.set_register(reg, result);
        8
    }

    fn srl_hl_indirect<B: Bus>(&mut self, bus: &mut B) -> (r: usize)
        ensures
            r == 16,
            ({
                let v = old(bus).peek(old(self).hl());
                let x = shift_result(ShiftOp::Srl, v, old(self).cf);
                &&& *final(bus) == old(bus).poke(old(self).hl(), x)
                &&& *final(self) == old(self).with_flags(x == 0, false, false, shift_carry(ShiftOp::Srl, v))
            }),
    {
        let addr = self.wide_register(WideRegister::HL);
        let value = bus.read(addr);
        let result = self.srl_value(value);
        bus.write(addr, result);
        16
    }

    fn swap(&mut self, reg: Register) -> (r: usize)
        ensures
            r == 8,
            ({
                let v = old(self).reg(reg);
                let x = shift_result(ShiftOp::Swap, v, old(self).cf);
                *final(self) == old(self).with_flags(x == 0, false, false, shift_carry(ShiftOp::Swap, v)).with_reg(reg, x)
            }),
    {
        let value = self.register(reg);
        let result = self.swap_value(value);
        self.set_register(reg, result);
        8
    }

    fn swap_hl_indirect<B: Bus>(&mut self, bus: &mut B) -> (r: usize)
        ensures
            r == 16,
            ({
                let v = old(bus).peek(old(self).hl());
                let x = shift_result(ShiftOp::Swap, v, old(self).cf);
                &&& *final(bus) == old(bus).poke(old(self).hl(), x)
                &&& *final(self) == old(self).with_flags(x == 0, false, false, shift_carry(ShiftOp::Swap, v))
            }),
    {
        let addr = self.wide_register(WideRegister::HL);
        let value = bus.read(addr);
        let result = self.swap_value(value);
        bus.write(addr, result);
        16
    }

    /// The accumulator form: Z is always cleared.
    fn rlca(&mut self) -> (r: usize)
        ensures
            r == 4,
            *final(self) == old(self).with_a(shift_result(ShiftOp::Rlc, old(self).a, old(self).cf)).with_flags(
                false,
                false,
                false,
                shift_carry(ShiftOp::Rlc, old(self).a),
            ),
    {
        let value = self.a;
        let result = self.rlc_value(value);
        self.a = result;
        self.zf = false;
        4
    }

    /// The accumulator form: Z is always cleared.
    fn rla(&mut self) -> (r: usize)
        ensures
            r == 4,
            *final(self) == old(self).with_a(shift_result(ShiftOp::Rl, old(self).a, old(self).cf)).with_flags(
                false,
                false,
                false,
                shift_carry(ShiftOp::Rl, old(self).a),
            ),
    {
        let value = self.a;
        let result = self.rl_value(value);
        self.a = result;
        self.zf = false;
        4
    }

    /// The accumulator form: Z is always cleared.
    fn rrca(&mut self) -> (r: usize)
        ensures
            r == 4,
            *final(self) == old(self).with_a(shift_result(ShiftOp::Rrc, old(self).a, old(self).cf)).with_flags(
                false,
                false,
                false,
                shift_carry(ShiftOp::Rrc, old(self).a),
            ),
    {
        let value = self.a;
        let result = self.rrc_value(value);
        self.a = result;
        self.zf = false;
        4
    }

    /// The accumulator form: Z is always cleared.
    fn rra(&mut self) -> (r: usize)
        ensures
            r == 4,
            *final(self) == old(self).with_a(shift_result(ShiftOp::Rr, old(self).a, old(self).cf)).with_flags(
                false,
                false,
                false,
                shift_carry(ShiftOp::Rr, old(self).a),
            ),
    {
        let value = self.a;
        let result = self.rr_value(value);
        self.a = result;
        self.zf = false;
        4
    }

    fn add(&mut self, reg: Register) -> (r: usize)
        ensures
            r == 4,
            *final(self) == alu(AluOp::Add, *old(self), old(self).reg(reg)),
    {
        proof {
            reveal(alu);
        }
        let value = self.register(reg);
        self.add_value(value, false);
        4
    }

    fn add_hl_indirect<B: Bus>(&mut self, bus: &mut B) -> (r: usize)
        ensures
            r == 8,
            *final(bus) == *old(bus),
            *final(self) == alu(AluOp::Add, *old(self), old(bus).peek(old(self).hl())),
    {
        proof {
            reveal(alu);
        }
        let addr = self.wide_register(WideRegister::HL);
        let value = bus.read(addr);
        self.add_value(value, false);
        8
    }

    fn add_immediate<B: Bus>(&mut self, bus: &mut B) -> (r: usize)
        ensures
            r == 8,
            *final(bus) == *old(bus),
            *final(self) == alu(AluOp::Add, old(self).advanced(1), old(bus).peek(old(self).pc)),
    {
        proof {
            reveal(alu);
        }
        let value = self.fetch(bus);
        self.add_value(value, false);
        8
    }

    fn add_carry(&mut self, reg: Register) -> (r: usize)
        ensures
            r == 4,
            *final(self) == alu(AluOp::Adc, *old(self), old(self).reg(reg)),
    {
        proof {
            reveal(alu);
        }
        let value = self.register(reg);
        let carry = self.cf;
        self.add_value(value, carry);
        4
    }

    fn add_carry_hl_indirect<B: Bus>(&mut self, bus: &mut B) -> (r: usize)
        ensures
            r == 8,
            *final(bus) == *old(bus),
            *final(self) == alu(AluOp::Adc, *old(self), old(bus).peek(old(self).hl())),
    {
        proof {
            reveal(alu);
        }
        let addr = self.wide_register(WideRegister::HL);
        let value = bus.read(addr);
        let carry = self.cf;
        self.add_value(value, carry);
        8
    }

    fn add_carry_immediate<B: Bus>(&mut self, bus: &mut B) -> (r: usize)
        ensures
            r == 8,
            *final(bus) == *old(bus),
            *final(self) == alu(AluOp::Adc, old(self).advanced(1), old(bus).peek(old(self).pc)),
    {
        proof {
            reveal(alu);
        }
        let value = self.fetch(bus);
        let carry = self.cf;
        self.add_value(value, carry);
        8
    }

    fn sub(&mut self, reg: Register) -> (r: usize)
        ensures
            r == 4,
            *final(self) == alu(AluOp::Sub, *old(self), old(self).reg(reg)),
    {
        proof {
            reveal(alu);
        }
        let value = self.register(reg);
        self.sub_value(value, false);
        4
    }

    fn sub_hl_indirect<B: Bus>(&mut self, bus: &mut B) -> (r: usize)
        ensures
            r == 8,
            *final(bus) == *old(bus),
            *final(self) == alu(AluOp::Sub, *old(self), old(bus).peek(old(self).hl())),
    {
        proof {
            reveal(alu);
        }
        let addr = self.wide_register(WideRegister::HL);
        let value = bus.read(addr);
        self.sub_value(value, false);
        8
    }

    fn sub_immediate<B: Bus>(&mut self, bus: &mut B) -> (r: usize)
        ensures
            r == 8,
            *final(bus) == *old(bus),
            *final(self) == alu(AluOp::Sub, old(self).advanced(1), old(bus).peek(old(self).pc)),
    {
        proof {
            reveal(alu);
        }
        let value = self.fetch(bus);
        self.sub_value(value, false);
        8
    }

    fn sub_carry(&mut self, reg: Register) -> (r: usize)
        ensures
            r == 4,
            *final(self) == alu(AluOp::Sbc, *old(self), old(self).reg(reg)),
    {
        proof {
            reveal(alu);
        }
        let value = self.register(reg);
        let carry = self.cf;
        self.sub_value(value, carry);
        4
    }

    fn sub_carry_hl_indirect<B: Bus>(&mut self, bus: &mut B) -> (r: usize)
        ensures
            r == 8,
            *final(bus) == *old(bus),
            *final(self) == alu(AluOp::Sbc, *old(self), old(bus).peek(old(self).hl())),
    {
        proof {
            reveal(alu);
        }
        let addr = self.wide_register(WideRegister::HL);
        let value = bus.read(addr);
        let carry = self.cf;
        self.sub_value(value, carry);
        8
    }

    fn sub_carry_immediate<B: Bus>(&mut self, bus: &mut B) -> (r: usize)
        ensures
            r == 8,
            *final(bus) == *old(bus),
            *final(self) == alu(AluOp::Sbc, old(self).advanced(1), old(bus).peek(old(self).pc)),
    {
        proof {
            reveal(alu);
        }
        let value = self.fetch(bus);
        let carry = self.cf;
        self.sub_value(value, carry);
        8
    }

    fn and(&mut self, reg: Register) -> (r: usize)
        ensures
            r == 4,
            *final(self) == alu(AluOp::And, *old(self), old(self).reg(reg)),
    {
        proof {
            reveal(alu);
        }
        let value = self.register(reg);
        self.and_value(value);
        4
    }

    fn and_hl_indirect<B: Bus>(&mut self, bus: &mut B) -> (r: usize)
        ensures
            r == 8,
            *final(bus) == *old(bus),
            *final(self) == alu(AluOp::And, *old(self), old(bus).peek(old(self).hl())),
    {
        proof {
            reveal(alu);
        }
        let addr = self.wide_register(WideRegister::HL);
        let value = bus.read(addr);
        self.and_value(value);
        8
    }

    fn and_immediate<B: Bus>(&mut self, bus: &mut B) -> (r: usize)
        ensures
            r == 8,
            *final(bus) == *old(bus),
            *final(self) == alu(AluOp::And, old(self).advanced(1), old(bus).peek(old(self).pc)),
    {
        proof {
            reveal(alu);
        }
        let value = self.fetch(bus);
        self.and_value(value);
        8
    }

    fn xor(&mut self, reg: Register) -> (r: usize)
        ensures
            r == 4,
            *final(self) == alu(AluOp::Xor, *old(self), old(self).reg(reg)),
    {
        proof {
            reveal(alu);
        }
        let value = self.register(reg);
        self.xor_value(value);
        4
    }

    fn xor_hl_indirect<B: Bus>(&mut self, bus: &mut B) -> (r: usize)
        ensures
            r == 8,
            *final(bus) == *old(bus),
            *final(self) == alu(AluOp::Xor, *old(self), old(bus).peek(old(self).hl())),
    {
        proof {
            reveal(alu);
        }
        let addr = self.wide_register(WideRegister::HL);
        let value = bus.read(addr);
        self.xor_value(value);
        8
    }

    fn xor_immediate<B: Bus>(&mut self, bus: &mut B) -> (r: usize)
        ensures
            r == 8,
            *final(bus) == *old(bus),
            *final(self) == alu(AluOp::Xor, old(self).advanced(1), old(bus).peek(old(self).pc)),
    {
        proof {
            reveal(alu);
        }
        let value = self.fetch(bus);
        self.xor_value(value);
        8
    }

    fn or(&mut self, reg: Register) -> (r: usize)
        ensures
            r == 4,
            *final(self) == alu(AluOp::Or, *old(self), old(self).reg(reg)),
    {
        proof {
            reveal(alu);
        }
        let value = self.register(reg);
        self.or_value(value);
        4
    }

    fn or_hl_indirect<B: Bus>(&mut self, bus: &mut B) -> (r: usize)
        ensures
            r == 8,
            *final(bus) == *old(bus),
            *final(self) == alu(AluOp::Or, *old(self), old(bus).peek(old(self).hl())),
    {
        proof {
            reveal(alu);
        }
        let addr = self.wide_register(WideRegister::HL);
        let value = bus.read(addr);
        self.or_value(value);
        8
    }

    fn or_immediate<B: Bus>(&mut self, bus: &mut B) -> (r: usize)
        ensures
            r == 8,
            *final(bus) == *old(bus),
            *final(self) == alu(AluOp::Or, old(self).advanced(1), old(bus).peek(old(self).pc)),
    {
        proof {
            reveal(alu);
        }
        let value = self.fetch(bus);
        self.or_value(value);
        8
    }

    fn compare(&mut self, reg: Register) -> (r: usize)
        ensures
            r == 4,
            *final(self) == alu(AluOp::Cp, *old(self), old(self).reg(reg)),
    {
        proof {
            reveal(alu);
        }
        let value = self.register(reg);
        self.compare_value(value);
        4
    }

    fn compare_hl_indirect<B: Bus>(&mut self, bus: &mut B) -> (r: usize)
        ensures
            r == 8,
            *final(bus) == *old(bus),
            *final(self) == alu(AluOp::Cp, *old(self), old(bus).peek(old(self).hl())),
    {
        proof {
            reveal(alu);
        }
        let addr = self.wide_register(WideRegister::HL);
        let value = bus.read(addr);
        self.compare_value(value);
        8
    }

    fn compare_immediate<B: Bus>(&mut self, bus: &mut B) -> (r: usize)
        ensures
            r == 8,
            *final(bus) == *old(bus),
            *final(self) == alu(AluOp::Cp, old(self).advanced(1), old(bus).peek(old(self).pc)),
    {
        proof {
            reveal(alu);
        }
        let value = self.fetch(bus);
        self.compare_value(value);
        8
    }

    fn bit(&mut self, bit: u8, reg: Register) -> (r: usize)
        requires
            bit < 8,
        ensures
            r == 8,
            *final(self) == old(self).with_flags(!bit_set(old(self).reg(reg), bit), false, true, old(self).cf),
    {
        let value = self.register(reg);
        self.bit_value(bit, value);
        8
    }

    fn bit_hl_indirect<B: Bus>(&mut self, bus: &mut B, bit: u8) -> (r: usize)
        requires
            bit < 8,
        ensures
            r == 12,
            *final(bus) == *old(bus),
            *final(self) == old(self).with_flags(
                !bit_set(old(bus).peek(old(self).hl()), bit),
                false,
                true,
                old(self).cf,
            ),
    {
        let addr = self.wide_register(WideRegister::HL);
        let value = bus.read(addr);
        self.bit_value(bit, value);
        12
    }

    fn reset_bit(&mut self, bit: u8, reg: Register) -> (r: usize)
        requires
            bit < 8,
        ensures
            r == 8,
            *final(self) == old(self).with_reg(reg, old(self).reg(reg) & !(1u8 << bit)),
    {
        let value = self.register(reg);
        let result = self.reset_bit_value(bit, value);
        self.set_register(reg, result);
        8
    }

    fn reset_bit_hl_indirect<B: Bus>(&mut self, bus: &mut B, bit: u8) -> (r: usize)
        requires
            bit < 8,
        ensures
            r == 16,
            *final(self) == *old(self),
            *final(bus) == old(bus).poke(old(self).hl(), old(bus).peek(old(self).hl()) & !(1u8 << bit)),
    {
        let addr = self.wide_register(WideRegister::HL);
        let value = bus.read(addr);
        let result = self.reset_bit_value(bit, value);
        bus.write(addr, result);
        16
    }

    fn set_bit(&mut self, bit: u8, reg: Register) -> (r: usize)
        requires
            bit < 8,
        ensures
            r == 8,
            *final(self) == old(self).with_reg(reg, old(self).reg(reg) | (1u8 << bit)),
    {
        let value = self.register(reg);
        let result = self.set_bit_value(bit, value);
        self.set_register(reg, result);
        8
    }

    fn set_bit_hl_indirect<B: Bus>(&mut self, bus: &mut B, bit: u8) -> (r: usize)
        requires
            bit < 8,
        ensures
            r == 16,
            *final(self) == *old(self),
            *final(bus) == old(bus).poke(old(self).hl(), old(bus).peek(old(self).hl()) | (1u8 << bit)),
    {
        let addr = self.wide_register(WideRegister::HL);
        let value = bus.read(addr);
        let result = self.set_bit_value(bit, value);
        bus.write(addr, result);
        16
    }


    fn cb<B: Bus>(&mut self, bus: &mut B) -> (r: usize)
        ensures
            r == cb_cycles(old(bus).peek(old(self).pc)),
            cb_effect(old(bus).peek(old(self).pc), old(self).advanced(1), *old(bus), *final(self), *final(bus)),
    {
        let opcode = self.fetch(bus);
        if opcode < 0x40 {
            self.cb_shift(bus, opcode)
        } else if opcode < 0x80 {
            self.cb_bit(bus, opcode)
        } else if opcode < 0xC0 {
            self.cb_reset(bus, opcode)
        } else {
            self.cb_set(bus, opcode)
        }
    }

    /// The rotate, shift and swap quarter of the 0xCB page.
    #[verifier::spinoff_prover]
    #[verifier::rlimit(100)]
    fn cb_shift<B: Bus>(&mut self, bus: &mut B, opcode: u8) -> (r: usize)
        requires
            0x00 <= opcode <= 0x3F,
        ensures
            r == cb_cycles(opcode),
            cb_effect(opcode, *old(self), *old(bus), *final(self), *final(bus)),
    {
        match opcode {
            0x00 => self.rlc(Register::B),
            0x01 => self.rlc(Register::C),
            0x02 => self.rlc(Register::D),
            0x03 => self.rlc(Register::E),
            0x04 => self.rlc(Register::H),
            0x05 => self.rlc(Register::L),
            0x06 => self.rlc_hl_indirect(bus),
            0x07 => self.rlc(Register::A),
            0x08 => self.rrc(Register::B),
            0x09 => self.rrc(Register::C),
            0x0A => self.rrc(Register::D),
            0x0B => self.rrc(Register::E),
            0x0C => self.rrc(Register::H),
            0x0D => self.rrc(Register::L),
            0x0E => self.rrc_hl_indirect(bus),
            0x0F => self.rrc(Register::A),
            0x10 => self.rl(Register::B),
            0x11 => self.rl(Register::C),
            0x12 => self.rl(Register::D),
            0x13 => self.rl(Register::E),
            0x14 => self.rl(Register::H),
            0x15 => self.rl(Register::L),
            0x16 => self.rl_hl_indirect(bus),
            0x17 => self.rl(Register::A),
            0x18 => self.rr(Register::B),
            0x19 => self.rr(Register::C),
            0x1A => self.rr(Register::D),
            0x1B => self.rr(Register::E),
            0x1C => self.rr(Register::H),
            0x1D => self.rr(Register::L),
            0x1E => self.rr_hl_indirect(bus),
            0x1F => self.rr(Register::A),
            0x20 => self.sla(Register::B),
            0x21 => self.sla(Register::C),
            0x22 => self.sla(Register::D),
            0x23 => self.sla(Register::E),
            0x24 => self.sla(Register::H),
            0x25 => self.sla(Register::L),
            0x26 => self.sla_hl_indirect(bus),
            0x27 => self.sla(Register::A),
            0x28 => self.sra(Register::B),
            0x29 => self.sra(Register::C),
            0x2A => self.sra(Register::D),
            0x2B => self.sra(Register::E),
            0x2C => self.sra(Register::H),
            0x2D => self.sra(Register::L),
            0x2E => self.sra_hl_indirect(bus),
            0x2F => self.sra(Register::A),
            0x30 => self.swap(Register::B),
            0x31 => self.swap(Register::C),
            0x32 => self.swap(Register::D),
            0x33 => self.swap(Register::E),
            0x34 => self.swap(Register::H),
            0x35 => self.swap(Register::L),
            0x36 => self.swap_hl_indirect(bus),
            0x37 => self.swap(Register::A),
            0x38 => self.srl(Register::B),
            0x39 => self.srl(Register::C),
            0x3A => self.srl(Register::D),
            0x3B => self.srl(Register::E),
            0x3C => self.srl(Register::H),
            0x3D => self.srl(Register::L),
            0x3E => self.srl_hl_indirect(bus),
            0x3F => self.srl(Register::A),
            _ => 4,
        }
    }

    /// The BIT quarter of the 0xCB page.
    #[verifier::spinoff_prover]
    #[verifier::rlimit(100)]
    fn cb_bit<B: Bus>(&mut self, bus: &mut B, opcode: u8) -> (r: usize)
        requires
            0x40 <= opcode <= 0x7F,
        ensures
            r == cb_cycles(opcode),
            cb_effect(opcode, *old(self), *old(bus), *final(self), *final(bus)),
    {
        match opcode {
            0x40 => self.bit(0, Register::B),
            0x41 => self.bit(0, Register::C),
            0x42 => self.bit(0, Register::D),
            0x43 => self.bit(0, Register::E),
            0x44 => self.bit(0, Register::H),
            0x45 => self.bit(0, Register::L),
            0x46 => self.bit_hl_indirect(bus, 0),
            0x47 => self.bit(0, Register::A),
            0x48 => self.bit(1, Register::B),
            0x49 => self.bit(1, Register::C),
            0x4A => self.bit(1, Register::D),
            0x4B => self.bit(1, Register::E),
            0x4C => self.bit(1, Register::H),
            0x4D => self.bit(1, Register::L),
            0x4E => self.bit_hl_indirect(bus, 1),
            0x4F => self.bit(1, Register::A),
            0x50 => self.bit(2, Register::B),
            0x51 => self.bit(2, Register::C),
            0x52 => self.bit(2, Register::D),
            0x53 => self.bit(2, Register::E),
            0x54 => self.bit(2, Register::H),
            0x55 => self.bit(2, Register::L),
            0x56 => self.bit_hl_indirect(bus, 2),
            0x57 => self.bit(2, Register::A),
            0x58 => self.bit(3, Register::B),
            0x59 => self.bit(3, Register::C),
            0x5A => self.bit(3, Register::D),
            0x5B => self.bit(3, Register::E),
            0x5C => self.bit(3, Register::H),
            0x5D => self.bit(3, Register::L),
            0x5E => self.bit_hl_indirect(bus, 3),
            0x5F => self.bit(3, Register::A),
            0x60 => self.bit(4, Register::B),
            0x61 => self.bit(4, Register::C),
            0x62 => self.bit(4, Register::D),
            0x63 => self.bit(4, Register::E),
            0x64 => self.bit(4, Register::H),
            0x65 => self.bit(4, Register::L),
            0x66 => self.bit_hl_indirect(bus, 4),
            0x67 => self.bit(4, Register::A),
            0x68 => self.bit(5, Register::B),
            0x69 => self.bit(5, Register::C),
            0x6A => self.bit(5, Register::D),
            0x6B => self.bit(5, Register::E),
            0x6C => self.bit(5, Register::H),
            0x6D => self.bit(5, Register::L),
            0x6E => self.bit_hl_indirect(bus, 5),
            0x6F => self.bit(5, Register::A),
            0x70 => self.bit(6, Register::B),
            0x71 => self.bit(6, Register::C),
            0x72 => self.bit(6, Register::D),
            0x73 => self.bit(6, Register::E),
            0x74 => self.bit(6, Register::H),
            0x75 => self.bit(6, Register::L),
            0x76 => self.bit_hl_indirect(bus, 6),
            0x77 => self.bit(6, Register::A),
            0x78 => self.bit(7, Register::B),
            0x79 => self.bit(7, Register::C),
            0x7A => self.bit(7, Register::D),
            0x7B => self.bit(7, Register::E),
            0x7C => self.bit(7, Register::H),
            0x7D => self.bit(7, Register::L),
            0x7E => self.bit_hl_indirect(bus, 7),
            0x7F => self.bit(7, Register::A),
            _ => 4,
        }
    }

    /// The RES quarter of the 0xCB page.
    #[verifier::spinoff_prover]
    #[verifier::rlimit(100)]
    fn cb_reset<B: Bus>(&mut self, bus: &mut B, opcode: u8) -> (r: usize)
        requires
            0x80 <= opcode <= 0xBF,
        ensures
            r == cb_cycles(opcode),
            cb_effect(opcode, *old(self), *old(bus), *final(self), *final(bus)),
    {
        match opcode {
            0x80 => self.reset_bit(0, Register::B),
            0x81 => self.reset_bit(0, Register::C),
            0x82 => self.reset_bit(0, Register::D),
            0x83 => self.reset_bit(0, Register::E),
            0x84 => self.reset_bit(0, Register::H),
            0x85 => self.reset_bit(0, Register::L),
            0x86 => self.reset_bit_hl_indirect(bus, 0),
            0x87 => self.reset_bit(0, Register::A),
            0x88 => self.reset_bit(1, Register::B),
            0x89 => self.reset_bit(1, Register::C),
            0x8A => self.reset_bit(1, Register::D),
            0x8B => self.reset_bit(1, Register::E),
            0x8C => self.reset_bit(1, Register::H),
            0x8D => self.reset_bit(1, Register::L),
            0x8E => self.reset_bit_hl_indirect(bus, 1),
            0x8F => self.reset_bit(1, Register::A),
            0x90 => self.reset_bit(2, Register::B),
            0x91 => self.reset_bit(2, Register::C),
            0x92 => self.reset_bit(2, Register::D),
            0x93 => self.reset_bit(2, Register::E),
            0x94 => self.reset_bit(2, Register::H),
            0x95 => self.reset_bit(2, Register::L),
            0x96 => self.reset_bit_hl_indirect(bus, 2),
            0x97 => self.reset_bit(2, Register::A),
            0x98 => self.reset_bit(3, Register::B),
            0x99 => self.reset_bit(3, Register::C),
            0x9A => self.reset_bit(3, Register::D),
            0x9B => self.reset_bit(3, Register::E),
            0x9C => self.reset_bit(3, Register::H),
            0x9D => self.reset_bit(3, Register::L),
            0x9E => self.reset_bit_hl_indirect(bus, 3),
            0x9F => self.reset_bit(3, Register::A),
            0xA0 => self.reset_bit(4, Register::B),
            0xA1 => self.reset_bit(4, Register::C),
            0xA2 => self.reset_bit(4, Register::D),
            0xA3 => self.reset_bit(4, Register::E),
            0xA4 => self.reset_bit(4, Register::H),
            0xA5 => self.reset_bit(4, Register::L),
            0xA6 => self.reset_bit_hl_indirect(bus, 4),
            0xA7 => self.reset_bit(4, Register::A),
            0xA8 => self.reset_bit(5, Register::B),
            0xA9 => self.reset_bit(5, Register::C),
            0xAA => self.reset_bit(5, Register::D),
            0xAB => self.reset_bit(5, Register::E),
            0xAC => self.reset_bit(5, Register::H),
            0xAD => self.reset_bit(5, Register::L),
            0xAE => self.reset_bit_hl_indirect(bus, 5),
            0xAF => self.reset_bit(5, Register::A),
            0xB0 => self.reset_bit(6, Register::B),
            0xB1 => self.reset_bit(6, Register::C),
            0xB2 => self.reset_bit(6, Register::D),
            0xB3 => self.reset_bit(6, Register::E),
            0xB4 => self.reset_bit(6, Register::H),
            0xB5 => self.reset_bit(6, Register::L),
            0xB6 => self.reset_bit_hl_indirect(bus, 6),
            0xB7 => self.reset_bit(6, Register::A),
            0xB8 => self.reset_bit(7, Register::B),
            0xB9 => self.reset_bit(7, Register::C),
            0xBA => self.reset_bit(7, Register::D),
            0xBB => self.reset_bit(7, Register::E),
            0xBC => self.reset_bit(7, Register::H),
            0xBD => self.reset_bit(7, Register::L),
            0xBE => self.reset_bit_hl_indirect(bus, 7),
            0xBF => self.reset_bit(7, Register::A),
            _ => 4,
        }
    }

    /// The SET quarter of the 0xCB page.
    #[verifier::spinoff_prover]
    #[verifier::rlimit(100)]
    fn cb_set<B: Bus>(&mut self, bus: &mut B, opcode: u8) -> (r: usize)
        requires
            0xC0 <= opcode <= 0xFF,
        ensures
            r == cb_cycles(opcode),
            cb_effect(opcode, *old(self), *old(bus), *final(self), *final(bus)),
    {
        match opcode {
            0xC0 => self.set_bit(0, Register::B),
            0xC1 => self.set_bit(0, Register::C),
            0xC2 => self.set_bit(0, Register::D),
            0xC3 => self.set_bit(0, Register::E),
            0xC4 => self.set_bit(0, Register::H),
            0xC5 => self.set_bit(0, Register::L),
            0xC6 => self.set_bit_hl_indirect(bus, 0),
            0xC7 => self.set_bit(0, Register::A),
            0xC8 => self.set_bit(1, Register::B),
            0xC9 => self.set_bit(1, Register::C),
            0xCA => self.set_bit(1, Register::D),
            0xCB => self.set_bit(1, Register::E),
            0xCC => self.set_bit(1, Register::H),
            0xCD => self.set_bit(1, Register::L),
            0xCE => self.set_bit_hl_indirect(bus, 1),
            0xCF => self.set_bit(1, Register::A),
            0xD0 => self.set_bit(2, Register::B),
            0xD1 => self.set_bit(2, Register::C),
            0xD2 => self.set_bit(2, Register::D),
            0xD3 => self.set_bit(2, Register::E),
            0xD4 => self.set_bit(2, Register::H),
            0xD5 => self.set_bit(2, Register::L),
            0xD6 => self.set_bit_hl_indirect(bus, 2),
            0xD7 => self.set_bit(2, Register::A),
            0xD8 => self.set_bit(3, Register::B),
            0xD9 => self.set_bit(3, Register::C),
            0xDA => self.set_bit(3, Register::D),
            0xDB => self.set_bit(3, Register::E),
            0xDC => self.set_bit(3, Register::H),
            0xDD => self.set_bit(3, Register::L),
            0xDE => self.set_bit_hl_indirect(bus, 3),
            0xDF => self.set_bit(3, Register::A),
            0xE0 => self.set_bit(4, Register::B),
            0xE1 => self.set_bit(4, Register::C),
            0xE2 => self.set_bit(4, Register::D),
            0xE3 => self.set_bit(4, Register::E),
            0xE4 => self.set_bit(4, Register::H),
            0xE5 => self.set_bit(4, Register::L),
            0xE6 => self.set_bit_hl_indirect(bus, 4),
            0xE7 => self.set_bit(4, Register::A),
            0xE8 => self.set_bit(5, Register::B),
            0xE9 => self.set_bit(5, Register::C),
            0xEA => self.set_bit(5, Register::D),
            0xEB => self.set_bit(5, Register::E),
            0xEC => self.set_bit(5, Register::H),
            0xED => self.set_bit(5, Register::L),
            0xEE => self.set_bit_hl_indirect(bus, 5),
            0xEF => self.set_bit(5, Register::A),
            0xF0 => self.set_bit(6, Register::B),
            0xF1 => self.set_bit(6, Register::C),
            0xF2 => self.set_bit(6, Register::D),
            0xF3 => self.set_bit(6, Register::E),
            0xF4 => self.set_bit(6, Register::H),
            0xF5 => self.set_bit(6, Register::L),
            0xF6 => self.set_bit_hl_indirect(bus, 6),
            0xF7 => self.set_bit(6, Register::A),
            0xF8 => self.set_bit(7, Register::B),
            0xF9 => self.set_bit(7, Register::C),
            0xFA => self.set_bit(7, Register::D),
            0xFB => self.set_bit(7, Register::E),
            0xFC => self.set_bit(7, Register::H),
            0xFD => self.set_bit(7, Register::L),
            0xFE => self.set_bit_hl_indirect(bus, 7),
            0xFF => self.set_bit(7, Register::A),
            _ => 4,
        }
    }

    /// Runs the instruction `opcode`, whose byte has already been fetched.
    fn execute<B: Bus>(&mut self, bus: &mut B, opcode: u8) -> (r: usize)
        ensures
            r == op_cycles(
                opcode,
                old(bus).peek(old(self).pc),
                old(self).condition_holds(branch_condition(opcode)),
            ),
            exec_effect(opcode, *old(self), *old(bus), *final(self), *final(bus)),
    {
        if opcode < 0x40 {
            self.execute_misc_low(bus, opcode)
        } else if opcode < 0x80 {
            self.execute_load(bus, opcode)
        } else if opcode < 0xC0 {
            self.execute_alu(bus, opcode)
        } else {
            self.execute_misc_high(bus, opcode)
        }
    }

    /// Opcodes 0x00-0x3F: immediate loads, 16-bit arithmetic, increments, relative jumps.
    #[verifier::spinoff_prover]
    #[verifier::rlimit(100)]
    fn execute_misc_low<B: Bus>(&mut self, bus: &mut B, opcode: u8) -> (r: usize)
        requires
            0x00 <= opcode <= 0x3F,
        ensures
            misc_effect(opcode, *old(self), *old(bus), *final(self), *final(bus)),
            r == op_cycles(opcode, old(bus).peek(old(self).pc), old(self).condition_holds(branch_condition(opcode))),
    {
        match opcode {
            0x00 => self.nop(),
            0x01 => self.load_wide_immediate(bus, WideRegister::BC),
            0x02 => self.store_register_indirect(bus, WideRegister::BC, Register::A),
            0x03 => self.inc_wide(WideRegister::BC),
            0x04 => self.inc(Register::B),
            0x05 => self.dec(Register::B),
            0x06 => self.load_immediate(bus, Register::B),
            0x07 => self.rlca(),
            0x08 => self.write_stack_immediate(bus),
            0x09 => self.add_wide(WideRegister::BC),
            0x0A => self.load_register_indirect(bus, WideRegister::BC, Register::A),
            0x0B => self.dec_wide(WideRegister::BC),
            0x0C => self.inc(Register::C),
            0x0D => self.dec(Register::C),
            0x0E => self.load_immediate(bus, Register::C),
            0x0F => self.rrca(),
            0x10 => self.stop(bus),
            0x11 => self.load_wide_immediate(bus, WideRegister::DE),
            0x12 => self.store_register_indirect(bus, WideRegister::DE, Register::A),
            0x13 => self.inc_wide(WideRegister::DE),
            0x14 => self.inc(Register::D),
            0x15 => self.dec(Register::D),
            0x16 => self.load_immediate(bus, Register::D),
            0x17 => self.rla(),
            0x18 => self.jr(bus),
            0x19 => self.add_wide(WideRegister::DE),
            0x1A => self.load_register_indirect(bus, WideRegister::DE, Register::A),
            0x1B => self.dec_wide(WideRegister::DE),
            0x1C => self.inc(Register::E),
            0x1D => self.dec(Register::E),
            0x1E => self.load_immediate(bus, Register::E),
            0x1F => self.rra(),
            0x20 => self.jr_condition(bus, Condition::NotZero),
            0x21 => self.load_wide_immediate(bus, WideRegister::HL),
            0x22 => self.store_a_hli_indirect(bus),
            0x23 => self.inc_wide(WideRegister::HL),
            0x24 => self.inc(Register::H),
            0x25 => self.dec(Register::H),
            0x26 => self.load_immediate(bus, Register::H),
            0x27 => self.daa(),
            0x28 => self.jr_condition(bus, Condition::Zero),
            0x29 => self.add_wide(WideRegister::HL),
            0x2A => self.load_a_hli_indirect(bus),
            0x2B => self.dec_wide(WideRegister::HL),
            0x2C => self.inc(Register::L),
            0x2D => self.dec(Register::L),
            0x2E => self.load_immediate(bus, Register::L),
            0x2F => self.cpl(),
            0x30 => self.jr_condition(bus, Condition::NotCarry),
            0x31 => self.load_wide_immediate(bus, WideRegister::SP),
            0x32 => self.store_a_hld_indirect(bus),
            0x33 => self.inc_wide(WideRegister::SP),
            0x34 => self.inc_hl_indirect(bus),
            0x35 => self.dec_hl_indirect(bus),
            0x36 => self.store_immediate_hl_indirect(bus),
            0x37 => self.scf(),
            0x38 => self.jr_condition(bus, Condition::Carry),
            0x39 => self.add_wide(WideRegister::SP),
            0x3A => self.load_a_hld_indirect(bus),
            0x3B => self.dec_wide(WideRegister::SP),
            0x3C => self.inc(Register::A),
            0x3D => self.dec(Register::A),
            0x3E => self.load_immediate(bus, Register::A),
            0x3F => self.ccf(),
            _ => 4,
        }
    }

    /// Opcodes 0x40-0x7F: register-to-register loads and HALT.
    #[verifier::spinoff_prover]
    #[verifier::rlimit(100)]
    fn execute_load<B: Bus>(&mut self, bus: &mut B, opcode: u8) -> (r: usize)
        requires
            0x40 <= opcode <= 0x7F,
        ensures
            r == op_cycles(opcode, old(bus).peek(old(self).pc), old(self).condition_holds(branch_condition(opcode))),
            opcode != 0x76 ==> load_effect(opcode, *old(self), *old(bus), *final(self), *final(bus)),
            opcode == 0x76 ==> *final(self) == (Cpu { halted: true, ..*old(self) }) && *final(bus) == *old(bus),
    {
        match opcode {
            0x40 => self.copy(Register::B, Register::B),
            0x41 => self.copy(Register::B, Register::C),
            0x42 => self.copy(Register::B, Register::D),
            0x43 => self.copy(Register::B, Register::E),
            0x44 => self.copy(Register::B, Register::H),
            0x45 => self.copy(Register::B, Register::L),
            0x46 => self.load_register_indirect(bus, WideRegister::HL, Register::B),
            0x47 => self.copy(Register::B, Register::A),
            0x48 => self.copy(Register::C, Register::B),
            0x49 => self.copy(Register::C, Register::C),
            0x4A => self.copy(Register::C, Register::D),
            0x4B => self.copy(Register::C, Register::E),
            0x4C => self.copy(Register::C, Register::H),
            0x4D => self.copy(Register::C, Register::L),
            0x4E => self.load_register_indirect(bus, WideRegister::HL, Register::C),
            0x4F => self.copy(Register::C, Register::A),
            0x50 => self.copy(Register::D, Register::B),
            0x51 => self.copy(Register::D, Register::C),
            0x52 => self.copy(Register::D, Register::D),
            0x53 => self.copy(Register::D, Register::E),
            0x54 => self.copy(Register::D, Register::H),
            0x55 => self.copy(Register::D, Register::L),
            0x56 => self.load_register_indirect(bus, WideRegister::HL, Register::D),
            0x57 => self.copy(Register::D, Register::A),
            0x58 => self.copy(Register::E, Register::B),
            0x59 => self.copy(Register::E, Register::C),
            0x5A => self.copy(Register::E, Register::D),
            0x5B => self.copy(Register::E, Register::E),
            0x5C => self.copy(Register::E, Register::H),
            0x5D => self.copy(Register::E, Register::L),
            0x5E => self.load_register_indirect(bus, WideRegister::HL, Register::E),
            0x5F => self.copy(Register::E, Register::A),
            0x60 => self.copy(Register::H, Register::B),
            0x61 => self.copy(Register::H, Register::C),
            0x62 => self.copy(Register::H, Register::D),
            0x63 => self.copy(Register::H, Register::E),
            0x64 => self.copy(Register::H, Register::H),
            0x65 => self.copy(Register::H, Register::L),
            0x66 => self.load_register_indirect(bus, WideRegister::HL, Register::H),
            0x67 => self.copy(Register::H, Register::A),
            0x68 => self.copy(Register::L, Register::B),
            0x69 => self.copy(Register::L, Register::C),
            0x6A => self.copy(Register::L, Register::D),
            0x6B => self.copy(Register::L, Register::E),
            0x6C => self.copy(Register::L, Register::H),
            0x6D => self.copy(Register::L, Register::L),
            0x6E => self.load_register_indirect(bus, WideRegister::HL, Register::L),
            0x6F => self.copy(Register::L, Register::A),
            0x70 => self.store_register_indirect(bus, WideRegister::HL, Register::B),
            0x71 => self.store_register_indirect(bus, WideRegister::HL, Register::C),
            0x72 => self.store_register_indirect(bus, WideRegister::HL, Register::D),
            0x73 => self.store_register_indirect(bus, WideRegister::HL, Register::E),
            0x74 => self.store_register_indirect(bus, WideRegister::HL, Register::H),
            0x75 => self.store_register_indirect(bus, WideRegister::HL, Register::L),
            0x76 => self.halt(),
            0x77 => self.store_register_indirect(bus, WideRegister::HL, Register::A),
            0x78 => self.copy(Register::A, Register::B),
            0x79 => self.copy(Register::A, Register::C),
            0x7A => self.copy(Register::A, Register::D),
            0x7B => self.copy(Register::A, Register::E),
            0x7C => self.copy(Register::A, Register::H),
            0x7D => self.copy(Register::A, Register::L),
            0x7E => self.load_register_indirect(bus, WideRegister::HL, Register::A),
            0x7F => self.copy(Register::A, Register::A),
            _ => 4,
        }
    }

    /// Opcodes 0x80-0xBF: accumulator arithmetic and logic.
    #[verifier::spinoff_prover]
    #[verifier::rlimit(100)]
    fn execute_alu<B: Bus>(&mut self, bus: &mut B, opcode: u8) -> (r: usize)
        requires
            0x80 <= opcode <= 0xBF,
        ensures
            r == op_cycles(opcode, old(bus).peek(old(self).pc), old(self).condition_holds(branch_condition(opcode))),
            *final(self) == alu(
                alu_op(((opcode - 0x80) / 8) as int),
                *old(self),
                operand(*old(self), *old(bus), (opcode % 8) as int),
            ),
            *final(bus) == *old(bus),
    {
        match opcode {
            0x80 => self.add(Register::B),
            0x81 => self.add(Register::C),
            0x82 => self.add(Register::D),
            0x83 => self.add(Register::E),
            0x84 => self.add(Register::H),
            0x85 => self.add(Register::L),
            0x86 => self.add_hl_indirect(bus),
            0x87 => self.add(Register::A),
            0x88 => self.add_carry(Register::B),
            0x89 => self.add_carry(Register::C),
            0x8A => self.add_carry(Register::D),
            0x8B => self.add_carry(Register::E),
            0x8C => self.add_carry(Register::H),
            0x8D => self.add_carry(Register::L),
            0x8E => self.add_carry_hl_indirect(bus),
            0x8F => self.add_carry(Register::A),
            0x90 => self.sub(Register::B),
            0x91 => self.sub(Register::C),
            0x92 => self.sub(Register::D),
            0x93 => self.sub(Register::E),
            0x94 => self.sub(Register::H),
            0x95 => self.sub(Register::L),
            0x96 => self.sub_hl_indirect(bus),
            0x97 => self.sub(Register::A),
            0x98 => self.sub_carry(Register::B),
            0x99 => self.sub_carry(Register::C),
            0x9A => self.sub_carry(Register::D),
            0x9B => self.sub_carry(Register::E),
            0x9C => self.sub_carry(Register::H),
            0x9D => self.sub_carry(Register::L),
            0x9E => self.sub_carry_hl_indirect(bus),
            0x9F => self.sub_carry(Register::A),
            0xA0 => self.and(Register::B),
            0xA1 => self.and(Register::C),
            0xA2 => self.and(Register::D),
            0xA3 => self.and(Register::E),
            0xA4 => self.and(Register::H),
            0xA5 => self.and(Register::L),
            0xA6 => self.and_hl_indirect(bus),
            0xA7 => self.and(Register::A),
            0xA8 => self.xor(Register::B),
            0xA9 => self.xor(Register::C),
            0xAA => self.xor(Register::D),
            0xAB => self.xor(Register::E),
            0xAC => self.xor(Register::H),
            0xAD => self.xor(Register::L),
            0xAE => self.xor_hl_indirect(bus),
            0xAF => self.xor(Register::A),
            0xB0 => self.or(Register::B),
            0xB1 => self.or(Register::C),
            0xB2 => self.or(Register::D),
            0xB3 => self.or(Register::E),
            0xB4 => self.or(Register::H),
            0xB5 => self.or(Register::L),
            0xB6 => self.or_hl_indirect(bus),
            0xB7 => self.or(Register::A),
            0xB8 => self.compare(Register::B),
            0xB9 => self.compare(Register::C),
            0xBA => self.compare(Register::D),
            0xBB => self.compare(Register::E),
            0xBC => self.compare(Register::H),
            0xBD => self.compare(Register::L),
            0xBE => self.compare_hl_indirect(bus),
            0xBF => self.compare(Register::A),
            _ => 4,
        }
    }

    /// Opcodes 0xC0-0xFF: stack, jumps, calls, high-page loads and the 0xCB prefix.
    #[verifier::spinoff_prover]
    #[verifier::rlimit(100)]
    fn execute_misc_high<B: Bus>(&mut self, bus: &mut B, opcode: u8) -> (r: usize)
        requires
            0xC0 <= opcode <= 0xFF,
        ensures
            misc_effect(opcode, *old(self), *old(bus), *final(self), *final(bus)),
            r == op_cycles(opcode, old(bus).peek(old(self).pc), old(self).condition_holds(branch_condition(opcode))),
            is_illegal(opcode) ==> *final(self) == *old(self) && *final(bus) == *old(bus),
            opcode == 0xCB ==> cb_effect(old(bus).peek(old(self).pc), old(self).advanced(1), *old(bus), *final(self), *final(bus)),
    {
        match opcode {
            0xC0 => self.ret_condition(bus, Condition::NotZero),
            0xC1 => self.pop(bus, WideRegister::BC),
            0xC2 => self.jmp_condition(bus, Condition::NotZero),
            0xC3 => self.jmp(bus),
            0xC4 => self.call_condition(bus, Condition::NotZero),
            0xC5 => self.push(bus, WideRegister::BC),
            0xC6 => self.add_immediate(bus),
            0xC7 => self.rst(bus, 0x0000),
            0xC8 => self.ret_condition(bus, Condition::Zero),
            0xC9 => self.ret(bus),
            0xCA => self.jmp_condition(bus, Condition::Zero),
            0xCB => self.cb(bus),
            0xCC => self.call_condition(bus, Condition::Zero),
            0xCD => self.call(bus),
            0xCE => self.add_carry_immediate(bus),
            0xCF => self.rst(bus, 0x0008),
            0xD0 => self.ret_condition(bus, Condition::NotCarry),
            0xD1 => self.pop(bus, WideRegister::DE),
            0xD2 => self.jmp_condition(bus, Condition::NotCarry),
            0xD3 => 4,
            0xD4 => self.call_condition(bus, Condition::NotCarry),
            0xD5 => self.push(bus, WideRegister::DE),
            0xD6 => self.sub_immediate(bus),
            0xD7 => self.rst(bus, 0x0010),
            0xD8 => self.ret_condition(bus, Condition::Carry),
            0xD9 => self.reti(bus),
            0xDA => self.jmp_condition(bus, Condition::Carry),
            0xDB => 4,
            0xDC => self.call_condition(bus, Condition::Carry),
            0xDD => 4,
            0xDE => self.sub_carry_immediate(bus),
            0xDF => self.rst(bus, 0x0018),
            0xE0 => self.store_high_indirect(bus),
            0xE1 => self.pop(bus, WideRegister::HL),
            0xE2 => self.store_high_c_indirect(bus),
            0xE3 => 4,
            0xE4 => 4,
            0xE5 => self.push(bus, WideRegister::HL),
            0xE6 => self.and_immediate(bus),
            0xE7 => self.rst(bus, 0x0020),
            0xE8 => self.add_sp(bus),
            0xE9 => self.jmp_hl(),
            0xEA => self.store_indirect(bus),
            0xEB => 4,
            0xEC => 4,
            0xED => 4,
            0xEE => self.xor_immediate(bus),
            0xEF => self.rst(bus, 0x0028),
            0xF0 => self.load_high_indirect(bus),
            0xF1 => self.pop(bus, WideRegister::AF),
            0xF2 => self.load_high_c_indirect(bus),
            0xF3 => self.di(),
            0xF4 => 4,
            0xF5 => self.push(bus, WideRegister::AF),
            0xF6 => self.or_immediate(bus),
            0xF7 => self.rst(bus, 0x0030),
            0xF8 => self.load_sp_indirect(bus),
            0xF9 => self.copy_wide(WideRegister::SP, WideRegister::HL),
            0xFA => self.load_indirect(bus),
            0xFB => self.ei(),
            0xFC => 4,
            0xFD => 4,
            0xFE => self.compare_immediate(bus),
            0xFF => self.rst(bus, 0x0038),
            _ => 4,
        }
    }

    /// Services interrupt request `pending`: the lowest set bit wins, its
    /// request is cleared, PC is pushed and control moves to its vector.
    fn dispatch<B: Bus>(&mut self, bus: &mut B, iflags: u8, pending: u8) -> (r: usize)
        ensures
            r == 20,
            *final(self) == (Cpu {
                pc: irq_vector(irq_index(pending)),
                sp: off16(old(self).sp, -2),
                ime: false,
                ..*old(self)
            }),
            *final(bus) == pushed(*old(bus), old(self).sp, old(self).pc).poke(
                Port::IF,
                iflags & !irq_mask(irq_index(pending)),
            ),
    {
        let (vector, mask): (u16, u8) = if pending & 0x01 != 0 {
            (0x40, 0x01)
        } else if pending & 0x02 != 0 {
            (0x48, 0x02)
        } else if pending & 0x04 != 0 {
            (0x50, 0x04)
        } else if pending & 0x08 != 0 {
            (0x58, 0x08)
        } else {
            (0x60, 0x10)
        };
        self.ime = false;
        self.rst(bus, vector);
        bus.write(Port::IF, iflags & !mask);
        20
    }

    /// Runs one step: wakes from HALT/STOP on a pending interrupt, services
    /// an interrupt when IME is set, or else runs one instruction. Returns
    /// the cycles consumed.
    pub fn tick<B: Bus>(&mut self, bus: &mut B) -> (cycles: usize)
        ensures
            cpu_step(*old(self), *old(bus), *final(self), *final(bus), cycles),
    {
        let iflags = bus.read(Port::IF);
        let ie = bus.read(Port::IE);
        let pending = ie & iflags & 0x1F;
        if self.halted || self.stopped {
            if pending == 0 {
                return 4;
            }
            self.halted = false;
            self.stopped = false;
        }
        if self.ime && pending != 0 {
            return self.dispatch(bus, iflags, pending);
        }
        if self.ei_pending {
            self.ime = true;
            self.ei_pending = false;
        }
        let opcode = self.fetch(bus);
        self.execute(bus, opcode)
    }

    fn condition(&self, condition: Condition) -> (r: bool)
        ensures
            r == self.condition_holds(condition),
    {
        match condition {
            Condition::Zero => self.zf,
            Condition::NotZero => !self.zf,
            Condition::Carry => self.cf,
            Condition::NotCarry => !self.cf,
        }
    }
}

} // verus!
