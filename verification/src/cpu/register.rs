//! The register file: eight 8-bit registers, which pair up into AF, BC, DE
//! and HL, the stack pointer and the program counter.

use vstd::prelude::*;
use crate::bus::{high, high_of, low, low_of, word, word_of};
use crate::cpu::{bit, bit_set, with_bit};

verus! {

/// The names of the registers and register pairs.
#[derive(PartialEq, Eq, Structural, Debug, Clone, Copy)]
pub enum RegisterType {
    NONE,
    A,
    F,
    B,
    C,
    D,
    E,
    H,
    L,
    AF,
    BC,
    DE,
    HL,
    SP,
    PC,
}

impl RegisterType {
    /// The register is sixteen bits wide.
    pub open spec fn wide(self) -> bool {
        self == RegisterType::AF || self == RegisterType::BC || self == RegisterType::DE || self
            == RegisterType::HL || self == RegisterType::SP || self == RegisterType::PC
    }

    /// The register can be the operand of a bit operation: one of the seven
    /// 8-bit registers, or HL, which then stands for the byte at (HL).
    pub open spec fn is_operand(self) -> bool {
        self == RegisterType::B || self == RegisterType::C || self == RegisterType::D || self
            == RegisterType::E || self == RegisterType::H || self == RegisterType::L || self
            == RegisterType::HL || self == RegisterType::A
    }
}

/// The operand that a 3-bit field of an opcode selects: B, C, D, E, H, L,
/// (HL), A in this order. An index above 7 selects nothing.
pub open spec fn operand(index: u8) -> RegisterType {
    if index == 0 {
        RegisterType::B
    } else if index == 1 {
        RegisterType::C
    } else if index == 2 {
        RegisterType::D
    } else if index == 3 {
        RegisterType::E
    } else if index == 4 {
        RegisterType::H
    } else if index == 5 {
        RegisterType::L
    } else if index == 6 {
        RegisterType::HL
    } else if index == 7 {
        RegisterType::A
    } else {
        RegisterType::NONE
    }
}

/// The operand that a 3-bit field of an opcode selects.
pub fn reg_lookup(index: u8) -> (register: RegisterType)
    ensures
        register == operand(index),
        index <= 7 ==> register.is_operand(),
{
    match index {
        0 => RegisterType::B,
        1 => RegisterType::C,
        2 => RegisterType::D,
        3 => RegisterType::E,
        4 => RegisterType::H,
        5 => RegisterType::L,
        6 => RegisterType::HL,
        7 => RegisterType::A,
        _ => RegisterType::NONE,
    }
}

/// The four flags: zero, subtract, half-carry and carry.
#[derive(PartialEq, Eq, Structural, Debug, Clone, Copy)]
pub struct Flags {
    pub z: bool,
    pub n: bool,
    pub h: bool,
    pub c: bool,
}

impl Flags {
    /// The flags as the byte F: Z in bit 7, N in bit 6, H in bit 5, C in
    /// bit 4, and zeros below.
    pub open spec fn byte(self) -> u8 {
        (if self.z { 0x80u8 } else { 0u8 }) | (if self.n { 0x40u8 } else { 0u8 }) | (if self.h {
            0x20u8
        } else {
            0u8
        }) | (if self.c { 0x10u8 } else { 0u8 })
    }

    /// The flags held in the high nibble of a byte.
    pub open spec fn of(byte: u8) -> Flags {
        Flags {
            z: byte & 0x80 != 0,
            n: byte & 0x40 != 0,
            h: byte & 0x20 != 0,
            c: byte & 0x10 != 0,
        }
    }

    /// Packing flags into a byte and reading them back gives the same flags,
    /// and the low nibble of the byte is zero.
    pub proof fn lemma_byte(self)
        ensures
            Flags::of(self.byte()) == self,
            self.byte() & 0x0F == 0,
    {
        let z = if self.z { 0x80u8 } else { 0u8 };
        let n = if self.n { 0x40u8 } else { 0u8 };
        let h = if self.h { 0x20u8 } else { 0u8 };
        let c = if self.c { 0x10u8 } else { 0u8 };
        let byte = z | n | h | c;
        assert(byte & 0x80 == z && byte & 0x40 == n && byte & 0x20 == h && byte & 0x10 == c && byte
            & 0x0F == 0) by (bit_vector)
            requires
                byte == z | n | h | c,
                z == 0x80u8 || z == 0u8,
                n == 0x40u8 || n == 0u8,
                h == 0x20u8 || h == 0u8,
                c == 0x10u8 || c == 0u8,
        ;
    }

    /// A byte whose low nibble is zero is the packing of its flags.
    pub proof fn lemma_of(byte: u8)
        requires
            byte & 0x0F == 0,
        ensures
            Flags::of(byte).byte() == byte,
    {
        assert((if byte & 0x80 != 0 { 0x80u8 } else { 0u8 }) | (if byte & 0x40 != 0 {
            0x40u8
        } else {
            0u8
        }) | (if byte & 0x20 != 0 { 0x20u8 } else { 0u8 }) | (if byte & 0x10 != 0 {
            0x10u8
        } else {
            0u8
        }) == byte) by (bit_vector)
            requires
                byte & 0x0F == 0,
        ;
    }
}

/// The mask that keeps the flag bits of a byte.
pub const FLAG_BITS: u8 = 0xF0;

/// The register file. It is its own model.
#[derive(Debug, Clone, Copy, PartialEq, Eq, Structural)]
pub struct Register {
    pub a: u8,
    pub f: u8,
    pub b: u8,
    pub c: u8,
    pub d: u8,
    pub e: u8,
    pub h: u8,
    pub l: u8,
    pub sp: u16,
    pub pc: u16,
}

impl Register {
    /// The low nibble of F is zero.
    pub open spec fn wf(self) -> bool {
        self.f & 0x0F == 0
    }

    pub open spec fn flags(self) -> Flags {
        Flags::of(self.f)
    }

    /// The registers with F made of the given flags.
    pub open spec fn with_flags(self, flags: Flags) -> Register {
        Register { f: flags.byte(), ..self }
    }

    /// The value of a register; a pair is its first register times 256 plus
    /// its second; no register reads as 0.
    pub open spec fn read(self, register: RegisterType) -> u16 {
        match register {
            RegisterType::NONE => 0,
            RegisterType::A => self.a as u16,
            RegisterType::F => self.f as u16,
            RegisterType::B => self.b as u16,
            RegisterType::C => self.c as u16,
            RegisterType::D => self.d as u16,
            RegisterType::E => self.e as u16,
            RegisterType::H => self.h as u16,
            RegisterType::L => self.l as u16,
            RegisterType::AF => word_of(self.a, self.f),
            RegisterType::BC => word_of(self.b, self.c),
            RegisterType::DE => word_of(self.d, self.e),
            RegisterType::HL => word_of(self.h, self.l),
            RegisterType::SP => self.sp,
            RegisterType::PC => self.pc,
        }
    }

    /// The registers after `value` is written to one of them. An 8-bit
    /// register takes the low byte; a pair takes both bytes; F keeps only
    /// the flag bits; writing to no register changes nothing.
    pub open spec fn write(self, register: RegisterType, value: u16) -> Register {
        match register {
            RegisterType::NONE => self,
            RegisterType::A => Register { a: low_of(value), ..self },
            RegisterType::F => Register { f: low_of(value) & FLAG_BITS, ..self },
            RegisterType::B => Register { b: low_of(value), ..self },
            RegisterType::C => Register { c: low_of(value), ..self },
            RegisterType::D => Register { d: low_of(value), ..self },
            RegisterType::E => Register { e: low_of(value), ..self },
            RegisterType::H => Register { h: low_of(value), ..self },
            RegisterType::L => Register { l: low_of(value), ..self },
            RegisterType::AF => Register {
                a: high_of(value),
                f: low_of(value) & FLAG_BITS,
                ..self
            },
            RegisterType::BC => Register { b: high_of(value), c: low_of(value), ..self },
            RegisterType::DE => Register { d: high_of(value), e: low_of(value), ..self },
            RegisterType::HL => Register { h: high_of(value), l: low_of(value), ..self },
            RegisterType::SP => Register { sp: value, ..self },
            RegisterType::PC => Register { pc: value, ..self },
        }
    }

    /// Writing a register keeps the low nibble of F zero, and a register
    /// reads back what was written to it: an 8-bit register the low byte, F
    /// and AF without the low nibble.
    pub proof fn lemma_write(self, register: RegisterType, value: u16)
        requires
            self.wf(),
        ensures
            self.write(register, value).wf(),
            register.wide() && register != RegisterType::AF ==> self.write(register, value).read(
                register,
            ) == value,
            register == RegisterType::AF ==> self.write(register, value).read(register) == word_of(
                high_of(value),
                low_of(value) & FLAG_BITS,
            ),
            !register.wide() && register != RegisterType::F && register != RegisterType::NONE
                ==> self.write(register, value).read(register) == low_of(value),
    {
        let byte = low_of(value);
        assert((byte & 0xF0) & 0x0F == 0) by (bit_vector);
    }

    /// The post-boot state of a DMG.
    pub open spec fn boot() -> Register {
        Register {
            a: 0x01,
            f: 0xB0,
            b: 0x00,
            c: 0x13,
            d: 0x00,
            e: 0xD8,
            h: 0x01,
            l: 0x4D,
            sp: 0xFFFE,
            pc: 0x0100,
        }
    }

    /// The four flags as they stand in F.
    pub fn flags_now(&self) -> (flags: Flags)
        ensures
            flags == self.flags(),
    {
        Flags { z: self.z_flag(), n: self.n_flag(), h: self.h_flag(), c: self.c_flag() }
    }

    pub fn z_flag(&self) -> (on: bool)
        ensures
            on == self.flags().z,
    {
        assert(1u8 << 7u8 == 0x80u8) by (bit_vector);
        bit(self.f, 7)
    }

    pub fn n_flag(&self) -> (on: bool)
        ensures
            on == self.flags().n,
    {
        assert(1u8 << 6u8 == 0x40u8) by (bit_vector);
        bit(self.f, 6)
    }

    pub fn h_flag(&self) -> (on: bool)
        ensures
            on == self.flags().h,
    {
        assert(1u8 << 5u8 == 0x20u8) by (bit_vector);
        bit(self.f, 5)
    }

    pub fn c_flag(&self) -> (on: bool)
        ensures
            on == self.flags().c,
    {
        assert(1u8 << 4u8 == 0x10u8) by (bit_vector);
        bit(self.f, 4)
    }

    pub fn set_z(&mut self, on: bool)
        ensures
            *final(self) == (Register { f: with_bit(old(self).f, 7, on), ..*old(self) }),
            final(self).flags() == (Flags { z: on, ..old(self).flags() }),
            old(self).wf() ==> final(self).wf(),
    {
        let f = self.f;
        assert(Flags::of(with_bit(f, 7, on)) == (Flags { z: on, ..Flags::of(f) }) && (f & 0x0F == 0
            ==> with_bit(f, 7, on) & 0x0F == 0)) by {
            lemma_with_bit(f, 7, on);
        }
        self.f = bit_set(self.f, 7, on);
    }

    pub fn set_n(&mut self, on: bool)
        ensures
            *final(self) == (Register { f: with_bit(old(self).f, 6, on), ..*old(self) }),
            final(self).flags() == (Flags { n: on, ..old(self).flags() }),
            old(self).wf() ==> final(self).wf(),
    {
        let f = self.f;
        assert(Flags::of(with_bit(f, 6, on)) == (Flags { n: on, ..Flags::of(f) }) && (f & 0x0F == 0
            ==> with_bit(f, 6, on) & 0x0F == 0)) by {
            lemma_with_bit(f, 6, on);
        }
        self.f = bit_set(self.f, 6, on);
    }

    pub fn set_h(&mut self, on: bool)
        ensures
            *final(self) == (Register { f: with_bit(old(self).f, 5, on), ..*old(self) }),
            final(self).flags() == (Flags { h: on, ..old(self).flags() }),
            old(self).wf() ==> final(self).wf(),
    {
        let f = self.f;
        assert(Flags::of(with_bit(f, 5, on)) == (Flags { h: on, ..Flags::of(f) }) && (f & 0x0F == 0
            ==> with_bit(f, 5, on) & 0x0F == 0)) by {
            lemma_with_bit(f, 5, on);
        }
        self.f = bit_set(self.f, 5, on);
    }

    pub fn set_c(&mut self, on: bool)
        ensures
            *final(self) == (Register { f: with_bit(old(self).f, 4, on), ..*old(self) }),
            final(self).flags() == (Flags { c: on, ..old(self).flags() }),
            old(self).wf() ==> final(self).wf(),
    {
        let f = self.f;
        assert(Flags::of(with_bit(f, 4, on)) == (Flags { c: on, ..Flags::of(f) }) && (f & 0x0F == 0
            ==> with_bit(f, 4, on) & 0x0F == 0)) by {
            lemma_with_bit(f, 4, on);
        }
        self.f = bit_set(self.f, 4, on);
    }

    /// Sets the four flags, one after the other, and clears the low nibble
    /// of F.
    pub fn set_flags(&mut self, flags: Flags)
        ensures
            *final(self) == old(self).with_flags(flags),
            final(self).wf(),
    {
        self.f = self.f & FLAG_BITS;
        proof {
            let f = self.f;
            assert(f & 0x0F == 0) by (bit_vector)
                requires
                    exists|g: u8| f == g & 0xF0,
            ;
        }
        self.set_z(flags.z);
        self.set_n(flags.n);
        self.set_h(flags.h);
        self.set_c(flags.c);
        proof {
            Flags::lemma_of(self.f);
            flags.lemma_byte();
        }
    }

    /// Says whether a register is sixteen bits wide.
    pub fn is_16bit(&self, reg_type: &RegisterType) -> (wide: bool)
        ensures
            wide == reg_type.wide(),
    {
        match reg_type {
            RegisterType::AF
            | RegisterType::BC
            | RegisterType::DE
            | RegisterType::HL
            | RegisterType::SP
            | RegisterType::PC => true,
            _ => false,
        }
    }

    /// The value of a register.
    pub fn get(&self, register: RegisterType) -> (value: u16)
        ensures
            value == self.read(register),
    {
        match register {
            RegisterType::NONE => 0,
            RegisterType::A => self.a as u16,
            RegisterType::F => self.f as u16,
            RegisterType::B => self.b as u16,
            RegisterType::C => self.c as u16,
            RegisterType::D => self.d as u16,
            RegisterType::E => self.e as u16,
            RegisterType::H => self.h as u16,
            RegisterType::L => self.l as u16,
            RegisterType::AF => word(self.a, self.f),
            RegisterType::BC => word(self.b, self.c),
            RegisterType::DE => word(self.d, self.e),
            RegisterType::HL => word(self.h, self.l),
            RegisterType::SP => self.sp,
            RegisterType::PC => self.pc,
        }
    }

    /// Writes `value` to a register.
    pub fn set(&mut self, register: RegisterType, value: u16)
        ensures
            *final(self) == old(self).write(register, value),
            old(self).wf() ==> final(self).wf(),
    {
        proof {
            if self.wf() {
                self.lemma_write(register, value);
            }
        }
        match register {
            RegisterType::NONE => {},
            RegisterType::A => self.a = low(value),
            RegisterType::F => self.f = low(value) & FLAG_BITS,
            RegisterType::B => self.b = low(value),
            RegisterType::C => self.c = low(value),
            RegisterType::D => self.d = low(value),
            RegisterType::E => self.e = low(value),
            RegisterType::H => self.h = low(value),
            RegisterType::L => self.l = low(value),
            RegisterType::AF => {
                self.a = high(value);
                self.f = low(value) & FLAG_BITS;
            },
            RegisterType::BC => {
                self.b = high(value);
                self.c = low(value);
            },
            RegisterType::DE => {
                self.d = high(value);
                self.e = low(value);
            },
            RegisterType::HL => {
                self.h = high(value);
                self.l = low(value);
            },
            RegisterType::SP => self.sp = value,
            RegisterType::PC => self.pc = value,
        }
    }
}

/// Setting one of the four flag bits of a byte changes that flag alone and
/// keeps a zero low nibble zero.
proof fn lemma_with_bit(f: u8, n: u8, on: bool)
    requires
        4 <= n <= 7,
    ensures
        Flags::of(with_bit(f, n, on)) == (Flags {
            z: if n == 7 { on } else { Flags::of(f).z },
            n: if n == 6 { on } else { Flags::of(f).n },
            h: if n == 5 { on } else { Flags::of(f).h },
            c: if n == 4 { on } else { Flags::of(f).c },
        }),
        f & 0x0F == 0 ==> with_bit(f, n, on) & 0x0F == 0,
{
    let g = with_bit(f, n, on);
    let m = 1u8 << n;
    assert((n == 7 ==> m == 0x80) && (n == 6 ==> m == 0x40) && (n == 5 ==> m == 0x20) && (n == 4
        ==> m == 0x10)) by (bit_vector)
        requires
            m == 1u8 << n,
    ;
    assert((f | m) & m == m && (f & !m) & m == 0 && (m != 0x80 ==> (f | m) & 0x80 == f & 0x80 && (f
        & !m) & 0x80 == f & 0x80) && (m != 0x40 ==> (f | m) & 0x40 == f & 0x40 && (f & !m) & 0x40
        == f & 0x40) && (m != 0x20 ==> (f | m) & 0x20 == f & 0x20 && (f & !m) & 0x20 == f & 0x20)
        && (m != 0x10 ==> (f | m) & 0x10 == f & 0x10 && (f & !m) & 0x10 == f & 0x10) && (f & 0x0F
        == 0 ==> (f | m) & 0x0F == 0 && (f & !m) & 0x0F == 0)) by (bit_vector)
        requires
            m == 0x80 || m == 0x40 || m == 0x20 || m == 0x10,
    ;
}

} // verus!
