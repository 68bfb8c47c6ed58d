//! The arithmetic and logic unit: what each operation makes of its operands
//! and of the flags. Every operation is a function from values to a value
//! and four flags; a flag that an operation does not affect is passed on.

use vstd::prelude::*;
use crate::cpu::register::Flags;
use crate::cpu::{bit, bit_at, bit_set, offset, offset_address, with_bit};

verus! {

/// One if the flag is set, zero if not.
pub open spec fn carry_of(carry: bool) -> int {
    if carry {
        1
    } else {
        0
    }
}

/// ADD and ADC: `a + n + carry`. Z from the 8-bit result, N cleared, H on a
/// carry out of bit 3, C on a carry out of bit 7.
pub open spec fn add8(a: u8, n: u8, carry: bool) -> (u8, Flags) {
    let sum = a + n + carry_of(carry);
    (
        (sum % 256) as u8,
        Flags {
            z: sum % 256 == 0,
            n: false,
            h: (a % 16) + (n % 16) + carry_of(carry) > 0xF,
            c: sum > 0xFF,
        },
    )
}

/// SUB, SBC and CP: `a - n - carry`. Z from the 8-bit result, N set, H on a
/// borrow from bit 4, C on a borrow from bit 8.
pub open spec fn sub8(a: u8, n: u8, carry: bool) -> (u8, Flags) {
    let difference = a - n - carry_of(carry);
    (
        (difference % 256) as u8,
        Flags {
            z: difference % 256 == 0,
            n: true,
            h: (a % 16) < (n % 16) + carry_of(carry),
            c: a < n + carry_of(carry),
        },
    )
}

/// AND: Z from the result, H set, N and C cleared.
pub open spec fn and8(a: u8, n: u8) -> (u8, Flags) {
    (a & n, Flags { z: a & n == 0, n: false, h: true, c: false })
}

/// OR: Z from the result, the other flags cleared.
pub open spec fn or8(a: u8, n: u8) -> (u8, Flags) {
    (a | n, Flags { z: a | n == 0, n: false, h: false, c: false })
}

/// XOR: Z from the result, the other flags cleared.
pub open spec fn xor8(a: u8, n: u8) -> (u8, Flags) {
    (a ^ n, Flags { z: a ^ n == 0, n: false, h: false, c: false })
}

/// INC of a byte: Z from the result, N cleared, H on a carry out of bit 3,
/// C as it was.
pub open spec fn inc8(value: u8, flags: Flags) -> (u8, Flags) {
    let result = ((value + 1) % 256) as u8;
    (result, Flags { z: result == 0, n: false, h: result % 16 == 0, c: flags.c })
}

/// DEC of a byte: Z from the result, N set, H on a borrow from bit 4, C as
/// it was.
pub open spec fn dec8(value: u8, flags: Flags) -> (u8, Flags) {
    let result = ((value - 1) % 256) as u8;
    (result, Flags { z: result == 0, n: true, h: result % 16 == 0xF, c: flags.c })
}

/// ADD HL,rr: Z as it was, N cleared, H on a carry out of bit 11, C on a
/// carry out of bit 15.
pub open spec fn add16(a: u16, n: u16, flags: Flags) -> (u16, Flags) {
    (
        ((a + n) % 0x10000) as u16,
        Flags {
            z: flags.z,
            n: false,
            h: (a % 0x1000) + (n % 0x1000) > 0xFFF,
            c: a + n > 0xFFFF,
        },
    )
}

/// ADD SP,e8 and LD HL,SP+e8: SP moved by the signed offset. Z and N
/// cleared; H and C from adding the offset, as an unsigned byte, to the low
/// byte of SP: H on a carry out of bit 3, C on a carry out of bit 7.
pub open spec fn add_offset(sp: u16, e8: u8) -> (u16, Flags) {
    (
        offset_address(sp, e8),
        Flags {
            z: false,
            n: false,
            h: (sp % 16) + (e8 % 16) > 0xF,
            c: (sp % 256) + e8 > 0xFF,
        },
    )
}

/// Bit 7 of a byte.
pub open spec fn top_bit(value: u8) -> bool {
    value >= 0x80
}

/// Bit 0 of a byte.
pub open spec fn low_bit(value: u8) -> bool {
    value % 2 == 1
}

/// The flags after a rotate or shift: Z if asked for and the result is
/// zero, N and H cleared, C the bit that left.
pub open spec fn shifted(result: u8, zero: bool, carry: bool) -> (u8, Flags) {
    (result, Flags { z: zero && result == 0, n: false, h: false, c: carry })
}

/// Rotate left: bit 7 goes to bit 0 and to C.
pub open spec fn rlc(value: u8, zero: bool) -> (u8, Flags) {
    shifted(((value * 2) % 256 + carry_of(top_bit(value))) as u8, zero, top_bit(value))
}

/// Rotate right: bit 0 goes to bit 7 and to C.
pub open spec fn rrc(value: u8, zero: bool) -> (u8, Flags) {
    shifted((value / 2 + 0x80 * carry_of(low_bit(value))) as u8, zero, low_bit(value))
}

/// Rotate left through C: C goes to bit 0, bit 7 to C.
pub open spec fn rl(value: u8, carry: bool, zero: bool) -> (u8, Flags) {
    shifted(((value * 2) % 256 + carry_of(carry)) as u8, zero, top_bit(value))
}

/// Rotate right through C: C goes to bit 7, bit 0 to C.
pub open spec fn rr(value: u8, carry: bool, zero: bool) -> (u8, Flags) {
    shifted((value / 2 + 0x80 * carry_of(carry)) as u8, zero, low_bit(value))
}

/// Shift left: bit 0 becomes zero, bit 7 goes to C.
pub open spec fn sla(value: u8) -> (u8, Flags) {
    shifted(((value * 2) % 256) as u8, true, top_bit(value))
}

/// Arithmetic shift right: bit 7 stays, bit 0 goes to C.
pub open spec fn sra(value: u8) -> (u8, Flags) {
    shifted((value / 2 + 0x80 * carry_of(top_bit(value))) as u8, true, low_bit(value))
}

/// Logical shift right: bit 7 becomes zero, bit 0 goes to C.
pub open spec fn srl(value: u8) -> (u8, Flags) {
    shifted(value / 2, true, low_bit(value))
}

/// The two nibbles exchanged; C cleared.
pub open spec fn swap(value: u8) -> (u8, Flags) {
    shifted(((value % 16) * 16 + value / 16) as u8, true, false)
}

/// BIT b,r: Z set if the bit is clear, N cleared, H set, C as it was.
pub open spec fn bit_test(value: u8, index: u8, flags: Flags) -> Flags {
    Flags { z: !bit_at(value, index), n: false, h: true, c: flags.c }
}

/// What DAA adds to A, or takes from it after a subtraction, to make it a
/// two-digit decimal again: 6 for the low digit, 0x60 for the high one.
pub open spec fn decimal_adjustment(a: u8, flags: Flags) -> int {
    (if flags.h || (!flags.n && a % 16 > 9) { 6int } else { 0int }) + (if daa_carry(a, flags) {
        0x60int
    } else {
        0int
    })
}

/// C after DAA: set if it was, or if an addition left A above 0x99.
pub open spec fn daa_carry(a: u8, flags: Flags) -> bool {
    flags.c || (!flags.n && a > 0x99)
}

/// DAA: A adjusted to decimal; Z from the result, N as it was, H cleared.
pub open spec fn daa(a: u8, flags: Flags) -> (u8, Flags) {
    let adjusted = if flags.n {
        a - decimal_adjustment(a, flags)
    } else {
        a + decimal_adjustment(a, flags)
    };
    (
        (adjusted % 256) as u8,
        Flags { z: adjusted % 256 == 0, n: flags.n, h: false, c: daa_carry(a, flags) },
    )
}

/// CPL: every bit of A inverted; N and H set.
pub open spec fn cpl(a: u8, flags: Flags) -> (u8, Flags) {
    (!a, Flags { n: true, h: true, ..flags })
}

/// SCF: C set, N and H cleared.
pub open spec fn scf(flags: Flags) -> Flags {
    Flags { n: false, h: false, c: true, ..flags }
}

/// CCF: C inverted, N and H cleared.
pub open spec fn ccf(flags: Flags) -> Flags {
    Flags { n: false, h: false, c: !flags.c, ..flags }
}

pub fn add_bytes(a: u8, n: u8, carry: bool) -> (outcome: (u8, Flags))
    ensures
        outcome == add8(a, n, carry),
{
    let carry_in: u16 = if carry { 1 } else { 0 };
    let sum: u16 = (a as u16) + (n as u16) + carry_in;
    let half: u16 = ((a % 16) as u16) + ((n % 16) as u16) + carry_in;
    ((sum % 256) as u8, Flags { z: sum % 256 == 0, n: false, h: half > 0xF, c: sum > 0xFF })
}

pub fn subtract_bytes(a: u8, n: u8, carry: bool) -> (outcome: (u8, Flags))
    ensures
        outcome == sub8(a, n, carry),
{
    let carry_in: u16 = if carry { 1 } else { 0 };
    let taken: u16 = (n as u16) + carry_in;
    let result: u8 = if (a as u16) >= taken {
        ((a as u16) - taken) as u8
    } else {
        ((a as u16) + 256 - taken) as u8
    };
    (
        result,
        Flags {
            z: result == 0,
            n: true,
            h: ((a % 16) as u16) < ((n % 16) as u16) + carry_in,
            c: (a as u16) < taken,
        },
    )
}

pub fn and_bytes(a: u8, n: u8) -> (outcome: (u8, Flags))
    ensures
        outcome == and8(a, n),
{
    (a & n, Flags { z: a & n == 0, n: false, h: true, c: false })
}

pub fn or_bytes(a: u8, n: u8) -> (outcome: (u8, Flags))
    ensures
        outcome == or8(a, n),
{
    (a | n, Flags { z: a | n == 0, n: false, h: false, c: false })
}

pub fn xor_bytes(a: u8, n: u8) -> (outcome: (u8, Flags))
    ensures
        outcome == xor8(a, n),
{
    (a ^ n, Flags { z: a ^ n == 0, n: false, h: false, c: false })
}

pub fn increment(value: u8, flags: Flags) -> (outcome: (u8, Flags))
    ensures
        outcome == inc8(value, flags),
{
    let result = value.wrapping_add(1);
    (result, Flags { z: result == 0, n: false, h: result % 16 == 0, c: flags.c })
}

pub fn decrement(value: u8, flags: Flags) -> (outcome: (u8, Flags))
    ensures
        outcome == dec8(value, flags),
{
    let result = value.wrapping_sub(1);
    (result, Flags { z: result == 0, n: true, h: result % 16 == 0xF, c: flags.c })
}

pub fn add_wide(a: u16, n: u16, flags: Flags) -> (outcome: (u16, Flags))
    ensures
        outcome == add16(a, n, flags),
{
    let sum: u32 = (a as u32) + (n as u32);
    (
        (sum % 0x10000) as u16,
        Flags { z: flags.z, n: false, h: (a % 0x1000) + (n % 0x1000) > 0xFFF, c: sum > 0xFFFF },
    )
}

pub fn add_signed(sp: u16, e8: u8) -> (outcome: (u16, Flags))
    ensures
        outcome == add_offset(sp, e8),
{
    (
        offset(sp, e8),
        Flags {
            z: false,
            n: false,
            h: ((sp % 16) as u8) + (e8 % 16) > 0xF,
            c: (sp % 256) + (e8 as u16) > 0xFF,
        },
    )
}

fn shift_outcome(result: u8, zero: bool, carry: bool) -> (outcome: (u8, Flags))
    ensures
        outcome == shifted(result, zero, carry),
{
    (result, Flags { z: zero && result == 0, n: false, h: false, c: carry })
}

pub fn rotate_left(value: u8, zero: bool) -> (outcome: (u8, Flags))
    ensures
        outcome == rlc(value, zero),
{
    let out = value >= 0x80;
    shift_outcome(((value % 0x80) * 2) + (if out { 1 } else { 0 }), zero, out)
}

pub fn rotate_right(value: u8, zero: bool) -> (outcome: (u8, Flags))
    ensures
        outcome == rrc(value, zero),
{
    let out = value % 2 == 1;
    shift_outcome(value / 2 + (if out { 0x80 } else { 0 }), zero, out)
}

pub fn rotate_left_through(value: u8, carry: bool, zero: bool) -> (outcome: (u8, Flags))
    ensures
        outcome == rl(value, carry, zero),
{
    shift_outcome(((value % 0x80) * 2) + (if carry { 1 } else { 0 }), zero, value >= 0x80)
}

pub fn rotate_right_through(value: u8, carry: bool, zero: bool) -> (outcome: (u8, Flags))
    ensures
        outcome == rr(value, carry, zero),
{
    shift_outcome(value / 2 + (if carry { 0x80 } else { 0 }), zero, value % 2 == 1)
}

pub fn shift_left(value: u8) -> (outcome: (u8, Flags))
    ensures
        outcome == sla(value),
{
    shift_outcome((value % 0x80) * 2, true, value >= 0x80)
}

pub fn shift_right_arithmetic(value: u8) -> (outcome: (u8, Flags))
    ensures
        outcome == sra(value),
{
    shift_outcome(value / 2 + (if value >= 0x80 { 0x80 } else { 0 }), true, value % 2 == 1)
}

pub fn shift_right_logical(value: u8) -> (outcome: (u8, Flags))
    ensures
        outcome == srl(value),
{
    shift_outcome(value / 2, true, value % 2 == 1)
}

pub fn swap_nibbles(value: u8) -> (outcome: (u8, Flags))
    ensures
        outcome == swap(value),
{
    shift_outcome((value % 16) * 16 + value / 16, true, false)
}

pub fn test_bit(value: u8, index: u8, flags: Flags) -> (after: Flags)
    requires
        index < 8,
    ensures
        after == bit_test(value, index, flags),
{
    Flags { z: !bit(value, index), n: false, h: true, c: flags.c }
}

pub fn reset_bit(value: u8, index: u8) -> (result: u8)
    requires
        index < 8,
    ensures
        result == with_bit(value, index, false),
{
    bit_set(value, index, false)
}

pub fn set_bit(value: u8, index: u8) -> (result: u8)
    requires
        index < 8,
    ensures
        result == with_bit(value, index, true),
{
    bit_set(value, index, true)
}

pub fn decimal_adjust(a: u8, flags: Flags) -> (outcome: (u8, Flags))
    ensures
        outcome == daa(a, flags),
{
    let mut adjustment: u8 = 0;
    let mut carry = false;
    if flags.h || (!flags.n && a % 16 > 9) {
        adjustment = 6;
    }
    if flags.c || (!flags.n && a > 0x99) {
        adjustment = adjustment + 0x60;
        carry = true;
    }
    let result = if flags.n {
        a.wrapping_sub(adjustment)
    } else {
        a.wrapping_add(adjustment)
    };
    (result, Flags { z: result == 0, n: flags.n, h: false, c: carry })
}

pub fn complement(a: u8, flags: Flags) -> (outcome: (u8, Flags))
    ensures
        outcome == cpl(a, flags),
{
    (!a, Flags { z: flags.z, n: true, h: true, c: flags.c })
}

pub fn set_carry(flags: Flags) -> (after: Flags)
    ensures
        after == scf(flags),
{
    Flags { z: flags.z, n: false, h: false, c: true }
}

pub fn complement_carry(flags: Flags) -> (after: Flags)
    ensures
        after == ccf(flags),
{
    Flags { z: flags.z, n: false, h: false, c: !flags.c }
}

} // verus!
