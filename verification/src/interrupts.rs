//! The five interrupt sources and their request masks.

use vstd::prelude::*;

verus! {

/// The interrupt sources, in the order of their bits.
#[derive(Clone, Copy, Debug, PartialEq, Eq, Structural)]
pub enum Interrupt {
    VBlank,
    LCDStat,
    Timer,
    Serial,
    JoyPad,
}

pub const V_BLANK: u8 = 1;

pub const LCD_STRAT: u8 = 2;

pub const TIMER: u8 = 4;

pub const SERIAL: u8 = 8;

pub const JOY_PAD: u8 = 16;

/// Position of an interrupt's bit in IF and IE; a lower index is served first.
pub open spec fn index(interrupt: Interrupt) -> nat {
    match interrupt {
        Interrupt::VBlank => 0,
        Interrupt::LCDStat => 1,
        Interrupt::Timer => 2,
        Interrupt::Serial => 3,
        Interrupt::JoyPad => 4,
    }
}

/// The request mask of an interrupt: the bit at its index.
pub open spec fn mask(interrupt: Interrupt) -> u8 {
    match interrupt {
        Interrupt::VBlank => 1,
        Interrupt::LCDStat => 2,
        Interrupt::Timer => 4,
        Interrupt::Serial => 8,
        Interrupt::JoyPad => 16,
    }
}

/// The address of an interrupt's handler: 0x40 and eight more for each index.
pub open spec fn vector(interrupt: Interrupt) -> u16 {
    (0x40 + 8 * index(interrupt)) as u16
}

/// The request mask of an interrupt.
pub fn fetch_interrupt_num(interrupt: Interrupt) -> (num: u8)
    ensures
        num == mask(interrupt),
        num as nat == vstd::arithmetic::power2::pow2(index(interrupt)),
{
    proof {
        vstd::arithmetic::power2::lemma2_to64();
    }
    match interrupt {
        Interrupt::VBlank => V_BLANK,
        Interrupt::LCDStat => LCD_STRAT,
        Interrupt::Timer => TIMER,
        Interrupt::Serial => SERIAL,
        Interrupt::JoyPad => JOY_PAD,
    }
}

/// The handler address of an interrupt.
pub fn fetch_interrupt_vector(interrupt: Interrupt) -> (address: u16)
    ensures
        address == vector(interrupt),
{
    match interrupt {
        Interrupt::VBlank => 0x40,
        Interrupt::LCDStat => 0x48,
        Interrupt::Timer => 0x50,
        Interrupt::Serial => 0x58,
        Interrupt::JoyPad => 0x60,
    }
}

} // verus!
