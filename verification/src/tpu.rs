//! The timer: the free-running divider and the TIMA counter behind
//! 0xFF04..=0xFF07.

use vstd::prelude::*;

verus! {

pub const DIV_ADDRESS: u16 = 0xFF04;

pub const TIMA_ADDRESS: u16 = 0xFF05;

pub const TMA_ADDRESS: u16 = 0xFF06;

pub const TAC_ADDRESS: u16 = 0xFF07;

/// Timer state. It has no invariant: every combination of values is a state
/// the hardware can be in, so the struct is its own model.
#[derive(Clone, Copy, Debug, PartialEq, Eq, Structural)]
pub struct Timer {
    /// The 16-bit divider, counting clock cycles; DIV is its high byte.
    pub div: u16,
    pub tima: u8,
    pub tma: u8,
    pub tac: u8,
}

/// The divider bit whose falling edge clocks TIMA, as a mask, chosen by the
/// two low bits of TAC: bit 9, 3, 5 or 7.
pub open spec fn selected_mask(tac: u8) -> u16 {
    if tac & 3 == 0 {
        0x200
    } else if tac & 3 == 1 {
        0x008
    } else if tac & 3 == 2 {
        0x020
    } else {
        0x080
    }
}

/// Bit 2 of TAC switches TIMA on.
pub open spec fn enabled(tac: u8) -> bool {
    tac & 4 != 0
}

/// The selected divider bit goes from 1 to 0 between `before` and `after`.
pub open spec fn falling_edge(tac: u8, before: u16, after: u16) -> bool {
    before & selected_mask(tac) != 0 && after & selected_mask(tac) == 0
}

impl Timer {
    /// TIMA advanced by one: at 0xFF it reloads from TMA.
    pub open spec fn count(self) -> Timer {
        Timer { tima: if self.tima == 0xFF { self.tma } else { (self.tima + 1) as u8 }, ..self }
    }

    /// A TIMA advance overflows, and requests the timer interrupt, at 0xFF.
    pub open spec fn overflows(self) -> bool {
        self.tima == 0xFF
    }

    /// The divider set to `div`; TIMA counts if that is a falling edge of the
    /// selected bit while the timer is on. The flag says whether it overflowed.
    pub open spec fn with_div(self, div: u16) -> (Timer, bool) {
        if enabled(self.tac) && falling_edge(self.tac, self.div, div) {
            (Timer { div, ..self }.count(), self.overflows())
        } else {
            (Timer { div, ..self }, false)
        }
    }

    /// One clock cycle: the divider goes up by one, wrapping at 16 bits.
    pub open spec fn ticked(self) -> (Timer, bool) {
        self.with_div(if self.div == 0xFFFF { 0u16 } else { (self.div + 1) as u16 })
    }

    /// `n` clock cycles; the flag says whether any of them overflowed TIMA.
    pub open spec fn ticked_n(self, n: nat) -> (Timer, bool)
        decreases n,
    {
        if n == 0 {
            (self, false)
        } else {
            let (before, early) = self.ticked_n((n - 1) as nat);
            let (after, late) = before.ticked();
            (after, early || late)
        }
    }

    /// `n` machine cycles of four clock cycles each.
    pub open spec fn advanced(self, n: nat) -> (Timer, bool) {
        self.ticked_n(4 * n)
    }

    /// A write to a timer register. Any write to DIV clears the divider,
    /// which clocks TIMA if the selected bit was set; the others store the
    /// value; an address outside the timer changes nothing.
    pub open spec fn written(self, address: u16, value: u8) -> (Timer, bool) {
        if address == DIV_ADDRESS {
            self.with_div(0)
        } else if address == TIMA_ADDRESS {
            (Timer { tima: value, ..self }, false)
        } else if address == TMA_ADDRESS {
            (Timer { tma: value, ..self }, false)
        } else if address == TAC_ADDRESS {
            (Timer { tac: value, ..self }, false)
        } else {
            (self, false)
        }
    }

    /// What a read of a timer register returns: DIV is the divider's high
    /// byte; an address outside the timer reads as 0xFF.
    pub open spec fn value_at(self, address: u16) -> u8 {
        if address == DIV_ADDRESS {
            (self.div >> 8) as u8
        } else if address == TIMA_ADDRESS {
            self.tima
        } else if address == TMA_ADDRESS {
            self.tma
        } else if address == TAC_ADDRESS {
            self.tac
        } else {
            0xFF
        }
    }

    /// The divider counts every clock cycle, wrapping at 16 bits.
    pub proof fn lemma_divider_ticks(self, n: nat)
        ensures
            self.ticked_n(n).0.div == (self.div + n) % 0x10000,
        decreases n,
    {
        if n > 0 {
            self.lemma_divider_ticks((n - 1) as nat);
        }
    }

    /// The divider goes up by four in each machine cycle, wrapping at 16
    /// bits.
    pub proof fn lemma_divider(self, n: nat)
        ensures
            self.advanced(n).0.div == (self.div + 4 * n) % 0x10000,
    {
        self.lemma_divider_ticks(4 * n);
    }

    /// While the timer is switched off, TIMA stands still and no interrupt
    /// is requested, however long the divider runs.
    pub proof fn lemma_switched_off(self, n: nat)
        requires
            !enabled(self.tac),
        ensures
            !self.ticked_n(n).1,
            self.ticked_n(n).0.tima == self.tima,
            self.ticked_n(n).0.tma == self.tma,
            self.ticked_n(n).0.tac == self.tac,
        decreases n,
    {
        if n > 0 {
            self.lemma_switched_off((n - 1) as nat);
        }
    }

    /// The timer as the boot ROM leaves it.
    pub fn new() -> (timer: Timer)
        ensures
            timer == (Timer { div: 0xAC00, tima: 0, tma: 0, tac: 0 }),
    {
        Timer { div: 0xAC00, tima: 0, tma: 0, tac: 0 }
    }

    fn mask(&self) -> (mask: u16)
        ensures
            mask == selected_mask(self.tac),
    {
        match self.tac & 3 {
            0 => 0x200,
            1 => 0x008,
            2 => 0x020,
            _ => 0x080,
        }
    }

    fn set_div(&mut self, div: u16) -> (request: bool)
        ensures
            (*final(self), request) == old(self).with_div(div),
    {
        let mask = self.mask();
        let clocked = (self.tac & 4) != 0 && (self.div & mask) != 0 && (div & mask) == 0;
        self.div = div;
        if clocked {
            if self.tima == 0xFF {
                self.tima = self.tma;
                true
            } else {
                self.tima = self.tima + 1;
                false
            }
        } else {
            false
        }
    }

    /// Advances the timer by one clock cycle and says whether the timer
    /// interrupt is requested.
    pub fn tick(&mut self) -> (request: bool)
        ensures
            (*final(self), request) == old(self).ticked(),
    {
        let div = self.div.wrapping_add(1);
        self.set_div(div)
    }

    /// Advances the timer by `n` machine cycles and says whether the timer
    /// interrupt was requested on the way.
    pub fn emu_cycles(&mut self, n: u8) -> (request: bool)
        ensures
            (*final(self), request) == old(self).advanced(n as nat),
    {
        let total: u32 = 4 * (n as u32);
        let mut done: u32 = 0;
        let mut request = false;
        while done < total
            invariant
                done <= total,
                total == 4 * n,
                (*self, request) == old(self).ticked_n(done as nat),
            decreases total - done,
        {
            let late = self.tick();
            request = request || late;
            done = done + 1;
        }
        request
    }

    /// Writes a timer register and says whether the timer interrupt is
    /// requested by it.
    pub fn write(&mut self, address: u16, value: u8) -> (request: bool)
        ensures
            (*final(self), request) == old(self).written(address, value),
    {
        match address {
            0xFF04 => self.set_div(0),
            0xFF05 => {
                self.tima = value;
                false
            },
            0xFF06 => {
                self.tma = value;
                false
            },
            0xFF07 => {
                self.tac = value;
                false
            },
            _ => false,
        }
    }

    /// Reads a timer register.
    pub fn read(&self, address: u16) -> (value: u8)
        ensures
            value == self.value_at(address),
    {
        match address {
            0xFF04 => (self.div >> 8) as u8,
            0xFF05 => self.tima,
            0xFF06 => self.tma,
            0xFF07 => self.tac,
            _ => 0xFF,
        }
    }
}

} // verus!
