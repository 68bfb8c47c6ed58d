//! The memory bus: one 16-bit address space over the cartridge, work RAM,
//! high RAM, the IO registers and the interrupt-enable register.

use vstd::prelude::*;
use crate::cartridge::{zeroed, Cartridge, CartridgeView};
use crate::tpu::Timer;

verus! {

/// Work RAM covers 0xC000..=0xDFFF.
pub const WRAM_LEN: usize = 0x2000;

/// High RAM covers 0xFF80..=0xFFFE.
pub const HRAM_LEN: usize = 0x7F;

pub const SERIAL_DATA_ADDRESS: u16 = 0xFF01;

pub const SERIAL_CONTROL_ADDRESS: u16 = 0xFF02;

pub const INT_FLAGS_ADDRESS: u16 = 0xFF0F;

/// The 16-bit word with the given high and low byte.
pub open spec fn word_of(hi: u8, lo: u8) -> u16 {
    (hi * 256 + lo) as u16
}

/// The high byte of a word.
pub open spec fn high_of(word: u16) -> u8 {
    (word / 256) as u8
}

/// The low byte of a word.
pub open spec fn low_of(word: u16) -> u8 {
    (word % 256) as u8
}

/// The address after `address`, wrapping from 0xFFFF to 0.
pub open spec fn next_address(address: u16) -> u16 {
    if address == 0xFFFF {
        0
    } else {
        (address + 1) as u16
    }
}

/// Makes a word of its high and low byte.
pub fn word(hi: u8, lo: u8) -> (word: u16)
    ensures
        word == word_of(hi, lo),
{
    (hi as u16) * 256 + (lo as u16)
}

/// The high byte of a word.
pub fn high(word: u16) -> (hi: u8)
    ensures
        hi == high_of(word),
{
    (word / 256) as u8
}

/// The low byte of a word.
pub fn low(word: u16) -> (lo: u8)
    ensures
        lo == low_of(word),
{
    (word % 256) as u8
}

/// A word is made of its two bytes, and the bytes of a made word are those
/// it was made of.
pub proof fn lemma_word_bytes(hi: u8, lo: u8, word: u16)
    ensures
        high_of(word_of(hi, lo)) == hi,
        low_of(word_of(hi, lo)) == lo,
        word_of(high_of(word), low_of(word)) == word,
{
}

/// The model of the two RAM areas.
pub struct RamView {
    pub wram: Seq<u8>,
    pub hram: Seq<u8>,
}

/// Work RAM and high RAM.
pub struct RAM {
    wram: Vec<u8>,
    hram: Vec<u8>,
}

impl View for RAM {
    type V = RamView;

    closed spec fn view(&self) -> RamView {
        RamView { wram: self.wram@, hram: self.hram@ }
    }
}

impl RamView {
    pub open spec fn wf(self) -> bool {
        self.wram.len() == WRAM_LEN && self.hram.len() == HRAM_LEN
    }
}

impl RAM {
    /// Both areas filled with zeros.
    pub fn new() -> (ram: RAM)
        ensures
            ram@.wf(),
            ram@.wram == Seq::new(WRAM_LEN as nat, |i: int| 0u8),
            ram@.hram == Seq::new(HRAM_LEN as nat, |i: int| 0u8),
    {
        RAM { wram: zeroed(WRAM_LEN), hram: zeroed(HRAM_LEN) }
    }

    /// Reads work RAM at an address of 0xC000..=0xDFFF.
    pub fn wram_read(&self, address: u16) -> (value: u8)
        requires
            self@.wf(),
            0xC000 <= address < 0xE000,
        ensures
            value == self@.wram[address - 0xC000],
    {
        let address = address - 0xC000;
        self.wram[address as usize]
    }

    /// Writes work RAM at an address of 0xC000..=0xDFFF.
    pub fn wram_write(&mut self, address: u16, value: u8)
        requires
            old(self)@.wf(),
            0xC000 <= address < 0xE000,
        ensures
            final(self)@ == (RamView {
                wram: old(self)@.wram.update(address - 0xC000, value),
                ..old(self)@
            }),
    {
        let address = address - 0xC000;
        self.wram.set(address as usize, value);
    }

    /// Reads high RAM at an address of 0xFF80..=0xFFFE.
    pub fn hram_read(&self, address: u16) -> (value: u8)
        requires
            self@.wf(),
            0xFF80 <= address <= 0xFFFE,
        ensures
            value == self@.hram[address - 0xFF80],
    {
        let address = address - 0xFF80;
        self.hram[address as usize]
    }

    /// Writes high RAM at an address of 0xFF80..=0xFFFE.
    pub fn hram_write(&mut self, address: u16, value: u8)
        requires
            old(self)@.wf(),
            0xFF80 <= address <= 0xFFFE,
        ensures
            final(self)@ == (RamView {
                hram: old(self)@.hram.update(address - 0xFF80, value),
                ..old(self)@
            }),
    {
        let address = address - 0xFF80;
        self.hram.set(address as usize, value);
    }
}

/// The model of the bus: everything a read can see and a write can change.
pub struct BusView {
    pub cartridge: CartridgeView,
    pub ram: RamView,
    /// IE, at 0xFFFF.
    pub ie_register: u8,
    /// IF, at 0xFF0F.
    pub int_flags: u8,
    /// The serial data byte, at 0xFF01.
    pub serial_data: u8,
    /// The serial control byte, at 0xFF02.
    pub serial_control: u8,
    pub timer: Timer,
    /// Machine cycles that have passed since the bus was made.
    pub elapsed: nat,
}

impl BusView {
    pub open spec fn wf(self) -> bool {
        self.cartridge.wf() && self.ram.wf()
    }

    /// What a read of an IO register returns. A register that is not
    /// implemented reads as 0xFF.
    pub open spec fn io_read(self, address: u16) -> u8 {
        if address == SERIAL_DATA_ADDRESS {
            self.serial_data
        } else if address == SERIAL_CONTROL_ADDRESS {
            self.serial_control
        } else if 0xFF04 <= address <= 0xFF07 {
            self.timer.value_at(address)
        } else if address == INT_FLAGS_ADDRESS {
            self.int_flags
        } else {
            0xFF
        }
    }

    /// The bus after a write to an IO register. A timer interrupt that the
    /// write sets off is added to IF. A write to a register that is not
    /// implemented is dropped.
    pub open spec fn io_write(self, address: u16, value: u8) -> BusView {
        if address == SERIAL_DATA_ADDRESS {
            BusView { serial_data: value, ..self }
        } else if address == SERIAL_CONTROL_ADDRESS {
            BusView { serial_control: value, ..self }
        } else if 0xFF04 <= address <= 0xFF07 {
            self.with_timer(self.timer.written(address, value))
        } else if address == INT_FLAGS_ADDRESS {
            BusView { int_flags: value, ..self }
        } else {
            self
        }
    }

    /// The bus with a new timer state, and the timer bit added to IF if the
    /// timer asks for its interrupt.
    pub open spec fn with_timer(self, outcome: (Timer, bool)) -> BusView {
        BusView {
            timer: outcome.0,
            int_flags: if outcome.1 {
                self.int_flags | crate::interrupts::TIMER
            } else {
                self.int_flags
            },
            ..self
        }
    }

    /// The byte a read of `address` returns.
    #[verifier::opaque]
    pub open spec fn read(self, address: u16) -> u8 {
        if address < 0x8000 {
            self.cartridge.read(address)
        } else if address < 0xA000 {
            0xFF
        } else if address < 0xC000 {
            self.cartridge.read(address)
        } else if address < 0xE000 {
            self.ram.wram[address - 0xC000]
        } else if address < 0xFE00 {
            self.ram.wram[address - 0xE000]
        } else if address < 0xFF00 {
            0xFF
        } else if address < 0xFF80 {
            self.io_read(address)
        } else if address == 0xFFFF {
            self.ie_register
        } else {
            self.ram.hram[address - 0xFF80]
        }
    }

    /// The bus after `value` is written to `address`.
    #[verifier::opaque]
    pub open spec fn write(self, address: u16, value: u8) -> BusView {
        if address < 0x8000 {
            BusView { cartridge: self.cartridge.write(address, value), ..self }
        } else if address < 0xA000 {
            self
        } else if address < 0xC000 {
            BusView { cartridge: self.cartridge.write(address, value), ..self }
        } else if address < 0xE000 {
            BusView {
                ram: RamView { wram: self.ram.wram.update(address - 0xC000, value), ..self.ram },
                ..self
            }
        } else if address < 0xFE00 {
            BusView {
                ram: RamView { wram: self.ram.wram.update(address - 0xE000, value), ..self.ram },
                ..self
            }
        } else if address < 0xFF00 {
            self
        } else if address < 0xFF80 {
            self.io_write(address, value)
        } else if address == 0xFFFF {
            BusView { ie_register: value, ..self }
        } else {
            BusView {
                ram: RamView { hram: self.ram.hram.update(address - 0xFF80, value), ..self.ram },
                ..self
            }
        }
    }

    /// The little-endian word at `address` and the address after it.
    pub open spec fn read16(self, address: u16) -> u16 {
        word_of(self.read(next_address(address)), self.read(address))
    }

    /// The bus after a word is written to `address`, little-endian: first
    /// the high byte to the address after it, then the low byte.
    pub open spec fn write16(self, address: u16, value: u16) -> BusView {
        self.write(next_address(address), high_of(value)).write(address, low_of(value))
    }

    /// The bus after `n` machine cycles have passed.
    #[verifier::opaque]
    pub open spec fn advanced(self, n: nat) -> BusView {
        BusView { elapsed: self.elapsed + n, ..self.with_timer(self.timer.advanced(n)) }
    }

    /// The interrupts that are both requested and enabled.
    pub open spec fn pending(self) -> u8 {
        self.int_flags & self.ie_register & 0x1F
    }
}

/// A read in the echo area returns what a read of the echoed work RAM
/// address returns.
pub proof fn lemma_echo_read(bus: BusView, address: u16)
    requires
        0xE000 <= address <= 0xFDFF,
    ensures
        bus.read(address) == bus.read((address - 0x2000) as u16),
{
    reveal(BusView::read);
}

/// A write in the echo area changes the bus as a write of the same byte to
/// the echoed work RAM address does, so each is seen through the other.
pub proof fn lemma_echo_write(bus: BusView, address: u16, value: u8)
    requires
        0xE000 <= address <= 0xFDFF,
    ensures
        bus.write(address, value) == bus.write((address - 0x2000) as u16, value),
{
    reveal(BusView::write);
}

/// The address lies in work RAM, in its echo or in high RAM.
pub open spec fn is_ram(address: u16) -> bool {
    0xC000 <= address <= 0xFDFF || 0xFF80 <= address <= 0xFFFE
}

/// Two addresses name the same byte of RAM: they are equal, or one is the
/// echo of the other.
pub open spec fn same_cell(first: u16, second: u16) -> bool {
    first == second || (0xC000 <= first <= 0xDDFF && second == first + 0x2000) || (0xC000
        <= second <= 0xDDFF && first == second + 0x2000)
}

/// A byte written to RAM is read back from the same address, and from
/// nowhere else in RAM but its echo; the write changes nothing but RAM.
pub proof fn lemma_ram_write(bus: BusView, address: u16, value: u8, other: u16)
    requires
        bus.wf(),
        is_ram(address),
    ensures
        bus.write(address, value).wf(),
        bus.write(address, value).read(address) == value,
        is_ram(other) && !same_cell(address, other) ==> bus.write(address, value).read(other)
            == bus.read(other),
        other < 0x8000 ==> bus.write(address, value).read(other) == bus.read(other),
        bus.write(address, value) == (BusView { ram: bus.write(address, value).ram, ..bus }),
{
    reveal(BusView::read);
    reveal(BusView::write);
}

/// Passing time changes nothing on the bus but the clock, the timer and, if
/// the timer asks for its interrupt, the timer bit of IF. Neither RAM nor ROM is read
/// differently afterwards.
pub proof fn lemma_advanced(bus: BusView, n: nat, address: u16)
    requires
        bus.wf(),
    ensures
        bus.advanced(n).wf(),
        bus.advanced(n) == (BusView {
            timer: bus.timer.advanced(n).0,
            int_flags: bus.advanced(n).int_flags,
            elapsed: bus.elapsed + n,
            ..bus
        }),
        bus.advanced(n).int_flags == bus.int_flags || bus.advanced(n).int_flags == bus.int_flags
            | crate::interrupts::TIMER,
        !bus.timer.advanced(n).1 ==> bus.advanced(n).int_flags == bus.int_flags,
        is_ram(address) || address < 0x8000 ==> bus.advanced(n).read(address) == bus.read(address),
{
    reveal(BusView::read);
    reveal(BusView::advanced);
}

/// The bus with all that hangs on it: cartridge, RAM, timer and the
/// interrupt registers.
pub struct Bus {
    cartridge: Cartridge,
    ram: RAM,
    ie_register: u8,
    int_flags: u8,
    serial_data: u8,
    serial_control: u8,
    timer: Timer,
    elapsed: Ghost<nat>,
}

impl View for Bus {
    type V = BusView;

    closed spec fn view(&self) -> BusView {
        BusView {
            cartridge: self.cartridge@,
            ram: self.ram@,
            ie_register: self.ie_register,
            int_flags: self.int_flags,
            serial_data: self.serial_data,
            serial_control: self.serial_control,
            timer: self.timer,
            elapsed: self.elapsed@,
        }
    }
}

impl Bus {
    pub closed spec fn wf(&self) -> bool {
        self.cartridge.wf() && self.ram@.wf()
    }

    /// A well-formed bus has a well-formed model.
    pub proof fn lemma_wf(&self)
        requires
            self.wf(),
        ensures
            self@.wf(),
    {
        self.cartridge.lemma_wf();
    }

    /// A bus around `cartridge`, with zeroed RAM, cleared registers and a
    /// timer in its state after the boot ROM.
    pub fn init(cartridge: Cartridge) -> (bus: Bus)
        requires
            cartridge.wf(),
        ensures
            bus.wf(),
            bus@ == (BusView {
                cartridge: cartridge@,
                ram: RamView {
                    wram: Seq::new(WRAM_LEN as nat, |i: int| 0u8),
                    hram: Seq::new(HRAM_LEN as nat, |i: int| 0u8),
                },
                ie_register: 0,
                int_flags: 0,
                serial_data: 0,
                serial_control: 0,
                timer: Timer { div: 0xAC00, tima: 0, tma: 0, tac: 0 },
                elapsed: 0,
            }),
    {
        Bus::from(cartridge)
    }

    fn from(cartridge: Cartridge) -> (bus: Bus)
        requires
            cartridge.wf(),
        ensures
            bus.wf(),
            bus@ == (BusView {
                cartridge: cartridge@,
                ram: RamView {
                    wram: Seq::new(WRAM_LEN as nat, |i: int| 0u8),
                    hram: Seq::new(HRAM_LEN as nat, |i: int| 0u8),
                },
                ie_register: 0,
                int_flags: 0,
                serial_data: 0,
                serial_control: 0,
                timer: Timer { div: 0xAC00, tima: 0, tma: 0, tac: 0 },
                elapsed: 0,
            }),
    {
        let ram = RAM::new();
        Bus {
            cartridge,
            ram,
            ie_register: 0,
            int_flags: 0,
            serial_data: 0,
            serial_control: 0,
            timer: Timer::new(),
            elapsed: Ghost(0),
        }
    }

    /// Reads the byte at `address`.
    pub fn read(&self, address: u16) -> (value: u8)
        requires
            self.wf(),
        ensures
            value == self@.read(address),
    {
        reveal(BusView::read);
        if address < 0x8000 {
            self.cartridge.read(address)
        } else if address < 0xA000 {
            0xFF
        } else if address < 0xC000 {
            self.cartridge.read(address)
        } else if address < 0xE000 {
            self.ram.wram_read(address)
        } else if address < 0xFE00 {
            self.ram.wram_read(address - 0x2000)
        } else if address < 0xFF00 {
            0xFF
        } else if address < 0xFF80 {
            self.io_read(address)
        } else if address == 0xFFFF {
            self.ie_register
        } else {
            self.ram.hram_read(address)
        }
    }

    /// Writes `value` to `address`; what cannot be written drops it.
    pub fn write(&mut self, address: u16, value: u8)
        requires
            old(self).wf(),
        ensures
            final(self).wf(),
            final(self)@ == old(self)@.write(address, value),
    {
        reveal(BusView::write);
        if address < 0x8000 {
            self.cartridge.write(address, value)
        } else if address < 0xA000 {
        } else if address < 0xC000 {
            self.cartridge.write(address, value)
        } else if address < 0xE000 {
            self.ram.wram_write(address, value)
        } else if address < 0xFE00 {
            self.ram.wram_write(address - 0x2000, value)
        } else if address < 0xFF00 {
        } else if address < 0xFF80 {
            self.io_write(address, value)
        } else if address == 0xFFFF {
            self.ie_register = value;
        } else {
            self.ram.hram_write(address, value)
        }
    }

    fn io_write(&mut self, address: u16, value: u8)
        requires
            old(self).wf(),
        ensures
            final(self).wf(),
            final(self)@ == old(self)@.io_write(address, value),
    {
        if address == 0xFF01 {
            self.serial_data = value;
            return ;
        }
        if address == 0xFF02 {
            self.serial_control = value;
            return ;
        }
        if (0xFF04 <= address) && (address <= 0xFF07) {
            if self.timer.write(address, value) {
                self.int_flags = self.int_flags | crate::interrupts::TIMER;
            }
            return ;
        }
        if address == 0xFF0F {
            self.int_flags = value;
            return ;
        }
    }

    fn io_read(&self, address: u16) -> (value: u8)
        ensures
            value == self@.io_read(address),
    {
        if address == 0xFF01 {
            return self.serial_data;
        }
        if address == 0xFF02 {
            return self.serial_control;
        }
        if (0xFF04 <= address) && (address <= 0xFF07) {
            return self.timer.read(address);
        }
        if address == 0xFF0F {
            return self.int_flags;
        }
        0xFF
    }

    /// Reads the little-endian word at `address`.
    pub fn read16(&self, address: u16) -> (value: u16)
        requires
            self.wf(),
        ensures
            value == self@.read16(address),
    {
        let lo = self.read(address);
        let hi = self.read(address.wrapping_add(1));
        word(hi, lo)
    }

    /// Writes a little-endian word to `address`, high byte first.
    pub fn write16(&mut self, address: u16, value: u16)
        requires
            old(self).wf(),
        ensures
            final(self).wf(),
            final(self)@ == old(self)@.write16(address, value),
    {
        self.write(address.wrapping_add(1), high(value));
        self.write(address, low(value));
    }

    /// Lets `n` machine cycles pass: the timer runs, and its interrupt
    /// request, if any, lands in IF.
    pub fn emu_cycles(&mut self, n: u8)
        requires
            old(self).wf(),
        ensures
            final(self).wf(),
            final(self)@ == old(self)@.advanced(n as nat),
    {
        reveal(BusView::advanced);
        if self.timer.emu_cycles(n) {
            self.int_flags = self.int_flags | crate::interrupts::TIMER;
        }
        self.elapsed = Ghost(self.elapsed@ + n as nat);
    }

    /// Adds the given request bits to IF.
    pub fn request_interrupt(&mut self, bits: u8)
        requires
            old(self).wf(),
        ensures
            final(self).wf(),
            final(self)@ == (BusView { int_flags: old(self)@.int_flags | bits, ..old(self)@ }),
    {
        self.int_flags = self.int_flags | bits;
    }

    /// Takes the given request bits out of IF.
    pub fn acknowledge_interrupt(&mut self, bits: u8)
        requires
            old(self).wf(),
        ensures
            final(self).wf(),
            final(self)@ == (BusView { int_flags: old(self)@.int_flags & !bits, ..old(self)@ }),
    {
        self.int_flags = self.int_flags & !bits;
    }

    /// The interrupts that are both requested and enabled.
    pub fn pending(&self) -> (bits: u8)
        ensures
            bits == self@.pending(),
    {
        self.int_flags & self.ie_register & 0x1F
    }

    pub fn cartridge(&self) -> (cartridge: &Cartridge)
        requires
            self.wf(),
        ensures
            cartridge.wf(),
            cartridge@ == self@.cartridge,
    {
        &self.cartridge
    }

    pub fn timer(&self) -> (timer: Timer)
        ensures
            timer == self@.timer,
    {
        self.timer
    }
}

} // verus!
