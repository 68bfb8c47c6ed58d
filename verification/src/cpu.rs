//! The processor: its state, the model of that state, and the primitive
//! steps (register and memory access, the stack, the clock) out of which
//! address modes and actions are built.

use vstd::prelude::*;
use crate::bus::{high, high_of, low, low_of, next_address, word, word_of, Bus, BusView};
use crate::cpu::actions::Action;
use crate::cpu::conditions::ConditionType;
use crate::cpu::instructions::Instruction;
use crate::cpu::register::{Flags, Register, RegisterType};
use crate::interrupts::{self, Interrupt};

pub mod actions;
pub mod addresses;
pub mod alu;
pub mod conditions;
pub mod enabling;
pub mod instructions;
pub mod register;
pub mod shape;
pub mod stack;
pub mod timing;

verus! {

/// Bit `n` of `a` is set.
pub open spec fn bit_at(a: u8, n: u8) -> bool {
    a & (1u8 << n) != 0
}

/// `a` with bit `n` set or cleared.
pub open spec fn with_bit(a: u8, n: u8, on: bool) -> u8 {
    if on {
        a | (1u8 << n)
    } else {
        a & !(1u8 << n)
    }
}

/// The two bytes of a word exchanged.
pub open spec fn swapped(num: u16) -> u16 {
    word_of(low_of(num), high_of(num))
}

/// The address before `address`, wrapping from 0 to 0xFFFF.
pub open spec fn previous_address(address: u16) -> u16 {
    if address == 0 {
        0xFFFF
    } else {
        (address - 1) as u16
    }
}

/// An address moved by a signed 8-bit offset, given as the byte that encodes
/// it in two's complement; the result wraps at 16 bits.
pub open spec fn offset_address(address: u16, offset: u8) -> u16 {
    let moved = if offset < 0x80 {
        address + offset
    } else {
        address + offset - 0x100
    };
    (moved % 0x10000) as u16
}

/// Setting or clearing a bit changes that bit and no other, and putting the
/// bit back as it was gives the byte back.
pub proof fn lemma_with_bit(a: u8, n: u8, on: bool, other: u8)
    requires
        n < 8,
        other < 8,
    ensures
        bit_at(with_bit(a, n, on), n) == on,
        other != n ==> bit_at(with_bit(a, n, on), other) == bit_at(a, other),
        with_bit(with_bit(a, n, on), n, bit_at(a, n)) == a,
{
    let m = 1u8 << n;
    let o = 1u8 << other;
    assert((m == 1 || m == 2 || m == 4 || m == 8 || m == 16 || m == 32 || m == 64 || m == 128)
        && (other != n ==> m & o == 0)) by (bit_vector)
        requires
            m == 1u8 << n,
            o == 1u8 << other,
            n < 8,
            other < 8,
    ;
    assert((a | m) & m != 0 && (a & !m) & m == 0 && (m & o == 0 ==> (a | m) & o == a & o && (a
        & !m) & o == a & o) && (a & m != 0 ==> (a | m) | m == a && (a & !m) | m == a) && (a & m
        == 0 ==> (a | m) & !m == a && (a & !m) & !m == a)) by (bit_vector)
        requires
            m == 1 || m == 2 || m == 4 || m == 8 || m == 16 || m == 32 || m == 64 || m == 128,
    ;
}

/// Says whether bit `n` of `a` is set.
pub fn bit(a: u8, n: u8) -> (on: bool)
    requires
        n < 8,
    ensures
        on == bit_at(a, n),
{
    if (a & (1 << n)) != 0 {
        true
    } else {
        false
    }
}

/// Sets or clears bit `n` of `a`.
pub fn bit_set(a: u8, n: u8, on: bool) -> (b: u8)
    requires
        n < 8,
    ensures
        b == with_bit(a, n, on),
{
    if on {
        a | (1 << n)
    } else {
        a & !(1 << n)
    }
}

/// Exchanges the two bytes of a word.
pub fn reverse(num: u16) -> (reversed: u16)
    ensures
        reversed == swapped(num),
{
    assert(((num & 0xFF00) >> 8) | ((num & 0x00FF) << 8) == ((num % 256) * 256 + num / 256) as u16)
        by (bit_vector);
    ((num & 0xFF00) >> 8) | ((num & 0x00FF) << 8)
}

/// Moves an address by a signed 8-bit offset.
pub fn offset(address: u16, by: u8) -> (moved: u16)
    ensures
        moved == offset_address(address, by),
{
    if by < 0x80 {
        address.wrapping_add(by as u16)
    } else {
        address.wrapping_sub(0x100 - (by as u16))
    }
}

/// The model of the processor and of the bus it owns.
pub struct CpuView {
    pub register: Register,
    /// The operand that the address mode fetched.
    pub fetch_data: u16,
    /// Where the action writes, if it writes to memory.
    pub mem_dest: u16,
    pub dest_is_mem: bool,
    pub current_op_code: u8,
    pub instruction: Instruction,
    pub halted: bool,
    pub stopped: bool,
    /// IME.
    pub master_enabled: bool,
    /// An EI has asked for IME to be set after the next instruction.
    pub enabling_ime: bool,
    pub bus: BusView,
    /// The characters that the program has sent to the debug stream.
    pub debug_message: Seq<char>,
}

impl CpuView {
    pub open spec fn wf(self) -> bool {
        self.register.wf() && self.bus.wf()
    }

    /// `n` machine cycles pass.
    pub open spec fn charged(self, n: nat) -> CpuView {
        CpuView { bus: self.bus.advanced(n), ..self }
    }

    pub open spec fn with_register(self, register: RegisterType, value: u16) -> CpuView {
        CpuView { register: self.register.write(register, value), ..self }
    }

    pub open spec fn with_flags(self, flags: Flags) -> CpuView {
        CpuView { register: self.register.with_flags(flags), ..self }
    }

    pub open spec fn with_fetch_data(self, fetch_data: u16) -> CpuView {
        CpuView { fetch_data, ..self }
    }

    /// The action is to write to memory at `mem_dest`.
    pub open spec fn with_destination(self, mem_dest: u16) -> CpuView {
        CpuView { mem_dest, dest_is_mem: true, ..self }
    }

    /// The action is not to write to memory.
    pub open spec fn without_destination(self) -> CpuView {
        CpuView { mem_dest: 0, dest_is_mem: false, ..self }
    }

    /// A memory read takes one machine cycle, after the byte is taken.
    pub open spec fn after_read(self) -> CpuView {
        self.charged(1)
    }

    /// A memory write, and the machine cycle it takes.
    pub open spec fn stored(self, address: u16, value: u8) -> CpuView {
        CpuView { bus: self.bus.write(address, value), ..self }.charged(1)
    }

    /// A write of a word, low byte first, in two machine cycles.
    pub open spec fn stored16(self, address: u16, value: u16) -> CpuView {
        self.stored(address, low_of(value)).stored(next_address(address), high_of(value))
    }

    /// The byte at PC.
    pub open spec fn next_byte(self) -> u8 {
        self.bus.read(self.register.pc)
    }

    /// The byte at PC has been read: PC has moved on and a machine cycle has
    /// passed.
    pub open spec fn after_next_byte(self) -> CpuView {
        CpuView {
            register: Register { pc: next_address(self.register.pc), ..self.register },
            ..self.after_read()
        }
    }

    /// The little-endian word at PC, read byte by byte.
    pub open spec fn next_word(self) -> u16 {
        word_of(self.after_next_byte().next_byte(), self.next_byte())
    }

    pub open spec fn after_next_word(self) -> CpuView {
        self.after_next_byte().after_next_byte()
    }

    /// A byte pushed: SP goes down by one, then the byte is written there.
    pub open spec fn pushed(self, data: u8) -> CpuView {
        let sp = previous_address(self.register.sp);
        CpuView { register: Register { sp, ..self.register }, ..self }.stored(sp, data)
    }

    /// A word pushed, high byte first, so that the low byte lies at the
    /// lower address.
    pub open spec fn pushed16(self, data: u16) -> CpuView {
        self.pushed(high_of(data)).pushed(low_of(data))
    }

    /// The byte on top of the stack.
    pub open spec fn top(self) -> u8 {
        self.bus.read(self.register.sp)
    }

    /// A byte popped: it is read at SP, then SP goes up by one.
    pub open spec fn popped(self) -> CpuView {
        CpuView {
            register: Register { sp: next_address(self.register.sp), ..self.register },
            ..self.after_read()
        }
    }

    /// The word on top of the stack, low byte first.
    pub open spec fn top16(self) -> u16 {
        word_of(self.popped().top(), self.top())
    }

    pub open spec fn popped16(self) -> CpuView {
        self.popped().popped()
    }

    /// The value of an operand of a bit operation: the register, or for HL
    /// the byte at (HL).
    pub open spec fn operand_value(self, register: RegisterType) -> u8 {
        if register == RegisterType::HL {
            self.bus.read(self.register.read(RegisterType::HL))
        } else {
            low_of(self.register.read(register))
        }
    }

    /// An operand has been read; for (HL) that took a machine cycle.
    pub open spec fn after_operand(self, register: RegisterType) -> CpuView {
        if register == RegisterType::HL {
            self.after_read()
        } else {
            self
        }
    }

    /// An operand written: the register, or for HL the byte at (HL), which
    /// takes a machine cycle.
    pub open spec fn with_operand(self, register: RegisterType, value: u8) -> CpuView {
        if register == RegisterType::HL {
            self.stored(self.register.read(RegisterType::HL), value)
        } else {
            self.with_register(register, value as u16)
        }
    }

    /// A branch to `address` if the condition holds: the return address is
    /// pushed first if asked for, and the jump itself takes a machine cycle.
    /// If the condition does not hold, nothing happens.
    pub open spec fn gone_to(self, address: u16, push_pc: bool, condition: ConditionType) -> CpuView {
        if condition.holds(self.register.flags()) {
            let saved = if push_pc {
                self.pushed16(self.register.pc)
            } else {
                self
            };
            saved.with_register(RegisterType::PC, address).charged(1)
        } else {
            self
        }
    }

    /// Machine cycles of a branch: none if not taken, one if taken, and two
    /// more for pushing the return address.
    pub open spec fn go_to_cycles(self, push_pc: bool, condition: ConditionType) -> nat {
        if !condition.holds(self.register.flags()) {
            0
        } else if push_pc {
            3
        } else {
            1
        }
    }

    /// A return if the condition holds: PC is popped, and the jump takes a
    /// machine cycle. Testing a condition takes a machine cycle of its own.
    pub open spec fn returned(self, condition: ConditionType) -> CpuView {
        let tested = if condition == ConditionType::NONE {
            self
        } else {
            self.charged(1)
        };
        if condition.holds(self.register.flags()) {
            tested.popped16().with_register(RegisterType::PC, tested.top16()).charged(1)
        } else {
            tested
        }
    }

    /// Machine cycles of a return.
    pub open spec fn return_cycles(self, condition: ConditionType) -> nat {
        (if condition == ConditionType::NONE { 0nat } else { 1nat }) + (if condition.holds(
            self.register.flags(),
        ) { 3nat } else { 0nat })
    }
}

/// Why a step could not be made.
#[derive(Debug, Clone, Copy, PartialEq, Eq, Structural)]
pub enum CpuError {
    /// The byte at `pc` is not an instruction.
    IllegalOpcode { opcode: u8, pc: u16 },
}

/// Machine cycles that entering an interrupt handler takes.
pub const SERVICE_CYCLES: u8 = 5;

impl CpuView {
    /// The interrupt is requested and enabled.
    pub open spec fn is_pending(self, interrupt: Interrupt) -> bool {
        self.bus.pending() & interrupts::mask(interrupt) != 0
    }

    /// The interrupt that would be served now: the pending one with the
    /// lowest bit, if IME is set and any is pending.
    pub open spec fn due(self) -> Option<Interrupt> {
        if !self.master_enabled {
            None
        } else if self.is_pending(Interrupt::VBlank) {
            Some(Interrupt::VBlank)
        } else if self.is_pending(Interrupt::LCDStat) {
            Some(Interrupt::LCDStat)
        } else if self.is_pending(Interrupt::Timer) {
            Some(Interrupt::Timer)
        } else if self.is_pending(Interrupt::Serial) {
            Some(Interrupt::Serial)
        } else if self.is_pending(Interrupt::JoyPad) {
            Some(Interrupt::JoyPad)
        } else {
            None
        }
    }

    /// The request of an interrupt is taken out of IF, IME is cleared, and
    /// the processor is awake.
    pub open spec fn acknowledged(self, interrupt: Interrupt) -> CpuView {
        CpuView {
            bus: BusView {
                int_flags: self.bus.int_flags & !interrupts::mask(interrupt),
                ..self.bus
            },
            master_enabled: false,
            halted: false,
            ..self
        }
    }

    /// A handler is entered at `address`: PC is pushed and PC becomes the
    /// address, in five machine cycles, two of them for the push.
    pub open spec fn entered(self, address: u16) -> CpuView {
        self.charged(2).pushed16(self.register.pc).with_register(
            RegisterType::PC,
            address,
        ).charged(1)
    }

    /// An interrupt is served: its request is acknowledged and its handler
    /// is entered at its vector.
    pub open spec fn served(self, interrupt: Interrupt) -> CpuView {
        self.acknowledged(interrupt).entered(interrupts::vector(interrupt))
    }

    /// The state after the interrupts are polled.
    pub open spec fn polled(self) -> CpuView {
        match self.due() {
            Some(interrupt) => self.served(interrupt),
            None => self,
        }
    }

    /// The state after a step while halted: a machine cycle passes, and the
    /// processor wakes if an interrupt is pending, whatever IME says.
    pub open spec fn idled(self) -> CpuView {
        let later = self.charged(1);
        CpuView { halted: later.halted && later.bus.pending() == 0, ..later }
    }

    /// The instruction at PC is read and decoded, and PC is past its opcode.
    pub open spec fn decoded(self) -> CpuView {
        CpuView {
            current_op_code: self.next_byte(),
            instruction: Instruction::decode(self.next_byte()),
            ..self.after_next_byte()
        }
    }

    /// The state after the instruction at PC, before IME is updated and the
    /// interrupts are polled.
    pub open spec fn run(self) -> CpuView {
        Instruction::decode(self.next_byte()).executed(self.decoded())
    }

    /// The deferred effect of EI: IME is set if an EI before this
    /// instruction asked for it and no DI has withdrawn that since.
    pub open spec fn deferred(self, asked: bool) -> CpuView {
        if asked && self.enabling_ime {
            CpuView { master_enabled: true, enabling_ime: false, ..self }
        } else {
            self
        }
    }

    /// The step can be made: the processor is stopped or halted, or the byte
    /// at PC is an instruction.
    pub open spec fn can_step(self) -> bool {
        self.stopped || self.halted || !Instruction::illegal(self.next_byte())
    }

    /// The state after one step. A stopped processor stays as it is. A
    /// halted one idles. Otherwise the instruction at PC runs, then IME
    /// takes the deferred effect of an earlier EI, then the interrupts are
    /// polled.
    #[verifier::opaque]
    pub open spec fn stepped(self) -> CpuView {
        if self.stopped {
            self
        } else if self.halted {
            self.idled()
        } else {
            self.run().deferred(self.enabling_ime).polled()
        }
    }

    /// Machine cycles of one step.
    #[verifier::opaque]
    pub open spec fn step_cycles(self) -> nat {
        if self.stopped {
            0
        } else if self.halted {
            1
        } else {
            1 + Instruction::decode(self.next_byte()).cycles(self.decoded()) + (if self.run().deferred(
                self.enabling_ime,
            ).due() is Some {
                SERVICE_CYCLES as nat
            } else {
                0
            })
        }
    }

    /// The state after the debug stream is looked at: if the serial control
    /// byte is 0x81, the serial data byte is taken as a character and the
    /// control byte is cleared.
    pub open spec fn debug_updated(self) -> CpuView {
        if self.bus.serial_control == 0x81 {
            CpuView {
                debug_message: self.debug_message.push(self.bus.serial_data as char),
                bus: BusView { serial_control: 0, ..self.bus },
                ..self
            }
        } else {
            self
        }
    }
}

/// The processor, with the bus it drives.
pub struct CPU {
    register: Register,
    fetch_data: u16,
    mem_dest: u16,
    dest_is_mem: bool,
    current_op_code: u8,
    instruction: Instruction,
    halted: bool,
    stopped: bool,
    master_enabled: bool,
    enabling_ime: bool,
    bus: Bus,
    debug_message: String,
}

impl View for CPU {
    type V = CpuView;

    closed spec fn view(&self) -> CpuView {
        CpuView {
            register: self.register,
            fetch_data: self.fetch_data,
            mem_dest: self.mem_dest,
            dest_is_mem: self.dest_is_mem,
            current_op_code: self.current_op_code,
            instruction: self.instruction,
            halted: self.halted,
            stopped: self.stopped,
            master_enabled: self.master_enabled,
            enabling_ime: self.enabling_ime,
            bus: self.bus@,
            debug_message: self.debug_message@,
        }
    }
}

impl CPU {
    /// The low nibble of F is zero and the bus is well formed.
    pub closed spec fn wf(&self) -> bool {
        self.register.wf() && self.bus.wf()
    }

    /// A well-formed processor has a well-formed model.
    pub proof fn lemma_wf(&self)
        requires
            self.wf(),
        ensures
            self@.wf(),
    {
        self.bus.lemma_wf();
    }

    /// The state in which the boot ROM leaves a DMG, on the given bus.
    pub open spec fn booted(bus: BusView) -> CpuView {
        CpuView {
            register: Register::boot(),
            fetch_data: 0,
            mem_dest: 0,
            dest_is_mem: false,
            current_op_code: 0,
            instruction: Instruction::decode(0),
            halted: false,
            stopped: false,
            master_enabled: false,
            enabling_ime: false,
            bus,
            debug_message: Seq::empty(),
        }
    }

    /// A processor in its post-boot state.
    pub fn new(bus: Bus) -> (cpu: CPU)
        requires
            bus.wf(),
        ensures
            cpu.wf(),
            cpu@ == CPU::booted(bus@),
    {
        let register = Register {
            a: 0x01,
            f: 0xB0,
            b: 0x00,
            c: 0x13,
            d: 0x00,
            e: 0xD8,
            h: 0x01,
            l: 0x4D,
            sp: 0xFFFE,
            pc: 0x0100,
        };
        assert(0xB0u8 & 0x0F == 0) by (bit_vector);
        CPU {
            register,
            fetch_data: 0,
            mem_dest: 0,
            dest_is_mem: false,
            current_op_code: 0,
            instruction: Instruction::from(0),
            halted: false,
            stopped: false,
            master_enabled: false,
            enabling_ime: false,
            bus,
            debug_message: String::new(),
        }
    }

    /// A processor for the conformance ROMs, which start from the post-boot
    /// state.
    pub fn test(bus: Bus) -> (cpu: CPU)
        requires
            bus.wf(),
        ensures
            cpu.wf(),
            cpu@ == CPU::booted(bus@),
    {
        CPU::new(bus)
    }

    pub fn registers(&self) -> (register: Register)
        ensures
            register == self@.register,
            self.wf() ==> register.wf(),
    {
        self.register
    }

    pub fn fetch_data(&self) -> (data: u16)
        ensures
            data == self@.fetch_data,
    {
        self.fetch_data
    }

    pub fn mem_dest(&self) -> (address: u16)
        ensures
            address == self@.mem_dest,
    {
        self.mem_dest
    }

    pub fn dest_is_mem(&self) -> (is_mem: bool)
        ensures
            is_mem == self@.dest_is_mem,
    {
        self.dest_is_mem
    }

    pub fn current_op_code(&self) -> (opcode: u8)
        ensures
            opcode == self@.current_op_code,
    {
        self.current_op_code
    }

    pub fn instruction(&self) -> (instruction: Instruction)
        ensures
            instruction == self@.instruction,
    {
        self.instruction
    }

    pub fn halted(&self) -> (halted: bool)
        ensures
            halted == self@.halted,
    {
        self.halted
    }

    pub fn stopped(&self) -> (stopped: bool)
        ensures
            stopped == self@.stopped,
    {
        self.stopped
    }

    /// IME.
    pub fn master_enabled(&self) -> (enabled: bool)
        ensures
            enabled == self@.master_enabled,
    {
        self.master_enabled
    }

    pub fn enabling_ime(&self) -> (enabling: bool)
        ensures
            enabling == self@.enabling_ime,
    {
        self.enabling_ime
    }

    pub fn bus(&self) -> (bus: &Bus)
        requires
            self.wf(),
        ensures
            bus.wf(),
            bus@ == self@.bus,
    {
        &self.bus
    }

    /// What the program has sent to the debug stream so far.
    pub fn debug_message(&self) -> (message: &str)
        ensures
            message@ == self@.debug_message,
    {
        self.debug_message.as_str()
    }

    /// Reads memory as the processor sees it, without letting time pass.
    pub fn peek(&self, address: u16) -> (value: u8)
        requires
            self.wf(),
        ensures
            value == self@.bus.read(address),
    {
        self.bus.read(address)
    }

    /// Writes memory as the processor does, without letting time pass.
    pub fn poke(&mut self, address: u16, value: u8)
        requires
            old(self).wf(),
        ensures
            final(self).wf(),
            final(self)@ == (CpuView { bus: old(self)@.bus.write(address, value), ..old(self)@ }),
    {
        self.bus.write(address, value);
    }

    /// Adds the given request bits to IF.
    pub fn request_interrupt(&mut self, it_timer: u8)
        requires
            old(self).wf(),
        ensures
            final(self).wf(),
            final(self)@ == (CpuView {
                bus: BusView {
                    int_flags: old(self)@.bus.int_flags | it_timer,
                    ..old(self)@.bus
                },
                ..old(self)@
            }),
    {
        self.bus.request_interrupt(it_timer);
    }

    /// Lets `n` machine cycles pass.
    pub fn emu_cycles(&mut self, n: u8)
        requires
            old(self).wf(),
        ensures
            final(self).wf(),
            final(self)@ == old(self)@.charged(n as nat),
    {
        self.bus.emu_cycles(n);
    }

    pub fn read_register(&self, register: &RegisterType) -> (value: u16)
        ensures
            value == self@.register.read(*register),
    {
        self.register.get(*register)
    }

    pub fn set_register(&mut self, register_type: &RegisterType, value: u16)
        requires
            old(self).wf(),
        ensures
            final(self).wf(),
            final(self)@ == old(self)@.with_register(*register_type, value),
    {
        self.register.set(*register_type, value);
    }

    pub fn set_flags(&mut self, flags: Flags)
        requires
            old(self).wf(),
        ensures
            final(self).wf(),
            final(self)@ == old(self)@.with_flags(flags),
    {
        self.register.set_flags(flags);
    }

    pub fn set_fetch_data(&mut self, data: u16)
        requires
            old(self).wf(),
        ensures
            final(self).wf(),
            final(self)@ == old(self)@.with_fetch_data(data),
    {
        self.fetch_data = data;
    }

    /// Makes `address` the place the action writes to.
    pub fn set_destination(&mut self, address: u16)
        requires
            old(self).wf(),
        ensures
            final(self).wf(),
            final(self)@ == old(self)@.with_destination(address),
    {
        self.mem_dest = address;
        self.dest_is_mem = true;
    }

    /// Forgets the destination of the instruction before.
    pub fn clear_destination(&mut self)
        requires
            old(self).wf(),
        ensures
            final(self).wf(),
            final(self)@ == old(self)@.without_destination(),
    {
        self.mem_dest = 0;
        self.dest_is_mem = false;
    }

    pub fn set_halted(&mut self, halted: bool)
        requires
            old(self).wf(),
        ensures
            final(self).wf(),
            final(self)@ == (CpuView { halted, ..old(self)@ }),
    {
        self.halted = halted;
    }

    pub fn set_stopped(&mut self, stopped: bool)
        requires
            old(self).wf(),
        ensures
            final(self).wf(),
            final(self)@ == (CpuView { stopped, ..old(self)@ }),
    {
        self.stopped = stopped;
    }

    pub fn set_master_enabled(&mut self, master_enabled: bool)
        requires
            old(self).wf(),
        ensures
            final(self).wf(),
            final(self)@ == (CpuView { master_enabled, ..old(self)@ }),
    {
        self.master_enabled = master_enabled;
    }

    pub fn set_enabling_ime(&mut self, enabling_ime: bool)
        requires
            old(self).wf(),
        ensures
            final(self).wf(),
            final(self)@ == (CpuView { enabling_ime, ..old(self)@ }),
    {
        self.enabling_ime = enabling_ime;
    }

    /// Reads a byte of memory, which takes a machine cycle.
    pub fn read_memory(&mut self, address: u16) -> (value: u8)
        requires
            old(self).wf(),
        ensures
            final(self).wf(),
            value == old(self)@.bus.read(address),
            final(self)@ == old(self)@.after_read(),
    {
        let value = self.bus.read(address);
        self.bus.emu_cycles(1);
        value
    }

    /// Writes a byte of memory, which takes a machine cycle.
    pub fn write_memory(&mut self, address: u16, value: u8)
        requires
            old(self).wf(),
        ensures
            final(self).wf(),
            final(self)@ == old(self)@.stored(address, value),
    {
        self.bus.write(address, value);
        self.bus.emu_cycles(1);
    }

    /// Writes a word of memory, low byte first.
    pub fn write_memory16(&mut self, address: u16, value: u16)
        requires
            old(self).wf(),
        ensures
            final(self).wf(),
            final(self)@ == old(self)@.stored16(address, value),
    {
        self.write_memory(address, low(value));
        self.write_memory(address.wrapping_add(1), high(value));
    }

    /// Reads the byte at PC and moves PC past it.
    pub fn fetch_byte(&mut self) -> (value: u8)
        requires
            old(self).wf(),
        ensures
            final(self).wf(),
            value == old(self)@.next_byte(),
            final(self)@ == old(self)@.after_next_byte(),
    {
        let value = self.read_memory(self.register.pc);
        self.register.pc = self.register.pc.wrapping_add(1);
        value
    }

    /// Reads the little-endian word at PC and moves PC past it.
    pub fn fetch_word(&mut self) -> (value: u16)
        requires
            old(self).wf(),
        ensures
            final(self).wf(),
            value == old(self)@.next_word(),
            final(self)@ == old(self)@.after_next_word(),
    {
        let lo = self.fetch_byte();
        let hi = self.fetch_byte();
        word(hi, lo)
    }

    /// Reads an operand of a bit operation; (HL) takes a machine cycle.
    pub fn read_register8(&mut self, register: &RegisterType) -> (value: u8)
        requires
            old(self).wf(),
            register.is_operand(),
        ensures
            final(self).wf(),
            value == old(self)@.operand_value(*register),
            final(self)@ == old(self)@.after_operand(*register),
    {
        match register {
            RegisterType::HL => {
                let address = self.register.get(RegisterType::HL);
                self.read_memory(address)
            },
            _ => low(self.register.get(*register)),
        }
    }

    /// Writes an operand of a bit operation; (HL) takes a machine cycle.
    pub fn set_register8(&mut self, register: &RegisterType, value: u8)
        requires
            old(self).wf(),
            register.is_operand(),
        ensures
            final(self).wf(),
            final(self)@ == old(self)@.with_operand(*register, value),
    {
        match register {
            RegisterType::HL => {
                let address = self.register.get(RegisterType::HL);
                self.write_memory(address, value)
            },
            _ => self.register.set(*register, value as u16),
        }
    }

    /// Pushes a byte.
    pub fn stack_push(&mut self, data: u8)
        requires
            old(self).wf(),
        ensures
            final(self).wf(),
            final(self)@ == old(self)@.pushed(data),
    {
        self.register.sp = self.register.sp.wrapping_sub(1);
        self.write_memory(self.register.sp, data);
    }

    /// Pushes a word, high byte first.
    pub fn stack_push16(&mut self, data: u16)
        requires
            old(self).wf(),
        ensures
            final(self).wf(),
            final(self)@ == old(self)@.pushed16(data),
    {
        self.stack_push(high(data));
        self.stack_push(low(data));
    }

    /// Pops a byte.
    pub fn stack_pop(&mut self) -> (data: u8)
        requires
            old(self).wf(),
        ensures
            final(self).wf(),
            data == old(self)@.top(),
            final(self)@ == old(self)@.popped(),
    {
        let data = self.read_memory(self.register.sp);
        self.register.sp = self.register.sp.wrapping_add(1);
        data
    }

    /// Pops a word, low byte first.
    pub fn stack_pop16(&mut self) -> (data: u16)
        requires
            old(self).wf(),
        ensures
            final(self).wf(),
            data == old(self)@.top16(),
            final(self)@ == old(self)@.popped16(),
    {
        let lo = self.stack_pop();
        let hi = self.stack_pop();
        word(hi, lo)
    }

    /// Makes one step: one instruction, or one idle machine cycle while
    /// halted, and the interrupt poll after it. Says how many machine cycles
    /// passed. On an unassigned opcode nothing changes and the error names
    /// the opcode and its address.
    pub fn step(&mut self) -> (result: Result<u8, CpuError>)
        requires
            old(self).wf(),
        ensures
            final(self).wf(),
            final(self)@.register.f & 0x0F == 0,
            match result {
                Ok(cycles) => {
                    &&& old(self)@.can_step()
                    &&& final(self)@ == old(self)@.stepped()
                    &&& cycles == old(self)@.step_cycles()
                },
                Err(error) => {
                    &&& !old(self)@.can_step()
                    &&& final(self)@ == old(self)@
                    &&& error == (CpuError::IllegalOpcode {
                        opcode: old(self)@.next_byte(),
                        pc: old(self)@.register.pc,
                    })
                },
            },
    {
        reveal(CpuView::stepped);
        reveal(CpuView::step_cycles);
        if self.stopped {
            return Ok(0);
        }
        if self.halted {
            self.emu_cycles(1);
            if self.bus.pending() != 0 {
                self.halted = false;
            }
            return Ok(1);
        }
        let pc = self.register.pc;
        let opcode = self.peek(pc);
        if Instruction::from(opcode).action == Action::NONE {
            return Err(CpuError::IllegalOpcode { opcode, pc });
        }
        let asked = self.enabling_ime;
        let instruction = self.fetch_instruction();
        let running = instruction.execute(self);
        if asked && self.enabling_ime {
            self.master_enabled = true;
            self.enabling_ime = false;
        }
        let serving = self.handle_interrupts();
        Ok(1 + running + serving)
    }

    /// Looks at the debug stream: a program that has written 0x81 to the
    /// serial control byte has a character ready in the serial data byte.
    pub fn debug_update(&mut self)
        requires
            old(self).wf(),
        ensures
            final(self).wf(),
            final(self)@ == old(self)@.debug_updated(),
    {
        proof {
            reveal(BusView::read);
            reveal(BusView::write);
        }
        if self.bus.read(0xFF02) == 0x81 {
            self.debug_message.push(self.bus.read(0xFF01) as char);
            self.bus.write(0xFF02, 0x00);
        }
    }

    /// Polls the interrupts after an instruction and enters the handler of
    /// the one that is due; says how many machine cycles that took.
    pub fn handle_interrupts(&mut self) -> (cycles: u8)
        requires
            old(self).wf(),
        ensures
            final(self).wf(),
            final(self)@ == old(self)@.polled(),
            cycles == (if old(self)@.due() is Some { SERVICE_CYCLES } else { 0u8 }),
    {
        if !self.master_enabled {
            0
        } else if self.interrupt_check(0x40, Interrupt::VBlank) {
            SERVICE_CYCLES
        } else if self.interrupt_check(0x48, Interrupt::LCDStat) {
            SERVICE_CYCLES
        } else if self.interrupt_check(0x50, Interrupt::Timer) {
            SERVICE_CYCLES
        } else if self.interrupt_check(0x58, Interrupt::Serial) {
            SERVICE_CYCLES
        } else if self.interrupt_check(0x60, Interrupt::JoyPad) {
            SERVICE_CYCLES
        } else {
            0
        }
    }

    /// If the interrupt is pending, acknowledges it and enters the handler
    /// at `address`; says whether it did.
    pub fn interrupt_check(&mut self, address: u16, interrupt: Interrupt) -> (served: bool)
        requires
            old(self).wf(),
        ensures
            final(self).wf(),
            served == old(self)@.is_pending(interrupt),
            final(self)@ == (if served {
                old(self)@.acknowledged(interrupt).entered(address)
            } else {
                old(self)@
            }),
    {
        let int_num = interrupts::fetch_interrupt_num(interrupt);
        if self.bus.pending() & int_num != 0 {
            self.bus.acknowledge_interrupt(int_num);
            self.halted = false;
            self.master_enabled = false;
            self.handle_interrupt(address);
            true
        } else {
            false
        }
    }

    /// Pushes PC and continues at `address`, in five machine cycles.
    pub fn handle_interrupt(&mut self, address: u16)
        requires
            old(self).wf(),
        ensures
            final(self).wf(),
            final(self)@ == old(self)@.entered(address),
    {
        self.emu_cycles(2);
        self.stack_push16(self.register.pc);
        self.register.pc = address;
        self.emu_cycles(1);
    }

    /// Reads the opcode at PC, moves PC past it and decodes it.
    pub fn fetch_instruction(&mut self) -> (instruction: Instruction)
        requires
            old(self).wf(),
        ensures
            final(self).wf(),
            final(self)@ == old(self)@.decoded(),
            instruction == Instruction::decode(old(self)@.next_byte()),
    {
        self.current_op_code = self.fetch_byte();
        self.instruction = Instruction::from(self.current_op_code);
        self.instruction
    }

    /// Branches to `address` if the condition of `instruction` holds, and
    /// says how many machine cycles that took.
    pub fn go_to(&mut self, address: u16, push_pc: bool, instruction: &Instruction) -> (cycles: u8)
        requires
            old(self).wf(),
        ensures
            final(self).wf(),
            final(self)@ == old(self)@.gone_to(address, push_pc, instruction.condition),
            cycles == old(self)@.go_to_cycles(push_pc, instruction.condition),
    {
        if instruction.condition.check(self) {
            if push_pc {
                self.stack_push16(self.register.pc);
            }
            self.register.pc = address;
            self.emu_cycles(1);
            if push_pc {
                3
            } else {
                1
            }
        } else {
            0
        }
    }

    /// Returns from a procedure if the condition of `instruction` holds, and
    /// says how many machine cycles that took.
    pub fn return_from_procedure(&mut self, instruction: &Instruction) -> (cycles: u8)
        requires
            old(self).wf(),
        ensures
            final(self).wf(),
            final(self)@ == old(self)@.returned(instruction.condition),
            cycles == old(self)@.return_cycles(instruction.condition),
    {
        let taken = instruction.condition.check(self);
        let tested: u8 = match instruction.condition {
            ConditionType::NONE => 0,
            _ => {
                self.emu_cycles(1);
                1
            },
        };
        if taken {
            let address = self.stack_pop16();
            self.register.pc = address;
            self.emu_cycles(1);
            tested + 3
        } else {
            tested
        }
    }
}

} // verus!
