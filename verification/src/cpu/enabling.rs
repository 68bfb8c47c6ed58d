//! When interrupts are enabled and disabled, and what serving one leaves
//! behind.

use vstd::prelude::*;
use crate::bus::lemma_advanced;
use crate::cpu::actions::Action;
use crate::cpu::addresses::AddressMode;
use crate::cpu::instructions::Instruction;
use crate::cpu::register::RegisterType;
use crate::cpu::shape::{lemma_executed_shape, lemma_fetched_shape};
use crate::cpu::stack::{lemma_pushed, stack_in_ram};
use crate::cpu::{previous_address, CpuView};
use crate::interrupts::{mask, vector, Interrupt};
use crate::tpu::enabled;

verus! {

/// DI takes effect on the instruction it is on: after the step that runs
/// DI, IME is clear and no EI is waiting, so the poll at the end of that
/// very step serves no interrupt and the program goes on behind the DI.
pub proof fn lemma_di(cpu: CpuView)
    requires
        !cpu.stopped,
        !cpu.halted,
        cpu.next_byte() == 0xF3,
    ensures
        !cpu.stepped().master_enabled,
        !cpu.stepped().enabling_ime,
        cpu.stepped().register.pc == crate::bus::next_address(cpu.register.pc),
        cpu.run().deferred(cpu.enabling_ime).due() is None,
{
    reveal(CpuView::stepped);
    reveal(Instruction::executed);
    reveal(Action::executed);
    let instruction = Instruction::decode(0xF3);
    assert(instruction == Instruction::plain(Action::DI, AddressMode::NONE));
    reveal(AddressMode::fetched);
}

/// The step that runs EI leaves IME as it found it: with IME clear and no
/// earlier EI waiting, the poll at the end of that step serves no
/// interrupt, and afterwards IME is still clear while the request waits.
pub proof fn lemma_ei(cpu: CpuView)
    requires
        !cpu.stopped,
        !cpu.halted,
        !cpu.master_enabled,
        !cpu.enabling_ime,
        cpu.next_byte() == 0xFB,
    ensures
        !cpu.stepped().master_enabled,
        cpu.stepped().enabling_ime,
        cpu.stepped().register.pc == crate::bus::next_address(cpu.register.pc),
        cpu.stepped().bus.int_flags == cpu.bus.advanced(1).int_flags,
{
    reveal(CpuView::stepped);
    reveal(Instruction::executed);
    reveal(Action::executed);
    let instruction = Instruction::decode(0xFB);
    assert(instruction == Instruction::plain(Action::EI, AddressMode::NONE));
    reveal(AddressMode::fetched);
}

/// The effect of EI is deferred by exactly one instruction. In the step
/// after EI, whose instruction is anything but DI, the instruction itself
/// still runs with IME as it was, but for RETI, which sets IME itself; then
/// IME is set, before the interrupts are polled. So the poll at the end of
/// that step already serves a pending interrupt, and if none is pending the
/// next instruction starts with IME set.
pub proof fn lemma_ei_deferred(cpu: CpuView)
    requires
        !cpu.stopped,
        !cpu.halted,
        cpu.enabling_ime,
        cpu.next_byte() != 0xF3,
    ensures
        cpu.next_byte() != 0xD9 ==> cpu.run().master_enabled == cpu.master_enabled,
        cpu.run().deferred(cpu.enabling_ime).master_enabled,
        !cpu.run().deferred(cpu.enabling_ime).enabling_ime,
        cpu.stepped() == cpu.run().deferred(cpu.enabling_ime).polled(),
        cpu.run().deferred(cpu.enabling_ime).due() is None ==> cpu.stepped().master_enabled,
{
    reveal(CpuView::stepped);
    reveal(Instruction::executed);
    let opcode = cpu.next_byte();
    let instruction = Instruction::decode(opcode);
    let start = cpu.decoded();
    lemma_fetched_shape(instruction.address, start, instruction);
    lemma_decoded_action(opcode);
    lemma_executed_shape(
        instruction.action,
        instruction.address.fetched(start, instruction),
        instruction,
    );
}

/// DI and RETI are decoded from their own opcodes alone.
proof fn lemma_decoded_action(opcode: u8)
    ensures
        Instruction::decode(opcode).action == Action::DI <==> opcode == 0xF3,
        Instruction::decode(opcode).action == Action::RETI <==> opcode == 0xD9,
{
    let y = ((opcode / 8) % 8) as int;
    let z = (opcode % 8) as int;
    assert(opcode == 64 * (opcode / 64) + 8 * y + z);
}

/// An interrupt is due exactly when IME is set and any of the five
/// interrupts is both requested and enabled; the one that is due is
/// pending, and none with a lower bit is.
pub proof fn lemma_due(cpu: CpuView, lower: Interrupt)
    ensures
        cpu.due() is Some <==> cpu.master_enabled && cpu.bus.pending() != 0,
        cpu.due() is Some ==> cpu.is_pending(cpu.due()->0),
        cpu.due() is Some && crate::interrupts::index(lower) < crate::interrupts::index(
            cpu.due()->0,
        ) ==> !cpu.is_pending(lower),
{
    let flags = cpu.bus.int_flags;
    let enable = cpu.bus.ie_register;
    let pending = cpu.bus.pending();
    assert(pending != 0 <==> (pending & 1 != 0 || pending & 2 != 0 || pending & 4 != 0 || pending
        & 8 != 0 || pending & 16 != 0)) by (bit_vector)
        requires
            pending == flags & enable & 0x1F,
    ;
}

/// After an interrupt is served, IME is clear, the processor is awake and
/// PC is at the vector of the interrupt. The bit of the interrupt in IF is
/// clear as well, provided that nothing requests it anew while the handler
/// is entered: the two bytes below SP lie in RAM, and the interrupt is not
/// that of the timer, or the timer is switched off.
pub proof fn lemma_served(cpu: CpuView, interrupt: Interrupt)
    requires
        cpu.wf(),
        cpu.due() == Some(interrupt),
    ensures
        cpu.polled() == cpu.served(interrupt),
        !cpu.polled().master_enabled,
        !cpu.polled().halted,
        cpu.polled().register.pc == vector(interrupt),
        stack_in_ram(cpu) && (interrupt != Interrupt::Timer || !enabled(cpu.bus.timer.tac))
            ==> cpu.polled().bus.int_flags & mask(interrupt) == 0,
{
    let m = mask(interrupt);
    let flags = cpu.bus.int_flags;
    let acknowledged = cpu.acknowledged(interrupt);
    let cleared = acknowledged.bus.int_flags;
    assert(cleared & m == 0 && (m != 4 ==> (cleared | 4) & m == 0)) by (bit_vector)
        requires
            cleared == flags & !m,
            m == 1 || m == 2 || m == 4 || m == 8 || m == 16,
    ;
    if stack_in_ram(cpu) && (interrupt != Interrupt::Timer || !enabled(cpu.bus.timer.tac)) {
        let pc = cpu.register.pc;
        let sp1 = previous_address(cpu.register.sp);
        let waited = acknowledged.charged(2);
        lemma_advanced(acknowledged.bus, 2, sp1);
        let first = waited.pushed(crate::bus::high_of(pc));
        lemma_pushed(waited, crate::bus::high_of(pc));
        let second = first.pushed(crate::bus::low_of(pc));
        lemma_pushed(first, crate::bus::low_of(pc));
        let jumped = second.with_register(RegisterType::PC, vector(interrupt));
        lemma_advanced(jumped.bus, 1, sp1);
        if interrupt == Interrupt::Timer {
            let timer = cpu.bus.timer;
            timer.lemma_switched_off(8);
            waited.bus.timer.lemma_switched_off(4);
            first.bus.timer.lemma_switched_off(4);
            second.bus.timer.lemma_switched_off(4);
        } else {
            let a = waited.bus.int_flags;
            let b = first.bus.int_flags;
            let c = second.bus.int_flags;
            let d = cpu.polled().bus.int_flags;
            assert(d & m == 0) by (bit_vector)
                requires
                    cleared & m == 0,
                    m == 1 || m == 2 || m == 8 || m == 16,
                    a == cleared || a == cleared | 4,
                    b == a || b == a | 4,
                    c == b || c == b | 4,
                    d == c || d == c | 4,
            ;
        }
    }
}

} // verus!
