//! The stack gives back what it was given.

use vstd::prelude::*;
use crate::bus::{
    high_of, is_ram, lemma_advanced, lemma_ram_write, lemma_word_bytes, low_of, next_address,
    same_cell,
};
use crate::cpu::actions::Action;
use crate::cpu::addresses::AddressMode;
use crate::cpu::instructions::{stack_pair, Instruction};
use crate::cpu::register::{Register, RegisterType};
use crate::cpu::shape::{lemma_parts_keep_wf, same_mode};
use crate::cpu::{previous_address, CpuView};

verus! {

/// The register is one of the four pairs that PUSH and POP take.
pub open spec fn is_stack_pair(register: RegisterType) -> bool {
    register == RegisterType::AF || register == RegisterType::BC || register == RegisterType::DE
        || register == RegisterType::HL
}

/// The two bytes below SP lie in RAM, so that what is pushed there stays.
pub open spec fn stack_in_ram(cpu: CpuView) -> bool {
    is_ram(previous_address(cpu.register.sp)) && is_ram(
        previous_address(previous_address(cpu.register.sp)),
    )
}

/// A push of two bytes does not reach the byte at `address`: it lies in
/// ROM, or in RAM away from the two bytes below SP.
pub open spec fn clear_of_stack(cpu: CpuView, address: u16) -> bool {
    address < 0x8000 || (is_ram(address) && !same_cell(
        previous_address(cpu.register.sp),
        address,
    ) && !same_cell(previous_address(previous_address(cpu.register.sp)), address))
}

/// The word on top of the stack is `value`, and it lies in RAM.
pub open spec fn holds_word(cpu: CpuView, value: u16) -> bool {
    &&& is_ram(cpu.register.sp)
    &&& is_ram(next_address(cpu.register.sp))
    &&& cpu.bus.read(cpu.register.sp) == low_of(value)
    &&& cpu.bus.read(next_address(cpu.register.sp)) == high_of(value)
}

/// A byte pushed to RAM is on top of the stack afterwards; the push moves
/// SP down by one and leaves the other registers, and it changes nothing
/// on the bus but RAM, the timer and the clock.
pub proof fn lemma_pushed(cpu: CpuView, data: u8)
    requires
        cpu.wf(),
        is_ram(previous_address(cpu.register.sp)),
    ensures
        cpu.pushed(data).wf(),
        cpu.pushed(data).top() == data,
        cpu.pushed(data).register == (Register {
            sp: previous_address(cpu.register.sp),
            ..cpu.register
        }),
        same_mode(cpu, cpu.pushed(data)),
        cpu.pushed(data).bus.int_flags == cpu.bus.int_flags || cpu.pushed(data).bus.int_flags
            == cpu.bus.int_flags | crate::interrupts::TIMER,
        !cpu.bus.timer.advanced(1).1 ==> cpu.pushed(data).bus.int_flags == cpu.bus.int_flags,
        cpu.pushed(data).bus.timer == cpu.bus.timer.advanced(1).0,
        forall|other: u16|
            other < 0x8000 || (is_ram(other) && !same_cell(
                previous_address(cpu.register.sp),
                other,
            )) ==> #[trigger] cpu.pushed(data).bus.read(other) == cpu.bus.read(other),
{
    let sp = previous_address(cpu.register.sp);
    let written = cpu.bus.write(sp, data);
    lemma_ram_write(cpu.bus, sp, data, sp);
    lemma_advanced(written, 1, sp);
    assert forall|other: u16|
        other < 0x8000 || (is_ram(other) && !same_cell(sp, other)) implies #[trigger] cpu.pushed(
        data,
    ).bus.read(other) == cpu.bus.read(other) by {
        lemma_ram_write(cpu.bus, sp, data, other);
        lemma_advanced(written, 1, other);
    }
}

/// A word pushed to RAM is on top of the stack afterwards; the push moves
/// SP down by two and leaves the other registers and the mode of the
/// processor, and it is not seen at an address that is clear of the stack.
pub proof fn lemma_pushed16(cpu: CpuView, value: u16)
    requires
        cpu.wf(),
        stack_in_ram(cpu),
    ensures
        cpu.pushed16(value).wf(),
        holds_word(cpu.pushed16(value), value),
        cpu.pushed16(value).register == (Register {
            sp: previous_address(previous_address(cpu.register.sp)),
            ..cpu.register
        }),
        same_mode(cpu, cpu.pushed16(value)),
        forall|other: u16|
            clear_of_stack(cpu, other) ==> #[trigger] cpu.pushed16(value).bus.read(other)
                == cpu.bus.read(other),
{
    let sp1 = previous_address(cpu.register.sp);
    let sp2 = previous_address(sp1);
    let first = cpu.pushed(high_of(value));
    lemma_pushed(cpu, high_of(value));
    let second = first.pushed(low_of(value));
    lemma_pushed(first, low_of(value));
    assert(!same_cell(sp2, sp1));
    assert(second.bus.read(sp1) == first.bus.read(sp1));
    assert forall|other: u16| clear_of_stack(cpu, other) implies #[trigger] second.bus.read(other)
        == cpu.bus.read(other) by {
        assert(first.bus.read(other) == cpu.bus.read(other));
    }
}

/// Time that passes leaves the word on top of the stack where it is.
pub proof fn lemma_word_stays(cpu: CpuView, value: u16, n: nat)
    requires
        cpu.wf(),
        holds_word(cpu, value),
    ensures
        holds_word(cpu.charged(n), value),
        cpu.charged(n).wf(),
{
    lemma_advanced(cpu.bus, n, cpu.register.sp);
    lemma_advanced(cpu.bus, n, next_address(cpu.register.sp));
}

/// The word on top of the stack is what a pop of a word reads, and the pop
/// moves SP up by two.
pub proof fn lemma_popped16(cpu: CpuView, value: u16)
    requires
        cpu.wf(),
        holds_word(cpu, value),
    ensures
        cpu.top16() == value,
        cpu.popped16().register == (Register {
            sp: next_address(next_address(cpu.register.sp)),
            ..cpu.register
        }),
{
    lemma_advanced(cpu.bus, 1, next_address(cpu.register.sp));
    lemma_word_bytes(high_of(value), low_of(value), value);
}

/// A pair that is written with its own value is as it was, since the low
/// nibble of F is zero.
proof fn lemma_pair_rewritten(register: Register, pair: RegisterType)
    requires
        register.wf(),
        is_stack_pair(pair),
    ensures
        register.write(pair, register.read(pair)) == register,
{
    let f = register.f;
    assert(f & 0xF0 == f) by (bit_vector)
        requires
            f & 0x0F == 0,
    ;
    lemma_word_bytes(register.a, register.f, 0);
    lemma_word_bytes(register.b, register.c, 0);
    lemma_word_bytes(register.d, register.e, 0);
    lemma_word_bytes(register.h, register.l, 0);
}

/// PUSH of a register pair followed at once by POP of the same pair leaves
/// every register as it was, SP and the flags included, provided that the
/// two bytes below SP lie in RAM.
pub proof fn lemma_push_pop(cpu: CpuView, push: Instruction, pop: Instruction)
    requires
        cpu.wf(),
        stack_in_ram(cpu),
        is_stack_pair(push.register_1),
        pop.register_1 == push.register_1,
    ensures
        Action::POP.executed(Action::PUSH.executed(cpu, push), pop).register == cpu.register,
        Action::POP.executed(Action::PUSH.executed(cpu, push), pop).register.f & 0x0F == 0,
{
    reveal(Action::executed);
    let value = cpu.register.read(push.register_1);
    let waited = cpu.charged(1);
    lemma_parts_keep_wf();
    lemma_pushed16(waited, value);
    lemma_popped16(waited.pushed16(value), value);
    lemma_pair_rewritten(cpu.register, push.register_1);
}

/// Fetching a register operand changes nothing but the operand and the
/// destination.
proof fn lemma_register_operand(cpu: CpuView, instruction: Instruction)
    ensures
        AddressMode::R.fetched(cpu, instruction).register == cpu.register,
        AddressMode::R.fetched(cpu, instruction).bus == cpu.bus,
        same_mode(cpu, AddressMode::R.fetched(cpu, instruction)),
{
    reveal(AddressMode::fetched);
}

/// The opcodes of PUSH and POP for the pair that the two bits `p` select.
proof fn lemma_stack_opcodes(p: u8)
    requires
        p < 4,
    ensures
        Instruction::decode((0xC5 + 16 * p) as u8) == Instruction::on(
            Action::PUSH,
            AddressMode::R,
            stack_pair(p as int),
            RegisterType::NONE,
        ),
        Instruction::decode((0xC1 + 16 * p) as u8) == Instruction::on(
            Action::POP,
            AddressMode::R,
            stack_pair(p as int),
            RegisterType::NONE,
        ),
        is_stack_pair(stack_pair(p as int)),
{
    assert(Instruction::decode((0xC5 + 16 * p) as u8) == Instruction::decode_high(2 * p, 5)
        && Instruction::decode((0xC1 + 16 * p) as u8) == Instruction::decode_high(2 * p, 1)) by {
        if p == 0 {
        } else if p == 1 {
        } else if p == 2 {
        } else {
        }
    }
}

/// The instruction PUSH rr, for the pair that the two bits `p` of its
/// opcode select, puts the pair on top of the stack and changes no
/// register but SP, provided that the two bytes below SP lie in RAM.
proof fn lemma_push_instruction(cpu: CpuView, p: u8)
    requires
        cpu.wf(),
        stack_in_ram(cpu),
        p < 4,
    ensures
        ({
            let after = Instruction::decode((0xC5 + 16 * p) as u8).executed(cpu);
            &&& after.wf()
            &&& holds_word(after, cpu.register.read(stack_pair(p as int)))
            &&& after.register == (Register {
                sp: previous_address(previous_address(cpu.register.sp)),
                ..cpu.register
            })
            &&& same_mode(cpu, after)
            &&& forall|other: u16|
                clear_of_stack(cpu, other) ==> #[trigger] after.bus.read(other) == cpu.bus.read(
                    other,
                )
        }),
{
    let push = Instruction::decode((0xC5 + 16 * p) as u8);
    lemma_stack_opcodes(p);
    reveal(Instruction::executed);
    reveal(Action::executed);
    let ready = AddressMode::R.fetched(cpu, push);
    lemma_register_operand(cpu, push);
    let waited = ready.charged(1);
    lemma_parts_keep_wf();
    let value = cpu.register.read(stack_pair(p as int));
    lemma_pushed16(waited, value);
    assert forall|other: u16| clear_of_stack(cpu, other) implies #[trigger] waited.pushed16(
        value,
    ).bus.read(other) == cpu.bus.read(other) by {
        lemma_advanced(cpu.bus, 1, other);
        assert(clear_of_stack(waited, other));
    }
}

/// The instruction POP rr, for the pair that the two bits `p` of its
/// opcode select, takes the word on top of the stack into the pair and
/// moves SP up by two.
proof fn lemma_pop_instruction(cpu: CpuView, p: u8, value: u16)
    requires
        cpu.wf(),
        holds_word(cpu, value),
        p < 4,
    ensures
        ({
            let after = Instruction::decode((0xC1 + 16 * p) as u8).executed(cpu);
            &&& after.register == (Register {
                sp: next_address(next_address(cpu.register.sp)),
                ..cpu.register
            }).write(stack_pair(p as int), value)
            &&& same_mode(cpu, after)
        }),
{
    let pop = Instruction::decode((0xC1 + 16 * p) as u8);
    lemma_stack_opcodes(p);
    reveal(Instruction::executed);
    reveal(Action::executed);
    let ready = AddressMode::R.fetched(cpu, pop);
    lemma_register_operand(cpu, pop);
    assert(holds_word(ready, value));
    lemma_popped16(ready, value);
}

/// The instruction PUSH rr followed at once by the instruction POP rr, for
/// the pair that the two bits `p` of their opcodes select, leaves every
/// register as it was, provided that the two bytes below SP lie in RAM.
/// The low nibble of F is zero afterwards, for AF as for the others.
pub proof fn lemma_push_pop_instructions(cpu: CpuView, p: u8)
    requires
        cpu.wf(),
        stack_in_ram(cpu),
        p < 4,
    ensures
        Instruction::decode((0xC5 + 16 * p) as u8).action == Action::PUSH,
        Instruction::decode((0xC1 + 16 * p) as u8).action == Action::POP,
        Instruction::decode((0xC1 + 16 * p) as u8).register_1 == Instruction::decode(
            (0xC5 + 16 * p) as u8,
        ).register_1,
        is_stack_pair(Instruction::decode((0xC5 + 16 * p) as u8).register_1),
        Instruction::decode((0xC1 + 16 * p) as u8).executed(
            Instruction::decode((0xC5 + 16 * p) as u8).executed(cpu),
        ).register == cpu.register,
        Instruction::decode((0xC1 + 16 * p) as u8).executed(
            Instruction::decode((0xC5 + 16 * p) as u8).executed(cpu),
        ).register.f & 0x0F == 0,
{
    let pushed = Instruction::decode((0xC5 + 16 * p) as u8).executed(cpu);
    lemma_stack_opcodes(p);
    lemma_push_instruction(cpu, p);
    lemma_pop_instruction(pushed, p, cpu.register.read(stack_pair(p as int)));
    lemma_pair_rewritten(cpu.register, stack_pair(p as int));
}

/// A program that runs PUSH rr and, as its very next instruction, POP rr
/// has every register as it was after the two steps, but for PC, which is
/// behind the two opcodes. This holds where nothing comes between the two:
/// the processor runs, with interrupts disabled and no EI waiting; the two
/// bytes below SP lie in RAM; and the push does not reach the opcode of the
/// POP.
pub proof fn lemma_push_pop_steps(cpu: CpuView, p: u8)
    requires
        cpu.wf(),
        !cpu.stopped,
        !cpu.halted,
        !cpu.master_enabled,
        !cpu.enabling_ime,
        stack_in_ram(cpu),
        p < 4,
        cpu.next_byte() == 0xC5 + 16 * p,
        cpu.bus.read(next_address(cpu.register.pc)) == 0xC1 + 16 * p,
        clear_of_stack(cpu, next_address(cpu.register.pc)),
    ensures
        cpu.stepped().stepped().register == (Register {
            pc: next_address(next_address(cpu.register.pc)),
            ..cpu.register
        }),
        cpu.stepped().stepped().register.f & 0x0F == 0,
{
    reveal(CpuView::stepped);
    let pair = stack_pair(p as int);
    let value = cpu.register.read(pair);
    let next = next_address(cpu.register.pc);
    lemma_parts_keep_wf();
    lemma_stack_opcodes(p);

    let first = cpu.decoded();
    lemma_advanced(cpu.bus, 1, next);
    lemma_push_instruction(first, p);
    let pushed = cpu.run();
    assert(pushed.deferred(cpu.enabling_ime) == pushed);
    assert(pushed.due() is None);
    assert(cpu.stepped() == pushed);
    assert(pushed.next_byte() == 0xC1 + 16 * p) by {
        assert(clear_of_stack(first, next));
    }

    let second = pushed.decoded();
    lemma_word_stays(pushed, value, 1);
    assert(holds_word(second, value));
    lemma_pop_instruction(second, p, value);
    let popped = pushed.run();
    assert(popped.deferred(pushed.enabling_ime) == popped);
    assert(popped.due() is None);
    lemma_pair_rewritten(
        Register { pc: next_address(next), ..cpu.register },
        pair,
    );
}

} // verus!
