//! What no instruction disturbs: the model stays well formed, so that the
//! low nibble of F stays zero, and only the instructions made for it change
//! IME, the request of an EI, or whether the processor is halted or
//! stopped.

use vstd::prelude::*;
use crate::bus::{low_of, BusView};
use crate::cpu::actions::{
    accumulated, added, bit_operated, computed, counted, high_loaded, loaded, Action,
};
use crate::cpu::addresses::AddressMode;
use crate::cpu::conditions::ConditionType;
use crate::cpu::instructions::Instruction;
use crate::cpu::register::{Flags, Register, RegisterType};
use crate::cpu::CpuView;

verus! {

/// IME, the request of an EI, and whether the processor is halted or
/// stopped are the same in both states.
pub open spec fn same_mode(before: CpuView, after: CpuView) -> bool {
    &&& after.master_enabled == before.master_enabled
    &&& after.enabling_ime == before.enabling_ime
    &&& after.halted == before.halted
    &&& after.stopped == before.stopped
}

/// The steps out of which everything is built keep the model well formed:
/// time and writes keep the bus well formed, and writes to registers and
/// to the flags keep the low nibble of F zero.
pub proof fn lemma_parts_keep_wf()
    ensures
        forall|bus: BusView, n: nat| bus.wf() ==> (#[trigger] bus.advanced(n)).wf(),
        forall|bus: BusView, address: u16, value: u8|
            bus.wf() ==> (#[trigger] bus.write(address, value)).wf(),
        forall|register: Register, which: RegisterType, value: u16|
            register.wf() ==> (#[trigger] register.write(which, value)).wf(),
        forall|flags: Flags| (#[trigger] flags.byte()) & 0x0F == 0,
{
    reveal(BusView::advanced);
    reveal(BusView::write);
    assert forall|register: Register, which: RegisterType, value: u16|
        register.wf() implies (#[trigger] register.write(which, value)).wf() by {
        register.lemma_write(which, value);
    }
    assert forall|flags: Flags| (#[trigger] flags.byte()) & 0x0F == 0 by {
        flags.lemma_byte();
    }
}

/// Fetching operands keeps the model well formed and the mode of the
/// processor as it was.
pub proof fn lemma_fetched_shape(mode: AddressMode, cpu: CpuView, instruction: Instruction)
    ensures
        cpu.wf() ==> mode.fetched(cpu, instruction).wf(),
        same_mode(cpu, mode.fetched(cpu, instruction)),
{
    lemma_parts_keep_wf();
    reveal(AddressMode::fetched);
}

proof fn lemma_loaded_shape(cpu: CpuView, instruction: Instruction)
    ensures
        cpu.wf() ==> loaded(cpu, instruction).wf(),
        same_mode(cpu, loaded(cpu, instruction)),
{
    lemma_parts_keep_wf();
    reveal(loaded);
}

proof fn lemma_counted_shape(cpu: CpuView, instruction: Instruction, up: bool)
    ensures
        cpu.wf() ==> counted(cpu, instruction, up).wf(),
        same_mode(cpu, counted(cpu, instruction, up)),
{
    lemma_parts_keep_wf();
    reveal(counted);
}

proof fn lemma_computed_shape(action: Action, cpu: CpuView)
    ensures
        cpu.wf() ==> computed(action, cpu).wf(),
        same_mode(cpu, computed(action, cpu)),
{
    lemma_parts_keep_wf();
    reveal(computed);
}

proof fn lemma_added_shape(cpu: CpuView, instruction: Instruction)
    ensures
        cpu.wf() ==> added(cpu, instruction).wf(),
        same_mode(cpu, added(cpu, instruction)),
{
    lemma_parts_keep_wf();
    lemma_computed_shape(Action::ADD, cpu);
    reveal(added);
}

proof fn lemma_accumulated_shape(action: Action, cpu: CpuView)
    ensures
        cpu.wf() ==> accumulated(action, cpu).wf(),
        same_mode(cpu, accumulated(action, cpu)),
{
    lemma_parts_keep_wf();
    reveal(accumulated);
}

proof fn lemma_bit_operated_shape(cpu: CpuView, instruction: Instruction)
    ensures
        cpu.wf() ==> bit_operated(cpu, instruction).wf(),
        same_mode(cpu, bit_operated(cpu, instruction)),
{
    lemma_parts_keep_wf();
    reveal(bit_operated);
}

proof fn lemma_high_loaded_shape(cpu: CpuView, instruction: Instruction)
    ensures
        cpu.wf() ==> high_loaded(cpu, instruction).wf(),
        same_mode(cpu, high_loaded(cpu, instruction)),
{
    lemma_parts_keep_wf();
    reveal(high_loaded);
}

/// A branch and a return keep the model well formed and the mode of the
/// processor as it was.
pub proof fn lemma_branches_shape(
    cpu: CpuView,
    address: u16,
    push_pc: bool,
    condition: ConditionType,
)
    ensures
        cpu.wf() ==> cpu.gone_to(address, push_pc, condition).wf(),
        same_mode(cpu, cpu.gone_to(address, push_pc, condition)),
        cpu.wf() ==> cpu.returned(condition).wf(),
        same_mode(cpu, cpu.returned(condition)),
{
    lemma_parts_keep_wf();
}

/// PUSH and POP keep the model well formed and the mode of the processor
/// as it was.
proof fn lemma_stack_shape(cpu: CpuView, register: RegisterType)
    ensures
        cpu.wf() ==> cpu.popped16().with_register(register, cpu.top16()).wf(),
        same_mode(cpu, cpu.popped16().with_register(register, cpu.top16())),
        cpu.wf() ==> cpu.charged(1).pushed16(cpu.register.read(register)).wf(),
        same_mode(cpu, cpu.charged(1).pushed16(cpu.register.read(register))),
{
    lemma_parts_keep_wf();
}

/// Every action keeps the model well formed. An action other than DI, EI,
/// RETI, HALT and STOP leaves IME and the request of an earlier EI as they
/// were, and the processor neither halted nor stopped if it was not.
pub proof fn lemma_executed_shape(action: Action, cpu: CpuView, instruction: Instruction)
    ensures
        cpu.wf() ==> action.executed(cpu, instruction).wf(),
        action != Action::DI && action != Action::EI && action != Action::RETI && action
            != Action::HALT && action != Action::STOP ==> same_mode(
            cpu,
            action.executed(cpu, instruction),
        ),
        action == Action::RETI ==> action.executed(cpu, instruction).master_enabled
            && action.executed(cpu, instruction).enabling_ime == cpu.enabling_ime,
        action == Action::EI ==> action.executed(cpu, instruction).master_enabled
            == cpu.master_enabled && action.executed(cpu, instruction).enabling_ime,
        action == Action::DI ==> !action.executed(cpu, instruction).master_enabled
            && !action.executed(cpu, instruction).enabling_ime,
        action == Action::HALT || action == Action::STOP ==> action.executed(
            cpu,
            instruction,
        ).master_enabled == cpu.master_enabled && action.executed(cpu, instruction).enabling_ime
            == cpu.enabling_ime,
{
    reveal(Action::executed);
    lemma_loaded_shape(cpu, instruction);
    lemma_counted_shape(cpu, instruction, true);
    lemma_counted_shape(cpu, instruction, false);
    lemma_added_shape(cpu, instruction);
    lemma_computed_shape(action, cpu);
    lemma_accumulated_shape(action, cpu);
    lemma_bit_operated_shape(cpu, instruction);
    lemma_bit_operated_shape(cpu, Instruction::decode_cb(low_of(cpu.fetch_data)));
    lemma_high_loaded_shape(cpu, instruction);
    lemma_branches_shape(cpu, cpu.fetch_data, false, instruction.condition);
    lemma_branches_shape(cpu, cpu.fetch_data, true, instruction.condition);
    lemma_branches_shape(cpu, instruction.param, true, instruction.condition);
    lemma_branches_shape(
        cpu,
        crate::cpu::offset_address(cpu.register.pc, low_of(cpu.fetch_data)),
        false,
        instruction.condition,
    );
    lemma_branches_shape(
        CpuView { master_enabled: true, ..cpu },
        0,
        false,
        instruction.condition,
    );
    lemma_stack_shape(cpu, instruction.register_1);
    if cpu.wf() {
        cpu.register.lemma_write(RegisterType::PC, cpu.fetch_data);
    }
}

/// Entering an interrupt handler keeps the model well formed.
pub proof fn lemma_polled_wf(cpu: CpuView)
    requires
        cpu.wf(),
    ensures
        cpu.polled().wf(),
{
    lemma_parts_keep_wf();
}

/// A step keeps the model well formed; in particular the low nibble of F
/// is zero after every step, as it was before.
pub proof fn lemma_stepped_wf(cpu: CpuView)
    requires
        cpu.wf(),
    ensures
        cpu.stepped().wf(),
        cpu.stepped().register.f & 0x0F == 0,
{
    reveal(CpuView::stepped);
    reveal(Instruction::executed);
    if cpu.stopped {
    } else if cpu.halted {
        lemma_parts_keep_wf();
    } else {
        let instruction = Instruction::decode(cpu.next_byte());
        let start = cpu.decoded();
        assert(start.wf()) by {
            lemma_parts_keep_wf();
        }
        lemma_fetched_shape(instruction.address, start, instruction);
        let fetched = instruction.address.fetched(start, instruction);
        lemma_executed_shape(instruction.action, fetched, instruction);
        lemma_polled_wf(cpu.run().deferred(cpu.enabling_ime));
    }
}

} // verus!
