//! The published timing of the instruction set, in machine cycles, and the
//! proof that every instruction takes exactly its published time.

use vstd::prelude::*;
use crate::bus::{low_of, BusView};
use crate::cpu::actions::{
    accumulated, add_cycles, added, bit_cycles, bit_operated, computed, count_cycles, counted,
    high_loaded, is_prefixed, load_cycles, loaded, Action,
};
use crate::cpu::conditions::ConditionType;
use crate::cpu::offset_address;
use crate::cpu::register::RegisterType;
use crate::cpu::addresses::AddressMode;
use crate::cpu::instructions::Instruction;
use crate::cpu::{CpuView, SERVICE_CYCLES};

verus! {

/// Published machine cycles of the opcodes 0x00..=0x3F, by the fields of
/// the opcode. A conditional JR takes one cycle more when taken.
pub open spec fn low_cycles(y: int, z: int, taken: bool) -> nat {
    if z == 0 {
        if y == 0 {
            1
        } else if y == 1 {
            5
        } else if y == 2 {
            1
        } else if y == 3 {
            3
        } else if taken {
            3
        } else {
            2
        }
    } else if z == 1 {
        if y % 2 == 0 {
            3
        } else {
            2
        }
    } else if z == 2 || z == 3 {
        2
    } else if z == 4 || z == 5 {
        if y == 6 {
            3
        } else {
            1
        }
    } else if z == 6 {
        if y == 6 {
            3
        } else {
            2
        }
    } else {
        1
    }
}

/// Published machine cycles of the loads 0x40..=0x7F: one between
/// registers, two through (HL); HALT takes one.
pub open spec fn load_page_cycles(y: int, z: int) -> nat {
    if y == 6 && z == 6 {
        1
    } else if y == 6 || z == 6 {
        2
    } else {
        1
    }
}

/// Published machine cycles of the arithmetic 0x80..=0xBF: one with a
/// register, two with (HL).
pub open spec fn arithmetic_page_cycles(z: int) -> nat {
    if z == 6 {
        2
    } else {
        1
    }
}

/// Published machine cycles of the opcodes 0xC0..=0xFF, but for the prefix
/// 0xCB. Conditional RET, JP and CALL take three, one and three cycles more
/// when taken. The unassigned opcodes have no time.
pub open spec fn high_cycles(y: int, z: int, taken: bool) -> nat {
    let p = y / 2;
    let q = y % 2;
    if z == 0 {
        if y < 4 {
            if taken {
                5
            } else {
                2
            }
        } else if y == 5 {
            4
        } else {
            3
        }
    } else if z == 1 {
        if q == 0 {
            3
        } else if p == 0 || p == 1 {
            4
        } else if p == 2 {
            1
        } else {
            2
        }
    } else if z == 2 {
        if y < 4 {
            if taken {
                4
            } else {
                3
            }
        } else if y == 4 || y == 6 {
            2
        } else {
            4
        }
    } else if z == 3 {
        if y == 0 {
            4
        } else if y == 6 || y == 7 {
            1
        } else {
            0
        }
    } else if z == 4 {
        if y >= 4 {
            0
        } else if taken {
            6
        } else {
            3
        }
    } else if z == 5 {
        if q == 0 {
            4
        } else if p == 0 {
            6
        } else {
            0
        }
    } else if z == 6 {
        2
    } else {
        4
    }
}

/// Published machine cycles of an opcode of the main page, given whether
/// its branch, if it is one, is taken.
pub open spec fn machine_cycles(opcode: u8, taken: bool) -> nat {
    let x = opcode / 64;
    let y = ((opcode / 8) % 8) as int;
    let z = (opcode % 8) as int;
    if x == 0 {
        low_cycles(y, z, taken)
    } else if x == 1 {
        load_page_cycles(y, z)
    } else if x == 2 {
        arithmetic_page_cycles(z)
    } else {
        high_cycles(y, z, taken)
    }
}

/// Published machine cycles of the byte behind the prefix 0xCB, the prefix
/// included: two on a register, four on (HL), three for BIT on (HL).
pub open spec fn prefixed_cycles(opcode: u8) -> nat {
    if opcode % 8 != 6 {
        2
    } else if opcode / 64 == 1 {
        3
    } else {
        4
    }
}

/// Published machine cycles of the instruction at PC, which must not be an
/// unassigned opcode.
pub open spec fn published_cycles(cpu: CpuView) -> nat {
    let opcode = cpu.next_byte();
    if opcode == 0xCB {
        prefixed_cycles(cpu.decoded().next_byte())
    } else {
        machine_cycles(
            opcode,
            Instruction::decode(opcode).condition.holds(cpu.register.flags()),
        )
    }
}

/// What fetching leaves behind that the time of an action depends on:
/// whether the action writes to memory, the flags, which fetching does not
/// touch, and for an 8-bit immediate the byte that was read.
pub proof fn lemma_fetched(mode: AddressMode, cpu: CpuView, instruction: Instruction)
    ensures
        mode.fetched(cpu, instruction).dest_is_mem == (mode == AddressMode::MRR || mode
            == AddressMode::HLIR || mode == AddressMode::HLDR || mode == AddressMode::A8R || mode
            == AddressMode::D16R || mode == AddressMode::A16R || mode == AddressMode::MRD8 || mode
            == AddressMode::MR),
        mode.fetched(cpu, instruction).register.f == cpu.register.f,
        mode == AddressMode::D8 ==> mode.fetched(cpu, instruction).fetch_data
            == cpu.next_byte() as u16,
        mode.fetched(cpu, instruction).master_enabled == cpu.master_enabled,
        mode.fetched(cpu, instruction).enabling_ime == cpu.enabling_ime,
        mode.fetched(cpu, instruction).halted == cpu.halted,
        mode.fetched(cpu, instruction).stopped == cpu.stopped,
{
    reveal(AddressMode::fetched);
}

/// Machine cycles of an instruction with its opcode, on the state in which
/// its operands are fetched.
pub open spec fn spent(instruction: Instruction, start: CpuView) -> nat {
    1 + instruction.address.fetch_cycles() + instruction.action.execute_cycles(
        instruction.address.fetched(start, instruction),
        instruction,
    )
}

/// The opcodes 0x00..=0x3F take their published time.
pub proof fn lemma_low_cycles(y: int, z: int, start: CpuView)
    requires
        0 <= y < 8,
        0 <= z < 8,
    ensures
        spent(Instruction::decode_low(y, z), start) == low_cycles(
            y,
            z,
            Instruction::decode_low(y, z).condition.holds(start.register.flags()),
        ),
{
    let instruction = Instruction::decode_low(y, z);
    reveal(Action::execute_cycles);
    lemma_fetched(instruction.address, start, instruction);
}

/// The loads 0x40..=0x7F take their published time.
pub proof fn lemma_load_page_cycles(y: int, z: int, start: CpuView)
    requires
        0 <= y < 8,
        0 <= z < 8,
    ensures
        spent(Instruction::decode_load(y, z), start) == load_page_cycles(y, z),
{
    let instruction = Instruction::decode_load(y, z);
    reveal(Action::execute_cycles);
    lemma_fetched(instruction.address, start, instruction);
}

/// The arithmetic 0x80..=0xBF takes its published time.
pub proof fn lemma_arithmetic_page_cycles(y: int, z: int, start: CpuView)
    requires
        0 <= y < 8,
        0 <= z < 8,
    ensures
        spent(Instruction::decode_arithmetic(y, z), start) == arithmetic_page_cycles(z),
{
    let instruction = Instruction::decode_arithmetic(y, z);
    reveal(Action::execute_cycles);
    lemma_fetched(instruction.address, start, instruction);
}

/// The opcodes 0xC0..=0xFF that are assigned take their published time;
/// the prefix has its own table.
pub proof fn lemma_high_cycles(y: int, z: int, start: CpuView)
    requires
        0 <= y < 8,
        0 <= z < 8,
        !Instruction::decode_high(y, z).is_unassigned(),
        Instruction::decode_high(y, z).action != Action::CB,
    ensures
        spent(Instruction::decode_high(y, z), start) == high_cycles(
            y,
            z,
            Instruction::decode_high(y, z).condition.holds(start.register.flags()),
        ),
{
    let instruction = Instruction::decode_high(y, z);
    reveal(Action::execute_cycles);
    lemma_fetched(instruction.address, start, instruction);
}

/// The byte behind the prefix takes its published time.
pub proof fn lemma_prefixed_cycles(start: CpuView)
    ensures
        spent(Instruction::plain(Action::CB, AddressMode::D8), start) == prefixed_cycles(
            start.next_byte(),
        ),
{
    let instruction = Instruction::plain(Action::CB, AddressMode::D8);
    let second = start.next_byte();
    reveal(Action::execute_cycles);
    lemma_fetched(instruction.address, start, instruction);
    assert(low_of(second as u16) == second);
    assert(is_prefixed(Instruction::decode_cb(second)));
}

/// Every instruction takes its published time: the machine cycle of its
/// opcode, those of its fetch and those of its action add up to the entry
/// of the timing table, for a branch the entry of the way it goes.
pub proof fn lemma_instruction_cycles(cpu: CpuView)
    requires
        !Instruction::illegal(cpu.next_byte()),
    ensures
        1 + Instruction::decode(cpu.next_byte()).cycles(cpu.decoded()) == published_cycles(cpu),
{
    let opcode = cpu.next_byte();
    let instruction = Instruction::decode(opcode);
    let start = cpu.decoded();
    let x = opcode / 64;
    let y = ((opcode / 8) % 8) as int;
    let z = (opcode % 8) as int;
    reveal(Instruction::cycles);
    Instruction::lemma_unassigned(opcode);
    assert(opcode == 64 * x + 8 * y + z);
    assert(start.register.f == cpu.register.f);
    if x == 0 {
        lemma_low_cycles(y, z, start);
    } else if x == 1 {
        lemma_load_page_cycles(y, z, start);
    } else if x == 2 {
        lemma_arithmetic_page_cycles(y, z, start);
    } else if opcode == 0xCB {
        lemma_prefixed_cycles(start);
    } else {
        assert(instruction.action == Action::CB ==> y == 1 && z == 3);
        lemma_high_cycles(y, z, start);
    }
}

/// The clock of `after` is `cycles` machine cycles ahead of that of
/// `before`.
pub open spec fn took(before: CpuView, after: CpuView, cycles: nat) -> bool {
    after.bus.elapsed == before.bus.elapsed + cycles
}

/// Time passes when the bus is advanced, and only then.
pub proof fn lemma_clock()
    ensures
        forall|bus: BusView, n: nat| (#[trigger] bus.advanced(n)).elapsed == bus.elapsed + n,
        forall|bus: BusView, address: u16, value: u8|
            (#[trigger] bus.write(address, value)).elapsed == bus.elapsed,
{
    reveal(BusView::advanced);
    reveal(BusView::write);
}

/// Fetching takes the machine cycles it says.
pub proof fn lemma_fetched_time(mode: AddressMode, cpu: CpuView, instruction: Instruction)
    ensures
        took(cpu, mode.fetched(cpu, instruction), mode.fetch_cycles()),
{
    lemma_clock();
    reveal(AddressMode::fetched);
}

proof fn lemma_loaded_time(cpu: CpuView, instruction: Instruction)
    ensures
        took(cpu, loaded(cpu, instruction), load_cycles(cpu, instruction)),
{
    lemma_clock();
    reveal(loaded);
}

proof fn lemma_counted_time(cpu: CpuView, instruction: Instruction, up: bool)
    ensures
        took(cpu, counted(cpu, instruction, up), count_cycles(instruction)),
{
    lemma_clock();
    reveal(counted);
}

proof fn lemma_added_time(cpu: CpuView, instruction: Instruction)
    ensures
        took(cpu, added(cpu, instruction), add_cycles(instruction)),
{
    lemma_clock();
    reveal(added);
    reveal(computed);
}

proof fn lemma_immediate_time(action: Action, cpu: CpuView)
    ensures
        took(cpu, computed(action, cpu), 0),
        took(cpu, accumulated(action, cpu), 0),
{
    reveal(computed);
    reveal(accumulated);
}

proof fn lemma_bit_operated_time(cpu: CpuView, instruction: Instruction)
    ensures
        took(cpu, bit_operated(cpu, instruction), bit_cycles(instruction)),
{
    lemma_clock();
    reveal(bit_operated);
}

proof fn lemma_high_loaded_time(cpu: CpuView, instruction: Instruction)
    ensures
        took(cpu, high_loaded(cpu, instruction), 1),
{
    lemma_clock();
    reveal(high_loaded);
}

proof fn lemma_branches_time(cpu: CpuView, address: u16, push_pc: bool, condition: ConditionType)
    ensures
        took(
            cpu,
            cpu.gone_to(address, push_pc, condition),
            cpu.go_to_cycles(push_pc, condition),
        ),
        took(cpu, cpu.returned(condition), cpu.return_cycles(condition)),
{
    lemma_clock();
}

proof fn lemma_stack_time(cpu: CpuView, register: RegisterType)
    ensures
        took(cpu, cpu.popped16().with_register(register, cpu.top16()), 2),
        took(cpu, cpu.charged(1).pushed16(cpu.register.read(register)), 3),
{
    lemma_clock();
}

proof fn lemma_moves_time(action: Action, cpu: CpuView, instruction: Instruction)
    requires
        action == Action::LD || action == Action::INC || action == Action::DEC || action == Action::ADD || action == Action::LDH,
    ensures
        took(cpu, action.executed(cpu, instruction), action.execute_cycles(cpu, instruction)),
{
    reveal(Action::executed);
    reveal(Action::execute_cycles);
    lemma_loaded_time(cpu, instruction);
    lemma_counted_time(cpu, instruction, true);
    lemma_counted_time(cpu, instruction, false);
    lemma_added_time(cpu, instruction);
    lemma_high_loaded_time(cpu, instruction);
}

proof fn lemma_branches_time_of(action: Action, cpu: CpuView, instruction: Instruction)
    requires
        action == Action::JR || action == Action::JUMP || action == Action::CALL || action == Action::RST || action == Action::RET || action == Action::RETI,
    ensures
        took(cpu, action.executed(cpu, instruction), action.execute_cycles(cpu, instruction)),
{
    reveal(Action::executed);
    reveal(Action::execute_cycles);
    lemma_branches_time(cpu, cpu.fetch_data, false, instruction.condition);
    lemma_branches_time(cpu, cpu.fetch_data, true, instruction.condition);
    lemma_branches_time(cpu, instruction.param, true, instruction.condition);
    lemma_branches_time(
        cpu,
        offset_address(cpu.register.pc, low_of(cpu.fetch_data)),
        false,
        instruction.condition,
    );
    lemma_branches_time(CpuView { master_enabled: true, ..cpu }, 0, false, instruction.condition);
}

proof fn lemma_stack_time_of(action: Action, cpu: CpuView, instruction: Instruction)
    requires
        action == Action::POP || action == Action::PUSH,
    ensures
        took(cpu, action.executed(cpu, instruction), action.execute_cycles(cpu, instruction)),
{
    reveal(Action::executed);
    reveal(Action::execute_cycles);
    lemma_stack_time(cpu, instruction.register_1);
}

proof fn lemma_bits_time(action: Action, cpu: CpuView, instruction: Instruction)
    requires
        action == Action::CB || action == Action::RLC || action == Action::RRC || action == Action::RL || action == Action::RR || action == Action::SLA || action == Action::SRA || action == Action::SWAP || action == Action::SRL || action == Action::BIT || action == Action::RES || action == Action::SET,
    ensures
        took(cpu, action.executed(cpu, instruction), action.execute_cycles(cpu, instruction)),
{
    reveal(Action::executed);
    reveal(Action::execute_cycles);
    lemma_bit_operated_time(cpu, instruction);
    lemma_bit_operated_time(cpu, Instruction::decode_cb(low_of(cpu.fetch_data)));
}

proof fn lemma_rest_time(action: Action, cpu: CpuView, instruction: Instruction)
    requires
        action != Action::LD && action != Action::INC && action != Action::DEC && action != Action::ADD && action != Action::LDH && action != Action::JR && action != Action::JUMP && action != Action::CALL && action != Action::RST && action != Action::RET && action != Action::RETI && action != Action::POP && action != Action::PUSH && action != Action::CB && action != Action::RLC && action != Action::RRC && action != Action::RL && action != Action::RR && action != Action::SLA && action != Action::SRA && action != Action::SWAP && action != Action::SRL && action != Action::BIT && action != Action::RES && action != Action::SET,
    ensures
        took(cpu, action.executed(cpu, instruction), action.execute_cycles(cpu, instruction)),
{
    reveal(Action::executed);
    reveal(Action::execute_cycles);
    lemma_immediate_time(action, cpu);
}

/// Every action takes the machine cycles it says.
pub proof fn lemma_executed_time(action: Action, cpu: CpuView, instruction: Instruction)
    ensures
        took(cpu, action.executed(cpu, instruction), action.execute_cycles(cpu, instruction)),
{
    if action == Action::LD || action == Action::INC || action == Action::DEC || action == Action::ADD || action == Action::LDH {
        lemma_moves_time(action, cpu, instruction);
    } else if action == Action::JR || action == Action::JUMP || action == Action::CALL || action == Action::RST || action == Action::RET || action == Action::RETI {
        lemma_branches_time_of(action, cpu, instruction);
    } else if action == Action::POP || action == Action::PUSH {
        lemma_stack_time_of(action, cpu, instruction);
    } else if action == Action::CB || action == Action::RLC || action == Action::RRC || action == Action::RL || action == Action::RR || action == Action::SLA || action == Action::SRA || action == Action::SWAP || action == Action::SRL || action == Action::BIT || action == Action::RES || action == Action::SET {
        lemma_bits_time(action, cpu, instruction);
    } else {
        lemma_rest_time(action, cpu, instruction);
    }
}

/// The clock runs as long as a step says it took: the machine cycles that
/// a step reports are those that have passed on the bus, for the timer and
/// for everything else that counts them.
pub proof fn lemma_step_time(cpu: CpuView)
    ensures
        took(cpu, cpu.stepped(), cpu.step_cycles()),
{
    reveal(CpuView::stepped);
    reveal(CpuView::step_cycles);
    reveal(Instruction::executed);
    reveal(Instruction::cycles);
    lemma_clock();
    if !cpu.stopped && !cpu.halted {
        let instruction = Instruction::decode(cpu.next_byte());
        let start = cpu.decoded();
        lemma_fetched_time(instruction.address, start, instruction);
        lemma_executed_time(
            instruction.action,
            instruction.address.fetched(start, instruction),
            instruction,
        );
    }
}

/// A step takes the published time of its instruction, and five machine
/// cycles more if it ends by entering an interrupt handler. A halted
/// processor idles for one machine cycle, a stopped one for none.
pub proof fn lemma_step_cycles(cpu: CpuView)
    requires
        cpu.can_step(),
    ensures
        cpu.stopped ==> cpu.step_cycles() == 0,
        !cpu.stopped && cpu.halted ==> cpu.step_cycles() == 1,
        !cpu.stopped && !cpu.halted ==> cpu.step_cycles() == published_cycles(cpu) + (if cpu.run().deferred(
            cpu.enabling_ime,
        ).due() is Some {
            SERVICE_CYCLES as nat
        } else {
            0
        }),
{
    reveal(CpuView::step_cycles);
    if !cpu.stopped && !cpu.halted {
        lemma_instruction_cycles(cpu);
    }
}

} // verus!
