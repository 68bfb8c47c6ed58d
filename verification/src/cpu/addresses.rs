//! How an instruction finds its operands.

use vstd::prelude::*;
use crate::bus::next_address;
use crate::cpu::instructions::Instruction;
use crate::cpu::register::RegisterType;
use crate::cpu::{previous_address, CpuView, CPU};

verus! {

/// The address modes: where the operand comes from and where the result
/// goes.
#[derive(Debug, Clone, Copy, PartialEq, Eq, Structural)]
pub enum AddressMode {
    NONE,
    /// No operand.
    IMP,
    /// A 16-bit immediate, to be loaded into a register.
    RD16,
    /// The second register is the operand, the first the destination.
    RR,
    /// The second register is stored at the address in the first.
    MRR,
    /// The first register is the operand.
    R,
    /// An 8-bit immediate, to be loaded into a register.
    RD8,
    /// The byte at the address in the second register is the operand.
    RMR,
    /// As RMR with HL, which goes up by one afterwards.
    RHLI,
    /// As RMR with HL, which goes down by one afterwards.
    RHLD,
    /// As MRR with HL, which goes up by one afterwards.
    HLIR,
    /// As MRR with HL, which goes down by one afterwards.
    HLDR,
    /// An 8-bit immediate that names the address 0xFF00 + immediate to read.
    RA8,
    /// An 8-bit immediate that names the address 0xFF00 + immediate to write.
    A8R,
    /// A signed 8-bit immediate, to be added to SP.
    HLSPR,
    /// A 16-bit immediate.
    D16,
    /// An 8-bit immediate.
    D8,
    /// As A16R.
    D16R,
    /// An 8-bit immediate is stored at the address in the first register.
    MRD8,
    /// The byte at the address in the first register is operand and
    /// destination.
    MR,
    /// The second register is stored at a 16-bit immediate address.
    A16R,
    /// The byte at a 16-bit immediate address is the operand.
    RA16,
}

/// The address that a register names: its value, or for the 8-bit register
/// C the address 0xFF00 + C.
pub open spec fn named_address(register: RegisterType, value: u16) -> u16 {
    if register == RegisterType::C {
        (0xFF00 + value % 0x100) as u16
    } else {
        value
    }
}

/// The address in the high page that an 8-bit immediate names.
pub open spec fn high_page(offset: u8) -> u16 {
    (0xFF00 + offset) as u16
}

impl AddressMode {
    /// The state after the operands are fetched. Every mode first forgets
    /// the destination of the instruction before.
    #[verifier::opaque]
    pub open spec fn fetched(self, cpu: CpuView, instruction: Instruction) -> CpuView {
        let start = cpu.without_destination();
        let first = start.register.read(instruction.register_1);
        let second = start.register.read(instruction.register_2);
        let hl = start.register.read(RegisterType::HL);
        match self {
            AddressMode::NONE | AddressMode::IMP => start,
            AddressMode::RD16 | AddressMode::D16 => start.after_next_word().with_fetch_data(
                start.next_word(),
            ),
            AddressMode::RR => start.with_fetch_data(second),
            AddressMode::MRR => start.with_fetch_data(second).with_destination(
                named_address(instruction.register_1, first),
            ),
            AddressMode::R => start.with_fetch_data(first),
            AddressMode::RD8 | AddressMode::RA8 | AddressMode::HLSPR | AddressMode::D8 =>
                start.after_next_byte().with_fetch_data(start.next_byte() as u16),
            AddressMode::RMR => start.after_read().with_fetch_data(
                start.bus.read(named_address(instruction.register_2, second)) as u16,
            ),
            AddressMode::RHLI => start.after_read().with_fetch_data(
                start.bus.read(second) as u16,
            ).with_register(RegisterType::HL, next_address(hl)),
            AddressMode::RHLD => start.after_read().with_fetch_data(
                start.bus.read(second) as u16,
            ).with_register(RegisterType::HL, previous_address(hl)),
            AddressMode::HLIR => start.with_fetch_data(second).with_destination(
                first,
            ).with_register(RegisterType::HL, next_address(hl)),
            AddressMode::HLDR => start.with_fetch_data(second).with_destination(
                first,
            ).with_register(RegisterType::HL, previous_address(hl)),
            AddressMode::A8R => start.after_next_byte().with_destination(
                high_page(start.next_byte()),
            ),
            AddressMode::D16R | AddressMode::A16R => start.after_next_word().with_destination(
                start.next_word(),
            ).with_fetch_data(second),
            AddressMode::MRD8 => start.after_next_byte().with_fetch_data(
                start.next_byte() as u16,
            ).with_destination(first),
            AddressMode::MR => start.with_destination(first).after_read().with_fetch_data(
                start.bus.read(first) as u16,
            ),
            AddressMode::RA16 => start.after_next_word().after_read().with_fetch_data(
                start.after_next_word().bus.read(start.next_word()) as u16,
            ),
        }
    }

    /// Machine cycles that fetching takes: one for each byte read at PC and
    /// one for each byte read elsewhere in memory.
    pub open spec fn fetch_cycles(self) -> nat {
        match self {
            AddressMode::NONE
            | AddressMode::IMP
            | AddressMode::RR
            | AddressMode::MRR
            | AddressMode::R
            | AddressMode::HLIR
            | AddressMode::HLDR => 0,
            AddressMode::RD8
            | AddressMode::RA8
            | AddressMode::HLSPR
            | AddressMode::D8
            | AddressMode::A8R
            | AddressMode::MRD8
            | AddressMode::RMR
            | AddressMode::RHLI
            | AddressMode::RHLD
            | AddressMode::MR => 1,
            AddressMode::RD16 | AddressMode::D16 | AddressMode::D16R | AddressMode::A16R => 2,
            AddressMode::RA16 => 3,
        }
    }

    /// Fetches the operands of `instruction` in this mode and says how many
    /// machine cycles that took.
    pub fn fetch(&self, cpu: &mut CPU, instruction: &Instruction) -> (cycles: u8)
        requires
            old(cpu).wf(),
        ensures
            final(cpu).wf(),
            final(cpu)@ == self.fetched(old(cpu)@, *instruction),
            cycles == self.fetch_cycles(),
    {
        reveal(AddressMode::fetched);
        match self {
            AddressMode::NONE | AddressMode::IMP => {
                cpu.clear_destination();
                0
            },
            AddressMode::RD16 | AddressMode::D16 => {
                immediate_word(cpu, instruction);
                2
            },
            AddressMode::RR => {
                second_register(cpu, instruction);
                0
            },
            AddressMode::MRR => {
                register_to_memory(cpu, instruction);
                0
            },
            AddressMode::R => {
                first_register(cpu, instruction);
                0
            },
            AddressMode::RD8 | AddressMode::RA8 | AddressMode::HLSPR | AddressMode::D8 => {
                immediate_byte(cpu, instruction);
                1
            },
            AddressMode::RMR => {
                memory_to_register(cpu, instruction);
                1
            },
            AddressMode::RHLI => {
                memory_then_up(cpu, instruction);
                1
            },
            AddressMode::RHLD => {
                memory_then_down(cpu, instruction);
                1
            },
            AddressMode::HLIR => {
                store_then_up(cpu, instruction);
                0
            },
            AddressMode::HLDR => {
                store_then_down(cpu, instruction);
                0
            },
            AddressMode::A8R => {
                high_page_destination(cpu, instruction);
                1
            },
            AddressMode::D16R | AddressMode::A16R => {
                immediate_destination(cpu, instruction);
                2
            },
            AddressMode::MRD8 => {
                immediate_to_memory(cpu, instruction);
                1
            },
            AddressMode::MR => {
                memory_in_place(cpu, instruction);
                1
            },
            AddressMode::RA16 => {
                immediate_address(cpu, instruction);
                3
            },
        }
    }
}

/// The 16-bit immediate is the operand.
fn immediate_word(cpu: &mut CPU, instruction: &Instruction)
    requires
        old(cpu).wf(),
    ensures
        final(cpu).wf(),
        final(cpu)@ == AddressMode::RD16.fetched(old(cpu)@, *instruction),
        final(cpu)@ == AddressMode::D16.fetched(old(cpu)@, *instruction),
{
    reveal(AddressMode::fetched);
    cpu.clear_destination();
    let data = cpu.fetch_word();
    cpu.set_fetch_data(data);
}

/// The second register is the operand.
fn second_register(cpu: &mut CPU, instruction: &Instruction)
    requires
        old(cpu).wf(),
    ensures
        final(cpu).wf(),
        final(cpu)@ == AddressMode::RR.fetched(old(cpu)@, *instruction),
{
    reveal(AddressMode::fetched);
    cpu.clear_destination();
    let data = cpu.read_register(&instruction.register_2);
    cpu.set_fetch_data(data);
}

/// The second register is the operand, the address in the first the
/// destination.
fn register_to_memory(cpu: &mut CPU, instruction: &Instruction)
    requires
        old(cpu).wf(),
    ensures
        final(cpu).wf(),
        final(cpu)@ == AddressMode::MRR.fetched(old(cpu)@, *instruction),
{
    reveal(AddressMode::fetched);
    cpu.clear_destination();
    let data = cpu.read_register(&instruction.register_2);
    cpu.set_fetch_data(data);
    let address = named(instruction.register_1, cpu.read_register(&instruction.register_1));
    cpu.set_destination(address);
}

/// The first register is the operand.
fn first_register(cpu: &mut CPU, instruction: &Instruction)
    requires
        old(cpu).wf(),
    ensures
        final(cpu).wf(),
        final(cpu)@ == AddressMode::R.fetched(old(cpu)@, *instruction),
{
    reveal(AddressMode::fetched);
    cpu.clear_destination();
    let data = cpu.read_register(&instruction.register_1);
    cpu.set_fetch_data(data);
}

/// The 8-bit immediate is the operand.
fn immediate_byte(cpu: &mut CPU, instruction: &Instruction)
    requires
        old(cpu).wf(),
    ensures
        final(cpu).wf(),
        final(cpu)@ == AddressMode::RD8.fetched(old(cpu)@, *instruction),
        final(cpu)@ == AddressMode::RA8.fetched(old(cpu)@, *instruction),
        final(cpu)@ == AddressMode::HLSPR.fetched(old(cpu)@, *instruction),
        final(cpu)@ == AddressMode::D8.fetched(old(cpu)@, *instruction),
{
    reveal(AddressMode::fetched);
    cpu.clear_destination();
    let data = cpu.fetch_byte();
    cpu.set_fetch_data(data as u16);
}

/// The byte at the address in the second register is the operand.
fn memory_to_register(cpu: &mut CPU, instruction: &Instruction)
    requires
        old(cpu).wf(),
    ensures
        final(cpu).wf(),
        final(cpu)@ == AddressMode::RMR.fetched(old(cpu)@, *instruction),
{
    reveal(AddressMode::fetched);
    cpu.clear_destination();
    let address = named(instruction.register_2, cpu.read_register(&instruction.register_2));
    let data = cpu.read_memory(address);
    cpu.set_fetch_data(data as u16);
}

/// The byte at the address in the second register is the operand; HL goes
/// up by one.
fn memory_then_up(cpu: &mut CPU, instruction: &Instruction)
    requires
        old(cpu).wf(),
    ensures
        final(cpu).wf(),
        final(cpu)@ == AddressMode::RHLI.fetched(old(cpu)@, *instruction),
{
    reveal(AddressMode::fetched);
    cpu.clear_destination();
    let address = cpu.read_register(&instruction.register_2);
    let data = cpu.read_memory(address);
    cpu.set_fetch_data(data as u16);
    let hl = cpu.read_register(&RegisterType::HL);
    cpu.set_register(&RegisterType::HL, hl.wrapping_add(1));
}

/// The byte at the address in the second register is the operand; HL goes
/// down by one.
fn memory_then_down(cpu: &mut CPU, instruction: &Instruction)
    requires
        old(cpu).wf(),
    ensures
        final(cpu).wf(),
        final(cpu)@ == AddressMode::RHLD.fetched(old(cpu)@, *instruction),
{
    reveal(AddressMode::fetched);
    cpu.clear_destination();
    let address = cpu.read_register(&instruction.register_2);
    let data = cpu.read_memory(address);
    cpu.set_fetch_data(data as u16);
    let hl = cpu.read_register(&RegisterType::HL);
    cpu.set_register(&RegisterType::HL, hl.wrapping_sub(1));
}

/// The second register is the operand, the address in the first the
/// destination; HL goes up by one.
fn store_then_up(cpu: &mut CPU, instruction: &Instruction)
    requires
        old(cpu).wf(),
    ensures
        final(cpu).wf(),
        final(cpu)@ == AddressMode::HLIR.fetched(old(cpu)@, *instruction),
{
    reveal(AddressMode::fetched);
    cpu.clear_destination();
    let data = cpu.read_register(&instruction.register_2);
    cpu.set_fetch_data(data);
    let address = cpu.read_register(&instruction.register_1);
    cpu.set_destination(address);
    let hl = cpu.read_register(&RegisterType::HL);
    cpu.set_register(&RegisterType::HL, hl.wrapping_add(1));
}

/// The second register is the operand, the address in the first the
/// destination; HL goes down by one.
fn store_then_down(cpu: &mut CPU, instruction: &Instruction)
    requires
        old(cpu).wf(),
    ensures
        final(cpu).wf(),
        final(cpu)@ == AddressMode::HLDR.fetched(old(cpu)@, *instruction),
{
    reveal(AddressMode::fetched);
    cpu.clear_destination();
    let data = cpu.read_register(&instruction.register_2);
    cpu.set_fetch_data(data);
    let address = cpu.read_register(&instruction.register_1);
    cpu.set_destination(address);
    let hl = cpu.read_register(&RegisterType::HL);
    cpu.set_register(&RegisterType::HL, hl.wrapping_sub(1));
}

/// The 8-bit immediate names the destination in the high page.
fn high_page_destination(cpu: &mut CPU, instruction: &Instruction)
    requires
        old(cpu).wf(),
    ensures
        final(cpu).wf(),
        final(cpu)@ == AddressMode::A8R.fetched(old(cpu)@, *instruction),
{
    reveal(AddressMode::fetched);
    cpu.clear_destination();
    let offset = cpu.fetch_byte();
    cpu.set_destination(0xFF00 + (offset as u16));
}

/// The 16-bit immediate is the destination, the second register the
/// operand.
fn immediate_destination(cpu: &mut CPU, instruction: &Instruction)
    requires
        old(cpu).wf(),
    ensures
        final(cpu).wf(),
        final(cpu)@ == AddressMode::D16R.fetched(old(cpu)@, *instruction),
        final(cpu)@ == AddressMode::A16R.fetched(old(cpu)@, *instruction),
{
    reveal(AddressMode::fetched);
    cpu.clear_destination();
    let data = cpu.read_register(&instruction.register_2);
    let address = cpu.fetch_word();
    cpu.set_destination(address);
    cpu.set_fetch_data(data);
}

/// The 8-bit immediate is the operand, the address in the first register
/// the destination.
fn immediate_to_memory(cpu: &mut CPU, instruction: &Instruction)
    requires
        old(cpu).wf(),
    ensures
        final(cpu).wf(),
        final(cpu)@ == AddressMode::MRD8.fetched(old(cpu)@, *instruction),
{
    reveal(AddressMode::fetched);
    cpu.clear_destination();
    let address = cpu.read_register(&instruction.register_1);
    let data = cpu.fetch_byte();
    cpu.set_fetch_data(data as u16);
    cpu.set_destination(address);
}

/// The byte at the address in the first register is operand and
/// destination.
fn memory_in_place(cpu: &mut CPU, instruction: &Instruction)
    requires
        old(cpu).wf(),
    ensures
        final(cpu).wf(),
        final(cpu)@ == AddressMode::MR.fetched(old(cpu)@, *instruction),
{
    reveal(AddressMode::fetched);
    cpu.clear_destination();
    let address = cpu.read_register(&instruction.register_1);
    cpu.set_destination(address);
    let data = cpu.read_memory(address);
    cpu.set_fetch_data(data as u16);
}

/// The byte at the 16-bit immediate address is the operand.
fn immediate_address(cpu: &mut CPU, instruction: &Instruction)
    requires
        old(cpu).wf(),
    ensures
        final(cpu).wf(),
        final(cpu)@ == AddressMode::RA16.fetched(old(cpu)@, *instruction),
{
    reveal(AddressMode::fetched);
    cpu.clear_destination();
    let address = cpu.fetch_word();
    let data = cpu.read_memory(address);
    cpu.set_fetch_data(data as u16);
}

/// The address that a register with the given value names.
fn named(register: RegisterType, value: u16) -> (address: u16)
    ensures
        address == named_address(register, value),
{
    match register {
        RegisterType::C => 0xFF00 + value % 0x100,
        _ => value,
    }
}

} // verus!
