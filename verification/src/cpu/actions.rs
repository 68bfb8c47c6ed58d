//! What an instruction does once its operands are fetched.

use vstd::prelude::*;
use crate::bus::{low, low_of, next_address};
use crate::cpu::addresses::{high_page, AddressMode};
use crate::cpu::alu;
use crate::cpu::instructions::Instruction;
use crate::cpu::register::{Flags, RegisterType};
use crate::cpu::{offset, offset_address, previous_address, CpuView, CPU};

verus! {

/// The mnemonics. `NONE` is what an unassigned opcode decodes to; the
/// last eleven are those of the page behind the prefix 0xCB.
#[derive(Debug, Clone, Copy, PartialEq, Eq, Structural)]
pub enum Action {
    NONE,
    NOP,
    LD,
    INC,
    DEC,
    RLCA,
    ADD,
    RRCA,
    STOP,
    RLA,
    JR,
    RRA,
    DAA,
    CPL,
    SCF,
    CCF,
    HALT,
    ADC,
    SUB,
    SBC,
    AND,
    XOR,
    OR,
    CP,
    POP,
    JUMP,
    PUSH,
    RET,
    CB,
    CALL,
    RETI,
    LDH,
    JPHL,
    DI,
    EI,
    RST,
    ERR,
    RLC,
    RRC,
    RL,
    RR,
    SLA,
    SRA,
    SWAP,
    SRL,
    BIT,
    RES,
    SET,
}

/// LD. To memory: the operand is written to the destination, a word if the
/// source register is a pair. LD HL,SP+e8: the first register takes the
/// second moved by the signed operand, with the flags of that addition, in
/// one more machine cycle. Otherwise the first register takes the operand;
/// between 16-bit registers that takes one more machine cycle.
#[verifier::opaque]
pub open spec fn loaded(cpu: CpuView, instruction: Instruction) -> CpuView {
    if cpu.dest_is_mem {
        if instruction.register_2.wide() {
            cpu.stored16(cpu.mem_dest, cpu.fetch_data)
        } else {
            cpu.stored(cpu.mem_dest, low_of(cpu.fetch_data))
        }
    } else if instruction.address == AddressMode::HLSPR {
        let (value, flags) = alu::add_offset(
            cpu.register.read(instruction.register_2),
            low_of(cpu.fetch_data),
        );
        cpu.with_flags(flags).with_register(instruction.register_1, value).charged(1)
    } else if instruction.address == AddressMode::RR && instruction.register_1.wide() {
        cpu.with_register(instruction.register_1, cpu.fetch_data).charged(1)
    } else {
        cpu.with_register(instruction.register_1, cpu.fetch_data)
    }
}

pub open spec fn load_cycles(cpu: CpuView, instruction: Instruction) -> nat {
    if cpu.dest_is_mem {
        if instruction.register_2.wide() {
            2
        } else {
            1
        }
    } else if instruction.address == AddressMode::HLSPR || (instruction.address == AddressMode::RR
        && instruction.register_1.wide()) {
        1
    } else {
        0
    }
}

/// INC (`up`) and DEC. Of the byte in memory: it is written back, with the
/// flags of the operation. Of a 16-bit register: it wraps at 16 bits, the
/// flags stay, and a machine cycle passes. Of an 8-bit register: with the
/// flags of the operation.
#[verifier::opaque]
pub open spec fn counted(cpu: CpuView, instruction: Instruction, up: bool) -> CpuView {
    let register = instruction.register_1;
    if instruction.address == AddressMode::MR {
        let (value, flags) = counted_byte(low_of(cpu.fetch_data), cpu.register.flags(), up);
        cpu.stored(cpu.mem_dest, value).with_flags(flags)
    } else if register.wide() {
        let value = cpu.register.read(register);
        cpu.with_register(
            register,
            if up { next_address(value) } else { previous_address(value) },
        ).charged(1)
    } else {
        let (value, flags) = counted_byte(
            low_of(cpu.register.read(register)),
            cpu.register.flags(),
            up,
        );
        cpu.with_register(register, value as u16).with_flags(flags)
    }
}

pub open spec fn counted_byte(value: u8, flags: Flags, up: bool) -> (u8, Flags) {
    if up {
        alu::inc8(value, flags)
    } else {
        alu::dec8(value, flags)
    }
}

pub open spec fn count_cycles(instruction: Instruction) -> nat {
    if instruction.address == AddressMode::MR || instruction.register_1.wide() {
        1
    } else {
        0
    }
}

/// What 8-bit arithmetic makes of A, the operand and the flags. CP computes
/// as SUB does.
pub open spec fn arithmetic_outcome(action: Action, a: u8, n: u8, flags: Flags) -> (u8, Flags) {
    match action {
        Action::ADD => alu::add8(a, n, false),
        Action::ADC => alu::add8(a, n, flags.c),
        Action::SUB | Action::CP => alu::sub8(a, n, false),
        Action::SBC => alu::sub8(a, n, flags.c),
        Action::AND => alu::and8(a, n),
        Action::XOR => alu::xor8(a, n),
        Action::OR => alu::or8(a, n),
        _ => (a, flags),
    }
}

/// 8-bit arithmetic on A with the low byte of the operand. CP sets the
/// flags and leaves A alone.
#[verifier::opaque]
pub open spec fn computed(action: Action, cpu: CpuView) -> CpuView {
    let (value, flags) = arithmetic_outcome(
        action,
        cpu.register.a,
        low_of(cpu.fetch_data),
        cpu.register.flags(),
    );
    if action == Action::CP {
        cpu.with_flags(flags)
    } else {
        cpu.with_register(RegisterType::A, value as u16).with_flags(flags)
    }
}

/// ADD. To SP: the signed operand, in two more machine cycles. To a pair:
/// the 16-bit operand, in one more machine cycle. Otherwise to A.
#[verifier::opaque]
pub open spec fn added(cpu: CpuView, instruction: Instruction) -> CpuView {
    let register = instruction.register_1;
    if register == RegisterType::SP {
        let (value, flags) = alu::add_offset(cpu.register.sp, low_of(cpu.fetch_data));
        cpu.with_register(register, value).with_flags(flags).charged(2)
    } else if register.wide() {
        let (value, flags) = alu::add16(
            cpu.register.read(register),
            cpu.fetch_data,
            cpu.register.flags(),
        );
        cpu.with_register(register, value).with_flags(flags).charged(1)
    } else {
        computed(Action::ADD, cpu)
    }
}

pub open spec fn add_cycles(instruction: Instruction) -> nat {
    if instruction.register_1 == RegisterType::SP {
        2
    } else if instruction.register_1.wide() {
        1
    } else {
        0
    }
}

/// What the operations on A alone make of it and of the flags. The four
/// rotates always clear Z.
pub open spec fn accumulator_outcome(action: Action, a: u8, flags: Flags) -> (u8, Flags) {
    match action {
        Action::RLCA => alu::rlc(a, false),
        Action::RRCA => alu::rrc(a, false),
        Action::RLA => alu::rl(a, flags.c, false),
        Action::RRA => alu::rr(a, flags.c, false),
        Action::DAA => alu::daa(a, flags),
        Action::CPL => alu::cpl(a, flags),
        Action::SCF => (a, alu::scf(flags)),
        Action::CCF => (a, alu::ccf(flags)),
        _ => (a, flags),
    }
}

#[verifier::opaque]
pub open spec fn accumulated(action: Action, cpu: CpuView) -> CpuView {
    let (value, flags) = accumulator_outcome(action, cpu.register.a, cpu.register.flags());
    cpu.with_register(RegisterType::A, value as u16).with_flags(flags)
}

/// The action is one of the page behind the prefix.
pub open spec fn is_bit_operation(action: Action) -> bool {
    action == Action::RLC || action == Action::RRC || action == Action::RL || action == Action::RR
        || action == Action::SLA || action == Action::SRA || action == Action::SWAP || action
        == Action::SRL || action == Action::BIT || action == Action::RES || action == Action::SET
}

/// The descriptor is one that the page behind the prefix decodes to: a bit
/// operation on an operand, with a bit index below 8.
pub open spec fn is_prefixed(instruction: Instruction) -> bool {
    is_bit_operation(instruction.action) && instruction.register_1.is_operand()
        && instruction.param < 8
}

/// What a rotate or shift of the prefixed page makes of a value; Z follows
/// the result.
pub open spec fn shift_outcome(action: Action, value: u8, flags: Flags) -> (u8, Flags) {
    match action {
        Action::RLC => alu::rlc(value, true),
        Action::RRC => alu::rrc(value, true),
        Action::RL => alu::rl(value, flags.c, true),
        Action::RR => alu::rr(value, flags.c, true),
        Action::SLA => alu::sla(value),
        Action::SRA => alu::sra(value),
        Action::SWAP => alu::swap(value),
        Action::SRL => alu::srl(value),
        _ => (value, flags),
    }
}

/// An operation of the prefixed page. The operand is read; BIT sets the
/// flags from it; RES and SET write it back with the bit changed and leave
/// the flags; a rotate or shift writes its result back, with its flags.
/// A descriptor that is not of that page does nothing.
#[verifier::opaque]
pub open spec fn bit_operated(cpu: CpuView, instruction: Instruction) -> CpuView {
    let register = instruction.register_1;
    let value = cpu.operand_value(register);
    let read = cpu.after_operand(register);
    let index = instruction.param as u8;
    if !is_prefixed(instruction) {
        cpu
    } else if instruction.action == Action::BIT {
        read.with_flags(alu::bit_test(value, index, cpu.register.flags()))
    } else if instruction.action == Action::RES {
        read.with_operand(register, crate::cpu::with_bit(value, index, false))
    } else if instruction.action == Action::SET {
        read.with_operand(register, crate::cpu::with_bit(value, index, true))
    } else {
        let (result, flags) = shift_outcome(instruction.action, value, cpu.register.flags());
        read.with_operand(register, result).with_flags(flags)
    }
}

/// Machine cycles of an operation of the prefixed page: on (HL), one for
/// the read and, but for BIT, one for the write.
pub open spec fn bit_cycles(instruction: Instruction) -> nat {
    if !is_prefixed(instruction) || instruction.register_1 != RegisterType::HL {
        0
    } else if instruction.action == Action::BIT {
        1
    } else {
        2
    }
}

/// LDH. With A as first register, A takes the byte at 0xFF00 + operand;
/// otherwise A is written to the destination.
#[verifier::opaque]
pub open spec fn high_loaded(cpu: CpuView, instruction: Instruction) -> CpuView {
    if instruction.register_1 == RegisterType::A {
        cpu.after_read().with_register(
            RegisterType::A,
            cpu.bus.read(high_page(low_of(cpu.fetch_data))) as u16,
        )
    } else {
        cpu.stored(cpu.mem_dest, cpu.register.a)
    }
}

impl Action {
    /// The state after the action, from the state after the fetch.
    #[verifier::opaque]
    pub open spec fn executed(self, cpu: CpuView, instruction: Instruction) -> CpuView {
        match self {
            Action::NONE | Action::NOP | Action::ERR => cpu,
            Action::LD => loaded(cpu, instruction),
            Action::INC => counted(cpu, instruction, true),
            Action::DEC => counted(cpu, instruction, false),
            Action::ADD => added(cpu, instruction),
            Action::ADC
            | Action::SUB
            | Action::SBC
            | Action::AND
            | Action::XOR
            | Action::OR
            | Action::CP => computed(self, cpu),
            Action::RLCA
            | Action::RRCA
            | Action::RLA
            | Action::RRA
            | Action::DAA
            | Action::CPL
            | Action::SCF
            | Action::CCF => accumulated(self, cpu),
            Action::JR => cpu.gone_to(
                offset_address(cpu.register.pc, low_of(cpu.fetch_data)),
                false,
                instruction.condition,
            ),
            Action::JUMP => cpu.gone_to(cpu.fetch_data, false, instruction.condition),
            Action::JPHL => cpu.with_register(RegisterType::PC, cpu.fetch_data),
            Action::CALL => cpu.gone_to(cpu.fetch_data, true, instruction.condition),
            Action::RST => cpu.gone_to(instruction.param, true, instruction.condition),
            Action::RET => cpu.returned(instruction.condition),
            Action::RETI => CpuView { master_enabled: true, ..cpu }.returned(
                instruction.condition,
            ),
            Action::POP => cpu.popped16().with_register(instruction.register_1, cpu.top16()),
            Action::PUSH => cpu.charged(1).pushed16(cpu.register.read(instruction.register_1)),
            Action::CB => bit_operated(cpu, Instruction::decode_cb(low_of(cpu.fetch_data))),
            Action::RLC
            | Action::RRC
            | Action::RL
            | Action::RR
            | Action::SLA
            | Action::SRA
            | Action::SWAP
            | Action::SRL
            | Action::BIT
            | Action::RES
            | Action::SET => bit_operated(cpu, instruction),
            Action::LDH => high_loaded(cpu, instruction),
            Action::DI => CpuView { master_enabled: false, enabling_ime: false, ..cpu },
            Action::EI => CpuView { enabling_ime: true, ..cpu },
            Action::HALT => CpuView { halted: true, ..cpu },
            Action::STOP => CpuView { stopped: true, ..cpu },
        }
    }

    /// Machine cycles that the action takes, on top of those of the fetch.
    #[verifier::opaque]
    pub open spec fn execute_cycles(self, cpu: CpuView, instruction: Instruction) -> nat {
        match self {
            Action::LD => load_cycles(cpu, instruction),
            Action::INC | Action::DEC => count_cycles(instruction),
            Action::ADD => add_cycles(instruction),
            Action::JR | Action::JUMP => cpu.go_to_cycles(false, instruction.condition),
            Action::CALL | Action::RST => cpu.go_to_cycles(true, instruction.condition),
            Action::RET | Action::RETI => cpu.return_cycles(instruction.condition),
            Action::POP => 2,
            Action::PUSH => 3,
            Action::CB => bit_cycles(Instruction::decode_cb(low_of(cpu.fetch_data))),
            Action::RLC
            | Action::RRC
            | Action::RL
            | Action::RR
            | Action::SLA
            | Action::SRA
            | Action::SWAP
            | Action::SRL
            | Action::BIT
            | Action::RES
            | Action::SET => bit_cycles(instruction),
            Action::LDH => 1,
            _ => 0,
        }
    }

    /// No action takes more than four machine cycles.
    pub proof fn lemma_execute_cycles(self, cpu: CpuView, instruction: Instruction)
        ensures
            self.execute_cycles(cpu, instruction) <= 4,
    {
        reveal(Action::execute_cycles);
    }

    /// Carries the action out, on the operands that the address mode of
    /// `instruction` has fetched, and says how many machine cycles it took.
    #[verifier::rlimit(50)]
    pub fn execute(&self, cpu: &mut CPU, instruction: &Instruction) -> (cycles: u8)
        requires
            old(cpu).wf(),
        ensures
            final(cpu).wf(),
            final(cpu)@ == self.executed(old(cpu)@, *instruction),
            cycles == self.execute_cycles(old(cpu)@, *instruction),
    {
        reveal(Action::executed);
        reveal(Action::execute_cycles);
        match self {
            Action::NONE | Action::NOP | Action::ERR => 0,
            Action::LD => load(cpu, instruction),
            Action::INC => count(cpu, instruction, true),
            Action::DEC => count(cpu, instruction, false),
            Action::ADD => add_to(cpu, instruction),
            Action::ADC
            | Action::SUB
            | Action::SBC
            | Action::AND
            | Action::XOR
            | Action::OR
            | Action::CP => compute(*self, cpu),
            Action::RLCA
            | Action::RRCA
            | Action::RLA
            | Action::RRA
            | Action::DAA
            | Action::CPL
            | Action::SCF
            | Action::CCF => accumulate(*self, cpu),
            Action::JR => jump_relative(cpu, instruction),
            Action::JUMP => jump(cpu, instruction, false),
            Action::CALL => jump(cpu, instruction, true),
            Action::JPHL => jump_to_operand(cpu),
            Action::RST => cpu.go_to(instruction.param, true, instruction),
            Action::RET => cpu.return_from_procedure(instruction),
            Action::RETI => return_enabling(cpu, instruction),
            Action::POP => pop(cpu, instruction),
            Action::PUSH => push(cpu, instruction),
            Action::CB => prefixed(cpu),
            Action::RLC
            | Action::RRC
            | Action::RL
            | Action::RR
            | Action::SLA
            | Action::SRA
            | Action::SWAP
            | Action::SRL
            | Action::BIT
            | Action::RES
            | Action::SET => bit_operation(cpu, instruction),
            Action::LDH => high_load(cpu, instruction),
            Action::DI => disable(cpu),
            Action::EI => enable_later(cpu),
            Action::HALT => halt(cpu),
            Action::STOP => stop(cpu),
        }
    }
}

/// JR.
fn jump_relative(cpu: &mut CPU, instruction: &Instruction) -> (cycles: u8)
    requires
        old(cpu).wf(),
    ensures
        final(cpu).wf(),
        final(cpu)@ == Action::JR.executed(old(cpu)@, *instruction),
        cycles == Action::JR.execute_cycles(old(cpu)@, *instruction),
{
    reveal(Action::executed);
    reveal(Action::execute_cycles);
    let address = offset(cpu.registers().pc, low(cpu.fetch_data()));
    cpu.go_to(address, false, instruction)
}

/// JP and CALL to the operand.
fn jump(cpu: &mut CPU, instruction: &Instruction, push_pc: bool) -> (cycles: u8)
    requires
        old(cpu).wf(),
    ensures
        final(cpu).wf(),
        final(cpu)@ == old(cpu)@.gone_to(old(cpu)@.fetch_data, push_pc, instruction.condition),
        cycles == old(cpu)@.go_to_cycles(push_pc, instruction.condition),
{
    let address = cpu.fetch_data();
    cpu.go_to(address, push_pc, instruction)
}

/// JP HL.
fn jump_to_operand(cpu: &mut CPU) -> (cycles: u8)
    requires
        old(cpu).wf(),
    ensures
        final(cpu).wf(),
        final(cpu)@ == old(cpu)@.with_register(RegisterType::PC, old(cpu)@.fetch_data),
        cycles == 0,
{
    let address = cpu.fetch_data();
    cpu.set_register(&RegisterType::PC, address);
    0
}

/// RETI.
fn return_enabling(cpu: &mut CPU, instruction: &Instruction) -> (cycles: u8)
    requires
        old(cpu).wf(),
    ensures
        final(cpu).wf(),
        final(cpu)@ == Action::RETI.executed(old(cpu)@, *instruction),
        cycles == Action::RETI.execute_cycles(old(cpu)@, *instruction),
{
    reveal(Action::executed);
    reveal(Action::execute_cycles);
    cpu.set_master_enabled(true);
    cpu.return_from_procedure(instruction)
}

/// The operation that the byte behind the prefix selects.
fn prefixed(cpu: &mut CPU) -> (cycles: u8)
    requires
        old(cpu).wf(),
    ensures
        final(cpu).wf(),
        final(cpu)@ == bit_operated(old(cpu)@, Instruction::decode_cb(low_of(old(cpu)@.fetch_data))),
        cycles == bit_cycles(Instruction::decode_cb(low_of(old(cpu)@.fetch_data))),
{
    let instruction = Instruction::from_cb(low(cpu.fetch_data()));
    bit_operation(cpu, &instruction)
}

/// DI.
fn disable(cpu: &mut CPU) -> (cycles: u8)
    requires
        old(cpu).wf(),
    ensures
        final(cpu).wf(),
        final(cpu)@ == (CpuView { master_enabled: false, enabling_ime: false, ..old(cpu)@ }),
        cycles == 0,
{
    cpu.set_master_enabled(false);
    cpu.set_enabling_ime(false);
    0
}

/// EI.
fn enable_later(cpu: &mut CPU) -> (cycles: u8)
    requires
        old(cpu).wf(),
    ensures
        final(cpu).wf(),
        final(cpu)@ == (CpuView { enabling_ime: true, ..old(cpu)@ }),
        cycles == 0,
{
    cpu.set_enabling_ime(true);
    0
}

/// HALT.
fn halt(cpu: &mut CPU) -> (cycles: u8)
    requires
        old(cpu).wf(),
    ensures
        final(cpu).wf(),
        final(cpu)@ == (CpuView { halted: true, ..old(cpu)@ }),
        cycles == 0,
{
    cpu.set_halted(true);
    0
}

/// STOP.
fn stop(cpu: &mut CPU) -> (cycles: u8)
    requires
        old(cpu).wf(),
    ensures
        final(cpu).wf(),
        final(cpu)@ == (CpuView { stopped: true, ..old(cpu)@ }),
        cycles == 0,
{
    cpu.set_stopped(true);
    0
}

/// LD.
fn load(cpu: &mut CPU, instruction: &Instruction) -> (cycles: u8)
    requires
        old(cpu).wf(),
    ensures
        final(cpu).wf(),
        final(cpu)@ == loaded(old(cpu)@, *instruction),
        cycles == load_cycles(old(cpu)@, *instruction),
{
    reveal(loaded);
    let data = cpu.fetch_data();
    if cpu.dest_is_mem() {
        let address = cpu.mem_dest();
        if cpu.registers().is_16bit(&instruction.register_2) {
            cpu.write_memory16(address, data);
            2
        } else {
            cpu.write_memory(address, low(data));
            1
        }
    } else {
        match instruction.address {
            AddressMode::HLSPR => {
                let (value, flags) = alu::add_signed(
                    cpu.read_register(&instruction.register_2),
                    low(data),
                );
                cpu.set_flags(flags);
                cpu.set_register(&instruction.register_1, value);
                cpu.emu_cycles(1);
                1
            },
            AddressMode::RR => {
                cpu.set_register(&instruction.register_1, data);
                if cpu.registers().is_16bit(&instruction.register_1) {
                    cpu.emu_cycles(1);
                    1
                } else {
                    0
                }
            },
            _ => {
                cpu.set_register(&instruction.register_1, data);
                0
            },
        }
    }
}

/// INC or DEC of a byte.
fn count_byte(value: u8, flags: Flags, up: bool) -> (outcome: (u8, Flags))
    ensures
        outcome == counted_byte(value, flags, up),
{
    if up {
        alu::increment(value, flags)
    } else {
        alu::decrement(value, flags)
    }
}

/// INC and DEC.
fn count(cpu: &mut CPU, instruction: &Instruction, up: bool) -> (cycles: u8)
    requires
        old(cpu).wf(),
    ensures
        final(cpu).wf(),
        final(cpu)@ == counted(old(cpu)@, *instruction, up),
        cycles == count_cycles(*instruction),
{
    reveal(counted);
    let register = instruction.register_1;
    let before = cpu.registers().flags_now();
    match instruction.address {
        AddressMode::MR => {
            let (value, flags) = count_byte(low(cpu.fetch_data()), before, up);
            let address = cpu.mem_dest();
            cpu.write_memory(address, value);
            cpu.set_flags(flags);
            1
        },
        _ => {
            let value = cpu.read_register(&register);
            if cpu.registers().is_16bit(&register) {
                cpu.set_register(
                    &register,
                    if up {
                        value.wrapping_add(1)
                    } else {
                        value.wrapping_sub(1)
                    },
                );
                cpu.emu_cycles(1);
                1
            } else {
                let (value, flags) = count_byte(low(value), before, up);
                cpu.set_register(&register, value as u16);
                cpu.set_flags(flags);
                0
            }
        },
    }
}

/// 8-bit arithmetic on values.
fn arithmetic(action: Action, a: u8, n: u8, flags: Flags) -> (outcome: (u8, Flags))
    ensures
        outcome == arithmetic_outcome(action, a, n, flags),
{
    match action {
        Action::ADD => alu::add_bytes(a, n, false),
        Action::ADC => alu::add_bytes(a, n, flags.c),
        Action::SUB | Action::CP => alu::subtract_bytes(a, n, false),
        Action::SBC => alu::subtract_bytes(a, n, flags.c),
        Action::AND => alu::and_bytes(a, n),
        Action::XOR => alu::xor_bytes(a, n),
        Action::OR => alu::or_bytes(a, n),
        _ => (a, flags),
    }
}

/// 8-bit arithmetic on A.
fn compute(action: Action, cpu: &mut CPU) -> (cycles: u8)
    requires
        old(cpu).wf(),
    ensures
        final(cpu).wf(),
        final(cpu)@ == computed(action, old(cpu)@),
        cycles == 0,
{
    reveal(computed);
    let register = cpu.registers();
    let (value, flags) = arithmetic(action, register.a, low(cpu.fetch_data()), register.flags_now());
    match action {
        Action::CP => {},
        _ => cpu.set_register(&RegisterType::A, value as u16),
    }
    cpu.set_flags(flags);
    0
}

/// ADD.
fn add_to(cpu: &mut CPU, instruction: &Instruction) -> (cycles: u8)
    requires
        old(cpu).wf(),
    ensures
        final(cpu).wf(),
        final(cpu)@ == added(old(cpu)@, *instruction),
        cycles == add_cycles(*instruction),
{
    reveal(added);
    let register = instruction.register_1;
    match register {
        RegisterType::SP => {
            let (value, flags) = alu::add_signed(cpu.registers().sp, low(cpu.fetch_data()));
            cpu.set_register(&register, value);
            cpu.set_flags(flags);
            cpu.emu_cycles(2);
            2
        },
        _ => {
            if cpu.registers().is_16bit(&register) {
                let (value, flags) = alu::add_wide(
                    cpu.read_register(&register),
                    cpu.fetch_data(),
                    cpu.registers().flags_now(),
                );
                cpu.set_register(&register, value);
                cpu.set_flags(flags);
                cpu.emu_cycles(1);
                1
            } else {
                compute(Action::ADD, cpu)
            }
        },
    }
}

/// The operations on A alone, on values.
fn accumulator(action: Action, a: u8, flags: Flags) -> (outcome: (u8, Flags))
    ensures
        outcome == accumulator_outcome(action, a, flags),
{
    match action {
        Action::RLCA => alu::rotate_left(a, false),
        Action::RRCA => alu::rotate_right(a, false),
        Action::RLA => alu::rotate_left_through(a, flags.c, false),
        Action::RRA => alu::rotate_right_through(a, flags.c, false),
        Action::DAA => alu::decimal_adjust(a, flags),
        Action::CPL => alu::complement(a, flags),
        Action::SCF => (a, alu::set_carry(flags)),
        Action::CCF => (a, alu::complement_carry(flags)),
        _ => (a, flags),
    }
}

/// The operations on A alone.
fn accumulate(action: Action, cpu: &mut CPU) -> (cycles: u8)
    requires
        old(cpu).wf(),
    ensures
        final(cpu).wf(),
        final(cpu)@ == accumulated(action, old(cpu)@),
        cycles == 0,
{
    reveal(accumulated);
    let register = cpu.registers();
    let (value, flags) = accumulator(action, register.a, register.flags_now());
    cpu.set_register(&RegisterType::A, value as u16);
    cpu.set_flags(flags);
    0
}

/// POP.
fn pop(cpu: &mut CPU, instruction: &Instruction) -> (cycles: u8)
    requires
        old(cpu).wf(),
    ensures
        final(cpu).wf(),
        final(cpu)@ == old(cpu)@.popped16().with_register(
            instruction.register_1,
            old(cpu)@.top16(),
        ),
        cycles == 2,
{
    let num = cpu.stack_pop16();
    cpu.set_register(&instruction.register_1, num);
    2
}

/// PUSH.
fn push(cpu: &mut CPU, instruction: &Instruction) -> (cycles: u8)
    requires
        old(cpu).wf(),
    ensures
        final(cpu).wf(),
        final(cpu)@ == old(cpu)@.charged(1).pushed16(
            old(cpu)@.register.read(instruction.register_1),
        ),
        cycles == 3,
{
    let data = cpu.read_register(&instruction.register_1);
    cpu.emu_cycles(1);
    cpu.stack_push16(data);
    3
}

/// Says whether a register can be the operand of a bit operation.
fn is_operand(register: RegisterType) -> (operand: bool)
    ensures
        operand == register.is_operand(),
{
    match register {
        RegisterType::A
        | RegisterType::B
        | RegisterType::C
        | RegisterType::D
        | RegisterType::E
        | RegisterType::H
        | RegisterType::L
        | RegisterType::HL => true,
        _ => false,
    }
}

/// Says whether an action is of the prefixed page.
fn bit_family(action: Action) -> (prefixed: bool)
    ensures
        prefixed == is_bit_operation(action),
{
    match action {
        Action::RLC
        | Action::RRC
        | Action::RL
        | Action::RR
        | Action::SLA
        | Action::SRA
        | Action::SWAP
        | Action::SRL
        | Action::BIT
        | Action::RES
        | Action::SET => true,
        _ => false,
    }
}

/// The rotates and shifts of the prefixed page, on values.
fn shift(action: Action, value: u8, flags: Flags) -> (outcome: (u8, Flags))
    ensures
        outcome == shift_outcome(action, value, flags),
{
    match action {
        Action::RLC => alu::rotate_left(value, true),
        Action::RRC => alu::rotate_right(value, true),
        Action::RL => alu::rotate_left_through(value, flags.c, true),
        Action::RR => alu::rotate_right_through(value, flags.c, true),
        Action::SLA => alu::shift_left(value),
        Action::SRA => alu::shift_right_arithmetic(value),
        Action::SWAP => alu::swap_nibbles(value),
        Action::SRL => alu::shift_right_logical(value),
        _ => (value, flags),
    }
}

/// An operation of the prefixed page.
fn bit_operation(cpu: &mut CPU, instruction: &Instruction) -> (cycles: u8)
    requires
        old(cpu).wf(),
    ensures
        final(cpu).wf(),
        final(cpu)@ == bit_operated(old(cpu)@, *instruction),
        cycles == bit_cycles(*instruction),
{
    reveal(bit_operated);
    let register = instruction.register_1;
    if !bit_family(instruction.action) || !is_operand(register) || instruction.param >= 8 {
        return 0;
    }
    let index = instruction.param as u8;
    let before = cpu.registers().flags_now();
    let value = cpu.read_register8(&register);
    let in_memory = match register {
        RegisterType::HL => true,
        _ => false,
    };
    match instruction.action {
        Action::BIT => {
            cpu.set_flags(alu::test_bit(value, index, before));
            if in_memory {
                1
            } else {
                0
            }
        },
        Action::RES => {
            cpu.set_register8(&register, alu::reset_bit(value, index));
            if in_memory {
                2
            } else {
                0
            }
        },
        Action::SET => {
            cpu.set_register8(&register, alu::set_bit(value, index));
            if in_memory {
                2
            } else {
                0
            }
        },
        _ => {
            let (result, flags) = shift(instruction.action, value, before);
            cpu.set_register8(&register, result);
            cpu.set_flags(flags);
            if in_memory {
                2
            } else {
                0
            }
        },
    }
}

/// LDH.
fn high_load(cpu: &mut CPU, instruction: &Instruction) -> (cycles: u8)
    requires
        old(cpu).wf(),
    ensures
        final(cpu).wf(),
        final(cpu)@ == high_loaded(old(cpu)@, *instruction),
        cycles == 1,
{
    reveal(high_loaded);
    match instruction.register_1 {
        RegisterType::A => {
            let value = cpu.read_memory(0xFF00 + (low(cpu.fetch_data()) as u16));
            cpu.set_register(&RegisterType::A, value as u16);
        },
        _ => {
            let address = cpu.mem_dest();
            let a = cpu.registers().a;
            cpu.write_memory(address, a);
        },
    }
    1
}

} // verus!
