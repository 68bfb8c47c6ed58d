use gameboy::bus::Bus;
use gameboy::cartridge::Cartridge;
use gameboy::cpu::actions::Action;
use gameboy::cpu::addresses::AddressMode;
use gameboy::cpu::conditions::ConditionType;
use gameboy::cpu::instructions::Instruction;
use gameboy::cpu::register::{Flags, Register, RegisterType};
use gameboy::cpu::{CpuError, CPU};

fn rom_with(program: &[u8]) -> Vec<u8> {
    let mut rom = vec![0u8; 0x8000];
    rom[0x100..0x100 + program.len()].copy_from_slice(program);
    let mut x: u8 = 0;
    for i in 0x134..=0x14C {
        x = x.wrapping_sub(rom[i]).wrapping_sub(1);
    }
    rom[0x14D] = x;
    rom
}

/// A processor in its post-boot state with `program` at 0x0100.
fn machine(program: &[u8]) -> CPU {
    let cartridge = Cartridge::from("program.gb", rom_with(program)).unwrap();
    CPU::test(Bus::init(cartridge))
}

/// A processor with `code` in work RAM at 0xC000, PC there and SP at 0xDFF0.
fn machine_in_ram(code: &[u8]) -> CPU {
    let mut cpu = machine(&[]);
    for (i, byte) in code.iter().enumerate() {
        cpu.poke(0xC000 + i as u16, *byte);
    }
    cpu.set_register(&RegisterType::PC, 0xC000);
    cpu.set_register(&RegisterType::SP, 0xDFF0);
    cpu
}

fn flags(z: bool, n: bool, h: bool, c: bool) -> Flags {
    Flags { z, n, h, c }
}

fn step(cpu: &mut CPU) -> u8 {
    match cpu.step() {
        Ok(cycles) => cycles,
        Err(error) => panic!("step failed: {:?}", error),
    }
}

#[test]
fn processor_starts_in_the_post_boot_state() {
    for cpu in [machine(&[]), CPU::new(Bus::init(Cartridge::from("x", rom_with(&[])).unwrap()))] {
        assert_eq!(
            cpu.registers(),
            Register {
                a: 0x01,
                f: 0xB0,
                b: 0x00,
                c: 0x13,
                d: 0x00,
                e: 0xD8,
                h: 0x01,
                l: 0x4D,
                sp: 0xFFFE,
                pc: 0x0100,
            }
        );
        assert!(!cpu.master_enabled());
        assert!(!cpu.enabling_ime());
        assert!(!cpu.halted());
        assert!(!cpu.stopped());
        assert_eq!(cpu.peek(0xFFFF), 0);
        assert_eq!(cpu.peek(0xFF0F), 0);
        assert_eq!(cpu.debug_message(), "");
    }
}

#[test]
fn nop_takes_one_cycle_and_keeps_the_flags() {
    let mut cpu = machine(&[0x00, 0x76]);
    let before = cpu.registers();
    assert_eq!(step(&mut cpu), 1);
    let after = cpu.registers();
    assert_eq!(after.pc, 0x0101);
    assert_eq!(after.f, before.f);
    assert_eq!(after, Register { pc: 0x0101, ..before });
    assert_eq!(cpu.current_op_code(), 0x00);
    assert_eq!(cpu.instruction(), Instruction::from(0x00));
}

#[test]
fn xor_a_clears_a_and_sets_only_zero() {
    let mut cpu = machine(&[0xAF]);
    assert_eq!(step(&mut cpu), 1);
    let after = cpu.registers();
    assert_eq!(after.a, 0x00);
    assert_eq!(after.f, 0x80);
    assert_eq!(after.pc, 0x0101);
}

#[test]
fn inc_a_from_ff_wraps_and_keeps_carry() {
    let mut cpu = machine(&[0x3E, 0xFF, 0x3C]);
    assert_eq!(step(&mut cpu), 2);
    assert_eq!(cpu.registers().a, 0xFF);
    assert_eq!(step(&mut cpu), 1);
    let after = cpu.registers();
    assert_eq!(after.a, 0x00);
    assert_eq!(after.f, 0xB0);
    assert_eq!(after.flags_now(), flags(true, false, true, true));
    assert_eq!(after.pc, 0x0103);
}

#[test]
fn call_pushes_the_return_address() {
    let mut cpu = machine(&[0xCD, 0x34, 0x12]);
    assert_eq!(cpu.registers().pc, 0x0100);
    assert_eq!(cpu.registers().sp, 0xFFFE);
    assert_eq!(step(&mut cpu), 6);
    assert_eq!(cpu.registers().pc, 0x1234);
    assert_eq!(cpu.registers().sp, 0xFFFC);
    assert_eq!(cpu.peek(0xFFFD), 0x01);
    assert_eq!(cpu.peek(0xFFFC), 0x03);
}

#[test]
fn ei_enables_interrupts_one_instruction_later() {
    let mut cpu = machine(&[0xFB, 0x00, 0x00]);
    cpu.poke(0xFFFF, 0x01);
    cpu.poke(0xFF0F, 0x01);
    let sp = cpu.registers().sp;

    assert_eq!(step(&mut cpu), 1);
    assert!(!cpu.master_enabled());
    assert!(cpu.enabling_ime());
    assert_eq!(cpu.registers().pc, 0x0101);
    assert_eq!(cpu.peek(0xFF0F), 0x01);

    assert_eq!(step(&mut cpu), 1 + 5);
    assert_eq!(cpu.registers().pc, 0x40);
    assert_eq!(cpu.peek(0xFF0F), 0x00);
    assert!(!cpu.master_enabled());
    assert!(!cpu.enabling_ime());
    assert_eq!(cpu.registers().sp, sp.wrapping_sub(2));
    assert_eq!(cpu.peek(sp.wrapping_sub(1)), 0x01);
    assert_eq!(cpu.peek(sp.wrapping_sub(2)), 0x02);
}

#[test]
fn div_reads_four_256_cycles_after_it_is_written() {
    let mut cpu = machine(&[]);
    cpu.poke(0xFF04, 0x00);
    assert_eq!(cpu.peek(0xFF04), 0);
    cpu.emu_cycles(255);
    assert_eq!(cpu.peek(0xFF04), 3);
    cpu.emu_cycles(1);
    assert_eq!(cpu.peek(0xFF04), 4);
}

#[test]
fn div_counts_the_cycles_of_the_program() {
    // 256 NOPs of one machine cycle each, in work RAM.
    let mut cpu = machine_in_ram(&[0x00; 256]);
    cpu.poke(0xFF04, 0x12);
    let mut cycles: u32 = 0;
    for _ in 0..256 {
        cycles += step(&mut cpu) as u32;
    }
    assert_eq!(cycles, 256);
    assert_eq!(cpu.peek(0xFF04), 4);
}

#[test]
fn di_takes_effect_at_once_even_behind_ei() {
    let mut cpu = machine(&[0xFB, 0xF3, 0x00, 0x00]);
    cpu.poke(0xFFFF, 0x1F);
    cpu.poke(0xFF0F, 0x1F);
    step(&mut cpu);
    assert!(cpu.enabling_ime());
    step(&mut cpu);
    assert!(!cpu.master_enabled());
    assert!(!cpu.enabling_ime());
    assert_eq!(cpu.registers().pc, 0x0102);
    step(&mut cpu);
    step(&mut cpu);
    assert!(!cpu.master_enabled());
    assert_eq!(cpu.registers().pc, 0x0104);
    assert_eq!(cpu.peek(0xFF0F), 0x1F);
}

#[test]
fn di_clears_ime() {
    let mut cpu = machine(&[0xFB, 0x00, 0xF3, 0x00]);
    step(&mut cpu);
    step(&mut cpu);
    assert!(cpu.master_enabled());
    cpu.poke(0xFFFF, 0x04);
    assert_eq!(step(&mut cpu), 1);
    assert!(!cpu.master_enabled());
    cpu.poke(0xFF0F, 0x04);
    assert_eq!(step(&mut cpu), 1);
    assert_eq!(cpu.registers().pc, 0x0104);
}

#[test]
fn instruction_after_ei_runs_before_the_handler() {
    // EI; INC A; the handler is entered only after INC A has run.
    let mut cpu = machine(&[0xFB, 0x3C, 0x3C]);
    cpu.poke(0xFFFF, 0x02);
    cpu.poke(0xFF0F, 0x02);
    step(&mut cpu);
    assert_eq!(cpu.registers().a, 0x01);
    assert_eq!(step(&mut cpu), 1 + 5);
    assert_eq!(cpu.registers().a, 0x02);
    assert_eq!(cpu.registers().pc, 0x48);
    assert_eq!(cpu.peek(0xFFFC), 0x02);
    assert_eq!(cpu.peek(0xFFFD), 0x01);
}

#[test]
fn interrupts_are_served_lowest_bit_first() {
    let vectors = [0x40u16, 0x48, 0x50, 0x58, 0x60];
    for first in 0..5u8 {
        let mut cpu = machine(&[0xFB, 0x00, 0x00]);
        let pending = 0x1Fu8 & !((1u8 << first) - 1);
        cpu.poke(0xFFFF, 0xFF);
        cpu.poke(0xFF0F, pending);
        step(&mut cpu);
        assert_eq!(step(&mut cpu), 6);
        assert_eq!(cpu.registers().pc, vectors[first as usize]);
        assert_eq!(cpu.peek(0xFF0F), pending & !(1 << first));
        assert!(!cpu.master_enabled());
    }
}

#[test]
fn interrupts_need_both_request_and_enable() {
    let mut cpu = machine(&[0xFB, 0x00, 0x00, 0x00]);
    cpu.poke(0xFFFF, 0x01);
    cpu.poke(0xFF0F, 0x1E);
    step(&mut cpu);
    assert_eq!(step(&mut cpu), 1);
    assert!(cpu.master_enabled());
    assert_eq!(cpu.registers().pc, 0x0102);
    cpu.poke(0xFF0F, 0xE0);
    cpu.poke(0xFFFF, 0xFF);
    assert_eq!(step(&mut cpu), 1);
    assert_eq!(cpu.registers().pc, 0x0103);
    assert_eq!(cpu.peek(0xFF0F), 0xE0);
}

#[test]
fn handle_interrupts_does_nothing_without_ime() {
    let mut cpu = machine(&[]);
    cpu.poke(0xFFFF, 0x1F);
    cpu.poke(0xFF0F, 0x1F);
    let before = cpu.registers();
    assert_eq!(cpu.handle_interrupts(), 0);
    assert_eq!(cpu.registers(), before);
    assert_eq!(cpu.peek(0xFF0F), 0x1F);
}

#[test]
fn handle_interrupts_enters_the_due_handler() {
    let mut cpu = machine(&[]);
    cpu.poke(0xFFFF, 0x0C);
    cpu.poke(0xFF0F, 0x1A);
    cpu.set_master_enabled(true);
    cpu.set_halted(true);
    cpu.set_register(&RegisterType::SP, 0xD000);
    assert_eq!(cpu.handle_interrupts(), 5);
    assert_eq!(cpu.registers().pc, 0x58);
    assert_eq!(cpu.registers().sp, 0xCFFE);
    assert_eq!(cpu.peek(0xCFFF), 0x01);
    assert_eq!(cpu.peek(0xCFFE), 0x00);
    assert_eq!(cpu.peek(0xFF0F), 0x12);
    assert!(!cpu.master_enabled());
    assert!(!cpu.halted());
    assert_eq!(cpu.handle_interrupts(), 0);
}

#[test]
fn interrupt_check_serves_only_what_is_pending() {
    let mut cpu = machine(&[]);
    cpu.poke(0xFFFF, 0x04);
    cpu.poke(0xFF0F, 0x04);
    assert!(!cpu.interrupt_check(0x40, gameboy::interrupts::Interrupt::VBlank));
    assert_eq!(cpu.registers().pc, 0x0100);
    assert!(cpu.interrupt_check(0x50, gameboy::interrupts::Interrupt::Timer));
    assert_eq!(cpu.registers().pc, 0x50);
    assert_eq!(cpu.peek(0xFF0F), 0x00);
}

#[test]
fn request_interrupt_adds_to_if() {
    let mut cpu = machine(&[]);
    cpu.request_interrupt(0x04);
    assert_eq!(cpu.peek(0xFF0F), 0x04);
    cpu.request_interrupt(0x01);
    assert_eq!(cpu.peek(0xFF0F), 0x05);
}

#[test]
fn timer_interrupt_reaches_the_processor() {
    // EI; then NOPs while TIMA overflows at the fastest rate.
    let mut cpu = machine_in_ram(&[0xFB, 0x00, 0x00, 0x00, 0x00, 0x00, 0x00, 0x00]);
    cpu.poke(0xFFFF, 0x04);
    cpu.poke(0xFF06, 0xF0);
    cpu.poke(0xFF05, 0xFF);
    cpu.poke(0xFF07, 0x05);
    cpu.poke(0xFF04, 0x00);
    let mut served = false;
    for _ in 0..6 {
        step(&mut cpu);
        if cpu.registers().pc == 0x50 {
            served = true;
            break;
        }
    }
    assert!(served);
    assert_eq!(cpu.peek(0xFF05), 0xF1);
    assert!(!cpu.master_enabled());
}

#[test]
fn halt_idles_until_an_interrupt_is_pending() {
    let mut cpu = machine(&[0x76, 0x3C]);
    cpu.poke(0xFFFF, 0x01);
    assert_eq!(step(&mut cpu), 1);
    assert!(cpu.halted());
    assert_eq!(cpu.registers().pc, 0x0101);
    for _ in 0..5 {
        assert_eq!(step(&mut cpu), 1);
        assert!(cpu.halted());
        assert_eq!(cpu.registers().pc, 0x0101);
    }
    cpu.poke(0xFF0F, 0x01);
    assert_eq!(step(&mut cpu), 1);
    assert!(!cpu.halted());
    assert_eq!(cpu.registers().pc, 0x0101);
    assert_eq!(cpu.peek(0xFF0F), 0x01);
    assert_eq!(step(&mut cpu), 1);
    assert_eq!(cpu.registers().a, 0x02);
    assert_eq!(cpu.registers().pc, 0x0102);
}

#[test]
fn halt_ignores_requests_that_are_not_enabled() {
    let mut cpu = machine(&[0x76]);
    cpu.poke(0xFF0F, 0x1F);
    step(&mut cpu);
    step(&mut cpu);
    assert!(cpu.halted());
    cpu.poke(0xFFFF, 0xE0);
    step(&mut cpu);
    assert!(cpu.halted());
    cpu.poke(0xFFFF, 0x10);
    step(&mut cpu);
    assert!(!cpu.halted());
}

#[test]
fn halted_time_still_runs_the_timer() {
    let mut cpu = machine(&[0x76]);
    cpu.poke(0xFF04, 0);
    step(&mut cpu);
    for _ in 0..63 {
        step(&mut cpu);
    }
    assert_eq!(cpu.peek(0xFF04), 1);
}

#[test]
fn stop_is_final() {
    let mut cpu = machine(&[0x10, 0x3C]);
    assert_eq!(step(&mut cpu), 1);
    assert!(cpu.stopped());
    let registers = cpu.registers();
    let div = cpu.bus().timer().div;
    for _ in 0..4 {
        assert_eq!(step(&mut cpu), 0);
    }
    assert!(cpu.stopped());
    assert_eq!(cpu.registers(), registers);
    assert_eq!(cpu.bus().timer().div, div);
}

#[test]
fn unassigned_opcodes_are_errors_that_change_nothing() {
    for opcode in [0xD3u8, 0xDB, 0xDD, 0xE3, 0xE4, 0xEB, 0xEC, 0xED, 0xF4, 0xFC, 0xFD] {
        let mut cpu = machine_in_ram(&[0x00, opcode]);
        step(&mut cpu);
        let registers = cpu.registers();
        let div = cpu.bus().timer().div;
        assert_eq!(cpu.step(), Err(CpuError::IllegalOpcode { opcode, pc: 0xC001 }));
        assert_eq!(cpu.registers(), registers);
        assert_eq!(cpu.bus().timer().div, div);
        assert_eq!(cpu.step(), Err(CpuError::IllegalOpcode { opcode, pc: 0xC001 }));
    }
}

#[test]
fn unassigned_opcode_is_not_run_while_halted() {
    let mut cpu = machine_in_ram(&[0xD3]);
    cpu.set_halted(true);
    assert_eq!(cpu.step(), Ok(1));
}

// The published timing, in machine cycles: each row is one high nibble of
// the opcode. Conditional branches are listed not taken; unassigned opcodes
// and the prefix are listed as 0.
const TIMING: [[u8; 16]; 16] = [
    [1, 3, 2, 2, 1, 1, 2, 1, 5, 2, 2, 2, 1, 1, 2, 1],
    [1, 3, 2, 2, 1, 1, 2, 1, 3, 2, 2, 2, 1, 1, 2, 1],
    [2, 3, 2, 2, 1, 1, 2, 1, 2, 2, 2, 2, 1, 1, 2, 1],
    [2, 3, 2, 2, 3, 3, 3, 1, 2, 2, 2, 2, 1, 1, 2, 1],
    [1, 1, 1, 1, 1, 1, 2, 1, 1, 1, 1, 1, 1, 1, 2, 1],
    [1, 1, 1, 1, 1, 1, 2, 1, 1, 1, 1, 1, 1, 1, 2, 1],
    [1, 1, 1, 1, 1, 1, 2, 1, 1, 1, 1, 1, 1, 1, 2, 1],
    [2, 2, 2, 2, 2, 2, 1, 2, 1, 1, 1, 1, 1, 1, 2, 1],
    [1, 1, 1, 1, 1, 1, 2, 1, 1, 1, 1, 1, 1, 1, 2, 1],
    [1, 1, 1, 1, 1, 1, 2, 1, 1, 1, 1, 1, 1, 1, 2, 1],
    [1, 1, 1, 1, 1, 1, 2, 1, 1, 1, 1, 1, 1, 1, 2, 1],
    [1, 1, 1, 1, 1, 1, 2, 1, 1, 1, 1, 1, 1, 1, 2, 1],
    [2, 3, 3, 4, 3, 4, 2, 4, 2, 4, 3, 0, 3, 6, 2, 4],
    [2, 3, 3, 0, 3, 4, 2, 4, 2, 4, 3, 0, 3, 0, 2, 4],
    [3, 3, 2, 0, 0, 4, 2, 4, 4, 1, 4, 0, 0, 0, 2, 4],
    [3, 3, 2, 1, 0, 4, 2, 4, 3, 2, 4, 1, 0, 0, 2, 4],
];

/// Cycles that a conditional branch takes more when taken, and whether it
/// is taken with the given Z and C.
fn branch(opcode: u8, z: bool, c: bool) -> (u8, bool) {
    let more = match opcode {
        0x20 | 0x28 | 0x30 | 0x38 => 1,
        0xC0 | 0xC8 | 0xD0 | 0xD8 => 3,
        0xC2 | 0xCA | 0xD2 | 0xDA => 1,
        0xC4 | 0xCC | 0xD4 | 0xDC => 3,
        _ => return (0, false),
    };
    let taken = match (opcode >> 3) & 3 {
        0 => !z,
        1 => z,
        2 => !c,
        _ => c,
    };
    (more, taken)
}

#[test]
fn every_opcode_takes_its_published_time() {
    for opcode in 0..=255u8 {
        let published = TIMING[(opcode >> 4) as usize][(opcode & 0xF) as usize];
        if published == 0 {
            continue;
        }
        for (z, c) in [(false, false), (false, true), (true, false), (true, true)] {
            let mut cpu = machine_in_ram(&[opcode, 0x10, 0xC1]);
            cpu.set_flags(flags(z, false, false, c));
            cpu.set_register(&RegisterType::HL, 0xC800);
            cpu.set_register(&RegisterType::BC, 0xC900);
            cpu.set_register(&RegisterType::DE, 0xCA00);
            let (more, taken) = branch(opcode, z, c);
            let expected = published + if taken { more } else { 0 };
            assert_eq!(step(&mut cpu), expected, "opcode {:#04x} z {} c {}", opcode, z, c);
        }
    }
}

#[test]
fn every_prefixed_opcode_takes_its_published_time() {
    for opcode in 0..=255u8 {
        let expected = if opcode & 7 != 6 {
            2
        } else if (0x40..0x80).contains(&opcode) {
            3
        } else {
            4
        };
        let mut cpu = machine_in_ram(&[0xCB, opcode]);
        cpu.set_register(&RegisterType::HL, 0xC800);
        assert_eq!(step(&mut cpu), expected, "prefixed opcode {:#04x}", opcode);
        assert_eq!(cpu.registers().pc, 0xC002);
    }
}

#[test]
fn timer_runs_as_long_as_the_instruction_takes() {
    for opcode in 0..=255u8 {
        if TIMING[(opcode >> 4) as usize][(opcode & 0xF) as usize] == 0 {
            continue;
        }
        let mut cpu = machine_in_ram(&[opcode, 0x10, 0xC1]);
        cpu.set_register(&RegisterType::HL, 0xC800);
        cpu.set_register(&RegisterType::BC, 0xC900);
        cpu.set_register(&RegisterType::DE, 0xCA00);
        let before = cpu.bus().timer().div;
        let cycles = step(&mut cpu);
        let after = cpu.bus().timer().div;
        assert_eq!(after.wrapping_sub(before), 4 * cycles as u16, "opcode {:#04x}", opcode);
    }
}

#[test]
fn flags_low_nibble_stays_zero() {
    // POP AF with 0xFFFF on the stack, then every opcode once.
    let mut cpu = machine_in_ram(&[0xF1]);
    cpu.poke(0xDFF0, 0xFF);
    cpu.poke(0xDFF1, 0xFF);
    step(&mut cpu);
    assert_eq!(cpu.registers().a, 0xFF);
    assert_eq!(cpu.registers().f, 0xF0);
    for opcode in 0..=255u8 {
        for second in [0x00u8, 0x37, 0x7E, 0xFF] {
            let mut cpu = machine_in_ram(&[opcode, second, 0xC1]);
            cpu.poke(0xDFF0, 0xFF);
            cpu.poke(0xDFF1, 0xFF);
            let _ = cpu.step();
            assert_eq!(cpu.registers().f & 0x0F, 0, "opcode {:#04x}", opcode);
        }
    }
}

#[test]
fn push_then_pop_restores_the_pair() {
    for (push, pop, pair) in [
        (0xC5u8, 0xC1u8, RegisterType::BC),
        (0xD5, 0xD1, RegisterType::DE),
        (0xE5, 0xE1, RegisterType::HL),
        (0xF5, 0xF1, RegisterType::AF),
    ] {
        for value in [0x0000u16, 0x1234, 0xFFF0, 0x80F0, 0xABC0] {
            let mut cpu = machine_in_ram(&[push, pop]);
            cpu.set_register(&pair, value);
            let before = cpu.registers();
            let held = cpu.read_register(&pair);
            assert_eq!(step(&mut cpu), 4);
            assert_eq!(cpu.registers().sp, 0xDFEE);
            assert_eq!(cpu.peek(0xDFEF), (held >> 8) as u8);
            assert_eq!(cpu.peek(0xDFEE), held as u8);
            cpu.set_register(&pair, !held);
            let between = cpu.registers();
            assert_eq!(step(&mut cpu), 3);
            if pair == RegisterType::AF {
                assert_eq!(cpu.registers(), Register { pc: 0xC002, ..before });
            } else {
                assert_eq!(cpu.registers(), Register { pc: 0xC002, f: between.f, ..before });
            }
            assert_eq!(cpu.read_register(&pair), held);
            assert_eq!(cpu.registers().f & 0x0F, 0);
        }
    }
}

#[test]
fn pop_af_drops_the_low_nibble() {
    let mut cpu = machine_in_ram(&[0xF1]);
    cpu.poke(0xDFF0, 0x5F);
    cpu.poke(0xDFF1, 0x9A);
    step(&mut cpu);
    assert_eq!(cpu.registers().a, 0x9A);
    assert_eq!(cpu.registers().f, 0x50);
    assert_eq!(cpu.registers().sp, 0xDFF2);
}

#[test]
fn stack_grows_down_byte_by_byte() {
    let mut cpu = machine(&[]);
    cpu.set_register(&RegisterType::SP, 0xC002);
    cpu.stack_push(0xAA);
    assert_eq!(cpu.registers().sp, 0xC001);
    assert_eq!(cpu.peek(0xC001), 0xAA);
    cpu.stack_push16(0x1234);
    assert_eq!(cpu.registers().sp, 0xBFFF);
    assert_eq!(cpu.peek(0xC000), 0x12);
    cpu.set_register(&RegisterType::SP, 0xC000);
    assert_eq!(cpu.stack_pop16(), 0xAA12);
    assert_eq!(cpu.registers().sp, 0xC002);
    cpu.set_register(&RegisterType::SP, 0xC001);
    assert_eq!(cpu.stack_pop(), 0xAA);
    assert_eq!(cpu.registers().sp, 0xC002);
}

#[test]
fn stack_pointer_wraps() {
    let mut cpu = machine(&[]);
    cpu.set_register(&RegisterType::SP, 0x0000);
    cpu.stack_push(0x77);
    assert_eq!(cpu.registers().sp, 0xFFFF);
    assert_eq!(cpu.peek(0xFFFF), 0x77);
    assert_eq!(cpu.stack_pop(), 0x77);
    assert_eq!(cpu.registers().sp, 0x0000);
}

#[test]
fn loads_between_registers_and_memory() {
    // LD BC,0xC123; LD A,0x5A; LD (BC),A; LD A,0; LD A,(BC); LD H,B; LD L,C;
    // LD (HL),0x77; LD E,(HL)
    let mut cpu = machine_in_ram(&[
        0x01, 0x23, 0xC1, 0x3E, 0x5A, 0x02, 0x3E, 0x00, 0x0A, 0x60, 0x69, 0x36, 0x77, 0x5E,
    ]);
    assert_eq!(step(&mut cpu), 3);
    assert_eq!(cpu.read_register(&RegisterType::BC), 0xC123);
    assert_eq!(step(&mut cpu), 2);
    assert_eq!(step(&mut cpu), 2);
    assert_eq!(cpu.peek(0xC123), 0x5A);
    step(&mut cpu);
    assert_eq!(cpu.registers().a, 0x00);
    assert_eq!(step(&mut cpu), 2);
    assert_eq!(cpu.registers().a, 0x5A);
    assert_eq!(step(&mut cpu), 1);
    assert_eq!(step(&mut cpu), 1);
    assert_eq!(cpu.read_register(&RegisterType::HL), 0xC123);
    assert_eq!(step(&mut cpu), 3);
    assert_eq!(cpu.peek(0xC123), 0x77);
    assert_eq!(step(&mut cpu), 2);
    assert_eq!(cpu.registers().e, 0x77);
    assert_eq!(cpu.registers().f, 0xB0);
}

#[test]
fn loads_with_increment_and_decrement() {
    // LD HL,0xC200; LD (HL+),A; LD (HL-),A; LD A,(HL+); LD A,(HL-)
    let mut cpu = machine_in_ram(&[0x21, 0x00, 0xC2, 0x22, 0x32, 0x2A, 0x3A]);
    cpu.set_register(&RegisterType::A, 0x99);
    step(&mut cpu);
    assert_eq!(step(&mut cpu), 2);
    assert_eq!(cpu.peek(0xC200), 0x99);
    assert_eq!(cpu.read_register(&RegisterType::HL), 0xC201);
    cpu.set_register(&RegisterType::A, 0x11);
    assert_eq!(step(&mut cpu), 2);
    assert_eq!(cpu.peek(0xC201), 0x11);
    assert_eq!(cpu.read_register(&RegisterType::HL), 0xC200);
    assert_eq!(step(&mut cpu), 2);
    assert_eq!(cpu.registers().a, 0x99);
    assert_eq!(cpu.read_register(&RegisterType::HL), 0xC201);
    assert_eq!(step(&mut cpu), 2);
    assert_eq!(cpu.registers().a, 0x11);
    assert_eq!(cpu.read_register(&RegisterType::HL), 0xC200);
}

#[test]
fn high_page_loads() {
    // LDH (0x80),A; LD C,0x81; LD (C),A; LD A,0; LDH A,(0x81); LD A,(C)
    let mut cpu = machine_in_ram(&[0xE0, 0x80, 0x0E, 0x81, 0xE2, 0x3E, 0x00, 0xF0, 0x81, 0xF2]);
    cpu.set_register(&RegisterType::A, 0x42);
    assert_eq!(step(&mut cpu), 3);
    assert_eq!(cpu.peek(0xFF80), 0x42);
    step(&mut cpu);
    assert_eq!(step(&mut cpu), 2);
    assert_eq!(cpu.peek(0xFF81), 0x42);
    step(&mut cpu);
    assert_eq!(step(&mut cpu), 3);
    assert_eq!(cpu.registers().a, 0x42);
    cpu.poke(0xFF81, 0x24);
    assert_eq!(step(&mut cpu), 2);
    assert_eq!(cpu.registers().a, 0x24);
}

#[test]
fn absolute_loads() {
    // LD (0xC300),A; LD (0xC310),SP; LD A,(0xC311)
    let mut cpu = machine_in_ram(&[0xEA, 0x00, 0xC3, 0x08, 0x10, 0xC3, 0xFA, 0x11, 0xC3]);
    cpu.set_register(&RegisterType::A, 0x42);
    assert_eq!(step(&mut cpu), 4);
    assert_eq!(cpu.peek(0xC300), 0x42);
    assert_eq!(step(&mut cpu), 5);
    assert_eq!(cpu.peek(0xC310), 0xF0);
    assert_eq!(cpu.peek(0xC311), 0xDF);
    assert_eq!(step(&mut cpu), 4);
    assert_eq!(cpu.registers().a, 0xDF);
}

#[test]
fn stack_pointer_loads() {
    // LD SP,HL; LD HL,SP+0x02; LD HL,SP-1; ADD SP,-1; ADD SP,+1
    let mut cpu = machine_in_ram(&[0xF9, 0xF8, 0x02, 0xF8, 0xFF, 0xE8, 0xFF, 0xE8, 0x01]);
    cpu.set_register(&RegisterType::HL, 0x00FF);
    assert_eq!(step(&mut cpu), 2);
    assert_eq!(cpu.registers().sp, 0x00FF);
    assert_eq!(cpu.registers().f, 0xB0);
    assert_eq!(step(&mut cpu), 3);
    assert_eq!(cpu.read_register(&RegisterType::HL), 0x0101);
    assert_eq!(cpu.registers().flags_now(), flags(false, false, true, true));
    assert_eq!(cpu.registers().sp, 0x00FF);
    assert_eq!(step(&mut cpu), 3);
    assert_eq!(cpu.read_register(&RegisterType::HL), 0x00FE);
    assert_eq!(cpu.registers().flags_now(), flags(false, false, true, true));
    assert_eq!(step(&mut cpu), 4);
    assert_eq!(cpu.registers().sp, 0x00FE);
    assert_eq!(cpu.registers().flags_now(), flags(false, false, true, true));
    assert_eq!(step(&mut cpu), 4);
    assert_eq!(cpu.registers().sp, 0x00FF);
    assert_eq!(cpu.registers().flags_now(), flags(false, false, false, false));
}

#[test]
fn add_sp_flags_come_from_the_low_byte() {
    for (sp, e8, result, h, c) in [
        (0x0000u16, 0x00u8, 0x0000u16, false, false),
        (0x000F, 0x01, 0x0010, true, false),
        (0x00F0, 0x10, 0x0100, false, true),
        (0x00FF, 0x01, 0x0100, true, true),
        (0xFFFF, 0x01, 0x0000, true, true),
        (0x0000, 0xFF, 0xFFFF, false, false),
        (0x0001, 0xFF, 0x0000, true, true),
        (0x1000, 0x80, 0x0F80, false, false),
        (0x0080, 0x80, 0x0000, false, true),
    ] {
        let mut cpu = machine_in_ram(&[0xE8, e8]);
        cpu.set_register(&RegisterType::SP, sp);
        step(&mut cpu);
        assert_eq!(cpu.registers().sp, result, "sp {:#06x} e8 {:#04x}", sp, e8);
        assert_eq!(
            cpu.registers().flags_now(),
            flags(false, false, h, c),
            "sp {:#06x} e8 {:#04x}",
            sp,
            e8
        );
    }
}

#[test]
fn sixteen_bit_add_sets_half_carry_from_bit_11() {
    let mut state: u32 = 0x2545_F491;
    let mut next = || {
        state ^= state << 13;
        state ^= state >> 17;
        state ^= state << 5;
        state
    };
    let mut cases: Vec<(u16, u16)> = vec![
        (0x0000, 0x0000),
        (0x0FFF, 0x0001),
        (0x0FFF, 0x0000),
        (0xFFFF, 0x0001),
        (0xF000, 0x1000),
        (0x8000, 0x8000),
        (0x0800, 0x0800),
        (0xFFFF, 0xFFFF),
    ];
    for _ in 0..2000 {
        let word = next();
        cases.push((word as u16, (word >> 16) as u16));
    }
    for (hl, bc) in cases {
        for z in [false, true] {
            let mut cpu = machine_in_ram(&[0x09]);
            cpu.set_register(&RegisterType::HL, hl);
            cpu.set_register(&RegisterType::BC, bc);
            cpu.set_flags(flags(z, true, false, false));
            assert_eq!(step(&mut cpu), 2);
            let sum = hl as u32 + bc as u32;
            assert_eq!(cpu.read_register(&RegisterType::HL), sum as u16);
            assert_eq!(
                cpu.registers().flags_now(),
                flags(z, false, ((hl ^ bc ^ sum as u16) & 0x1000) != 0, sum > 0xFFFF),
                "hl {:#06x} bc {:#06x}",
                hl,
                bc
            );
        }
    }
}

#[test]
fn add_hl_to_itself_and_sp() {
    let mut cpu = machine_in_ram(&[0x29, 0x39]);
    cpu.set_register(&RegisterType::HL, 0x8800);
    cpu.set_flags(flags(true, true, false, false));
    step(&mut cpu);
    assert_eq!(cpu.read_register(&RegisterType::HL), 0x1000);
    assert_eq!(cpu.registers().flags_now(), flags(true, false, true, true));
    step(&mut cpu);
    assert_eq!(cpu.read_register(&RegisterType::HL), 0xEFF0);
    assert_eq!(cpu.registers().flags_now(), flags(true, false, false, false));
}

#[test]
fn increments_and_decrements() {
    // INC B; DEC B; DEC B; INC BC; DEC DE; INC (HL); DEC (HL)
    let mut cpu = machine_in_ram(&[0x04, 0x05, 0x05, 0x03, 0x1B, 0x34, 0x35]);
    cpu.set_register(&RegisterType::B, 0x0F);
    cpu.set_flags(flags(false, true, false, true));
    assert_eq!(step(&mut cpu), 1);
    assert_eq!(cpu.registers().b, 0x10);
    assert_eq!(cpu.registers().flags_now(), flags(false, false, true, true));
    step(&mut cpu);
    assert_eq!(cpu.registers().b, 0x0F);
    assert_eq!(cpu.registers().flags_now(), flags(false, true, true, true));
    cpu.set_register(&RegisterType::B, 0x01);
    cpu.set_flags(flags(false, false, false, false));
    step(&mut cpu);
    assert_eq!(cpu.registers().b, 0x00);
    assert_eq!(cpu.registers().flags_now(), flags(true, true, false, false));

    cpu.set_register(&RegisterType::BC, 0xFFFF);
    cpu.set_register(&RegisterType::DE, 0x0000);
    cpu.set_flags(flags(false, true, false, true));
    assert_eq!(step(&mut cpu), 2);
    assert_eq!(cpu.read_register(&RegisterType::BC), 0x0000);
    assert_eq!(step(&mut cpu), 2);
    assert_eq!(cpu.read_register(&RegisterType::DE), 0xFFFF);
    assert_eq!(cpu.registers().flags_now(), flags(false, true, false, true));

    cpu.set_register(&RegisterType::HL, 0xC900);
    cpu.poke(0xC900, 0xFF);
    assert_eq!(step(&mut cpu), 3);
    assert_eq!(cpu.peek(0xC900), 0x00);
    assert_eq!(cpu.registers().flags_now(), flags(true, false, true, true));
    assert_eq!(cpu.read_register(&RegisterType::HL), 0xC900);
    assert_eq!(step(&mut cpu), 3);
    assert_eq!(cpu.peek(0xC900), 0xFF);
    assert_eq!(cpu.registers().flags_now(), flags(false, true, true, true));
}

#[test]
fn arithmetic_on_a_with_registers_memory_and_immediates() {
    // ADD A,B; ADC A,0x01; SUB (HL); SBC A,C; AND 0xF0; OR D; XOR 0xFF; CP 0x0F
    let mut cpu = machine_in_ram(&[
        0x80, 0xCE, 0x01, 0x96, 0x99, 0xE6, 0xF0, 0xB2, 0xEE, 0xFF, 0xFE, 0x0F,
    ]);
    cpu.set_register(&RegisterType::A, 0xF8);
    cpu.set_register(&RegisterType::B, 0x08);
    cpu.set_register(&RegisterType::C, 0x01);
    cpu.set_register(&RegisterType::D, 0x0A);
    cpu.set_register(&RegisterType::HL, 0xC900);
    cpu.poke(0xC900, 0x02);
    step(&mut cpu);
    assert_eq!(cpu.registers().a, 0x00);
    assert_eq!(cpu.registers().flags_now(), flags(true, false, true, true));
    assert_eq!(step(&mut cpu), 2);
    assert_eq!(cpu.registers().a, 0x02);
    assert_eq!(cpu.registers().flags_now(), flags(false, false, false, false));
    assert_eq!(step(&mut cpu), 2);
    assert_eq!(cpu.registers().a, 0x00);
    assert_eq!(cpu.registers().flags_now(), flags(true, true, false, false));
    step(&mut cpu);
    assert_eq!(cpu.registers().a, 0xFF);
    assert_eq!(cpu.registers().flags_now(), flags(false, true, true, true));
    step(&mut cpu);
    assert_eq!(cpu.registers().a, 0xF0);
    assert_eq!(cpu.registers().flags_now(), flags(false, false, true, false));
    step(&mut cpu);
    assert_eq!(cpu.registers().a, 0xFA);
    assert_eq!(cpu.registers().flags_now(), flags(false, false, false, false));
    step(&mut cpu);
    assert_eq!(cpu.registers().a, 0x05);
    assert_eq!(cpu.registers().flags_now(), flags(false, false, false, false));
    step(&mut cpu);
    assert_eq!(cpu.registers().a, 0x05);
    assert_eq!(cpu.registers().flags_now(), flags(false, true, true, true));
}

#[test]
fn compare_equal_sets_zero_and_keeps_a() {
    let mut cpu = machine_in_ram(&[0xFE, 0x3C, 0xBF]);
    cpu.set_register(&RegisterType::A, 0x3C);
    step(&mut cpu);
    assert_eq!(cpu.registers().a, 0x3C);
    assert_eq!(cpu.registers().flags_now(), flags(true, true, false, false));
    step(&mut cpu);
    assert_eq!(cpu.registers().flags_now(), flags(true, true, false, false));
}

#[test]
fn rotates_of_a_always_clear_zero() {
    for (opcode, a, carry, result, out) in [
        (0x07u8, 0x80u8, false, 0x01u8, true),
        (0x07, 0x00, true, 0x00, false),
        (0x0F, 0x01, false, 0x80, true),
        (0x0F, 0x00, true, 0x00, false),
        (0x17, 0x80, false, 0x00, true),
        (0x17, 0x00, true, 0x01, false),
        (0x1F, 0x01, false, 0x00, true),
        (0x1F, 0x00, true, 0x80, false),
        (0x1F, 0x00, false, 0x00, false),
    ] {
        let mut cpu = machine_in_ram(&[opcode]);
        cpu.set_register(&RegisterType::A, a as u16);
        cpu.set_flags(flags(true, true, true, carry));
        assert_eq!(step(&mut cpu), 1);
        assert_eq!(cpu.registers().a, result, "opcode {:#04x} a {:#04x}", opcode, a);
        assert_eq!(cpu.registers().flags_now(), flags(false, false, false, out));
    }
}

#[test]
fn flag_instructions() {
    // SCF; CCF; CCF; CPL
    let mut cpu = machine_in_ram(&[0x37, 0x3F, 0x3F, 0x2F]);
    cpu.set_register(&RegisterType::A, 0x35);
    cpu.set_flags(flags(true, true, true, false));
    step(&mut cpu);
    assert_eq!(cpu.registers().flags_now(), flags(true, false, false, true));
    step(&mut cpu);
    assert_eq!(cpu.registers().flags_now(), flags(true, false, false, false));
    step(&mut cpu);
    assert_eq!(cpu.registers().flags_now(), flags(true, false, false, true));
    step(&mut cpu);
    assert_eq!(cpu.registers().a, 0xCA);
    assert_eq!(cpu.registers().flags_now(), flags(true, true, true, true));
}

#[test]
fn decimal_adjust_after_add_and_subtract() {
    // LD A,0x45; ADD A,0x38; DAA; SUB 0x38; DAA
    let mut cpu = machine_in_ram(&[0x3E, 0x45, 0xC6, 0x38, 0x27, 0xD6, 0x38, 0x27]);
    step(&mut cpu);
    step(&mut cpu);
    assert_eq!(cpu.registers().a, 0x7D);
    assert_eq!(step(&mut cpu), 1);
    assert_eq!(cpu.registers().a, 0x83);
    assert_eq!(cpu.registers().flags_now(), flags(false, false, false, false));
    step(&mut cpu);
    assert_eq!(cpu.registers().a, 0x4B);
    step(&mut cpu);
    assert_eq!(cpu.registers().a, 0x45);
    assert_eq!(cpu.registers().flags_now(), flags(false, true, false, false));
}

#[test]
fn relative_jumps() {
    // JR +2; (skipped) ; JR NZ,-4 not taken with Z set; JR Z,-6 taken
    let mut cpu = machine_in_ram(&[0x18, 0x02, 0x00, 0x00, 0x20, 0xFC, 0x28, 0xFA]);
    cpu.set_flags(flags(true, false, false, false));
    assert_eq!(step(&mut cpu), 3);
    assert_eq!(cpu.registers().pc, 0xC004);
    assert_eq!(step(&mut cpu), 2);
    assert_eq!(cpu.registers().pc, 0xC006);
    assert_eq!(step(&mut cpu), 3);
    assert_eq!(cpu.registers().pc, 0xC002);
}

#[test]
fn absolute_jumps() {
    // JP NC,0xC010 not taken; JP C,0xC010 taken; at 0xC010: JP HL
    let mut code = vec![0xD2, 0x10, 0xC0, 0xDA, 0x10, 0xC0];
    code.resize(0x10, 0x00);
    code.push(0xE9);
    let mut cpu = machine_in_ram(&code);
    cpu.set_flags(flags(false, false, false, true));
    cpu.set_register(&RegisterType::HL, 0x1234);
    assert_eq!(step(&mut cpu), 3);
    assert_eq!(cpu.registers().pc, 0xC003);
    assert_eq!(step(&mut cpu), 4);
    assert_eq!(cpu.registers().pc, 0xC010);
    assert_eq!(step(&mut cpu), 1);
    assert_eq!(cpu.registers().pc, 0x1234);
    assert_eq!(cpu.registers().sp, 0xDFF0);
}

#[test]
fn untaken_branches_touch_neither_pc_nor_stack() {
    // CALL Z,0x1234 and RET Z with Z clear.
    let mut cpu = machine_in_ram(&[0xCC, 0x34, 0x12, 0xC8]);
    cpu.set_flags(flags(false, false, false, false));
    cpu.poke(0xDFEF, 0xAA);
    cpu.poke(0xDFEE, 0xBB);
    assert_eq!(step(&mut cpu), 3);
    assert_eq!(cpu.registers().pc, 0xC003);
    assert_eq!(cpu.registers().sp, 0xDFF0);
    assert_eq!(cpu.peek(0xDFEF), 0xAA);
    assert_eq!(cpu.peek(0xDFEE), 0xBB);
    assert_eq!(step(&mut cpu), 2);
    assert_eq!(cpu.registers().pc, 0xC004);
    assert_eq!(cpu.registers().sp, 0xDFF0);
}

#[test]
fn call_and_return() {
    // CALL 0xC010; at 0xC010: RET NZ (taken); back at 0xC003: RST 0x28
    let mut code = vec![0xCD, 0x10, 0xC0, 0xEF];
    code.resize(0x10, 0x00);
    code.push(0xC0);
    let mut cpu = machine_in_ram(&code);
    cpu.set_flags(flags(false, false, false, false));
    assert_eq!(step(&mut cpu), 6);
    assert_eq!(cpu.registers().pc, 0xC010);
    assert_eq!(cpu.registers().sp, 0xDFEE);
    assert_eq!(cpu.peek(0xDFEF), 0xC0);
    assert_eq!(cpu.peek(0xDFEE), 0x03);
    assert_eq!(step(&mut cpu), 5);
    assert_eq!(cpu.registers().pc, 0xC003);
    assert_eq!(cpu.registers().sp, 0xDFF0);
    assert_eq!(step(&mut cpu), 4);
    assert_eq!(cpu.registers().pc, 0x0028);
    assert_eq!(cpu.peek(0xDFEF), 0xC0);
    assert_eq!(cpu.peek(0xDFEE), 0x04);
}

#[test]
fn reti_returns_and_enables_at_once() {
    let mut cpu = machine_in_ram(&[0xD9]);
    cpu.poke(0xDFF0, 0x50);
    cpu.poke(0xDFF1, 0xC1);
    assert_eq!(step(&mut cpu), 4);
    assert_eq!(cpu.registers().pc, 0xC150);
    assert_eq!(cpu.registers().sp, 0xDFF2);
    assert!(cpu.master_enabled());
}

#[test]
fn prefixed_rotates_and_shifts() {
    // (sub-opcode for register B, value, carry in, result, carry out)
    for (opcode, value, carry, result, out) in [
        (0x00u8, 0x85u8, false, 0x0Bu8, true),
        (0x00, 0x00, true, 0x00, false),
        (0x08, 0x01, false, 0x80, true),
        (0x10, 0x80, false, 0x00, true),
        (0x10, 0x40, true, 0x81, false),
        (0x18, 0x01, false, 0x00, true),
        (0x18, 0x02, true, 0x81, false),
        (0x20, 0xC0, true, 0x80, true),
        (0x28, 0x81, false, 0xC0, true),
        (0x28, 0x7E, true, 0x3F, false),
        (0x30, 0xA5, true, 0x5A, false),
        (0x38, 0x81, true, 0x40, true),
    ] {
        let mut cpu = machine_in_ram(&[0xCB, opcode]);
        cpu.set_register(&RegisterType::B, value as u16);
        cpu.set_flags(flags(false, true, true, carry));
        assert_eq!(step(&mut cpu), 2);
        assert_eq!(cpu.registers().b, result, "sub-opcode {:#04x} value {:#04x}", opcode, value);
        assert_eq!(
            cpu.registers().flags_now(),
            flags(result == 0, false, false, out),
            "sub-opcode {:#04x} value {:#04x}",
            opcode,
            value
        );
    }
}

#[test]
fn bit_tests_set_zero_when_the_bit_is_clear() {
    for index in 0..8u8 {
        for value in [0x00u8, 0xFF, 0x55, 0xAA] {
            for carry in [false, true] {
                let mut cpu = machine_in_ram(&[0xCB, 0x47 | (index << 3)]);
                cpu.set_register(&RegisterType::A, value as u16);
                cpu.set_flags(flags(false, true, false, carry));
                step(&mut cpu);
                assert_eq!(cpu.registers().a, value);
                assert_eq!(
                    cpu.registers().flags_now(),
                    flags(value & (1 << index) == 0, false, true, carry)
                );
            }
        }
    }
}

#[test]
fn set_and_reset_change_one_bit_and_no_flag() {
    let registers = [
        RegisterType::B,
        RegisterType::C,
        RegisterType::D,
        RegisterType::E,
        RegisterType::H,
        RegisterType::L,
        RegisterType::HL,
        RegisterType::A,
    ];
    let mut state: u32 = 0x9E37_79B9;
    for round in 0..512u32 {
        state = state.wrapping_mul(1_664_525).wrapping_add(1_013_904_223);
        let value = (state >> 24) as u8;
        let index = ((state >> 8) & 7) as u8;
        let operand = (round % 8) as usize;
        let set = 0xC0 | (index << 3) | operand as u8;
        let reset = 0x80 | (index << 3) | operand as u8;
        let mut cpu = machine_in_ram(&[0xCB, set, 0xCB, reset, 0xCB, set]);
        let address = 0xC8C8u16;
        if operand == 6 {
            cpu.set_register(&RegisterType::HL, address);
            cpu.poke(address, value);
        } else {
            cpu.set_register(&registers[operand], value as u16);
        }
        let before = cpu.registers().f;
        let read = |cpu: &CPU| {
            if operand == 6 {
                cpu.peek(address)
            } else {
                cpu.read_register(&registers[operand]) as u8
            }
        };
        step(&mut cpu);
        assert_eq!(read(&cpu), value | (1 << index));
        step(&mut cpu);
        assert_eq!(read(&cpu), value & !(1 << index));
        step(&mut cpu);
        assert_eq!(read(&cpu), value | (1 << index));
        assert_eq!(cpu.registers().f, before);
    }
}

#[test]
fn prefixed_operations_on_memory() {
    // SWAP (HL); BIT 7,(HL); RES 7,(HL); SRL (HL)
    let mut cpu = machine_in_ram(&[0xCB, 0x36, 0xCB, 0x7E, 0xCB, 0xBE, 0xCB, 0x3E]);
    cpu.set_register(&RegisterType::HL, 0xC900);
    cpu.poke(0xC900, 0x18);
    assert_eq!(step(&mut cpu), 4);
    assert_eq!(cpu.peek(0xC900), 0x81);
    assert_eq!(step(&mut cpu), 3);
    assert_eq!(cpu.registers().flags_now(), flags(false, false, true, false));
    assert_eq!(step(&mut cpu), 4);
    assert_eq!(cpu.peek(0xC900), 0x01);
    assert_eq!(step(&mut cpu), 4);
    assert_eq!(cpu.peek(0xC900), 0x00);
    assert_eq!(cpu.registers().flags_now(), flags(true, false, false, true));
    assert_eq!(cpu.read_register(&RegisterType::HL), 0xC900);
}

#[test]
fn fetch_fills_operand_and_destination() {
    let mut cpu = machine_in_ram(&[0x34, 0x12]);
    let instruction = Instruction {
        action: Action::LD,
        address: AddressMode::A16R,
        register_1: RegisterType::NONE,
        register_2: RegisterType::SP,
        condition: ConditionType::NONE,
        param: 0,
    };
    assert_eq!(AddressMode::A16R.fetch(&mut cpu, &instruction), 2);
    assert_eq!(cpu.mem_dest(), 0x1234);
    assert!(cpu.dest_is_mem());
    assert_eq!(cpu.fetch_data(), 0xDFF0);
    assert_eq!(cpu.registers().pc, 0xC002);

    assert_eq!(AddressMode::IMP.fetch(&mut cpu, &instruction), 0);
    assert_eq!(cpu.mem_dest(), 0);
    assert!(!cpu.dest_is_mem());
    assert_eq!(cpu.fetch_data(), 0xDFF0);

    let high = Instruction { address: AddressMode::MRR, register_1: RegisterType::C, ..instruction };
    cpu.set_register(&RegisterType::C, 0x44);
    assert_eq!(AddressMode::MRR.fetch(&mut cpu, &high), 0);
    assert_eq!(cpu.mem_dest(), 0xFF44);
    assert!(cpu.dest_is_mem());
}

#[test]
fn fetch_of_each_mode_takes_its_cycles() {
    let instruction = Instruction {
        action: Action::LD,
        address: AddressMode::NONE,
        register_1: RegisterType::HL,
        register_2: RegisterType::HL,
        condition: ConditionType::NONE,
        param: 0,
    };
    for (mode, cycles, bytes) in [
        (AddressMode::NONE, 0u8, 0u16),
        (AddressMode::IMP, 0, 0),
        (AddressMode::RD16, 2, 2),
        (AddressMode::RR, 0, 0),
        (AddressMode::MRR, 0, 0),
        (AddressMode::R, 0, 0),
        (AddressMode::RD8, 1, 1),
        (AddressMode::RMR, 1, 0),
        (AddressMode::RHLI, 1, 0),
        (AddressMode::RHLD, 1, 0),
        (AddressMode::HLIR, 0, 0),
        (AddressMode::HLDR, 0, 0),
        (AddressMode::RA8, 1, 1),
        (AddressMode::A8R, 1, 1),
        (AddressMode::HLSPR, 1, 1),
        (AddressMode::D16, 2, 2),
        (AddressMode::D8, 1, 1),
        (AddressMode::D16R, 2, 2),
        (AddressMode::MRD8, 1, 1),
        (AddressMode::MR, 1, 0),
        (AddressMode::A16R, 2, 2),
        (AddressMode::RA16, 3, 2),
    ] {
        let mut cpu = machine_in_ram(&[0x00, 0xC1]);
        cpu.set_register(&RegisterType::HL, 0xC800);
        let div = cpu.bus().timer().div;
        assert_eq!(mode.fetch(&mut cpu, &instruction), cycles, "{:?}", mode);
        assert_eq!(cpu.registers().pc, 0xC000 + bytes, "{:?}", mode);
        assert_eq!(cpu.bus().timer().div.wrapping_sub(div), 4 * cycles as u16, "{:?}", mode);
    }
}

#[test]
fn actions_that_do_nothing() {
    let instruction = Instruction::from(0x00);
    for action in [Action::NONE, Action::NOP, Action::ERR] {
        let mut cpu = machine(&[]);
        let before = cpu.registers();
        assert_eq!(action.execute(&mut cpu, &instruction), 0);
        assert_eq!(cpu.registers(), before);
    }
    // A bit operation on something that is no operand does nothing either.
    let odd = Instruction { action: Action::SET, register_1: RegisterType::SP, ..instruction };
    let mut cpu = machine(&[]);
    let before = cpu.registers();
    assert_eq!(Action::SET.execute(&mut cpu, &odd), 0);
    assert_eq!(cpu.registers(), before);
}

#[test]
fn instruction_execute_fetches_then_acts() {
    let mut cpu = machine_in_ram(&[0x34, 0x12]);
    assert_eq!(Instruction::from(0x01).execute(&mut cpu), 2);
    assert_eq!(cpu.read_register(&RegisterType::BC), 0x1234);
    assert_eq!(cpu.registers().pc, 0xC002);
    let sub = Instruction::from_cb(0xC0);
    assert_eq!(sub.action.execute(&mut cpu, &sub), 0);
    assert_eq!(cpu.read_register(&RegisterType::BC), 0x1334);
}

#[test]
fn conditions_follow_the_flags() {
    let mut cpu = machine(&[]);
    for (z, c) in [(false, false), (false, true), (true, false), (true, true)] {
        cpu.set_flags(flags(z, true, true, c));
        assert!(ConditionType::NONE.check(&cpu));
        assert_eq!(ConditionType::NZ.check(&cpu), !z);
        assert_eq!(ConditionType::Z.check(&cpu), z);
        assert_eq!(ConditionType::NC.check(&cpu), !c);
        assert_eq!(ConditionType::C.check(&cpu), c);
    }
}

#[test]
fn go_to_and_return_from_procedure() {
    let mut cpu = machine(&[]);
    cpu.set_register(&RegisterType::SP, 0xD000);
    cpu.set_flags(flags(false, false, false, false));
    let if_zero = Instruction::from(0xCC);
    let always = Instruction::from(0xCD);
    assert_eq!(cpu.go_to(0x2000, true, &if_zero), 0);
    assert_eq!(cpu.registers().pc, 0x0100);
    assert_eq!(cpu.go_to(0x2000, false, &always), 1);
    assert_eq!(cpu.registers().pc, 0x2000);
    assert_eq!(cpu.registers().sp, 0xD000);
    assert_eq!(cpu.go_to(0x3000, true, &always), 3);
    assert_eq!(cpu.registers().pc, 0x3000);
    assert_eq!(cpu.registers().sp, 0xCFFE);
    assert_eq!(cpu.return_from_procedure(&Instruction::from(0xC8)), 1);
    assert_eq!(cpu.registers().pc, 0x3000);
    assert_eq!(cpu.return_from_procedure(&Instruction::from(0xC0)), 4);
    assert_eq!(cpu.registers().pc, 0x2000);
    assert_eq!(cpu.registers().sp, 0xD000);
    cpu.stack_push16(0x4000);
    assert_eq!(cpu.return_from_procedure(&Instruction::from(0xC9)), 3);
    assert_eq!(cpu.registers().pc, 0x4000);
}

#[test]
fn operands_of_bit_operations() {
    let mut cpu = machine(&[]);
    cpu.set_register(&RegisterType::HL, 0xC123);
    cpu.poke(0xC123, 0x77);
    let div = cpu.bus().timer().div;
    assert_eq!(cpu.read_register8(&RegisterType::HL), 0x77);
    assert_eq!(cpu.bus().timer().div, div.wrapping_add(4));
    assert_eq!(cpu.read_register8(&RegisterType::H), 0xC1);
    assert_eq!(cpu.bus().timer().div, div.wrapping_add(4));
    cpu.set_register8(&RegisterType::HL, 0x88);
    assert_eq!(cpu.peek(0xC123), 0x88);
    assert_eq!(cpu.bus().timer().div, div.wrapping_add(8));
    cpu.set_register8(&RegisterType::L, 0x24);
    assert_eq!(cpu.read_register(&RegisterType::HL), 0xC124);
}

#[test]
fn memory_access_takes_a_cycle_each() {
    let mut cpu = machine_in_ram(&[0x11, 0x22]);
    let div = cpu.bus().timer().div;
    cpu.write_memory(0xC100, 0x5A);
    assert_eq!(cpu.read_memory(0xC100), 0x5A);
    cpu.write_memory16(0xC200, 0xBEEF);
    assert_eq!(cpu.peek(0xC200), 0xEF);
    assert_eq!(cpu.peek(0xC201), 0xBE);
    assert_eq!(cpu.fetch_byte(), 0x11);
    assert_eq!(cpu.registers().pc, 0xC001);
    assert_eq!(cpu.bus().timer().div, div.wrapping_add(4 * 5));
    cpu.set_register(&RegisterType::PC, 0xC000);
    assert_eq!(cpu.fetch_word(), 0x2211);
    assert_eq!(cpu.fetch_instruction(), Instruction::from(0x00));
    assert_eq!(cpu.current_op_code(), 0x00);
    assert_eq!(cpu.registers().pc, 0xC003);
}

#[test]
fn program_counter_wraps() {
    let mut cpu = machine(&[]);
    cpu.poke(0xFFFF, 0x00);
    cpu.set_register(&RegisterType::PC, 0xFFFF);
    assert_eq!(step(&mut cpu), 1);
    assert_eq!(cpu.registers().pc, 0x0000);
}

#[test]
fn debug_stream_collects_characters() {
    let mut cpu = machine(&[]);
    cpu.debug_update();
    assert_eq!(cpu.debug_message(), "");
    cpu.poke(0xFF01, b'O');
    cpu.poke(0xFF02, 0x81);
    cpu.debug_update();
    assert_eq!(cpu.debug_message(), "O");
    assert_eq!(cpu.peek(0xFF02), 0x00);
    assert_eq!(cpu.peek(0xFF01), b'O');
    cpu.debug_update();
    assert_eq!(cpu.debug_message(), "O");
    cpu.poke(0xFF01, b'k');
    cpu.poke(0xFF02, 0x80);
    cpu.debug_update();
    assert_eq!(cpu.debug_message(), "O");
    cpu.poke(0xFF02, 0x81);
    cpu.debug_update();
    assert_eq!(cpu.debug_message(), "Ok");
}

#[test]
fn program_writes_to_the_debug_stream() {
    // LD A,'H'; LDH (0x01),A; LD A,0x81; LDH (0x02),A
    let mut cpu = machine(&[0x3E, b'H', 0xE0, 0x01, 0x3E, 0x81, 0xE0, 0x02]);
    for _ in 0..4 {
        cpu.debug_update();
        step(&mut cpu);
    }
    cpu.debug_update();
    assert_eq!(cpu.debug_message(), "H");
}
