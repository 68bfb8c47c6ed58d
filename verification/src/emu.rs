//! The emulator: a processor on a bus around a cartridge, run step by step.

use vstd::prelude::*;
use crate::bus::Bus;
use crate::cartridge::{load_error, ram_len, Cartridge, CartridgeError};
use crate::cpu::{CpuError, CpuView, CPU};

verus! {

/// Number of conformance ROMs that `EMU::test` knows.
pub const TEST_ROMS: u8 = 11;

/// The file of a conformance ROM, by its number from 1 to `TEST_ROMS`.
pub open spec fn test_rom_name(test_num: u8) -> Seq<char> {
    match test_num {
        1 => "..\\gb-test-roms\\cpu_instrs\\individual\\01-special.gb"@,
        2 => "..\\gb-test-roms\\cpu_instrs\\individual\\02-interrupts.gb"@,
        3 => "..\\gb-test-roms\\cpu_instrs\\individual\\03-op sp,hl.gb"@,
        4 => "..\\gb-test-roms\\cpu_instrs\\individual\\04-op r,imm.gb"@,
        5 => "..\\gb-test-roms\\cpu_instrs\\individual\\05-op rp.gb"@,
        6 => "..\\gb-test-roms\\cpu_instrs\\individual\\06-ld r,r.gb"@,
        7 => "..\\gb-test-roms\\cpu_instrs\\individual\\07-jr,jp,call,ret,rst.gb"@,
        8 => "..\\gb-test-roms\\cpu_instrs\\individual\\08-misc instrs.gb"@,
        9 => "..\\gb-test-roms\\cpu_instrs\\individual\\09-op r,r.gb"@,
        10 => "..\\gb-test-roms\\cpu_instrs\\individual\\10-bit ops.gb"@,
        _ => "..\\gb-test-roms\\cpu_instrs\\individual\\11-op a,(hl).gb"@,
    }
}

/// One turn of the emulator on a processor: the debug stream is looked at,
/// then the processor makes a step.
pub open spec fn turned(cpu: CpuView) -> CpuView {
    cpu.debug_updated().stepped()
}

/// The processor can make a turn: it is not stopped, and after the look at
/// the debug stream it can step.
pub open spec fn can_turn(cpu: CpuView) -> bool {
    !cpu.stopped && cpu.debug_updated().can_step()
}

/// The processor after `turns` turns.
pub open spec fn turned_n(cpu: CpuView, turns: nat) -> CpuView
    decreases turns,
{
    if turns == 0 {
        cpu
    } else {
        turned(turned_n(cpu, (turns - 1) as nat))
    }
}

/// Each of the first `turns` turns can be made.
pub open spec fn can_turn_n(cpu: CpuView, turns: nat) -> bool
    decreases turns,
{
    turns == 0 || (can_turn_n(cpu, (turns - 1) as nat) && can_turn(
        turned_n(cpu, (turns - 1) as nat),
    ))
}

/// The model of the emulator.
pub struct EmuView {
    pub cpu: CpuView,
    pub running: bool,
    pub paused: bool,
}

/// The emulator.
pub struct EMU {
    cpu: CPU,
    running: bool,
    paused: bool,
}

impl View for EMU {
    type V = EmuView;

    closed spec fn view(&self) -> EmuView {
        EmuView { cpu: self.cpu@, running: self.running, paused: self.paused }
    }
}

impl EMU {
    pub closed spec fn wf(&self) -> bool {
        self.cpu.wf()
    }

    /// The emulator that starts on the image `rom`: a processor in its
    /// post-boot state on a fresh bus; neither running nor paused.
    pub open spec fn started(emu: EmuView, rom: Seq<u8>) -> bool {
        &&& emu.cpu == CPU::booted(emu.cpu.bus)
        &&& emu.cpu.bus.cartridge.rom == rom
        &&& emu.cpu.bus.cartridge.ram == Seq::new(ram_len(rom), |i: int| 0u8)
        &&& emu.cpu.bus.ram.wram == Seq::new(crate::bus::WRAM_LEN as nat, |i: int| 0u8)
        &&& emu.cpu.bus.ram.hram == Seq::new(crate::bus::HRAM_LEN as nat, |i: int| 0u8)
        &&& emu.cpu.bus.ie_register == 0
        &&& emu.cpu.bus.int_flags == 0
        &&& emu.cpu.bus.serial_data == 0
        &&& emu.cpu.bus.serial_control == 0
        &&& emu.cpu.bus.timer == crate::tpu::Timer { div: 0xAC00, tima: 0, tma: 0, tac: 0 }
        &&& emu.cpu.bus.elapsed == 0
        &&& !emu.running
        &&& !emu.paused
    }

    /// An emulator for the image in `file`, whose bytes are `rom_data`. It
    /// fails exactly when the image is not accepted, and with the reason.
    pub fn from(file: &str, rom_data: Vec<u8>) -> (result: Result<EMU, CartridgeError>)
        ensures
            match result {
                Ok(emu) => load_error(rom_data@) is None && emu.wf() && EMU::started(
                    emu@,
                    rom_data@,
                ),
                Err(error) => load_error(rom_data@) == Some(error),
            },
    {
        match Cartridge::from(file, rom_data) {
            Err(error) => Err(error),
            Ok(cartridge) => {
                let bus = Bus::init(cartridge);
                let cpu = CPU::new(bus);
                Ok(EMU { cpu, running: false, paused: false })
            },
        }
    }

    /// The file that holds a conformance ROM.
    pub fn test_rom(test_num: u8) -> (file: &'static str)
        requires
            1 <= test_num <= TEST_ROMS,
        ensures
            file@ == test_rom_name(test_num),
    {
        match test_num {
            1 => "..\\gb-test-roms\\cpu_instrs\\individual\\01-special.gb",
            2 => "..\\gb-test-roms\\cpu_instrs\\individual\\02-interrupts.gb",
            3 => "..\\gb-test-roms\\cpu_instrs\\individual\\03-op sp,hl.gb",
            4 => "..\\gb-test-roms\\cpu_instrs\\individual\\04-op r,imm.gb",
            5 => "..\\gb-test-roms\\cpu_instrs\\individual\\05-op rp.gb",
            6 => "..\\gb-test-roms\\cpu_instrs\\individual\\06-ld r,r.gb",
            7 => "..\\gb-test-roms\\cpu_instrs\\individual\\07-jr,jp,call,ret,rst.gb",
            8 => "..\\gb-test-roms\\cpu_instrs\\individual\\08-misc instrs.gb",
            9 => "..\\gb-test-roms\\cpu_instrs\\individual\\09-op r,r.gb",
            10 => "..\\gb-test-roms\\cpu_instrs\\individual\\10-bit ops.gb",
            _ => "..\\gb-test-roms\\cpu_instrs\\individual\\11-op a,(hl).gb",
        }
    }

    /// An emulator for the conformance ROM with the given number, whose
    /// bytes are `rom_data`.
    pub fn test(test_num: u8, rom_data: Vec<u8>) -> (result: Result<EMU, CartridgeError>)
        requires
            1 <= test_num <= TEST_ROMS,
        ensures
            match result {
                Ok(emu) => load_error(rom_data@) is None && emu.wf() && EMU::started(
                    emu@,
                    rom_data@,
                ),
                Err(error) => load_error(rom_data@) == Some(error),
            },
    {
        match Cartridge::from(EMU::test_rom(test_num), rom_data) {
            Err(error) => Err(error),
            Ok(cartridge) => {
                let bus = Bus::init(cartridge);
                let cpu = CPU::test(bus);
                Ok(EMU { cpu, running: false, paused: false })
            },
        }
    }

    /// Runs the emulator for at most `limit` turns and says how many it
    /// made. It stops early when it is paused or the processor is stopped;
    /// on an unassigned opcode it stops with the error, after the turns
    /// before it. Afterwards the emulator is running.
    pub fn run(&mut self, limit: u64) -> (result: Result<u64, CpuError>)
        requires
            old(self).wf(),
        ensures
            final(self).wf(),
            final(self)@.running,
            final(self)@.paused == old(self)@.paused,
            match result {
                Ok(turns) => {
                    &&& turns <= limit
                    &&& can_turn_n(old(self)@.cpu, turns as nat)
                    &&& final(self)@.cpu == turned_n(old(self)@.cpu, turns as nat)
                    &&& (turns == limit || final(self)@.paused || final(self)@.cpu.stopped)
                    &&& old(self)@.paused ==> turns == 0
                },
                Err(error) => exists|turns: nat|
                    {
                        &&& turns < limit
                        &&& can_turn_n(old(self)@.cpu, turns)
                        &&& #[trigger] turned_n(old(self)@.cpu, turns).debug_updated()
                            == final(self)@.cpu
                        &&& !final(self)@.cpu.can_step()
                        &&& error == (CpuError::IllegalOpcode {
                            opcode: final(self)@.cpu.next_byte(),
                            pc: final(self)@.cpu.register.pc,
                        })
                    },
            },
    {
        self.running = true;
        let mut turns: u64 = 0;
        while turns < limit && !self.paused && !self.cpu.stopped()
            invariant
                self.wf(),
                self.running,
                self.paused == old(self).paused,
                turns <= limit,
                self.paused ==> turns == 0,
                can_turn_n(old(self)@.cpu, turns as nat),
                self@.cpu == turned_n(old(self)@.cpu, turns as nat),
            decreases limit - turns,
        {
            self.cpu.debug_update();
            match self.cpu.step() {
                Err(error) => {
                    return Err(error);
                },
                Ok(_) => {
                    turns = turns + 1;
                },
            }
        }
        Ok(turns)
    }

    pub fn cpu(&self) -> (cpu: &CPU)
        requires
            self.wf(),
        ensures
            cpu.wf(),
            cpu@ == self@.cpu,
    {
        &self.cpu
    }

    pub fn running(&self) -> (running: bool)
        ensures
            running == self@.running,
    {
        self.running
    }

    pub fn paused(&self) -> (paused: bool)
        ensures
            paused == self@.paused,
    {
        self.paused
    }

    /// Pauses the emulator or lets it go on.
    pub fn set_paused(&mut self, paused: bool)
        requires
            old(self).wf(),
        ensures
            final(self).wf(),
            final(self)@ == (EmuView { paused, ..old(self)@ }),
    {
        self.paused = paused;
    }
}

} // verus!
