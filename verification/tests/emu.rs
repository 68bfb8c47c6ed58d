use gameboy::cartridge::CartridgeError;
use gameboy::cpu::CpuError;
use gameboy::emu::EMU;

fn rom_with(program: &[u8]) -> Vec<u8> {
    let mut rom = vec![0u8; 0x8000];
    rom[0x100..0x100 + program.len()].copy_from_slice(program);
    let mut x: u8 = 0;
    for i in 0x134..=0x14C {
        x = x.wrapping_sub(rom[i]).wrapping_sub(1);
    }
    rom[0x14D] = x;
    rom
}

#[test]
fn emulator_starts_idle_in_the_post_boot_state() {
    let emu = EMU::from("game.gb", rom_with(&[0x00])).unwrap();
    assert!(!emu.running());
    assert!(!emu.paused());
    assert_eq!(emu.cpu().registers().pc, 0x0100);
    assert_eq!(emu.cpu().registers().sp, 0xFFFE);
    assert_eq!(emu.cpu().registers().a, 0x01);
    assert_eq!(emu.cpu().registers().f, 0xB0);
    assert_eq!(emu.cpu().bus().cartridge().filename(), "game.gb");
}

#[test]
fn emulator_refuses_bad_images() {
    assert_eq!(EMU::from("short.gb", vec![0u8; 0x100]).err(), Some(CartridgeError::Length));
    let mut rom = rom_with(&[0x00]);
    rom[0x14D] ^= 0xFF;
    assert_eq!(EMU::from("bad.gb", rom.clone()).err(), Some(CartridgeError::Checksum));
    assert_eq!(EMU::test(1, rom).err(), Some(CartridgeError::Checksum));
}

#[test]
fn conformance_roms_have_their_files() {
    assert_eq!(EMU::test_rom(1), "..\\gb-test-roms\\cpu_instrs\\individual\\01-special.gb");
    assert_eq!(EMU::test_rom(2), "..\\gb-test-roms\\cpu_instrs\\individual\\02-interrupts.gb");
    assert_eq!(EMU::test_rom(3), "..\\gb-test-roms\\cpu_instrs\\individual\\03-op sp,hl.gb");
    assert_eq!(EMU::test_rom(4), "..\\gb-test-roms\\cpu_instrs\\individual\\04-op r,imm.gb");
    assert_eq!(EMU::test_rom(5), "..\\gb-test-roms\\cpu_instrs\\individual\\05-op rp.gb");
    assert_eq!(EMU::test_rom(6), "..\\gb-test-roms\\cpu_instrs\\individual\\06-ld r,r.gb");
    assert_eq!(
        EMU::test_rom(7),
        "..\\gb-test-roms\\cpu_instrs\\individual\\07-jr,jp,call,ret,rst.gb"
    );
    assert_eq!(EMU::test_rom(8), "..\\gb-test-roms\\cpu_instrs\\individual\\08-misc instrs.gb");
    assert_eq!(EMU::test_rom(9), "..\\gb-test-roms\\cpu_instrs\\individual\\09-op r,r.gb");
    assert_eq!(EMU::test_rom(10), "..\\gb-test-roms\\cpu_instrs\\individual\\10-bit ops.gb");
    assert_eq!(EMU::test_rom(11), "..\\gb-test-roms\\cpu_instrs\\individual\\11-op a,(hl).gb");
    let emu = EMU::test(7, rom_with(&[0x00])).unwrap();
    assert_eq!(emu.cpu().bus().cartridge().filename(), EMU::test_rom(7));
}

#[test]
fn run_makes_as_many_turns_as_asked() {
    let mut emu = EMU::from("nops.gb", rom_with(&[0x00; 16])).unwrap();
    assert_eq!(emu.run(5), Ok(5));
    assert!(emu.running());
    assert_eq!(emu.cpu().registers().pc, 0x0105);
    assert_eq!(emu.run(0), Ok(0));
    assert_eq!(emu.cpu().registers().pc, 0x0105);
    assert_eq!(emu.run(3), Ok(3));
    assert_eq!(emu.cpu().registers().pc, 0x0108);
}

#[test]
fn run_ends_when_the_processor_stops() {
    let mut emu = EMU::from("stop.gb", rom_with(&[0x00, 0x00, 0x10, 0x3C])).unwrap();
    assert_eq!(emu.run(100), Ok(3));
    assert!(emu.cpu().stopped());
    assert_eq!(emu.cpu().registers().pc, 0x0103);
    assert_eq!(emu.run(100), Ok(0));
    assert_eq!(emu.cpu().registers().a, 0x01);
}

#[test]
fn run_does_nothing_while_paused() {
    let mut emu = EMU::from("nops.gb", rom_with(&[0x00; 4])).unwrap();
    emu.set_paused(true);
    assert!(emu.paused());
    assert_eq!(emu.run(10), Ok(0));
    assert!(emu.running());
    assert_eq!(emu.cpu().registers().pc, 0x0100);
    emu.set_paused(false);
    assert_eq!(emu.run(2), Ok(2));
    assert_eq!(emu.cpu().registers().pc, 0x0102);
}

#[test]
fn run_reports_an_unassigned_opcode() {
    let mut emu = EMU::from("bad.gb", rom_with(&[0x00, 0xDD])).unwrap();
    assert_eq!(emu.run(10), Err(CpuError::IllegalOpcode { opcode: 0xDD, pc: 0x0101 }));
    assert_eq!(emu.cpu().registers().pc, 0x0101);
    assert_eq!(emu.run(10), Err(CpuError::IllegalOpcode { opcode: 0xDD, pc: 0x0101 }));
}

#[test]
fn run_collects_the_debug_stream() {
    // LD A,'P'; LDH (0x01),A; LD A,0x81; LDH (0x02),A; NOP; STOP
    let program = [0x3E, b'P', 0xE0, 0x01, 0x3E, 0x81, 0xE0, 0x02, 0x00, 0x10];
    let mut emu = EMU::from("debug.gb", rom_with(&program)).unwrap();
    assert_eq!(emu.run(100), Ok(6));
    assert_eq!(emu.cpu().debug_message(), "P");
    assert_eq!(emu.cpu().peek(0xFF02), 0x00);
}
