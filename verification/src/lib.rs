//! Core of a Game Boy (DMG) emulator: the Sharp LR35902 interpreter, its
//! memory bus, its timer and the interrupt handshake between them.
//!
//! Every component has a mathematical model (a view made of integers and
//! sequences) and every operation is specified as a function on that model.

pub mod bus;
pub mod cartridge;
pub mod cpu;
pub mod emu;
pub mod interrupts;
pub mod tpu;
