//! A cycle-counting emulator core for the Nintendo Entertainment System:
//! a 6502-family CPU interpreter, a scanline-driven picture processor,
//! a four-channel audio synthesizer, and the bus that interleaves them.

use vstd::prelude::*;

pub mod apu;
pub mod bus;
pub mod cartridge;
pub mod cpu;
pub mod debugger;
pub mod frame;
pub mod gamegenie;
pub mod joypad;
pub mod laws;
pub mod opcodes;
pub mod palette;
pub mod ppu;
pub mod render;
pub mod trace;
pub mod util;

verus! {

} // verus!
