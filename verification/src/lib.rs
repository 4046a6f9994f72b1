//! A cycle-stepped reproduction of an 8-bit handheld game console:
//! an instruction execution unit, a banked memory bus, a scanline-based
//! picture-processing unit, a programmable timer, a joypad matrix and the
//! interrupt protocol that ties them together on every step.

pub mod cartridge;
pub mod cpu;
pub mod fault;
pub mod gameboy;
pub mod gpu;
pub mod input;
pub mod laws;
pub mod mmu;
pub mod timer;

use vstd::prelude::*;

verus! {

} // verus!
