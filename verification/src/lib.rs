//! A cycle-stepped model of the handheld's processor complex: the SM83-family
//! CPU with its register file and flags, the interrupt controller with its
//! five-cycle dispatch protocol, the banked memory router with a pluggable
//! cartridge bank controller, and the hardware timer. One `tick` of the
//! emulator advances the whole core by exactly one machine cycle, and every
//! step is specified down to the cycle it happens on.
use vstd::prelude::*;

pub mod registers;
pub mod alu;
pub mod interrupts;
pub mod timer;
pub mod mbc;
pub mod memory;
pub mod cpu;
pub mod emulator;
pub mod laws;

verus! {

/// Hardware platform the core is emulating: the classic handheld (DMG) or the
/// color variant (GBC). Chosen once, at construction; it selects the power-on
/// register and divider constants.
#[derive(Clone, Copy)]
pub enum Platform {
    DMG,
    GBC,
}

} // verus!
