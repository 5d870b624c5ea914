//! An emulator core for an 8-bit console built around a 6502-family CPU:
//! the CPU with its cycle clock, addressing modes and opcode table, the
//! memory bus with its mirrors, and cartridges read from iNES images.
use vstd::prelude::*;

pub mod addressing;
pub mod bus;
pub mod cartridge;
pub mod clock;
pub mod cpu;
pub mod flags;
pub mod header;
pub mod mapper;
pub mod nes;
pub mod opcode;
pub mod operations;
pub mod ppu;

pub use bus::Bus;
pub use cartridge::{Cartridge, CartridgeParseError};
pub use clock::Clock;
pub use cpu::{Cpu, Registers};
pub use flags::{clear_flag, set_flag, CpuFlag};
pub use header::{Header, HeaderParseError};
pub use mapper::{select_mapper, Mapper, Mapper000};
pub use opcode::{AddressingMode, OpCode, OpCodeType};
pub use nes::Nes;
pub use ppu::Ppu;

verus! {

/// A component that can be put back in its power-on state.
pub trait Reset: Sized {
    /// The component's own invariant.
    spec fn inv(&self) -> bool;

    /// `self` is what `before` becomes when reset.
    spec fn reset_of(&self, before: Self) -> bool;

    fn reset(&mut self)
        requires
            old(self).inv(),
        ensures
            final(self).reset_of(*old(self)),
    ;
}

} // verus!
