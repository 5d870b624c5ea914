use vstd::prelude::*;
use crate::Reset;

verus! {

/// Number of registers that the PPU shows the CPU.
pub const PPU_REGISTER_COUNT: usize = 8;

/// Last dot of a scanline.
pub const SCREEN_WIDTH: usize = 340;

/// Last scanline of a frame.
pub const SCREEN_HEIGHT: usize = 240;

/// The picture processing unit as the rest of the console sees it: eight
/// byte registers, and the position of the dot being drawn.
pub struct Ppu {
    pub registers: Vec<u8>,
    pub scanline: usize,
    pub cycle: usize,
}

/// Bits 0-2 of an address pick a PPU register, bits 0-10 a RAM byte.
pub proof fn lemma_low_bits(a: u16)
    by (bit_vector)
    ensures
        a & 7 == a % 8,
        a & 0x7FF == a % 0x800,
{
}

impl Ppu {
    pub open spec fn wf(self) -> bool {
        &&& self.registers@.len() == PPU_REGISTER_COUNT
        &&& self.cycle <= SCREEN_WIDTH
        &&& self.scanline <= SCREEN_HEIGHT
    }

    pub fn new() -> (r: Ppu)
        ensures
            r.wf(),
            r.registers@ == Seq::new(8, |i: int| 0u8),
            r.scanline == 0,
            r.cycle == 0,
    {
        let mut registers: Vec<u8> = Vec::new();
        let mut i: usize = 0;
        while i < PPU_REGISTER_COUNT
            invariant
                i <= PPU_REGISTER_COUNT,
                registers@ == Seq::new(i as nat, |j: int| 0u8),
            decreases PPU_REGISTER_COUNT - i,
        {
            registers.push(0);
            i = i + 1;
            assert(registers@ =~= Seq::new(i as nat, |j: int| 0u8));
        }
        Ppu { registers, scanline: 0, cycle: 0 }
    }

    /// Writes register `address % 8`.
    pub fn write_cpu(&mut self, address: u16, data: u8)
        requires
            old(self).wf(),
        ensures
            final(self).wf(),
            final(self).registers@ == old(self).registers@.update(address as int % 8, data),
            final(self).scanline == old(self).scanline,
            final(self).cycle == old(self).cycle,
    {
        proof {
            lemma_low_bits(address);
        }
        self.registers.set((address & 7) as usize, data);
    }

    /// Reads register `address % 8`.
    pub fn read_cpu(&self, address: u16) -> (r: u8)
        requires
            self.wf(),
        ensures
            r == self.registers@[address as int % 8],
    {
        proof {
            lemma_low_bits(address);
        }
        self.registers[(address & 7) as usize]
    }

    /// `after` is `before` one dot later.
    pub open spec fn ticked(before: Ppu, after: Ppu) -> bool {
        &&& after.registers == before.registers
        &&& before.cycle < SCREEN_WIDTH ==> after.cycle == before.cycle + 1 && after.scanline
            == before.scanline
        &&& before.cycle == SCREEN_WIDTH ==> after.cycle == 0 && after.scanline == if before.scanline
            == SCREEN_HEIGHT {
            0
        } else {
            before.scanline + 1
        }
    }

    /// Moves to the next dot, wrapping at the end of a scanline and of a frame.
    pub fn tick(&mut self)
        requires
            old(self).wf(),
        ensures
            final(self).wf(),
            Ppu::ticked(*old(self), *final(self)),
    {
        self.cycle = self.cycle + 1;
        if self.cycle > SCREEN_WIDTH {
            self.cycle = 0;
            self.scanline = self.scanline + 1;
            if self.scanline > SCREEN_HEIGHT {
                self.scanline = 0;
            }
        }
    }
}

impl Default for Ppu {
    fn default() -> (r: Ppu)
        ensures
            r.wf(),
            r.scanline == 0,
            r.cycle == 0,
    {
        Ppu::new()
    }
}

impl Reset for Ppu {
    /// The drawing position goes back to the first dot of the first scanline;
    /// the registers keep their values.
    open spec fn inv(&self) -> bool {
        self.wf()
    }

    open spec fn reset_of(&self, before: Self) -> bool {
        self.wf() && self.registers == before.registers && self.cycle == 0 && self.scanline == 0
    }

    fn reset(&mut self) {
        self.cycle = 0;
        self.scanline = 0;
    }
}

} // verus!
