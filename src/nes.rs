use vstd::prelude::*;
use crate::bus::{Bus, RAM_SIZE};
use crate::cartridge::Cartridge;
use crate::clock::Clock;
use crate::cpu::{Cpu, Registers, RESET_CYCLES, RESET_VECTOR, STACK_POINTER_RESET};
use crate::flags::CpuFlag;
use crate::ppu::Ppu;
use crate::Reset;

verus! {

/// How many console ticks one CPU cycle takes.
pub const CPU_CLOCK_DIVIDER: u64 = 3;

/// The console: the CPU (which owns the bus, and through it the PPU and the
/// cartridge slot) and the master clock.
pub struct Nes {
    pub cpu: Cpu,
    pub clock: Clock,
}

impl Nes {
    pub open spec fn wf(self) -> bool {
        self.cpu.wf()
    }

    /// Whether the CPU runs on the tick after `total` ticks.
    pub open spec fn cpu_due(total: u64) -> bool {
        total % 3 == 0
    }

    /// One tick of the console through `mid`, the CPU once its cycle (if due)
    /// has run: the bus clock then counts the tick and the PPU moves one dot.
    pub open spec fn ticked_via(before: Nes, mid: Cpu, after: Nes) -> bool {
        &&& if Nes::cpu_due(before.clock.total_ticks) {
            Cpu::ticked(before.cpu, mid)
        } else {
            mid == before.cpu
        }
        &&& after.cpu == (Cpu {
            bus: Bus { ppu: after.cpu.bus.ppu, clock: after.cpu.bus.clock, ..mid.bus },
            ..mid
        })
        &&& Clock::ticked(mid.bus.clock, after.cpu.bus.clock)
        &&& Ppu::ticked(mid.bus.ppu, after.cpu.bus.ppu)
    }

    /// A console with a fresh CPU, bus and PPU, and no cartridge.
    pub fn new() -> (r: Nes)
        ensures
            r.wf(),
            r.clock == Clock::new_spec(),
            r.cpu.registers == (Registers { a: 0, x: 0, y: 0, status: 0, sp: 0, pc: 0 }),
            r.cpu.bus.ram@ == Seq::new(RAM_SIZE as nat, |i: int| 0u8),
            r.cpu.bus.cartridge.is_none(),
            r.cpu.clock == Clock::new_spec(),
    {
        Nes { cpu: Cpu::new(), clock: Clock::new() }
    }

    /// One tick of the master clock: the CPU runs one cycle on every third
    /// tick (the first included), then the bus clock counts the tick and the
    /// PPU moves one dot.
    pub fn tick(&mut self)
        requires
            old(self).wf(),
        ensures
            final(self).wf(),
            exists|mid: Cpu| #[trigger] Nes::ticked_via(*old(self), mid, *final(self)),
            final(self).clock.ticks_left == 0,
            Clock::ticked(Clock { ticks_left: 0, ..old(self).clock }, final(self).clock),
    {
        if self.clock.total_ticks() % CPU_CLOCK_DIVIDER == 0 {
            self.cpu.tick();
        }
        let ghost mid = self.cpu;
        self.cpu.bus.tick();
        self.cpu.bus.ppu.tick();
        self.clock.set_cycles(0);
        self.clock.tick();
        assert(Nes::ticked_via(*old(self), mid, *self));
    }

    /// Puts a cartridge in the slot, or empties it.
    pub fn insert_cartidge(&mut self, cartridge: Option<Cartridge>)
        ensures
            *final(self) == (Nes {
                cpu: Cpu { bus: Bus { cartridge, ..old(self).cpu.bus }, ..old(self).cpu },
                ..*old(self)
            }),
    {
        self.cpu.bus.insert_cartridge(cartridge);
    }

    pub fn cpu_ref(&self) -> (r: &Cpu)
        ensures
            *r == self.cpu,
    {
        &self.cpu
    }

    pub fn cpu_mut(&mut self) -> (r: &mut Cpu)
        ensures
            *r == old(self).cpu,
            *final(self) == (Nes { cpu: *final(r), ..*old(self) }),
    {
        &mut self.cpu
    }
}

impl Default for Nes {
    fn default() -> (r: Nes)
        ensures
            r.wf(),
            r.cpu.bus.cartridge.is_none(),
    {
        Nes::new()
    }
}

impl Reset for Nes {
    open spec fn inv(&self) -> bool {
        self.wf()
    }

    /// The CPU reset from the reset vector, the bus clock, PPU position and
    /// master clock back to zero; RAM, PPU registers and cartridge kept.
    open spec fn reset_of(&self, before: Self) -> bool {
        &&& self.wf()
        &&& self.cpu.registers == (Registers {
            a: 0,
            x: 0,
            y: 0,
            sp: STACK_POINTER_RESET,
            status: CpuFlag::Unused.spec_mask(),
            pc: before.cpu.word_at(RESET_VECTOR),
        })
        &&& self.cpu.clock == (Clock { total_ticks: 0, ticks_left: RESET_CYCLES })
        &&& self.cpu.bus.ram == before.cpu.bus.ram
        &&& self.cpu.bus.cartridge == before.cpu.bus.cartridge
        &&& self.cpu.bus.ppu.registers == before.cpu.bus.ppu.registers
        &&& self.cpu.bus.ppu.cycle == 0
        &&& self.cpu.bus.ppu.scanline == 0
        &&& self.cpu.bus.clock == Clock::new_spec()
        &&& self.clock == Clock::new_spec()
    }

    fn reset(&mut self) {
        self.cpu.reset();
        self.cpu.bus.reset();
        self.cpu.bus.ppu.reset();
        self.clock.reset();
    }
}

} // verus!
