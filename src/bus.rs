use vstd::prelude::*;
use crate::cartridge::Cartridge;
use crate::clock::Clock;
use crate::ppu::{lemma_low_bits, Ppu};
use crate::Reset;

verus! {

/// Bytes of RAM behind the first 8 KB of the address space.
pub const RAM_SIZE: usize = 2048;

/// Last address of the RAM window (2 KB seen four times).
pub const CPU_RAM_END: u16 = 0x1FFF;

/// Last address of the PPU register window (8 registers seen 1024 times).
pub const PPU_END: u16 = 0x3FFF;

/// The CPU's memory bus.
///
/// | range           | backing store                            |
/// |-----------------|------------------------------------------|
/// | 0x0000 - 0x1FFF | 2 KB of RAM, mirrored every 0x0800       |
/// | 0x2000 - 0x3FFF | the 8 PPU registers, mirrored every 8    |
/// | 0x4000 - 0xFFFF | the cartridge, through its mapper        |
///
/// Reads of addresses that nothing backs give 0; writes to them do nothing.
pub struct Bus {
    pub ram: Vec<u8>,
    pub ppu: Ppu,
    pub cartridge: Option<Cartridge>,
    pub clock: Clock,
}

impl Bus {
    pub open spec fn wf(self) -> bool {
        self.ram@.len() == RAM_SIZE && self.ppu.wf()
    }

    /// What a CPU read of `addr` returns.
    pub open spec fn read_spec(self, addr: u16) -> u8 {
        if addr <= CPU_RAM_END {
            self.ram@[addr as int % 0x800]
        } else if addr <= PPU_END {
            self.ppu.registers@[addr as int % 8]
        } else {
            match self.cartridge {
                Some(c) => c.cpu_read_spec(addr),
                None => 0,
            }
        }
    }

    /// `after` is this bus once the CPU has written `data` to `addr`.
    pub open spec fn write_spec(self, after: Bus, addr: u16, data: u8) -> bool {
        if addr <= CPU_RAM_END {
            after == (Bus { ram: after.ram, ..self }) && after.ram@ == self.ram@.update(
                addr as int % 0x800,
                data,
            )
        } else if addr <= PPU_END {
            &&& after == (Bus { ppu: after.ppu, ..self })
            &&& after.ppu == (Ppu { registers: after.ppu.registers, ..self.ppu })
            &&& after.ppu.registers@ == self.ppu.registers@.update(addr as int % 8, data)
        } else {
            after == self
        }
    }

    /// A bus with zeroed RAM, the given PPU, and no cartridge.
    pub fn new(ppu: Ppu) -> (r: Bus)
        requires
            ppu.wf(),
        ensures
            r.wf(),
            r.ram@ == Seq::new(RAM_SIZE as nat, |i: int| 0u8),
            r.ppu == ppu,
            r.cartridge.is_none(),
            r.clock == Clock::new_spec(),
    {
        let mut ram: Vec<u8> = Vec::with_capacity(RAM_SIZE);
        let mut i: usize = 0;
        while i < RAM_SIZE
            invariant
                i <= RAM_SIZE,
                ram@ == Seq::new(i as nat, |j: int| 0u8),
            decreases RAM_SIZE - i,
        {
            ram.push(0);
            i = i + 1;
            assert(ram@ =~= Seq::new(i as nat, |j: int| 0u8));
        }
        Bus { ram, ppu, cartridge: None, clock: Clock::new() }
    }

    pub fn get_ppu(&self) -> (r: &Ppu)
        ensures
            *r == self.ppu,
    {
        &self.ppu
    }

    /// Puts `ppu` on the bus in place of the one there.
    pub fn connect_ppu(&mut self, ppu: Ppu)
        requires
            ppu.wf(),
        ensures
            *final(self) == (Bus { ppu, ..*old(self) }),
    {
        self.ppu = ppu;
    }

    /// A CPU write.
    pub fn write_cpu(&mut self, address: u16, data: u8)
        requires
            old(self).wf(),
        ensures
            final(self).wf(),
            old(self).write_spec(*final(self), address, data),
    {
        proof {
            lemma_low_bits(address);
        }
        if address <= CPU_RAM_END {
            self.ram.set((address & 0x07FF) as usize, data);
        } else if address <= PPU_END {
            self.ppu.write_cpu(address & 0b111, data);
            assert((address & 0b111) % 8 == address % 8) by (bit_vector);
        } else {
            match &mut self.cartridge {
                Some(c) => {
                    c.cpu_write(address, data);
                },
                None => {},
            }
        }
    }

    /// A CPU read.
    pub fn read_cpu(&self, address: u16) -> (r: u8)
        requires
            self.wf(),
        ensures
            r == self.read_spec(address),
    {
        proof {
            lemma_low_bits(address);
        }
        if address <= CPU_RAM_END {
            self.ram[(address & 0x07FF) as usize]
        } else if address <= PPU_END {
            let r = self.ppu.read_cpu(address & 0b111);
            assert((address & 0b111) % 8 == address % 8) by (bit_vector);
            r
        } else {
            match &self.cartridge {
                Some(c) => c.cpu_read(address),
                None => 0,
            }
        }
    }

    pub fn tick(&mut self)
        ensures
            *final(self) == (Bus { clock: final(self).clock, ..*old(self) }),
            Clock::ticked(old(self).clock, final(self).clock),
    {
        self.clock.tick();
    }

    /// Puts a cartridge in the slot, or empties it.
    pub fn insert_cartridge(&mut self, cartridge: Option<Cartridge>)
        ensures
            *final(self) == (Bus { cartridge, ..*old(self) }),
    {
        self.cartridge = cartridge;
    }

    pub fn cartridge_ref(&self) -> (r: Option<&Cartridge>)
        ensures
            r.is_some() == self.cartridge.is_some(),
            r matches Some(c) ==> *c == self.cartridge.unwrap(),
    {
        self.cartridge.as_ref()
    }
}

/// RAM is seen four times over: a byte written at `a` in the first 2 KB
/// reads back at `a`, `a | 0x0800`, `a | 0x1000` and `a | 0x1800`.
pub proof fn lemma_ram_mirrors(before: Bus, after: Bus, a: u16, data: u8)
    requires
        before.wf(),
        a <= 0x07FF,
        before.write_spec(after, a, data),
    ensures
        after.read_spec(a) == data,
        after.read_spec(a | 0x0800) == data,
        after.read_spec(a | 0x1000) == data,
        after.read_spec(a | 0x1800) == data,
{
    assert((a | 0x0800) == a + 0x0800 && (a | 0x1000) == a + 0x1000 && (a | 0x1800) == a
        + 0x1800) by (bit_vector)
        requires
            a <= 0x07FF,
    ;
}

/// The PPU registers repeat every 8 bytes over 0x2000-0x3FFF: addresses `r`
/// and `r + 8 * k` read the same register, and a write through either is
/// read back through the other.
pub proof fn lemma_ppu_register_mirrors(before: Bus, after: Bus, r: u16, k: u16, data: u8)
    requires
        before.wf(),
        0x2000 <= r,
        r + 8 * k <= 0x3FFF,
    ensures
        before.read_spec(r) == before.read_spec((r + 8 * k) as u16),
        before.write_spec(after, (r + 8 * k) as u16, data) ==> after.read_spec(r) == data,
        before.write_spec(after, r, data) ==> after.read_spec((r + 8 * k) as u16) == data,
{
    assert((r + 8 * k) % 8 == r % 8) by (nonlinear_arith);
}

/// Whatever was written, each RAM byte in the first 2 KB reads the same at
/// `a`, `a | 0x0800`, `a | 0x1000` and `a | 0x1800`.
pub proof fn lemma_ram_reads_alias(bus: Bus, a: u16)
    requires
        bus.wf(),
        a <= 0x07FF,
    ensures
        bus.read_spec(a | 0x0800) == bus.read_spec(a),
        bus.read_spec(a | 0x1000) == bus.read_spec(a),
        bus.read_spec(a | 0x1800) == bus.read_spec(a),
{
    assert((a | 0x0800) == a + 0x0800 && (a | 0x1000) == a + 0x1000 && (a | 0x1800) == a
        + 0x1800) by (bit_vector)
        requires
            a <= 0x07FF,
    ;
}

/// A write leaves every RAM address that does not alias it reading as before.
pub proof fn lemma_write_elsewhere(before: Bus, after: Bus, b: u16, data: u8, a: u16)
    requires
        before.wf(),
        before.write_spec(after, b, data),
        a <= CPU_RAM_END,
        !(b <= CPU_RAM_END && b % 0x800 == a % 0x800),
    ensures
        after.read_spec(a) == before.read_spec(a),
{
}

impl Default for Bus {
    fn default() -> (r: Bus)
        ensures
            r.wf(),
            r.cartridge.is_none(),
    {
        Bus::new(Ppu::new())
    }
}

impl Reset for Bus {
    open spec fn inv(&self) -> bool {
        self.wf()
    }

    open spec fn reset_of(&self, before: Self) -> bool {
        self.wf() && *self == (Bus { clock: self.clock, ..before }) && self.clock.reset_of(before.clock)
    }

    fn reset(&mut self) {
        self.clock.reset();
    }
}

} // verus!
