use vstd::prelude::*;
use crate::header::Header;

verus! {

/// Cartridge-side address translation: decides whether an address belongs to
/// the cartridge and, if so, where in its memory it lands.
pub trait Mapper: Sized {
    /// Where a CPU read of `addr` lands in PRG memory, if the mapper claims it.
    spec fn cpu_read_target(&self, addr: u16) -> Option<u16>;

    /// Where a CPU write of `addr` lands in PRG memory, if the mapper claims it.
    spec fn cpu_write_target(&self, addr: u16) -> Option<u16>;

    /// Where a PPU read of `addr` lands in CHR memory, if the mapper claims it.
    spec fn ppu_read_target(&self, addr: u16) -> Option<u16>;

    /// Where a PPU write of `addr` lands in CHR memory, if the mapper claims it.
    spec fn ppu_write_target(&self, addr: u16) -> Option<u16>;

    /// `self` is the mapper that `header` describes.
    spec fn built_from(&self, header: Header) -> bool;

    /// Builds the mapper from the cartridge's header.
    fn new(header: &Header) -> (r: Self)
        ensures
            r.built_from(*header),
    ;

    /// Translates a CPU read; writes the offset into `new_addr` and returns
    /// true when the address is claimed, else leaves `new_addr` as it was.
    fn map_cpu_read(&self, addr: u16, new_addr: &mut u16) -> (r: bool)
        ensures
            r == self.cpu_read_target(addr).is_some(),
            r ==> *final(new_addr) == self.cpu_read_target(addr).unwrap(),
            !r ==> *final(new_addr) == *old(new_addr),
    ;

    fn map_cpu_write(&self, addr: u16, new_addr: &mut u16) -> (r: bool)
        ensures
            r == self.cpu_write_target(addr).is_some(),
            r ==> *final(new_addr) == self.cpu_write_target(addr).unwrap(),
            !r ==> *final(new_addr) == *old(new_addr),
    ;

    fn map_ppu_read(&self, addr: u16, new_addr: &mut u16) -> (r: bool)
        ensures
            r == self.ppu_read_target(addr).is_some(),
            r ==> *final(new_addr) == self.ppu_read_target(addr).unwrap(),
            !r ==> *final(new_addr) == *old(new_addr),
    ;

    fn map_ppu_write(&self, addr: u16, new_addr: &mut u16) -> (r: bool)
        ensures
            r == self.ppu_write_target(addr).is_some(),
            r ==> *final(new_addr) == self.ppu_write_target(addr).unwrap(),
            !r ==> *final(new_addr) == *old(new_addr),
    ;
}

/// Mapper 0 (NROM): 16 KB or 32 KB of PRG ROM at 0x8000-0xFFFF, the upper
/// 16 KB mirroring the lower when there is a single bank; 8 KB of CHR at
/// PPU 0x0000-0x1FFF.
#[derive(Debug, Clone, Copy, PartialEq, Eq, Structural)]
pub struct Mapper000 {
    pub prg_banks_count: u8,
    pub chr_banks_count: u8,
    /// A single PRG bank, seen twice.
    pub mirrored: bool,
}

impl Mapper000 {
    /// The PRG offset of CPU address `addr` in 0x8000-0xFFFF.
    pub open spec fn prg_offset(self, addr: u16) -> u16 {
        if self.mirrored {
            (addr % 0x4000) as u16
        } else {
            (addr % 0x8000) as u16
        }
    }

    pub open spec fn prg_target(self, addr: u16) -> Option<u16> {
        if addr >= 0x8000 {
            Some(self.prg_offset(addr))
        } else {
            None
        }
    }

    pub open spec fn chr_target(self, addr: u16) -> Option<u16> {
        if addr <= 0x1FFF {
            Some(addr)
        } else {
            None
        }
    }

    fn translate_prg(&self, addr: u16, new_addr: &mut u16) -> (r: bool)
        ensures
            r == self.prg_target(addr).is_some(),
            r ==> *final(new_addr) == self.prg_target(addr).unwrap(),
            !r ==> *final(new_addr) == *old(new_addr),
    {
        if addr < 0x8000 {
            return false;
        }
        let mask: u16 = if self.mirrored { 0x3FFF } else { 0x7FFF };
        *new_addr = addr & mask;
        assert(addr & 0x3FFF == addr % 0x4000) by (bit_vector);
        assert(addr & 0x7FFF == addr % 0x8000) by (bit_vector);
        true
    }

    fn translate_chr(&self, addr: u16, new_addr: &mut u16) -> (r: bool)
        ensures
            r == self.chr_target(addr).is_some(),
            r ==> *final(new_addr) == self.chr_target(addr).unwrap(),
            !r ==> *final(new_addr) == *old(new_addr),
    {
        if addr > 0x1FFF {
            return false;
        }
        *new_addr = addr;
        true
    }
}

impl Mapper for Mapper000 {
    open spec fn cpu_read_target(&self, addr: u16) -> Option<u16> {
        self.prg_target(addr)
    }

    open spec fn cpu_write_target(&self, addr: u16) -> Option<u16> {
        self.prg_target(addr)
    }

    open spec fn ppu_read_target(&self, addr: u16) -> Option<u16> {
        self.chr_target(addr)
    }

    open spec fn ppu_write_target(&self, addr: u16) -> Option<u16> {
        self.chr_target(addr)
    }

    /// The bank counts of the header; a single PRG bank (or none) is mirrored.
    open spec fn built_from(&self, header: Header) -> bool {
        &&& self.prg_banks_count == header.prg_rom_size
        &&& self.chr_banks_count == header.prg_chr_size
        &&& self.mirrored == (header.prg_rom_size <= 1)
    }

    fn new(header: &Header) -> (r: Self) {
        Mapper000 {
            prg_banks_count: header.prg_rom_size,
            chr_banks_count: header.prg_chr_size,
            mirrored: header.prg_rom_size <= 1,
        }
    }

    fn map_cpu_read(&self, addr: u16, new_addr: &mut u16) -> (r: bool) {
        self.translate_prg(addr, new_addr)
    }

    fn map_cpu_write(&self, addr: u16, new_addr: &mut u16) -> (r: bool) {
        self.translate_prg(addr, new_addr)
    }

    fn map_ppu_read(&self, addr: u16, new_addr: &mut u16) -> (r: bool) {
        self.translate_chr(addr, new_addr)
    }

    fn map_ppu_write(&self, addr: u16, new_addr: &mut u16) -> (r: bool) {
        self.translate_chr(addr, new_addr)
    }
}

/// Picks the mapper that the header's mapper number names; `None` where this
/// library has none for it.
pub fn select_mapper(mapper_id: u8, header: &Header) -> (r: Option<Mapper000>)
    ensures
        r.is_some() <==> mapper_id == 0,
        r matches Some(m) ==> m == (Mapper000 {
            prg_banks_count: header.prg_rom_size,
            chr_banks_count: header.prg_chr_size,
            mirrored: header.prg_rom_size <= 1,
        }),
{
    if mapper_id == 0 {
        Some(<Mapper000 as Mapper>::new(header))
    } else {
        None
    }
}

} // verus!
