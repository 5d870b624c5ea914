use vstd::prelude::*;
use crate::header::{has_nes_constant, Header, HeaderParseError, HEADER_LEN};
use crate::mapper::{select_mapper, Mapper, Mapper000};

verus! {

/// PRG ROM comes in banks of 16 KB.
pub const PRG_CHUNK_SIZE: usize = 16384;

/// CHR ROM comes in banks of 8 KB; a board without CHR ROM has this much CHR RAM.
pub const CHR_CHUNK_SIZE: usize = 8192;

/// Length of the optional trainer block.
pub const TRAINER_LEN: usize = 512;

/// Why an iNES image could not be loaded.
#[derive(Debug, Clone, Copy, PartialEq, Eq, Structural)]
pub enum CartridgeParseError {
    InvalidHeader(HeaderParseError),
    ProgramRomCutsOff,
    CharacterRomCutsOff,
    /// No mapper of this library has this number.
    UnsupportedMapper(u8),
}

/// Length of the trainer that the image `s` announces.
pub open spec fn image_trainer_len(s: Seq<u8>) -> int {
    if s[6] & 0x04 != 0 {
        512
    } else {
        0
    }
}

/// Length of the PRG ROM that the image `s` announces.
pub open spec fn image_prg_len(s: Seq<u8>) -> int {
    s[4] * 16384
}

/// Length of the CHR ROM that the image `s` announces.
pub open spec fn image_chr_len(s: Seq<u8>) -> int {
    s[5] * 8192
}

/// Where the PRG ROM of the image `s` starts.
pub open spec fn image_prg_start(s: Seq<u8>) -> int {
    16 + image_trainer_len(s)
}

/// Where the CHR ROM of the image `s` starts.
pub open spec fn image_chr_start(s: Seq<u8>) -> int {
    image_prg_start(s) + image_prg_len(s)
}

/// The first reason, in the order the image is read, why `s` is no loadable image.
pub open spec fn image_error(s: Seq<u8>) -> Option<CartridgeParseError> {
    if s.len() < 16 {
        Some(CartridgeParseError::InvalidHeader(HeaderParseError::InvalidStreamLength))
    } else if !has_nes_constant(s) {
        Some(CartridgeParseError::InvalidHeader(HeaderParseError::NoNesConstant))
    } else if s.len() < image_chr_start(s) {
        Some(CartridgeParseError::ProgramRomCutsOff)
    } else if s.len() < image_chr_start(s) + image_chr_len(s) {
        Some(CartridgeParseError::CharacterRomCutsOff)
    } else if (s[7] & 0xF0) | (s[6] >> 4) != 0 {
        Some(CartridgeParseError::UnsupportedMapper((s[7] & 0xF0) | (s[6] >> 4)))
    } else {
        None
    }
}

/// A cartridge: its header, PRG and CHR memory, and its mapper.
pub struct Cartridge {
    pub header: Header,
    pub virtual_program_memory: Vec<u8>,
    pub virtual_character_memory: Vec<u8>,
    pub mapper_id: u8,
    pub program_banks_count: u8,
    pub character_banks_count: u8,
    pub mapper: Mapper000,
}

/// Copies `len` bytes of `bytes` from `start` on.
fn copy_range(bytes: &[u8], start: usize, len: usize) -> (r: Vec<u8>)
    requires
        start + len <= bytes@.len(),
    ensures
        r@ == bytes@.subrange(start as int, start + len),
{
    let n = bytes.len();
    let mut out: Vec<u8> = Vec::with_capacity(len);
    let mut i: usize = 0;
    while i < len
        invariant
            i <= len,
            n == bytes@.len(),
            start + len <= bytes@.len(),
            out@ == bytes@.subrange(start as int, start + i),
        decreases len - i,
    {
        out.push(bytes[start + i]);
        i = i + 1;
        assert(out@ =~= bytes@.subrange(start as int, start + i));
    }
    out
}

/// `len` zero bytes.
fn zeroes(len: usize) -> (r: Vec<u8>)
    ensures
        r@ == Seq::new(len as nat, |i: int| 0u8),
{
    let mut out: Vec<u8> = Vec::with_capacity(len);
    let mut i: usize = 0;
    while i < len
        invariant
            i <= len,
            out@ == Seq::new(i as nat, |j: int| 0u8),
        decreases len - i,
    {
        out.push(0);
        i = i + 1;
        assert(out@ =~= Seq::new(i as nat, |j: int| 0u8));
    }
    out
}

impl Cartridge {
    /// Whether CHR memory is RAM: the header announces no CHR ROM.
    pub open spec fn has_chr_ram(self) -> bool {
        self.character_banks_count == 0
    }

    /// `self` is the cartridge that the image `s` describes.
    pub open spec fn loaded_from(self, s: Seq<u8>) -> bool {
        &&& s.len() >= 16
        &&& self.header.read_from(s.subrange(0, 16))
        &&& self.mapper_id == (s[7] & 0xF0) | (s[6] >> 4)
        &&& self.program_banks_count == s[4]
        &&& self.character_banks_count == s[5]
        &&& self.virtual_program_memory@ == s.subrange(image_prg_start(s), image_chr_start(s))
        &&& self.virtual_character_memory@ == if s[5] == 0 {
            Seq::new(8192, |i: int| 0u8)
        } else {
            s.subrange(image_chr_start(s), image_chr_start(s) + image_chr_len(s))
        }
        &&& self.mapper == (Mapper000 {
            prg_banks_count: s[4],
            chr_banks_count: s[5],
            mirrored: s[4] <= 1,
        })
    }

    /// What a CPU read of `addr` returns: the PRG byte the mapper points at,
    /// or 0 where the mapper does not claim the address or points past the ROM.
    pub open spec fn cpu_read_spec(self, addr: u16) -> u8 {
        match self.mapper.cpu_read_target(addr) {
            Some(o) => if (o as int) < self.virtual_program_memory@.len() {
                self.virtual_program_memory@[o as int]
            } else {
                0
            },
            None => 0,
        }
    }

    /// What a PPU read of `addr` returns, from CHR memory.
    pub open spec fn ppu_read_spec(self, addr: u16) -> u8 {
        match self.mapper.ppu_read_target(addr) {
            Some(o) => if (o as int) < self.virtual_character_memory@.len() {
                self.virtual_character_memory@[o as int]
            } else {
                0
            },
            None => 0,
        }
    }

    /// Loads a cartridge from an iNES image: header, optional trainer, PRG ROM,
    /// then CHR ROM (or 8 KB of CHR RAM where the header announces none).
    pub fn try_from(bytestream: &[u8]) -> (r: Result<Cartridge, CartridgeParseError>)
        ensures
            r.is_err() <==> image_error(bytestream@).is_some(),
            r matches Err(e) ==> image_error(bytestream@) == Some(e),
            r matches Ok(c) ==> c.loaded_from(bytestream@),
    {
        let ghost s = bytestream@;
        let len = bytestream.len();
        if len < HEADER_LEN {
            return Err(CartridgeParseError::InvalidHeader(HeaderParseError::InvalidStreamLength));
        }
        let header_bytes = copy_range(bytestream, 0, HEADER_LEN);
        let header = match Header::try_from(header_bytes.as_slice()) {
            Ok(h) => h,
            Err(e) => {
                return Err(CartridgeParseError::InvalidHeader(e));
            },
        };
        let mut pos: usize = HEADER_LEN;
        if header.has_trainer() {
            if len - pos < TRAINER_LEN {
                return Err(CartridgeParseError::ProgramRomCutsOff);
            }
            pos = pos + TRAINER_LEN;
        }
        assert(pos == image_prg_start(s));
        let program_banks_count = header.prg_rom_size;
        let prg_size = program_banks_count as usize * PRG_CHUNK_SIZE;
        if len - pos < prg_size {
            return Err(CartridgeParseError::ProgramRomCutsOff);
        }
        let virtual_program_memory = copy_range(bytestream, pos, prg_size);
        pos = pos + prg_size;
        let character_banks_count = header.prg_chr_size;
        let chr_size = character_banks_count as usize * CHR_CHUNK_SIZE;
        if len - pos < chr_size {
            return Err(CartridgeParseError::CharacterRomCutsOff);
        }
        let virtual_character_memory = if character_banks_count == 0 {
            zeroes(CHR_CHUNK_SIZE)
        } else {
            copy_range(bytestream, pos, chr_size)
        };
        let mapper_id = header.mapper_id();
        let mapper = match select_mapper(mapper_id, &header) {
            Some(m) => m,
            None => {
                return Err(CartridgeParseError::UnsupportedMapper(mapper_id));
            },
        };
        Ok(
            Cartridge {
                header,
                virtual_program_memory,
                virtual_character_memory,
                mapper_id,
                program_banks_count,
                character_banks_count,
                mapper,
            },
        )
    }

    /// A CPU read from cartridge space.
    pub fn cpu_read(&self, address: u16) -> (r: u8)
        ensures
            r == self.cpu_read_spec(address),
    {
        let mut new_address: u16 = 0;
        if self.mapper.map_cpu_read(address, &mut new_address) {
            if (new_address as usize) < self.virtual_program_memory.len() {
                self.virtual_program_memory[new_address as usize]
            } else {
                0
            }
        } else {
            0
        }
    }

    /// A CPU write to cartridge space. PRG memory is ROM on the boards this
    /// library supports, so nothing changes; returns whether the mapper claims
    /// the address.
    pub fn cpu_write(&mut self, address: u16, data: u8) -> (r: bool)
        ensures
            *final(self) == *old(self),
            r == old(self).mapper.cpu_write_target(address).is_some(),
    {
        let mut new_address: u16 = 0;
        self.mapper.map_cpu_write(address, &mut new_address)
    }

    /// A PPU read from the pattern tables.
    pub fn ppu_read(&self, address: u16) -> (r: u8)
        ensures
            r == self.ppu_read_spec(address),
    {
        let mut new_address: u16 = 0;
        if self.mapper.map_ppu_read(address, &mut new_address) {
            if (new_address as usize) < self.virtual_character_memory.len() {
                self.virtual_character_memory[new_address as usize]
            } else {
                0
            }
        } else {
            0
        }
    }

    /// A PPU write to the pattern tables: it lands where CHR memory is RAM
    /// and the mapper claims the address; CHR ROM stays as it is.
    pub fn ppu_write(&mut self, address: u16, data: u8)
        ensures
            ({
                let o = old(self).mapper.ppu_write_target(address);
                if old(self).has_chr_ram() && o.is_some() && (o.unwrap() as int) < old(
                    self,
                ).virtual_character_memory@.len() {
                    final(self).virtual_character_memory@ == old(
                        self,
                    ).virtual_character_memory@.update(o.unwrap() as int, data)
                } else {
                    final(self).virtual_character_memory@ == old(self).virtual_character_memory@
                }
            }),
            final(self).header == old(self).header,
            final(self).virtual_program_memory == old(self).virtual_program_memory,
            final(self).mapper_id == old(self).mapper_id,
            final(self).program_banks_count == old(self).program_banks_count,
            final(self).character_banks_count == old(self).character_banks_count,
            final(self).mapper == old(self).mapper,
    {
        let mut new_address: u16 = 0;
        if self.character_banks_count == 0 && self.mapper.map_ppu_write(address, &mut new_address) {
            if (new_address as usize) < self.virtual_character_memory.len() {
                self.virtual_character_memory.set(new_address as usize, data);
            }
        }
    }
}

} // verus!
