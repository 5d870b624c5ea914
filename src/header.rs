use vstd::prelude::*;

verus! {

/// Length of an iNES header in bytes.
pub const HEADER_LEN: usize = 16;

/// The 16-byte header of an iNES image.
///
/// | byte  | meaning                                                   |
/// |-------|-----------------------------------------------------------|
/// | 0-3   | `N`, `E`, `S`, 0x1A                                       |
/// | 4     | PRG ROM size in 16 KB banks                               |
/// | 5     | CHR ROM size in 8 KB banks (0: the board has CHR RAM)     |
/// | 6     | flags: bit 2 trainer present, bits 4-7 mapper low nibble  |
/// | 7     | flags: bits 4-7 mapper high nibble                        |
/// | 8     | PRG RAM size                                              |
/// | 9-10  | TV system                                                 |
/// | 11-15 | unused                                                    |
#[derive(Debug, Clone, Copy)]
pub struct Header {
    pub name: [u8; 4],
    pub prg_rom_size: u8,
    pub prg_chr_size: u8,
    pub flag_6: u8,
    pub flag_7: u8,
    pub prg_ram_size: u8,
    pub tv_system_1: u8,
    pub tv_system_2: u8,
}

#[derive(Debug, Clone, Copy, PartialEq, Eq, Structural)]
pub enum HeaderParseError {
    /// The header is not exactly 16 bytes long.
    InvalidStreamLength,
    /// The first four bytes are not `N`, `E`, `S`, 0x1A.
    NoNesConstant,
}

/// Whether `s` starts with the iNES magic constant.
pub open spec fn has_nes_constant(s: Seq<u8>) -> bool {
    s.len() >= 4 && s[0] == 0x4E && s[1] == 0x45 && s[2] == 0x53 && s[3] == 0x1A
}

impl Header {
    /// `self` holds the fields that the header bytes `s` spell.
    pub open spec fn read_from(self, s: Seq<u8>) -> bool {
        &&& s.len() >= 11
        &&& self.name@ == s.subrange(0, 4)
        &&& self.prg_rom_size == s[4]
        &&& self.prg_chr_size == s[5]
        &&& self.flag_6 == s[6]
        &&& self.flag_7 == s[7]
        &&& self.prg_ram_size == s[8]
        &&& self.tv_system_1 == s[9]
        &&& self.tv_system_2 == s[10]
    }

    pub open spec fn spec_has_trainer(&self) -> bool {
        self.flag_6 & 0x04 != 0
    }

    pub open spec fn spec_mapper_id(&self) -> u8 {
        (self.flag_7 & 0xF0) | (self.flag_6 >> 4)
    }

    /// Whether a 512-byte trainer follows the header (bit 2 of flags 6).
    #[verifier::when_used_as_spec(spec_has_trainer)]
    pub fn has_trainer(&self) -> (r: bool)
        ensures
            r == self.spec_has_trainer(),
    {
        self.flag_6 & 0x04 != 0
    }

    /// The mapper number: its high nibble from flags 7, its low nibble from flags 6.
    #[verifier::when_used_as_spec(spec_mapper_id)]
    pub fn mapper_id(&self) -> (r: u8)
        ensures
            r == self.spec_mapper_id(),
    {
        (self.flag_7 & 0xF0) | (self.flag_6 >> 4)
    }

    /// Parses a header from exactly 16 bytes.
    pub fn try_from(bytestream: &[u8]) -> (r: Result<Header, HeaderParseError>)
        ensures
            bytestream@.len() != 16 ==> r == Err::<Header, HeaderParseError>(
                HeaderParseError::InvalidStreamLength,
            ),
            bytestream@.len() == 16 && !has_nes_constant(bytestream@) ==> r == Err::<
                Header,
                HeaderParseError,
            >(HeaderParseError::NoNesConstant),
            r.is_ok() <==> (bytestream@.len() == 16 && has_nes_constant(bytestream@)),
            r matches Ok(h) ==> h.read_from(bytestream@),
    {
        if bytestream.len() != HEADER_LEN {
            return Err(HeaderParseError::InvalidStreamLength);
        }
        if !(bytestream[0] == 0x4E && bytestream[1] == 0x45 && bytestream[2] == 0x53
            && bytestream[3] == 0x1A) {
            return Err(HeaderParseError::NoNesConstant);
        }
        let name = [bytestream[0], bytestream[1], bytestream[2], bytestream[3]];
        let h = Header {
            name,
            prg_rom_size: bytestream[4],
            prg_chr_size: bytestream[5],
            flag_6: bytestream[6],
            flag_7: bytestream[7],
            prg_ram_size: bytestream[8],
            tv_system_1: bytestream[9],
            tv_system_2: bytestream[10],
        };
        assert(h.name@ =~= bytestream@.subrange(0, 4));
        Ok(h)
    }
}

} // verus!
