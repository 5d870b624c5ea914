use vstd::prelude::*;

verus! {

/// The flags of the status register, one bit each.
#[derive(Debug, Clone, Copy, PartialEq, Eq, Structural)]
pub enum CpuFlag {
    /// Bit 0: carry out of bit 7, or no borrow.
    Carry,
    /// Bit 1: the last result was zero.
    Zero,
    /// Bit 2: maskable interrupts are disabled.
    Interrupt,
    /// Bit 3: decimal mode (kept, but without effect on this console).
    Decimal,
    /// Bit 4: set in the copy of the status pushed by a break.
    Break,
    /// Bit 5: always one.
    Unused,
    /// Bit 6: signed overflow.
    Overflow,
    /// Bit 7: bit 7 of the last result.
    Negative,
}

impl CpuFlag {
    /// The bit of the status register that holds this flag.
    pub open spec fn spec_mask(self) -> u8 {
        match self {
            CpuFlag::Carry => 0x01,
            CpuFlag::Zero => 0x02,
            CpuFlag::Interrupt => 0x04,
            CpuFlag::Decimal => 0x08,
            CpuFlag::Break => 0x10,
            CpuFlag::Unused => 0x20,
            CpuFlag::Overflow => 0x40,
            CpuFlag::Negative => 0x80,
        }
    }

    #[verifier::when_used_as_spec(spec_mask)]
    pub fn mask(self) -> (r: u8)
        ensures
            r == self.spec_mask(),
    {
        match self {
            CpuFlag::Carry => 0x01,
            CpuFlag::Zero => 0x02,
            CpuFlag::Interrupt => 0x04,
            CpuFlag::Decimal => 0x08,
            CpuFlag::Break => 0x10,
            CpuFlag::Unused => 0x20,
            CpuFlag::Overflow => 0x40,
            CpuFlag::Negative => 0x80,
        }
    }
}

/// Whether `flag` is set in the status byte `status`.
pub open spec fn flag_is_set(status: u8, flag: CpuFlag) -> bool {
    status & flag.spec_mask() != 0
}

/// The status byte `status` with `flag` set (`on`) or cleared, and every other bit kept.
pub open spec fn with_flag(status: u8, flag: CpuFlag, on: bool) -> u8 {
    if on {
        status | flag.spec_mask()
    } else {
        status & !flag.spec_mask()
    }
}

/// Returns `status_register` with `flag` set.
pub fn set_flag(status_register: &u8, flag: &CpuFlag) -> (r: u8)
    ensures
        r == with_flag(*status_register, *flag, true),
{
    *status_register | flag.mask()
}

/// Returns `status_register` with `flag` cleared.
pub fn clear_flag(status_register: &u8, flag: &CpuFlag) -> (r: u8)
    ensures
        r == with_flag(*status_register, *flag, false),
{
    *status_register & !flag.mask()
}

/// Setting or clearing one flag decides that flag and leaves every other flag as it was.
pub proof fn lemma_with_flag(status: u8, flag: CpuFlag, on: bool, other: CpuFlag)
    ensures
        flag_is_set(with_flag(status, flag, on), flag) == on,
        other != flag ==> flag_is_set(with_flag(status, flag, on), other) == flag_is_set(
            status,
            other,
        ),
{
    let m = flag.spec_mask();
    let n = other.spec_mask();
    assert(m == 1 || m == 2 || m == 4 || m == 8 || m == 16 || m == 32 || m == 64 || m == 128);
    assert(n == 1 || n == 2 || n == 4 || n == 8 || n == 16 || n == 32 || n == 64 || n == 128);
    assert(other != flag ==> m != n);
    assert(((status | m) & m != 0) && ((status & !m) & m == 0)) by (bit_vector)
        requires
            m == 1 || m == 2 || m == 4 || m == 8 || m == 16 || m == 32 || m == 64 || m == 128,
    ;
    assert(m != n ==> ((status | m) & n != 0) == (status & n != 0) && ((status & !m) & n != 0)
        == (status & n != 0)) by (bit_vector)
        requires
            m == 1 || m == 2 || m == 4 || m == 8 || m == 16 || m == 32 || m == 64 || m == 128,
            n == 1 || n == 2 || n == 4 || n == 8 || n == 16 || n == 32 || n == 64 || n == 128,
    ;
}

} // verus!
