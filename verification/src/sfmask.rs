//! The SFMASK register: the RFLAGS bits that `syscall` clears.

use crate::msr::Msr;
use crate::rflags::RFlags;
use vstd::prelude::*;

verus! {

/// Syscall Register: SFMASK
#[derive(Debug)]
pub struct SFMask;

/// A register content could not be read as a set of flags. The field holds
/// the bits of the content that stand for no flag.
#[derive(Clone, Copy, Debug, PartialEq, Eq, Structural)]
pub struct UnknownFlagBits(pub u64);

impl SFMask {
    /// The address of the register.
    pub const ADDRESS: u32 = 0xC000_0084;

    /// The underlying model specific register.
    pub fn msr() -> (msr: Msr)
        ensures
            msr@ == Self::ADDRESS,
    {
        Msr::new(Self::ADDRESS)
    }

    /// Read the flags from a content of the SFMASK register.
    ///
    /// The SFMASK register is used to specify which RFLAGS bits are cleared
    /// during a SYSCALL. If a bit in SFMASK is set to 1, the corresponding bit
    /// in RFLAGS is cleared to 0. If a bit in SFMASK is cleared to 0, the
    /// corresponding RFLAGS bit is not modified.
    ///
    /// A content with a bit that stands for no flag is refused, not cut down:
    /// such a bit would change what every later system call clears.
    pub fn read(raw: u64) -> (outcome: Result<RFlags, UnknownFlagBits>)
        ensures
            match outcome {
                Ok(flags) => raw & !RFlags::ALL == 0 && flags@ == raw,
                Err(unknown) => raw & !RFlags::ALL != 0 && unknown.0 == raw & !RFlags::ALL,
            },
    {
        match RFlags::from_bits(raw) {
            Some(flags) => Ok(flags),
            None => Err(UnknownFlagBits(raw & !RFlags::ALL)),
        }
    }

    /// Write flags to the SFMASK register: the new content is the word of
    /// `value`, bit for bit, which [`SFMask::read`] accepts.
    pub fn write(reg: &mut u64, value: RFlags)
        ensures
            *final(reg) == value@,
            *final(reg) & !RFlags::ALL == 0,
    {
        *reg = value.bits();
    }
}

} // verus!
