//! The STAR register: the segment selectors that `syscall` and `sysret` load.
//!
//! The register stores two 16-bit bases. The processor derives the four
//! selectors of the fast system-call path from them by fixed offsets:
//!
//! | selector      | value               |
//! |---------------|---------------------|
//! | `cs_sysret`   | `sysret_base + 16`  |
//! | `ss_sysret`   | `sysret_base + 8`   |
//! | `cs_syscall`  | `syscall_base`      |
//! | `ss_syscall`  | `syscall_base + 8`  |

use crate::bits::{bit_range, fits_range, get_bits, set_bits, with_bit_range};
use crate::msr::Msr;
use crate::privilege::PrivilegeLevel;
use crate::selector::SegmentSelector;
use crate::unchecked::Unchecked;
use vstd::prelude::*;

verus! {

/// Syscall Register: STAR
#[derive(Debug)]
pub struct Star;

/// Why a set of four selectors cannot be stored in STAR.
#[derive(Clone, Copy, Debug, PartialEq, Eq, Structural)]
pub enum StarError {
    /// The `sysret` code selector is not the `sysret` stack selector plus 8,
    /// or no 16-bit base lies 8 below the stack selector.
    SysretOffset,
    /// The `syscall` stack selector is not the `syscall` code selector plus 8.
    SyscallOffset,
    /// The `sysret` stack selector does not request ring 3.
    SysretNotRing3,
    /// The `syscall` stack selector does not request ring 0.
    SyscallNotRing0,
}

impl StarError {
    /// A sentence that says what is wrong.
    pub fn message(&self) -> (text: &'static str)
        ensures
            text@ == match self {
                StarError::SysretOffset => "Sysret CS and SS is not offset by 8."@,
                StarError::SyscallOffset => "Syscall CS and SS is not offset by 8."@,
                StarError::SysretNotRing3 => "Sysret's segment must be a Ring3 segment."@,
                StarError::SyscallNotRing0 => "Syscall's segment must be a Ring0 segment."@,
            },
    {
        match self {
            StarError::SysretOffset => "Sysret CS and SS is not offset by 8.",
            StarError::SyscallOffset => "Syscall CS and SS is not offset by 8.",
            StarError::SysretNotRing3 => "Sysret's segment must be a Ring3 segment.",
            StarError::SyscallNotRing0 => "Syscall's segment must be a Ring0 segment.",
        }
    }
}

impl Star {
    /// The address of the register.
    pub const ADDRESS: u32 = 0xC000_0081;

    /// The underlying model specific register.
    pub fn msr() -> (msr: Msr)
        ensures
            msr@ == Self::ADDRESS,
    {
        Msr::new(Self::ADDRESS)
    }

    /// The register content that holds `sysret` in bits 48 to 63 and `syscall`
    /// in bits 32 to 47, with bits 0 to 31 clear.
    pub open spec fn packed(sysret: u16, syscall: u16) -> u64 {
        (sysret * 0x1_0000_0000_0000 + syscall * 0x1_0000_0000) as u64
    }

    /// Bits 48 to 63 of a register content: the base of the `sysret` selectors.
    pub open spec fn sysret_base(raw: u64) -> u16 {
        (raw / 0x1_0000_0000_0000) as u16
    }

    /// Bits 32 to 47 of a register content: the base of the `syscall`
    /// selectors.
    pub open spec fn syscall_base(raw: u64) -> u16 {
        ((raw / 0x1_0000_0000) % 0x1_0000) as u16
    }

    /// Whether the four selectors that the processor derives from a register
    /// content all fit in 16 bits.
    pub open spec fn derivable(raw: u64) -> bool {
        &&& Self::sysret_base(raw) + 16 <= u16::MAX
        &&& Self::syscall_base(raw) + 8 <= u16::MAX
    }

    /// The selectors that the processor derives from a register content, in
    /// the order `cs_sysret`, `ss_sysret`, `cs_syscall`, `ss_syscall`.
    pub open spec fn selectors(raw: u64) -> (
        SegmentSelector,
        SegmentSelector,
        SegmentSelector,
        SegmentSelector,
    )
        recommends
            Self::derivable(raw),
    {
        (
            SegmentSelector((Self::sysret_base(raw) + 16) as u16),
            SegmentSelector((Self::sysret_base(raw) + 8) as u16),
            SegmentSelector(Self::syscall_base(raw)),
            SegmentSelector((Self::syscall_base(raw) + 8) as u16),
        )
    }

    /// The two `sysret` selectors come from one 16-bit base: the code selector
    /// 16 above it, the stack selector 8 above it.
    pub open spec fn sysret_offset_ok(cs_sysret: SegmentSelector, ss_sysret: SegmentSelector) -> bool {
        &&& ss_sysret.0 >= 8
        &&& cs_sysret.0 - 16 == ss_sysret.0 - 8
    }

    /// The two `syscall` selectors come from one base: the code selector is
    /// the base, the stack selector 8 above it.
    pub open spec fn syscall_offset_ok(
        cs_syscall: SegmentSelector,
        ss_syscall: SegmentSelector,
    ) -> bool {
        cs_syscall.0 == ss_syscall.0 - 8
    }

    /// The outcome of the checks that [`Star::write`] makes, in their order:
    /// the first one that fails names the error.
    pub open spec fn check(
        cs_sysret: SegmentSelector,
        ss_sysret: SegmentSelector,
        cs_syscall: SegmentSelector,
        ss_syscall: SegmentSelector,
    ) -> Result<(), StarError> {
        if !Self::sysret_offset_ok(cs_sysret, ss_sysret) {
            Err(StarError::SysretOffset)
        } else if !Self::syscall_offset_ok(cs_syscall, ss_syscall) {
            Err(StarError::SyscallOffset)
        } else if ss_sysret.rpl() != PrivilegeLevel::Ring3 {
            Err(StarError::SysretNotRing3)
        } else if ss_syscall.rpl() != PrivilegeLevel::Ring0 {
            Err(StarError::SyscallNotRing0)
        } else {
            Ok(())
        }
    }

    /// The register content that stands for four selectors that pass
    /// [`Star::check`].
    pub open spec fn encoded(ss_sysret: SegmentSelector, cs_syscall: SegmentSelector) -> u64
        recommends
            ss_sysret.0 >= 8,
    {
        Self::packed((ss_sysret.0 - 8) as u16, cs_syscall.0)
    }

    /// Read the Ring 0 and Ring 3 segment bases from a register content.
    /// The remaining fields are ignored because they are not valid for long
    /// mode.
    ///
    /// # Returns
    /// - Field 1 (SYSRET): the `sysret` base, bits 48 to 63.
    /// - Field 2 (SYSCALL): the `syscall` base, bits 32 to 47.
    pub fn read_raw(raw: u64) -> (bases: (u16, u16))
        ensures
            bases.0 == Self::sysret_base(raw),
            bases.1 == Self::syscall_base(raw),
    {
        let sysret: u64 = get_bits(raw, 48, 64);
        let syscall: u64 = get_bits(raw, 32, 48);
        proof {
            Self::lemma_fields(raw);
        }
        (sysret as u16, syscall as u16)
    }

    /// Read the four selectors that the processor derives from a register
    /// content.
    ///
    /// Returns
    /// - CS Selector SYSRET
    /// - SS Selector SYSRET
    /// - CS Selector SYSCALL
    /// - SS Selector SYSCALL
    ///
    /// A content whose bases lie so close to the 16-bit limit that a derived
    /// selector would pass it has no four selectors, and is left out.
    pub fn read(raw: u64) -> (selectors: (
        SegmentSelector,
        SegmentSelector,
        SegmentSelector,
        SegmentSelector,
    ))
        requires
            Self::derivable(raw),
        ensures
            selectors == Self::selectors(raw),
            selectors.0.0 == Self::sysret_base(raw) + 16,
            selectors.1.0 == Self::sysret_base(raw) + 8,
            selectors.2.0 == Self::syscall_base(raw),
            selectors.3.0 == Self::syscall_base(raw) + 8,
    {
        let bases = Self::read_raw(raw);
        (
            SegmentSelector(bases.0 + 16),
            SegmentSelector(bases.0 + 8),
            SegmentSelector(bases.1),
            SegmentSelector(bases.1 + 8),
        )
    }

    /// Write the Ring 0 and Ring 3 segment bases.
    ///
    /// The new content holds `sysret` in bits 48 to 63 and `syscall` in bits
    /// 32 to 47. Bits 0 to 31 become zero, whatever they were.
    ///
    /// Nothing is checked: loaded into the processor, bases that do not match
    /// the descriptor tables give every later system call a wrong code or
    /// stack segment.
    pub fn write_raw(reg: &mut u64, sysret: u16, syscall: u16, _unchecked: Unchecked)
        ensures
            *final(reg) == Self::packed(sysret, syscall),
            Self::sysret_base(*final(reg)) == sysret,
            Self::syscall_base(*final(reg)) == syscall,
            *final(reg) % 0x1_0000_0000 == 0,
    {
        let mut msr_value: u64 = 0;
        proof {
            Self::lemma_pack(sysret, syscall);
            Self::lemma_raw_round_trip(sysret, syscall);
        }
        set_bits(&mut msr_value, 48, 64, sysret as u64);
        set_bits(&mut msr_value, 32, 48, syscall as u64);
        *reg = msr_value;
    }

    /// Write the four selectors of the fast system-call path.
    ///
    /// Before anything is stored, the selectors are checked in this order:
    /// 1. `cs_sysret` and `ss_sysret` lie 16 and 8 above one 16-bit base;
    /// 2. `ss_syscall` lies 8 above `cs_syscall`;
    /// 3. `ss_sysret` requests ring 3;
    /// 4. `ss_syscall` requests ring 0.
    ///
    /// The first check that fails gives the error, and the register content
    /// stays as it was. If all pass, the content becomes the two bases
    /// `ss_sysret - 8` and `cs_syscall`, as [`Star::write_raw`] stores them.
    pub fn write(
        reg: &mut u64,
        cs_sysret: SegmentSelector,
        ss_sysret: SegmentSelector,
        cs_syscall: SegmentSelector,
        ss_syscall: SegmentSelector,
    ) -> (outcome: Result<(), StarError>)
        ensures
            outcome == Self::check(cs_sysret, ss_sysret, cs_syscall, ss_syscall),
            outcome is Ok ==> *final(reg) == Self::encoded(ss_sysret, cs_syscall),
            outcome is Ok ==> Self::derivable(*final(reg)) && Self::selectors(*final(reg)) == (
                cs_sysret,
                ss_sysret,
                cs_syscall,
                ss_syscall,
            ),
            outcome is Err ==> *final(reg) == *old(reg),
    {
        if ss_sysret.0 < 8 || cs_sysret.0 < 16 || cs_sysret.0 - 16 != ss_sysret.0 - 8 {
            return Err(StarError::SysretOffset);
        }
        if ss_syscall.0 < 8 || cs_syscall.0 != ss_syscall.0 - 8 {
            return Err(StarError::SyscallOffset);
        }
        if ss_sysret.rpl() != PrivilegeLevel::Ring3 {
            return Err(StarError::SysretNotRing3);
        }
        if ss_syscall.rpl() != PrivilegeLevel::Ring0 {
            return Err(StarError::SyscallNotRing0);
        }
        Self::write_raw(reg, ss_sysret.0 - 8, cs_syscall.0, Unchecked);
        Ok(())
    }

    /// What the two bit ranges of a content are, as numbers.
    proof fn lemma_fields(raw: u64)
        ensures
            bit_range(raw, 48, 64) == raw / 0x1_0000_0000_0000,
            bit_range(raw, 48, 64) <= u16::MAX,
            bit_range(raw, 32, 48) == (raw / 0x1_0000_0000) % 0x1_0000,
            bit_range(raw, 32, 48) <= u16::MAX,
    {
        assert(bit_range(raw, 48, 64) == raw / 0x1_0000_0000_0000) by (bit_vector);
        assert(bit_range(raw, 48, 64) <= 0xffff) by (bit_vector);
        assert(bit_range(raw, 32, 48) == (raw / 0x1_0000_0000) % 0x1_0000) by (bit_vector);
        assert(bit_range(raw, 32, 48) <= 0xffff) by (bit_vector);
    }

    /// What setting the two bit ranges of a zero content gives, as a number.
    proof fn lemma_pack(sysret: u16, syscall: u16)
        ensures
            fits_range(sysret as u64, 48, 64),
            fits_range(syscall as u64, 32, 48),
            with_bit_range(with_bit_range(0, 48, 64, sysret as u64), 32, 48, syscall as u64)
                == Self::packed(sysret, syscall),
    {
        assert(fits_range(sysret as u64, 48, 64)) by (bit_vector);
        assert(fits_range(syscall as u64, 32, 48)) by (bit_vector);
        assert(with_bit_range(with_bit_range(0, 48, 64, sysret as u64), 32, 48, syscall as u64)
            == sysret * 0x1_0000_0000_0000 + syscall * 0x1_0000_0000) by (bit_vector);
    }

    /// Reading the bases back from what [`Star::write_raw`] stores gives the
    /// bases that were written, for every pair of 16-bit values, and the low
    /// half of what it stores is zero.
    pub proof fn lemma_raw_round_trip(sysret: u16, syscall: u16)
        ensures
            Self::sysret_base(Self::packed(sysret, syscall)) == sysret,
            Self::syscall_base(Self::packed(sysret, syscall)) == syscall,
            Self::packed(sysret, syscall) % 0x1_0000_0000 == 0,
    {
        let high: u64 = sysret as u64;
        let low: u64 = syscall as u64;
        assert(high * 0x1_0000_0000_0000 + low * 0x1_0000_0000 <= u64::MAX && (high
            * 0x1_0000_0000_0000 + low * 0x1_0000_0000) / 0x1_0000_0000_0000 == high && ((high
            * 0x1_0000_0000_0000 + low * 0x1_0000_0000) / 0x1_0000_0000) % 0x1_0000 == low && (high
            * 0x1_0000_0000_0000 + low * 0x1_0000_0000) % 0x1_0000_0000 == 0)
            by (bit_vector)
            requires
                high <= 0xffff,
                low <= 0xffff,
        ;
    }

    /// Four selectors that meet all four conditions are accepted by
    /// [`Star::write`], and [`Star::read`] of the content that it stores gives
    /// the same four selectors back.
    pub proof fn lemma_round_trip(
        cs_sysret: SegmentSelector,
        ss_sysret: SegmentSelector,
        cs_syscall: SegmentSelector,
        ss_syscall: SegmentSelector,
    )
        requires
            Self::sysret_offset_ok(cs_sysret, ss_sysret),
            Self::syscall_offset_ok(cs_syscall, ss_syscall),
            ss_sysret.rpl() == PrivilegeLevel::Ring3,
            ss_syscall.rpl() == PrivilegeLevel::Ring0,
        ensures
            Self::check(cs_sysret, ss_sysret, cs_syscall, ss_syscall) == Ok::<(), StarError>(()),
            Self::derivable(Self::encoded(ss_sysret, cs_syscall)),
            Self::selectors(Self::encoded(ss_sysret, cs_syscall)) == (
                cs_sysret,
                ss_sysret,
                cs_syscall,
                ss_syscall,
            ),
    {
        Self::lemma_raw_round_trip((ss_sysret.0 - 8) as u16, cs_syscall.0);
    }

    /// Four selectors that break exactly one of the four conditions are
    /// refused by [`Star::write`] with the error of that condition. Where
    /// several are broken, the error is that of the first one in the order of
    /// the checks.
    pub proof fn lemma_first_failure(
        cs_sysret: SegmentSelector,
        ss_sysret: SegmentSelector,
        cs_syscall: SegmentSelector,
        ss_syscall: SegmentSelector,
    )
        ensures
            ({
                let sysret_offset = Self::sysret_offset_ok(cs_sysret, ss_sysret);
                let syscall_offset = Self::syscall_offset_ok(cs_syscall, ss_syscall);
                let sysret_ring = ss_sysret.rpl() == PrivilegeLevel::Ring3;
                let syscall_ring = ss_syscall.rpl() == PrivilegeLevel::Ring0;
                let outcome = Self::check(cs_sysret, ss_sysret, cs_syscall, ss_syscall);
                &&& !sysret_offset ==> outcome == Err::<(), StarError>(StarError::SysretOffset)
                &&& sysret_offset && !syscall_offset ==> outcome == Err::<(), StarError>(
                    StarError::SyscallOffset,
                )
                &&& sysret_offset && syscall_offset && !sysret_ring ==> outcome == Err::<
                    (),
                    StarError,
                >(StarError::SysretNotRing3)
                &&& sysret_offset && syscall_offset && sysret_ring && !syscall_ring ==> outcome
                    == Err::<(), StarError>(StarError::SyscallNotRing0)
                &&& sysret_offset && syscall_offset && sysret_ring && syscall_ring ==> outcome
                    == Ok::<(), StarError>(())
            }),
    {
    }
}

} // verus!
