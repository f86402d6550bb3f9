//! The Extended Feature Enable Register.
//!
//! Eight bits of the register have a name. All others are reserved: software
//! that changes the named bits has to hand the reserved ones back as it found
//! them. [`Efer::write`] and [`Efer::update`] do so.

use crate::msr::Msr;
use crate::unchecked::Unchecked;
use vstd::prelude::*;

verus! {

/// Flags of the Extended Feature Enable Register.
///
/// A value holds named flags only: no bit outside [`EferFlags::ALL`] is ever
/// set in it.
#[derive(Clone, Copy, Debug, PartialEq, Eq, Structural)]
pub struct EferFlags {
    bits: u64,
}

impl EferFlags {
    /// Bit 0. Enables the `syscall` and `sysret` instructions.
    pub const SYSTEM_CALL_EXTENSIONS: u64 = 0x0001;

    /// Bit 8. Activates long mode, requires activating paging.
    pub const LONG_MODE_ENABLE: u64 = 0x0100;

    /// Bit 10. Indicates that long mode is active.
    pub const LONG_MODE_ACTIVE: u64 = 0x0400;

    /// Bit 11. Enables the no-execute page-protection feature.
    pub const NO_EXECUTE_ENABLE: u64 = 0x0800;

    /// Bit 12. Enables SVM extensions.
    pub const SECURE_VIRTUAL_MACHINE_ENABLE: u64 = 0x1000;

    /// Bit 13. Enable certain limit checks in 64-bit mode.
    pub const LONG_MODE_SEGMENT_LIMIT_ENABLE: u64 = 0x2000;

    /// Bit 14. Enable the `fxsave` and `fxrstor` instructions to execute
    /// faster in 64-bit mode.
    pub const FAST_FXSAVE_FXRSTOR: u64 = 0x4000;

    /// Bit 15. Changes how the `invlpg` instruction operates on TLB entries of
    /// upper-level entries.
    pub const TRANSLATION_CACHE_EXTENSION: u64 = 0x8000;

    /// Every bit that has a name.
    pub const ALL: u64 = 0xFD01;

    #[verifier::type_invariant]
    spec fn named_bits_only(&self) -> bool {
        self.bits & !Self::ALL == 0
    }

    /// The flags as a 64-bit word, each flag at its bit.
    pub closed spec fn view(&self) -> u64 {
        self.bits
    }

    /// The set without any flag.
    pub fn empty() -> (flags: EferFlags)
        ensures
            flags@ == 0,
    {
        assert(0u64 & !Self::ALL == 0) by (bit_vector);
        EferFlags { bits: 0 }
    }

    /// The set with every named flag: the eight flags together, which is the
    /// word [`EferFlags::ALL`].
    pub fn all() -> (flags: EferFlags)
        ensures
            flags@ == Self::ALL,
            flags@ == Self::SYSTEM_CALL_EXTENSIONS | Self::LONG_MODE_ENABLE
                | Self::LONG_MODE_ACTIVE | Self::NO_EXECUTE_ENABLE
                | Self::SECURE_VIRTUAL_MACHINE_ENABLE | Self::LONG_MODE_SEGMENT_LIMIT_ENABLE
                | Self::FAST_FXSAVE_FXRSTOR | Self::TRANSLATION_CACHE_EXTENSION,
    {
        assert(Self::ALL & !Self::ALL == 0) by (bit_vector);
        assert(0xFD01u64 == 0x0001u64 | 0x0100u64 | 0x0400u64 | 0x0800u64 | 0x1000u64 | 0x2000u64
            | 0x4000u64 | 0x8000u64) by (bit_vector);
        EferFlags { bits: Self::ALL }
    }

    /// The flags as a 64-bit word. No bit without a name is set in it.
    pub fn bits(&self) -> (bits: u64)
        ensures
            bits == self@,
            bits & !Self::ALL == 0,
    {
        proof {
            use_type_invariant(self);
        }
        self.bits
    }

    /// The flags that `bits` holds, unless a bit without a name is set in it.
    pub fn from_bits(bits: u64) -> (flags: Option<EferFlags>)
        ensures
            match flags {
                Some(flags) => bits & !Self::ALL == 0 && flags@ == bits,
                None => bits & !Self::ALL != 0,
            },
    {
        if bits & !Self::ALL == 0 {
            Some(EferFlags { bits })
        } else {
            None
        }
    }

    /// The named flags that are set in `bits`. Bits without a name are
    /// dropped.
    pub fn from_bits_truncate(bits: u64) -> (flags: EferFlags)
        ensures
            flags@ == bits & Self::ALL,
    {
        assert((bits & Self::ALL) & !Self::ALL == 0) by (bit_vector);
        EferFlags { bits: bits & Self::ALL }
    }

    /// Whether every flag of `other` is set in `self`.
    pub fn contains(&self, other: EferFlags) -> (all_set: bool)
        ensures
            all_set <==> self@ & other@ == other@,
    {
        self.bits & other.bits == other.bits
    }

    /// Sets every flag of `other`.
    pub fn insert(&mut self, other: EferFlags)
        ensures
            final(self)@ == old(self)@ | other@,
    {
        proof {
            use_type_invariant(&*self);
            use_type_invariant(&other);
        }
        let mine: u64 = self.bits;
        let theirs: u64 = other.bits;
        assert((mine | theirs) & !Self::ALL == 0) by (bit_vector)
            requires
                mine & !Self::ALL == 0,
                theirs & !Self::ALL == 0,
        ;
        self.bits = mine | theirs;
    }

    /// Clears every flag of `other`.
    pub fn remove(&mut self, other: EferFlags)
        ensures
            final(self)@ == old(self)@ & !other@,
    {
        proof {
            use_type_invariant(&*self);
        }
        let mine: u64 = self.bits;
        let theirs: u64 = other.bits;
        assert((mine & !theirs) & !Self::ALL == 0) by (bit_vector)
            requires
                mine & !Self::ALL == 0,
        ;
        self.bits = mine & !theirs;
    }
}

/// The Extended Feature Enable Register.
#[derive(Debug)]
pub struct Efer;

impl Efer {
    /// The address of the register.
    pub const ADDRESS: u32 = 0xC000_0080;

    /// The underlying model specific register.
    pub fn msr() -> (msr: Msr)
        ensures
            msr@ == Self::ADDRESS,
    {
        Msr::new(Self::ADDRESS)
    }

    /// What [`Efer::write`] leaves in a register that held `old_value`: the
    /// flags of the word `flags`, and every bit without a name as it was.
    pub open spec fn merged(old_value: u64, flags: u64) -> u64 {
        (old_value & !EferFlags::ALL) | flags
    }

    /// Read the EFER flags from a register content.
    ///
    /// Bits without a name are ignored, so that a bit which later hardware
    /// defines never makes the read fail.
    pub fn read(raw: u64) -> (flags: EferFlags)
        ensures
            flags@ == raw & EferFlags::ALL,
    {
        EferFlags::from_bits_truncate(Self::read_raw(raw))
    }

    /// Read the raw EFER flags from a register content: the content as it is,
    /// reserved bits included.
    pub fn read_raw(raw: u64) -> (flags: u64)
        ensures
            flags == raw,
    {
        raw
    }

    /// Write the EFER flags.
    ///
    /// Does not preserve any bits, including reserved fields: the new content
    /// is `flags`, bit for bit.
    ///
    /// Loaded into the processor, the new content can break the running
    /// system, for one by disabling long mode. Nothing here can check that.
    pub fn write_raw(reg: &mut u64, flags: u64, _unchecked: Unchecked)
        ensures
            *final(reg) == flags,
    {
        *reg = flags;
    }

    /// Write the EFER flags, preserving reserved values.
    ///
    /// The named bits of the new content are those of `flags`. Every other
    /// bit keeps the value that the content had before.
    ///
    /// Loaded into the processor, the new content can break the running
    /// system, for one by disabling long mode. Nothing here can check that.
    pub fn write(reg: &mut u64, flags: EferFlags, _unchecked: Unchecked)
        ensures
            *final(reg) == Self::merged(*old(reg), flags@),
            *final(reg) & !EferFlags::ALL == *old(reg) & !EferFlags::ALL,
            *final(reg) & EferFlags::ALL == flags@,
    {
        let old_value: u64 = Self::read_raw(*reg);
        let reserved: u64 = old_value & !(EferFlags::all().bits());
        let named: u64 = flags.bits();
        let new_value: u64 = reserved | named;
        assert(new_value & !EferFlags::ALL == old_value & !EferFlags::ALL && new_value
            & EferFlags::ALL == named) by (bit_vector)
            requires
                new_value == (old_value & !EferFlags::ALL) | named,
                named & !EferFlags::ALL == 0,
        ;
        Self::write_raw(reg, new_value, Unchecked);
    }

    /// Update EFER flags.
    ///
    /// Reads the flags from the content, hands them to `f` to change, and
    /// writes what `f` left as [`Efer::write`] does. Every bit without a name
    /// keeps its value, though `f` never sees it.
    ///
    /// Loaded into the processor, the new content can break the running
    /// system, for one by disabling long mode. Nothing here can check that.
    pub fn update<F>(reg: &mut u64, f: F, _unchecked: Unchecked) where F: FnOnce(&mut EferFlags)
        requires
            forall|flags: &mut EferFlags|
                (*flags)@ == *old(reg) & EferFlags::ALL ==> call_requires(f, (flags,)),
        ensures
            exists|flags: &mut EferFlags|
                {
                    &&& (*flags)@ == *old(reg) & EferFlags::ALL
                    &&& call_ensures(f, (flags,), ())
                    &&& *final(reg) == Self::merged(*old(reg), (*final(flags))@)
                    &&& *final(reg) & EferFlags::ALL == (*final(flags))@
                },
            *final(reg) & !EferFlags::ALL == *old(reg) & !EferFlags::ALL,
    {
        let mut flags = Self::read(*reg);
        f(&mut flags);
        Self::write(reg, flags, Unchecked);
    }
}

} // verus!
