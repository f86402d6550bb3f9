//! The handle that names one model-specific register.
//!
//! `rdmsr` and `wrmsr` take the address of the register in `ECX` and move its
//! 64-bit content through two 32-bit registers: the low half through `EAX`,
//! the high half through `EDX`.

use crate::unchecked::Unchecked;
use vstd::prelude::*;

verus! {

/// A model specific register.
#[derive(Debug)]
pub struct Msr(u32);

impl Msr {
    /// The address of the register.
    pub closed spec fn view(&self) -> u32 {
        self.0
    }

    /// The 64-bit content whose low half is `low` and whose high half is
    /// `high`.
    pub open spec fn joined(low: u32, high: u32) -> u64 {
        (high * 0x1_0000_0000 + low) as u64
    }

    /// Create an instance from a register.
    pub fn new(reg: u32) -> (msr: Msr)
        ensures
            msr@ == reg,
    {
        Msr(reg)
    }

    /// The address of the register, as `rdmsr` and `wrmsr` take it.
    pub fn address(&self) -> (reg: u32)
        ensures
            reg == self@,
    {
        self.0
    }

    /// Read 64 bits msr register: the content that `rdmsr` delivered, from the
    /// half that it left in `EAX` and the half that it left in `EDX`.
    ///
    /// The instruction faults where the processor has no register at this
    /// address or does not run at privilege level 0. Nothing here can check
    /// that.
    pub fn read(&self, low: u32, high: u32, _unchecked: Unchecked) -> (value: u64)
        ensures
            value == Self::joined(low, high),
            value % 0x1_0000_0000 == low,
            value / 0x1_0000_0000 == high,
    {
        let value: u64 = ((high as u64) << 32) | (low as u64);
        assert(value == high * 0x1_0000_0000 + low) by (bit_vector)
            requires
                value == ((high as u64) << 32) | (low as u64),
        ;
        proof {
            Self::lemma_halves_round_trip(value, low, high);
        }
        value
    }

    /// Write 64 bits to msr register: the halves of `value` that `wrmsr` takes,
    /// the low one for `EAX` first, the high one for `EDX` second.
    ///
    /// The instruction faults where the processor has no register at this
    /// address or does not run at privilege level 0, and a wrong value can
    /// break the running system. Nothing here can check that.
    pub fn write(&mut self, value: u64, _unchecked: Unchecked) -> (halves: (u32, u32))
        ensures
            halves.0 == value % 0x1_0000_0000,
            halves.1 == value / 0x1_0000_0000,
            Self::joined(halves.0, halves.1) == value,
            *final(self) == *old(self),
    {
        let low: u32 = (value & 0xFFFF_FFFF) as u32;
        let high: u32 = (value >> 32) as u32;
        assert(value & 0xFFFF_FFFF == value % 0x1_0000_0000) by (bit_vector);
        assert(value >> 32 == value / 0x1_0000_0000) by (bit_vector);
        proof {
            Self::lemma_halves_round_trip(value, low, high);
        }
        (low, high)
    }

    /// Splitting a content into its halves and joining them again gives the
    /// content back, and joining two halves and splitting the result gives the
    /// halves back.
    pub proof fn lemma_halves_round_trip(value: u64, low: u32, high: u32)
        ensures
            Self::joined((value % 0x1_0000_0000) as u32, (value / 0x1_0000_0000) as u32) == value,
            Self::joined(low, high) % 0x1_0000_0000 == low,
            Self::joined(low, high) / 0x1_0000_0000 == high,
    {
        let wide_low: u64 = low as u64;
        let wide_high: u64 = high as u64;
        assert((wide_high * 0x1_0000_0000 + wide_low) % 0x1_0000_0000 == wide_low && (wide_high
            * 0x1_0000_0000 + wide_low) / 0x1_0000_0000 == wide_high && wide_high * 0x1_0000_0000
            + wide_low <= u64::MAX) by (bit_vector)
            requires
                wide_low <= 0xffff_ffff,
                wide_high <= 0xffff_ffff,
        ;
        assert((value / 0x1_0000_0000) * 0x1_0000_0000 + value % 0x1_0000_0000 == value
            && value / 0x1_0000_0000 <= 0xffff_ffff) by (bit_vector);
    }
}

} // verus!
