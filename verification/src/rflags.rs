//! The flags of the RFLAGS register.

use vstd::prelude::*;

verus! {

/// A set of RFLAGS flags.
///
/// A value holds flags that the architecture defines only: no bit outside
/// [`RFlags::ALL`] is ever set in it.
#[derive(Clone, Copy, Debug, PartialEq, Eq, Structural)]
pub struct RFlags {
    bits: u64,
}

impl RFlags {
    /// Bit 0. Set by hardware if the last arithmetic operation generated a
    /// carry out of the most-significant bit of the result.
    pub const CARRY_FLAG: u64 = 0x0000_0001;

    /// Bit 2. Set by hardware if the last result has an even number of 1 bits.
    pub const PARITY_FLAG: u64 = 0x0000_0004;

    /// Bit 4. Set by hardware if the last arithmetic operation generated a
    /// carry out of bit 3 of the result.
    pub const AUXILIARY_CARRY_FLAG: u64 = 0x0000_0010;

    /// Bit 6. Set by hardware if the last arithmetic operation resulted in a
    /// zero value.
    pub const ZERO_FLAG: u64 = 0x0000_0040;

    /// Bit 7. Set by hardware if the last arithmetic operation resulted in a
    /// negative value.
    pub const SIGN_FLAG: u64 = 0x0000_0080;

    /// Bit 8. Enable single-step mode for debugging.
    pub const TRAP_FLAG: u64 = 0x0000_0100;

    /// Bit 9. Enable interrupts.
    pub const INTERRUPT_FLAG: u64 = 0x0000_0200;

    /// Bit 10. Determines the order in which strings are processed.
    pub const DIRECTION_FLAG: u64 = 0x0000_0400;

    /// Bit 11. Set by hardware to indicate that the sign bit of the result of
    /// the last signed integer operation differs from the source operands.
    pub const OVERFLOW_FLAG: u64 = 0x0000_0800;

    /// Bit 12. The low bit of the I/O privilege level field.
    pub const IOPL_LOW: u64 = 0x0000_1000;

    /// Bit 13. The high bit of the I/O privilege level field.
    pub const IOPL_HIGH: u64 = 0x0000_2000;

    /// Bit 14. Used by `iret` in hardware task switch mode to determine if the
    /// current task is nested.
    pub const NESTED_TASK: u64 = 0x0000_4000;

    /// Bit 16. Allows to restart an instruction following an instruction
    /// breakpoint.
    pub const RESUME_FLAG: u64 = 0x0001_0000;

    /// Bit 17. Enable the virtual-8086 mode.
    pub const VIRTUAL_8086_MODE: u64 = 0x0002_0000;

    /// Bit 18. Enable automatic alignment checking.
    pub const ALIGNMENT_CHECK: u64 = 0x0004_0000;

    /// Bit 19. Virtual image of the interrupt flag.
    pub const VIRTUAL_INTERRUPT: u64 = 0x0008_0000;

    /// Bit 20. Indicates that an external, maskable interrupt is pending.
    pub const VIRTUAL_INTERRUPT_PENDING: u64 = 0x0010_0000;

    /// Bit 21. Processor feature identification flag.
    pub const ID: u64 = 0x0020_0000;

    /// Every bit that stands for a flag: the eighteen flags together.
    pub const ALL: u64 = 0x003F_7FD5;

    #[verifier::type_invariant]
    spec fn defined_bits_only(&self) -> bool {
        self.bits & !Self::ALL == 0
    }

    /// The flags as a 64-bit word, each flag at its bit.
    pub closed spec fn view(&self) -> u64 {
        self.bits
    }

    /// The flags as a 64-bit word. No bit without a meaning is set in it.
    pub fn bits(&self) -> (bits: u64)
        ensures
            bits == self@,
            bits & !Self::ALL == 0,
    {
        proof {
            use_type_invariant(self);
        }
        self.bits
    }

    /// The flags that `bits` holds, unless a bit is set in it that stands for
    /// no flag.
    pub fn from_bits(bits: u64) -> (flags: Option<RFlags>)
        ensures
            match flags {
                Some(flags) => bits & !Self::ALL == 0 && flags@ == bits,
                None => bits & !Self::ALL != 0,
            },
    {
        if bits & !Self::ALL == 0 {
            Some(RFlags { bits })
        } else {
            None
        }
    }

    /// The flags that are set in `bits`. Bits that stand for no flag are
    /// dropped.
    pub fn from_bits_truncate(bits: u64) -> (flags: RFlags)
        ensures
            flags@ == bits & Self::ALL,
    {
        assert((bits & Self::ALL) & !Self::ALL == 0) by (bit_vector);
        RFlags { bits: bits & Self::ALL }
    }
}

} // verus!
