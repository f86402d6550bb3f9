//! Bit ranges of a 64-bit register content.
//!
//! The ranges are read and set by the `bit_field` crate. This module states
//! what its two methods compute on a `u64`, so that the callers' proofs can
//! rest on it. A range `lo..hi` holds the bits from `lo` up to, but without,
//! `hi`; bit 0 is the least significant one.

use bit_field::BitField;
use vstd::prelude::*;

verus! {

/// Bits `lo..hi` of `value`, moved down so that bit `lo` becomes bit 0: the
/// bits at and above `hi` are shifted out at the top, then those below `lo`
/// at the bottom.
pub open spec fn bit_range(value: u64, lo: u64, hi: u64) -> u64
    recommends
        lo < hi <= 64,
{
    ((value << ((64 - hi) as u64)) >> ((64 - hi) as u64)) >> lo
}

/// Whether `field` has no bit set at or above position `hi - lo`, so that it
/// can stand in a range that is `hi - lo` bits wide.
pub open spec fn fits_range(field: u64, lo: u64, hi: u64) -> bool
    recommends
        lo < hi <= 64,
{
    (field << ((64 - (hi - lo)) as u64)) >> ((64 - (hi - lo)) as u64) == field
}

/// The word with bits `lo..hi` set and all others clear.
pub open spec fn range_mask(lo: u64, hi: u64) -> u64
    recommends
        lo < hi <= 64,
{
    (((!0u64 << ((64 - hi) as u64)) >> ((64 - hi) as u64)) >> lo) << lo
}

/// `value` with bits `lo..hi` replaced by `field`, and every other bit as it
/// was.
pub open spec fn with_bit_range(value: u64, lo: u64, hi: u64, field: u64) -> u64
    recommends
        lo < hi <= 64,
        fits_range(field, lo, hi),
{
    (value & !range_mask(lo, hi)) | (field << lo)
}

/// Calls `bit_field::BitField::get_bits` on a `u64` with the range `lo..hi`.
///
/// Trusted, not proved: for a range that is not empty and ends at or below bit
/// 64, the method returns the bits of the range, moved down to bit 0. It
/// panics on a range that ends above bit 64 or starts at or above it, which
/// the precondition leaves out; an empty range is left out as well.
#[verifier::external_body]
pub(crate) fn get_bits(value: u64, lo: usize, hi: usize) -> (field: u64)
    requires
        lo < hi <= 64,
    ensures
        field == bit_range(value, lo as u64, hi as u64),
{
    value.get_bits(lo..hi)
}

/// Calls `bit_field::BitField::set_bits` on a `u64` with the range `lo..hi`.
///
/// Trusted, not proved: for a range that is not empty and ends at or below bit
/// 64, and a `field` that fits in it, the method replaces the bits of the
/// range by `field` and leaves all others alone. It panics on a range that
/// ends above bit 64 and on a `field` with a bit set beyond the width of the
/// range, which the precondition leaves out; an empty range is left out as
/// well.
#[verifier::external_body]
pub(crate) fn set_bits(value: &mut u64, lo: usize, hi: usize, field: u64)
    requires
        lo < hi <= 64,
        fits_range(field, lo as u64, hi as u64),
    ensures
        *final(value) == with_bit_range(*old(value), lo as u64, hi as u64, field),
{
    value.set_bits(lo..hi, field);
}

} // verus!
