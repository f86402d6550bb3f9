//! Segment selectors.

use crate::privilege::PrivilegeLevel;
use vstd::prelude::*;

verus! {

/// A 16-bit reference to a segment descriptor. Bits 0 and 1 hold the requested
/// privilege level, the bits above them the place of the descriptor in its
/// table.
#[derive(Clone, Copy, Debug, PartialEq, Eq, Structural)]
pub struct SegmentSelector(pub u16);

impl SegmentSelector {
    /// The ring named by bits 0 and 1 of the selector.
    pub open spec fn spec_rpl(&self) -> PrivilegeLevel {
        let low = self.0 % 4;
        if low == 0 {
            PrivilegeLevel::Ring0
        } else if low == 1 {
            PrivilegeLevel::Ring1
        } else if low == 2 {
            PrivilegeLevel::Ring2
        } else {
            PrivilegeLevel::Ring3
        }
    }

    /// The requested privilege level.
    #[verifier::when_used_as_spec(spec_rpl)]
    pub fn rpl(&self) -> (level: PrivilegeLevel)
        ensures
            level == self.spec_rpl(),
            level@ == self.0 % 4,
    {
        PrivilegeLevel::from_u16(self.0 % 4)
    }
}

} // verus!
