//! Processor privilege levels.

use vstd::prelude::*;

verus! {

/// One of the four protection rings. Ring 0 is the most privileged and runs
/// the kernel; ring 3 is the least privileged and runs user code.
#[derive(Clone, Copy, Debug, PartialEq, Eq, Structural)]
pub enum PrivilegeLevel {
    Ring0,
    Ring1,
    Ring2,
    Ring3,
}

impl PrivilegeLevel {
    /// The number of the ring, from 0 to 3.
    pub open spec fn view(&self) -> nat {
        match self {
            PrivilegeLevel::Ring0 => 0,
            PrivilegeLevel::Ring1 => 1,
            PrivilegeLevel::Ring2 => 2,
            PrivilegeLevel::Ring3 => 3,
        }
    }

    /// The ring with number `value`.
    pub fn from_u16(value: u16) -> (level: PrivilegeLevel)
        requires
            value <= 3,
        ensures
            level@ == value,
    {
        if value == 0 {
            PrivilegeLevel::Ring0
        } else if value == 1 {
            PrivilegeLevel::Ring1
        } else if value == 2 {
            PrivilegeLevel::Ring2
        } else {
            PrivilegeLevel::Ring3
        }
    }
}

} // verus!
