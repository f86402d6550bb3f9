//! Virtual addresses.

use vstd::prelude::*;

verus! {

/// A 64-bit virtual address. Any 64-bit value can be held: a base-pointer
/// register stores and returns it bit for bit.
#[derive(Clone, Copy, Debug, PartialEq, Eq, Structural)]
pub struct VirtAddr(u64);

impl VirtAddr {
    /// The address as a number.
    pub closed spec fn view(&self) -> u64 {
        self.0
    }

    /// The address with the numeric value `addr`.
    pub fn new(addr: u64) -> (address: VirtAddr)
        ensures
            address@ == addr,
    {
        VirtAddr(addr)
    }

    /// The numeric value of the address.
    pub fn as_u64(self) -> (addr: u64)
        ensures
            addr == self@,
    {
        self.0
    }
}

} // verus!
