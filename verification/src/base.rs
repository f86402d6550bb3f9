//! The registers that hold one virtual address each: the FS and GS bases, the
//! kernel's shadow of the GS base, and the entry point of `syscall`.

use crate::addr::VirtAddr;
use crate::msr::Msr;
use vstd::prelude::*;

verus! {

/// FS.Base Model Specific Register.
#[derive(Debug)]
pub struct FsBase;

/// GS.Base Model Specific Register.
#[derive(Debug)]
pub struct GsBase;

/// KernelGsBase Model Specific Register.
#[derive(Debug)]
pub struct KernelGsBase;

/// Syscall Register: LSTAR
#[derive(Debug)]
pub struct LStar;

impl FsBase {
    /// The address of the register.
    pub const ADDRESS: u32 = 0xC000_0100;

    /// The underlying model specific register.
    pub fn msr() -> (msr: Msr)
        ensures
            msr@ == Self::ADDRESS,
    {
        Msr::new(Self::ADDRESS)
    }

    /// Read the FS base from a register content. Every content is an
    /// address.
    pub fn read(raw: u64) -> (address: VirtAddr)
        ensures
            address@ == raw,
    {
        VirtAddr::new(raw)
    }

    /// Write a given virtual address to the FS.Base register: the new content
    /// is the address, bit for bit.
    pub fn write(reg: &mut u64, address: VirtAddr)
        ensures
            *final(reg) == address@,
    {
        *reg = address.as_u64();
    }
}

impl GsBase {
    /// The address of the register.
    pub const ADDRESS: u32 = 0xC000_0101;

    /// The underlying model specific register.
    pub fn msr() -> (msr: Msr)
        ensures
            msr@ == Self::ADDRESS,
    {
        Msr::new(Self::ADDRESS)
    }

    /// Read the GS base from a register content. Every content is an
    /// address.
    pub fn read(raw: u64) -> (address: VirtAddr)
        ensures
            address@ == raw,
    {
        VirtAddr::new(raw)
    }

    /// Write a given virtual address to the GS.Base register: the new content
    /// is the address, bit for bit.
    pub fn write(reg: &mut u64, address: VirtAddr)
        ensures
            *final(reg) == address@,
    {
        *reg = address.as_u64();
    }
}

impl KernelGsBase {
    /// The address of the register.
    pub const ADDRESS: u32 = 0xC000_0102;

    /// The underlying model specific register.
    pub fn msr() -> (msr: Msr)
        ensures
            msr@ == Self::ADDRESS,
    {
        Msr::new(Self::ADDRESS)
    }

    /// Read the kernel's GS base from a register content. Every content is
    /// an address.
    pub fn read(raw: u64) -> (address: VirtAddr)
        ensures
            address@ == raw,
    {
        VirtAddr::new(raw)
    }

    /// Write a given virtual address to the KernelGsBase register: the new
    /// content is the address, bit for bit.
    pub fn write(reg: &mut u64, address: VirtAddr)
        ensures
            *final(reg) == address@,
    {
        *reg = address.as_u64();
    }
}

impl LStar {
    /// The address of the register.
    pub const ADDRESS: u32 = 0xC000_0082;

    /// The underlying model specific register.
    pub fn msr() -> (msr: Msr)
        ensures
            msr@ == Self::ADDRESS,
    {
        Msr::new(Self::ADDRESS)
    }

    /// Read the target of `syscall` from a register content: the address
    /// that the instruction pointer is loaded with. Every content is an
    /// address.
    pub fn read(raw: u64) -> (address: VirtAddr)
        ensures
            address@ == raw,
    {
        VirtAddr::new(raw)
    }

    /// Write a given virtual address to the LStar register: the new content is
    /// the address, bit for bit.
    pub fn write(reg: &mut u64, address: VirtAddr)
        ensures
            *final(reg) == address@,
    {
        *reg = address.as_u64();
    }
}

} // verus!
