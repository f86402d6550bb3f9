//! Typed access to the x86-64 model-specific registers that configure extended
//! processor features, the thread-local base pointers and the fast system-call
//! mechanism.
//!
//! The library computes on register contents; it never executes `rdmsr` or
//! `wrmsr` itself. An operation that reads takes the 64-bit content that the
//! register holds. An operation that writes takes the place where the caller
//! keeps that content and leaves the new content there, for the caller to load
//! into the processor.
//!
//! | register | address | module |
//! |---|---|---|
//! | EFER | `0xC000_0080` | [`efer`] |
//! | STAR | `0xC000_0081` | [`star`] |
//! | LSTAR | `0xC000_0082` | [`base`] |
//! | SFMASK | `0xC000_0084` | [`sfmask`] |
//! | FS.Base | `0xC000_0100` | [`base`] |
//! | GS.Base | `0xC000_0101` | [`base`] |
//! | KernelGsBase | `0xC000_0102` | [`base`] |
//!
//! An operation that cannot tell whether its result is safe to load takes an
//! [`Unchecked`] as its last argument: the caller answers for it.

pub mod addr;
pub mod base;
pub mod bits;
pub mod efer;
pub mod msr;
pub mod privilege;
pub mod rflags;
pub mod selector;
pub mod sfmask;
pub mod star;
pub mod unchecked;

pub use addr::VirtAddr;
pub use base::{FsBase, GsBase, KernelGsBase, LStar};
pub use efer::{Efer, EferFlags};
pub use msr::Msr;
pub use privilege::PrivilegeLevel;
pub use rflags::RFlags;
pub use selector::SegmentSelector;
pub use sfmask::{SFMask, UnknownFlagBits};
pub use star::{Star, StarError};
pub use unchecked::Unchecked;
