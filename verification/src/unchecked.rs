//! The mark of an operation that nothing in this library can make safe.

use vstd::prelude::*;

verus! {

/// The caller's word that an operation is sound where it is used.
///
/// Some register contents stop a running system at once: one that clears the
/// long-mode bit while 64-bit code runs, one that names segments which the
/// descriptor tables do not hold. Whether a content is of that kind depends on
/// the state of the machine, which no function here can see. Each function
/// that produces a content without checking it, or that stands for a raw
/// access to a register, takes a value of this type as its last argument. To
/// write `Unchecked` at the call is to take over what the function cannot
/// check.
#[derive(Clone, Copy, Debug)]
pub struct Unchecked;

} // verus!
