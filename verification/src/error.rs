//! The error taxonomy of the crate.

use vstd::prelude::*;

verus! {

/// Every fallible operation of this crate reports its failure through this
/// type. Kernel-reported failures are passed to the caller unmodified as
/// `Os`; the two client-side failures are decoding an unrecognized
/// scheduling-policy code and rejecting deadline parameters before any
/// syscall is issued.
#[derive(Clone, Copy, Debug, PartialEq, Eq, Structural)]
pub enum SysError {
    /// An opaque OS error code reported by the kernel, returned uninterpreted.
    Os(i32),
    /// The kernel reported a scheduling-policy code this crate does not know.
    UnknownPolicy(u32),
    /// Deadline parameters violated the ordering or minimum-granularity
    /// requirement; rejected client-side before any syscall.
    InvalidDeadline,
}

} // verus!
