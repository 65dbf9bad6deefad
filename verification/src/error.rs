//! The kinds of failure that the service reports to its callers.

use vstd::prelude::*;

verus! {

/// Why a request was turned down.
#[derive(Clone, Copy, Debug, PartialEq, Eq, Structural)]
pub enum ErrorKind {
    /// The caller lacks a permission that the operation asks for.
    PermissionDenied,
    /// The request is malformed: a disk with both an image and partitions, or with
    /// neither; a size that is not positive; a configuration that cannot be read.
    IllegalArgument,
    /// A partition's backing file carries a label that may not back a virtual machine.
    UntrustedOrigin,
    /// The operation does not fit the state of the virtual machine, or no live
    /// virtual machine has the given CID.
    IllegalState,
    /// No CID is left to hand out.
    ResourceExhausted,
    /// The service could not keep one of its own invariants.
    Internal,
}

} // verus!
