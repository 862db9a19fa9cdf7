use vstd::prelude::*;

use crate::platform::iouring::IoUringSqe;
use crate::uringio::submission::entry::{Sqe128, Sqe64, SubmissionEntry};

verus! {

/// The entries that an operation can be submitted as: the narrow and the
/// wide one, and no other.
pub trait Sealed {
    /// Width of the entry in bytes.
    spec fn layout_size() -> nat;

    /// Alignment of the entry in bytes.
    spec fn layout_align() -> nat;
}

impl Sealed for Sqe64 {
    open spec fn layout_size() -> nat {
        <Sqe64 as SubmissionEntry>::slot_size()
    }

    open spec fn layout_align() -> nat {
        IoUringSqe::layout_align()
    }
}

impl Sealed for Sqe128 {
    open spec fn layout_size() -> nat {
        <Sqe128 as SubmissionEntry>::slot_size()
    }

    open spec fn layout_align() -> nat {
        IoUringSqe::layout_align()
    }
}

} // verus!
