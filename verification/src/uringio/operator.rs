pub mod fd;
pub mod nop;
pub mod private;

use vstd::prelude::*;

use crate::platform::iouring::IoUringOp;
use crate::uringio::submission::entry::{Sqe128, Sqe64};

verus! {

/// An operation descriptor: a record laid out like the submission entry it
/// is submitted as, so that turning it into the entry moves every field to the
/// same place and leaves the rest of the entry zero.
pub trait Op: Sized {
    type Entry: private::Sealed;

    const OP_CODE: IoUringOp;

    /// The value of [`Self::OP_CODE`].
    spec fn op_code() -> IoUringOp;

    /// Width of the descriptor in bytes.
    spec fn layout_size() -> nat;

    /// Alignment of the descriptor in bytes.
    spec fn layout_align() -> nat;

    /// The entry that holds the descriptor's fields.
    spec fn spec_entry(self) -> Self::Entry;

    /// Packs the descriptor into its entry.
    fn into_entry(self) -> (entry: Self::Entry)
        ensures
            entry == self.spec_entry(),
    ;

    /// The descriptor is as wide as its entry and aligned like it. Every
    /// implementation has to show this before it is accepted.
    fn check_size_align()
        ensures
            Self::layout_size() == <Self::Entry as private::Sealed>::layout_size(),
            Self::layout_align() == <Self::Entry as private::Sealed>::layout_align(),
    ;

    /// The constant has the value that is told of it.
    proof fn lemma_op_code()
        ensures
            Self::OP_CODE == Self::op_code(),
    ;
}

impl<T: Op<Entry = Sqe64>> From<T> for Sqe64 {
    /// The narrow entry that holds the fields of `op`.
    fn from(op: T) -> (entry: Self)
        ensures
            entry == op.spec_entry(),
    {
        op.into_entry()
    }
}

impl<T: Op<Entry = Sqe64>> vstd::std_specs::convert::FromSpecImpl<T> for Sqe64 {
    open spec fn obeys_from_spec() -> bool {
        true
    }

    open spec fn from_spec(op: T) -> Self {
        op.spec_entry()
    }
}

impl<T: Op<Entry = Sqe128>> From<T> for Sqe128 {
    /// The wide entry that holds the fields of `op`.
    fn from(op: T) -> (entry: Self)
        ensures
            entry == op.spec_entry(),
    {
        op.into_entry()
    }
}

impl<T: Op<Entry = Sqe128>> vstd::std_specs::convert::FromSpecImpl<T> for Sqe128 {
    open spec fn obeys_from_spec() -> bool {
        true
    }

    open spec fn from_spec(op: T) -> Self {
        op.spec_entry()
    }
}

} // verus!
