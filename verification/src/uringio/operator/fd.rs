use vstd::prelude::*;

use crate::platform::iouring::{
    IoUringSqeFlags, RawFd, IORING_NOP_FILE, IORING_NOP_FIXED_FILE, IOSQE_FIXED_FILE,
};

verus! {

/// What an operation can name as its file: an open descriptor or an index
/// into the ring's table of registered files.
pub trait OpFd {
    /// The entry flag that tells the kernel how to read the number.
    const SQE_FLAG: IoUringSqeFlags;

    /// The no-op flags that make a no-op take the file.
    const NOP_FLAG: u32;

    /// The value of [`Self::SQE_FLAG`].
    spec fn sqe_flag() -> IoUringSqeFlags;

    /// The value of [`Self::NOP_FLAG`].
    spec fn nop_flag() -> u32;

    spec fn spec_raw_fd(&self) -> RawFd;

    /// The number that goes into the entry.
    fn raw_fd(&self) -> (fd: RawFd)
        ensures
            fd == self.spec_raw_fd(),
    ;

    /// The constants have the values that are told of them.
    proof fn lemma_flags()
        ensures
            Self::SQE_FLAG == Self::sqe_flag(),
            Self::NOP_FLAG == Self::nop_flag(),
    ;
}

/// A file known by its place in the ring's table of registered files.
#[derive(Debug, Copy, Clone)]
pub struct FixFd {
    pub idx: RawFd,
}

impl From<usize> for FixFd {
    /// Restrict: idx <= Fd limit <= i32::MAX
    #[inline]
    fn from(idx: usize) -> (fd: Self)
        ensures
            fd.idx == idx as i32,
    {
        Self { idx: idx as i32 }
    }
}

impl vstd::std_specs::convert::FromSpecImpl<usize> for FixFd {
    open spec fn obeys_from_spec() -> bool {
        true
    }

    open spec fn from_spec(idx: usize) -> Self {
        FixFd { idx: idx as i32 }
    }
}

impl OpFd for FixFd {
    const SQE_FLAG: IoUringSqeFlags = IOSQE_FIXED_FILE;

    const NOP_FLAG: u32 = IORING_NOP_FILE | IORING_NOP_FIXED_FILE;

    open spec fn sqe_flag() -> IoUringSqeFlags {
        IOSQE_FIXED_FILE
    }

    open spec fn nop_flag() -> u32 {
        IORING_NOP_FILE | IORING_NOP_FIXED_FILE
    }

    open spec fn spec_raw_fd(&self) -> RawFd {
        self.idx
    }

    #[inline]
    fn raw_fd(&self) -> (fd: RawFd) {
        self.idx
    }

    proof fn lemma_flags() {
    }
}

impl OpFd for RawFd {
    const SQE_FLAG: IoUringSqeFlags = 0;

    const NOP_FLAG: u32 = IORING_NOP_FILE;

    open spec fn sqe_flag() -> IoUringSqeFlags {
        0
    }

    open spec fn nop_flag() -> u32 {
        IORING_NOP_FILE
    }

    open spec fn spec_raw_fd(&self) -> RawFd {
        *self
    }

    #[inline]
    fn raw_fd(&self) -> (fd: RawFd) {
        *self
    }

    proof fn lemma_flags() {
    }
}

} // verus!
