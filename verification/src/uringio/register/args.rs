use vstd::prelude::*;

use crate::platform::iouring::{IoUringRsrcUpdate, RawFd};

verus! {

/// The argument blocks of registering and unregistering a ring descriptor.
pub trait RegisterRingFd: Sized {
    spec fn spec_new(fd: RawFd) -> Self;

    spec fn spec_unregister(idx: u32) -> Self;

    /// The block that asks the kernel to register descriptor `fd` in any
    /// free place of its table.
    fn new(fd: RawFd) -> (args: Self)
        ensures
            args == Self::spec_new(fd),
    ;

    /// The block that asks the kernel to free place `idx` of its table.
    fn unregister(idx: u32) -> (args: Self)
        ensures
            args == Self::spec_unregister(idx),
    ;
}

impl RegisterRingFd for IoUringRsrcUpdate {
    open spec fn spec_new(fd: RawFd) -> Self {
        IoUringRsrcUpdate { offset: u32::MAX, data: fd as u64 }
    }

    open spec fn spec_unregister(idx: u32) -> Self {
        IoUringRsrcUpdate { offset: idx, data: 0 }
    }

    fn new(fd: RawFd) -> (args: Self) {
        IoUringRsrcUpdate {
            offset: u32::MAX,  // -1U
            data: fd as u64,
        }
    }

    fn unregister(idx: u32) -> (args: Self) {
        IoUringRsrcUpdate { offset: idx, data: 0 }
    }
}

} // verus!
