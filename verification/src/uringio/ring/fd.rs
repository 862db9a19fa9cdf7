use std::marker::PhantomData;
use vstd::prelude::*;

use crate::platform::iouring::{IoUringParams, RawFd};

verus! {

/// A ring's descriptor with the parameters the ring was set up with.
#[derive(Debug)]
pub struct RingFd<S, C, M> {
    pub fd: RawFd,
    pub params: IoUringParams,
    pub _marker_: PhantomData<(S, C, M)>,
}

impl<S, C, M> RingFd<S, C, M> {
    /// The ring behind descriptor `fd`, set up with `params`.
    pub fn new(fd: RawFd, params: IoUringParams) -> (ring: Self)
        ensures
            ring.fd == fd,
            ring.params == params,
    {
        Self { fd, params, _marker_: PhantomData }
    }
}

/// A ring known by its place in the kernel's table of registered rings.
#[derive(Debug)]
pub struct FixRingFd<S, C, M> {
    pub idx: u32,
    pub params: IoUringParams,
    pub _marker_: PhantomData<(S, C, M)>,
}

impl<S, C, M> FixRingFd<S, C, M> {
    /// The ring at place `idx` of the table, set up with `params`.
    pub fn new(idx: u32, params: IoUringParams) -> (ring: Self)
        ensures
            ring.idx == idx,
            ring.params == params,
    {
        Self { idx, params, _marker_: PhantomData }
    }
}

} // verus!
