use std::marker::PhantomData;
use vstd::prelude::*;

use crate::platform::iouring::{
    contains, has_flags, IoUringEnterFlags, RawFd, IORING_ENTER_GETEVENTS,
    IORING_ENTER_REGISTERED_RING,
};
use crate::uringio::mmap_arena::{Mmap, MmapArena};
use crate::uringio::uring::enter::EnterArgs;

verus! {

/// One step of giving a ring back to the kernel.
#[derive(Clone, Copy, Debug, PartialEq, Eq, Structural)]
pub enum Release {
    /// Unmap this region.
    Unmap(Mmap),
    /// Close this descriptor.
    Close(RawFd),
}

/// A ring's descriptor together with the regions mapped through it.
#[derive(Debug)]
pub struct RingDesc<S, C, M> {
    pub fd: RawFd,
    pub arena: MmapArena<S, C>,
    pub enter_flags: IoUringEnterFlags,
    pub _marker_: PhantomData<M>,
}

impl<S, C, M> RingDesc<S, C, M> {
    /// Takes charge of descriptor `fd` and of the regions of `arena`.
    pub fn new(fd: RawFd, arena: MmapArena<S, C>) -> (desc: Self)
        ensures
            desc.fd == fd,
            desc.arena == arena,
            desc.enter_flags == 0,
    {
        Self { fd, arena, enter_flags: 0, _marker_: PhantomData }
    }

    /// The ring-enter call that submits nothing and reaps what has
    /// completed.
    pub fn get_events(&self) -> (call: EnterArgs)
        ensures
            call == (EnterArgs {
                fd: self.fd,
                to_submit: 0,
                min_complete: 0,
                flags: IORING_ENTER_GETEVENTS | self.enter_flags,
            }),
    {
        let flags = IORING_ENTER_GETEVENTS | self.enter_flags;
        EnterArgs { fd: self.fd, to_submit: 0, min_complete: 0, flags }
    }

    /// The steps of [`Self::release`], in order.
    pub open spec fn spec_release(&self) -> Seq<Release> {
        let unmaps = match self.arena.cq_mmap {
            Some(cq_mmap) => seq![
                Release::Unmap(self.arena.sq_mmap),
                Release::Unmap(self.arena.sqes_mmap),
                Release::Unmap(cq_mmap),
            ],
            None => seq![Release::Unmap(self.arena.sq_mmap), Release::Unmap(self.arena.sqes_mmap)],
        };
        if has_flags(self.enter_flags, IORING_ENTER_REGISTERED_RING) {
            unmaps
        } else {
            unmaps.push(Release::Close(self.fd))
        }
    }

    /// What has to be done to give the ring back, in this order: every
    /// region is unmapped, and only then the descriptor is closed. A
    /// descriptor that was handed over to the kernel's table of registered
    /// rings is not closed here.
    pub fn release(&self) -> (steps: Vec<Release>)
        ensures
            steps@ == self.spec_release(),
    {
        let mut steps: Vec<Release> = Vec::new();
        steps.push(Release::Unmap(self.arena.sq_mmap));
        steps.push(Release::Unmap(self.arena.sqes_mmap));
        match self.arena.cq_mmap {
            Some(cq_mmap) => {
                steps.push(Release::Unmap(cq_mmap));
            },
            None => {},
        }
        if !contains(self.enter_flags, IORING_ENTER_REGISTERED_RING) {
            steps.push(Release::Close(self.fd));
        }
        steps
    }

    /// No region is unmapped after the descriptor was closed, and every
    /// region of the arena is unmapped.
    pub proof fn lemma_unmap_before_close(&self)
        ensures
            forall|i: int, j: int|
                0 <= i < self.spec_release().len() && 0 <= j < self.spec_release().len()
                    && self.spec_release()[i] is Close && self.spec_release()[j] is Unmap ==> j
                    < i,
            self.spec_release().contains(Release::Unmap(self.arena.sq_mmap)),
            self.spec_release().contains(Release::Unmap(self.arena.sqes_mmap)),
            self.arena.cq_mmap matches Some(cq_mmap) ==> self.spec_release().contains(
                Release::Unmap(cq_mmap),
            ),
            self.spec_release().contains(Release::Close(self.fd)) <==> !has_flags(
                self.enter_flags,
                IORING_ENTER_REGISTERED_RING,
            ),
    {
        let steps = self.spec_release();
        assert(steps[0] == Release::Unmap(self.arena.sq_mmap));
        assert(steps[1] == Release::Unmap(self.arena.sqes_mmap));
        if let Some(cq_mmap) = self.arena.cq_mmap {
            assert(steps[2] == Release::Unmap(cq_mmap));
        }
        if !has_flags(self.enter_flags, IORING_ENTER_REGISTERED_RING) {
            assert(steps[steps.len() - 1] == Release::Close(self.fd));
        }
    }
}

} // verus!
