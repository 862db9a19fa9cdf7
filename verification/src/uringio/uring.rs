pub mod desc;
pub mod enter;
pub mod feat;
pub mod mode;

use std::marker::PhantomData;
use vstd::prelude::*;

use crate::platform::iouring::{IoUringParams, RawFd};
use crate::shared::cursor::{is_capacity, is_pow2};
use crate::shared::error::Error;
use crate::uringio::completion::entry::{CompletionEntry, Cqe16, Cqe32, CqeMix};
use crate::uringio::completion::queue::{CompletionQueue, CqView};
use crate::uringio::mmap_arena::MmapArena;
use crate::uringio::submission::entry::{Sqe128, Sqe64, SqeMix, SubmissionEntry};
use crate::uringio::submission::queue::{SqView, SubmissionQueue};
use crate::uringio::uring::feat::check_setup_features;
use crate::uringio::uring::mode::Mode;

verus! {

/// A ring's descriptor with the parameters that setup returned for it.
#[derive(Debug)]
pub struct UringFd<S, C, M> {
    pub fd: RawFd,
    pub params: IoUringParams,
    pub _marker_: PhantomData<(S, C, M)>,
}

impl<S, C, M> UringFd<S, C, M> {
    /// The ring behind descriptor `fd`, with the parameters that setup
    /// returned.
    pub fn new(fd: RawFd, params: IoUringParams) -> (ring: Self)
        ensures
            ring.fd == fd,
            ring.params == params,
    {
        Self { fd, params, _marker_: PhantomData }
    }
}

/// A ring as the application works with it: both queues and the regions
/// they are mapped through.
#[derive(Debug)]
pub struct Uring<S, C, M> {
    pub sq: SubmissionQueue<S, M>,
    pub cq: CompletionQueue<C, M>,
    pub arena: MmapArena<S, C>,
}

/// Whether a ring can be worked with under `params`: the kernel never drops
/// a completion, and both capacities are powers of two.
pub open spec fn usable(params: IoUringParams) -> bool {
    &&& crate::uringio::uring::feat::has_setup_features(params.features)
    &&& is_pow2(params.sq_entries)
    &&& is_pow2(params.cq_entries)
}

impl<S, C, M> Uring<S, C, M> where S: SubmissionEntry, C: CompletionEntry, M: Mode {
    /// The two queues and the regions of the ring that setup returned
    /// `fd.params` for. A kernel without the features this library needs is
    /// refused first; after that, capacities that are no powers of two are
    /// refused as a breach of the protocol.
    pub fn new(fd: &UringFd<S, C, M>) -> (uring: Result<Self, Error>)
        ensures
            usable(fd.params) ==> uring.is_ok() && uring.unwrap().sq@ == SqView::<S>::fresh(
                fd.params,
            ) && uring.unwrap().cq@ == CqView::<C>::fresh(fd.params) && uring.unwrap().sq@.wf()
                && uring.unwrap().cq@.wf() && uring.unwrap().arena.plans(fd.params),
            !crate::uringio::uring::feat::has_setup_features(fd.params.features) ==> uring is Err
                && uring->Err_0 == Error::RequireNodrop,
            crate::uringio::uring::feat::has_setup_features(fd.params.features) && !usable(
                fd.params,
            ) ==> uring is Err && uring->Err_0 == Error::Protocol,
    {
        match check_setup_features(fd.params.features) {
            Ok(()) => {},
            Err(e) => {
                return Err(e);
            },
        }
        if !is_capacity(fd.params.sq_entries) || !is_capacity(fd.params.cq_entries) {
            return Err(Error::Protocol);
        }
        let arena = MmapArena::new(&fd.params);
        let sq = SubmissionQueue::new(&fd.params);
        let cq = CompletionQueue::new(&fd.params);
        Ok(Uring { sq, cq, arena })
    }
}

pub type UringIo<M> = Uring<Sqe64, Cqe16, M>;

pub type Uring128<M> = Uring<Sqe128, Cqe32, M>;

pub type UringMix<M> = Uring<SqeMix, CqeMix, M>;

} // verus!
