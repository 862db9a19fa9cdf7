use std::marker::PhantomData;
use vstd::prelude::*;

use crate::platform::iouring::{
    contains, has_flags, IoUringParams, IORING_FEAT_SINGLE_MMAP, IOURING_OFF_CQ_RING,
    IOURING_OFF_SQES, IOURING_OFF_SQ_RING,
};
use crate::uringio::completion::entry::CompletionEntry;
use crate::uringio::setup_args::{cq_bytes, sq_bytes, sqes_bytes, ParamsExt};
use crate::uringio::submission::entry::SubmissionEntry;

verus! {

/// One region of the ring descriptor to map: where in the file it starts and
/// how many bytes it has.
#[derive(Clone, Copy, Debug, PartialEq, Eq, Structural)]
pub struct Mmap {
    pub offset: u64,
    pub len: u64,
}

/// The larger of two sizes.
pub open spec fn larger(a: int, b: int) -> int {
    if a >= b {
        a
    } else {
        b
    }
}

/// The regions through which a ring is mapped.
#[derive(Debug)]
pub struct MmapArena<S, C> {
    pub sq_mmap: Mmap,
    pub sqes_mmap: Mmap,
    pub cq_mmap: Option<Mmap>,
    pub _marker_: PhantomData<(S, C)>,
}

impl<S, C> MmapArena<S, C> where S: SubmissionEntry, C: CompletionEntry {
    /// Whether these are the regions that a ring with `params` is mapped
    /// through. Where the kernel serves both rings from one mapping, that
    /// one is as large as the larger ring needs and the completion ring has
    /// no region of its own.
    pub open spec fn plans(&self, params: IoUringParams) -> bool {
        let sq = sq_bytes(params);
        let cq = cq_bytes(
            params,
            crate::uringio::completion::entry::setup_cqe_size(C::ty()) as int,
        );
        let sqes = sqes_bytes(
            params,
            crate::uringio::submission::entry::setup_sqe_size(S::ty()) as int,
        );
        &&& self.sqes_mmap == (Mmap { offset: IOURING_OFF_SQES, len: sqes as u64 })
        &&& self.sq_mmap.offset == IOURING_OFF_SQ_RING
        &&& if has_flags(params.features, IORING_FEAT_SINGLE_MMAP) {
            self.sq_mmap.len == larger(sq, cq) && self.cq_mmap.is_none()
        } else {
            self.sq_mmap.len == sq && self.cq_mmap == Some(
                Mmap { offset: IOURING_OFF_CQ_RING, len: cq as u64 },
            )
        }
    }

    /// The regions that a ring with `params` is mapped through.
    pub fn new(params: &IoUringParams) -> (arena: Self)
        ensures
            arena.plans(*params),
    {
        let sq_size = ParamsExt::<S, C>::sq_size(params);
        let cq_size = ParamsExt::<S, C>::cq_size(params);
        let sqes_size = ParamsExt::<S, C>::sqes_size(params);
        let sqes_mmap = Mmap { offset: IOURING_OFF_SQES, len: sqes_size };

        if contains(params.features, IORING_FEAT_SINGLE_MMAP) {
            let mm_size = if sq_size >= cq_size {
                sq_size
            } else {
                cq_size
            };
            let sq_mmap = Mmap { offset: IOURING_OFF_SQ_RING, len: mm_size };
            Self { sq_mmap, sqes_mmap, cq_mmap: None, _marker_: PhantomData }
        } else {
            let sq_mmap = Mmap { offset: IOURING_OFF_SQ_RING, len: sq_size };
            let cq_mmap = Mmap { offset: IOURING_OFF_CQ_RING, len: cq_size };
            Self { sq_mmap, sqes_mmap, cq_mmap: Some(cq_mmap), _marker_: PhantomData }
        }
    }

    /// The regions in the order in which they are mapped.
    pub open spec fn spec_regions(&self) -> Seq<Mmap> {
        match self.cq_mmap {
            Some(cq_mmap) => seq![self.sqes_mmap, self.sq_mmap, cq_mmap],
            None => seq![self.sqes_mmap, self.sq_mmap],
        }
    }

    /// The regions in the order in which they are mapped: the entry array,
    /// the submission ring, and the completion ring where it has a region of
    /// its own.
    pub fn regions(&self) -> (regions: Vec<Mmap>)
        ensures
            regions@ == self.spec_regions(),
    {
        let mut regions: Vec<Mmap> = Vec::new();
        regions.push(self.sqes_mmap);
        regions.push(self.sq_mmap);
        match self.cq_mmap {
            Some(cq_mmap) => {
                regions.push(cq_mmap);
            },
            None => {},
        }
        regions
    }

    /// What [`Self::rollback`] returns for `mapped`.
    pub open spec fn spec_rollback(&self, mapped: usize) -> Seq<Mmap> {
        if mapped <= self.spec_regions().len() {
            self.spec_regions().take(mapped as int).reverse()
        } else {
            self.spec_regions().reverse()
        }
    }

    /// What has to be unmapped when mapping fails after `mapped` regions
    /// were mapped: all of these, the last one first, so that nothing of the
    /// arena stays behind. A count beyond the number of regions stands for
    /// all of them.
    pub fn rollback(&self, mapped: usize) -> (regions: Vec<Mmap>)
        ensures
            regions@ == self.spec_rollback(mapped),
    {
        let all = self.regions();
        let count = if mapped <= all.len() {
            mapped
        } else {
            all.len()
        };
        let mut regions: Vec<Mmap> = Vec::new();
        let mut left = count;
        while left > 0
            invariant
                left <= count <= all.len(),
                regions@ == all@.subrange(left as int, count as int).reverse(),
            decreases left,
        {
            left = left - 1;
            regions.push(all[left]);
            assert(all@.subrange(left as int, count as int).reverse() =~= all@.subrange(
                left + 1,
                count as int,
            ).reverse().push(all@[left as int]));
        }
        assert(all@.subrange(0, count as int) =~= all@.take(count as int));
        assert(all@.take(all@.len() as int) =~= all@);
        regions
    }

    /// The region that the completion ring lies in: its own, or the
    /// submission ring's where the two share one.
    #[inline]
    pub fn cq_mmap(&self) -> (region: &Mmap)
        ensures
            *region == match self.cq_mmap {
                Some(cq_mmap) => cq_mmap,
                None => self.sq_mmap,
            },
    {
        match &self.cq_mmap {
            Some(cq_mmap) => cq_mmap,
            None => &self.sq_mmap,
        }
    }
}

} // verus!
