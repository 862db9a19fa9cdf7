use core::sync::atomic::AtomicU32;
use vstd::prelude::*;

use crate::platform::iouring::{contains, has_flags, IoUringParams, IORING_SETUP_NO_SQARRAY};
use crate::shared::access::Store;
use crate::shared::error::Error;

verus! {

/// The index array in which every position names itself.
pub open spec fn identity(n: nat) -> Seq<u32> {
    Seq::new(n, |i: int| i as u32)
}

/// The index array as the kernel maps it: every position zero.
pub open spec fn zeros(n: nat) -> Seq<u32> {
    Seq::new(n, |i: int| 0u32)
}

/// The index array of a submission ring, which tells the kernel in which
/// slot to find the entry for each position of the ring.
#[derive(Debug, Default)]
pub struct SubmissionIndex {
    pub indices: Vec<u32>,
}

impl View for SubmissionIndex {
    type V = Seq<u32>;

    open spec fn view(&self) -> Seq<u32> {
        self.indices@
    }
}

impl SubmissionIndex {
    /// The index array of a ring set up with `params`, as first mapped. A
    /// ring set up without an index array has none to hand out.
    pub fn new(params: &IoUringParams) -> (index: Result<Self, Error>)
        ensures
            has_flags(params.flags, IORING_SETUP_NO_SQARRAY) ==> index == Err::<Self, Error>(
                Error::NoSqArray,
            ),
            !has_flags(params.flags, IORING_SETUP_NO_SQARRAY) ==> index.is_ok() && index.unwrap()@
                == zeros(params.sq_entries as nat),
    {
        if contains(params.flags, IORING_SETUP_NO_SQARRAY) {
            return Err(Error::NoSqArray);
        }
        let mut indices: Vec<u32> = Vec::new();
        let mut idx: u32 = 0;
        while idx < params.sq_entries
            invariant
                idx <= params.sq_entries,
                indices@ == zeros(idx as nat),
            decreases params.sq_entries - idx,
        {
            indices.push(0);
            idx = idx + 1;
        }
        Ok(Self { indices })
    }

    /// The index array of a ring set up with `params`, made ready for use:
    /// position `i` names slot `i`. Where the ring has no index array there
    /// is nothing to initialize and the result is empty.
    pub fn setup(params: &IoUringParams) -> (index: Self)
        ensures
            index@ == if has_flags(params.flags, IORING_SETUP_NO_SQARRAY) {
                Seq::<u32>::empty()
            } else {
                identity(params.sq_entries as nat)
            },
    {
        let mut indices: Vec<u32> = Vec::new();
        if contains(params.flags, IORING_SETUP_NO_SQARRAY) {
            return Self { indices };
        }
        let mut idx: u32 = 0;
        while idx < params.sq_entries
            invariant
                idx <= params.sq_entries,
                indices@ == identity(idx as nat),
            decreases params.sq_entries - idx,
        {
            indices.push(idx);
            idx = idx + 1;
        }
        Self { indices }
    }
}

impl SubmissionIndex {
    /// Whether the array is ready for a ring of `size` slots: it is empty,
    /// or it has `size` positions and each names itself.
    pub open spec fn ready_for(&self, size: u32) -> bool {
        self@.len() == 0 || self@ == identity(size as nat)
    }

    /// Tests whether the array is ready for a ring of `size` slots.
    pub fn is_ready_for(&self, size: u32) -> (ready: bool)
        ensures
            ready == self.ready_for(size),
    {
        if self.indices.len() == 0 {
            return true;
        }
        if self.indices.len() != size as usize {
            return false;
        }
        let mut idx: u32 = 0;
        while idx < size
            invariant
                idx <= size,
                self.indices.len() == size,
                forall|j: int| 0 <= j < idx ==> self.indices@[j] == j,
            decreases size - idx,
        {
            if self.indices[idx as usize] != idx {
                assert(self@[idx as int] != identity(size as nat)[idx as int]);
                return false;
            }
            idx = idx + 1;
        }
        assert(self@ =~= identity(size as nat));
        true
    }
}

impl SubmissionIndex {
    /// Writes the array to the words `array` of the mapping, position by
    /// position, as far as both reach. The kernel reads the words only
    /// after a tail is published, so no ordering is needed.
    pub fn publish(&self, array: &[AtomicU32]) {
        let count = if self.indices.len() <= array.len() {
            self.indices.len()
        } else {
            array.len()
        };
        let mut at: usize = 0;
        while at < count
            invariant
                at <= count,
                count <= self.indices.len(),
                count <= array.len(),
            decreases count - at,
        {
            Store::Plain.store(&array[at], self.indices[at]);
            at = at + 1;
        }
    }
}

impl core::ops::Deref for SubmissionIndex {
    type Target = [u32];

    fn deref(&self) -> (indices: &[u32])
        ensures
            indices@ == self@,
    {
        self.indices.as_slice()
    }
}

} // verus!
