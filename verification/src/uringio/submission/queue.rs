use core::sync::atomic::AtomicU32;
use std::marker::PhantomData;
use vstd::prelude::*;

use crate::platform::iouring::{
    has_flags, IoUringParams, IoUringSqFlags, IORING_SETUP_NO_SQARRAY,
};
use crate::shared::access::{Load, Store};
use crate::shared::cursor::{
    advance, distance, is_capacity, is_pow2, lemma_pow2_bound, lemma_slot_in_range, slot,
};
use crate::shared::error::Error;
use crate::uringio::submission::entry::SubmissionEntry;
use crate::uringio::submission::index::{identity, SubmissionIndex};
use crate::uringio::submission::submitter::{Submitter, SubmitterView};
use crate::uringio::uring::mode::Mode;

verus! {

/// The submission ring as a mathematical value.
#[verifier::ext_equal]
pub struct SqView<S> {
    /// Consumer cursor, owned by the kernel, as last observed.
    pub khead: u32,
    /// Producer cursor, as last published.
    pub ktail: u32,
    pub mask: u32,
    pub size: u32,
    pub flags: IoUringSqFlags,
    pub dropped: u32,
    /// The index array, empty where the ring has none.
    pub indices: Seq<u32>,
    /// The entry array.
    pub sqes: Seq<S>,
}

impl<S> SqView<S> {
    /// The ring's geometry is sound and no more entries are published than
    /// the ring has slots.
    pub open spec fn wf(self) -> bool {
        &&& is_pow2(self.size)
        &&& self.mask == self.size - 1
        &&& self.sqes.len() == self.size
        &&& distance(self.khead, self.ktail) <= self.size
        &&& (self.indices.len() == 0 || self.indices == identity(self.size as nat))
    }

    /// The entry that cursor `idx` stands for.
    pub open spec fn get(self, idx: u32) -> S {
        self.sqes[slot(idx, self.mask)]
    }

    /// The ring after `entry` is written where cursor `idx` stands.
    pub open spec fn put(self, idx: u32, entry: S) -> Self {
        SqView { sqes: self.sqes.update(slot(idx, self.mask), entry), ..self }
    }

    /// The ring after `tail` is published.
    pub open spec fn set_tail(self, tail: u32) -> Self {
        SqView { ktail: tail, ..self }
    }

    /// The entries that the `n` cursors from `from` on stand for, in order.
    pub open spec fn span(self, from: u32, n: int) -> Seq<S> {
        Seq::new(n as nat, |i: int| self.get(advance(from, i)))
    }

    /// The entries that are published and that the kernel has not taken yet,
    /// in the order in which it takes them.
    pub open spec fn pending(self) -> Seq<S> {
        self.span(self.khead, distance(self.khead, self.ktail))
    }

    /// When the kernel's head has moved, what is pending is what was pending
    /// without the entries that the head has passed.
    pub proof fn lemma_observe_takes_from_the_front(
        self,
        khead: u32,
        flags: IoUringSqFlags,
        dropped: u32,
    )
        requires
            self.wf(),
            self.reachable(khead),
        ensures
            self.observe(khead, flags, dropped).wf(),
            self.observe(khead, flags, dropped).pending() == self.pending().skip(
                distance(self.khead, khead),
            ),
    {
        lemma_pow2_bound(self.size);
        let after = self.observe(khead, flags, dropped);
        let gone = distance(self.khead, khead);
        assert forall|i: int| 0 <= i < after.pending().len() implies after.pending()[i]
            == self.pending().skip(gone)[i] by {
            assert(advance(khead, i) == advance(self.khead, gone + i));
        }
        assert(after.pending() =~= self.pending().skip(gone));
    }

    /// Whether `khead` is a cursor that the kernel can have reached: it never
    /// moves back and never passes the published tail.
    pub open spec fn reachable(self, khead: u32) -> bool {
        distance(self.khead, khead) <= distance(self.khead, self.ktail)
    }

    /// The ring after the kernel's side is read again.
    pub open spec fn observe(self, khead: u32, flags: IoUringSqFlags, dropped: u32) -> Self {
        SqView { khead, flags, dropped, ..self }
    }

    /// The ring that setup with `params` leaves behind: nothing submitted,
    /// every slot zero, the index array ready.
    pub open spec fn fresh(params: IoUringParams) -> Self where S: SubmissionEntry {
        SqView {
            khead: 0,
            ktail: 0,
            mask: (params.sq_entries - 1) as u32,
            size: params.sq_entries,
            flags: 0,
            dropped: 0,
            indices: if has_flags(params.flags, IORING_SETUP_NO_SQARRAY) {
                Seq::<u32>::empty()
            } else {
                identity(params.sq_entries as nat)
            },
            sqes: Seq::new(params.sq_entries as nat, |i: int| S::spec_zeroed()),
        }
    }
}

/// How the kernel's consumer cursor is read from the mapping: every slot
/// below it is free again only after this load.
pub const KHEAD_LOAD: Load = Load::Acquire;

/// How the published producer cursor is read from the mapping: nobody but the
/// application writes it, so no ordering is needed.
pub const KTAIL_LOAD: Load = Load::Relaxed;

/// How the flags word and the count of dropped entries are read from the
/// mapping.
pub const KFLAGS_LOAD: Load = Load::Relaxed;

/// The application's image of the submission ring: the cursors and counters
/// as last published or observed, and the entry array.
#[derive(Debug)]
pub struct SubmissionQueue<S, M> {
    pub khead: u32,
    pub ktail: u32,
    pub mask: u32,
    pub size: u32,
    pub flags: IoUringSqFlags,
    pub dropped: u32,
    pub indices: SubmissionIndex,
    pub sqes: Vec<S>,
    pub _marker_: PhantomData<M>,
}

impl<S, M> View for SubmissionQueue<S, M> {
    type V = SqView<S>;

    open spec fn view(&self) -> SqView<S> {
        SqView {
            khead: self.khead,
            ktail: self.ktail,
            mask: self.mask,
            size: self.size,
            flags: self.flags,
            dropped: self.dropped,
            indices: self.indices@,
            sqes: self.sqes@,
        }
    }
}

impl<S, M> SubmissionQueue<S, M> where S: SubmissionEntry, M: Mode {
    /// The image of the submission ring that setup with `params` has just
    /// created. The index array is initialized here.
    pub fn new(params: &IoUringParams) -> (sq: Self)
        requires
            is_pow2(params.sq_entries),
        ensures
            sq@ == SqView::<S>::fresh(*params),
            sq@.wf(),
    {
        let mut sqes: Vec<S> = Vec::new();
        let mut idx: u32 = 0;
        while idx < params.sq_entries
            invariant
                idx <= params.sq_entries,
                sqes@ == Seq::new(idx as nat, |i: int| S::spec_zeroed()),
            decreases params.sq_entries - idx,
        {
            sqes.push(S::zeroed());
            idx = idx + 1;
        }
        Self {
            khead: 0,
            ktail: 0,
            mask: params.sq_entries - 1,
            size: params.sq_entries,
            flags: 0,
            dropped: 0,
            indices: SubmissionIndex::setup(params),
            sqes,
            _marker_: PhantomData,
        }
    }

    /// Tests whether the image is sound: the geometry fits together and no
    /// more entries are published than the ring has slots.
    pub fn is_wf(&self) -> (sound: bool)
        ensures
            sound == self@.wf(),
    {
        is_capacity(self.size) && self.mask == self.size - 1 && self.sqes.len()
            == self.size as usize && self.ktail.wrapping_sub(self.khead) <= self.size
            && self.indices.is_ready_for(self.size)
    }

    /// Takes over what the kernel's side of the ring shows now: its consumer
    /// cursor, read with an acquire load, the flags word and the count of
    /// dropped entries. A cursor that the kernel cannot have reached is
    /// refused and nothing changes.
    pub fn observe(&mut self, khead: u32, flags: IoUringSqFlags, dropped: u32) -> (res: Result<
        (),
        Error,
    >)
        requires
            old(self)@.wf(),
        ensures
            old(self)@.reachable(khead) ==> res.is_ok() && final(self)@ == old(self)@.observe(
                khead,
                flags,
                dropped,
            ),
            !old(self)@.reachable(khead) ==> res == Err::<(), Error>(Error::Protocol)
                && final(self)@ == old(self)@,
            final(self)@.wf(),
    {
        if khead.wrapping_sub(self.khead) > self.ktail.wrapping_sub(self.khead) {
            return Err(Error::Protocol);
        }
        self.khead = khead;
        self.flags = flags;
        self.dropped = dropped;
        Ok(())
    }

    /// Reads the kernel's side of the ring from the words `khead`, `flags`
    /// and `dropped` of the mapping and takes it over, as [`Self::observe`]
    /// does. What the words hold is the kernel's business: whatever it is,
    /// either all of it is taken over or nothing has changed.
    pub fn pull(&mut self, khead: &AtomicU32, flags: &AtomicU32, dropped: &AtomicU32) -> (res:
        Result<(), Error>)
        requires
            old(self)@.wf(),
        ensures
            res is Ok ==> exists|h: u32, f: IoUringSqFlags, d: u32|
                old(self)@.reachable(h) && final(self)@ == old(self)@.observe(h, f, d),
            res is Err ==> res == Err::<(), Error>(Error::Protocol) && final(self)@ == old(
                self,
            )@,
            final(self)@.wf(),
    {
        let h = KHEAD_LOAD.load(khead);
        let f = KFLAGS_LOAD.load(flags);
        let d = KFLAGS_LOAD.load(dropped);
        self.observe(h, f, d)
    }

    /// Writes the published tail to the word `ktail` of the mapping, the way
    /// the mode asks for. The entries below the tail have to lie in the
    /// mapped entry array before.
    pub fn publish(&self, ktail: &AtomicU32) {
        M::tail_store().store(ktail, self.ktail);
    }

    /// The flags word of the ring, as last observed.
    #[inline]
    pub fn flags(&self) -> (flags: IoUringSqFlags)
        ensures
            flags == self@.flags,
    {
        self.flags
    }

    /// Number of entries that the kernel dropped as invalid, as last observed.
    #[inline]
    pub fn dropped(&self) -> (dropped: u32)
        ensures
            dropped == self@.dropped,
    {
        self.dropped
    }

    /// Opens a session for pushing entries. It starts from the cursors as
    /// they stand now.
    pub fn submitter(&mut self) -> (submitter: Submitter<'_, S, M>)
        requires
            old(self)@.wf(),
        ensures
            submitter@ == (SubmitterView {
                head: old(self)@.khead,
                tail: old(self)@.ktail,
                queue: old(self)@,
            }),
            submitter@.wf(),
            *final(self) == *final(submitter.queue),
    {
        Submitter { head: self.head(), tail: self.tail(), queue: self }
    }

    /// The kernel's consumer cursor, as last observed. Whoever refreshes it
    /// from the mapping reads it with an acquire load.
    #[inline]
    pub fn head(&self) -> (head: u32)
        ensures
            head == self@.khead,
    {
        self.khead
    }

    /// The published producer cursor. Only the application writes it.
    #[inline]
    pub fn tail(&self) -> (tail: u32)
        ensures
            tail == self@.ktail,
    {
        self.ktail
    }

    /// Publishes `tail` and tells how the store must reach the kernel.
    pub fn set_tail(&mut self, tail: u32) -> (how: Store)
        requires
            old(self)@.wf(),
            distance(old(self)@.khead, tail) <= old(self)@.size,
        ensures
            final(self)@ == old(self)@.set_tail(tail),
            final(self)@.wf(),
            how == crate::uringio::uring::mode::sq_tail_store(M::ty()),
    {
        M::set_sq_ktail(self, tail)
    }

    #[inline]
    pub fn size(&self) -> (size: usize)
        ensures
            size == self@.size,
    {
        self.size as usize
    }

    /// The entry that cursor `idx` stands for: the one at position
    /// `idx & mask`.
    #[inline]
    pub fn get_sqe(&self, idx: u32) -> (entry: &S)
        requires
            self@.wf(),
        ensures
            *entry == self@.get(idx),
    {
        proof {
            lemma_slot_in_range(idx, self.size, self.mask);
        }
        &self.sqes[(idx & self.mask) as usize]
    }

    /// Writes `entry` where cursor `idx` stands.
    #[inline]
    pub fn set_sqe(&mut self, idx: u32, entry: S)
        requires
            old(self)@.wf(),
        ensures
            final(self)@ == old(self)@.put(idx, entry),
            final(self)@.wf(),
    {
        proof {
            lemma_slot_in_range(idx, self.size, self.mask);
        }
        let at = (idx & self.mask) as usize;
        self.sqes[at] = entry;
    }
}

} // verus!
