use core::sync::atomic::AtomicU32;
use std::marker::PhantomData;
use vstd::prelude::*;

use crate::platform::iouring::{IoUringCqFlags, IoUringParams};
use crate::shared::access::{Load, Store};
use crate::shared::cursor::{
    advance, distance, is_capacity, is_pow2, lemma_pow2_bound, lemma_slot_in_range,
    lemma_slots_differ, slot,
};
use crate::uringio::completion::collector::{Collector, CollectorView};
use crate::uringio::completion::entry::CompletionEntry;
use crate::uringio::uring::mode::Mode;

verus! {

/// The completion ring as a mathematical value.
#[verifier::ext_equal]
pub struct CqView<C> {
    /// Consumer cursor, as last published.
    pub k_head: u32,
    /// Producer cursor, owned by the kernel, as last observed.
    pub k_tail: u32,
    pub mask: u32,
    pub size: u32,
    pub k_flags: IoUringCqFlags,
    pub k_overflow: u32,
    /// The entry array.
    pub cqes: Seq<C>,
}

impl<C> CqView<C> {
    /// The ring's geometry is sound and no more entries wait than the ring
    /// has slots.
    pub open spec fn wf(self) -> bool {
        &&& is_pow2(self.size)
        &&& self.mask == self.size - 1
        &&& self.cqes.len() == self.size
        &&& distance(self.k_head, self.k_tail) <= self.size
    }

    /// The entry that cursor `idx` stands for.
    pub open spec fn get(self, idx: u32) -> C {
        self.cqes[slot(idx, self.mask)]
    }

    /// The ring after `head` is published.
    pub open spec fn set_head(self, head: u32) -> Self {
        CqView { k_head: head, ..self }
    }

    /// No slot is free for the kernel.
    pub open spec fn is_full(self) -> bool {
        distance(self.k_head, self.k_tail) == self.size
    }

    /// The ring after the kernel posted `entry`.
    pub open spec fn post(self, entry: C) -> Self {
        CqView {
            k_tail: self.k_tail.wrapping_add(1),
            cqes: self.cqes.update(slot(self.k_tail, self.mask), entry),
            ..self
        }
    }

    /// The entries that the `n` cursors from `from` on stand for, in order.
    pub open spec fn span(self, from: u32, n: int) -> Seq<C> {
        Seq::new(n as nat, |i: int| self.get(advance(from, i)))
    }

    /// The entries that the kernel has posted and that are not given back
    /// yet, oldest first.
    pub open spec fn waiting(self) -> Seq<C> {
        self.span(self.k_head, distance(self.k_head, self.k_tail))
    }

    /// An entry that the kernel posts comes last among the waiting ones and
    /// overwrites none of them.
    pub proof fn lemma_post_appends(self, entry: C)
        requires
            self.wf(),
            !self.is_full(),
        ensures
            self.post(entry).wf(),
            self.post(entry).waiting() == self.waiting().push(entry),
    {
        lemma_pow2_bound(self.size);
        let after = self.post(entry);
        let waiting = distance(self.k_head, self.k_tail);
        lemma_slot_in_range(self.k_tail, self.size, self.mask);
        assert forall|i: int| 0 <= i < waiting implies after.get(advance(self.k_head, i))
            == self.get(advance(self.k_head, i)) by {
            let at = advance(self.k_head, i);
            assert(distance(at, self.k_tail) == waiting - i);
            lemma_slots_differ(at, self.k_tail, self.size, self.mask);
            lemma_slot_in_range(at, self.size, self.mask);
        }
        assert(advance(self.k_head, waiting) == self.k_tail);
        assert(after.waiting() =~= self.waiting().push(entry));
    }

    /// The ring after the kernel's flags word and overflow count are read
    /// again.
    pub open spec fn observe(self, k_flags: IoUringCqFlags, k_overflow: u32) -> Self {
        CqView { k_flags, k_overflow, ..self }
    }

    /// The ring that setup with `params` leaves behind: nothing completed,
    /// every slot zero.
    pub open spec fn fresh(params: IoUringParams) -> Self where C: CompletionEntry {
        CqView {
            k_head: 0,
            k_tail: 0,
            mask: (params.cq_entries - 1) as u32,
            size: params.cq_entries,
            k_flags: 0,
            k_overflow: 0,
            cqes: Seq::new(params.cq_entries as nat, |i: int| C::spec_zeroed()),
        }
    }
}

/// How the published consumer cursor is read from the mapping: nobody but
/// the application writes it, so no ordering is needed.
pub const KHEAD_LOAD: Load = Load::Relaxed;

/// How the kernel's producer cursor is read from the mapping: every entry
/// below it is read only after this load.
pub const KTAIL_LOAD: Load = Load::Acquire;

/// How the consumer cursor is published: the entries below it are given back
/// only after they were read.
pub const KHEAD_STORE: Store = Store::Release;

/// How the count of completions without a slot is read from the mapping.
pub const KOVERFLOW_LOAD: Load = Load::Acquire;

/// How the flags word is read from the mapping.
pub const KFLAGS_LOAD: Load = Load::Relaxed;

/// The application's image of the completion ring: the cursors and counters
/// as last published or observed, and the entry array.
#[derive(Debug)]
pub struct CompletionQueue<C, M> {
    pub cqes: Vec<C>,
    pub k_head: u32,
    pub k_tail: u32,
    pub mask: u32,
    pub size: u32,
    pub k_flags: IoUringCqFlags,
    pub k_overflow: u32,
    pub _marker_: PhantomData<M>,
}

impl<C, M> View for CompletionQueue<C, M> {
    type V = CqView<C>;

    open spec fn view(&self) -> CqView<C> {
        CqView {
            k_head: self.k_head,
            k_tail: self.k_tail,
            mask: self.mask,
            size: self.size,
            k_flags: self.k_flags,
            k_overflow: self.k_overflow,
            cqes: self.cqes@,
        }
    }
}

impl<C, M> CompletionQueue<C, M> where C: CompletionEntry, M: Mode {
    /// The image of the completion ring that setup with `params` has just
    /// created.
    pub fn new(params: &IoUringParams) -> (cq: Self)
        requires
            is_pow2(params.cq_entries),
        ensures
            cq@ == CqView::<C>::fresh(*params),
            cq@.wf(),
    {
        let mut cqes: Vec<C> = Vec::new();
        let mut idx: u32 = 0;
        while idx < params.cq_entries
            invariant
                idx <= params.cq_entries,
                cqes@ == Seq::new(idx as nat, |i: int| C::spec_zeroed()),
            decreases params.cq_entries - idx,
        {
            cqes.push(C::zeroed());
            idx = idx + 1;
        }
        Self {
            cqes,
            k_head: 0,
            k_tail: 0,
            mask: params.cq_entries - 1,
            size: params.cq_entries,
            k_flags: 0,
            k_overflow: 0,
            _marker_: PhantomData,
        }
    }

    /// Tests whether the image is sound: the geometry fits together and no
    /// more entries wait than the ring has slots.
    pub fn is_wf(&self) -> (sound: bool)
        ensures
            sound == self@.wf(),
    {
        is_capacity(self.size) && self.mask == self.size - 1 && self.cqes.len()
            == self.size as usize && self.k_tail.wrapping_sub(self.k_head) <= self.size
    }

    /// The flags word of the ring, as last observed.
    pub fn flags(&self) -> (flags: IoUringCqFlags)
        ensures
            flags == self@.k_flags,
    {
        self.k_flags
    }

    /// Number of completions that found no free slot, as last observed.
    /// Whoever refreshes it from the mapping reads it with an acquire load.
    pub fn overflow(&self) -> (overflow: u32)
        ensures
            overflow == self@.k_overflow,
    {
        self.k_overflow
    }

    /// The entry that cursor `idx` stands for: the one at position
    /// `idx & mask`.
    #[inline]
    pub fn get_cqe(&self, idx: u32) -> (entry: &C)
        requires
            self@.wf(),
        ensures
            *entry == self@.get(idx),
    {
        proof {
            lemma_slot_in_range(idx, self.size, self.mask);
        }
        &self.cqes[(idx & self.mask) as usize]
    }

    /// The published consumer cursor. Only the application writes it.
    #[inline]
    pub fn head(&self) -> (head: u32)
        ensures
            head == self@.k_head,
    {
        self.k_head
    }

    /// The kernel's producer cursor, as last observed. Whoever refreshes it
    /// from the mapping reads it with an acquire load, before any entry
    /// below it is read.
    #[inline]
    pub fn tail(&self) -> (tail: u32)
        ensures
            tail == self@.k_tail,
    {
        self.k_tail
    }

    /// Publishes `head`, which gives the slots below it back to the kernel,
    /// and tells how the store must reach the kernel: with release ordering.
    #[inline]
    pub fn set_head(&mut self, head: u32) -> (how: Store)
        requires
            old(self)@.wf(),
            distance(head, old(self)@.k_tail) <= old(self)@.size,
        ensures
            final(self)@ == old(self)@.set_head(head),
            final(self)@.wf(),
            how == KHEAD_STORE,
    {
        self.k_head = head;
        KHEAD_STORE
    }

    /// Takes over one entry that the kernel has posted: it goes where the
    /// kernel's tail stands, and the tail moves on. A ring without a free
    /// slot hands the entry back and nothing changes.
    pub fn post(&mut self, entry: C) -> (res: Result<(), C>)
        requires
            old(self)@.wf(),
        ensures
            !old(self)@.is_full() ==> res.is_ok() && final(self)@ == old(self)@.post(entry),
            old(self)@.is_full() ==> res == Err::<(), C>(entry) && final(self)@ == old(self)@,
            final(self)@.wf(),
    {
        if self.k_tail.wrapping_sub(self.k_head) == self.size {
            return Err(entry);
        }
        proof {
            lemma_slot_in_range(self.k_tail, self.size, self.mask);
        }
        let at = (self.k_tail & self.mask) as usize;
        self.cqes[at] = entry;
        self.k_tail = self.k_tail.wrapping_add(1);
        Ok(())
    }

    /// Takes over the kernel's flags word and overflow count.
    pub fn observe(&mut self, k_flags: IoUringCqFlags, k_overflow: u32)
        ensures
            final(self)@ == old(self)@.observe(k_flags, k_overflow),
    {
        self.k_flags = k_flags;
        self.k_overflow = k_overflow;
    }

    /// Reads the kernel's producer cursor from the word `k_tail` of the
    /// mapping. The entries below it can be read from the mapped entry array
    /// afterwards and handed to [`Self::post`] one by one.
    pub fn pull_tail(&self, k_tail: &AtomicU32) -> u32 {
        KTAIL_LOAD.load(k_tail)
    }

    /// Reads the flags word and the overflow count from the words `k_flags`
    /// and `k_overflow` of the mapping and takes them over, as
    /// [`Self::observe`] does.
    pub fn pull(&mut self, k_flags: &AtomicU32, k_overflow: &AtomicU32)
        ensures
            exists|f: IoUringCqFlags, o: u32| final(self)@ == old(self)@.observe(f, o),
    {
        let f = KFLAGS_LOAD.load(k_flags);
        let o = KOVERFLOW_LOAD.load(k_overflow);
        self.observe(f, o);
    }

    /// Writes the published head to the word `k_head` of the mapping, with
    /// release ordering.
    pub fn publish(&self, k_head: &AtomicU32) {
        KHEAD_STORE.store(k_head, self.k_head);
    }

    /// Opens a session for draining entries. It starts from the cursors as
    /// they stand now.
    pub fn collector(&mut self) -> (collector: Collector<'_, C, M>)
        requires
            old(self)@.wf(),
        ensures
            collector@ == (CollectorView {
                head: old(self)@.k_head,
                tail: old(self)@.k_tail,
                queue: old(self)@,
            }),
            collector@.wf(),
            *final(self) == *final(collector.queue),
    {
        Collector { head: self.head(), tail: self.tail(), queue: self }
    }
}

} // verus!
