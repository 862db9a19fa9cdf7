use vstd::prelude::*;

use crate::shared::access::Store;
use crate::shared::cursor::{advance, distance, lemma_pow2_bound};
use crate::uringio::completion::entry::CompletionEntry;
use crate::uringio::completion::queue::{CompletionQueue, CqView};
use crate::uringio::uring::mode::Mode;

verus! {

/// A draining session as a mathematical value: the two cursors it keeps to
/// itself and the ring it works on.
#[verifier::ext_equal]
pub struct CollectorView<C> {
    /// The consumer cursor, ahead of the published one by the entries taken
    /// and not yet given back.
    pub head: u32,
    /// The kernel's producer cursor as the session last took it over.
    pub tail: u32,
    pub queue: CqView<C>,
}

impl<C> CollectorView<C> {
    /// The ring is sound, and walking from the published head one meets the
    /// session's head, the session's tail and the kernel's tail in this order
    /// within one round of the ring.
    pub open spec fn wf(self) -> bool {
        &&& self.queue.wf()
        &&& distance(self.queue.k_head, self.head) + distance(self.head, self.tail) + distance(
            self.tail,
            self.queue.k_tail,
        ) <= self.queue.size
    }

    /// Number of entries that the session can still hand out.
    pub open spec fn size(self) -> u32 {
        self.tail.wrapping_sub(self.head)
    }

    pub open spec fn is_full(self) -> bool {
        self.size() == self.queue.size
    }

    /// Nothing is left to hand out.
    pub open spec fn is_exhausted(self) -> bool {
        self.head == self.tail
    }

    /// The session after one call for the next entry, and what the call
    /// hands out.
    pub open spec fn next(self) -> (Self, Option<C>) {
        if self.is_exhausted() {
            (self, None)
        } else {
            (
                CollectorView { head: self.head.wrapping_add(1), ..self },
                Some(self.queue.get(self.head)),
            )
        }
    }

    /// The session after it published its head.
    pub open spec fn update_head(self) -> Self {
        CollectorView { queue: self.queue.set_head(self.head), ..self }
    }

    /// The session after it took over the kernel's producer cursor.
    pub open spec fn update_tail(self) -> Self {
        CollectorView { tail: self.queue.k_tail, ..self }
    }

    pub open spec fn update(self) -> Self {
        self.update_head().update_tail()
    }

    /// The entries that the session can still hand out, in the order in
    /// which it does.
    pub open spec fn available(self) -> Seq<C> {
        self.queue.span(self.head, distance(self.head, self.tail))
    }

    /// A session with something left hands out the oldest entry it has and
    /// keeps the rest, in order.
    pub proof fn lemma_next_takes_the_oldest(self)
        requires
            self.wf(),
            !self.is_exhausted(),
        ensures
            self.next().0.wf(),
            self.next().1 == Some(self.available()[0]),
            self.next().0.available() == self.available().skip(1),
    {
        lemma_pow2_bound(self.queue.size);
        let after = self.next().0;
        assert(advance(self.head, 0) == self.head);
        assert forall|i: int| 0 <= i < after.available().len() implies after.available()[i]
            == self.available().skip(1)[i] by {
            assert(advance(after.head, i) == advance(self.head, i + 1));
        }
        assert(after.available() =~= self.available().skip(1));
    }

    /// An update makes everything available that the kernel has posted and
    /// that the session has not handed out yet.
    pub proof fn lemma_update_takes_in_what_waits(self)
        requires
            self.wf(),
        ensures
            self.update().wf(),
            self.update().available() == self.update().queue.waiting(),
    {
        lemma_pow2_bound(self.queue.size);
    }

    /// A session with nothing left hands out nothing, however often it is
    /// asked, and is not changed by being asked.
    pub proof fn lemma_exhausted_stays(self)
        requires
            self.is_exhausted(),
        ensures
            self.next() == (self, None::<C>),
            self.next().0.next() == (self, None::<C>),
    {
    }

    /// A session with nothing left has something to hand out after an update
    /// exactly if the kernel's tail has moved past the session's head, and it
    /// is then the entry at that head.
    pub proof fn lemma_update_ends_exhaustion(self)
        requires
            self.wf(),
            self.is_exhausted(),
        ensures
            self.update().is_exhausted() <==> self.queue.k_tail == self.head,
            self.update().next().1 == if self.queue.k_tail == self.head {
                None
            } else {
                Some(self.queue.get(self.head))
            },
    {
    }

    /// Updating a second time with nothing taken and nothing observed in
    /// between changes nothing.
    pub proof fn lemma_update_idempotent(self)
        ensures
            self.update().update() == self.update(),
    {
    }
}

/// A session that drains a completion ring. It moves a head of its own; the
/// kernel gets no slot back before the session updates or goes away.
#[derive(Debug)]
pub struct Collector<'c, C, M> where M: Mode {
    pub head: u32,
    pub tail: u32,
    pub queue: &'c mut CompletionQueue<C, M>,
}

impl<'c, C, M> View for Collector<'c, C, M> where M: Mode {
    type V = CollectorView<C>;

    open spec fn view(&self) -> CollectorView<C> {
        CollectorView { head: self.head, tail: self.tail, queue: (*self.queue)@ }
    }
}

impl<'c, C, M> Collector<'c, C, M> where C: CompletionEntry, M: Mode {
    /// Tests whether the session is sound: its ring is, and its cursors lie
    /// between the ring's within one round.
    pub fn is_wf(&self) -> (sound: bool)
        ensures
            sound == self@.wf(),
    {
        if !self.queue.is_wf() {
            return false;
        }
        let taken = self.head.wrapping_sub(self.queue.k_head);
        let left = self.tail.wrapping_sub(self.head);
        let unseen = self.queue.k_tail.wrapping_sub(self.tail);
        let size = self.queue.size;
        taken <= size && left <= size - taken && unseen <= size - taken - left
    }

    /// Publishes the session's head, which gives the entries handed out so
    /// far back to the kernel, and tells how the store must reach the
    /// kernel.
    #[inline]
    pub fn update_head(&mut self) -> (how: Store)
        requires
            old(self)@.wf(),
        ensures
            final(self)@ == old(self)@.update_head(),
            final(self)@.wf(),
            how == Store::Release,
            *final(final(self).queue) == *final(old(self).queue),
    {
        self.queue.set_head(self.head)
    }

    /// Takes over the kernel's producer cursor from the ring.
    #[inline]
    pub fn update_tail(&mut self)
        requires
            old(self)@.wf(),
        ensures
            final(self)@ == old(self)@.update_tail(),
            final(self)@.wf(),
            *final(final(self).queue) == *final(old(self).queue),
    {
        self.tail = self.queue.tail();
    }

    /// Publishes the head, then takes over the kernel's tail.
    pub fn update(&mut self) -> (how: Store)
        requires
            old(self)@.wf(),
        ensures
            final(self)@ == old(self)@.update(),
            final(self)@.wf(),
            how == Store::Release,
            *final(final(self).queue) == *final(old(self).queue),
    {
        let how = self.update_head();
        self.update_tail();
        how
    }

    #[inline]
    pub fn is_full(&self) -> (full: bool)
        ensures
            full == self@.is_full(),
    {
        self.size() == self.queue.size
    }

    /// Number of entries that the session can still hand out.
    #[inline]
    pub fn size(&self) -> (size: u32)
        ensures
            size == self@.size(),
    {
        self.tail.wrapping_sub(self.head)
    }

    /// Hands out the next entry that the kernel has posted, or nothing where
    /// the session has handed out all it knows of.
    #[inline]
    pub fn next(&mut self) -> (entry: Option<C>)
        requires
            old(self)@.wf(),
        ensures
            final(self)@ == old(self)@.next().0,
            entry == old(self)@.next().1,
            final(self)@.wf(),
            *final(final(self).queue) == *final(old(self).queue),
    {
        if self.head == self.tail {
            return None;
        }
        let cqe = *self.queue.get_cqe(self.head);
        self.head = self.head.wrapping_add(1);
        Some(cqe)
    }

    /// The session hands out exactly this many entries more.
    #[inline]
    pub fn size_hint(&self) -> (hint: (usize, Option<usize>))
        ensures
            hint.0 == self@.size(),
            hint.1 == Some(self@.size() as usize),
    {
        let size = self.size() as usize;
        (size, Some(size))
    }

    /// Number of entries that the session can still hand out.
    #[inline]
    pub fn len(&self) -> (len: usize)
        ensures
            len == self@.size(),
    {
        self.size() as usize
    }
}

impl<'c, C, M> Drop for Collector<'c, C, M> where M: Mode {
    /// A session that goes away publishes its head, so that the slots of the
    /// entries it handed out are not lost to the kernel.
    fn drop(&mut self)
        ensures
            final(self).queue@ == old(self).queue@.set_head(old(self).head),
            final(self).head == old(self).head,
            final(self).tail == old(self).tail,
            *final(final(self).queue) == *final(old(self).queue),
        opens_invariants none
        no_unwind
    {
        self.queue.k_head = self.head;
    }
}

} // verus!
