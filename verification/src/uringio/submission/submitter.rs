use vstd::prelude::*;

use crate::shared::access::Store;
use crate::shared::cursor::{
    advance, distance, lemma_pow2_bound, lemma_slot_in_range, lemma_slot_step,
    lemma_slots_differ, slot,
};
use crate::uringio::operator::Op;
use crate::uringio::submission::entry::{Sqe128, Sqe64, SqeMix, SubmissionEntry};
use crate::uringio::submission::queue::{SqView, SubmissionQueue};
use crate::uringio::uring::mode::{sq_tail_store, Mode};

verus! {

/// A pushing session as a mathematical value: the two cursors it keeps to
/// itself and the ring it works on.
#[verifier::ext_equal]
pub struct SubmitterView<S> {
    /// The kernel's consumer cursor as the session last took it over.
    pub head: u32,
    /// The producer cursor, ahead of the published one by the entries pushed
    /// and not yet published.
    pub tail: u32,
    pub queue: SqView<S>,
}

impl<S> SubmitterView<S> {
    /// The ring is sound, and walking from the session's head one meets the
    /// kernel's head, the published tail and the session's tail in this
    /// order within one round of the ring.
    pub open spec fn wf(self) -> bool {
        &&& self.queue.wf()
        &&& distance(self.head, self.queue.khead) + distance(self.queue.khead, self.queue.ktail)
            + distance(self.queue.ktail, self.tail) <= self.queue.size
    }

    /// Number of slots in use as far as the session knows.
    pub open spec fn size(self) -> u32 {
        self.tail.wrapping_sub(self.head)
    }

    pub open spec fn is_full(self) -> bool {
        self.size() == self.queue.size
    }

    /// The session after `entry` went into the slot at its tail.
    pub open spec fn push(self, entry: S) -> Self {
        SubmitterView {
            tail: self.tail.wrapping_add(1),
            queue: self.queue.put(self.tail, entry),
            ..self
        }
    }

    /// What pushing `entry` leaves behind, and whether the entry went in: a
    /// full ring takes nothing and stays as it is.
    pub open spec fn try_push(self, entry: S) -> (Self, bool) {
        if self.is_full() {
            (self, false)
        } else {
            (self.push(entry), true)
        }
    }

    /// The session after it took over the kernel's consumer cursor.
    pub open spec fn update_head(self) -> Self {
        SubmitterView { head: self.queue.khead, ..self }
    }

    /// The session after it published its tail.
    pub open spec fn update_tail(self) -> Self {
        SubmitterView { queue: self.queue.set_tail(self.tail), ..self }
    }

    pub open spec fn update(self) -> Self {
        self.update_head().update_tail()
    }

    /// The session after the entries of `entries` were pushed one after the
    /// other.
    pub open spec fn push_all(self, entries: Seq<S>) -> Self
        decreases entries.len(),
    {
        if entries.len() == 0 {
            self
        } else {
            self.push_all(entries.drop_last()).try_push(entries.last()).0
        }
    }

    /// As long as no more entries are pushed than slots are free, every push
    /// goes in and takes one slot, and the ring is full exactly when the
    /// entries pushed have used up the free slots. A full ring refuses the
    /// next entry, whatever it is, and stays as it is.
    pub proof fn lemma_full_exactly_at_capacity(self, entries: Seq<S>)
        requires
            self.wf(),
            self.size() + entries.len() <= self.queue.size,
        ensures
            self.push_all(entries).wf(),
            self.push_all(entries).size() == self.size() + entries.len(),
            self.push_all(entries).head == self.head,
            self.push_all(entries).is_full() <==> self.size() + entries.len() == self.queue.size,
            forall|i: int|
                0 <= i < entries.len() ==> #[trigger] self.push_all(entries.take(i)).try_push(
                    entries[i],
                ).1,
            forall|entry: S|
                self.push_all(entries).is_full() ==> #[trigger] self.push_all(entries).try_push(
                    entry,
                ) == (self.push_all(entries), false),
        decreases entries.len(),
    {
        if entries.len() > 0 {
            let front = entries.drop_last();
            self.lemma_full_exactly_at_capacity(front);
            lemma_slot_in_range(
                self.push_all(front).tail,
                self.queue.size,
                self.queue.mask,
            );
            self.lemma_push_all_keeps_geometry(front);
            assert forall|i: int| 0 <= i < entries.len() implies #[trigger] self.push_all(
                entries.take(i),
            ).try_push(entries[i]).1 by {
                if i < front.len() {
                    assert(entries.take(i) =~= front.take(i));
                    assert(entries[i] == front[i]);
                    assert(self.push_all(front.take(i)).try_push(front[i]).1);
                } else {
                    assert(entries.take(i) =~= front);
                    assert(!self.push_all(front).is_full());
                }
            }
        }
    }

    /// Pushing changes neither the ring's geometry nor the cursors that the
    /// ring shares with the kernel.
    pub proof fn lemma_push_all_keeps_geometry(self, entries: Seq<S>)
        ensures
            self.push_all(entries).queue.size == self.queue.size,
            self.push_all(entries).queue.mask == self.queue.mask,
            self.push_all(entries).queue.khead == self.queue.khead,
            self.push_all(entries).queue.ktail == self.queue.ktail,
        decreases entries.len(),
    {
        if entries.len() > 0 {
            self.lemma_push_all_keeps_geometry(entries.drop_last());
        }
    }

    /// An entry that went in is read back unchanged from the slot that the
    /// tail stood on, and no other slot has changed.
    pub proof fn lemma_push_reads_back(self, entry: S)
        requires
            self.wf(),
            !self.is_full(),
        ensures
            self.try_push(entry).1,
            self.try_push(entry).0.queue.get(self.tail) == entry,
            forall|at: int|
                0 <= at < self.queue.size && at != slot(self.tail, self.queue.mask)
                    ==> self.try_push(entry).0.queue.sqes[at] == self.queue.sqes[at],
    {
        lemma_slot_in_range(self.tail, self.queue.size, self.queue.mask);
    }

    /// The entries that the session has pushed and not yet published, in
    /// the order in which they went in.
    pub open spec fn staged(self) -> Seq<S> {
        self.queue.span(self.queue.ktail, distance(self.queue.ktail, self.tail))
    }

    /// An entry that goes in comes last among the staged ones and overwrites
    /// nothing that is staged or that the kernel has still to take.
    pub proof fn lemma_push_appends(self, entry: S)
        requires
            self.wf(),
            !self.is_full(),
        ensures
            self.push(entry).wf(),
            self.push(entry).staged() == self.staged().push(entry),
            self.push(entry).queue.pending() == self.queue.pending(),
    {
        lemma_pow2_bound(self.queue.size);
        let after = self.push(entry);
        let size = self.queue.size;
        let mask = self.queue.mask;
        let staged = distance(self.queue.ktail, self.tail);
        let pending = distance(self.queue.khead, self.queue.ktail);
        lemma_slot_in_range(self.tail, size, mask);
        assert forall|i: int| 0 <= i < staged implies after.queue.get(
            advance(self.queue.ktail, i),
        ) == self.queue.get(advance(self.queue.ktail, i)) by {
            let at = advance(self.queue.ktail, i);
            assert(distance(at, self.tail) == staged - i);
            lemma_slots_differ(at, self.tail, size, mask);
            lemma_slot_in_range(at, size, mask);
        }
        assert(advance(self.queue.ktail, staged) == self.tail);
        assert(after.staged() =~= self.staged().push(entry));
        assert forall|i: int| 0 <= i < pending implies after.queue.get(
            advance(self.queue.khead, i),
        ) == self.queue.get(advance(self.queue.khead, i)) by {
            let at = advance(self.queue.khead, i);
            assert(distance(at, self.tail) == pending - i + staged);
            lemma_slots_differ(at, self.tail, size, mask);
            lemma_slot_in_range(at, size, mask);
        }
        assert(after.queue.pending() =~= self.queue.pending());
    }

    /// Entries pushed one after the other, no more of them than slots are
    /// free, are staged in the order in which they went in, behind what was
    /// staged before; what the kernel has still to take stays as it is.
    pub proof fn lemma_push_all_stages(self, entries: Seq<S>)
        requires
            self.wf(),
            self.size() + entries.len() <= self.queue.size,
        ensures
            self.push_all(entries).wf(),
            self.push_all(entries).staged() == self.staged() + entries,
            self.push_all(entries).queue.pending() == self.queue.pending(),
        decreases entries.len(),
    {
        if entries.len() == 0 {
            assert(self.staged() + entries =~= self.staged());
        } else {
            let front = entries.drop_last();
            self.lemma_push_all_stages(front);
            self.lemma_full_exactly_at_capacity(front);
            self.push_all(front).lemma_push_appends(entries.last());
            assert((self.staged() + front).push(entries.last()) =~= self.staged() + entries);
        }
    }

    /// What a session pushes and then publishes is what the kernel finds
    /// behind the entries it had still to take: the same entries in the
    /// same order.
    pub proof fn lemma_submitted_in_order(self, entries: Seq<S>)
        requires
            self.wf(),
            self.size() + entries.len() <= self.queue.size,
        ensures
            self.push_all(entries).update_tail().queue.pending() == self.queue.pending()
                + self.staged() + entries,
            self.push_all(entries).update_tail().staged() == Seq::<S>::empty(),
    {
        self.lemma_push_all_stages(entries);
        self.push_all(entries).lemma_update_tail_publishes();
        assert(self.queue.pending() + (self.staged() + entries) =~= self.queue.pending()
            + self.staged() + entries);
    }

    /// Publishing the tail hands the staged entries to the kernel: they come
    /// behind what was pending, in the order in which they went in, and
    /// nothing stays staged.
    pub proof fn lemma_update_tail_publishes(self)
        requires
            self.wf(),
        ensures
            self.update_tail().wf(),
            self.update_tail().queue.pending() == self.queue.pending() + self.staged(),
            self.update_tail().staged() == Seq::<S>::empty(),
    {
        lemma_pow2_bound(self.queue.size);
        let after = self.update_tail();
        let pending = distance(self.queue.khead, self.queue.ktail);
        assert forall|i: int| 0 <= i < after.queue.pending().len() implies after.queue.pending()[i]
            == (self.queue.pending() + self.staged())[i] by {
            if i >= pending {
                assert(advance(self.queue.khead, i) == advance(self.queue.ktail, i - pending));
            }
        }
        assert(after.queue.pending() =~= self.queue.pending() + self.staged());
        assert(after.staged() =~= Seq::<S>::empty());
    }

    /// Updating a second time with nothing pushed and nothing observed in
    /// between changes nothing: neither the session's cursors nor what is
    /// published.
    pub proof fn lemma_update_idempotent(self)
        ensures
            self.update().update() == self.update(),
    {
    }
}

impl SubmitterView<SqeMix> {
    /// The session's tail stands on the last position of the array, so that a
    /// wide entry put there would run over the end.
    pub open spec fn at_wrap(self) -> bool {
        slot(self.tail, self.queue.mask) == self.queue.mask
    }

    /// Number of slots that a wide entry takes from here: its two, and one
    /// more for the filler where the tail stands on the last position.
    pub open spec fn wide_slots(self) -> int {
        if self.at_wrap() {
            3
        } else {
            2
        }
    }

    /// The session after a wide entry went in: the filler first where it is
    /// needed, then the entry's two halves in neighbouring slots.
    pub open spec fn push_wide(self, entry: Sqe128) -> Self {
        let start = if self.at_wrap() {
            self.push(SqeMix::spec_padding())
        } else {
            self
        };
        start.push(SqeMix::spec_entry(entry.sqe)).push(SqeMix::spec_extra(entry.extra_data))
    }

    /// What pushing the wide `entry` leaves behind, and whether it went in:
    /// without room for all its slots nothing is written.
    pub open spec fn try_push_wide(self, entry: Sqe128) -> (Self, bool) {
        if self.size() + self.wide_slots() > self.queue.size {
            (self, false)
        } else {
            (self.push_wide(entry), true)
        }
    }
}

impl SubmitterView<SqeMix> {
    /// A wide entry pushed while the tail stands on the last position, with
    /// room for three slots: the filler takes the last position, the entry's
    /// first half position 0 and its second half position 1. Three slots are
    /// used and no other slot has changed.
    pub proof fn lemma_wide_push_at_wrap(self, entry: Sqe128)
        requires
            self.wf(),
            slot(self.tail, self.queue.mask) == self.queue.size - 1,
            self.size() + 3 <= self.queue.size,
        ensures
            self.try_push_wide(entry).1,
            self.try_push_wide(entry).0.wf(),
            self.try_push_wide(entry).0.queue.sqes[self.queue.size - 1] == SqeMix::spec_padding(),
            self.try_push_wide(entry).0.queue.sqes[0] == SqeMix::spec_entry(entry.sqe),
            self.try_push_wide(entry).0.queue.sqes[1] == SqeMix::spec_extra(entry.extra_data),
            self.try_push_wide(entry).0.size() == self.size() + 3,
            distance(self.tail, self.try_push_wide(entry).0.tail) == 3,
            forall|at: int|
                2 <= at < self.queue.size - 1 ==> self.try_push_wide(entry).0.queue.sqes[at]
                    == self.queue.sqes[at],
    {
        lemma_pow2_bound(self.queue.size);
        let one = self.tail.wrapping_add(1);
        let two = one.wrapping_add(1);
        lemma_slot_in_range(self.tail, self.queue.size, self.queue.mask);
        lemma_slot_step(self.tail, self.queue.size, self.queue.mask);
        lemma_slot_step(one, self.queue.size, self.queue.mask);
        lemma_slot_in_range(one, self.queue.size, self.queue.mask);
        lemma_slot_in_range(two, self.queue.size, self.queue.mask);
    }

    /// A wide entry pushed while the tail stands anywhere but on the last
    /// position, with room for two slots: its halves take the tail's position
    /// and the one after it, and no filler is written.
    pub proof fn lemma_wide_push_inside(self, entry: Sqe128)
        requires
            self.wf(),
            slot(self.tail, self.queue.mask) != self.queue.size - 1,
            self.size() + 2 <= self.queue.size,
        ensures
            self.try_push_wide(entry).1,
            self.try_push_wide(entry).0.wf(),
            self.try_push_wide(entry).0.queue.sqes[slot(self.tail, self.queue.mask)]
                == SqeMix::spec_entry(entry.sqe),
            self.try_push_wide(entry).0.queue.sqes[slot(self.tail, self.queue.mask) + 1]
                == SqeMix::spec_extra(entry.extra_data),
            self.try_push_wide(entry).0.size() == self.size() + 2,
            forall|at: int|
                0 <= at < self.queue.size && at != slot(self.tail, self.queue.mask) && at != slot(
                    self.tail,
                    self.queue.mask,
                ) + 1 ==> self.try_push_wide(entry).0.queue.sqes[at] == self.queue.sqes[at],
    {
        lemma_pow2_bound(self.queue.size);
        let one = self.tail.wrapping_add(1);
        lemma_slot_in_range(self.tail, self.queue.size, self.queue.mask);
        lemma_slot_step(self.tail, self.queue.size, self.queue.mask);
        lemma_slot_in_range(one, self.queue.size, self.queue.mask);
    }
}

/// A session that pushes entries into a submission ring. It moves a tail of
/// its own; the kernel sees nothing of it before the session updates.
#[derive(Debug)]
pub struct Submitter<'s, S, M> {
    pub head: u32,
    pub tail: u32,
    pub queue: &'s mut SubmissionQueue<S, M>,
}

impl<'s, S, M> View for Submitter<'s, S, M> {
    type V = SubmitterView<S>;

    open spec fn view(&self) -> SubmitterView<S> {
        SubmitterView { head: self.head, tail: self.tail, queue: (*self.queue)@ }
    }
}

impl<'s, S, M> Submitter<'s, S, M> where S: SubmissionEntry, M: Mode {
    /// Pushes one slot's worth. A full ring hands the entry back and nothing
    /// changes.
    pub fn push_impl(&mut self, sqe: S) -> (res: Result<(), S>)
        requires
            old(self)@.wf(),
        ensures
            final(self)@ == old(self)@.try_push(sqe).0,
            res.is_ok() == old(self)@.try_push(sqe).1,
            res is Err ==> res == Err::<(), S>(sqe),
            final(self)@.wf(),
            *final(final(self).queue) == *final(old(self).queue),
    {
        if self.is_full() {
            return Err(sqe);
        }
        self.queue.set_sqe(self.tail, sqe);
        self.tail = self.tail.wrapping_add(1);
        Ok(())
    }

    /// Tests whether the session is sound: its ring is, and its cursors lie
    /// around the ring's within one round.
    pub fn is_wf(&self) -> (sound: bool)
        ensures
            sound == self@.wf(),
    {
        if !self.queue.is_wf() {
            return false;
        }
        let behind = self.queue.khead.wrapping_sub(self.head);
        let pending = self.queue.ktail.wrapping_sub(self.queue.khead);
        let staged = self.tail.wrapping_sub(self.queue.ktail);
        let size = self.queue.size;
        behind <= size && pending <= size - behind && staged <= size - behind - pending
    }

    /// Takes over the kernel's consumer cursor from the ring.
    #[inline]
    pub fn update_head(&mut self)
        requires
            old(self)@.wf(),
        ensures
            final(self)@ == old(self)@.update_head(),
            final(self)@.wf(),
            *final(final(self).queue) == *final(old(self).queue),
    {
        self.head = self.queue.head();
    }

    /// Publishes the session's tail and tells how the store must reach the
    /// kernel. Entries pushed before this are visible to the kernel only
    /// after it.
    #[inline]
    pub fn update_tail(&mut self) -> (how: Store)
        requires
            old(self)@.wf(),
        ensures
            final(self)@ == old(self)@.update_tail(),
            final(self)@.wf(),
            how == sq_tail_store(M::ty()),
            *final(final(self).queue) == *final(old(self).queue),
    {
        self.queue.set_tail(self.tail)
    }

    /// Takes over the kernel's head, then publishes the tail.
    pub fn update(&mut self) -> (how: Store)
        requires
            old(self)@.wf(),
        ensures
            final(self)@ == old(self)@.update(),
            final(self)@.wf(),
            how == sq_tail_store(M::ty()),
            *final(final(self).queue) == *final(old(self).queue),
    {
        self.update_head();
        self.update_tail()
    }

    /// Number of slots in use as far as the session knows.
    #[inline]
    pub fn size(&self) -> (size: u32)
        ensures
            size == self@.size(),
    {
        self.tail.wrapping_sub(self.head)
    }

    #[inline]
    pub fn is_full(&self) -> (full: bool)
        ensures
            full == self@.is_full(),
    {
        self.size() == self.queue.size
    }
}

/// Pushing items of type `T` into a ring.
pub trait Submit<T> {
    /// The session can be worked with.
    spec fn ready(&self) -> bool;

    /// Pushes `item`. Where the ring has no room for it the item comes back
    /// as it went in.
    fn push(&mut self, item: T) -> (res: Result<(), T>)
        requires
            old(self).ready(),
        ensures
            final(self).ready(),
            res is Err ==> res == Err::<(), T>(item),
    ;
}

// Narrow entries into a ring of narrow slots.
impl<'s, M> Submit<Sqe64> for Submitter<'s, Sqe64, M> where M: Mode {
    open spec fn ready(&self) -> bool {
        self@.wf()
    }

    fn push(&mut self, sqe: Sqe64) -> (res: Result<(), Sqe64>)
        ensures
            final(self)@ == old(self)@.try_push(sqe).0,
            res.is_ok() == old(self)@.try_push(sqe).1,
            *final(final(self).queue) == *final(old(self).queue),
    {
        self.push_impl(sqe)
    }
}

// Wide entries into a ring of wide slots.
impl<'s, M> Submit<Sqe128> for Submitter<'s, Sqe128, M> where M: Mode {
    open spec fn ready(&self) -> bool {
        self@.wf()
    }

    fn push(&mut self, sqe: Sqe128) -> (res: Result<(), Sqe128>)
        ensures
            final(self)@ == old(self)@.try_push(sqe).0,
            res.is_ok() == old(self)@.try_push(sqe).1,
            *final(final(self).queue) == *final(old(self).queue),
    {
        self.push_impl(sqe)
    }
}

// Narrow entries into a mixed ring.
impl<'s, M> Submit<Sqe64> for Submitter<'s, SqeMix, M> where M: Mode {
    open spec fn ready(&self) -> bool {
        self@.wf()
    }

    fn push(&mut self, sqe: Sqe64) -> (res: Result<(), Sqe64>)
        ensures
            final(self)@ == old(self)@.try_push(SqeMix::spec_entry(sqe.sqe)).0,
            res.is_ok() == old(self)@.try_push(SqeMix::spec_entry(sqe.sqe)).1,
            *final(final(self).queue) == *final(old(self).queue),
    {
        if self.is_full() {
            return Err(sqe);
        }
        let _ = self.push_impl(SqeMix::entry(sqe.sqe));
        Ok(())
    }
}

// Wide entries into a mixed ring.
impl<'s, M> Submit<Sqe128> for Submitter<'s, SqeMix, M> where M: Mode {
    open spec fn ready(&self) -> bool {
        self@.wf()
    }

    fn push(&mut self, sqe: Sqe128) -> (res: Result<(), Sqe128>)
        ensures
            final(self)@ == old(self)@.try_push_wide(sqe).0,
            res.is_ok() == old(self)@.try_push_wide(sqe).1,
            *final(final(self).queue) == *final(old(self).queue),
    {
        proof {
            lemma_pow2_bound(self.queue.size);
            lemma_slot_step(self.tail, self.queue.size, self.queue.mask);
        }
        // a wide entry takes two slots
        if self.size() + 2 > self.queue.size {
            return Err(sqe);
        }
        // and must not run over the end of the array
        if self.tail.wrapping_add(1) & self.queue.mask == 0 {
            if self.size() + 3 > self.queue.size {
                return Err(sqe);
            }
            // there is room: it was just tested
            let _ = self.push_impl(SqeMix::padding());
        }
        let _ = self.push_impl(SqeMix::entry(sqe.sqe));
        let _ = self.push_impl(SqeMix::extra(sqe.extra_data));
        Ok(())
    }
}

// Operations into a ring of the slots they are submitted as.
impl<'s, T, S, M> Submit<T> for Submitter<'s, S, M> where
    S: SubmissionEntry + crate::uringio::operator::private::Sealed,
    M: Mode,
    T: Op<Entry = S>,
 {
    open spec fn ready(&self) -> bool {
        self@.wf()
    }

    fn push(&mut self, op: T) -> (res: Result<(), T>)
        ensures
            final(self)@ == old(self)@.try_push(op.spec_entry()).0,
            res.is_ok() == old(self)@.try_push(op.spec_entry()).1,
            *final(final(self).queue) == *final(old(self).queue),
    {
        if self.is_full() {
            return Err(op);
        }
        let _ = self.push_impl(op.into_entry());
        Ok(())
    }
}

} // verus!
