use uringio::platform::iouring::{
    IoUringParams, IoUringSqe, IORING_OP_NOP128, IORING_SETUP_NO_SQARRAY,
};
use uringio::shared::access::Store;
use uringio::shared::cursor::{is_capacity, MAX_CAPACITY};
use uringio::shared::error::Error;
use uringio::uringio::operator::nop::Nop128;
use uringio::uringio::operator::Op;
use uringio::uringio::submission::entry::{MixCell, Sqe128, Sqe64, SqeMix};
use uringio::uringio::submission::index::SubmissionIndex;
use uringio::uringio::submission::queue::SubmissionQueue;
use uringio::uringio::submission::submitter::Submit;
use uringio::uringio::uring::mode::{Iopoll, Sqpoll};

fn params(sq_entries: u32) -> IoUringParams {
    let mut p = IoUringParams::zeroed();
    p.sq_entries = sq_entries;
    p.cq_entries = sq_entries * 2;
    p
}

fn tagged(user_data: u64) -> Sqe64 {
    let mut sqe = IoUringSqe::zeroed();
    sqe.user_data = user_data;
    sqe.fd = 3;
    Sqe64::new(sqe)
}

fn wide(user_data: u64) -> Sqe128 {
    let mut sqe = IoUringSqe::zeroed();
    sqe.opcode = IORING_OP_NOP128;
    sqe.user_data = user_data;
    let mut entry = Sqe128::new(sqe);
    entry.extra_data[0] = 0xee;
    entry.extra_data[63] = 0x11;
    entry
}

#[test]
fn capacities_are_powers_of_two() {
    assert!(is_capacity(1));
    assert!(is_capacity(2));
    assert!(is_capacity(128));
    assert!(is_capacity(MAX_CAPACITY));
    assert!(!is_capacity(0));
    assert!(!is_capacity(3));
    assert!(!is_capacity(96));
    assert!(!is_capacity(u32::MAX));
}

#[test]
fn fresh_queue_is_empty_and_zeroed() {
    let sq: SubmissionQueue<Sqe64, Iopoll> = SubmissionQueue::new(&params(8));
    assert_eq!(sq.head(), 0);
    assert_eq!(sq.tail(), 0);
    assert_eq!(sq.size(), 8);
    assert_eq!(sq.mask, 7);
    assert_eq!(sq.flags(), 0);
    assert_eq!(sq.dropped(), 0);
    assert_eq!(sq.sqes.len(), 8);
    for i in 0..8 {
        assert_eq!(sq.get_sqe(i).sqe, IoUringSqe::zeroed());
    }
    assert_eq!(sq.indices.indices, vec![0, 1, 2, 3, 4, 5, 6, 7]);
}

#[test]
fn index_array_is_the_identity() {
    let index = SubmissionIndex::setup(&params(4));
    assert_eq!(index.indices, vec![0, 1, 2, 3]);
    assert_eq!(&index[..], &[0u32, 1, 2, 3][..]);
    let mapped = SubmissionIndex::new(&params(4)).unwrap();
    assert_eq!(mapped.indices, vec![0, 0, 0, 0]);
}

#[test]
fn ring_without_index_array_has_none() {
    let mut p = params(4);
    p.flags |= IORING_SETUP_NO_SQARRAY;
    assert_eq!(SubmissionIndex::new(&p).unwrap_err(), Error::NoSqArray);
    assert!(SubmissionIndex::setup(&p).indices.is_empty());
    let sq: SubmissionQueue<Sqe64, Iopoll> = SubmissionQueue::new(&p);
    assert!(sq.indices.indices.is_empty());
    assert_eq!(sq.sqes.len(), 4);
}

#[test]
fn full_exactly_after_capacity_pushes() {
    let mut sq: SubmissionQueue<Sqe64, Iopoll> = SubmissionQueue::new(&params(4));
    let mut s = sq.submitter();
    for n in 1..=4u64 {
        assert!(!s.is_full());
        assert!(s.push(tagged(n)).is_ok());
        assert_eq!(s.size(), n as u32);
        assert_eq!(s.is_full(), n == 4);
    }
    let before_tail = s.tail;
    let before_head = s.head;
    let before: Vec<IoUringSqe> = s.queue.sqes.iter().map(|e| e.sqe).collect();
    let rejected = s.push(tagged(99)).unwrap_err();
    assert_eq!(rejected.sqe, tagged(99).sqe);
    assert_eq!(s.tail, before_tail);
    assert_eq!(s.head, before_head);
    assert_eq!(s.size(), 4);
    let after: Vec<IoUringSqe> = s.queue.sqes.iter().map(|e| e.sqe).collect();
    assert_eq!(before, after);
    assert_eq!(s.queue.tail(), 0);
}

#[test]
fn pushed_entry_reads_back_unchanged() {
    let mut sq: SubmissionQueue<Sqe64, Sqpoll> = SubmissionQueue::new(&params(8));
    let mut s = sq.submitter();
    let entry = tagged(0xdead_beef);
    assert!(s.push(entry).is_ok());
    assert_eq!(s.queue.get_sqe(0).sqe, entry.sqe);
    assert_eq!(s.queue.sqes[0].sqe, entry.sqe);
    assert!(s.push(tagged(2)).is_ok());
    assert_eq!(s.queue.get_sqe(1).sqe, tagged(2).sqe);
    assert_eq!(s.queue.get_sqe(0).sqe, entry.sqe);
    // a cursor one round further stands for the same slot
    assert_eq!(s.queue.get_sqe(8).sqe, entry.sqe);
}

#[test]
fn pushes_are_invisible_until_update() {
    let mut sq: SubmissionQueue<Sqe64, Sqpoll> = SubmissionQueue::new(&params(8));
    {
        let mut s = sq.submitter();
        assert!(s.push(tagged(1)).is_ok());
        assert!(s.push(tagged(2)).is_ok());
        assert_eq!(s.queue.tail(), 0);
    }
    assert_eq!(sq.tail(), 0);
    {
        let mut s = sq.submitter();
        assert_eq!(s.size(), 0);
        assert!(s.push(tagged(3)).is_ok());
        assert_eq!(s.update(), Store::Release);
        assert_eq!(s.queue.tail(), 1);
    }
    assert_eq!(sq.tail(), 1);
    assert_eq!(sq.get_sqe(0).sqe, tagged(3).sqe);
}

#[test]
fn tail_store_depends_on_mode() {
    let mut a: SubmissionQueue<Sqe64, Iopoll> = SubmissionQueue::new(&params(2));
    assert_eq!(a.set_tail(1), Store::Plain);
    assert_eq!(a.tail(), 1);
    let mut s = a.submitter();
    assert_eq!(s.update_tail(), Store::Plain);
    let mut b: SubmissionQueue<Sqe64, Sqpoll> = SubmissionQueue::new(&params(2));
    assert_eq!(b.set_tail(2), Store::Release);
    assert_eq!(b.tail(), 2);
}

#[test]
fn update_twice_changes_nothing_more() {
    let mut sq: SubmissionQueue<Sqe64, Iopoll> = SubmissionQueue::new(&params(8));
    {
        let mut s = sq.submitter();
        s.push(tagged(1)).unwrap();
        s.push(tagged(2)).unwrap();
        s.push(tagged(3)).unwrap();
        s.update();
    }
    sq.observe(2, 0, 0).unwrap();
    let mut s = sq.submitter();
    // the session starts from the head that the kernel showed
    assert_eq!(s.head, 2);
    s.push(tagged(4)).unwrap();
    s.update();
    let first = (s.head, s.tail, s.queue.head(), s.queue.tail());
    assert_eq!(first, (2, 4, 2, 4));
    s.update();
    assert_eq!((s.head, s.tail, s.queue.head(), s.queue.tail()), first);
}

#[test]
fn observe_takes_only_reachable_heads() {
    let mut sq: SubmissionQueue<Sqe64, Iopoll> = SubmissionQueue::new(&params(4));
    {
        let mut s = sq.submitter();
        s.push(tagged(1)).unwrap();
        s.push(tagged(2)).unwrap();
        s.update();
    }
    assert_eq!(sq.observe(3, 1, 0), Err(Error::Protocol));
    assert_eq!((sq.head(), sq.flags(), sq.dropped()), (0, 0, 0));
    assert_eq!(sq.observe(1, 1, 5), Ok(()));
    assert_eq!((sq.head(), sq.flags(), sq.dropped()), (1, 1, 5));
    // the kernel's head never moves back
    assert_eq!(sq.observe(0, 0, 0), Err(Error::Protocol));
    assert_eq!(sq.observe(2, 0, 5), Ok(()));
    assert_eq!(sq.head(), 2);
    assert_eq!(sq.observe(2, 2, 6), Ok(()));
    assert_eq!((sq.head(), sq.flags(), sq.dropped()), (2, 2, 6));
}

#[test]
fn cursors_wrap_around_the_counter() {
    let mut sq: SubmissionQueue<Sqe64, Iopoll> = SubmissionQueue::new(&params(4));
    sq.khead = u32::MAX - 1;
    sq.ktail = u32::MAX - 1;
    let mut s = sq.submitter();
    for n in 0..4u64 {
        assert!(s.push(tagged(n)).is_ok());
    }
    assert!(s.is_full());
    assert_eq!(s.tail, 2);
    assert_eq!(s.size(), 4);
    assert!(s.push(tagged(9)).is_err());
    s.update();
    assert_eq!(s.queue.tail(), 2);
    // cursors 0xfffffffe, 0xffffffff, 0, 1 stand on positions 2, 3, 0, 1
    assert_eq!(s.queue.sqes[2].sqe, tagged(0).sqe);
    assert_eq!(s.queue.sqes[3].sqe, tagged(1).sqe);
    assert_eq!(s.queue.sqes[0].sqe, tagged(2).sqe);
    assert_eq!(s.queue.sqes[1].sqe, tagged(3).sqe);
}

#[test]
fn wide_entry_at_the_last_slot_is_padded() {
    let capacity = 8u32;
    let mut sq: SubmissionQueue<SqeMix, Iopoll> = SubmissionQueue::new(&params(capacity));
    {
        let mut s = sq.submitter();
        for n in 0..(capacity - 1) as u64 {
            assert!(s.push(tagged(n)).is_ok());
        }
        s.update();
        assert_eq!(s.tail, capacity - 1);
    }
    // the kernel takes what was submitted, which frees the slots
    sq.observe(capacity - 1, 0, 0).unwrap();
    let mut s = sq.submitter();
    assert_eq!(s.size(), 0);
    let entry = wide(0x77);
    assert!(s.push(entry).is_ok());
    assert_eq!(s.tail, capacity - 1 + 3);
    assert_eq!(s.size(), 3);
    let pad = match SqeMix::padding().cell {
        MixCell::Entry(pad) => pad,
        MixCell::Extra(_) => unreachable!(),
    };
    assert!(matches!(s.queue.sqes[7].cell, MixCell::Entry(sqe) if sqe == pad));
    assert!(matches!(s.queue.sqes[0].cell, MixCell::Entry(sqe) if sqe == entry.sqe));
    assert!(s.queue.sqes[0].is_sqe128());
    assert!(matches!(s.queue.sqes[1].cell, MixCell::Extra(extra) if extra == entry.extra_data));
    // the slots behind are as they were
    assert!(matches!(s.queue.sqes[2].cell, MixCell::Entry(sqe) if sqe == tagged(2).sqe));
    assert!(matches!(s.queue.sqes[6].cell, MixCell::Entry(sqe) if sqe == tagged(6).sqe));
}

#[test]
fn wide_entry_inside_takes_two_slots() {
    let mut sq: SubmissionQueue<SqeMix, Iopoll> = SubmissionQueue::new(&params(8));
    let mut s = sq.submitter();
    assert!(s.push(tagged(1)).is_ok());
    let entry = wide(0x55);
    assert!(s.push(entry).is_ok());
    assert_eq!(s.tail, 3);
    assert!(matches!(s.queue.sqes[1].cell, MixCell::Entry(sqe) if sqe == entry.sqe));
    assert!(matches!(s.queue.sqes[2].cell, MixCell::Extra(extra) if extra == entry.extra_data));
    assert!(matches!(s.queue.sqes[3].cell, MixCell::Entry(sqe) if sqe == IoUringSqe::zeroed()));
}

#[test]
fn wide_entry_without_room_changes_nothing() {
    let mut sq: SubmissionQueue<SqeMix, Iopoll> = SubmissionQueue::new(&params(4));
    let mut s = sq.submitter();
    for n in 0..3u64 {
        assert!(s.push(tagged(n)).is_ok());
    }
    // one slot is free, the last one: two are needed and a filler besides
    let entry = wide(1);
    let back = s.push(entry).unwrap_err();
    assert_eq!(back.sqe, entry.sqe);
    assert_eq!(back.extra_data, entry.extra_data);
    assert_eq!(s.tail, 3);
    assert!(matches!(s.queue.sqes[3].cell, MixCell::Entry(sqe) if sqe == IoUringSqe::zeroed()));
    assert!(matches!(s.queue.sqes[0].cell, MixCell::Entry(sqe) if sqe == tagged(0).sqe));
}

#[test]
fn wide_entry_needs_three_slots_at_the_last_position() {
    let mut sq: SubmissionQueue<SqeMix, Iopoll> = SubmissionQueue::new(&params(4));
    {
        let mut s = sq.submitter();
        for n in 0..3u64 {
            assert!(s.push(tagged(n)).is_ok());
        }
        s.update();
    }
    // two slots are free, enough for the entry but not for the filler too
    sq.observe(1, 0, 0).unwrap();
    let mut s = sq.submitter();
    assert_eq!(s.size(), 2);
    assert_eq!(s.tail, 3);
    assert!(s.push(wide(1)).is_err());
    assert_eq!(s.tail, 3);
    assert!(matches!(s.queue.sqes[3].cell, MixCell::Entry(sqe) if sqe == IoUringSqe::zeroed()));
    // with one more slot free it goes in: filler, first half, second half
    s.queue.observe(2, 0, 0).unwrap();
    s.update_head();
    assert_eq!(s.size(), 1);
    assert!(s.push(wide(1)).is_ok());
    assert_eq!(s.tail, 6);
    assert!(s.is_full());
    assert!(matches!(s.queue.sqes[3].cell, MixCell::Entry(sqe) if sqe.flags == 0x40));
    assert!(matches!(s.queue.sqes[0].cell, MixCell::Entry(sqe) if sqe == wide(1).sqe));
    assert!(matches!(s.queue.sqes[1].cell, MixCell::Extra(extra) if extra == wide(1).extra_data));
    assert!(matches!(s.queue.sqes[2].cell, MixCell::Entry(sqe) if sqe == tagged(2).sqe));
}

#[test]
fn wide_ring_takes_wide_entries_whole() {
    let mut sq: SubmissionQueue<Sqe128, Sqpoll> = SubmissionQueue::new(&params(2));
    let mut s = sq.submitter();
    let entry = wide(5);
    assert!(s.push(entry).is_ok());
    assert_eq!(s.tail, 1);
    assert_eq!(s.queue.get_sqe(0).sqe, entry.sqe);
    assert_eq!(s.queue.get_sqe(0).extra_data, entry.extra_data);
    assert!(s.push(wide(6)).is_ok());
    assert!(s.is_full());
    assert!(s.push(wide(7)).is_err());
}

#[test]
fn operations_are_pushed_as_their_entries() {
    let mut sq: SubmissionQueue<Sqe64, Iopoll> = SubmissionQueue::new(&params(1));
    let mut s = sq.submitter();
    let mut nop = Nop128::new().skip_cqe();
    nop.user_data = 0x99;
    assert!(s.push(nop).is_ok());
    assert_eq!(s.queue.get_sqe(0).sqe, nop.into_entry().sqe);
    assert_eq!(s.queue.get_sqe(0).sqe.user_data, 0x99);
    let back = s.push(nop).unwrap_err();
    assert_eq!(back.user_data, 0x99);
    assert_eq!(back.flags, nop.flags);
}

#[test]
fn narrow_entries_go_into_a_mixed_ring() {
    let mut sq: SubmissionQueue<SqeMix, Iopoll> = SubmissionQueue::new(&params(1));
    let mut s = sq.submitter();
    assert!(s.push(tagged(4)).is_ok());
    assert!(matches!(s.queue.sqes[0].cell, MixCell::Entry(sqe) if sqe == tagged(4).sqe));
    let back = s.push(tagged(5)).unwrap_err();
    assert_eq!(back.sqe, tagged(5).sqe);
}

#[test]
fn soundness_is_told() {
    let mut sq: SubmissionQueue<Sqe64, Iopoll> = SubmissionQueue::new(&params(4));
    assert!(sq.is_wf());
    assert!(sq.indices.is_ready_for(4));
    assert!(!sq.indices.is_ready_for(8));
    {
        let mut s = sq.submitter();
        assert!(s.is_wf());
        s.push(tagged(1)).unwrap();
        s.push(tagged(2)).unwrap();
        assert!(s.is_wf());
        s.update();
        assert!(s.is_wf());
        // a tail further ahead than the ring is long
        s.tail = s.tail.wrapping_add(5);
        assert!(!s.is_wf());
    }
    assert!(sq.is_wf());
    sq.ktail = sq.khead.wrapping_add(5);
    assert!(!sq.is_wf());
    sq.ktail = sq.khead;
    assert!(sq.is_wf());
    sq.mask = 2;
    assert!(!sq.is_wf());
    sq.mask = 3;
    sq.indices.indices[2] = 0;
    assert!(!sq.is_wf());
    sq.indices.indices.clear();
    assert!(sq.is_wf());
    sq.sqes.pop();
    assert!(!sq.is_wf());
}
