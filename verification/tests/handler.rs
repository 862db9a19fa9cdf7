use uringio::platform::iouring::{
    IoUringParams, IoUringRsrcUpdate, IoUringSqe, IORING_FEAT_NODROP, IORING_FEAT_REG_REG_RING,
    IORING_SQ_CQ_OVERFLOW, IORING_SQ_NEED_WAKEUP,
};
use std::sync::atomic::{AtomicU32, Ordering};

use uringio::shared::access::{Load, Store};
use uringio::shared::error::Error;
use uringio::uringio::completion::entry::{CompletionEntry, Cqe16};
use uringio::uringio::completion::queue::CompletionQueue;
use uringio::uringio::mmap_arena::{Mmap, MmapArena};
use uringio::uringio::operator::fd::{FixFd, OpFd};
use uringio::uringio::register::args::RegisterRingFd;
use uringio::uringio::submission::entry::Sqe64;
use uringio::uringio::submission::index::SubmissionIndex;
use uringio::uringio::submission::queue::SubmissionQueue;
use uringio::uringio::submission::submitter::Submit;
use uringio::uringio::uring::desc::{Release, RingDesc};
use uringio::uringio::uring::enter::{returned, EnterArgs, RegisterCall, Submission, UringHandler};
use uringio::uringio::uring::mode::{Iopoll, Sqpoll};

fn params(features: u32) -> IoUringParams {
    let mut p = IoUringParams::zeroed();
    p.sq_entries = 8;
    p.cq_entries = 16;
    p.features = features;
    p.sq_off.array = 64;
    p.cq_off.cqes = 64;
    p
}

fn entry(user_data: u64) -> Sqe64 {
    let mut sqe = IoUringSqe::zeroed();
    sqe.user_data = user_data;
    Sqe64::new(sqe)
}

#[test]
fn handler_starts_unregistered() {
    let p = params(IORING_FEAT_NODROP | IORING_FEAT_REG_REG_RING);
    let h: UringHandler<Sqe64, Cqe16, Iopoll> = UringHandler::new(6, &p);
    assert_eq!(h.enter_fd, 6);
    assert_eq!(h.enter_flags, 0);
    assert_eq!(*h.features(), IORING_FEAT_NODROP | IORING_FEAT_REG_REG_RING);
    assert!(!h.is_ring_registered());
    assert_eq!(h.unregister_ring_fd(), None);
}

#[test]
fn enter_joins_the_flags() {
    let p = params(IORING_FEAT_NODROP);
    let mut h: UringHandler<Sqe64, Cqe16, Iopoll> = UringHandler::new(6, &p);
    assert_eq!(h.enter(3, 1, 0x4), EnterArgs { fd: 6, to_submit: 3, min_complete: 1, flags: 0x4 });
    assert_eq!(h.get_events(), EnterArgs { fd: 6, to_submit: 0, min_complete: 0, flags: 0x1 });
    h.enter_flags = 0x10;
    assert_eq!(h.enter(3, 1, 0x4), EnterArgs { fd: 6, to_submit: 3, min_complete: 1, flags: 0x14 });
    assert_eq!(h.get_events(), EnterArgs { fd: 6, to_submit: 0, min_complete: 0, flags: 0x11 });
}

#[test]
fn results_pass_through() {
    assert_eq!(returned(Ok(3)), Ok(3));
    assert_eq!(returned(Ok(0)), Ok(0));
    assert_eq!(returned(Err(16)), Err(Error::Os(16)));
    assert_eq!(returned(Err(-4)), Err(Error::Os(-4)));
}

#[test]
fn register_is_refused_without_the_feature() {
    let p = params(IORING_FEAT_NODROP);
    let h: UringHandler<Sqe64, Cqe16, Iopoll> = UringHandler::new(6, &p);
    assert_eq!(h.register_ring_fd(), Err(Error::RequireRegRing));
}

#[test]
fn register_then_enter_through_the_table() {
    let p = params(IORING_FEAT_NODROP | IORING_FEAT_REG_REG_RING);
    let mut h: UringHandler<Sqe64, Cqe16, Iopoll> = UringHandler::new(6, &p);
    let call = h.register_ring_fd().unwrap();
    assert_eq!(
        call,
        RegisterCall {
            fd: 6,
            opcode: 20,
            arg: IoUringRsrcUpdate { offset: u32::MAX, data: 6 },
            nr_args: 1,
        }
    );
    assert_eq!(h.ring_fd_registered(Ok(1), 2), Ok(()));
    assert!(h.is_ring_registered());
    assert_eq!(h.enter_fd, 2);
    assert_eq!(h.enter_flags, 0x10);
    assert_eq!(h.get_events(), EnterArgs { fd: 2, to_submit: 0, min_complete: 0, flags: 0x11 });
    assert_eq!(h.register_ring_fd(), Err(Error::RingRegistered));
    assert_eq!(
        h.unregister_ring_fd(),
        Some(RegisterCall {
            fd: 2,
            opcode: 21,
            arg: IoUringRsrcUpdate { offset: 2, data: 0 },
            nr_args: 0,
        })
    );
}

#[test]
fn failed_registration_changes_nothing() {
    let p = params(IORING_FEAT_NODROP | IORING_FEAT_REG_REG_RING);
    let mut h: UringHandler<Sqe64, Cqe16, Sqpoll> = UringHandler::new(6, &p);
    assert_eq!(h.ring_fd_registered(Err(22), 0), Err(Error::Os(22)));
    assert_eq!((h.enter_fd, h.enter_flags), (6, 0));
    assert_eq!(h.ring_fd_registered(Ok(0), 3), Err(Error::RegisterFailed));
    assert_eq!((h.enter_fd, h.enter_flags), (6, 0));
    assert_eq!(h.ring_fd_registered(Ok(2), 3), Err(Error::RegisterFailed));
    assert_eq!((h.enter_fd, h.enter_flags), (6, 0));
    assert!(!h.is_ring_registered());
}

#[test]
fn register_blocks() {
    assert_eq!(IoUringRsrcUpdate::new(4), IoUringRsrcUpdate { offset: u32::MAX, data: 4 });
    assert_eq!(
        IoUringRsrcUpdate::new(-1),
        IoUringRsrcUpdate { offset: u32::MAX, data: u64::MAX }
    );
    assert_eq!(IoUringRsrcUpdate::unregister(9), IoUringRsrcUpdate { offset: 9, data: 0 });
}

#[test]
fn iopoll_submit_enters_to_reap() {
    let p = params(IORING_FEAT_NODROP);
    let mut sq: SubmissionQueue<Sqe64, Iopoll> = SubmissionQueue::new(&p);
    let mut h: UringHandler<Sqe64, Cqe16, Iopoll> = UringHandler::new(6, &p);
    let mut s = sq.submitter();
    s.push(entry(1)).unwrap();
    s.push(entry(2)).unwrap();
    s.update();
    assert_eq!(
        h.submit(&mut s, 1),
        EnterArgs { fd: 6, to_submit: 2, min_complete: 1, flags: 0x1 }
    );
    assert_eq!(
        h.submit(&mut s, 0),
        EnterArgs { fd: 6, to_submit: 2, min_complete: 0, flags: 0x1 }
    );
}

#[test]
fn sqpoll_submit_enters_only_when_needed() {
    let p = params(IORING_FEAT_NODROP);
    let mut sq: SubmissionQueue<Sqe64, Sqpoll> = SubmissionQueue::new(&p);
    let mut h: UringHandler<Sqe64, Cqe16, Sqpoll> = UringHandler::new(6, &p);
    assert_eq!(h.sq_wait(), EnterArgs { fd: 6, to_submit: 0, min_complete: 0, flags: 0x4 });
    {
        let mut s = sq.submitter();
        s.push(entry(1)).unwrap();
        s.update();
        // the thread is awake and nobody waits
        assert_eq!(h.submit(&mut s, 0), Submission::Submitted(1));
        // somebody waits
        assert_eq!(
            h.submit(&mut s, 2),
            Submission::Enter(EnterArgs { fd: 6, to_submit: 1, min_complete: 2, flags: 0x1 })
        );
    }
    sq.observe(0, IORING_SQ_NEED_WAKEUP, 0).unwrap();
    {
        let mut s = sq.submitter();
        assert_eq!(
            h.submit(&mut s, 0),
            Submission::Enter(EnterArgs { fd: 6, to_submit: 1, min_complete: 0, flags: 0x2 })
        );
        assert_eq!(
            h.submit(&mut s, 1),
            Submission::Enter(EnterArgs { fd: 6, to_submit: 1, min_complete: 1, flags: 0x3 })
        );
    }
    sq.observe(0, IORING_SQ_CQ_OVERFLOW, 0).unwrap();
    {
        let mut s = sq.submitter();
        assert_eq!(
            h.submit(&mut s, 0),
            Submission::Enter(EnterArgs { fd: 6, to_submit: 1, min_complete: 0, flags: 0x1 })
        );
    }
    sq.observe(0, IORING_SQ_CQ_OVERFLOW | IORING_SQ_NEED_WAKEUP, 0).unwrap();
    h.enter_flags = 0x10;
    {
        let mut s = sq.submitter();
        assert_eq!(
            h.submit(&mut s, 0),
            Submission::Enter(EnterArgs { fd: 6, to_submit: 1, min_complete: 0, flags: 0x13 })
        );
    }
}

#[test]
fn release_unmaps_before_it_closes() {
    let p = params(IORING_FEAT_NODROP);
    let arena: MmapArena<Sqe64, Cqe16> = MmapArena::new(&p);
    let mut desc: RingDesc<Sqe64, Cqe16, Iopoll> = RingDesc::new(4, arena);
    assert_eq!(desc.enter_flags, 0);
    assert_eq!(
        desc.get_events(),
        EnterArgs { fd: 4, to_submit: 0, min_complete: 0, flags: 0x1 }
    );
    assert_eq!(
        desc.release(),
        vec![
            Release::Unmap(Mmap { offset: 0, len: 64 + 32 }),
            Release::Unmap(Mmap { offset: 0x1000_0000, len: 512 }),
            Release::Unmap(Mmap { offset: 0x800_0000, len: 64 + 256 }),
            Release::Close(4),
        ]
    );
    // a registered descriptor is not closed here
    desc.enter_flags = 0x10;
    assert_eq!(
        desc.release(),
        vec![
            Release::Unmap(Mmap { offset: 0, len: 96 }),
            Release::Unmap(Mmap { offset: 0x1000_0000, len: 512 }),
            Release::Unmap(Mmap { offset: 0x800_0000, len: 320 }),
        ]
    );
    assert_eq!(
        desc.get_events(),
        EnterArgs { fd: 4, to_submit: 0, min_complete: 0, flags: 0x11 }
    );
}

#[test]
fn release_with_one_ring_region() {
    let p = params(IORING_FEAT_NODROP | 0x1);
    let arena: MmapArena<Sqe64, Cqe16> = MmapArena::new(&p);
    let desc: RingDesc<Sqe64, Cqe16, Iopoll> = RingDesc::new(4, arena);
    assert_eq!(
        desc.release(),
        vec![
            Release::Unmap(Mmap { offset: 0, len: 320 }),
            Release::Unmap(Mmap { offset: 0x1000_0000, len: 512 }),
            Release::Close(4),
        ]
    );
}

#[test]
fn files_of_operations() {
    assert_eq!(FixFd::from(7usize).raw_fd(), 7);
    assert_eq!(FixFd::from(7usize).idx, 7);
    assert_eq!(<FixFd as OpFd>::SQE_FLAG, 0x1);
    assert_eq!(<FixFd as OpFd>::NOP_FLAG, 0x6);
    assert_eq!(12i32.raw_fd(), 12);
    assert_eq!(<i32 as OpFd>::SQE_FLAG, 0);
    assert_eq!(<i32 as OpFd>::NOP_FLAG, 0x2);
}

#[test]
fn words_are_read_and_written() {
    let word = AtomicU32::new(5);
    assert_eq!(Load::Relaxed.load(&word), 5);
    assert_eq!(Load::Acquire.load(&word), 5);
    Store::Plain.store(&word, 6);
    assert_eq!(word.load(Ordering::SeqCst), 6);
    assert_eq!(Load::Acquire.load(&word), 6);
    Store::Release.store(&word, 7);
    assert_eq!(word.load(Ordering::SeqCst), 7);
    assert_eq!(Load::Relaxed.load(&word), 7);
}

#[test]
fn submission_ring_follows_its_words() {
    let p = params(IORING_FEAT_NODROP);
    let khead = AtomicU32::new(0);
    let ktail = AtomicU32::new(0);
    let flags = AtomicU32::new(0);
    let dropped = AtomicU32::new(0);
    let mut sq: SubmissionQueue<Sqe64, Sqpoll> = SubmissionQueue::new(&p);
    {
        let mut s = sq.submitter();
        s.push(entry(1)).unwrap();
        s.push(entry(2)).unwrap();
        s.update();
    }
    assert_eq!(ktail.load(Ordering::SeqCst), 0);
    sq.publish(&ktail);
    assert_eq!(ktail.load(Ordering::SeqCst), 2);

    // the kernel takes one entry and goes to sleep
    khead.store(1, Ordering::SeqCst);
    flags.store(IORING_SQ_NEED_WAKEUP, Ordering::SeqCst);
    dropped.store(3, Ordering::SeqCst);
    assert_eq!(sq.pull(&khead, &flags, &dropped), Ok(()));
    assert_eq!((sq.head(), sq.flags(), sq.dropped()), (1, IORING_SQ_NEED_WAKEUP, 3));

    // a head beyond the tail is refused, and nothing of it is taken over
    khead.store(9, Ordering::SeqCst);
    flags.store(0, Ordering::SeqCst);
    assert_eq!(sq.pull(&khead, &flags, &dropped), Err(Error::Protocol));
    assert_eq!((sq.head(), sq.flags(), sq.dropped()), (1, IORING_SQ_NEED_WAKEUP, 3));

    let mut quiet: SubmissionQueue<Sqe64, Iopoll> = SubmissionQueue::new(&p);
    quiet.set_tail(4);
    quiet.publish(&ktail);
    assert_eq!(ktail.load(Ordering::SeqCst), 4);
}

#[test]
fn completion_ring_follows_its_words() {
    let p = params(IORING_FEAT_NODROP);
    let k_head = AtomicU32::new(0);
    let k_tail = AtomicU32::new(2);
    let k_flags = AtomicU32::new(1);
    let k_overflow = AtomicU32::new(4);
    let mut cq: CompletionQueue<Cqe16, Iopoll> = CompletionQueue::new(&p);
    assert_eq!(cq.pull_tail(&k_tail), 2);
    cq.pull(&k_flags, &k_overflow);
    assert_eq!((cq.flags(), cq.overflow()), (1, 4));
    assert_eq!((cq.head(), cq.tail()), (0, 0));
    cq.post(Cqe16::zeroed()).unwrap();
    cq.set_head(1);
    cq.publish(&k_head);
    assert_eq!(k_head.load(Ordering::SeqCst), 1);
}

#[test]
fn wakeup_flags_come_from_the_word() {
    let p = params(IORING_FEAT_NODROP);
    let h: UringHandler<Sqe64, Cqe16, Sqpoll> = UringHandler::new(6, &p);
    let word = AtomicU32::new(IORING_SQ_NEED_WAKEUP | IORING_SQ_CQ_OVERFLOW);
    let flags = h.wakeup_flags(&word);
    assert_eq!(flags, 0x3);
    assert_eq!(
        h.plan(flags, 2, 0),
        Submission::Enter(EnterArgs { fd: 6, to_submit: 2, min_complete: 0, flags: 0x3 })
    );
    word.store(0, Ordering::SeqCst);
    assert_eq!(h.plan(h.wakeup_flags(&word), 2, 0), Submission::Submitted(2));
    assert_eq!(
        h.plan(h.wakeup_flags(&word), 0, 1),
        Submission::Enter(EnterArgs { fd: 6, to_submit: 0, min_complete: 1, flags: 0x1 })
    );
}

#[test]
fn index_array_is_written_out() {
    let p = params(IORING_FEAT_NODROP);
    let index = SubmissionIndex::setup(&p);
    let words: Vec<AtomicU32> = (0..8).map(|_| AtomicU32::new(99)).collect();
    index.publish(&words);
    let seen: Vec<u32> = words.iter().map(|w| w.load(Ordering::SeqCst)).collect();
    assert_eq!(seen, vec![0, 1, 2, 3, 4, 5, 6, 7]);

    // as far as both reach
    let short: Vec<AtomicU32> = (0..3).map(|_| AtomicU32::new(99)).collect();
    index.publish(&short);
    let seen: Vec<u32> = short.iter().map(|w| w.load(Ordering::SeqCst)).collect();
    assert_eq!(seen, vec![0, 1, 2]);
    let long: Vec<AtomicU32> = (0..10).map(|_| AtomicU32::new(99)).collect();
    index.publish(&long);
    let seen: Vec<u32> = long.iter().map(|w| w.load(Ordering::SeqCst)).collect();
    assert_eq!(seen, vec![0, 1, 2, 3, 4, 5, 6, 7, 99, 99]);
}
