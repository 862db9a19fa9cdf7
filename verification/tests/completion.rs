use uringio::platform::iouring::{IoUringCqe, IoUringParams};
use uringio::shared::access::Store;
use uringio::uringio::completion::entry::{Cqe16, Cqe32};
use uringio::uringio::completion::queue::CompletionQueue;
use uringio::uringio::uring::mode::{Iopoll, Sqpoll};

fn params(cq_entries: u32) -> IoUringParams {
    let mut p = IoUringParams::zeroed();
    p.sq_entries = cq_entries;
    p.cq_entries = cq_entries;
    p
}

fn done(user_data: u64, res: i32) -> Cqe16 {
    Cqe16::new(IoUringCqe { user_data, res, flags: 0 })
}

#[test]
fn fresh_completion_queue_is_empty() {
    let cq: CompletionQueue<Cqe16, Iopoll> = CompletionQueue::new(&params(4));
    assert_eq!(cq.head(), 0);
    assert_eq!(cq.tail(), 0);
    assert_eq!(cq.size, 4);
    assert_eq!(cq.mask, 3);
    assert_eq!(cq.flags(), 0);
    assert_eq!(cq.overflow(), 0);
    assert_eq!(cq.cqes.len(), 4);
    assert_eq!(cq.get_cqe(2).cqe, IoUringCqe::zeroed());
}

#[test]
fn fresh_collector_is_exhausted() {
    let mut cq: CompletionQueue<Cqe16, Iopoll> = CompletionQueue::new(&params(4));
    let mut c = cq.collector();
    assert_eq!(c.size(), 0);
    assert_eq!(c.len(), 0);
    assert_eq!(c.size_hint(), (0, Some(0)));
    assert!(c.next().is_none());
    assert!(c.next().is_none());
    assert!(c.next().is_none());
    assert_eq!(c.head, 0);
    // an update that sees no new tail changes nothing
    c.update();
    assert!(c.next().is_none());
}

#[test]
fn collector_wakes_when_update_sees_a_new_tail() {
    let mut cq: CompletionQueue<Cqe16, Sqpoll> = CompletionQueue::new(&params(4));
    let mut c = cq.collector();
    assert!(c.next().is_none());
    c.queue.post(done(0x10, 1)).unwrap();
    // the kernel has posted, but the session has not looked yet
    assert!(c.next().is_none());
    assert_eq!(c.update(), Store::Release);
    assert_eq!(c.size(), 1);
    assert_eq!(c.size_hint(), (1, Some(1)));
    let got = c.next().unwrap();
    assert_eq!(got.cqe, IoUringCqe { user_data: 0x10, res: 1, flags: 0 });
    assert!(c.next().is_none());
    assert_eq!(c.head, 1);
}

#[test]
fn collector_hands_out_in_order() {
    let mut cq: CompletionQueue<Cqe16, Iopoll> = CompletionQueue::new(&params(4));
    for n in 0..3 {
        cq.post(done(n, n as i32 * 10)).unwrap();
    }
    let mut c = cq.collector();
    assert_eq!(c.len(), 3);
    assert!(!c.is_full());
    assert_eq!(c.next().unwrap().cqe.user_data, 0);
    assert_eq!(c.next().unwrap().cqe.res, 10);
    assert_eq!(c.len(), 1);
    assert_eq!(c.next().unwrap().cqe.user_data, 2);
    assert!(c.next().is_none());
    // nothing is given back before the head is published
    assert_eq!(c.queue.head(), 0);
    assert_eq!(c.update_head(), Store::Release);
    assert_eq!(c.queue.head(), 3);
}

#[test]
fn full_completion_ring_takes_no_more() {
    let mut cq: CompletionQueue<Cqe16, Iopoll> = CompletionQueue::new(&params(2));
    cq.post(done(1, 0)).unwrap();
    cq.post(done(2, 0)).unwrap();
    let back = cq.post(done(3, 0)).unwrap_err();
    assert_eq!(back.cqe.user_data, 3);
    assert_eq!(cq.tail(), 2);
    assert_eq!(cq.get_cqe(0).cqe.user_data, 1);
    {
        let mut c = cq.collector();
        assert!(c.is_full());
        assert_eq!(c.next().unwrap().cqe.user_data, 1);
        c.update();
    }
    assert_eq!(cq.head(), 1);
    cq.post(done(3, 0)).unwrap();
    assert_eq!(cq.tail(), 3);
    // cursor 2 stands on position 0 again
    assert_eq!(cq.get_cqe(2).cqe.user_data, 3);
    assert_eq!(cq.cqes[0].cqe.user_data, 3);
    assert_eq!(cq.cqes[1].cqe.user_data, 2);
}

#[test]
fn dropped_collector_publishes_its_head() {
    let mut cq: CompletionQueue<Cqe16, Iopoll> = CompletionQueue::new(&params(4));
    cq.post(done(1, 0)).unwrap();
    cq.post(done(2, 0)).unwrap();
    {
        let mut c = cq.collector();
        assert_eq!(c.next().unwrap().cqe.user_data, 1);
        assert_eq!(c.queue.head(), 0);
    }
    assert_eq!(cq.head(), 1);
    {
        let _c = cq.collector();
    }
    assert_eq!(cq.head(), 1);
    {
        let mut c = cq.collector();
        assert_eq!(c.next().unwrap().cqe.user_data, 2);
        assert!(c.next().is_none());
    }
    assert_eq!(cq.head(), 2);
}

#[test]
fn collector_update_twice_changes_nothing_more() {
    let mut cq: CompletionQueue<Cqe16, Iopoll> = CompletionQueue::new(&params(4));
    cq.post(done(1, 0)).unwrap();
    let mut c = cq.collector();
    c.next().unwrap();
    c.queue.post(done(2, 0)).unwrap();
    c.update();
    let first = (c.head, c.tail, c.queue.head(), c.queue.tail());
    assert_eq!(first, (1, 2, 1, 2));
    c.update();
    assert_eq!((c.head, c.tail, c.queue.head(), c.queue.tail()), first);
}

#[test]
fn set_head_and_observe_take_over_values() {
    let mut cq: CompletionQueue<Cqe32, Sqpoll> = CompletionQueue::new(&params(2));
    cq.post(Cqe32::new(IoUringCqe { user_data: 5, res: 0, flags: 0 }, [7, 8])).unwrap();
    assert_eq!(*cq.get_cqe(0).extra_data(), [7, 8]);
    assert_eq!(cq.set_head(1), Store::Release);
    assert_eq!(cq.head(), 1);
    cq.observe(1, 9);
    assert_eq!(cq.flags(), 1);
    assert_eq!(cq.overflow(), 9);
    assert_eq!(cq.head(), 1);
    assert_eq!(cq.tail(), 1);
}

#[test]
fn completion_soundness_is_told() {
    let mut cq: CompletionQueue<Cqe16, Iopoll> = CompletionQueue::new(&params(4));
    assert!(cq.is_wf());
    cq.post(done(1, 0)).unwrap();
    cq.post(done(2, 0)).unwrap();
    {
        let mut c = cq.collector();
        assert!(c.is_wf());
        c.next().unwrap();
        assert!(c.is_wf());
        // a head beyond the tail
        c.head = c.tail.wrapping_add(1);
        assert!(!c.is_wf());
        c.head = c.tail;
    }
    assert!(cq.is_wf());
    cq.k_tail = cq.k_head.wrapping_add(5);
    assert!(!cq.is_wf());
    cq.k_tail = cq.k_head;
    cq.size = 3;
    assert!(!cq.is_wf());
}
