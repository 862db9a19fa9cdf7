use vstd::prelude::*;

use crate::platform::iouring::{
    IoUringParams, IoUringSetupFlags, IORING_SETUP_CLAMP, IORING_SETUP_COOP_TASKRUN,
    IORING_SETUP_DEFER_TASKRUN, IORING_SETUP_HYBRID_IOPOLL, IORING_SETUP_IOPOLL,
    IORING_SETUP_SINGLE_ISSUER, IORING_SETUP_SQPOLL, IORING_SETUP_SUBMIT_ALL,
    IORING_SETUP_TASKRUN_FLAG,
};
use crate::shared::access::Store;
use crate::shared::constant::DEFAULT_SQ_POLL_IDLE;
use crate::shared::cursor::distance;
use crate::uringio::completion::entry::CompletionEntry;
use crate::uringio::setup_args::SetupArgs;
use crate::uringio::submission::entry::SubmissionEntry;
use crate::uringio::submission::queue::SubmissionQueue;

verus! {

/// The two ways of driving a ring.
#[derive(Clone, Copy, Debug, PartialEq, Eq, Structural)]
pub enum Ty {
    /// The kernel polls for completions; the application enters the kernel to
    /// submit and to reap.
    Iopoll,
    /// A kernel thread polls the submission ring; the application enters the
    /// kernel only to wake it or to wait.
    Sqpoll,
}

/// The setup flag that selects mode `ty`.
pub open spec fn setup_flag(ty: Ty) -> IoUringSetupFlags {
    match ty {
        Ty::Iopoll => IORING_SETUP_IOPOLL,
        Ty::Sqpoll => IORING_SETUP_SQPOLL,
    }
}

/// How the submission tail has to be published in mode `ty`. With a polling
/// kernel thread the store must order the entry writes before it; without one
/// nobody reads the tail until the application enters the kernel.
pub open spec fn sq_tail_store(ty: Ty) -> Store {
    match ty {
        Ty::Iopoll => Store::Plain,
        Ty::Sqpoll => Store::Release,
    }
}

/// A way of driving a ring. It fixes the setup flag and how the submission
/// tail reaches the kernel.
pub trait Mode: Sized {
    const TYPE: Ty;

    const SETUP_FLAG: IoUringSetupFlags;

    /// Which of the two ways this is.
    spec fn ty() -> Ty;

    /// Sets the published tail of `sq` and tells how the store must be done.
    fn set_sq_ktail<S>(sq: &mut SubmissionQueue<S, Self>, tail: u32) -> (how: Store)
        requires
            old(sq)@.wf(),
            distance(old(sq)@.khead, tail) <= old(sq)@.size,
        ensures
            final(sq)@ == old(sq)@.set_tail(tail),
            final(sq)@.wf(),
            how == sq_tail_store(Self::ty()),
    ;

    /// How the submission tail reaches the kernel in this mode.
    fn tail_store() -> (how: Store)
        ensures
            how == sq_tail_store(Self::ty()),
    ;

    /// The constants are those that the mode calls for.
    proof fn lemma_tag()
        ensures
            Self::TYPE == Self::ty(),
            Self::SETUP_FLAG == setup_flag(Self::ty()),
    ;
}

/// Kernel-polled completions.
#[derive(Debug)]
pub struct Iopoll;

impl Mode for Iopoll {
    const TYPE: Ty = Ty::Iopoll;

    const SETUP_FLAG: IoUringSetupFlags = IORING_SETUP_IOPOLL;

    open spec fn ty() -> Ty {
        Ty::Iopoll
    }

    /// Nobody reads the tail before the application enters the kernel, so
    /// an ordinary write will do.
    #[inline]
    fn set_sq_ktail<S>(sq: &mut SubmissionQueue<S, Self>, tail: u32) -> (how: Store)
        ensures
            how == Store::Plain,
    {
        sq.ktail = tail;
        Store::Plain
    }

    #[inline]
    fn tail_store() -> (how: Store) {
        Store::Plain
    }

    proof fn lemma_tag() {
    }
}

impl Iopoll {
    /// The flags that a ring with kernel-polled completions is asked for,
    /// beside those of its tags.
    pub open spec fn spec_flags() -> IoUringSetupFlags {
        IORING_SETUP_IOPOLL | IORING_SETUP_CLAMP | IORING_SETUP_SUBMIT_ALL
            | IORING_SETUP_COOP_TASKRUN | IORING_SETUP_TASKRUN_FLAG | IORING_SETUP_SINGLE_ISSUER
            | IORING_SETUP_DEFER_TASKRUN | IORING_SETUP_HYBRID_IOPOLL
    }

    /// The request for a ring with `entries` submission slots whose
    /// completions the kernel polls for.
    pub fn new_args<S, C>(entries: u32) -> (args: SetupArgs<S, C, Self>) where
        S: SubmissionEntry,
        C: CompletionEntry,

        ensures
            args.params == (IoUringParams {
                flags: SetupArgs::<S, C, Self>::tag_flags() | Self::spec_flags(),
                sq_entries: entries,
                ..IoUringParams::spec_zeroed()
            }),
    {
        let args = SetupArgs::new(entries)
            .iopoll()
            .clamp()
            .submit_all()
            .coop_taskrun()
            .taskrun_flag()
            .single_issuer()
            .defer_taskrun()
            .hybrid_iopoll();
        proof {
            let t = SetupArgs::<S, C, Self>::tag_flags();
            assert(t | 0x1u32 | 0x10u32 | 0x80u32 | 0x100u32 | 0x200u32 | 0x1000u32 | 0x2000u32
                | 0x2_0000u32 == t | (0x1u32 | 0x10u32 | 0x80u32 | 0x100u32 | 0x200u32 | 0x1000u32
                | 0x2000u32 | 0x2_0000u32)) by (bit_vector);
        }
        args
    }
}

/// Submissions polled by a kernel thread.
#[derive(Debug)]
pub struct Sqpoll;

impl Mode for Sqpoll {
    const TYPE: Ty = Ty::Sqpoll;

    const SETUP_FLAG: IoUringSetupFlags = IORING_SETUP_SQPOLL;

    open spec fn ty() -> Ty {
        Ty::Sqpoll
    }

    /// The polling thread reads the tail at any time: the store must order
    /// the entries written before it.
    #[inline]
    fn set_sq_ktail<S>(sq: &mut SubmissionQueue<S, Self>, tail: u32) -> (how: Store)
        ensures
            how == Store::Release,
    {
        sq.ktail = tail;
        Store::Release
    }

    #[inline]
    fn tail_store() -> (how: Store) {
        Store::Release
    }

    proof fn lemma_tag() {
    }
}

impl Sqpoll {
    /// The flags that a ring with a polling kernel thread is asked for,
    /// beside those of its tags.
    pub open spec fn spec_flags() -> IoUringSetupFlags {
        IORING_SETUP_SQPOLL | IORING_SETUP_CLAMP | IORING_SETUP_SUBMIT_ALL
            | IORING_SETUP_SINGLE_ISSUER
    }

    /// The request for a ring with `entries` submission slots that a kernel
    /// thread polls; the thread stays awake for [`DEFAULT_SQ_POLL_IDLE`]
    /// milliseconds without work.
    pub fn new_args<S, C>(entries: u32) -> (args: SetupArgs<S, C, Self>) where
        S: SubmissionEntry,
        C: CompletionEntry,

        ensures
            args.params == (IoUringParams {
                flags: SetupArgs::<S, C, Self>::tag_flags() | Self::spec_flags(),
                sq_entries: entries,
                sq_thread_idle: DEFAULT_SQ_POLL_IDLE,
                ..IoUringParams::spec_zeroed()
            }),
    {
        let args = SetupArgs::new(entries)
            .sqpoll(DEFAULT_SQ_POLL_IDLE)
            .clamp()
            .submit_all()
            .single_issuer();
        proof {
            let t = SetupArgs::<S, C, Self>::tag_flags();
            assert(t | 0x2u32 | 0x10u32 | 0x80u32 | 0x1000u32 == t | (0x2u32 | 0x10u32 | 0x80u32
                | 0x1000u32)) by (bit_vector);
        }
        args
    }
}

} // verus!
