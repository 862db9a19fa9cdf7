use std::marker::PhantomData;
use vstd::prelude::*;

use crate::platform::iouring::{
    contains, has_flags, IoUringParams, IoUringSetupFlags, RawFd, IORING_SETUP_ATTACH_WQ,
    IORING_SETUP_CLAMP, IORING_SETUP_COOP_TASKRUN, IORING_SETUP_CQSIZE,
    IORING_SETUP_DEFER_TASKRUN, IORING_SETUP_HYBRID_IOPOLL, IORING_SETUP_IOPOLL,
    IORING_SETUP_NO_MMAP, IORING_SETUP_NO_SQARRAY, IORING_SETUP_REGISTERED_FD_ONLY,
    IORING_SETUP_R_DISABLED, IORING_SETUP_SINGLE_ISSUER, IORING_SETUP_SQPOLL,
    IORING_SETUP_SQ_AFF, IORING_SETUP_SUBMIT_ALL, IORING_SETUP_TASKRUN_FLAG,
};
use crate::uringio::completion::entry::CompletionEntry;
use crate::uringio::submission::entry::SubmissionEntry;
use crate::uringio::uring::mode::Mode;

verus! {

/// What a ring is asked to be: the parameter block that goes into ring setup,
/// for entries of shape `S` and `C` and mode `M`.
#[derive(Debug)]
pub struct SetupArgs<S, C, M> {
    pub params: IoUringParams,
    pub _marker_: PhantomData<(S, C, M)>,
}

impl<S, C, M> SetupArgs<S, C, M> where S: SubmissionEntry, C: CompletionEntry, M: Mode {
    /// The flags that the three tags call for.
    pub open spec fn tag_flags() -> IoUringSetupFlags {
        crate::uringio::submission::entry::setup_flag(S::ty())
            | crate::uringio::completion::entry::setup_flag(C::ty())
            | crate::uringio::uring::mode::setup_flag(M::ty())
    }

    /// These arguments with `flag` added.
    pub open spec fn with_flag(self, flag: IoUringSetupFlags) -> Self {
        SetupArgs {
            params: IoUringParams { flags: self.params.flags | flag, ..self.params },
            _marker_: self._marker_,
        }
    }

    /// A request for a ring with `entries` submission slots, with the flags
    /// of the three tags and nothing else set.
    pub fn new(entries: u32) -> (args: Self)
        ensures
            args.params == (IoUringParams {
                flags: Self::tag_flags(),
                sq_entries: entries,
                ..IoUringParams::spec_zeroed()
            }),
    {
        proof {
            S::lemma_tag();
            C::lemma_tag();
            M::lemma_tag();
            assert(0u32 | S::SETUP_FLAG == S::SETUP_FLAG) by (bit_vector);
        }
        let mut params = IoUringParams::zeroed();
        params.flags = params.flags | S::SETUP_FLAG;
        params.flags = params.flags | C::SETUP_FLAG;
        params.flags = params.flags | M::SETUP_FLAG;
        params.sq_entries = entries;
        SetupArgs { params, _marker_: PhantomData }
    }

    /// Asks for `entries` submission slots.
    pub fn sqsize(self, entries: u32) -> (args: Self)
        ensures
            args.params == (IoUringParams { sq_entries: entries, ..self.params }),
    {
        let mut args = self;
        args.params.sq_entries = entries;
        args
    }

    /// Has the kernel poll for completions.
    pub fn iopoll(self) -> (args: Self)
        ensures
            args == self.with_flag(IORING_SETUP_IOPOLL),
    {
        let mut args = self;
        args.params.flags = args.params.flags | IORING_SETUP_IOPOLL;
        args
    }

    /// Has a kernel thread poll the submission ring; it goes to sleep after
    /// `idle` milliseconds without work.
    pub fn sqpoll(self, idle: u32) -> (args: Self)
        ensures
            args.params == (IoUringParams {
                flags: self.params.flags | IORING_SETUP_SQPOLL,
                sq_thread_idle: idle,
                ..self.params
            }),
    {
        let mut args = self;
        args.params.flags = args.params.flags | IORING_SETUP_SQPOLL;
        args.params.sq_thread_idle = idle;
        args
    }

    /// Binds the polling kernel thread to processor `cpu`.
    pub fn sqpoll_cpu(self, cpu: u32) -> (args: Self)
        ensures
            args.params == (IoUringParams {
                flags: self.params.flags | IORING_SETUP_SQ_AFF,
                sq_thread_cpu: cpu,
                ..self.params
            }),
    {
        let mut args = self;
        args.params.flags = args.params.flags | IORING_SETUP_SQ_AFF;
        args.params.sq_thread_cpu = cpu;
        args
    }

    /// Asks for `entries` completion slots.
    pub fn cqsize(self, entries: u32) -> (args: Self)
        ensures
            args.params == (IoUringParams {
                flags: self.params.flags | IORING_SETUP_CQSIZE,
                cq_entries: entries,
                ..self.params
            }),
    {
        let mut args = self;
        args.params.flags = args.params.flags | IORING_SETUP_CQSIZE;
        args.params.cq_entries = entries;
        args
    }

    /// Lets the kernel cut the ring sizes down to what it allows.
    pub fn clamp(self) -> (args: Self)
        ensures
            args == self.with_flag(IORING_SETUP_CLAMP),
    {
        let mut args = self;
        args.params.flags = args.params.flags | IORING_SETUP_CLAMP;
        args
    }

    /// Shares the worker threads of the ring behind descriptor `fd`.
    pub fn attach_wq(self, fd: RawFd) -> (args: Self)
        ensures
            args.params == (IoUringParams {
                flags: self.params.flags | IORING_SETUP_ATTACH_WQ,
                wq_fd: fd,
                ..self.params
            }),
    {
        let mut args = self;
        args.params.flags = args.params.flags | IORING_SETUP_ATTACH_WQ;
        args.params.wq_fd = fd;
        args
    }

    /// Creates the ring disabled.
    pub fn r_disabled(self) -> (args: Self)
        ensures
            args == self.with_flag(IORING_SETUP_R_DISABLED),
    {
        let mut args = self;
        args.params.flags = args.params.flags | IORING_SETUP_R_DISABLED;
        args
    }

    /// Goes on submitting after an entry failed.
    pub fn submit_all(self) -> (args: Self)
        ensures
            args == self.with_flag(IORING_SETUP_SUBMIT_ALL),
    {
        let mut args = self;
        args.params.flags = args.params.flags | IORING_SETUP_SUBMIT_ALL;
        args
    }

    /// Has completions wait for the next call into the kernel instead of
    /// interrupting the task.
    pub fn coop_taskrun(self) -> (args: Self)
        ensures
            args == self.with_flag(IORING_SETUP_COOP_TASKRUN),
    {
        let mut args = self;
        args.params.flags = args.params.flags | IORING_SETUP_COOP_TASKRUN;
        args
    }

    /// Has the kernel tell in the ring's flags word that completions wait.
    /// It goes together with [`Self::coop_taskrun`] or
    /// [`Self::defer_taskrun`].
    pub fn taskrun_flag(self) -> (args: Self)
        ensures
            args == self.with_flag(IORING_SETUP_TASKRUN_FLAG),
    {
        let mut args = self;
        args.params.flags = args.params.flags | IORING_SETUP_TASKRUN_FLAG;
        args
    }

    /// Promises that one task alone submits.
    pub fn single_issuer(self) -> (args: Self)
        ensures
            args == self.with_flag(IORING_SETUP_SINGLE_ISSUER),
    {
        let mut args = self;
        args.params.flags = args.params.flags | IORING_SETUP_SINGLE_ISSUER;
        args
    }

    /// Has completions wait until the task asks for them. It goes together
    /// with [`Self::single_issuer`].
    pub fn defer_taskrun(self) -> (args: Self)
        ensures
            args == self.with_flag(IORING_SETUP_DEFER_TASKRUN),
    {
        let mut args = self;
        args.params.flags = args.params.flags | IORING_SETUP_DEFER_TASKRUN;
        args
    }

    /// Has the application supply the ring memory.
    pub fn no_mmap(self) -> (args: Self)
        ensures
            args == self.with_flag(IORING_SETUP_NO_MMAP),
    {
        let mut args = self;
        args.params.flags = args.params.flags | IORING_SETUP_NO_MMAP;
        args
    }

    /// Has setup return a registered place instead of a descriptor. It goes
    /// together with [`Self::no_mmap`].
    pub fn registered_fd_only(self) -> (args: Self)
        ensures
            args == self.with_flag(IORING_SETUP_REGISTERED_FD_ONLY),
    {
        let mut args = self;
        args.params.flags = args.params.flags | IORING_SETUP_REGISTERED_FD_ONLY;
        args
    }

    /// Asks for a ring without an index array.
    pub fn no_sqarray(self) -> (args: Self)
        ensures
            args == self.with_flag(IORING_SETUP_NO_SQARRAY),
    {
        let mut args = self;
        args.params.flags = args.params.flags | IORING_SETUP_NO_SQARRAY;
        args
    }

    /// Has the kernel sleep a while before it polls. It goes together with
    /// [`Self::iopoll`].
    pub fn hybrid_iopoll(self) -> (args: Self)
        ensures
            args == self.with_flag(IORING_SETUP_HYBRID_IOPOLL),
    {
        let mut args = self;
        args.params.flags = args.params.flags | IORING_SETUP_HYBRID_IOPOLL;
        args
    }
}

/// Bytes that the index array of a ring with `params` takes: four for each
/// submission slot, none where the ring has no index array.
pub open spec fn sq_indices_bytes(params: IoUringParams) -> int {
    if has_flags(params.flags, IORING_SETUP_NO_SQARRAY) {
        0
    } else {
        params.sq_entries * 4
    }
}

/// Bytes of the submission ring's region: up to the index array, and the
/// array.
pub open spec fn sq_bytes(params: IoUringParams) -> int {
    params.sq_off.array + sq_indices_bytes(params)
}

/// Bytes of the submission entry array with slots of `width` bytes.
pub open spec fn sqes_bytes(params: IoUringParams, width: int) -> int {
    params.sq_entries * width
}

/// Bytes of the completion entry array with slots of `width` bytes.
pub open spec fn cqes_bytes(params: IoUringParams, width: int) -> int {
    params.cq_entries * width
}

/// Bytes of the completion ring's region: up to the entry array, and the
/// array.
pub open spec fn cq_bytes(params: IoUringParams, width: int) -> int {
    params.cq_off.cqes + cqes_bytes(params, width)
}

/// The sizes of a ring's regions, from its parameters and the widths of its
/// entries of shape `S` and `C`.
pub trait ParamsExt<S, C> {
    spec fn spec_sq_size(&self) -> int;

    spec fn spec_sq_indices_size(&self) -> int;

    spec fn spec_sqes_size(&self) -> int;

    spec fn spec_cq_size(&self) -> int;

    spec fn spec_cqes_size(&self) -> int;

    /// Bytes of the submission ring's region.
    fn sq_size(&self) -> (size: u64)
        ensures
            size == self.spec_sq_size(),
    ;

    /// Bytes of the index array.
    fn sq_indices_size(&self) -> (size: u64)
        ensures
            size == self.spec_sq_indices_size(),
    ;

    /// Bytes of the submission entry array.
    fn sqes_size(&self) -> (size: u64)
        ensures
            size == self.spec_sqes_size(),
    ;

    /// Bytes of the completion ring's region.
    fn cq_size(&self) -> (size: u64)
        ensures
            size == self.spec_cq_size(),
    ;

    /// Bytes of the completion entry array.
    fn cqes_size(&self) -> (size: u64)
        ensures
            size == self.spec_cqes_size(),
    ;
}

impl<S, C> ParamsExt<S, C> for IoUringParams where S: SubmissionEntry, C: CompletionEntry {
    open spec fn spec_sq_size(&self) -> int {
        sq_bytes(*self)
    }

    open spec fn spec_sq_indices_size(&self) -> int {
        sq_indices_bytes(*self)
    }

    open spec fn spec_sqes_size(&self) -> int {
        sqes_bytes(*self, crate::uringio::submission::entry::setup_sqe_size(S::ty()) as int)
    }

    open spec fn spec_cq_size(&self) -> int {
        cq_bytes(*self, crate::uringio::completion::entry::setup_cqe_size(C::ty()) as int)
    }

    open spec fn spec_cqes_size(&self) -> int {
        cqes_bytes(*self, crate::uringio::completion::entry::setup_cqe_size(C::ty()) as int)
    }

    fn sq_size(&self) -> (size: u64) {
        self.sq_off.array as u64 + <Self as ParamsExt<S, C>>::sq_indices_size(self)
    }

    fn sq_indices_size(&self) -> (size: u64) {
        if contains(self.flags, IORING_SETUP_NO_SQARRAY) {
            0
        } else {
            self.sq_entries as u64 * 4
        }
    }

    fn sqes_size(&self) -> (size: u64) {
        proof {
            S::lemma_tag();
            assert(self.sq_entries * S::SETUP_SQE_SIZE <= 0xffff_ffff * 128) by (nonlinear_arith)
                requires
                    self.sq_entries <= 0xffff_ffff,
                    S::SETUP_SQE_SIZE <= 128,
            ;
        }
        self.sq_entries as u64 * S::SETUP_SQE_SIZE as u64
    }

    fn cq_size(&self) -> (size: u64) {
        proof {
            let width = crate::uringio::completion::entry::setup_cqe_size(C::ty());
            assert(self.cq_entries * width <= 0xffff_ffff * 32) by (nonlinear_arith)
                requires
                    self.cq_entries <= 0xffff_ffff,
                    width <= 32,
            ;
        }
        self.cq_off.cqes as u64 + <Self as ParamsExt<S, C>>::cqes_size(self)
    }

    fn cqes_size(&self) -> (size: u64) {
        proof {
            C::lemma_tag();
            assert(self.cq_entries * C::SETUP_CQE_SIZE <= 0xffff_ffff * 32) by (nonlinear_arith)
                requires
                    self.cq_entries <= 0xffff_ffff,
                    C::SETUP_CQE_SIZE <= 32,
            ;
        }
        self.cq_entries as u64 * C::SETUP_CQE_SIZE as u64
    }
}

} // verus!
