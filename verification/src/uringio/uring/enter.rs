use core::sync::atomic::AtomicU32;
use std::marker::PhantomData;
use vstd::prelude::*;

use crate::platform::iouring::{
    contains, has_flags, IoUringEnterFlags, IoUringFeatureFlags, IoUringParams,
    IoUringRsrcUpdate, IoUringSqFlags, RawFd, IORING_ENTER_GETEVENTS,
    IORING_ENTER_REGISTERED_RING, IORING_ENTER_SQ_WAIT, IORING_ENTER_SQ_WAKEUP,
    IORING_FEAT_REG_REG_RING, IORING_REGISTER_RING_FDS, IORING_SQ_CQ_OVERFLOW,
    IORING_SQ_NEED_WAKEUP, IORING_UNREGISTER_RING_FDS,
};
use crate::shared::access::{full_fence, Load};
use crate::shared::error::Error;
use crate::uringio::register::args::RegisterRingFd;
use crate::uringio::submission::entry::SubmissionEntry;
use crate::uringio::submission::submitter::Submitter;
use crate::uringio::uring::mode::{Iopoll, Mode, Sqpoll};

verus! {

/// The arguments of one ring-enter call.
#[derive(Clone, Copy, Debug, PartialEq, Eq, Structural)]
pub struct EnterArgs {
    /// The ring's descriptor, or its place in the table of registered rings
    /// where `flags` says so.
    pub fd: RawFd,
    pub to_submit: u32,
    pub min_complete: u32,
    pub flags: IoUringEnterFlags,
}

/// The arguments of one ring-register call.
#[derive(Clone, Copy, Debug, PartialEq, Eq, Structural)]
pub struct RegisterCall {
    pub fd: RawFd,
    pub opcode: u8,
    pub arg: IoUringRsrcUpdate,
    pub nr_args: u32,
}

/// What submitting comes to.
#[derive(Clone, Copy, Debug, PartialEq, Eq, Structural)]
pub enum Submission {
    /// The kernel has to be entered with these arguments; what the call
    /// returns is the number of entries submitted.
    Enter(EnterArgs),
    /// The polling kernel thread is awake and takes the entries by itself:
    /// this many are submitted without a call.
    Submitted(u32),
}

/// What a ring-enter or ring-register call returned, as this library's result:
/// the count on success, the kernel's error number as it is on failure.
pub fn returned(res: Result<u32, i32>) -> (out: Result<u32, Error>)
    ensures
        out == match res {
            Ok(count) => Ok::<u32, Error>(count),
            Err(errno) => Err::<u32, Error>(Error::Os(errno)),
        },
{
    match res {
        Ok(count) => Ok(count),
        Err(errno) => Err(Error::Os(errno)),
    }
}

/// The flags with which a polling kernel thread is to be entered, from the
/// submission ring's flags word and the number of completions to wait for:
/// a sleeping thread is woken, and completions are reaped where the caller
/// waits for some or the kernel holds some back for want of room.
pub open spec fn sqpoll_enter_flags(
    sq_flags: IoUringSqFlags,
    min_complete: u32,
) -> IoUringEnterFlags {
    let wake: IoUringEnterFlags = if has_flags(sq_flags, IORING_SQ_NEED_WAKEUP) {
        IORING_ENTER_SQ_WAKEUP
    } else {
        0
    };
    let reap: IoUringEnterFlags = if min_complete > 0 || has_flags(
        sq_flags,
        IORING_SQ_CQ_OVERFLOW,
    ) {
        IORING_ENTER_GETEVENTS
    } else {
        0
    };
    wake | reap
}

/// How the flags word of a ring that a kernel thread polls is read behind
/// the fence that follows the publication of the tail.
pub const WAKEUP_FLAGS_LOAD: Load = Load::Relaxed;

/// What enters the kernel on behalf of a ring: the descriptor to enter
/// through, the flags that every call carries, and the kernel's features.
#[derive(Debug)]
pub struct UringHandler<S, C, M> {
    pub enter_fd: RawFd,
    pub enter_flags: IoUringEnterFlags,
    pub features: IoUringFeatureFlags,
    pub _marker_: PhantomData<(S, C, M)>,
}

impl<S, C, M> UringHandler<S, C, M> where M: Mode {
    /// A handler that enters the ring through descriptor `fd`; `params` are
    /// what setup returned for the ring.
    pub fn new(fd: RawFd, params: &IoUringParams) -> (handler: Self)
        ensures
            handler.enter_fd == fd,
            handler.enter_flags == 0,
            handler.features == params.features,
    {
        Self { enter_fd: fd, enter_flags: 0, features: params.features, _marker_: PhantomData }
    }
}

impl<S, C, M> UringHandler<S, C, M> {
    #[inline]
    pub fn features(&self) -> (features: &IoUringFeatureFlags)
        ensures
            *features == self.features,
    {
        &self.features
    }

    pub open spec fn spec_is_ring_registered(&self) -> bool {
        has_flags(self.enter_flags, IORING_ENTER_REGISTERED_RING)
    }

    /// Whether the handler enters through a place in the kernel's table of
    /// registered rings.
    #[inline]
    #[verifier::when_used_as_spec(spec_is_ring_registered)]
    pub fn is_ring_registered(&self) -> (registered: bool)
        ensures
            registered == self.spec_is_ring_registered(),
    {
        contains(self.enter_flags, IORING_ENTER_REGISTERED_RING)
    }

    /// The ring-register call that puts the handler's descriptor into the
    /// kernel's table. It is refused before any call where the kernel cannot
    /// register rings, and after that where the descriptor is registered
    /// already.
    pub fn register_ring_fd(&self) -> (call: Result<RegisterCall, Error>)
        ensures
            !has_flags(self.features, IORING_FEAT_REG_REG_RING) ==> call == Err::<
                RegisterCall,
                Error,
            >(Error::RequireRegRing),
            has_flags(self.features, IORING_FEAT_REG_REG_RING) && self.spec_is_ring_registered()
                ==> call == Err::<RegisterCall, Error>(Error::RingRegistered),
            has_flags(self.features, IORING_FEAT_REG_REG_RING) && !self.spec_is_ring_registered()
                ==> call == Ok::<RegisterCall, Error>(
                RegisterCall {
                    fd: self.enter_fd,
                    opcode: IORING_REGISTER_RING_FDS,
                    arg: IoUringRsrcUpdate::spec_new(self.enter_fd),
                    nr_args: 1,
                },
            ),
    {
        if !contains(self.features, IORING_FEAT_REG_REG_RING) {
            return Err(Error::RequireRegRing);
        }
        if self.is_ring_registered() {
            return Err(Error::RingRegistered);
        }
        let arg = IoUringRsrcUpdate::new(self.enter_fd);
        Ok(RegisterCall { fd: self.enter_fd, opcode: IORING_REGISTER_RING_FDS, arg, nr_args: 1 })
    }

    /// The handler after the call of [`Self::register_ring_fd`] returned
    /// `res` and left `offset` in the argument block.
    pub open spec fn spec_ring_fd_registered(self, res: Result<u32, i32>, offset: u32) -> Self {
        if res == Ok::<u32, i32>(1) {
            UringHandler {
                enter_fd: offset as RawFd,
                enter_flags: self.enter_flags | IORING_ENTER_REGISTERED_RING,
                ..self
            }
        } else {
            self
        }
    }

    /// Takes over what the call of [`Self::register_ring_fd`] came to: `res`
    /// is what it returned, `offset` is the place that the kernel wrote into
    /// the argument block. The kernel's error is passed on as it is; any
    /// count but one is a failure. Only after a success does the handler
    /// enter through the place in the table.
    pub fn ring_fd_registered(&mut self, res: Result<u32, i32>, offset: u32) -> (out: Result<
        (),
        Error,
    >)
        ensures
            *final(self) == old(self).spec_ring_fd_registered(res, offset),
            out == match res {
                Ok(num) => if num == 1 {
                    Ok::<(), Error>(())
                } else {
                    Err::<(), Error>(Error::RegisterFailed)
                },
                Err(errno) => Err::<(), Error>(Error::Os(errno)),
            },
    {
        match res {
            Err(errno) => Err(Error::Os(errno)),
            Ok(num) => {
                if num != 1 {
                    return Err(Error::RegisterFailed);
                }
                self.enter_fd = offset as RawFd;
                self.enter_flags = self.enter_flags | IORING_ENTER_REGISTERED_RING;
                Ok(())
            },
        }
    }

    /// The ring-register call that takes the handler's place out of the
    /// kernel's table again, or nothing where the handler holds no place.
    /// It belongs to giving up the handler; whatever the call returns is
    /// ignored.
    pub fn unregister_ring_fd(&self) -> (call: Option<RegisterCall>)
        ensures
            call == if self.spec_is_ring_registered() {
                Some(
                    RegisterCall {
                        fd: self.enter_fd,
                        opcode: IORING_UNREGISTER_RING_FDS,
                        arg: IoUringRsrcUpdate::spec_unregister(self.enter_fd as u32),
                        nr_args: 0,
                    },
                )
            } else {
                None
            },
    {
        if self.is_ring_registered() {
            let idx = self.enter_fd as u32;
            let arg = IoUringRsrcUpdate::unregister(idx);
            Some(
                RegisterCall {
                    fd: self.enter_fd,
                    opcode: IORING_UNREGISTER_RING_FDS,
                    arg,
                    nr_args: 0,
                },
            )
        } else {
            None
        }
    }

    /// The ring-enter call that submits `to_submit` entries and waits for
    /// `min_complete` completions, with the handler's own flags beside
    /// `flags`.
    #[inline]
    pub fn enter(&self, to_submit: u32, min_complete: u32, flags: IoUringEnterFlags) -> (call:
        EnterArgs)
        ensures
            call == (EnterArgs {
                fd: self.enter_fd,
                to_submit,
                min_complete,
                flags: self.enter_flags | flags,
            }),
    {
        EnterArgs { fd: self.enter_fd, to_submit, min_complete, flags: self.enter_flags | flags }
    }

    /// The ring-enter call that submits nothing and reaps what has
    /// completed.
    pub fn get_events(&self) -> (call: EnterArgs)
        ensures
            call == (EnterArgs {
                fd: self.enter_fd,
                to_submit: 0,
                min_complete: 0,
                flags: self.enter_flags | IORING_ENTER_GETEVENTS,
            }),
    {
        self.enter(0, 0, IORING_ENTER_GETEVENTS)
    }
}

impl<S, C> UringHandler<S, C, Iopoll> where S: SubmissionEntry {
    /// The ring-enter call that submits what `submitter` holds and reaps
    /// completions, waiting for `min_complete` of them. The session's tail
    /// has to be published before the call is made.
    pub fn submit(&mut self, submitter: &mut Submitter<'_, S, Iopoll>, min_complete: u32) -> (call:
        EnterArgs)
        ensures
            call == (EnterArgs {
                fd: old(self).enter_fd,
                to_submit: old(submitter)@.size(),
                min_complete,
                flags: old(self).enter_flags | IORING_ENTER_GETEVENTS,
            }),
            *final(self) == *old(self),
            *final(submitter) == *old(submitter),
    {
        self.enter(submitter.size(), min_complete, IORING_ENTER_GETEVENTS)
    }
}

impl<S, C> UringHandler<S, C, Sqpoll> where S: SubmissionEntry {
    /// The ring-enter call that waits until the submission ring has room.
    pub fn sq_wait(&self) -> (call: EnterArgs)
        ensures
            call == (EnterArgs {
                fd: self.enter_fd,
                to_submit: 0,
                min_complete: 0,
                flags: self.enter_flags | IORING_ENTER_SQ_WAIT,
            }),
    {
        self.enter(0, 0, IORING_ENTER_SQ_WAIT)
    }

    /// Reads the flags word of the submission ring from the word `sq_flags`
    /// of the mapping, behind a full fence. The tail has to be published
    /// before: the fence stands between the two, and nothing weaker is known
    /// to keep a thread that is about to sleep from missing the new tail.
    pub fn wakeup_flags(&self, sq_flags: &AtomicU32) -> IoUringSqFlags {
        full_fence();
        WAKEUP_FLAGS_LOAD.load(sq_flags)
    }

    /// What submitting `to_submit` entries comes to when the ring's flags
    /// word reads `sq_flags` and the caller waits for `min_complete`
    /// completions.
    pub open spec fn spec_plan(&self, sq_flags: IoUringSqFlags, to_submit: u32, min_complete: u32)
        -> Submission {
        if sqpoll_enter_flags(sq_flags, min_complete) == 0 {
            Submission::Submitted(to_submit)
        } else {
            Submission::Enter(
                EnterArgs {
                    fd: self.enter_fd,
                    to_submit,
                    min_complete,
                    flags: self.enter_flags | sqpoll_enter_flags(sq_flags, min_complete),
                },
            )
        }
    }

    /// Decides how `to_submit` published entries get to the polling kernel
    /// thread when the ring's flags word reads `sq_flags`. The kernel is
    /// entered only to wake the thread, to wait for completions, or to have
    /// it hand over the completions that found no room; otherwise the
    /// entries count as submitted as they are.
    pub fn plan(&self, sq_flags: IoUringSqFlags, to_submit: u32, min_complete: u32) -> (plan:
        Submission)
        ensures
            plan == self.spec_plan(sq_flags, to_submit, min_complete),
    {
        let mut flags: IoUringEnterFlags = 0;
        if contains(sq_flags, IORING_SQ_NEED_WAKEUP) {
            flags = flags | IORING_ENTER_SQ_WAKEUP;
        }
        if min_complete > 0 || contains(sq_flags, IORING_SQ_CQ_OVERFLOW) {
            // reaping makes the kernel flush the completions it holds back
            flags = flags | IORING_ENTER_GETEVENTS;
        }
        proof {
            assert(0u32 | 0u32 == 0u32) by (bit_vector);
            assert(0u32 | 1u32 == 1u32) by (bit_vector);
            assert(0u32 | 2u32 == 2u32) by (bit_vector);
            assert(2u32 | 1u32 == 3u32) by (bit_vector);
            assert(2u32 | 0u32 == 2u32) by (bit_vector);
        }
        if flags == 0 {
            Submission::Submitted(to_submit)
        } else {
            Submission::Enter(self.enter(to_submit, min_complete, flags))
        }
    }

    /// Decides how what `submitter` holds gets to the polling kernel thread,
    /// as [`Self::plan`] does, from the flags word as the ring's image has
    /// it. The word must have been observed as [`Self::wakeup_flags`] reads
    /// it.
    pub fn submit(&mut self, submitter: &mut Submitter<'_, S, Sqpoll>, min_complete: u32) -> (plan:
        Submission)
        ensures
            plan == old(self).spec_plan(
                old(submitter)@.queue.flags,
                old(submitter)@.size(),
                min_complete,
            ),
            *final(self) == *old(self),
            *final(submitter) == *old(submitter),
    {
        self.plan(submitter.queue.flags, submitter.size(), min_complete)
    }
}

} // verus!
