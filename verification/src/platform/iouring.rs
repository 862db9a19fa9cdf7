use vstd::prelude::*;

verus! {

/// A file descriptor number, or an index into a registered table.
pub type RawFd = i32;

/// `IORING_SETUP_*` bits of [`IoUringParams::flags`].
pub type IoUringSetupFlags = u32;

/// `IORING_FEAT_*` bits of [`IoUringParams::features`].
pub type IoUringFeatureFlags = u32;

/// `IORING_ENTER_*` bits handed to ring-enter.
pub type IoUringEnterFlags = u32;

/// `IORING_SQ_*` bits of the submission ring's flags word.
pub type IoUringSqFlags = u32;

/// `IORING_CQ_*` bits of the completion ring's flags word.
pub type IoUringCqFlags = u32;

/// `IOSQE_*` bits of a submission entry.
pub type IoUringSqeFlags = u8;

/// `IORING_CQE_F_*` bits of a completion entry.
pub type IoUringCqeFlags = u32;

/// Operation code of a submission entry.
pub type IoUringOp = u8;

pub const IORING_SETUP_IOPOLL: IoUringSetupFlags = 0x1;

pub const IORING_SETUP_SQPOLL: IoUringSetupFlags = 0x2;

pub const IORING_SETUP_SQ_AFF: IoUringSetupFlags = 0x4;

pub const IORING_SETUP_CQSIZE: IoUringSetupFlags = 0x8;

pub const IORING_SETUP_CLAMP: IoUringSetupFlags = 0x10;

pub const IORING_SETUP_ATTACH_WQ: IoUringSetupFlags = 0x20;

pub const IORING_SETUP_R_DISABLED: IoUringSetupFlags = 0x40;

pub const IORING_SETUP_SUBMIT_ALL: IoUringSetupFlags = 0x80;

pub const IORING_SETUP_COOP_TASKRUN: IoUringSetupFlags = 0x100;

pub const IORING_SETUP_TASKRUN_FLAG: IoUringSetupFlags = 0x200;

pub const IORING_SETUP_SQE128: IoUringSetupFlags = 0x400;

pub const IORING_SETUP_CQE32: IoUringSetupFlags = 0x800;

pub const IORING_SETUP_SINGLE_ISSUER: IoUringSetupFlags = 0x1000;

pub const IORING_SETUP_DEFER_TASKRUN: IoUringSetupFlags = 0x2000;

pub const IORING_SETUP_NO_MMAP: IoUringSetupFlags = 0x4000;

pub const IORING_SETUP_REGISTERED_FD_ONLY: IoUringSetupFlags = 0x8000;

pub const IORING_SETUP_NO_SQARRAY: IoUringSetupFlags = 0x1_0000;

pub const IORING_SETUP_HYBRID_IOPOLL: IoUringSetupFlags = 0x2_0000;

pub const IORING_SETUP_CQE_MIXED: IoUringSetupFlags = 0x4_0000;

pub const IORING_SETUP_SQE_MIXED: IoUringSetupFlags = 0x8_0000;

pub const IORING_FEAT_SINGLE_MMAP: IoUringFeatureFlags = 0x1;

pub const IORING_FEAT_NODROP: IoUringFeatureFlags = 0x2;

pub const IORING_FEAT_REG_REG_RING: IoUringFeatureFlags = 0x2000;

pub const IORING_ENTER_GETEVENTS: IoUringEnterFlags = 0x1;

pub const IORING_ENTER_SQ_WAKEUP: IoUringEnterFlags = 0x2;

pub const IORING_ENTER_SQ_WAIT: IoUringEnterFlags = 0x4;

pub const IORING_ENTER_REGISTERED_RING: IoUringEnterFlags = 0x10;

pub const IORING_SQ_NEED_WAKEUP: IoUringSqFlags = 0x1;

pub const IORING_SQ_CQ_OVERFLOW: IoUringSqFlags = 0x2;

pub const IORING_CQ_EVENTFD_DISABLED: IoUringCqFlags = 0x1;

pub const IOSQE_FIXED_FILE: IoUringSqeFlags = 0x1;

pub const IOSQE_CQE_SKIP_SUCCESS: IoUringSqeFlags = 0x40;

pub const IORING_CQE_F_32: IoUringCqeFlags = 0x8000;

pub const IORING_NOP_NONE: u32 = 0x0;

pub const IORING_NOP_FILE: u32 = 0x2;

pub const IORING_NOP_FIXED_FILE: u32 = 0x4;

pub const IORING_NOP_FIXED_BUFFER: u32 = 0x8;

pub const IORING_NOP_TW: u32 = 0x10;

pub const IORING_NOP_CQE32: u32 = 0x20;

pub const IORING_OP_NOP: IoUringOp = 0;

pub const IORING_OP_NOP128: IoUringOp = 63;

pub const IORING_OP_URING_CMD128: IoUringOp = 64;

/// File offset at which the submission ring is mapped.
pub const IOURING_OFF_SQ_RING: u64 = 0x0;

/// File offset at which the completion ring is mapped.
pub const IOURING_OFF_CQ_RING: u64 = 0x800_0000;

/// File offset at which the submission entry array is mapped.
pub const IOURING_OFF_SQES: u64 = 0x1000_0000;

/// `IORING_REGISTER_RING_FDS`
pub const IORING_REGISTER_RING_FDS: u8 = 20;

/// `IORING_UNREGISTER_RING_FDS`
pub const IORING_UNREGISTER_RING_FDS: u8 = 21;

/// Every bit of `flag` is set in `bits`.
pub open spec fn has_flags(bits: u32, flag: u32) -> bool {
    bits & flag == flag
}

/// Tests whether every bit of `flag` is set in `bits`.
pub fn contains(bits: u32, flag: u32) -> (b: bool)
    ensures
        b == has_flags(bits, flag),
{
    bits & flag == flag
}

/// Byte offsets of the submission ring's fields within its mapping.
#[derive(Clone, Copy, Debug, PartialEq, Eq, Structural)]
pub struct IoSqringOffsets {
    pub head: u32,
    pub tail: u32,
    pub ring_mask: u32,
    pub ring_entries: u32,
    pub flags: u32,
    pub dropped: u32,
    pub array: u32,
    pub user_addr: u64,
}

/// Byte offsets of the completion ring's fields within its mapping.
#[derive(Clone, Copy, Debug, PartialEq, Eq, Structural)]
pub struct IoCqringOffsets {
    pub head: u32,
    pub tail: u32,
    pub ring_mask: u32,
    pub ring_entries: u32,
    pub overflow: u32,
    pub cqes: u32,
    pub flags: u32,
    pub user_addr: u64,
}

/// The parameters negotiated by ring setup: what the caller asked for and what
/// the kernel filled in.
#[derive(Clone, Copy, Debug, PartialEq, Eq, Structural)]
pub struct IoUringParams {
    pub sq_entries: u32,
    pub cq_entries: u32,
    pub flags: IoUringSetupFlags,
    pub sq_thread_cpu: u32,
    pub sq_thread_idle: u32,
    pub features: IoUringFeatureFlags,
    pub wq_fd: RawFd,
    pub sq_off: IoSqringOffsets,
    pub cq_off: IoCqringOffsets,
}

impl IoSqringOffsets {
    pub open spec fn spec_zeroed() -> Self {
        IoSqringOffsets {
            head: 0,
            tail: 0,
            ring_mask: 0,
            ring_entries: 0,
            flags: 0,
            dropped: 0,
            array: 0,
            user_addr: 0,
        }
    }

    /// All offsets zero, as before setup.
    pub fn zeroed() -> (off: Self)
        ensures
            off == Self::spec_zeroed(),
    {
        IoSqringOffsets {
            head: 0,
            tail: 0,
            ring_mask: 0,
            ring_entries: 0,
            flags: 0,
            dropped: 0,
            array: 0,
            user_addr: 0,
        }
    }
}

impl IoCqringOffsets {
    pub open spec fn spec_zeroed() -> Self {
        IoCqringOffsets {
            head: 0,
            tail: 0,
            ring_mask: 0,
            ring_entries: 0,
            overflow: 0,
            cqes: 0,
            flags: 0,
            user_addr: 0,
        }
    }

    /// All offsets zero, as before setup.
    pub fn zeroed() -> (off: Self)
        ensures
            off == Self::spec_zeroed(),
    {
        IoCqringOffsets {
            head: 0,
            tail: 0,
            ring_mask: 0,
            ring_entries: 0,
            overflow: 0,
            cqes: 0,
            flags: 0,
            user_addr: 0,
        }
    }
}

impl IoUringParams {
    pub open spec fn spec_zeroed() -> Self {
        IoUringParams {
            sq_entries: 0,
            cq_entries: 0,
            flags: 0,
            sq_thread_cpu: 0,
            sq_thread_idle: 0,
            features: 0,
            wq_fd: 0,
            sq_off: IoSqringOffsets::spec_zeroed(),
            cq_off: IoCqringOffsets::spec_zeroed(),
        }
    }

    /// The all-zero parameter block that a setup request starts from.
    pub fn zeroed() -> (params: Self)
        ensures
            params == Self::spec_zeroed(),
    {
        IoUringParams {
            sq_entries: 0,
            cq_entries: 0,
            flags: 0,
            sq_thread_cpu: 0,
            sq_thread_idle: 0,
            features: 0,
            wq_fd: 0,
            sq_off: IoSqringOffsets::zeroed(),
            cq_off: IoCqringOffsets::zeroed(),
        }
    }
}

/// One 64-byte submission entry, field by field. Fields that the kernel
/// overlays are held under the name of their widest member.
#[derive(Clone, Copy, Debug, PartialEq, Eq, Structural)]
pub struct IoUringSqe {
    pub opcode: IoUringOp,
    pub flags: IoUringSqeFlags,
    pub ioprio: u16,
    pub fd: RawFd,
    pub off: u64,
    pub addr: u64,
    pub len: u32,
    pub op_flags: u32,
    pub user_data: u64,
    pub buf_index: u16,
    pub personality: u16,
    pub file_index: u32,
    pub addr3: u64,
    pub pad: u64,
}

impl IoUringSqe {
    pub open spec fn spec_zeroed() -> Self {
        IoUringSqe {
            opcode: 0,
            flags: 0,
            ioprio: 0,
            fd: 0,
            off: 0,
            addr: 0,
            len: 0,
            op_flags: 0,
            user_data: 0,
            buf_index: 0,
            personality: 0,
            file_index: 0,
            addr3: 0,
            pad: 0,
        }
    }

    /// The entry whose 64 bytes are all zero.
    pub fn zeroed() -> (sqe: Self)
        ensures
            sqe == Self::spec_zeroed(),
    {
        IoUringSqe {
            opcode: 0,
            flags: 0,
            ioprio: 0,
            fd: 0,
            off: 0,
            addr: 0,
            len: 0,
            op_flags: 0,
            user_data: 0,
            buf_index: 0,
            personality: 0,
            file_index: 0,
            addr3: 0,
            pad: 0,
        }
    }

    /// Width in bytes: the sum of the field widths, in declaration order with
    /// no padding between them.
    pub open spec fn layout_size() -> nat {
        1 + 1 + 2 + 4 + 8 + 8 + 4 + 4 + 8 + 2 + 2 + 4 + 8 + 8
    }

    /// Alignment in bytes: that of the widest field.
    pub open spec fn layout_align() -> nat {
        8
    }
}

/// One 16-byte completion entry.
#[derive(Clone, Copy, Debug, PartialEq, Eq, Structural)]
pub struct IoUringCqe {
    pub user_data: u64,
    pub res: i32,
    pub flags: IoUringCqeFlags,
}

impl IoUringCqe {
    pub open spec fn spec_zeroed() -> Self {
        IoUringCqe { user_data: 0, res: 0, flags: 0 }
    }

    /// The entry whose 16 bytes are all zero.
    pub fn zeroed() -> (cqe: Self)
        ensures
            cqe == Self::spec_zeroed(),
    {
        IoUringCqe { user_data: 0, res: 0, flags: 0 }
    }

    /// Width in bytes: the sum of the field widths.
    pub open spec fn layout_size() -> nat {
        8 + 4 + 4
    }

    /// Alignment in bytes: that of the widest field.
    pub open spec fn layout_align() -> nat {
        8
    }
}

/// Argument block of a resource-update registration.
#[derive(Clone, Copy, Debug, PartialEq, Eq, Structural)]
pub struct IoUringRsrcUpdate {
    pub offset: u32,
    pub data: u64,
}

/// Protection-information attribute attached to a read or write.
#[derive(Clone, Copy, Debug, PartialEq, Eq, Structural)]
pub struct IoUringPiAttr {
    pub ptr: u64,
    pub mask: u64,
}

/// Protection information of a write.
#[derive(Clone, Copy, Debug, PartialEq, Eq, Structural)]
pub struct IoUringWritePi {
    pub flags: u16,
    pub app_tag: u16,
    pub len: u32,
    pub addr: u64,
    pub seed: u64,
    pub rsvd: u64,
}

} // verus!
