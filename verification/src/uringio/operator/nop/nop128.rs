use vstd::prelude::*;

use crate::platform::iouring::{
    IoUringOp, IoUringSqe, IoUringSqeFlags, RawFd, IORING_NOP_CQE32, IORING_NOP_FIXED_BUFFER,
    IORING_NOP_NONE, IORING_NOP_TW, IORING_OP_NOP128, IOSQE_CQE_SKIP_SUCCESS,
};
use crate::uringio::operator::fd::OpFd;
use crate::uringio::operator::Op;
use crate::uringio::submission::entry::Sqe64;

verus! {

/// The no-op. Its fields stand in the order and at the widths in which the entry
/// holds them; what lies between and behind them is unused and zero.
#[derive(Debug, Clone, Copy)]
pub struct Nop128 {
    pub opcode: IoUringOp,
    pub flags: IoUringSqeFlags,
    pub fd: RawFd,
    pub ext_data1: u64,
    pub ext_data2: u64,
    pub len: u32,
    pub nop_flags: u32,
    pub user_data: u64,
    pub buf_index: u16,
}

impl Op for Nop128 {
    type Entry = Sqe64;

    const OP_CODE: IoUringOp = IORING_OP_NOP128;

    open spec fn op_code() -> IoUringOp {
        IORING_OP_NOP128
    }

    /// The fields, with 2 unused bytes after the flags and 2, 4 and 16 after
    /// the buffer index.
    open spec fn layout_size() -> nat {
        1 + 1 + 2 + 4 + 8 + 8 + 4 + 4 + 8 + 2 + 2 + 4 + 16
    }

    open spec fn layout_align() -> nat {
        8
    }

    open spec fn spec_entry(self) -> Sqe64 {
        Sqe64 {
            sqe: IoUringSqe {
                opcode: self.opcode,
                flags: self.flags,
                ioprio: 0,
                fd: self.fd,
                off: self.ext_data1,
                addr: self.ext_data2,
                len: self.len,
                op_flags: self.nop_flags,
                user_data: self.user_data,
                buf_index: self.buf_index,
                personality: 0,
                file_index: 0,
                addr3: 0,
                pad: 0,
            },
        }
    }

    fn into_entry(self) -> (entry: Sqe64) {
        Sqe64 {
            sqe: IoUringSqe {
                opcode: self.opcode,
                flags: self.flags,
                ioprio: 0,
                fd: self.fd,
                off: self.ext_data1,
                addr: self.ext_data2,
                len: self.len,
                op_flags: self.nop_flags,
                user_data: self.user_data,
                buf_index: self.buf_index,
                personality: 0,
                file_index: 0,
                addr3: 0,
                pad: 0,
            },
        }
    }

    fn check_size_align() {
    }

    proof fn lemma_op_code() {
    }
}

impl Nop128 {
    pub open spec fn spec_new() -> Self {
        Nop128 {
            opcode: IORING_OP_NOP128,
            flags: 0,
            fd: -1i32,
            ext_data1: 0,
            ext_data2: 0,
            len: 0,
            nop_flags: IORING_NOP_NONE,
            user_data: 0,
            buf_index: 0,
        }
    }

    /// A no-op that names no file and no buffer.
    pub fn new() -> (nop: Self)
        ensures
            nop == Self::spec_new(),
    {
        Self {
            opcode: Self::OP_CODE,
            flags: 0,
            fd: -1,
            ext_data1: 0,
            ext_data2: 0,
            len: 0,
            nop_flags: IORING_NOP_NONE,
            user_data: 0,
            buf_index: 0,
        }
    }

    /// Makes the no-op take `fd` as its file.
    pub fn set_fd<Fd>(self, fd: Fd) -> (nop: Self) where Fd: OpFd
        ensures
            nop == (Nop128 {
                fd: fd.spec_raw_fd(),
                nop_flags: self.nop_flags | Fd::nop_flag(),
                ..self
            }),
    {
        proof {
            Fd::lemma_flags();
        }
        let mut nop = self;
        nop.fd = fd.raw_fd();
        nop.nop_flags = nop.nop_flags | Fd::NOP_FLAG;
        nop
    }

    /// Makes the no-op take the registered buffer `buf_index`.
    pub fn set_buf_index(self, buf_index: u16) -> (nop: Self)
        ensures
            nop == (Nop128 {
                buf_index,
                nop_flags: self.nop_flags | IORING_NOP_FIXED_BUFFER,
                ..self
            }),
    {
        let mut nop = self;
        nop.buf_index = buf_index;
        nop.nop_flags = nop.nop_flags | IORING_NOP_FIXED_BUFFER;
        nop
    }

    /// Makes the no-op complete with a wide completion that carries
    /// `ext_data`.
    pub fn set_ext_data(self, ext_data: [u64; 2]) -> (nop: Self)
        ensures
            nop == (Nop128 {
                ext_data1: ext_data[0],
                ext_data2: ext_data[1],
                nop_flags: self.nop_flags | IORING_NOP_CQE32,
                ..self
            }),
    {
        let mut nop = self;
        nop.ext_data1 = ext_data[0];
        nop.ext_data2 = ext_data[1];
        nop.nop_flags = nop.nop_flags | IORING_NOP_CQE32;
        nop
    }

    /// Asks the kernel to post no completion when the no-op succeeds.
    pub fn skip_cqe(self) -> (nop: Self)
        ensures
            nop == (Nop128 { flags: self.flags | IOSQE_CQE_SKIP_SUCCESS, ..self }),
    {
        let mut nop = self;
        nop.flags = nop.flags | IOSQE_CQE_SKIP_SUCCESS;
        nop
    }

    /// Makes the no-op complete through task work.
    pub fn enable_tw(self) -> (nop: Self)
        ensures
            nop == (Nop128 { nop_flags: self.nop_flags | IORING_NOP_TW, ..self }),
    {
        let mut nop = self;
        nop.nop_flags = nop.nop_flags | IORING_NOP_TW;
        nop
    }
}

} // verus!
