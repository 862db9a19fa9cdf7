use vstd::prelude::*;

use crate::platform::iouring::{
    IoUringSetupFlags, IoUringSqe, IORING_OP_NOP, IORING_OP_NOP128, IORING_OP_URING_CMD128,
    IORING_SETUP_SQE128, IORING_SETUP_SQE_MIXED, IOSQE_CQE_SKIP_SUCCESS,
};

verus! {

/// The three shapes of a submission ring's entry array.
#[derive(Clone, Copy, Debug, PartialEq, Eq, Structural)]
pub enum Ty {
    /// Every entry takes one 64-byte slot.
    Sqe64,
    /// Every entry takes one 128-byte slot.
    Sqe128,
    /// Slots are 64 bytes wide and an entry takes one or two of them.
    SqeMixed,
}

/// Width in bytes of the basic submission entry.
pub const BASE_SQE_SIZE: usize = 64;

/// The setup flag that announces a ring of entries of shape `ty`.
pub open spec fn setup_flag(ty: Ty) -> IoUringSetupFlags {
    match ty {
        Ty::Sqe64 => 0,
        Ty::Sqe128 => IORING_SETUP_SQE128,
        Ty::SqeMixed => IORING_SETUP_SQE_MIXED,
    }
}

/// Width in bytes of one slot of a ring of entries of shape `ty`.
pub open spec fn setup_sqe_size(ty: Ty) -> usize {
    match ty {
        Ty::Sqe64 | Ty::SqeMixed => BASE_SQE_SIZE,
        Ty::Sqe128 => (BASE_SQE_SIZE * 2) as usize,
    }
}

/// What a slot of a submission ring holds. The implementing type is the slot;
/// its tag fixes the slot width and the flag that ring setup must carry.
pub trait SubmissionEntry: Sized {
    const TYPE: Ty;

    const SETUP_FLAG: IoUringSetupFlags;

    const SETUP_SQE_SIZE: usize;

    /// The shape of the ring that has such slots.
    spec fn ty() -> Ty;

    /// Width in bytes of the slot as it is laid out.
    spec fn slot_size() -> nat;

    /// A slot of a freshly mapped entry array.
    spec fn spec_zeroed() -> Self;

    /// A slot of a freshly mapped entry array: all bytes zero.
    fn zeroed() -> (slot: Self)
        ensures
            slot == Self::spec_zeroed(),
    ;

    /// The constants are those that the shape calls for, and the slot is
    /// laid out at exactly the width they give.
    proof fn lemma_tag()
        ensures
            Self::TYPE == Self::ty(),
            Self::SETUP_FLAG == setup_flag(Self::ty()),
            Self::SETUP_SQE_SIZE == setup_sqe_size(Self::ty()),
            Self::SETUP_SQE_SIZE == Self::slot_size(),
    ;
}

/// A narrow submission entry: it fills one 64-byte slot.
#[derive(Clone, Copy, Debug)]
pub struct Sqe64 {
    pub sqe: IoUringSqe,
}

impl SubmissionEntry for Sqe64 {
    const TYPE: Ty = Ty::Sqe64;

    const SETUP_FLAG: IoUringSetupFlags = 0;

    const SETUP_SQE_SIZE: usize = 64;

    open spec fn ty() -> Ty {
        Ty::Sqe64
    }

    open spec fn slot_size() -> nat {
        IoUringSqe::layout_size()
    }

    open spec fn spec_zeroed() -> Self {
        Sqe64 { sqe: IoUringSqe::spec_zeroed() }
    }

    fn zeroed() -> (slot: Self) {
        Sqe64 { sqe: IoUringSqe::zeroed() }
    }

    proof fn lemma_tag() {
    }
}

impl Sqe64 {
    pub fn new(sqe: IoUringSqe) -> (entry: Self)
        ensures
            entry.sqe == sqe,
    {
        Self { sqe }
    }
}

impl core::ops::Deref for Sqe64 {
    type Target = IoUringSqe;

    fn deref(&self) -> (sqe: &IoUringSqe)
        ensures
            *sqe == self.sqe,
    {
        &self.sqe
    }
}

impl core::ops::DerefMut for Sqe64 {
    fn deref_mut(&mut self) -> (sqe: &mut IoUringSqe)
        ensures
            *sqe == old(self).sqe,
            final(self).sqe == *final(sqe),
    {
        &mut self.sqe
    }
}

/// The 64 zero bytes that follow the basic entry in a wide entry without a
/// payload.
pub open spec fn zero_extra() -> [u8; 64] {
    vstd::array::spec_array_fill_for_copy_type(0u8)
}

/// A wide submission entry: the basic entry and 64 bytes of payload behind
/// it.
#[derive(Clone, Copy, Debug)]
pub struct Sqe128 {
    pub sqe: IoUringSqe,
    pub extra_data: [u8; 64],
}

impl SubmissionEntry for Sqe128 {
    const TYPE: Ty = Ty::Sqe128;

    const SETUP_FLAG: IoUringSetupFlags = IORING_SETUP_SQE128;

    const SETUP_SQE_SIZE: usize = 128;

    open spec fn ty() -> Ty {
        Ty::Sqe128
    }

    open spec fn slot_size() -> nat {
        IoUringSqe::layout_size() + 64
    }

    open spec fn spec_zeroed() -> Self {
        Sqe128 { sqe: IoUringSqe::spec_zeroed(), extra_data: zero_extra() }
    }

    fn zeroed() -> (slot: Self) {
        Sqe128 { sqe: IoUringSqe::zeroed(), extra_data: [0u8; 64] }
    }

    proof fn lemma_tag() {
    }
}

impl Sqe128 {
    /// The wide entry that carries `sqe` and 64 zero bytes after it.
    pub fn new(sqe: IoUringSqe) -> (entry: Self)
        ensures
            entry.sqe == sqe,
            entry.extra_data == zero_extra(),
    {
        Self { sqe, extra_data: [0u8; 64] }
    }
}

impl core::ops::Deref for Sqe128 {
    type Target = IoUringSqe;

    fn deref(&self) -> (sqe: &IoUringSqe)
        ensures
            *sqe == self.sqe,
    {
        &self.sqe
    }
}

impl core::ops::DerefMut for Sqe128 {
    fn deref_mut(&mut self) -> (sqe: &mut IoUringSqe)
        ensures
            *sqe == old(self).sqe,
            final(self).sqe == *final(sqe),
            final(self).extra_data == old(self).extra_data,
    {
        &mut self.sqe
    }
}

/// What one 64-byte slot of a mixed ring holds.
#[derive(Clone, Copy, Debug)]
pub enum MixCell {
    /// An entry, or the first half of a wide one.
    Entry(IoUringSqe),
    /// The second half of a wide entry.
    Extra([u8; 64]),
}

/// One slot of a ring that takes narrow and wide entries side by side.
#[derive(Clone, Copy, Debug)]
pub struct SqeMix {
    pub cell: MixCell,
}

impl SubmissionEntry for SqeMix {
    const TYPE: Ty = Ty::SqeMixed;

    const SETUP_FLAG: IoUringSetupFlags = IORING_SETUP_SQE_MIXED;

    const SETUP_SQE_SIZE: usize = 64;

    open spec fn ty() -> Ty {
        Ty::SqeMixed
    }

    open spec fn slot_size() -> nat {
        IoUringSqe::layout_size()
    }

    open spec fn spec_zeroed() -> Self {
        SqeMix { cell: MixCell::Entry(IoUringSqe::spec_zeroed()) }
    }

    fn zeroed() -> (slot: Self) {
        SqeMix { cell: MixCell::Entry(IoUringSqe::zeroed()) }
    }

    proof fn lemma_tag() {
    }
}

impl SqeMix {
    /// The slot that holds `sqe`.
    pub open spec fn spec_entry(sqe: IoUringSqe) -> Self {
        SqeMix { cell: MixCell::Entry(sqe) }
    }

    /// The slot that holds the second half of a wide entry.
    pub open spec fn spec_extra(extra_data: [u8; 64]) -> Self {
        SqeMix { cell: MixCell::Extra(extra_data) }
    }

    /// The slot that holds `sqe`.
    pub fn entry(sqe: IoUringSqe) -> (slot: Self)
        ensures
            slot == Self::spec_entry(sqe),
    {
        SqeMix { cell: MixCell::Entry(sqe) }
    }

    /// The slot that holds the second half of a wide entry.
    pub fn extra(extra_data: [u8; 64]) -> (slot: Self)
        ensures
            slot == Self::spec_extra(extra_data),
    {
        SqeMix { cell: MixCell::Extra(extra_data) }
    }

    /// The filler that keeps a wide entry from running over the end of the
    /// array: a no-op that takes one slot and posts no completion.
    pub open spec fn spec_padding() -> Self {
        SqeMix {
            cell: MixCell::Entry(
                IoUringSqe {
                    opcode: IORING_OP_NOP,
                    flags: IOSQE_CQE_SKIP_SUCCESS,
                    fd: -1i32,
                    ..IoUringSqe::spec_zeroed()
                },
            ),
        }
    }

    /// The filler that keeps a wide entry from running over the end of the
    /// array: a no-op that takes one slot and posts no completion.
    pub fn padding() -> (slot: Self)
        ensures
            slot == Self::spec_padding(),
            !slot.spec_is_sqe128(),
    {
        let mut sqe = IoUringSqe::zeroed();
        sqe.opcode = IORING_OP_NOP;
        sqe.flags = IOSQE_CQE_SKIP_SUCCESS;
        sqe.fd = -1;
        SqeMix { cell: MixCell::Entry(sqe) }
    }

    /// The slot starts an entry that runs on into the next slot.
    pub open spec fn spec_is_sqe128(&self) -> bool {
        match self.cell {
            MixCell::Entry(sqe) => sqe.opcode == IORING_OP_NOP128 || sqe.opcode
                == IORING_OP_URING_CMD128,
            MixCell::Extra(_) => false,
        }
    }

    /// Whether this slot starts a wide entry, which its operation code tells.
    #[verifier::when_used_as_spec(spec_is_sqe128)]
    pub fn is_sqe128(&self) -> (wide: bool)
        ensures
            wide == self.spec_is_sqe128(),
    {
        match self.cell {
            MixCell::Entry(sqe) => sqe.opcode == IORING_OP_NOP128 || sqe.opcode
                == IORING_OP_URING_CMD128,
            MixCell::Extra(_) => false,
        }
    }
}

impl From<Sqe64> for SqeMix {
    /// The slot that holds the narrow `entry`.
    fn from(entry: Sqe64) -> (slot: Self)
        ensures
            slot == Self::spec_entry(entry.sqe),
    {
        SqeMix { cell: MixCell::Entry(entry.sqe) }
    }
}

impl vstd::std_specs::convert::FromSpecImpl<Sqe64> for SqeMix {
    open spec fn obeys_from_spec() -> bool {
        true
    }

    open spec fn from_spec(entry: Sqe64) -> Self {
        Self::spec_entry(entry.sqe)
    }
}

/// The slots of the three shapes are 64, 128 and 64 bytes wide: so say their
/// constants, and so they are laid out.
pub proof fn lemma_slot_widths()
    ensures
        Sqe64::SETUP_SQE_SIZE == 64 && <Sqe64 as SubmissionEntry>::slot_size() == 64,
        Sqe128::SETUP_SQE_SIZE == 128 && <Sqe128 as SubmissionEntry>::slot_size() == 128,
        SqeMix::SETUP_SQE_SIZE == 64 && <SqeMix as SubmissionEntry>::slot_size() == 64,
        IoUringSqe::layout_align() == 8,
{
    Sqe64::lemma_tag();
    Sqe128::lemma_tag();
    SqeMix::lemma_tag();
}

} // verus!
