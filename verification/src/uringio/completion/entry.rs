use vstd::prelude::*;

use crate::platform::iouring::{
    contains, has_flags, IoUringCqe, IoUringSetupFlags, IORING_CQE_F_32, IORING_SETUP_CQE32,
    IORING_SETUP_CQE_MIXED,
};

verus! {

/// The three shapes of a completion ring's entry array.
#[derive(Clone, Copy, Debug, PartialEq, Eq, Structural)]
pub enum Ty {
    /// Every entry takes one 16-byte slot.
    Cqe16,
    /// Every entry takes one 32-byte slot.
    Cqe32,
    /// Slots are 16 bytes wide and an entry takes one or two of them.
    CqeMix,
}

/// Width in bytes of the basic completion entry.
pub const BASE_CQE_SIZE: usize = 16;

/// The setup flag that announces a ring of entries of shape `ty`.
pub open spec fn setup_flag(ty: Ty) -> IoUringSetupFlags {
    match ty {
        Ty::Cqe16 => 0,
        Ty::Cqe32 => IORING_SETUP_CQE32,
        Ty::CqeMix => IORING_SETUP_CQE_MIXED,
    }
}

/// Width in bytes of one slot of a ring of entries of shape `ty`.
pub open spec fn setup_cqe_size(ty: Ty) -> usize {
    match ty {
        Ty::Cqe16 | Ty::CqeMix => BASE_CQE_SIZE,
        Ty::Cqe32 => (BASE_CQE_SIZE * 2) as usize,
    }
}

/// What a slot of a completion ring holds. The implementing type is the slot;
/// its tag fixes the slot width and the flag that ring setup must carry.
pub trait CompletionEntry: Sized + Copy {
    const TYPE: Ty;

    const SETUP_FLAG: IoUringSetupFlags;

    const SETUP_CQE_SIZE: usize;

    /// The shape of the ring that has such slots.
    spec fn ty() -> Ty;

    /// Width in bytes of the slot as it is laid out.
    spec fn slot_size() -> nat;

    /// A slot of a freshly mapped entry array.
    spec fn spec_zeroed() -> Self;

    /// A slot of a freshly mapped entry array: all bytes zero.
    fn zeroed() -> (slot: Self)
        ensures
            slot == Self::spec_zeroed(),
    ;

    /// The constants are those that the shape calls for, and the slot is
    /// laid out at exactly the width they give.
    proof fn lemma_tag()
        ensures
            Self::TYPE == Self::ty(),
            Self::SETUP_FLAG == setup_flag(Self::ty()),
            Self::SETUP_CQE_SIZE == setup_cqe_size(Self::ty()),
            Self::SETUP_CQE_SIZE == Self::slot_size(),
    ;
}

/// A narrow completion entry: it fills one 16-byte slot.
#[derive(Clone, Copy, Debug)]
pub struct Cqe16 {
    pub cqe: IoUringCqe,
}

impl CompletionEntry for Cqe16 {
    const TYPE: Ty = Ty::Cqe16;

    const SETUP_FLAG: IoUringSetupFlags = 0;

    const SETUP_CQE_SIZE: usize = 16;

    open spec fn ty() -> Ty {
        Ty::Cqe16
    }

    open spec fn slot_size() -> nat {
        IoUringCqe::layout_size()
    }

    open spec fn spec_zeroed() -> Self {
        Cqe16 { cqe: IoUringCqe::spec_zeroed() }
    }

    fn zeroed() -> (slot: Self) {
        Cqe16 { cqe: IoUringCqe::zeroed() }
    }

    proof fn lemma_tag() {
    }
}

impl Cqe16 {
    pub fn new(cqe: IoUringCqe) -> (entry: Self)
        ensures
            entry.cqe == cqe,
    {
        Self { cqe }
    }
}

impl core::ops::Deref for Cqe16 {
    type Target = IoUringCqe;

    fn deref(&self) -> (cqe: &IoUringCqe)
        ensures
            *cqe == self.cqe,
    {
        &self.cqe
    }
}

impl core::ops::DerefMut for Cqe16 {
    fn deref_mut(&mut self) -> (cqe: &mut IoUringCqe)
        ensures
            *cqe == old(self).cqe,
            final(self).cqe == *final(cqe),
    {
        &mut self.cqe
    }
}

/// A wide completion entry: the basic entry and 16 bytes of payload behind
/// it.
#[derive(Clone, Copy, Debug)]
pub struct Cqe32 {
    pub cqe: IoUringCqe,
    pub extra_data: [u64; 2],
}

impl CompletionEntry for Cqe32 {
    const TYPE: Ty = Ty::Cqe32;

    const SETUP_FLAG: IoUringSetupFlags = IORING_SETUP_CQE32;

    const SETUP_CQE_SIZE: usize = 32;

    open spec fn ty() -> Ty {
        Ty::Cqe32
    }

    open spec fn slot_size() -> nat {
        IoUringCqe::layout_size() + 2 * 8
    }

    open spec fn spec_zeroed() -> Self {
        Cqe32 {
            cqe: IoUringCqe::spec_zeroed(),
            extra_data: vstd::array::spec_array_fill_for_copy_type(0u64),
        }
    }

    fn zeroed() -> (slot: Self) {
        Cqe32 { cqe: IoUringCqe::zeroed(), extra_data: [0u64; 2] }
    }

    proof fn lemma_tag() {
    }
}

impl Cqe32 {
    pub fn new(cqe: IoUringCqe, extra_data: [u64; 2]) -> (entry: Self)
        ensures
            entry.cqe == cqe,
            entry.extra_data == extra_data,
    {
        Self { cqe, extra_data }
    }

    /// The 16 bytes that follow the basic entry.
    pub fn extra_data(&self) -> (extra: &[u64; 2])
        ensures
            *extra == self.extra_data,
    {
        &self.extra_data
    }
}

impl core::ops::Deref for Cqe32 {
    type Target = IoUringCqe;

    fn deref(&self) -> (cqe: &IoUringCqe)
        ensures
            *cqe == self.cqe,
    {
        &self.cqe
    }
}

impl core::ops::DerefMut for Cqe32 {
    fn deref_mut(&mut self) -> (cqe: &mut IoUringCqe)
        ensures
            *cqe == old(self).cqe,
            final(self).cqe == *final(cqe),
            final(self).extra_data == old(self).extra_data,
    {
        &mut self.cqe
    }
}

/// One slot of a ring in which the kernel posts narrow and wide entries side
/// by side.
#[derive(Clone, Copy, Debug)]
pub struct CqeMix {
    pub cqe: IoUringCqe,
}

impl CompletionEntry for CqeMix {
    const TYPE: Ty = Ty::CqeMix;

    const SETUP_FLAG: IoUringSetupFlags = IORING_SETUP_CQE_MIXED;

    const SETUP_CQE_SIZE: usize = 16;

    open spec fn ty() -> Ty {
        Ty::CqeMix
    }

    open spec fn slot_size() -> nat {
        IoUringCqe::layout_size()
    }

    open spec fn spec_zeroed() -> Self {
        CqeMix { cqe: IoUringCqe::spec_zeroed() }
    }

    fn zeroed() -> (slot: Self) {
        CqeMix { cqe: IoUringCqe::zeroed() }
    }

    proof fn lemma_tag() {
    }
}

impl CqeMix {
    pub fn new(cqe: IoUringCqe) -> (entry: Self)
        ensures
            entry.cqe == cqe,
    {
        Self { cqe }
    }

    /// The entry runs on into the next slot.
    pub open spec fn spec_is_cqe32(&self) -> bool {
        has_flags(self.cqe.flags, IORING_CQE_F_32)
    }

    /// Whether the entry runs on into the next slot, which its flags tell.
    #[inline]
    #[verifier::when_used_as_spec(spec_is_cqe32)]
    pub fn is_cqe32(&self) -> (wide: bool)
        ensures
            wide == self.spec_is_cqe32(),
    {
        contains(self.cqe.flags, IORING_CQE_F_32)
    }
}

impl core::ops::Deref for CqeMix {
    type Target = IoUringCqe;

    fn deref(&self) -> (cqe: &IoUringCqe)
        ensures
            *cqe == self.cqe,
    {
        &self.cqe
    }
}

impl core::ops::DerefMut for CqeMix {
    fn deref_mut(&mut self) -> (cqe: &mut IoUringCqe)
        ensures
            *cqe == old(self).cqe,
            final(self).cqe == *final(cqe),
    {
        &mut self.cqe
    }
}

/// The slots of the three shapes are 16, 32 and 16 bytes wide: so say their
/// constants, and so they are laid out.
pub proof fn lemma_slot_widths()
    ensures
        Cqe16::SETUP_CQE_SIZE == 16 && <Cqe16 as CompletionEntry>::slot_size() == 16,
        Cqe32::SETUP_CQE_SIZE == 32 && <Cqe32 as CompletionEntry>::slot_size() == 32,
        CqeMix::SETUP_CQE_SIZE == 16 && <CqeMix as CompletionEntry>::slot_size() == 16,
        IoUringCqe::layout_align() == 8,
{
    Cqe16::lemma_tag();
    Cqe32::lemma_tag();
    CqeMix::lemma_tag();
}

} // verus!
