use vstd::prelude::*;

verus! {

/// Largest capacity a ring can have: the largest power of two that a 32-bit
/// cursor can count.
pub const MAX_CAPACITY: u32 = 0x8000_0000;

/// `n` is a power of two.
pub open spec fn is_pow2(n: u32) -> bool {
    n != 0 && n & ((n - 1) as u32) == 0
}

/// Tests whether `n` is a power of two, the only kind of capacity a ring has.
pub fn is_capacity(n: u32) -> (b: bool)
    ensures
        b == is_pow2(n),
{
    n != 0 && n & (n - 1) == 0
}

/// No power of two that fits in 32 bits is larger than [`MAX_CAPACITY`].
pub proof fn lemma_pow2_bound(n: u32)
    requires
        is_pow2(n),
    ensures
        1 <= n <= MAX_CAPACITY,
{
    assert(1 <= n <= 0x8000_0000u32) by (bit_vector)
        requires
            n != 0 && n & ((n - 1) as u32) == 0,
    ;
}

/// Number of steps a cursor takes from `from` to `to`, counting modulo 2^32.
pub open spec fn distance(from: u32, to: u32) -> int {
    to.wrapping_sub(from) as int
}

/// The cursor `steps` steps after `from`, counting modulo 2^32.
pub open spec fn advance(from: u32, steps: int) -> u32 {
    if from + steps > u32::MAX {
        (from + steps - 0x1_0000_0000) as u32
    } else {
        (from + steps) as u32
    }
}

/// Position in the entry array that cursor `idx` stands for.
pub open spec fn slot(idx: u32, mask: u32) -> int {
    (idx & mask) as int
}

/// A masked cursor is a position inside the array.
pub proof fn lemma_slot_in_range(idx: u32, size: u32, mask: u32)
    requires
        is_pow2(size),
        mask == size - 1,
    ensures
        0 <= slot(idx, mask) < size,
{
    assert(idx & mask < size) by (bit_vector)
        requires
            size != 0 && size & ((size - 1) as u32) == 0,
            mask == size - 1,
    ;
}

/// A cursor on the last position moves to position 0, any other to the next
/// position.
pub proof fn lemma_slot_step(idx: u32, size: u32, mask: u32)
    requires
        is_pow2(size),
        mask == size - 1,
    ensures
        slot(idx.wrapping_add(1), mask) == if slot(idx, mask) == mask {
            0
        } else {
            slot(idx, mask) + 1
        },
{
    let next = idx.wrapping_add(1);
    assert(next == (idx + 1) as u32 || (idx == u32::MAX && next == 0));
    assert((idx & mask == mask ==> ((idx + 1) as u32) & mask == 0) && (idx & mask != mask ==> ((idx
        + 1) as u32) & mask == (idx & mask) + 1)) by (bit_vector)
        requires
            size != 0 && size & ((size - 1) as u32) == 0,
            mask == size - 1,
    ;
    assert(0u32 & mask == 0) by (bit_vector);
    assert(idx == u32::MAX ==> idx & mask == mask) by (bit_vector);
    assert(idx == u32::MAX ==> ((idx + 1) as u32) == 0) by (bit_vector);
}

/// Two cursors less than a ring's capacity apart stand for different positions.
pub proof fn lemma_slots_differ(a: u32, b: u32, size: u32, mask: u32)
    requires
        is_pow2(size),
        mask == size - 1,
        0 < distance(a, b) < size,
    ensures
        slot(a, mask) != slot(b, mask),
{
    let d = b.wrapping_sub(a);
    assert(a & mask != b & mask) by (bit_vector)
        requires
            size != 0 && size & ((size - 1) as u32) == 0,
            mask == size - 1,
            0 < d < size,
            d + a == b || d + a == b + 0x1_0000_0000,
    ;
}

} // verus!
