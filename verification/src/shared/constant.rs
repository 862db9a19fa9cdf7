use vstd::prelude::*;

verus! {

/// Milliseconds that a polling kernel thread stays awake without work.
pub const DEFAULT_SQ_POLL_IDLE: u32 = 1000;

} // verus!
