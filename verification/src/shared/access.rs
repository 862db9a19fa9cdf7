use core::sync::atomic::{AtomicU32, Ordering};
use vstd::prelude::*;

verus! {

/// How a word that the kernel writes is read.
#[derive(Clone, Copy, Debug, PartialEq, Eq, Structural)]
pub enum Load {
    /// Atomically, with no ordering: only the word itself is of interest.
    Relaxed,
    /// Atomically, so that everything read afterwards is read after the
    /// word.
    Acquire,
}

/// How a word that the kernel reads is written.
#[derive(Clone, Copy, Debug, PartialEq, Eq, Structural)]
pub enum Store {
    /// With no ordering: nobody reads the word before the application tells
    /// the kernel to.
    Plain,
    /// Atomically, so that everything written before is written before the
    /// word.
    Release,
}

impl Load {
    /// Reads `word` this way. What comes back is what the word holds at this
    /// moment, which the kernel decides.
    pub fn load(self, word: &AtomicU32) -> u32 {
        match self {
            Load::Relaxed => word.load(Ordering::Relaxed),
            Load::Acquire => word.load(Ordering::Acquire),
        }
    }
}

impl Store {
    /// Writes `value` to `word` this way.
    pub fn store(self, word: &AtomicU32, value: u32) {
        match self {
            Store::Plain => word.store(value, Ordering::Relaxed),
            Store::Release => word.store(value, Ordering::Release),
        }
    }
}

/// Calls `core::sync::atomic::fence` with sequentially consistent ordering.
/// The function returns nothing, so nothing is claimed of it.
#[verifier::external_body]
pub(crate) fn full_fence() {
    core::sync::atomic::fence(Ordering::SeqCst);
}

} // verus!
