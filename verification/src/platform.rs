//! What the kernel defines: records, flags and numbers.

pub mod iouring;
