//! The completion ring: the kernel produces, the application consumes.

pub mod collector;
pub mod entry;
pub mod queue;
