//! The submission ring: the application produces, the kernel consumes.

pub mod entry;
pub mod index;
pub mod queue;
pub mod submitter;
