//! The files that operations work on.

pub use crate::uringio::operator::fd::{FixFd, OpFd};
