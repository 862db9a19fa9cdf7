//! Arguments of the ring-register call.

pub mod args;
