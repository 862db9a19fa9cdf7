//! The ring: its setup, its regions, its two queues and the calls that drive
//! it.

pub mod completion;
pub mod fd;
pub mod mmap_arena;
pub mod operator;
pub mod register;
pub mod ring;
pub mod setup_args;
pub mod submission;
pub mod uring;
