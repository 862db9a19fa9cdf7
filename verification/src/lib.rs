//! Userspace side of the io_uring protocol: ring geometry, the submission and
//! completion queues with their head/tail discipline, batching sessions, the
//! two polling modes and the arguments of the ring-enter and ring-register
//! calls.
//!
//! A queue is the application's image of the shared ring, held as plain
//! values. Sessions work on the image alone. The image meets the mapped ring
//! in few places: `pull` reads the words that the kernel writes, `publish`
//! writes the words that the kernel reads, each with the ordering the
//! protocol asks for, and whoever owns the mapping copies the entries between
//! the image and the mapped arrays. The calls into the kernel are described
//! here and made elsewhere.

pub mod platform;
pub mod shared;
pub mod uringio;
