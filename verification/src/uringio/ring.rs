//! A ring as the kernel hands it out.

pub mod fd;
