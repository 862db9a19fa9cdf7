//! Operations that do nothing.

pub mod nop128;

pub use nop128::Nop128;
