//! What every part of the library uses: orderings, cursor arithmetic,
//! errors.

pub mod access;
pub mod constant;
pub mod cursor;
pub mod error;
