//! Filesystem operations.

pub mod at;
pub mod dir;
pub mod types;
