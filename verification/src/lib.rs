//! Safe POSIX-style filesystem operations: the `*at` family and directory
//! streams, with their argument preparation, buffer handling, entry
//! decoding and error reporting proved against their contracts.

pub mod conv;
pub mod fs;
pub mod io;
pub mod path;
