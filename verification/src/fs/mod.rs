//! Helpers for the file system.

pub mod path;
