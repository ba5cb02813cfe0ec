//! Platform boundaries for paths, storage roots and system-owned locations.
//!
//! Each platform's policy is a set of plain functions over path text; values
//! that come from the environment (the home directory, directory listings)
//! are passed in by the caller.
pub mod macos;
pub mod unsupported;
pub mod windows;
