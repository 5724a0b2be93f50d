//! Persistence of a single application-state document as YAML text.
//!
//! The library decides what is written and what a read of the state file
//! yields; the caller performs the file system calls and hands their outcome
//! back as plain values.
pub mod document;
pub mod laws;
pub mod store;
pub mod yaml;
