//! Decision logic of a Pure Data (libpd) embedding layer.
//!
//! The calls into libpd itself are foreign functions and stay with the
//! caller. This crate holds the decisions around them: how libpd's status
//! codes and answers become results, the error values and their messages,
//! the kind of an atom received from pd, and the search that locates a patch
//! file before it is opened. Splitting a path into its parts, joining paths
//! and asking the file system stay with the caller, which hands the answers
//! in as plain values.

pub mod error;
pub mod mirror;
pub mod patch;
