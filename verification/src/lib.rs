//! A read-only passthrough filesystem core: a virtual root directory whose
//! immediate children mirror the files of one source directory, with no
//! nested subdirectories.
//!
//! This crate holds the verified core: the inode table, the attribute
//! translator, the file handle table, the directory enumerator, and the
//! decision logic of each filesystem operation. All host interaction
//! (metadata queries, file reads, directory scans, the kernel bridge) is
//! performed by the surrounding process, which hands the observed plain
//! values to these functions and forwards their results.

pub mod attr;
pub mod dir;
pub mod error;
pub mod handle;
pub mod inode;
pub mod simple;
