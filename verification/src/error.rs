use vstd::prelude::*;

verus! {

/// The internal error taxonomy of the filesystem core.
///
/// The protocol boundary collapses most of these to a single "not found"
/// status code; the core itself keeps them distinct.
#[derive(Clone, Copy, Debug, PartialEq, Eq, Structural)]
pub enum FsError {
    /// The operation was attempted against something the flat, read-only
    /// model does not provide (for example, a lookup under a non-root
    /// parent directory).
    NotSupported,
    /// The referenced inode or host path does not exist or is inaccessible.
    NotFound,
    /// A read or release was attempted against an unknown handle id.
    InvalidHandle,
    /// A host read failed after a handle had been validly opened.
    IoError,
}

} // verus!
