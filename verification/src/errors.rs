//! Failure classification for state reads.
//!
//! Absence of a key is never an error: it is a successful `None`.  An I/O
//! failure of the backing snapshot is a [`ReadError`]; when such a failure
//! crosses into the VM resolver contract it is collapsed into the coarse
//! [`ResolverError`] classification, deliberately dropping the original
//! cause.

use vstd::prelude::*;

verus! {

/// Failure of a read against the backing snapshot.  A synthetic failure
/// produced by the fault-injection hook is indistinguishable from a genuine
/// backing failure at this interface.
#[derive(Clone, Copy, Debug, Eq, PartialEq, Structural)]
pub struct ReadError {}

impl ReadError {
    /// A backing-read failure.
    pub fn new() -> (r: Self)
        ensures
            r == (ReadError {  }),
    {
        ReadError {  }
    }
}

/// The coarse status a resolver failure carries: the VM only learns that
/// storage was unavailable.
#[derive(Clone, Copy, Debug, Eq, PartialEq, Structural)]
pub enum StatusCode {
    /// Storage could not be read.
    StorageError,
}

/// The execution location a resolver failure is attributed to.  Storage
/// failures are not tied to any particular module or script, so they carry
/// [`Location::Undefined`].
#[derive(Clone, Copy, Debug, Eq, PartialEq, Structural)]
pub enum Location {
    /// No particular location.
    Undefined,
}

/// A resolver failure before a location is attached.
#[derive(Clone, Copy, Debug, Eq, PartialEq, Structural)]
pub struct PartialResolverError {
    /// The coarse classification.
    pub status: StatusCode,
}

/// The failure surfaced through the VM resolver contract: a coarse status
/// attached to an execution location.
#[derive(Clone, Copy, Debug, Eq, PartialEq, Structural)]
pub struct ResolverError {
    /// The coarse classification.
    pub status: StatusCode,
    /// Where the failure is attributed.
    pub location: Location,
}

impl PartialResolverError {
    /// The storage-unavailable classification.
    pub fn storage_error() -> (r: Self)
        ensures
            r == (PartialResolverError { status: StatusCode::StorageError }),
    {
        PartialResolverError { status: StatusCode::StorageError }
    }

    /// Attaches a location, completing the error.
    pub fn finish(self, location: Location) -> (r: ResolverError)
        ensures
            r == (ResolverError { status: self.status, location }),
    {
        ResolverError { status: self.status, location }
    }
}

/// The resolver error that every storage failure collapses to: storage
/// unavailable, at no particular location.
pub open spec fn storage_resolver_error() -> ResolverError {
    ResolverError { status: StatusCode::StorageError, location: Location::Undefined }
}

} // verus!
