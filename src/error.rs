use vstd::prelude::*;

verus! {

/// Why a request to the resource system failed.
#[derive(Debug, Clone, Copy, PartialEq, Eq, Structural)]
pub enum ResourceError {
    /// The resource type (or the second-stage system) has not been registered.
    NotRegistered,
    /// The path was requested again while it was still being parsed.
    CircularReferenceFound,
    /// The filesystem could not deliver the bytes of the path.
    NotFound,
    /// The bytes could not be decoded into the resource.
    ParseFailure,
    /// The worker has been stopped and takes no more work.
    SystemUnavailable,
}

} // verus!
