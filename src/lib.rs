//! Upload intake for an S3-compatible object store: startup configuration,
//! the object store client's settings and write requests, and the upload
//! handler as a state machine over multipart parts and store results.

pub mod runs;
pub mod storage;
pub mod upload;

use vstd::prelude::*;

verus! {

/// The body of the health check answer. It takes nothing, so it cannot
/// depend on the store.
pub fn health() -> (r: &'static str)
    ensures
        r@ == "healthy"@,
{
    "healthy"
}

} // verus!
