//! The failure kinds that resolution and fetching can report.

use vstd::prelude::*;

verus! {

/// Every way a resolve or fetch call can fail.  A call either fully succeeds
/// or fails with exactly one of these; batch operations never return partial
/// results.  Variants that carry a `String` hold the descriptive text the
/// failing step reported.
#[derive(Debug)]
pub enum FetchError {
    /// A registry or repository URL could not be parsed.
    InvalidUrl(String),
    /// A filesystem path was rejected; a path source must be absolute.
    InvalidPath,
    /// A package identity failed its validity checks (for example, an empty
    /// name).
    InvalidPackageSpec,
    /// A version text is not well-formed semantic-versioning grammar.
    InvalidVersion(String),
    /// The process-wide package-cache lock could not be acquired.
    LockAcquisitionFailed(String),
    /// A source failed to load, become ready, or answer a query.
    SourceLoadFailed(String),
    /// The index reported "not yet ready" after readiness had been reached;
    /// a fatal breach of the readiness protocol, never retried.
    IndexProtocolViolation,
    /// A first-match resolution found no matching version at all.
    PackageNotFound,
    /// The fetched handles and the requested package set could not be
    /// assembled into one consistent batch.
    PackageSetConstructionFailed(String),
    /// A package's contents could not be checked out or extracted.
    MaterializationFailed(String),
}

} // verus!
