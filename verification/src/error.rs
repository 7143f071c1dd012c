//! The ways in which resolving one package can fail.

use vstd::prelude::*;

verus! {

/// Why one package could not be resolved. A failure concerns that package
/// alone; gaps in optional metadata are never reported as errors.
#[derive(Debug, Clone, Copy, PartialEq, Eq, Structural)]
pub enum ResolveError {
    /// The unique identifier does not have the shape the registry asks for.
    InvalidIdentifier,
    /// The pin expression names no known kind of pin.
    InvalidPin,
    /// The upstream registry could not be reached.
    Unreachable,
    /// The upstream registry answered with a status other than success.
    UpstreamStatus(u16),
    /// The upstream answer could not be decoded.
    UnparsableResponse,
    /// The registry's answer holds no result set.
    NoResults,
    /// The first result set holds no extension.
    NoExtensions,
    /// The extension has no version, or not the version asked for.
    VersionNotFound,
    /// The chosen version lacks the package archive or its manifest.
    MissingRequiredAsset,
    /// The artifact could not be downloaded.
    DownloadFailed,
    /// The hashing tool could not be run, or reported failure.
    HashToolFailed,
    /// The temporary storage for the artifact could not be used.
    TemporaryStorage,
    /// An answer came that the resolution was not waiting for.
    UnexpectedEvent,
}

/// Whether an HTTP status code reports success.
pub open spec fn is_success(status: u16) -> bool {
    200 <= status < 300
}

} // verus!
