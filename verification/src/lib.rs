//! Cover-asset cache for a Wii game organizer.
//!
//! The library guarantees that a displayable cover image is always available
//! for a game identifier: a remote bulk archive is fetched and unpacked on
//! demand into a cache directory, multi-file download progress is tracked in a
//! shared registry, and a bundled default payload is substituted whenever no
//! cached asset exists.
//!
//! The library holds the decisions and the data: path construction and
//! sanitization, the per-fetch progress state machine, the extraction plan,
//! and the lookup fallback. The surrounding binary performs the network and
//! filesystem work and feeds the results back in as plain values.

use vstd::prelude::*;

pub mod covers;
pub mod extract;
pub mod game;
pub mod paths;
pub mod progress;

verus! {

/// The failure kinds that fetch and extraction surface to the caller.
///
/// A cover lookup never surfaces any of these: a miss silently degrades to
/// the default payload.
#[derive(Clone, Copy, Debug, PartialEq, Eq, Structural)]
pub enum CacheError {
    /// A non-success HTTP status or a connection failure.
    RemoteFailure,
    /// A filesystem create, write or read failure.
    IOFailure,
    /// A malformed archive structure.
    ArchiveCorrupt,
    /// An image payload that cannot be decoded.
    DecodeFailure,
}

} // verus!
