//! Media-variant resolution and download dispatch for a messaging-platform
//! client.
//!
//! Wire records describing attached media arrive as tagged unions produced by
//! a remote schema. This library classifies them into closed, typed domain
//! objects, builds the remote locator each retrieval strategy requires, and
//! resolves, for each concrete variant, how its binary content is obtained:
//! either bytes already embedded in the record, or a remote fetch that the
//! caller performs through its transport.

use vstd::prelude::*;

pub mod media;
pub mod photo_sizes;
pub mod wire;

verus! {

/// The failures this layer reports instead of aborting.
#[derive(Clone, Copy, PartialEq, Eq, Structural, Debug)]
pub enum MediaError {
    /// An operation that strictly needs the record's inner union found it
    /// absent, so no identity exists.
    MissingInnerUnion,
    /// The transport reported that a remote fetch failed; the caller may
    /// retry or report.
    TransferFailure,
    /// The variant's download strategy is not implemented yet; callers can
    /// feature-detect instead of crashing.
    NotYetImplemented,
}

/// What resolving a download comes to: either the destination already holds
/// everything (no remote call is owed), or the transport must fetch the
/// blob that the locator names into the destination.
pub enum DownloadStep {
    /// The download is complete; no remote call is issued.
    Complete,
    /// The caller must fetch the named blob to the destination.
    Fetch(crate::wire::InputFileLocation),
}

/// The locator a resolution step asks the transport to fetch, if any.
pub open spec fn step_view(r: DownloadStep) -> Option<crate::wire::LocatorView> {
    match r {
        DownloadStep::Complete => None,
        DownloadStep::Fetch(l) => Some(l@),
    }
}

} // verus!
