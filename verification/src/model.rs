//! Results and errors of one synchronization run.

use vstd::prelude::*;

verus! {

/// What went wrong during a synchronization run.
///
/// Every upstream failure is converted into one of these kinds; the
/// run never panics on an ordinary upstream error.
#[derive(Clone, Copy, Debug, PartialEq, Eq, Structural)]
pub enum SyncErrorKind {
    /// A candidate identifier was structurally malformed.
    InvalidReference,
    /// Listing or creating the owner's playlist failed upstream.
    ResolutionFailure,
    /// Fetching the playlist contents failed, or an entry's identifier
    /// could not be determined.
    SnapshotFailure,
    /// The single add-items call failed.
    ApplyFailure,
}

/// A failed synchronization: a tagged kind, plus a human-readable
/// detail message kept only for display.
#[derive(Clone, Debug)]
pub struct SyncError {
    pub kind: SyncErrorKind,
    pub message: String,
}

/// The outcome of one synchronization run, constructed once per
/// incoming message and consumed by the reply path.
#[derive(Clone, Debug)]
pub enum SyncResult {
    /// `count` new tracks were appended; `playlist_locator` is the URL
    /// of the playlist they went to.
    Added { count: usize, playlist_locator: String },
    /// Nothing to do: no references, or only duplicates.
    NoNewItems,
    /// The run failed; the playlist was not partially modified.
    Error { error: SyncError },
}

} // verus!
