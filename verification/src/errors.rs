//! The error taxonomy of a download run. Only `NotFoundError` and
//! `ConfigError` abort a run; every other variant is recovered per track and
//! shows up only in the final summary.

use crate::state::TrackOutcome;
use vstd::prelude::*;
use vstd::string::StringExecFns;

verus! {

/// What went wrong, at run level or for one track.
#[derive(Clone, Copy, Debug, PartialEq, Eq, Structural, Hash)]
pub enum RunError {
    /// The catalog lookup failed; the run never starts.
    NotFoundError,
    /// Invalid codec, bitrate or parallelism, or an empty collection; the run
    /// aborts before any chunk is spawned.
    ConfigError,
    /// The audio fetch of one track failed; only that track is lost.
    FetchError,
    /// Fetching or writing cover art failed; the track continues without art.
    ArtError,
    /// Probing, opening or persisting tags failed; the audio file stays on
    /// disk untagged.
    TagError,
    /// A tag was missing right after a reported successful tagging.
    VerifyInconsistency,
}

/// The operator-facing description of each error.
pub open spec fn spec_error_message(e: RunError) -> Seq<char> {
    match e {
        RunError::NotFoundError => "catalog entity not found"@,
        RunError::ConfigError => "invalid configuration or empty collection"@,
        RunError::FetchError => "audio fetch failed"@,
        RunError::ArtError => "cover art could not be fetched or written"@,
        RunError::TagError => "metadata could not be written"@,
        RunError::VerifyInconsistency => "tag missing after successful tagging"@,
    }
}

/// The error a terminal track outcome stands for: none for a tagged track, a
/// tag error or a fetch error for the two failure outcomes.
pub open spec fn spec_outcome_error(o: TrackOutcome) -> Option<RunError> {
    match o {
        TrackOutcome::Tagged => None,
        TrackOutcome::TagFailed => Some(RunError::TagError),
        TrackOutcome::FetchFailed => Some(RunError::FetchError),
    }
}

/// The error a terminal track outcome stands for, if any.
pub fn outcome_error(o: TrackOutcome) -> (r: Option<RunError>)
    ensures
        r == spec_outcome_error(o),
{
    match o {
        TrackOutcome::Tagged => None,
        TrackOutcome::TagFailed => Some(RunError::TagError),
        TrackOutcome::FetchFailed => Some(RunError::FetchError),
    }
}

/// A track that failed is never reported as run-level: its error stays local
/// to the track.
pub proof fn lemma_track_errors_stay_local(o: TrackOutcome)
    ensures
        spec_outcome_error(o) matches Some(e) ==> !e.spec_is_run_level(),
{
}

impl RunError {
    /// Whether this error aborts the whole run rather than one track.
    pub open spec fn spec_is_run_level(self) -> bool {
        self == RunError::NotFoundError || self == RunError::ConfigError
    }

    /// Whether this error aborts the whole run rather than one track.
    pub fn is_run_level(&self) -> (r: bool)
        ensures
            r == self.spec_is_run_level(),
    {
        match self {
            RunError::NotFoundError => true,
            RunError::ConfigError => true,
            _ => false,
        }
    }

    /// The operator-facing description.
    pub fn message(&self) -> (r: String)
        ensures
            r@ == spec_error_message(*self),
    {
        match self {
            RunError::NotFoundError => String::from_str("catalog entity not found"),
            RunError::ConfigError => String::from_str("invalid configuration or empty collection"),
            RunError::FetchError => String::from_str("audio fetch failed"),
            RunError::ArtError => String::from_str("cover art could not be fetched or written"),
            RunError::TagError => String::from_str("metadata could not be written"),
            RunError::VerifyInconsistency => String::from_str(
                "tag missing after successful tagging",
            ),
        }
    }
}

} // verus!
