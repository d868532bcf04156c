//! How the work on one track can end.

use vstd::prelude::*;

verus! {

/// The lookup that found the lyrics.
#[derive(Clone, Copy, Debug, PartialEq, Eq)]
pub enum Via {
    Exact,
    Fuzzy,
}

/// Why nothing was written although lyrics were found.
#[derive(Clone, Copy, Debug, PartialEq, Eq)]
pub enum SkipReason {
    /// The lyrics file is there already and may not be replaced.
    AlreadyExists,
}

/// Why no lyrics were found.
#[derive(Clone, Copy, Debug, PartialEq, Eq)]
pub enum FailReason {
    /// The catalog answered, with nothing that may be used.
    NoLyrics,
    /// The catalog's answer could not be read.
    ParseError,
    /// The request did not complete.
    TransportError,
}

/// The end of the work on one track.
#[derive(Clone, Debug, PartialEq, Eq)]
#[allow(inconsistent_fields)]
pub enum ResolutionOutcome {
    Saved { text: String, via: Via },
    Skipped { reason: SkipReason },
    Failed { reason: FailReason },
}

/// What a `ResolutionOutcome` holds, as plain values.
#[allow(inconsistent_fields)]
pub enum ResolutionOutcomeView {
    Saved { text: Seq<char>, via: Via },
    Skipped { reason: SkipReason },
    Failed { reason: FailReason },
}

impl View for ResolutionOutcome {
    type V = ResolutionOutcomeView;

    open spec fn view(&self) -> ResolutionOutcomeView {
        match *self {
            ResolutionOutcome::Saved { text, via } => ResolutionOutcomeView::Saved { text: text@, via },
            ResolutionOutcome::Skipped { reason } => ResolutionOutcomeView::Skipped { reason },
            ResolutionOutcome::Failed { reason } => ResolutionOutcomeView::Failed { reason },
        }
    }
}

} // verus!
