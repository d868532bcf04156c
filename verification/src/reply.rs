//! What the catalog answered, and what the answer is worth.

use vstd::prelude::*;
use crate::candidate::{
    Candidate,
    CandidateView,
    exact_choice,
    fuzzy_choice,
    select_exact,
    select_fuzzy,
    text_of,
    views_of,
};
use crate::outcome::FailReason;

verus! {

/// How an exact lookup ended.
#[derive(Clone, Debug, PartialEq, Eq)]
pub enum ExactReply {
    /// The catalog's record for the track.
    Found(Candidate),
    /// The catalog has no record for the track.
    NotFound,
    /// The answer was no success, or its body is no record.
    ParseError,
    /// The request did not complete.
    TransportError,
}

/// What an `ExactReply` holds, as plain values.
pub enum ExactReplyView {
    Found(CandidateView),
    NotFound,
    ParseError,
    TransportError,
}

impl View for ExactReply {
    type V = ExactReplyView;

    open spec fn view(&self) -> ExactReplyView {
        match *self {
            ExactReply::Found(c) => ExactReplyView::Found(c@),
            ExactReply::NotFound => ExactReplyView::NotFound,
            ExactReply::ParseError => ExactReplyView::ParseError,
            ExactReply::TransportError => ExactReplyView::TransportError,
        }
    }
}

/// How a search ended. The records stand in the order in which the catalog
/// gave them.
#[derive(Clone, Debug, PartialEq, Eq)]
pub enum FuzzyReply {
    /// The records that the catalog found, best match first.
    Found(Vec<Candidate>),
    /// The answer was no success, or its body is no list of records.
    ParseError,
    /// The request did not complete.
    TransportError,
}

/// What a `FuzzyReply` holds, as plain values.
pub enum FuzzyReplyView {
    Found(Seq<CandidateView>),
    ParseError,
    TransportError,
}

impl View for FuzzyReply {
    type V = FuzzyReplyView;

    open spec fn view(&self) -> FuzzyReplyView {
        match *self {
            FuzzyReply::Found(cs) => FuzzyReplyView::Found(views_of(cs@)),
            FuzzyReply::ParseError => FuzzyReplyView::ParseError,
            FuzzyReply::TransportError => FuzzyReplyView::TransportError,
        }
    }
}

/// The lyrics that an exact lookup yields. `None` calls for a search: the
/// lookup failed, or its record has nothing acceptable.
pub open spec fn exact_verdict_of(reply: ExactReplyView, allow_plain: bool) -> Option<Seq<char>> {
    match reply {
        ExactReplyView::Found(c) => exact_choice(c, allow_plain),
        _ => None,
    }
}

/// The lyrics that a search yields, or why it yields none.
pub open spec fn fuzzy_verdict_of(reply: FuzzyReplyView, allow_plain: bool) -> Result<
    Seq<char>,
    FailReason,
> {
    match reply {
        FuzzyReplyView::Found(cs) => match fuzzy_choice(cs, allow_plain) {
            Some(text) => Ok(text),
            None => Err(FailReason::NoLyrics),
        },
        FuzzyReplyView::ParseError => Err(FailReason::ParseError),
        FuzzyReplyView::TransportError => Err(FailReason::TransportError),
    }
}

/// The text of a verdict.
pub open spec fn verdict_text(v: Result<String, FailReason>) -> Result<Seq<char>, FailReason> {
    match v {
        Ok(text) => Ok(text@),
        Err(reason) => Err(reason),
    }
}

/// Judges the reply to an exact lookup. `None` calls for a search.
pub fn exact_verdict(reply: &ExactReply, allow_plain: bool) -> (verdict: Option<String>)
    ensures
        text_of(verdict) == exact_verdict_of(reply@, allow_plain),
{
    match reply {
        ExactReply::Found(candidate) => select_exact(candidate, allow_plain),
        _ => None,
    }
}

/// Judges the reply to a search.
pub fn fuzzy_verdict(reply: &FuzzyReply, allow_plain: bool) -> (verdict: Result<String, FailReason>)
    ensures
        verdict_text(verdict) == fuzzy_verdict_of(reply@, allow_plain),
{
    match reply {
        FuzzyReply::Found(candidates) => match select_fuzzy(candidates, allow_plain) {
            Some(text) => Ok(text),
            None => Err(FailReason::NoLyrics),
        },
        FuzzyReply::ParseError => Err(FailReason::ParseError),
        FuzzyReply::TransportError => Err(FailReason::TransportError),
    }
}

/// A status code that reports success.
pub open spec fn is_success_status(status: u16) -> bool {
    200 <= status && status <= 299
}

/// The record of an optional record, as plain values.
pub open spec fn record_of(record: Option<Candidate>) -> Option<CandidateView> {
    match record {
        Some(c) => Some(c@),
        None => None,
    }
}

/// The records of an optional list, as plain values.
pub open spec fn records_of(records: Option<Vec<Candidate>>) -> Option<Seq<CandidateView>> {
    match records {
        Some(cs) => Some(views_of(cs@)),
        None => None,
    }
}

/// How an exact lookup ended, given the status of the response, if one
/// came, and the record in its body, if the body holds one. A request that
/// did not complete is a transport error; a status other than success, or
/// a body that is no record, is a parse error.
pub open spec fn exact_reply_of(status: Option<u16>, record: Option<CandidateView>) -> ExactReplyView {
    match status {
        None => ExactReplyView::TransportError,
        Some(code) => match record {
            Some(c) if is_success_status(code) => ExactReplyView::Found(c),
            _ => ExactReplyView::ParseError,
        },
    }
}

/// How a search ended, given the status of the response, if one came, and
/// the records in its body, if the body holds a list of records.
pub open spec fn fuzzy_reply_of(status: Option<u16>, records: Option<Seq<CandidateView>>) -> FuzzyReplyView {
    match status {
        None => FuzzyReplyView::TransportError,
        Some(code) => match records {
            Some(cs) if is_success_status(code) => FuzzyReplyView::Found(cs),
            _ => FuzzyReplyView::ParseError,
        },
    }
}

/// Classifies the end of an exact lookup. `status` is `None` where the
/// request did not complete; `record` is `None` where the body could not be
/// read as a record.
pub fn exact_reply(status: Option<u16>, record: Option<Candidate>) -> (reply: ExactReply)
    ensures
        reply@ == exact_reply_of(status, record_of(record)),
{
    match status {
        None => ExactReply::TransportError,
        Some(code) => match record {
            Some(candidate) => if 200 <= code && code <= 299 {
                ExactReply::Found(candidate)
            } else {
                ExactReply::ParseError
            },
            None => ExactReply::ParseError,
        },
    }
}

/// Classifies the end of a search. `status` is `None` where the request did
/// not complete; `records` is `None` where the body could not be read as a
/// list of records.
pub fn fuzzy_reply(status: Option<u16>, records: Option<Vec<Candidate>>) -> (reply: FuzzyReply)
    ensures
        reply@ == fuzzy_reply_of(status, records_of(records)),
{
    match status {
        None => FuzzyReply::TransportError,
        Some(code) => match records {
            Some(candidates) => if 200 <= code && code <= 299 {
                FuzzyReply::Found(candidates)
            } else {
                FuzzyReply::ParseError
            },
            None => FuzzyReply::ParseError,
        },
    }
}

} // verus!
