//! The ingestion handler, as the two decisions around the one insert.
//!
//! The caller owns the storage round trip: it asks [`add_reading`] what to do
//! with a request, performs the insert if one is asked for, and hands the
//! outcome to [`conclude_add_reading`] for the answer.

use vstd::prelude::*;
use crate::auth::credential_bytes;
use crate::auth::verdict_for;
use crate::auth::AuthGate;
use crate::auth::Verdict;
use crate::reading::Measurement;
use crate::reading::Reading;
use crate::reading::ReadingView;
use crate::response::Response;
use crate::response::ResponseView;

verus! {

/// What to do with one ingestion request.
#[derive(Clone, Debug, PartialEq, Eq)]
pub enum Ingestion {
    /// Store these values in one insert; identifier and time are storage's to assign.
    Insert(Measurement),
    /// Answer at once and write nothing.
    Reject(Response),
}

/// Mathematical value of an [`Ingestion`].
pub enum IngestionView {
    Insert(Measurement),
    Reject(ResponseView),
}

impl View for Ingestion {
    type V = IngestionView;

    open spec fn view(&self) -> IngestionView {
        match *self {
            Ingestion::Insert(values) => IngestionView::Insert(values),
            Ingestion::Reject(response) => IngestionView::Reject(response@),
        }
    }
}

/// The decision on a request: authentication comes first, and only an
/// authorized request leads to an insert, of the seven submitted values and
/// nothing else.
pub open spec fn ingestion_for(
    secret: Option<Seq<char>>,
    credential: Option<Seq<u8>>,
    payload: ReadingView,
) -> IngestionView {
    match verdict_for(secret, credential) {
        Verdict::Authorized => IngestionView::Insert(payload.values),
        Verdict::Unauthorized => IngestionView::Reject(ResponseView::Unauthorized),
        Verdict::Misconfigured => IngestionView::Reject(ResponseView::Misconfigured),
    }
}

/// The answer that follows the insert: success, or storage's own words.
pub open spec fn response_after_insert(outcome: Result<(), Seq<char>>) -> ResponseView {
    match outcome {
        Ok(_) => ResponseView::Success,
        Err(text) => ResponseView::StorageFailure(text),
    }
}

/// The text of an insert's outcome.
pub open spec fn outcome_text(outcome: Result<(), String>) -> Result<(), Seq<char>> {
    match outcome {
        Ok(_) => Ok(()),
        Err(text) => Err(text@),
    }
}

/// Decides what to do with a submitted reading and the credential that came
/// with it. Any identifier or time in the submission is ignored.
pub fn add_reading(gate: &AuthGate, credential: Option<&[u8]>, payload: &Reading) -> (step:
    Ingestion)
    ensures
        step@ == ingestion_for(gate@, credential_bytes(credential), payload@),
{
    match gate.check(credential) {
        Verdict::Misconfigured => Ingestion::Reject(Response::Misconfigured),
        Verdict::Unauthorized => Ingestion::Reject(Response::Unauthorized),
        Verdict::Authorized => Ingestion::Insert(payload.values),
    }
}

/// Turns the outcome of the insert into the answer. A failure is reported
/// once, with the text that storage gave, and is not retried.
pub fn conclude_add_reading(outcome: Result<(), String>) -> (response: Response)
    ensures
        response@ == response_after_insert(outcome_text(outcome)),
{
    match outcome {
        Ok(_) => Response::Success,
        Err(text) => Response::StorageFailure(text),
    }
}

} // verus!
