//! What the ingestion endpoint answers.

use vstd::prelude::*;
use crate::reading::text_of;

verus! {

/// The answer to one ingestion request.
#[derive(Clone, Debug, PartialEq, Eq)]
pub enum Response {
    /// The reading was stored.
    Success,
    /// The request did not present the configured key.
    Unauthorized,
    /// The server has no key configured.
    Misconfigured,
    /// Storage refused the insert; the text is storage's own description.
    StorageFailure(String),
}

/// Mathematical value of a [`Response`].
pub enum ResponseView {
    Success,
    Unauthorized,
    Misconfigured,
    StorageFailure(Seq<char>),
}

impl View for Response {
    type V = ResponseView;

    open spec fn view(&self) -> ResponseView {
        match *self {
            Response::Success => ResponseView::Success,
            Response::Unauthorized => ResponseView::Unauthorized,
            Response::Misconfigured => ResponseView::Misconfigured,
            Response::StorageFailure(text) => ResponseView::StorageFailure(text@),
        }
    }
}

impl ResponseView {
    /// The HTTP status of the answer: 200 for a stored reading, 401 for a
    /// missing or wrong key, 500 for a server without a key and for a
    /// failure of storage.
    pub open spec fn status_code(self) -> u16 {
        match self {
            ResponseView::Success => 200,
            ResponseView::Unauthorized => 401,
            ResponseView::Misconfigured => 500,
            ResponseView::StorageFailure(_) => 500,
        }
    }

    /// The `status` member of the body.
    pub open spec fn status(self) -> Seq<char> {
        match self {
            ResponseView::Success => "success"@,
            _ => "error"@,
        }
    }

    /// The `message` member of the body; a success carries none.
    pub open spec fn message(self) -> Option<Seq<char>> {
        match self {
            ResponseView::Success => None,
            ResponseView::Unauthorized => Some("unauthorized"@),
            ResponseView::Misconfigured => Some("server misconfigured"@),
            ResponseView::StorageFailure(text) => Some(text),
        }
    }
}

impl Response {
    /// The HTTP status to answer with.
    pub fn status_code(&self) -> (code: u16)
        ensures
            code == self@.status_code(),
    {
        match self {
            Response::Success => 200,
            Response::Unauthorized => 401,
            Response::Misconfigured => 500,
            Response::StorageFailure(_) => 500,
        }
    }

    /// The `status` member of the body: `success` or `error`.
    pub fn status(&self) -> (status: &'static str)
        ensures
            status@ == self@.status(),
    {
        match self {
            Response::Success => "success",
            _ => "error",
        }
    }

    /// The `message` member of the body, absent on success. A failure of
    /// storage is reported in storage's own words, unredacted.
    pub fn message(&self) -> (message: Option<String>)
        ensures
            text_of(message) == self@.message(),
    {
        match self {
            Response::Success => None,
            Response::Unauthorized => Some("unauthorized".to_owned()),
            Response::Misconfigured => Some("server misconfigured".to_owned()),
            Response::StorageFailure(text) => Some(text.clone()),
        }
    }
}

} // verus!
