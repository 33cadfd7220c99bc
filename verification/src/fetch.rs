//! Classification of a page fetch.  The network transfer itself is the
//! caller's business; it hands the engine a [`FetchOutcome`] as a plain
//! value, and the engine classifies it into the page body or one of the
//! error kinds of [`ScrapeError`].

use vstd::prelude::*;
use crate::text::dec_spec;
use crate::text::u64_to_string;

verus! {

/// What a page fetch came back with: either the transfer failed outright
/// (connection, DNS or timeout trouble), or a response arrived with a
/// status code and, when the payload could be decoded as text, a body.
#[derive(Debug, Clone)]
pub enum FetchOutcome {
    /// The transfer itself failed; no response was received.
    TransportFailed,
    /// A response arrived.  `body` is `None` when the payload could not be
    /// decoded as text.
    Response { status: u16, body: Option<String> },
}

/// An error of the scraping pipeline.
#[derive(Debug, Clone)]
pub enum ScrapeError {
    /// The page could not be fetched at all.
    Network,
    /// The remote returned a status outside the success range.
    HttpStatus(u16),
    /// The response payload could not be decoded as text.
    BodyRead,
    /// A container selector string does not parse as a CSS selector; the
    /// offending selector text is carried along.
    Selector(String),
}

/// The mathematical value of a [`ScrapeError`].
pub enum ErrorModel {
    Network,
    HttpStatus(u16),
    BodyRead,
    Selector(Seq<char>),
}

impl View for ScrapeError {
    type V = ErrorModel;

    open spec fn view(&self) -> ErrorModel {
        match self {
            ScrapeError::Network => ErrorModel::Network,
            ScrapeError::HttpStatus(c) => ErrorModel::HttpStatus(*c),
            ScrapeError::BodyRead => ErrorModel::BodyRead,
            ScrapeError::Selector(s) => ErrorModel::Selector(s@),
        }
    }
}

impl DeepView for ScrapeError {
    type V = ErrorModel;

    open spec fn deep_view(&self) -> ErrorModel {
        self.view()
    }
}

/// Whether `status` lies in the HTTP success range.
pub open spec fn is_success_status(status: u16) -> bool {
    200 <= status < 300
}

/// How a fetch outcome is classified: the body on a success status, and
/// otherwise the error kind it falls under.
pub open spec fn classify_spec(o: FetchOutcome) -> Result<String, ErrorModel> {
    match o {
        FetchOutcome::TransportFailed => Err(ErrorModel::Network),
        FetchOutcome::Response { status, body } => {
            if !is_success_status(status) {
                Err(ErrorModel::HttpStatus(status))
            } else {
                match body {
                    Some(b) => Ok(b),
                    None => Err(ErrorModel::BodyRead),
                }
            }
        },
    }
}

/// Turns a fetch outcome into the page body, or the error it is classified
/// as: a transport failure is a network error, a status outside the
/// success range is an HTTP status error, and a success response whose
/// payload could not be decoded is a body read error.
pub fn classify_fetch(outcome: &FetchOutcome) -> (r: Result<String, ScrapeError>)
    ensures
        r is Ok <==> classify_spec(*outcome) is Ok,
        r matches Ok(b) ==> classify_spec(*outcome) == Ok::<String, ErrorModel>(b),
        r matches Err(e) ==> classify_spec(*outcome) == Err::<String, ErrorModel>(e@),
{
    match outcome {
        FetchOutcome::TransportFailed => Err(ScrapeError::Network),
        FetchOutcome::Response { status, body } => {
            if !(200 <= *status && *status < 300) {
                Err(ScrapeError::HttpStatus(*status))
            } else {
                match body {
                    Some(b) => Ok(b.clone()),
                    None => Err(ScrapeError::BodyRead),
                }
            }
        },
    }
}

/// The diagnostic line for an error value.
pub open spec fn message_spec(e: ErrorModel) -> Seq<char> {
    match e {
        ErrorModel::Network => "network error: the page could not be fetched"@,
        ErrorModel::HttpStatus(c) => "HTTP error: "@ + dec_spec(c as nat),
        ErrorModel::BodyRead => "error reading the response body"@,
        ErrorModel::Selector(s) => "invalid container selector: "@ + s,
    }
}

impl ScrapeError {
    /// A human-readable line describing the error.
    pub fn message(&self) -> (r: String)
        ensures
            r@ == message_spec(self@),
    {
        match self {
            ScrapeError::Network => "network error: the page could not be fetched".to_owned(),
            ScrapeError::HttpStatus(c) => {
                let mut s = String::from_str("HTTP error: ");
                s.append(u64_to_string(*c as u64).as_str());
                s
            },
            ScrapeError::BodyRead => "error reading the response body".to_owned(),
            ScrapeError::Selector(sel) => {
                let mut s = String::from_str("invalid container selector: ");
                s.append(sel.as_str());
                s
            },
        }
    }
}

} // verus!
