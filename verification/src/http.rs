//! Requests over HTTP and what came of them.
//!
//! The library decides which request to send and what a reply means.
//! Sending is the caller's part.

use vstd::prelude::*;

verus! {

/// The methods of the requests that are sent.
#[derive(Clone, Copy, Debug, PartialEq, Eq, Structural)]
pub enum HttpMethod {
    Get,
    Put,
    /// Asks for the properties of a resource: the probe for a directory.
    Propfind,
    /// Makes a directory.
    Mkcol,
}

/// A request to the remote store.
#[derive(Debug, PartialEq, Eq)]
pub struct HttpRequest {
    pub method: HttpMethod,
    pub url: String,
    /// Header names and values, in order.
    pub headers: Vec<(String, String)>,
    pub body: Option<String>,
    /// After so many seconds the request counts as failed.
    pub timeout_secs: u64,
}

/// Mathematical form of [`HttpRequest`].
pub struct HttpRequestView {
    pub method: HttpMethod,
    pub url: Seq<char>,
    pub headers: Seq<(Seq<char>, Seq<char>)>,
    pub body: Option<Seq<char>>,
    pub timeout_secs: u64,
}

impl View for HttpRequest {
    type V = HttpRequestView;

    open spec fn view(&self) -> HttpRequestView {
        HttpRequestView {
            method: self.method,
            url: self.url@,
            headers: self.headers.deep_view(),
            body: self.body.deep_view(),
            timeout_secs: self.timeout_secs,
        }
    }
}

impl DeepView for HttpRequest {
    type V = HttpRequestView;

    open spec fn deep_view(&self) -> HttpRequestView {
        self@
    }
}

/// The reply to a request.
#[derive(Debug, PartialEq, Eq)]
pub struct HttpReply {
    pub status: u16,
    /// The body as text, or the reason why it could not be read.
    pub body: Result<String, String>,
}

/// Why there is no reply.
#[derive(Debug, PartialEq, Eq)]
pub enum HttpFailure {
    /// No client could be set up.
    Client(String),
    /// The request could not be sent, or no reply came in time.
    Send(String),
}

/// Mathematical form of what came of a request.
pub enum HttpOutcomeView {
    NoClient(Seq<char>),
    NotSent(Seq<char>),
    Replied { status: u16, body: Result<Seq<char>, Seq<char>> },
}

/// What came of a request as the caller reports it.
pub open spec fn http_outcome_of(outcome: Result<HttpReply, HttpFailure>) -> HttpOutcomeView {
    match outcome {
        Ok(reply) => HttpOutcomeView::Replied {
            status: reply.status,
            body: match reply.body {
                Ok(text) => Ok(text@),
                Err(reason) => Err(reason@),
            },
        },
        Err(HttpFailure::Client(reason)) => HttpOutcomeView::NoClient(reason@),
        Err(HttpFailure::Send(reason)) => HttpOutcomeView::NotSent(reason@),
    }
}

/// A status from 200 to 299.
pub open spec fn is_success(status: u16) -> bool {
    200 <= status < 300
}

} // verus!
