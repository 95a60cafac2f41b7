//! The replies that admission control synthesizes itself.

use crate::headers::{decimal, render_decimal, AFTER, LIMIT, REMAINING};
use vstd::prelude::*;

verus! {

/// The status of a reply to a request whose quota is exhausted.
pub const TOO_MANY_REQUESTS: u16 = 429;

/// The status of a reply to a request from which no key could be extracted.
pub const INTERNAL_SERVER_ERROR: u16 = 500;

/// The body of a reply to a request whose quota is exhausted.
pub const TOO_MANY_REQUESTS_BODY: &'static str = "Too many requests";

/// Whether admitted and rejected requests are told the state of their quota.
#[derive(Clone, Copy, Debug, PartialEq, Eq, Structural)]
pub enum Middleware {
    /// No quota state is reported.
    NoOp,
    /// Burst size and remaining tokens are reported in headers.
    StateInformation,
}

/// Why no key could be extracted from a request.
#[derive(Debug)]
pub struct ExtractionError {
    pub reason: String,
}

impl View for ExtractionError {
    type V = Seq<char>;

    open spec fn view(&self) -> Seq<char> {
        self.reason@
    }
}

impl ExtractionError {
    /// An error with the given description.
    pub fn new(reason: &str) -> (error: ExtractionError)
        ensures
            error@ == reason@,
    {
        ExtractionError { reason: String::from_str(reason) }
    }

    /// The error's description.
    pub fn to_string(&self) -> (text: String)
        ensures
            text@ == self@,
    {
        self.reason.clone()
    }
}

/// One header of a synthesized reply.
#[derive(Debug)]
pub struct Header {
    pub name: String,
    pub value: String,
}

impl View for Header {
    type V = (Seq<char>, Seq<char>);

    open spec fn view(&self) -> (Seq<char>, Seq<char>) {
        (self.name@, self.value@)
    }
}

/// A reply as a mathematical value.
pub struct ReplyView {
    pub status: u16,
    pub headers: Seq<(Seq<char>, Seq<char>)>,
    pub body: Seq<char>,
}

/// A reply that is sent instead of forwarding the request.
#[derive(Debug)]
pub struct Reply {
    pub status: u16,
    pub headers: Vec<Header>,
    pub body: String,
}

impl View for Reply {
    type V = ReplyView;

    open spec fn view(&self) -> ReplyView {
        ReplyView {
            status: self.status,
            headers: Seq::new(self.headers@.len(), |i: int| self.headers@[i]@),
            body: self.body@,
        }
    }
}

/// The headers of the reply to a request that was denied with
/// `retry_after` seconds to wait under a burst size of `burst_size`.
pub open spec fn rejection_headers(middleware: Middleware, retry_after: u64, burst_size: u32) -> Seq<
    (Seq<char>, Seq<char>),
> {
    match middleware {
        Middleware::NoOp => seq![(AFTER@, decimal(retry_after as nat))],
        Middleware::StateInformation => seq![
            (AFTER@, decimal(retry_after as nat)),
            (LIMIT@, decimal(burst_size as nat)),
            (REMAINING@, decimal(0)),
        ],
    }
}

/// The reply to a request that was denied.
pub open spec fn rejection(middleware: Middleware, retry_after: u64, burst_size: u32) -> ReplyView {
    ReplyView {
        status: TOO_MANY_REQUESTS,
        headers: rejection_headers(middleware, retry_after, burst_size),
        body: TOO_MANY_REQUESTS_BODY@,
    }
}

/// The reply to a request from which no key could be extracted.
pub open spec fn extraction_failure(reason: Seq<char>) -> ReplyView {
    ReplyView { status: INTERNAL_SERVER_ERROR, headers: Seq::empty(), body: reason }
}

fn header(name: &str, value: String) -> (header: Header)
    ensures
        header@ == (name@, value@),
{
    Header { name: String::from_str(name), value }
}

/// Synthesizes the reply to a denied request: status 429, the seconds to
/// wait, and, where quota state is reported, the burst size and a remaining
/// count of zero.
pub fn reject(middleware: Middleware, retry_after: u64, burst_size: u32) -> (reply: Reply)
    ensures
        reply@ == rejection(middleware, retry_after, burst_size),
{
    let mut headers: Vec<Header> = Vec::new();
    headers.push(header(AFTER, render_decimal(retry_after)));
    match middleware {
        Middleware::NoOp => {},
        Middleware::StateInformation => {
            headers.push(header(LIMIT, render_decimal(burst_size as u64)));
            headers.push(header(REMAINING, render_decimal(0)));
        },
    }
    let reply = Reply {
        status: TOO_MANY_REQUESTS,
        headers,
        body: String::from_str(TOO_MANY_REQUESTS_BODY),
    };
    assert(reply@.headers =~= rejection_headers(middleware, retry_after, burst_size));
    reply
}

/// Synthesizes the reply to a request from which no key could be extracted:
/// status 500, no headers, and the error's description as the body.
pub fn fail_extraction(error: &ExtractionError) -> (reply: Reply)
    ensures
        reply@ == extraction_failure(error@),
{
    let reply = Reply { status: INTERNAL_SERVER_ERROR, headers: Vec::new(), body: error.to_string() };
    assert(reply@.headers =~= Seq::empty());
    reply
}

} // verus!
