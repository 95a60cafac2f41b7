//! The completion of one request: what remains to be done once the
//! downstream handler's response is there.

use crate::headers::{
    decimal, header_entries, lemma_decimal_is_value_text, lemma_header_names, render_decimal,
    try_insert, with_header, LIMIT, REMAINING, WHITELISTED, WHITELISTED_VALUE,
};
use crate::response::{Reply, ReplyView};
use http::header::{HeaderMap, HeaderValue};
use vstd::prelude::*;

verus! {

/// The four shapes of a completion. The shape is fixed when the request is
/// admitted or refused and never changes afterwards.
#[derive(Debug)]
pub enum Kind {
    /// The handler's response is returned as it is.
    Passthrough,
    /// The handler's response gets the burst size and the tokens that were
    /// left when the request was admitted.
    RateLimitHeader { burst_size: u32, remaining_burst_capacity: u32 },
    /// The handler's response gets the marker of a request that bypassed
    /// limiting.
    WhitelistedHeader,
    /// The request is not forwarded; the reply is held here until it is
    /// handed out.
    Error { error_response: Option<Reply> },
}

/// A completion shape as a mathematical value.
pub enum KindView {
    Passthrough,
    RateLimitHeader { burst_size: u32, remaining_burst_capacity: u32 },
    WhitelistedHeader,
    Error { error_response: Option<ReplyView> },
}

impl View for Kind {
    type V = KindView;

    open spec fn view(&self) -> KindView {
        match *self {
            Kind::Passthrough => KindView::Passthrough,
            Kind::RateLimitHeader { burst_size, remaining_burst_capacity } => KindView::RateLimitHeader {
                burst_size,
                remaining_burst_capacity,
            },
            Kind::WhitelistedHeader => KindView::WhitelistedHeader,
            Kind::Error { error_response } => KindView::Error {
                error_response: match error_response {
                    Some(reply) => Some(reply@),
                    None => None,
                },
            },
        }
    }
}

/// The headers of the handler's response after the completion has added its
/// own to them.
pub open spec fn annotated(kind: KindView, entries: Map<Seq<char>, Seq<Seq<u8>>>) -> Map<
    Seq<char>,
    Seq<Seq<u8>>,
> {
    match kind {
        KindView::Passthrough => entries,
        KindView::RateLimitHeader { burst_size, remaining_burst_capacity } => with_header(
            with_header(entries, LIMIT@, decimal(burst_size as nat)),
            REMAINING@,
            decimal(remaining_burst_capacity as nat),
        ),
        KindView::WhitelistedHeader => with_header(entries, WHITELISTED@, WHITELISTED_VALUE@),
        KindView::Error { .. } => entries,
    }
}

/// The headers of the handler's response where the header map was full
/// before the completion had added all of its own.
pub open spec fn partly_annotated(kind: KindView, entries: Map<Seq<char>, Seq<Seq<u8>>>) -> Set<
    Map<Seq<char>, Seq<Seq<u8>>>,
> {
    match kind {
        KindView::RateLimitHeader { burst_size, .. } => set![
            entries,
            with_header(entries, LIMIT@, decimal(burst_size as nat)),
        ],
        KindView::WhitelistedHeader => set![entries],
        _ => Set::empty(),
    }
}

/// The state of the response future of one request.
#[derive(Debug)]
pub struct ResponseFuture {
    pub inner: Kind,
}

impl View for ResponseFuture {
    type V = KindView;

    open spec fn view(&self) -> KindView {
        self.inner@
    }
}

impl ResponseFuture {
    /// Whether the request is forwarded to the downstream handler: in every
    /// shape but the terminal one.
    pub fn forwards(&self) -> (forwards: bool)
        ensures
            forwards == !(self@ is Error),
    {
        match self.inner {
            Kind::Error { .. } => false,
            _ => true,
        }
    }

    /// Hands out the reply of a terminal completion, once. A completion that
    /// waits for the handler has none and stays as it is.
    pub fn take_reply(&mut self) -> (reply: Option<Reply>)
        ensures
            match old(self)@ {
                KindView::Error { error_response } => {
                    &&& final(self)@ == (KindView::Error { error_response: None })
                    &&& reply is Some == error_response is Some
                    &&& reply is Some ==> reply->0@ == error_response->0
                },
                _ => reply is None && final(self)@ == old(self)@,
            },
    {
        match &mut self.inner {
            Kind::Error { error_response } => error_response.take(),
            _ => None,
        }
    }

    /// Adds to the headers of the handler's response what the completion's
    /// shape asks for. Returns `false` where the header map reported that it
    /// is full; the headers added before that stay.
    pub fn annotate(&self, headers: &mut HeaderMap<HeaderValue>) -> (done: bool)
        ensures
            done ==> header_entries(*final(headers)) == annotated(
                self@,
                header_entries(*old(headers)),
            ),
            !done ==> partly_annotated(self@, header_entries(*old(headers))).contains(
                header_entries(*final(headers)),
            ),
    {
        proof {
            lemma_header_names();
        }
        match &self.inner {
            Kind::Passthrough => true,
            Kind::RateLimitHeader { burst_size, remaining_burst_capacity } => {
                proof {
                    lemma_decimal_is_value_text(*burst_size as nat);
                    lemma_decimal_is_value_text(*remaining_burst_capacity as nat);
                }
                let limit = render_decimal(*burst_size as u64);
                let remaining = render_decimal(*remaining_burst_capacity as u64);
                try_insert(headers, LIMIT, limit.as_str()) && try_insert(
                    headers,
                    REMAINING,
                    remaining.as_str(),
                )
            },
            Kind::WhitelistedHeader => try_insert(headers, WHITELISTED, WHITELISTED_VALUE),
            Kind::Error { .. } => true,
        }
    }
}

} // verus!
