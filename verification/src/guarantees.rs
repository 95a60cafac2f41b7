//! What holds of every request, whatever the tracker decides.

use crate::future::{annotated, KindView};
use crate::governor::{bypass, decided, failed};
use crate::headers::{
    decimal, lemma_header_names, text_bytes, AFTER, LIMIT, REMAINING, WHITELISTED,
    WHITELISTED_VALUE,
};
use crate::method::is_limited;
use crate::quota::Decision;
use crate::response::{rejection, Middleware, INTERNAL_SERVER_ERROR, TOO_MANY_REQUESTS};
use vstd::prelude::*;

verus! {

/// The value that decimal text stands for.
pub open spec fn decimal_value(text: Seq<char>) -> nat
    decreases text.len(),
{
    if text.len() == 0 {
        0
    } else {
        decimal_value(text.drop_last()) * 10 + (text.last() as nat - '0' as nat) as nat
    }
}

/// Decimal text stands for the number that it was rendered from, so two
/// numbers with the same text are the same number.
pub proof fn lemma_decimal_value(n: nat)
    ensures
        decimal_value(decimal(n)) == n,
    decreases n,
{
    if n < 10 {
        assert(decimal(n).drop_last() =~= Seq::<char>::empty());
        assert(decimal_value(decimal(n).drop_last()) == 0);
    } else {
        lemma_decimal_value(n / 10);
        assert(decimal(n).drop_last() =~= decimal(n / 10));
    }
}

/// An admitted request whose quota state is reported is forwarded, and the
/// handler's response then carries, as the only values of their headers, the
/// burst size and the remaining tokens of that very decision; the remaining
/// count does not exceed the limit.
pub proof fn admitted_headers_reflect_decision(
    burst_size: u32,
    remaining: u32,
    entries: Map<Seq<char>, Seq<Seq<u8>>>,
)
    requires
        (Decision::Admit { burst_size, remaining }).well_formed(),
    ensures
        ({
            let kind = decided(Middleware::StateInformation, Decision::Admit { burst_size, remaining });
            let sent = annotated(kind, entries);
            &&& kind == (KindView::RateLimitHeader { burst_size, remaining_burst_capacity: remaining })
            &&& sent[LIMIT@] == seq![text_bytes(decimal(burst_size as nat))]
            &&& sent[REMAINING@] == seq![text_bytes(decimal(remaining as nat))]
            &&& decimal_value(decimal(remaining as nat)) <= decimal_value(decimal(burst_size as nat))
            &&& forall|name: Seq<char>|
                name != LIMIT@ && name != REMAINING@ ==> (sent.contains_key(name)
                    <==> entries.contains_key(name))
            &&& forall|name: Seq<char>|
                name != LIMIT@ && name != REMAINING@ && entries.contains_key(name) ==> sent[name]
                    == entries[name]
        }),
{
    lemma_header_names();
    lemma_decimal_value(remaining as nat);
    lemma_decimal_value(burst_size as nat);
}

/// A request whose method the allow-list does not name is not limited: it is
/// forwarded, never rejected, and where quota state is reported the
/// handler's response carries the bypass marker as the only value of its
/// header.
pub proof fn unlisted_method_bypasses(
    method: Seq<char>,
    listed: Seq<Seq<char>>,
    middleware: Middleware,
    entries: Map<Seq<char>, Seq<Seq<u8>>>,
)
    requires
        !listed.contains(method),
    ensures
        !is_limited(method, Some(listed)),
        !(bypass(middleware) is Error),
        annotated(bypass(Middleware::StateInformation), entries)[WHITELISTED@] == seq![
            text_bytes(WHITELISTED_VALUE@),
        ],
        annotated(bypass(Middleware::NoOp), entries) == entries,
{
}

/// A request from which no key could be extracted is never forwarded: its
/// completion is terminal and holds a reply of status 500 without headers,
/// whose body is the extraction error's description.
pub proof fn extraction_failure_is_terminal(reason: Seq<char>)
    ensures
        failed(reason) is Error,
        failed(reason)->error_response is Some,
        failed(reason)->error_response->0.status == INTERNAL_SERVER_ERROR,
        failed(reason)->error_response->0.headers.len() == 0,
        failed(reason)->error_response->0.body == reason,
{
}

/// A denied request is never forwarded, whatever the wait.
pub proof fn denied_request_is_terminal(middleware: Middleware, retry_after: u64, burst_size: u32)
    ensures
        decided(middleware, Decision::Deny { retry_after, burst_size }) == (KindView::Error {
            error_response: Some(rejection(middleware, retry_after, burst_size)),
        }),
        rejection(middleware, retry_after, burst_size).status == TOO_MANY_REQUESTS,
{
}

/// Two rejections under the same burst size differ in nothing but the value
/// of the header that tells the wait: status, body, the names of all headers
/// and the values of all others are the same.
pub proof fn rejections_differ_only_in_wait(
    middleware: Middleware,
    burst_size: u32,
    first_wait: u64,
    second_wait: u64,
)
    ensures
        ({
            let first = rejection(middleware, first_wait, burst_size);
            let second = rejection(middleware, second_wait, burst_size);
            &&& first.status == second.status
            &&& first.body == second.body
            &&& first.headers.len() == second.headers.len()
            &&& first.headers[0] == (AFTER@, decimal(first_wait as nat))
            &&& second.headers[0] == (AFTER@, decimal(second_wait as nat))
            &&& forall|i: int| 1 <= i < first.headers.len() ==> first.headers[i] == second.headers[i]
            &&& forall|i: int| 1 <= i < first.headers.len() ==> first.headers[i].0 != AFTER@
            &&& first_wait == second_wait ==> first == second
        }),
{
    lemma_header_names();
}

/// The wait that a rejection tells is the wait that the tracker gave: a
/// later rejection with a shorter wait tells a smaller number.
pub proof fn shorter_wait_tells_smaller_number(first_wait: u64, second_wait: u64)
    requires
        second_wait <= first_wait,
    ensures
        decimal_value(decimal(second_wait as nat)) <= decimal_value(decimal(first_wait as nat)),
{
    lemma_decimal_value(first_wait as nat);
    lemma_decimal_value(second_wait as nat);
}

} // verus!
