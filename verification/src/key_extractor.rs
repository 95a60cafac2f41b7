//! Key extraction: from a request to the key under which its quota is
//! tracked.

use crate::headers::{check_header_name, first_value, header_entries, is_header_name};
use crate::method::Method;
use crate::response::ExtractionError;
use http::header::{HeaderMap, HeaderValue};
use vstd::prelude::*;

verus! {

/// What admission control reads of a request: its method and its headers.
pub struct Request<'a> {
    pub method: &'a Method,
    pub headers: &'a HeaderMap<HeaderValue>,
}

/// A request as a mathematical value.
pub struct RequestView {
    pub method: Seq<char>,
    pub headers: Map<Seq<char>, Seq<Seq<u8>>>,
}

impl<'a> View for Request<'a> {
    type V = RequestView;

    open spec fn view(&self) -> RequestView {
        RequestView { method: self.method@, headers: header_entries(*self.headers) }
    }
}

/// The outcome of an extraction as a mathematical value.
pub open spec fn extraction_view(result: Result<Vec<u8>, ExtractionError>) -> Result<
    Seq<u8>,
    Seq<char>,
> {
    match result {
        Ok(key) => Ok(key@),
        Err(error) => Err(error@),
    }
}

/// A label as a mathematical value.
pub open spec fn label_view(label: Option<String>) -> Option<Seq<char>> {
    match label {
        Some(text) => Some(text@),
        None => None,
    }
}

/// A way to derive a key from a request. The key is a function of the
/// request alone: extraction reads the request and changes nothing. The
/// extractor's name and the label of a key serve log records only, and are
/// fixed by the extractor and the key.
pub trait KeyExtractor {
    /// The key of a request, or the reason why it has none.
    spec fn key_of(&self, request: RequestView) -> Result<Seq<u8>, Seq<char>>;

    /// Extracts the key of a request.
    fn extract(&self, request: &Request<'_>) -> (result: Result<Vec<u8>, ExtractionError>)
        ensures
            extraction_view(result) == self.key_of(request@),
    ;

    /// The name under which the extractor appears in log records.
    spec fn name_of(&self) -> Seq<char>;

    /// The label under which a key appears in log records, if it has one.
    spec fn label_of(&self, key: Seq<u8>) -> Option<Seq<char>>;

    /// The extractor's name, for log records.
    fn name(&self) -> (name: &'static str)
        ensures
            name@ == self.name_of(),
    ;

    /// A label for a key, for log records only.
    fn key_name(&self, key: &Vec<u8>) -> (label: Option<String>)
        ensures
            label_view(label) == self.label_of(key@),
    ;
}

/// The name of the extractor that tracks all requests under one key.
pub const GLOBAL_NAME: &'static str = "global";

/// The name of the extractor that tracks requests by a header.
pub const HEADER_NAME: &'static str = "header";

/// Tracks all requests under one key.
#[derive(Clone, Copy, Debug)]
pub struct GlobalKeyExtractor;

impl KeyExtractor for GlobalKeyExtractor {
    open spec fn key_of(&self, request: RequestView) -> Result<Seq<u8>, Seq<char>> {
        Ok(Seq::empty())
    }

    fn extract(&self, request: &Request<'_>) -> (result: Result<Vec<u8>, ExtractionError>) {
        Ok(Vec::new())
    }

    open spec fn name_of(&self) -> Seq<char> {
        GLOBAL_NAME@
    }

    /// The one key has no label.
    open spec fn label_of(&self, key: Seq<u8>) -> Option<Seq<char>> {
        None
    }

    fn name(&self) -> (name: &'static str) {
        GLOBAL_NAME
    }

    fn key_name(&self, key: &Vec<u8>) -> (label: Option<String>) {
        None
    }
}

/// The description of the failure to find a header.
pub const MISSING_HEADER: &'static str = "Missing header: ";

/// Tracks requests by the first value of one header, and fails on requests
/// that lack it.
#[derive(Debug)]
pub struct HeaderKeyExtractor {
    header: String,
}

impl HeaderKeyExtractor {
    #[verifier::type_invariant]
    spec fn valid(self) -> bool {
        is_header_name(self.header@)
    }

    /// The name of the header that holds the key.
    pub closed spec fn header(self) -> Seq<char> {
        self.header@
    }

    /// An extractor that reads the header `name`, or `None` where `name` is
    /// not a header name in lower case.
    pub fn new(name: &str) -> (extractor: Option<HeaderKeyExtractor>)
        ensures
            extractor is Some <==> is_header_name(name@),
            extractor is Some ==> extractor->0.header() == name@,
    {
        if check_header_name(name) {
            Some(HeaderKeyExtractor { header: String::from_str(name) })
        } else {
            None
        }
    }
}

impl KeyExtractor for HeaderKeyExtractor {
    open spec fn key_of(&self, request: RequestView) -> Result<Seq<u8>, Seq<char>> {
        if request.headers.contains_key(self.header()) {
            Ok(request.headers[self.header()][0])
        } else {
            Err(MISSING_HEADER@ + self.header())
        }
    }

    fn extract(&self, request: &Request<'_>) -> (result: Result<Vec<u8>, ExtractionError>) {
        proof {
            use_type_invariant(self);
        }
        match first_value(request.headers, self.header.as_str()) {
            Some(value) => Ok(value),
            None => {
                let mut reason = String::from_str(MISSING_HEADER);
                reason.append(self.header.as_str());
                Err(ExtractionError { reason })
            },
        }
    }

    open spec fn name_of(&self) -> Seq<char> {
        HEADER_NAME@
    }

    /// A header's value may be a secret: it gets no label.
    open spec fn label_of(&self, key: Seq<u8>) -> Option<Seq<char>> {
        None
    }

    fn name(&self) -> (name: &'static str) {
        HEADER_NAME
    }

    fn key_name(&self, key: &Vec<u8>) -> (label: Option<String>) {
        None
    }
}

} // verus!
