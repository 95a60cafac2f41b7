//! The header collection of a request or response, and the operations on it
//! that admission control needs.

use http::header::{HeaderMap, HeaderName, HeaderValue};
use vstd::prelude::*;

verus! {

#[verifier::external_type_specification]
#[verifier::external_body]
#[verifier::reject_recursive_types(T)]
pub struct ExHeaderMap<T>(HeaderMap<T>);

#[verifier::external_type_specification]
#[verifier::external_body]
pub struct ExHeaderValue(HeaderValue);

/// What a header map holds: for each header name present, in lower case, the
/// values stored under it, first value first, each as its bytes.
pub uninterp spec fn header_entries(headers: HeaderMap<HeaderValue>) -> Map<Seq<char>, Seq<Seq<u8>>>;

/// A character that may stand in a header name handled by this library.
pub open spec fn is_name_char(c: char) -> bool {
    ('a' <= c && c <= 'z') || ('0' <= c && c <= '9') || c == '-' || c == '_'
}

/// A header name that this library writes or looks up: non-empty, at most 64
/// characters, made of lower-case letters, digits, `-` and `_`.
pub open spec fn is_header_name(name: Seq<char>) -> bool {
    &&& 0 < name.len() <= 64
    &&& forall|i: int| 0 <= i < name.len() ==> is_name_char(#[trigger] name[i])
}

/// A character that may stand in a header value written by this library:
/// printable ASCII.
pub open spec fn is_value_char(c: char) -> bool {
    ' ' <= c && c <= '~'
}

/// A header value that this library writes.
pub open spec fn is_value_text(value: Seq<char>) -> bool {
    forall|i: int| 0 <= i < value.len() ==> is_value_char(#[trigger] value[i])
}

/// The bytes of an ASCII text.
pub open spec fn text_bytes(text: Seq<char>) -> Seq<u8> {
    Seq::new(text.len(), |i: int| text[i] as u8)
}

/// The contents of a header map after `value` has replaced whatever stood
/// under `name`.
pub open spec fn with_header(
    entries: Map<Seq<char>, Seq<Seq<u8>>>,
    name: Seq<char>,
    value: Seq<char>,
) -> Map<Seq<char>, Seq<Seq<u8>>> {
    entries.insert(name, seq![text_bytes(value)])
}

/// `HeaderMap::try_insert`, with the name made by `HeaderName::from_static`
/// and the value by `HeaderValue::from_str`. On success the value is the only
/// one under the name and every other name keeps its values; when the map
/// reports that it is full, it is left as it was.
#[verifier::external_body]
pub(crate) fn try_insert(
    headers: &mut HeaderMap<HeaderValue>,
    name: &'static str,
    value: &str,
) -> (inserted: bool)
    requires
        is_header_name(name@),
        is_value_text(value@),
    ensures
        inserted ==> header_entries(*final(headers)) == with_header(
            header_entries(*old(headers)),
            name@,
            value@,
        ),
        !inserted ==> header_entries(*final(headers)) == header_entries(*old(headers)),
{
    match HeaderValue::from_str(value) {
        Ok(v) => headers.try_insert(HeaderName::from_static(name), v).is_ok(),
        Err(_) => false,
    }
}

/// `HeaderMap::get` with a name given as text: the bytes of the first value
/// stored under the name, if the map holds the name.
#[verifier::external_body]
pub(crate) fn first_value(headers: &HeaderMap<HeaderValue>, name: &str) -> (value: Option<Vec<u8>>)
    requires
        is_header_name(name@),
    ensures
        value is Some <==> header_entries(*headers).contains_key(name@),
        value is Some ==> header_entries(*headers)[name@].len() > 0 && value->0@
            == header_entries(*headers)[name@][0],
{
    match headers.get(name) {
        Some(v) => Some(v.as_bytes().to_vec()),
        None => None,
    }
}

/// Whether `name` is a header name that this library handles.
pub fn check_header_name(name: &str) -> (valid: bool)
    ensures
        valid == is_header_name(name@),
{
    let n = name.unicode_len();
    if n == 0 || n > 64 {
        return false;
    }
    let mut i: usize = 0;
    while i < n
        invariant
            n == name@.len(),
            i <= n,
            forall|j: int| 0 <= j < i ==> is_name_char(#[trigger] name@[j]),
        decreases n - i,
    {
        let c = name.get_char(i);
        if !(('a' <= c && c <= 'z') || ('0' <= c && c <= '9') || c == '-' || c == '_') {
            return false;
        }
        i += 1;
    }
    true
}

/// The header that carries the configured burst size.
pub const LIMIT: &'static str = "x-ratelimit-limit";

/// The header that carries the tokens left at decision time.
pub const REMAINING: &'static str = "x-ratelimit-remaining";

/// The header that carries the seconds until the next token.
pub const AFTER: &'static str = "x-ratelimit-after";

/// The header that marks a request that bypassed limiting.
pub const WHITELISTED: &'static str = "x-ratelimit-whitelisted";

/// The value of the bypass marker.
pub const WHITELISTED_VALUE: &'static str = "true";

/// The four header names are names that a header map accepts, they differ
/// from each other, and the marker's value is a value that it accepts.
pub proof fn lemma_header_names()
    ensures
        is_header_name(LIMIT@),
        is_header_name(REMAINING@),
        is_header_name(AFTER@),
        is_header_name(WHITELISTED@),
        is_value_text(WHITELISTED_VALUE@),
        LIMIT@ != REMAINING@,
        LIMIT@ != AFTER@,
        REMAINING@ != AFTER@,
        WHITELISTED@ != LIMIT@,
        WHITELISTED@ != REMAINING@,
        WHITELISTED@ != AFTER@,
{
    reveal_strlit("x-ratelimit-limit");
    reveal_strlit("x-ratelimit-remaining");
    reveal_strlit("x-ratelimit-after");
    reveal_strlit("x-ratelimit-whitelisted");
    reveal_strlit("true");
    assert(LIMIT@[12] == 'l' && REMAINING@[12] == 'r' && AFTER@[12] == 'a' && WHITELISTED@[12] == 'w');
}

/// The character of a decimal digit.
pub open spec fn digit_char(d: nat) -> char
    recommends
        d < 10,
{
    if d == 0 {
        '0'
    } else if d == 1 {
        '1'
    } else if d == 2 {
        '2'
    } else if d == 3 {
        '3'
    } else if d == 4 {
        '4'
    } else if d == 5 {
        '5'
    } else if d == 6 {
        '6'
    } else if d == 7 {
        '7'
    } else if d == 8 {
        '8'
    } else {
        '9'
    }
}

/// A number in decimal, most significant digit first, without leading zeros.
pub open spec fn decimal(n: nat) -> Seq<char>
    decreases n,
{
    if n < 10 {
        seq![digit_char(n)]
    } else {
        decimal(n / 10).push(digit_char(n % 10))
    }
}

/// Decimal text never needs escaping in a header value.
pub proof fn lemma_decimal_is_value_text(n: nat)
    ensures
        is_value_text(decimal(n)),
        decimal(n).len() >= 1,
    decreases n,
{
    if n >= 10 {
        lemma_decimal_is_value_text(n / 10);
    }
}

fn digit_text(d: u64) -> (text: &'static str)
    requires
        d < 10,
    ensures
        text@ == seq![digit_char(d as nat)],
{
    proof {
        reveal_strlit("0");
        reveal_strlit("1");
        reveal_strlit("2");
        reveal_strlit("3");
        reveal_strlit("4");
        reveal_strlit("5");
        reveal_strlit("6");
        reveal_strlit("7");
        reveal_strlit("8");
        reveal_strlit("9");
    }
    let text = if d == 0 {
        "0"
    } else if d == 1 {
        "1"
    } else if d == 2 {
        "2"
    } else if d == 3 {
        "3"
    } else if d == 4 {
        "4"
    } else if d == 5 {
        "5"
    } else if d == 6 {
        "6"
    } else if d == 7 {
        "7"
    } else if d == 8 {
        "8"
    } else {
        "9"
    };
    assert(text@ =~= seq![digit_char(d as nat)]);
    text
}

/// Renders a number as the decimal text that a header carries.
pub fn render_decimal(n: u64) -> (text: String)
    ensures
        text@ == decimal(n as nat),
    decreases n,
{
    if n < 10 {
        String::from_str(digit_text(n))
    } else {
        let mut text = render_decimal(n / 10);
        text.append(digit_text(n % 10));
        assert(text@ =~= decimal(n as nat));
        text
    }
}

} // verus!
