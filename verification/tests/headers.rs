use http::header::{HeaderMap, HeaderName, HeaderValue};
use tower_governor::future::{Kind, ResponseFuture};
use tower_governor::headers::{check_header_name, render_decimal};

#[test]
fn decimal_of_small_and_large_numbers() {
    assert_eq!(render_decimal(0), "0");
    assert_eq!(render_decimal(7), "7");
    assert_eq!(render_decimal(10), "10");
    assert_eq!(render_decimal(429), "429");
    assert_eq!(render_decimal(4_294_967_295), "4294967295");
    assert_eq!(render_decimal(u64::MAX), "18446744073709551615");
}

#[test]
fn decimal_agrees_with_std_formatting() {
    let mut n: u64 = 1;
    for _ in 0..19 {
        assert_eq!(render_decimal(n), n.to_string());
        assert_eq!(render_decimal(n - 1), (n - 1).to_string());
        n *= 10;
    }
}

#[test]
fn header_names_are_lower_case_tokens() {
    assert!(check_header_name("x-api-key"));
    assert!(check_header_name("x_forwarded_for2"));
    assert!(!check_header_name(""));
    assert!(!check_header_name("X-Api-Key"));
    assert!(!check_header_name("x api key"));
    assert!(!check_header_name("x-api-key:"));
    assert!(check_header_name(&"a".repeat(64)));
    assert!(!check_header_name(&"a".repeat(65)));
}

#[test]
fn passthrough_leaves_headers_alone() {
    let mut headers = HeaderMap::new();
    headers.insert(HeaderName::from_static("content-type"), HeaderValue::from_static("text/plain"));
    let before = headers.clone();
    let future = ResponseFuture { inner: Kind::Passthrough };
    assert!(future.forwards());
    assert!(future.annotate(&mut headers));
    assert_eq!(headers, before);
}

#[test]
fn admitted_response_carries_limit_and_remaining() {
    let mut headers = HeaderMap::new();
    headers.insert(HeaderName::from_static("content-type"), HeaderValue::from_static("text/plain"));
    let future =
        ResponseFuture { inner: Kind::RateLimitHeader { burst_size: 50, remaining_burst_capacity: 49 } };
    assert!(future.forwards());
    assert!(future.annotate(&mut headers));
    assert_eq!(headers.len(), 3);
    assert_eq!(headers.get("x-ratelimit-limit").unwrap(), "50");
    assert_eq!(headers.get("x-ratelimit-remaining").unwrap(), "49");
    assert_eq!(headers.get("content-type").unwrap(), "text/plain");
}

#[test]
fn quota_headers_replace_values_set_by_the_handler() {
    let mut headers = HeaderMap::new();
    headers.append(HeaderName::from_static("x-ratelimit-limit"), HeaderValue::from_static("7"));
    headers.append(HeaderName::from_static("x-ratelimit-limit"), HeaderValue::from_static("8"));
    let future =
        ResponseFuture { inner: Kind::RateLimitHeader { burst_size: 2, remaining_burst_capacity: 0 } };
    assert!(future.annotate(&mut headers));
    let limits: Vec<&HeaderValue> = headers.get_all("x-ratelimit-limit").iter().collect();
    assert_eq!(limits.len(), 1);
    assert_eq!(limits[0], "2");
    assert_eq!(headers.get("x-ratelimit-remaining").unwrap(), "0");
}

#[test]
fn whitelisted_response_carries_the_marker() {
    let mut headers = HeaderMap::new();
    let future = ResponseFuture { inner: Kind::WhitelistedHeader };
    assert!(future.forwards());
    assert!(future.annotate(&mut headers));
    assert_eq!(headers.len(), 1);
    assert_eq!(headers.get("x-ratelimit-whitelisted").unwrap(), "true");
}

#[test]
fn full_header_map_is_reported_and_left_alone() {
    let mut headers = HeaderMap::new();
    let mut i = 0;
    while headers
        .try_insert(HeaderName::from_bytes(format!("h{}", i).as_bytes()).unwrap(), HeaderValue::from(i))
        .is_ok()
    {
        i += 1;
    }
    let before = headers.len();
    let future = ResponseFuture { inner: Kind::WhitelistedHeader };
    assert!(!future.annotate(&mut headers));
    assert_eq!(headers.len(), before);
    assert!(headers.get("x-ratelimit-whitelisted").is_none());
}
