use cors_layer::{CorsError, CorsLayer, CorsLayerService, Layer};
use http::header::{HeaderMap, HeaderName, HeaderValue};
use http::{Response, StatusCode};
use std::str::FromStr;

const ORIGIN: &str = "Access-Control-Allow-Origin";
const METHODS: &str = "Access-Control-Allow-Methods";
const HEADERS: &str = "Access-Control-Allow-Headers";
const CREDENTIALS: &str = "Access-Control-Allow-Credentials";

fn service(
    origin: Option<&str>,
    credentials: bool,
    methods: Option<&str>,
    headers: Option<&str>,
) -> CorsLayerService<()> {
    CorsLayer::new(
        origin.map(String::from),
        credentials,
        methods.map(String::from),
        headers.map(String::from),
    )
    .layer(())
}

fn values(map: &HeaderMap, name: &str) -> Vec<Vec<u8>> {
    map.get_all(name).iter().map(|v| v.as_bytes().to_vec()).collect()
}

fn put(map: &mut HeaderMap, name: &str, value: &str) {
    map.append(
        HeaderName::from_str(name).unwrap(),
        HeaderValue::from_str(value).unwrap(),
    );
}

#[test]
fn origin_credentials_and_headers_scenario() {
    let svc = service(Some("https://example.com"), true, None, Some("X-Custom"));
    let mut response = Response::builder().status(200).body(()).unwrap();
    assert!(response.headers().is_empty());
    assert_eq!(svc.apply_headers(response.headers_mut()), Ok(()));
    let h = response.headers();
    assert_eq!(values(h, ORIGIN), vec![b"https://example.com".to_vec()]);
    assert_eq!(values(h, CREDENTIALS), vec![b"true".to_vec()]);
    assert_eq!(values(h, HEADERS), vec![b"X-Custom".to_vec()]);
    assert!(!h.contains_key(METHODS));
    assert_eq!(h.keys_len(), 3);
}

#[test]
fn empty_policy_scenario() {
    let svc = service(None, false, None, None);
    let mut headers = HeaderMap::new();
    assert_eq!(svc.apply_headers(&mut headers), Ok(()));
    assert_eq!(headers.keys_len(), 1);
    assert_eq!(values(&headers, CREDENTIALS), vec![b"false".to_vec()]);
}

#[test]
fn unconfigured_headers_are_never_added() {
    let svc = service(None, true, None, None);
    let mut headers = HeaderMap::new();
    put(&mut headers, "content-type", "text/plain");
    assert_eq!(svc.apply_headers(&mut headers), Ok(()));
    assert!(!headers.contains_key(ORIGIN));
    assert!(!headers.contains_key(METHODS));
    assert!(!headers.contains_key(HEADERS));
}

#[test]
fn unconfigured_header_set_by_inner_is_kept() {
    let svc = service(None, false, None, None);
    let mut headers = HeaderMap::new();
    put(&mut headers, ORIGIN, "https://inner.example");
    assert_eq!(svc.apply_headers(&mut headers), Ok(()));
    assert_eq!(values(&headers, ORIGIN), vec![b"https://inner.example".to_vec()]);
}

#[test]
fn credentials_header_is_single_and_matches_setting() {
    for allow in [true, false] {
        let svc = service(Some("*"), allow, Some("GET"), Some("X-A"));
        let mut headers = HeaderMap::new();
        put(&mut headers, CREDENTIALS, "maybe");
        put(&mut headers, CREDENTIALS, "perhaps");
        assert_eq!(svc.apply_headers(&mut headers), Ok(()));
        let expected: &[u8] = if allow { b"true" } else { b"false" };
        assert_eq!(values(&headers, CREDENTIALS), vec![expected.to_vec()]);
    }
}

#[test]
fn applying_twice_gives_the_same_cors_headers() {
    let svc = service(Some("https://a.example"), true, Some("GET, POST"), None);
    let mut first = HeaderMap::new();
    put(&mut first, "x-request-id", "17");
    let mut second = first.clone();
    assert_eq!(svc.apply_headers(&mut first), Ok(()));
    assert_eq!(svc.apply_headers(&mut second), Ok(()));
    assert_eq!(first, second);
    let once = first.clone();
    assert_eq!(svc.apply_headers(&mut first), Ok(()));
    assert_eq!(first, once);
}

#[test]
fn status_and_body_are_untouched() {
    let svc = service(Some("https://example.com"), true, Some("GET"), Some("X-Custom"));
    let mut response = Response::builder()
        .status(StatusCode::NOT_FOUND)
        .body(b"no such page".to_vec())
        .unwrap();
    assert_eq!(svc.apply_headers(response.headers_mut()), Ok(()));
    assert_eq!(response.status(), StatusCode::NOT_FOUND);
    assert_eq!(response.body(), &b"no such page".to_vec());
}

#[test]
fn configured_origin_overwrites_inner_value() {
    let svc = service(Some("https://policy.example"), false, None, None);
    let mut headers = HeaderMap::new();
    put(&mut headers, ORIGIN, "https://inner.example");
    put(&mut headers, ORIGIN, "https://other.example");
    assert_eq!(svc.apply_headers(&mut headers), Ok(()));
    assert_eq!(values(&headers, ORIGIN), vec![b"https://policy.example".to_vec()]);
}

#[test]
fn other_headers_are_kept() {
    let svc = service(Some("*"), true, Some("GET"), Some("X-A"));
    let mut headers = HeaderMap::new();
    put(&mut headers, "set-cookie", "a=1");
    put(&mut headers, "set-cookie", "b=2");
    put(&mut headers, "content-length", "0");
    assert_eq!(svc.apply_headers(&mut headers), Ok(()));
    assert_eq!(values(&headers, "set-cookie"), vec![b"a=1".to_vec(), b"b=2".to_vec()]);
    assert_eq!(values(&headers, "content-length"), vec![b"0".to_vec()]);
    assert_eq!(headers.keys_len(), 6);
}

#[test]
fn headers_are_stored_under_lower_case_names() {
    let svc = service(Some("*"), true, Some("GET"), Some("X-A"));
    let mut headers = HeaderMap::new();
    assert_eq!(svc.apply_headers(&mut headers), Ok(()));
    let names: Vec<&str> = headers.keys().map(|k| k.as_str()).collect();
    assert!(names.contains(&"access-control-allow-origin"));
    assert!(names.contains(&"access-control-allow-methods"));
    assert!(names.contains(&"access-control-allow-headers"));
    assert!(names.contains(&"access-control-allow-credentials"));
}

#[test]
fn invalid_value_fails_and_changes_nothing() {
    for svc in [
        service(Some("bad\nvalue"), true, None, None),
        service(None, true, Some("GET\u{7f}"), None),
        service(Some("*"), false, Some("GET"), Some("X-\r-A")),
    ] {
        let mut headers = HeaderMap::new();
        put(&mut headers, "x-kept", "1");
        let before = headers.clone();
        assert_eq!(svc.apply_headers(&mut headers), Err(CorsError::InvalidHeaderValue));
        assert_eq!(headers, before);
    }
}

#[test]
fn tab_and_non_ascii_values_are_sent_as_utf8_bytes() {
    let svc = service(Some("caf\u{e9}"), false, Some("GET,\tPOST"), None);
    let mut headers = HeaderMap::new();
    assert_eq!(svc.apply_headers(&mut headers), Ok(()));
    assert_eq!(values(&headers, ORIGIN), vec!["caf\u{e9}".as_bytes().to_vec()]);
    assert_eq!(values(&headers, METHODS), vec![b"GET,\tPOST".to_vec()]);
}

#[test]
fn empty_value_is_sent_as_is() {
    let svc = service(Some(""), false, None, None);
    let mut headers = HeaderMap::new();
    assert_eq!(svc.apply_headers(&mut headers), Ok(()));
    assert_eq!(values(&headers, ORIGIN), vec![Vec::<u8>::new()]);
}

#[test]
fn layer_keeps_inner_service() {
    let layer = CorsLayer::new(None, true, None, None);
    let copy = layer.clone();
    let svc = layer.layer(41u32);
    assert_eq!(*svc.inner(), 41);
    let mut headers = HeaderMap::new();
    assert_eq!(copy.layer("inner").apply_headers(&mut headers), Ok(()));
    assert_eq!(values(&headers, CREDENTIALS), vec![b"true".to_vec()]);
}
