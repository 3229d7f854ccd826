use simplehttp::request::{copy_request, fastly_headers_valid, http_headers_valid};
use simplehttp::simplehttp::{Method, SimpleHttpError};
use simplehttp::simplehttp_fastly::SimpleHttpClientFastly;
use simplehttp::simplehttp_reqwest::SimpleHttpClientReqwest;
use simplehttp::simplehttp_spin::SimpleHttpClientSpin;

fn pairs(v: &[(&str, &str)]) -> Vec<(String, String)> {
    v.iter().map(|(k, v)| (k.to_string(), v.to_string())).collect()
}

#[test]
fn copied_requests_keep_their_parts() {
    let h = [("Accept", "a"), ("X-Two", "b c")];
    let r = copy_request(Method::Put, "http://x/y", &h, Some(b"data"));
    assert_eq!(r.method, Method::Put);
    assert_eq!(r.url, "http://x/y");
    assert_eq!(r.headers, pairs(&h));
    assert_eq!(r.body, Some(b"data".to_vec()));
    let r = copy_request(Method::Get, "u", &[], None);
    assert!(r.headers.is_empty());
    assert_eq!(r.body, None);
}

#[test]
fn header_validity() {
    assert!(http_headers_valid(&[("Accept", "text/html"), ("x-a", "tab\there")]));
    assert!(http_headers_valid(&[]));
    assert!(!http_headers_valid(&[("Bad Name", "v")]));
    assert!(!http_headers_valid(&[("", "v")]));
    assert!(!http_headers_valid(&[("ok", "line\nbreak")]));
    assert!(!http_headers_valid(&[("ok", "v"), ("ok", "del\u{7f}")]));
    assert!(http_headers_valid(&[("ok", "caf\u{e9}")]));
    assert!(fastly_headers_valid(&[("Accept", "text/html")]));
    assert!(!fastly_headers_valid(&[("Bad:Name", "v")]));
    assert!(!fastly_headers_valid(&[("ok", "a\rb")]));
}

#[test]
fn reqwest_prepares_requests() {
    let client = SimpleHttpClientReqwest::new_reqwest().unwrap();
    let h = [("Accept", "something")];
    let r = client.prepare_request_checked("http://localhost:8500/x", &h, Some(b"b"), Method::Post);
    let p = r.unwrap().unwrap();
    assert_eq!(p.method, Method::Post);
    assert_eq!(p.url, "http://localhost:8500/x");
    assert_eq!(p.headers, pairs(&h));
    assert_eq!(p.body, Some(b"b".to_vec()));
    match client.prepare_request_checked("not a url", &h, None, Method::Get) {
        Some(Err(SimpleHttpError::Nested(m, c))) => {
            assert_eq!(m, "Error creating request");
            assert!(c.starts_with("builder error"));
        },
        other => panic!("unexpected {:?}", other),
    }
    match client.prepare_request_checked("mailto:someone@example.com", &h, None, Method::Get) {
        Some(Err(SimpleHttpError::Nested(m, c))) => {
            assert_eq!(m, "Error creating request");
            assert!(c.contains("mailto:someone@example.com"));
        },
        other => panic!("unexpected {:?}", other),
    }
    assert!(client.prepare_request_checked("http://x", &[("a b", "v")], None, Method::Get).is_none());
}

#[test]
fn spin_prepares_requests() {
    let p = SimpleHttpClientSpin::prepare_request_checked("http://x/a", &[("k", "v")], None, Method::Delete)
        .unwrap()
        .unwrap();
    assert_eq!(p.method, Method::Delete);
    assert_eq!(p.url, "http://x/a");
    assert_eq!(p.headers, pairs(&[("k", "v")]));
    assert_eq!(p.body, None);
    match SimpleHttpClientSpin::prepare_request_checked("http://exa mple.com", &[], None, Method::Get) {
        Some(Err(SimpleHttpError::Nested(m, c))) => {
            assert_eq!(m, "Error sending body");
            assert!(!c.is_empty());
            assert_ne!(c, "http://exa mple.com");
        },
        other => panic!("unexpected {:?}", other),
    }
    assert!(SimpleHttpClientSpin::prepare_request_checked("http://x", &[("k", "\n")], None, Method::Get).is_none());
}

#[test]
fn fastly_prepares_requests() {
    let p = SimpleHttpClientFastly::prepare_request_checked(Method::Patch, "https://x/p", &[("k", "v")], Some(b""))
        .unwrap();
    assert_eq!(p.method, Method::Patch);
    assert_eq!(p.url, "https://x/p");
    assert_eq!(p.headers, pairs(&[("k", "v")]));
    assert_eq!(p.body, Some(Vec::new()));
    assert!(SimpleHttpClientFastly::prepare_request_checked(Method::Get, "no scheme", &[], None).is_none());
    assert!(SimpleHttpClientFastly::prepare_request_checked(Method::Get, "http://x", &[("a b", "v")], None).is_none());
}
