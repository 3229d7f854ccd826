use simplehttp::headers::{is_visible_header_value, visible_headers};
use simplehttp::simplehttp::{HttpResponse, RawResponse, SimpleHttpError};
use simplehttp::simplehttp_esp32::{
    client_error, esp_failure, found_headers, mentions_localhost, supported_headers, EspFailure,
    EspResponseReader, ReadEvent, ReadStep, READ_BUFFER_SIZE,
};
use simplehttp::simplehttp_fastly::{
    fastly_failure, fastly_response, FastlyFailure, SimpleHttpClientFastly,
};
use simplehttp::simplehttp_reqwest::{check_status, reqwest_failure, reqwest_response, ReqwestFailure};
use simplehttp::simplehttp_spin::{spin_failure, spin_response, SimpleHttpClientSpin, SpinFailure};

fn nested(e: SimpleHttpError) -> (String, String) {
    match e {
        SimpleHttpError::Nested(m, c) => (m, c),
        other => panic!("unexpected {:?}", other),
    }
}

fn raw(status_code: u16, headers: Vec<(&str, &[u8])>, body: &[u8]) -> RawResponse {
    RawResponse {
        status_code,
        headers: headers.into_iter().map(|(k, v)| (k.to_owned(), v.to_vec())).collect(),
        body: body.to_vec(),
    }
}

fn pairs(v: &[(&str, &str)]) -> Vec<(String, String)> {
    v.iter().map(|(k, v)| (k.to_string(), v.to_string())).collect()
}

#[test]
fn header_values_that_read_as_text() {
    assert!(is_visible_header_value(b"text/html; charset=utf-8"));
    assert!(is_visible_header_value(b"a\tb ~"));
    assert!(is_visible_header_value(b""));
    assert!(!is_visible_header_value(b"caf\xc3\xa9"));
    assert!(!is_visible_header_value(b"a\x7fb"));
    assert!(!is_visible_header_value(b"a\nb"));
    assert!(!is_visible_header_value(&[0x1f]));
}

#[test]
fn unreadable_headers_are_left_out_in_order() {
    let r = raw(
        200,
        vec![("a", b"1"), ("b", b"\xff"), ("c", b"x\ty"), ("d", b"\x00"), ("e", b"")],
        b"",
    );
    assert_eq!(visible_headers(&r.headers), pairs(&[("a", "1"), ("c", "x\ty"), ("e", "")]));
}

#[test]
fn success_statuses_pass() {
    for status in [200u16, 201, 204, 299] {
        let r = HttpResponse { status_code: status, response_headers: vec![], body: vec![7] };
        assert_eq!(check_status(r).unwrap().status_code, status);
    }
}

#[test]
fn other_statuses_are_refused_with_the_response() {
    for status in [0u16, 100, 199, 300, 301, 404, 500, 65535] {
        let r = HttpResponse {
            status_code: status,
            response_headers: pairs(&[("k", "v")]),
            body: vec![1, 2],
        };
        match check_status(r) {
            Err(SimpleHttpError::ResponseError(back)) => {
                assert_eq!(back.status_code, status);
                assert_eq!(back.response_headers, pairs(&[("k", "v")]));
                assert_eq!(back.body, vec![1, 2]);
            },
            other => panic!("unexpected {:?}", other),
        }
    }
}

#[test]
fn reqwest_failures() {
    let cases = [
        (ReqwestFailure::InitFailed("a".to_owned()), "Error initializing"),
        (ReqwestFailure::BuildFailed("b".to_owned()), "Error creating request"),
        (ReqwestFailure::SendFailed("c".to_owned()), "Error sending custom"),
        (ReqwestFailure::BodyFailed("d".to_owned()), "Error decoding custom response"),
    ];
    for (failure, message) in cases {
        let (m, _) = nested(reqwest_failure(failure));
        assert_eq!(m, message);
    }
    let (_, c) = nested(reqwest_failure(ReqwestFailure::SendFailed("refused".to_owned())));
    assert_eq!(c, "refused");
}

#[test]
fn reqwest_responses() {
    let ok = reqwest_response(raw(200, vec![("a", b"1"), ("b", b"\x80")], b"hi")).unwrap();
    assert_eq!(ok.status_code, 200);
    assert_eq!(ok.response_headers, pairs(&[("a", "1")]));
    assert_eq!(ok.body, b"hi".to_vec());
    match reqwest_response(raw(404, vec![("a", b"1"), ("b", b"\x80")], b"no")) {
        Err(SimpleHttpError::ResponseError(r)) => {
            assert_eq!(r.status_code, 404);
            assert_eq!(r.response_headers, pairs(&[("a", "1")]));
            assert_eq!(r.body, b"no".to_vec());
        },
        other => panic!("unexpected {:?}", other),
    }
}

#[test]
fn fastly_client_keeps_its_backend() {
    let c = SimpleHttpClientFastly::new("origin_0");
    assert_eq!(c.backend_name(), "origin_0");
}

#[test]
fn fastly_failures_and_responses() {
    let (m, c) = nested(fastly_failure(FastlyFailure::BackendFailed("no such".to_owned())));
    assert_eq!((m.as_str(), c.as_str()), ("Error creating backend", "no such"));
    let (m, _) = nested(fastly_failure(FastlyFailure::SendFailed("x".to_owned())));
    assert_eq!(m, "Error sending request to Fastly backend");
    let r = fastly_response(raw(503, vec![("a", b"1"), ("b", b"2")], b"down"));
    assert_eq!(r.status_code, 503);
    assert_eq!(r.response_headers, pairs(&[("a", "1"), ("b", "2")]));
    assert_eq!(r.body, b"down".to_vec());
}

#[test]
fn spin_failures_and_responses() {
    let _client = SimpleHttpClientSpin::new_spin();
    let (m, _) = nested(spin_failure(SpinFailure::PrepareFailed("x".to_owned())));
    assert_eq!(m, "Error sending body");
    let (m, c) = nested(spin_failure(SpinFailure::SendFailed("y".to_owned())));
    assert_eq!((m.as_str(), c.as_str()), ("Error posting", "y"));
    let headers = vec![("a".to_owned(), b"1".to_vec()), ("b".to_owned(), vec![0xc3, 0xa9])];
    let r = spin_response(500, headers.clone(), None);
    assert_eq!(r.status_code, 500);
    assert_eq!(r.response_headers, pairs(&[("a", "1")]));
    assert!(r.body.is_empty());
    let r = spin_response(200, headers, Some(vec![9, 8]));
    assert_eq!(r.body, vec![9, 8]);
}

#[test]
fn esp_supported_headers_in_order() {
    assert_eq!(
        supported_headers(),
        vec![
            "Content-Type",
            "Content-Length",
            "Content-Encoding",
            "Transfer-Encoding",
            "Host",
            "Connection",
            "Cache-Control",
            "Location",
            "Upgrade"
        ]
    );
    let mut found: Vec<Option<String>> = vec![None; 9];
    found[0] = Some("text/plain".to_owned());
    found[4] = Some("example.com".to_owned());
    found[8] = Some("h2c".to_owned());
    assert_eq!(
        found_headers(&found),
        pairs(&[("Content-Type", "text/plain"), ("Host", "example.com"), ("Upgrade", "h2c")])
    );
    assert!(found_headers(&vec![None; 9]).is_empty());
}

#[test]
fn esp_localhost_detection() {
    assert!(mentions_localhost("http://localhost:8500"));
    assert!(mentions_localhost("localhost"));
    assert!(mentions_localhost("http://x/?to=localhost"));
    assert!(!mentions_localhost("http://local-host"));
    assert!(!mentions_localhost("http://LOCALHOST"));
    assert!(!mentions_localhost(""));
    assert!(!mentions_localhost("localhos"));
}

#[test]
fn esp_reading_joins_chunks() {
    assert_eq!(READ_BUFFER_SIZE, 3048);
    let mut reader = EspResponseReader::start(Some(6), 200, pairs(&[("Host", "h")])).unwrap();
    for chunk in [b"ab".to_vec(), b"cde".to_vec(), b"f".to_vec()] {
        reader = match reader.step(ReadEvent::Read(chunk)) {
            ReadStep::More(next) => next,
            _ => panic!("reading stopped early"),
        };
    }
    match reader.step(ReadEvent::Read(Vec::new())) {
        ReadStep::Done(r) => {
            assert_eq!(r.status_code, 200);
            assert_eq!(r.response_headers, pairs(&[("Host", "h")]));
            assert_eq!(r.body, b"abcdef".to_vec());
        },
        _ => panic!("reading did not end"),
    }
}

#[test]
fn esp_reading_failures() {
    match EspResponseReader::start(None, 200, vec![]) {
        Err(SimpleHttpError::Simple(m)) => assert_eq!(m, "Error reading content length"),
        _ => panic!("a response without length was accepted"),
    }
    let reader = EspResponseReader::start(Some(0), 200, vec![]).unwrap();
    match reader.step(ReadEvent::Failed("reset".to_owned())) {
        ReadStep::Failed(e) => {
            let (m, c) = nested(e);
            assert_eq!((m.as_str(), c.as_str()), ("Error reading content", "reset"));
        },
        _ => panic!("a failed read was not reported"),
    }
}

#[test]
fn esp_failures() {
    let (m, c) = nested(esp_failure("http://x", EspFailure::RequestFailed("e".to_owned())));
    assert_eq!((m.as_str(), c.as_str()), ("Error creating  get: {}", "e"));
    let (m, _) = nested(esp_failure("http://x/\"q\"", EspFailure::WriteFailed("w".to_owned())));
    assert_eq!(m, "Error getting(with body) url: \"http://x/\\\"q\\\"\"");
    let (m, _) = nested(esp_failure("http://x", EspFailure::SubmitFailed("s".to_owned())));
    assert_eq!(m, "Error connecting");
    match client_error() {
        SimpleHttpError::Simple(m) => assert_eq!(m, "Error creating http client"),
        other => panic!("unexpected {:?}", other),
    }
}
