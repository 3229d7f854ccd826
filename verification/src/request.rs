use vstd::prelude::*;
use vstd::string::StringSliceAdditionalSpecFns;

use crate::simplehttp::{
    Method, RequestModel, body_view, owned_headers_view, request_model,
};

verus! {

/// A request ready to be handed to a platform's HTTP stack: method, url,
/// headers in the order given, optional body.
#[derive(Debug)]
pub struct PreparedRequest {
    pub method: Method,
    pub url: String,
    pub headers: Vec<(String, String)>,
    pub body: Option<Vec<u8>>,
}

impl View for PreparedRequest {
    type V = RequestModel;

    open spec fn view(&self) -> RequestModel {
        RequestModel {
            method: self.method,
            url: self.url@,
            headers: owned_headers_view(self.headers@),
            body: match self.body {
                Some(b) => Some(b@),
                None => None,
            },
        }
    }
}

/// An optional string seen as an optional character sequence.
pub open spec fn optional_text(s: Option<String>) -> Option<Seq<char>> {
    match s {
        Some(t) => Some(t@),
        None => None,
    }
}

/// Copies the parts of a request into a prepared request.
pub fn copy_request(
    method: Method,
    url: &str,
    headers: &[(&str, &str)],
    body: Option<&[u8]>,
) -> (r: PreparedRequest)
    ensures
        r@ == request_model(method, url, headers, body_view(body)),
{
    let mut owned: Vec<(String, String)> = Vec::new();
    let mut i: usize = 0;
    while i < headers.len()
        invariant
            i <= headers.len(),
            owned@.len() == i,
            forall|j: int|
                0 <= j < i ==> (#[trigger] owned@[j]).0@ == headers@[j].0@ && owned@[j].1@
                    == headers@[j].1@,
        decreases headers.len() - i,
    {
        let (name, value) = headers[i];
        owned.push((name.to_owned(), value.to_owned()));
        i = i + 1;
    }
    let owned_body = match body {
        Some(b) => Some(vstd::slice::slice_to_vec(b)),
        None => None,
    };
    let r = PreparedRequest { method, url: url.to_owned(), headers: owned, body: owned_body };
    assert(r@.headers =~= request_model(method, url, headers, body_view(body)).headers);
    r
}

/// `http::HeaderName::from_bytes` (http 0.2) accepts these bytes as a
/// header name.
pub uninterp spec fn http_header_name_ok(name: Seq<u8>) -> bool;

/// `fastly::http::HeaderName::from_bytes` (http 1.x, as Fastly uses it)
/// accepts these bytes as a header name.
pub uninterp spec fn fastly_header_name_ok(name: Seq<u8>) -> bool;

/// A byte that a header value may hold: anything but a control character,
/// save the tab.
pub open spec fn is_header_value_byte(b: u8) -> bool {
    (b >= 32 && b != 127) || b == 9
}

/// The bytes of a header value that HTTP allows.
pub open spec fn header_value_ok(v: Seq<u8>) -> bool {
    forall|i: int| 0 <= i < v.len() ==> is_header_value_byte(#[trigger] v[i])
}

/// Every header has a name and a value that http 0.2 accepts.
pub open spec fn http_headers_ok(headers: Seq<(&str, &str)>) -> bool {
    forall|i: int|
        0 <= i < headers.len() ==> http_header_name_ok((#[trigger] headers[i]).0.spec_bytes())
            && header_value_ok(headers[i].1.spec_bytes())
}

/// Every header has a name and a value that Fastly's http accepts.
pub open spec fn fastly_headers_ok(headers: Seq<(&str, &str)>) -> bool {
    forall|i: int|
        0 <= i < headers.len() ==> fastly_header_name_ok((#[trigger] headers[i]).0.spec_bytes())
            && header_value_ok(headers[i].1.spec_bytes())
}

/// A header value is allowed exactly when each of its bytes is a tab or lies
/// in 32..=255 other than 127.
pub proof fn lemma_header_value_bytes(v: Seq<u8>)
    ensures
        header_value_ok(v) <==> forall|i: int|
            0 <= i < v.len() ==> (#[trigger] v[i] == 9 || (32 <= v[i] && v[i] != 127)),
{
}

/// Headers are judged one by one: a list is accepted exactly when each of
/// its parts is, whatever their number, and a single header exactly when its
/// name and value are.
pub proof fn lemma_http_headers_each(hs1: Seq<(&str, &str)>, hs2: Seq<(&str, &str)>, h: (&str, &str))
    ensures
        http_headers_ok(hs1 + hs2) <==> http_headers_ok(hs1) && http_headers_ok(hs2),
        http_headers_ok(Seq::empty()),
        http_headers_ok(seq![h]) <==> http_header_name_ok(h.0.spec_bytes()) && header_value_ok(
            h.1.spec_bytes(),
        ),
{
    let all = hs1 + hs2;
    if http_headers_ok(hs1) && http_headers_ok(hs2) {
        assert forall|i: int| 0 <= i < all.len() implies http_header_name_ok(
            (#[trigger] all[i]).0.spec_bytes(),
        ) && header_value_ok(all[i].1.spec_bytes()) by {
            if i < hs1.len() {
                assert(all[i] == hs1[i]);
            } else {
                assert(all[i] == hs2[i - hs1.len()]);
            }
        }
    }
    if http_headers_ok(all) {
        assert forall|i: int| 0 <= i < hs1.len() implies http_header_name_ok(
            (#[trigger] hs1[i]).0.spec_bytes(),
        ) && header_value_ok(hs1[i].1.spec_bytes()) by {
            assert(all[i] == hs1[i]);
        }
        assert forall|i: int| 0 <= i < hs2.len() implies http_header_name_ok(
            (#[trigger] hs2[i]).0.spec_bytes(),
        ) && header_value_ok(hs2[i].1.spec_bytes()) by {
            assert(all[hs1.len() + i] == hs2[i]);
        }
    }
    assert(seq![h][0] == h);
}

/// Fastly judges headers one by one: a list is accepted exactly when each
/// of its parts is, whatever their number, and a single header exactly when
/// its name and value are.
pub proof fn lemma_fastly_headers_each(
    hs1: Seq<(&str, &str)>,
    hs2: Seq<(&str, &str)>,
    h: (&str, &str),
)
    ensures
        fastly_headers_ok(hs1 + hs2) <==> fastly_headers_ok(hs1) && fastly_headers_ok(hs2),
        fastly_headers_ok(Seq::empty()),
        fastly_headers_ok(seq![h]) <==> fastly_header_name_ok(h.0.spec_bytes())
            && header_value_ok(h.1.spec_bytes()),
{
    let all = hs1 + hs2;
    if fastly_headers_ok(hs1) && fastly_headers_ok(hs2) {
        assert forall|i: int| 0 <= i < all.len() implies fastly_header_name_ok(
            (#[trigger] all[i]).0.spec_bytes(),
        ) && header_value_ok(all[i].1.spec_bytes()) by {
            if i < hs1.len() {
                assert(all[i] == hs1[i]);
            } else {
                assert(all[i] == hs2[i - hs1.len()]);
            }
        }
    }
    if fastly_headers_ok(all) {
        assert forall|i: int| 0 <= i < hs1.len() implies fastly_header_name_ok(
            (#[trigger] hs1[i]).0.spec_bytes(),
        ) && header_value_ok(hs1[i].1.spec_bytes()) by {
            assert(all[i] == hs1[i]);
        }
        assert forall|i: int| 0 <= i < hs2.len() implies fastly_header_name_ok(
            (#[trigger] hs2[i]).0.spec_bytes(),
        ) && header_value_ok(hs2[i].1.spec_bytes()) by {
            assert(all[hs1.len() + i] == hs2[i]);
        }
    }
    assert(seq![h][0] == h);
}

/// `http::HeaderName::from_bytes` (http 0.2): whether it accepts the bytes,
/// which is `http_header_name_ok`.
#[verifier::external_body]
fn http_accepts_header_name(name: &[u8]) -> (r: bool)
    ensures
        r == http_header_name_ok(name@),
{
    http::HeaderName::from_bytes(name).is_ok()
}

/// `http::HeaderValue::from_bytes` (http 0.2): it accepts exactly the
/// bytes that are all tabs or non-control characters.
#[verifier::external_body]
fn http_accepts_header_value(value: &[u8]) -> (r: bool)
    ensures
        r == header_value_ok(value@),
{
    http::HeaderValue::from_bytes(value).is_ok()
}

/// `fastly::http::HeaderName::from_bytes`: whether it accepts the bytes,
/// which is `fastly_header_name_ok`.
#[verifier::external_body]
fn fastly_accepts_header_name(name: &[u8]) -> (r: bool)
    ensures
        r == fastly_header_name_ok(name@),
{
    fastly::http::HeaderName::from_bytes(name).is_ok()
}

/// `fastly::http::HeaderValue::from_bytes` (http 1.x): it accepts exactly
/// the bytes that are all tabs or non-control characters.
#[verifier::external_body]
fn fastly_accepts_header_value(value: &[u8]) -> (r: bool)
    ensures
        r == header_value_ok(value@),
{
    fastly::http::HeaderValue::from_bytes(value).is_ok()
}

/// Whether every header name and value is one that http 0.2 accepts.
pub fn http_headers_valid(headers: &[(&str, &str)]) -> (r: bool)
    ensures
        r == http_headers_ok(headers@),
{
    let mut i: usize = 0;
    while i < headers.len()
        invariant
            i <= headers.len(),
            forall|j: int|
                0 <= j < i ==> http_header_name_ok((#[trigger] headers@[j]).0.spec_bytes())
                    && header_value_ok(headers@[j].1.spec_bytes()),
        decreases headers.len() - i,
    {
        let (name, value) = headers[i];
        if !http_accepts_header_name(name.as_bytes()) || !http_accepts_header_value(
            value.as_bytes(),
        ) {
            return false;
        }
        i = i + 1;
    }
    true
}

/// Whether every header name and value is one that Fastly's http accepts.
pub fn fastly_headers_valid(headers: &[(&str, &str)]) -> (r: bool)
    ensures
        r == fastly_headers_ok(headers@),
{
    let mut i: usize = 0;
    while i < headers.len()
        invariant
            i <= headers.len(),
            forall|j: int|
                0 <= j < i ==> fastly_header_name_ok((#[trigger] headers@[j]).0.spec_bytes())
                    && header_value_ok(headers@[j].1.spec_bytes()),
        decreases headers.len() - i,
    {
        let (name, value) = headers[i];
        if !fastly_accepts_header_name(name.as_bytes()) || !fastly_accepts_header_value(
            value.as_bytes(),
        ) {
            return false;
        }
        i = i + 1;
    }
    true
}

} // verus!
