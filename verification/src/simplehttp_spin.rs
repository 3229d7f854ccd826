use vstd::prelude::*;

use crate::headers::{raw_headers_view, visible_headers, visible_headers_of};
use crate::request::{
    PreparedRequest, copy_request, http_headers_ok, http_headers_valid, optional_text,
};
use crate::simplehttp::{
    body_view, request_model, ErrorModel, HttpResponse, Method, ResponseModel, SimpleHttpError,
};

verus! {

/// What `http::Uri` parsing (http 0.2) reports for a uri: `None` when it
/// parses, else the description of its error.
pub uninterp spec fn http_uri_rejection(uri: Seq<char>) -> Option<Seq<char>>;

/// `<http::Uri as FromStr>::from_str` (http 0.2): its error as a
/// description, which is `http_uri_rejection` of the uri.
#[verifier::external_body]
fn uri_rejection(uri: &str) -> (r: Option<String>)
    ensures
        optional_text(r) == http_uri_rejection(uri@),
{
    uri.parse::<http::Uri>().err().map(|e| e.to_string())
}

/// A client for the Spin runtime.
pub struct SimpleHttpClientSpin {}

impl SimpleHttpClientSpin {
    pub fn new_spin() -> (r: SimpleHttpClientSpin)
        ensures
            r == (SimpleHttpClientSpin {  }),
    {
        SimpleHttpClientSpin {  }
    }

    /// Prepares a request whose headers http accepts: the request holds the
    /// arguments, and a uri that http refuses gives "Error sending body" with
    /// http's description.
    pub fn prepare_request(
        uri: &str,
        headers: &[(&str, &str)],
        body: Option<&[u8]>,
        method: Method,
    ) -> (r: Result<PreparedRequest, SimpleHttpError>)
        requires
            http_headers_ok(headers@),
        ensures
            r is Ok <==> http_uri_rejection(uri@) is None,
            r matches Ok(p) ==> p@ == request_model(method, uri, headers, body_view(body)),
            r matches Err(e) ==> e@ == ErrorModel::Nested(
                "Error sending body"@,
                http_uri_rejection(uri@).unwrap(),
            ),
    {
        match uri_rejection(uri) {
            Some(c) => Err(spin_failure(SpinFailure::PrepareFailed(c))),
            None => Ok(copy_request(method, uri, headers, body)),
        }
    }

    /// Prepares a request as `prepare_request` does, or gives `None` when a
    /// header name or value is one that http refuses.
    pub fn prepare_request_checked(
        uri: &str,
        headers: &[(&str, &str)],
        body: Option<&[u8]>,
        method: Method,
    ) -> (r: Option<Result<PreparedRequest, SimpleHttpError>>)
        ensures
            r is None <==> !http_headers_ok(headers@),
            r matches Some(Ok(p)) ==> http_uri_rejection(uri@) is None && p@ == request_model(
                method,
                uri,
                headers,
                body_view(body),
            ),
            r matches Some(Err(e)) ==> http_uri_rejection(uri@) is Some && e@ == ErrorModel::Nested(
                "Error sending body"@,
                http_uri_rejection(uri@).unwrap(),
            ),
    {
        if http_headers_valid(headers) {
            Some(Self::prepare_request(uri, headers, body, method))
        } else {
            None
        }
    }
}

/// A step of an exchange that failed, with the description of its cause.
pub enum SpinFailure {
    PrepareFailed(String),
    SendFailed(String),
}

/// The error for each failed step.
pub open spec fn spin_error(failure: SpinFailure) -> ErrorModel {
    match failure {
        SpinFailure::PrepareFailed(c) => ErrorModel::Nested("Error sending body"@, c@),
        SpinFailure::SendFailed(c) => ErrorModel::Nested("Error posting"@, c@),
    }
}

/// The error for a failed step.
pub fn spin_failure(failure: SpinFailure) -> (r: SimpleHttpError)
    ensures
        r@ == spin_error(failure),
{
    match failure {
        SpinFailure::PrepareFailed(c) => SimpleHttpError::new_with_cause(
            "Error sending body",
            c.as_str(),
        ),
        SpinFailure::SendFailed(c) => SimpleHttpError::new_with_cause("Error posting", c.as_str()),
    }
}

/// An optional body; an absent one is empty.
pub open spec fn body_or_empty(body: Option<Vec<u8>>) -> Seq<u8> {
    match body {
        Some(b) => b@,
        None => Seq::empty(),
    }
}

/// The response from what was received: the headers whose values read as
/// text, in order, an absent body as an empty one, and no status check.
pub fn spin_response(
    status_code: u16,
    headers: Vec<(String, Vec<u8>)>,
    body: Option<Vec<u8>>,
) -> (r: HttpResponse)
    ensures
        r@ == (ResponseModel {
            status_code,
            response_headers: visible_headers_of(raw_headers_view(headers@)),
            body: body_or_empty(body),
        }),
{
    let response_headers = visible_headers(&headers);
    let body = match body {
        Some(b) => b,
        None => Vec::new(),
    };
    HttpResponse { status_code, response_headers, body }
}

} // verus!
