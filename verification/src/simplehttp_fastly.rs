use vstd::prelude::*;

use crate::headers::{
    all_headers_of, all_visible, lemma_all_visible_keeps_all, raw_headers_view, visible_headers,
};
use crate::request::{PreparedRequest, copy_request, fastly_headers_ok, fastly_headers_valid};
use crate::simplehttp::{
    body_view, request_model, ErrorModel, HttpResponse, Method, RawResponse, ResponseModel,
    SimpleHttpError,
};

verus! {

/// `url::Url::parse` accepts the url.
pub uninterp spec fn url_parses(url: Seq<char>) -> bool;

/// `fastly::http::Url::parse` (the url crate's `Url::parse`): whether it
/// accepts the url, which is `url_parses`.
#[verifier::external_body]
fn url_accepted(url: &str) -> (r: bool)
    ensures
        r == url_parses(url@),
{
    fastly::http::Url::parse(url).is_ok()
}

/// A client that sends its requests to a named Fastly backend.
pub struct SimpleHttpClientFastly {
    backend_name: String,
}

impl View for SimpleHttpClientFastly {
    type V = Seq<char>;

    /// The name of the backend.
    closed spec fn view(&self) -> Seq<char> {
        self.backend_name@
    }
}

impl SimpleHttpClientFastly {
    pub fn new(backend_name: &str) -> (r: SimpleHttpClientFastly)
        ensures
            r@ == backend_name@,
    {
        SimpleHttpClientFastly { backend_name: backend_name.to_owned() }
    }

    pub fn backend_name(&self) -> (r: &str)
        ensures
            r@ == self@,
    {
        self.backend_name.as_str()
    }

    /// Prepares a request whose url and headers Fastly accepts: the request
    /// holds the arguments.
    pub fn prepare_request(
        method: Method,
        url: &str,
        headers: &[(&str, &str)],
        body: Option<&[u8]>,
    ) -> (r: PreparedRequest)
        requires
            url_parses(url@),
            fastly_headers_ok(headers@),
        ensures
            r@ == request_model(method, url, headers, body_view(body)),
    {
        copy_request(method, url, headers, body)
    }

    /// Prepares a request as `prepare_request` does, or gives `None` when
    /// Fastly refuses the url or a header name or value.
    pub fn prepare_request_checked(
        method: Method,
        url: &str,
        headers: &[(&str, &str)],
        body: Option<&[u8]>,
    ) -> (r: Option<PreparedRequest>)
        ensures
            r is Some <==> url_parses(url@) && fastly_headers_ok(headers@),
            r matches Some(p) ==> p@ == request_model(method, url, headers, body_view(body)),
    {
        if url_accepted(url) && fastly_headers_valid(headers) {
            Some(Self::prepare_request(method, url, headers, body))
        } else {
            None
        }
    }
}

/// A step of an exchange with a backend that failed, with the description
/// of its cause.
pub enum FastlyFailure {
    BackendFailed(String),
    SendFailed(String),
}

/// The error for each failed step.
pub open spec fn fastly_error(failure: FastlyFailure) -> ErrorModel {
    match failure {
        FastlyFailure::BackendFailed(c) => ErrorModel::Nested("Error creating backend"@, c@),
        FastlyFailure::SendFailed(c) => ErrorModel::Nested(
            "Error sending request to Fastly backend"@,
            c@,
        ),
    }
}

/// The error for a failed step.
pub fn fastly_failure(failure: FastlyFailure) -> (r: SimpleHttpError)
    ensures
        r@ == fastly_error(failure),
{
    match failure {
        FastlyFailure::BackendFailed(c) => SimpleHttpError::new_with_cause(
            "Error creating backend",
            c.as_str(),
        ),
        FastlyFailure::SendFailed(c) => SimpleHttpError::new_with_cause(
            "Error sending request to Fastly backend",
            c.as_str(),
        ),
    }
}

/// The response from what a backend sent, whose header values all read as
/// text: every header is kept, in order, and the status is not checked.
pub fn fastly_response(raw: RawResponse) -> (r: HttpResponse)
    requires
        all_visible(raw_headers_view(raw.headers@)),
    ensures
        r@ == (ResponseModel {
            status_code: raw.status_code,
            response_headers: all_headers_of(raw_headers_view(raw.headers@)),
            body: raw.body@,
        }),
{
    proof {
        lemma_all_visible_keeps_all(raw_headers_view(raw.headers@));
    }
    let response_headers = visible_headers(&raw.headers);
    HttpResponse { status_code: raw.status_code, response_headers, body: raw.body }
}

} // verus!
