use vstd::prelude::*;

use crate::headers::{raw_headers_view, visible_headers, visible_headers_of};
use crate::request::{
    PreparedRequest, copy_request, http_headers_ok, http_headers_valid, optional_text,
};
use crate::simplehttp::{
    body_of, body_view, request_model, ErrorModel, HttpResponse, Method, RawResponse, ResponseModel,
    SimpleHttpError, response_result_view,
};

verus! {

#[verifier::external_type_specification]
#[verifier::external_body]
pub struct ExReqwestClient(reqwest::blocking::Client);

/// A client on reqwest's blocking API; the sending itself is done by the
/// caller with `client`.
pub struct SimpleHttpClientReqwest {
    client: reqwest::blocking::Client,
}

/// What reqwest's request builder reports for a url: `None` when it takes
/// the url, else the description of its error. It depends on the url alone.
pub uninterp spec fn reqwest_url_rejection(url: Seq<char>) -> Option<Seq<char>>;

/// `reqwest::blocking::ClientBuilder::build` with the default settings; its
/// error as a description. Whether it succeeds depends on the machine, so
/// nothing is said of the result.
#[verifier::external_body]
fn build_client() -> (r: Result<reqwest::blocking::Client, String>) {
    reqwest::blocking::Client::builder().build().map_err(|e| e.to_string())
}

/// `reqwest::blocking::RequestBuilder::build` on a request for `url`: the
/// builder's only possible error there comes from the url, so the result is
/// `reqwest_url_rejection` of the url.
#[verifier::external_body]
fn url_rejection(client: &reqwest::blocking::Client, url: &str) -> (r: Option<String>)
    ensures
        optional_text(r) == reqwest_url_rejection(url@),
{
    client.get(url).build().err().map(|e| e.to_string())
}

impl SimpleHttpClientReqwest {
    /// Sets up a client; a failure is reported as "Error initializing" with
    /// its description.
    pub fn new_reqwest() -> (r: Result<SimpleHttpClientReqwest, SimpleHttpError>)
        ensures
            r matches Err(e) ==> exists|c: Seq<char>|
                e@ == ErrorModel::Nested("Error initializing"@, c),
    {
        match build_client() {
            Ok(client) => Ok(SimpleHttpClientReqwest { client }),
            Err(c) => Err(reqwest_failure(ReqwestFailure::InitFailed(c))),
        }
    }

    /// The reqwest client that this client holds.
    pub closed spec fn held_client(&self) -> reqwest::blocking::Client {
        self.client
    }

    /// The reqwest client that sends the requests.
    pub fn client(&self) -> (r: &reqwest::blocking::Client)
        ensures
            *r == self.held_client(),
    {
        &self.client
    }

    /// Prepares a request whose headers http accepts: the request holds the
    /// arguments, and a url that reqwest refuses gives "Error creating
    /// request" with reqwest's description.
    pub fn prepare_request(
        &self,
        url: &str,
        headers: &[(&str, &str)],
        body: Option<&[u8]>,
        method: Method,
    ) -> (r: Result<PreparedRequest, SimpleHttpError>)
        requires
            http_headers_ok(headers@),
        ensures
            r is Ok <==> reqwest_url_rejection(url@) is None,
            r matches Ok(p) ==> p@ == request_model(method, url, headers, body_view(body)),
            r matches Err(e) ==> e@ == ErrorModel::Nested(
                "Error creating request"@,
                reqwest_url_rejection(url@).unwrap(),
            ),
    {
        match url_rejection(&self.client, url) {
            Some(c) => Err(reqwest_failure(ReqwestFailure::BuildFailed(c))),
            None => Ok(copy_request(method, url, headers, body)),
        }
    }

    /// Prepares a request as `prepare_request` does, or gives `None` when a
    /// header name or value is one that http refuses.
    pub fn prepare_request_checked(
        &self,
        url: &str,
        headers: &[(&str, &str)],
        body: Option<&[u8]>,
        method: Method,
    ) -> (r: Option<Result<PreparedRequest, SimpleHttpError>>)
        ensures
            r is None <==> !http_headers_ok(headers@),
            r matches Some(Ok(p)) ==> reqwest_url_rejection(url@) is None && p@ == request_model(
                method,
                url,
                headers,
                body_view(body),
            ),
            r matches Some(Err(e)) ==> reqwest_url_rejection(url@) is Some && e@
                == ErrorModel::Nested("Error creating request"@, reqwest_url_rejection(url@).unwrap()),
    {
        if http_headers_valid(headers) {
            Some(self.prepare_request(url, headers, body, method))
        } else {
            None
        }
    }
}

/// A status code in the success class.
pub open spec fn is_success(status_code: u16) -> bool {
    200 <= status_code && status_code < 300
}

/// A step of a reqwest exchange that failed, with the description of its
/// cause.
pub enum ReqwestFailure {
    InitFailed(String),
    BuildFailed(String),
    SendFailed(String),
    BodyFailed(String),
}

/// The error for each failed step.
pub open spec fn reqwest_error(failure: ReqwestFailure) -> ErrorModel {
    match failure {
        ReqwestFailure::InitFailed(c) => ErrorModel::Nested("Error initializing"@, c@),
        ReqwestFailure::BuildFailed(c) => ErrorModel::Nested("Error creating request"@, c@),
        ReqwestFailure::SendFailed(c) => ErrorModel::Nested("Error sending custom"@, c@),
        ReqwestFailure::BodyFailed(c) => ErrorModel::Nested("Error decoding custom response"@, c@),
    }
}

/// The response kept from what was received: the headers whose values read
/// as text, in the order received, and the body.
pub open spec fn received_model(raw: RawResponse) -> ResponseModel {
    ResponseModel {
        status_code: raw.status_code,
        response_headers: visible_headers_of(raw_headers_view(raw.headers@)),
        body: raw.body@,
    }
}

/// A response is handed on when its status is a success, and refused with
/// the whole response otherwise.
pub open spec fn status_checked(resp: ResponseModel) -> Result<ResponseModel, ErrorModel> {
    if is_success(resp.status_code) {
        Ok(resp)
    } else {
        Err(ErrorModel::ResponseError(resp))
    }
}

/// A status passes exactly when it lies in 200..=299: every such response
/// is handed on as it is, and every other is refused with the error that
/// holds it.
pub proof fn lemma_success_is_2xx(resp: ResponseModel)
    ensures
        200 <= resp.status_code <= 299 ==> status_checked(resp) == Ok::<
            ResponseModel,
            ErrorModel,
        >(resp),
        !(200 <= resp.status_code <= 299) ==> status_checked(resp) == Err::<
            ResponseModel,
            ErrorModel,
        >(ErrorModel::ResponseError(resp)),
        200 <= resp.status_code <= 299 <==> is_success(resp.status_code),
{
}

/// The result of the reqwest client for a received response: a status in
/// 200..=299 gives the response, any other the error holding it, the body
/// unchanged either way.
pub proof fn lemma_received_by_status(raw: RawResponse)
    ensures
        200 <= raw.status_code <= 299 ==> (status_checked(received_model(raw)) matches Ok(m)
            && m.status_code == raw.status_code && m.body == raw.body@),
        !(200 <= raw.status_code <= 299) ==> (status_checked(received_model(raw)) matches Err(
            ErrorModel::ResponseError(m),
        ) && m.status_code == raw.status_code && m.body == raw.body@),
{
}

/// Through a convenience method, a response with a success status reaches
/// the caller as its body, and any other as the error that holds the whole
/// response.
pub proof fn lemma_checked_response_body(resp: ResponseModel)
    ensures
        is_success(resp.status_code) ==> body_of(status_checked(resp)) == Ok::<
            Seq<u8>,
            ErrorModel,
        >(resp.body),
        !is_success(resp.status_code) ==> body_of(status_checked(resp)) == Err::<
            Seq<u8>,
            ErrorModel,
        >(ErrorModel::ResponseError(resp)),
{
}

/// Hands on a response with a success status; refuses any other with a
/// `ResponseError` that holds it.
pub fn check_status(response: HttpResponse) -> (r: Result<HttpResponse, SimpleHttpError>)
    ensures
        response_result_view(r) == status_checked(response@),
        200 <= response.status_code < 300 ==> (r matches Ok(x) && x@ == response@),
        !(200 <= response.status_code < 300) ==> (r matches Err(e) && e@
            == ErrorModel::ResponseError(response@)),
{
    if 200 <= response.status_code && response.status_code < 300 {
        Ok(response)
    } else {
        Err(SimpleHttpError::ResponseError(response))
    }
}

/// The error for a failed step.
pub fn reqwest_failure(failure: ReqwestFailure) -> (r: SimpleHttpError)
    ensures
        r@ == reqwest_error(failure),
{
    match failure {
        ReqwestFailure::InitFailed(c) => SimpleHttpError::new_with_cause(
            "Error initializing",
            c.as_str(),
        ),
        ReqwestFailure::BuildFailed(c) => SimpleHttpError::new_with_cause(
            "Error creating request",
            c.as_str(),
        ),
        ReqwestFailure::SendFailed(c) => SimpleHttpError::new_with_cause(
            "Error sending custom",
            c.as_str(),
        ),
        ReqwestFailure::BodyFailed(c) => SimpleHttpError::new_with_cause(
            "Error decoding custom response",
            c.as_str(),
        ),
    }
}

/// The result of a request from the response received: the headers whose
/// values read as text are kept, and the status must be a success.
pub fn reqwest_response(raw: RawResponse) -> (r: Result<HttpResponse, SimpleHttpError>)
    ensures
        response_result_view(r) == status_checked(received_model(raw)),
{
    let response_headers = visible_headers(&raw.headers);
    let response = HttpResponse { status_code: raw.status_code, response_headers, body: raw.body };
    check_status(response)
}

} // verus!
