use vstd::prelude::*;

verus! {

/// The abstract contents of an `HttpResponse`.
pub struct ResponseModel {
    pub status_code: u16,
    pub response_headers: Seq<(Seq<char>, Seq<char>)>,
    pub body: Seq<u8>,
}

/// The abstract contents of a `SimpleHttpError`.
pub enum ErrorModel {
    Simple(Seq<char>),
    Nested(Seq<char>, Seq<char>),
    ResponseError(ResponseModel),
}

/// A request as a client receives it: the method, the url, the headers in
/// the order given and the optional body.
pub struct RequestModel {
    pub method: Method,
    pub url: Seq<char>,
    pub headers: Seq<(Seq<char>, Seq<char>)>,
    pub body: Option<Seq<u8>>,
}

/// Headers held as owned strings, seen as pairs of character sequences.
pub open spec fn owned_headers_view(headers: Seq<(String, String)>) -> Seq<(Seq<char>, Seq<char>)> {
    headers.map_values(|h: (String, String)| (h.0@, h.1@))
}

/// Headers held as borrowed strings, seen as pairs of character sequences.
pub open spec fn borrowed_headers_view(headers: Seq<(&str, &str)>) -> Seq<(Seq<char>, Seq<char>)> {
    headers.map_values(|h: (&str, &str)| (h.0@, h.1@))
}

/// The model of a request made of the given parts.
pub open spec fn request_model(
    method: Method,
    url: &str,
    headers: &[(&str, &str)],
    body: Option<Seq<u8>>,
) -> RequestModel {
    RequestModel { method, url: url@, headers: borrowed_headers_view(headers@), body }
}

/// An optional byte slice seen as an optional byte sequence.
pub open spec fn body_view(body: Option<&[u8]>) -> Option<Seq<u8>> {
    match body {
        Some(b) => Some(b@),
        None => None,
    }
}

/// The error type of every client.
///
/// `Nested` carries the message given by the library and the description of
/// the underlying cause; `ResponseError` carries a response whose status was
/// refused.
#[derive(Debug)]
pub enum SimpleHttpError {
    Simple(String),
    Nested(String, String),
    ResponseError(HttpResponse),
}

/// A response: status code, response headers in the order received, body.
#[derive(Debug)]
pub struct HttpResponse {
    pub status_code: u16,
    pub response_headers: Vec<(String, String)>,
    pub body: Vec<u8>,
}

/// A response as a transport received it, header values as raw bytes.
#[derive(Debug)]
pub struct RawResponse {
    pub status_code: u16,
    pub headers: Vec<(String, Vec<u8>)>,
    pub body: Vec<u8>,
}

/// The request methods a client can issue.
#[derive(Clone, Copy, Debug, PartialEq, Eq, Structural)]
pub enum Method {
    Options,
    Get,
    Post,
    Put,
    Delete,
    Head,
    Trace,
    Connect,
    Patch,
}

impl View for HttpResponse {
    type V = ResponseModel;

    open spec fn view(&self) -> ResponseModel {
        ResponseModel {
            status_code: self.status_code,
            response_headers: owned_headers_view(self.response_headers@),
            body: self.body@,
        }
    }
}

impl View for SimpleHttpError {
    type V = ErrorModel;

    open spec fn view(&self) -> ErrorModel {
        match self {
            SimpleHttpError::Simple(m) => ErrorModel::Simple(m@),
            SimpleHttpError::Nested(m, c) => ErrorModel::Nested(m@, c@),
            SimpleHttpError::ResponseError(r) => ErrorModel::ResponseError(r@),
        }
    }
}

/// A result of a request, seen through the models of its two sides.
pub open spec fn response_result_view(r: Result<HttpResponse, SimpleHttpError>) -> Result<
    ResponseModel,
    ErrorModel,
> {
    match r {
        Ok(resp) => Ok(resp@),
        Err(e) => Err(e@),
    }
}

/// A result that carries a body, seen through the models of its two sides.
pub open spec fn body_result_view(r: Result<Vec<u8>, SimpleHttpError>) -> Result<
    Seq<u8>,
    ErrorModel,
> {
    match r {
        Ok(b) => Ok(b@),
        Err(e) => Err(e@),
    }
}

/// What the convenience methods hand back for a request's result: the body
/// of the response, or the error unchanged.
pub open spec fn body_of(r: Result<ResponseModel, ErrorModel>) -> Result<Seq<u8>, ErrorModel> {
    match r {
        Ok(resp) => Ok(resp.body),
        Err(e) => Err(e),
    }
}

impl SimpleHttpError {
    /// An error with a message alone.
    pub fn new(message: &str) -> (r: Self)
        ensures
            r@ == ErrorModel::Simple(message@),
    {
        SimpleHttpError::Simple(message.to_owned())
    }

    /// An error with a message and the description of the error that led
    /// to it.
    pub fn new_with_cause(message: &str, cause: &str) -> (r: Self)
        ensures
            r@ == ErrorModel::Nested(message@, cause@),
    {
        SimpleHttpError::Nested(message.to_owned(), cause.to_owned())
    }
}

/// The body of whatever response a request got is handed back, whatever its
/// status code, and an error is handed back unchanged.
pub proof fn lemma_body_of_hands_on(resp: ResponseModel, e: ErrorModel)
    ensures
        body_of(Ok(resp)) == Ok::<Seq<u8>, ErrorModel>(resp.body),
        body_of(Err(e)) == Err::<Seq<u8>, ErrorModel>(e),
{
}

/// Hands back the body of a response, or the error unchanged.
pub fn response_body(result: Result<HttpResponse, SimpleHttpError>) -> (r: Result<
    Vec<u8>,
    SimpleHttpError,
>)
    ensures
        body_result_view(r) == body_of(response_result_view(result)),
        result matches Ok(resp) ==> (r matches Ok(b) && b@ == resp.body@),
        result matches Err(e) ==> (r matches Err(e2) && e2@ == e@),
{
    match result {
        Ok(response) => Ok(response.body),
        Err(e) => Err(e),
    }
}

/// The character of a decimal digit.
pub open spec fn digit_char(d: nat) -> char {
    (48 + d) as char
}

/// The decimal representation of a number, most significant digit first,
/// without leading zeros.
pub open spec fn decimal(n: nat) -> Seq<char>
    decreases n,
{
    if n < 10 {
        seq![digit_char(n)]
    } else {
        decimal(n / 10).push(digit_char(n % 10))
    }
}

/// The number that a run of decimal digits stands for.
pub open spec fn decimal_value(s: Seq<char>) -> int
    decreases s.len(),
{
    if s.len() == 0 {
        0
    } else {
        decimal_value(s.drop_last()) * 10 + (s.last() as int - 48)
    }
}

/// A decimal digit character.
pub open spec fn is_digit(c: char) -> bool {
    '0' <= c && c <= '9'
}

/// The decimal representation of a number is a non-empty run of digits,
/// without a leading zero unless the number is zero, and it stands for that
/// very number.
pub proof fn lemma_decimal_round_trip(n: nat)
    ensures
        decimal(n).len() > 0,
        forall|i: int| 0 <= i < decimal(n).len() ==> is_digit(#[trigger] decimal(n)[i]),
        decimal(n)[0] == '0' ==> n == 0,
        decimal_value(decimal(n)) == n,
    decreases n,
{
    let d = digit_char(n % 10);
    assert(d as int == 48 + n % 10);
    if n >= 10 {
        lemma_decimal_round_trip(n / 10);
        let s = decimal(n);
        assert(s.drop_last() =~= decimal(n / 10));
        assert(s.last() == d);
        assert(s[0] == decimal(n / 10)[0]);
        assert forall|i: int| 0 <= i < s.len() implies is_digit(#[trigger] s[i]) by {
            if i < s.len() - 1 {
                assert(s[i] == decimal(n / 10)[i]);
            }
        }
        assert(decimal_value(s) == decimal_value(decimal(n / 10)) * 10 + (d as int - 48));
        assert((n / 10) * 10 + n % 10 == n);
    } else {
        assert(decimal(n).drop_last() =~= Seq::<char>::empty());
        assert(decimal_value(Seq::<char>::empty()) == 0);
        assert(decimal_value(decimal(n)) == 0 * 10 + (d as int - 48));
    }
}

/// The text that describes a response.
pub open spec fn response_text(r: ResponseModel) -> Seq<char> {
    "Response code: "@ + decimal(r.status_code as nat) + " header count: "@ + decimal(
        r.response_headers.len(),
    ) + " body size "@ + decimal(r.body.len())
}

/// The text that describes an error.
pub open spec fn error_text(e: ErrorModel) -> Seq<char> {
    match e {
        ErrorModel::Simple(m) => "HTTP error `"@ + m + "`"@,
        ErrorModel::Nested(m, _) => "HTTP response error `"@ + m + "`"@,
        ErrorModel::ResponseError(r) => "HTTP response error `"@ + response_text(r) + "`"@,
    }
}

fn digit_str(d: usize) -> (s: &'static str)
    requires
        d < 10,
    ensures
        s@ == seq![digit_char(d as nat)],
{
    if d == 0 {
        proof { reveal_strlit("0"); }
        "0"
    } else if d == 1 {
        proof { reveal_strlit("1"); }
        "1"
    } else if d == 2 {
        proof { reveal_strlit("2"); }
        "2"
    } else if d == 3 {
        proof { reveal_strlit("3"); }
        "3"
    } else if d == 4 {
        proof { reveal_strlit("4"); }
        "4"
    } else if d == 5 {
        proof { reveal_strlit("5"); }
        "5"
    } else if d == 6 {
        proof { reveal_strlit("6"); }
        "6"
    } else if d == 7 {
        proof { reveal_strlit("7"); }
        "7"
    } else if d == 8 {
        proof { reveal_strlit("8"); }
        "8"
    } else {
        proof { reveal_strlit("9"); }
        "9"
    }
}

/// Appends the decimal representation of `n`.
pub fn append_decimal(out: &mut String, n: usize)
    ensures
        final(out)@ == old(out)@ + decimal(n as nat),
    decreases n,
{
    if n >= 10 {
        append_decimal(out, n / 10);
    }
    out.append(digit_str(n % 10));
    proof {
        if n >= 10 {
            assert(old(out)@ + decimal((n / 10) as nat) + seq![digit_char((n % 10) as nat)]
                =~= old(out)@ + decimal(n as nat));
        } else {
            assert(old(out)@ + seq![digit_char((n % 10) as nat)] =~= old(out)@ + decimal(n as nat));
        }
    }
}

impl HttpResponse {
    /// Describes the response by its status code, header count and body size.
    pub fn to_string(&self) -> (s: String)
        ensures
            s@ == response_text(self@),
    {
        let mut s = "Response code: ".to_owned();
        append_decimal(&mut s, self.status_code as usize);
        s.append(" header count: ");
        append_decimal(&mut s, self.response_headers.len());
        s.append(" body size ");
        append_decimal(&mut s, self.body.len());
        s
    }
}

impl SimpleHttpError {
    /// Describes the error.
    pub fn to_string(&self) -> (s: String)
        ensures
            s@ == error_text(self@),
    {
        let (mut s, inner) = match self {
            SimpleHttpError::Simple(m) => ("HTTP error `".to_owned(), m.clone()),
            SimpleHttpError::Nested(m, _) => ("HTTP response error `".to_owned(), m.clone()),
            SimpleHttpError::ResponseError(r) => ("HTTP response error `".to_owned(), r.to_string()),
        };
        s.append(inner.as_str());
        s.append("`");
        s
    }
}

/// A synchronous HTTP client.
///
/// An implementation provides `custom`. `state` stands for what a client
/// holds; `answers` relates a client before a request, the state it is in
/// after it, the request and the result that the implementation may give:
/// one step of the client. The other methods issue exactly one request
/// through `custom`, so that the client moves by one such step, and hand
/// back the body of the response.
pub trait SimpleHttpClient: Send {
    /// Unless an implementation says more, every client is in one state.
    open spec fn state(&self) -> int {
        0
    }

    /// Unless an implementation says more, any result may answer any request:
    /// the platform clients of this crate, which send over the network, say
    /// no more, so for them the laws of the convenience methods fix the
    /// request sent and how its result is handed back, not the result.
    open spec fn answers(
        &self,
        after: int,
        request: RequestModel,
        result: Result<ResponseModel, ErrorModel>,
    ) -> bool {
        true
    }

    fn custom(
        &mut self,
        method: Method,
        url: &str,
        headers: &[(&str, &str)],
        body: Option<&[u8]>,
    ) -> (r: Result<HttpResponse, SimpleHttpError>)
        ensures
            old(self).answers(
                final(self).state(),
                request_model(method, url, headers, body_view(body)),
                response_result_view(r),
            ),
    ;

    fn post(&mut self, url: &str, headers: &[(&str, &str)], body: &[u8]) -> (r: Result<
        Vec<u8>,
        SimpleHttpError,
    >)
        ensures
            exists|res: Result<ResponseModel, ErrorModel>|
                {
                    &&& #[trigger] old(self).answers(
                        final(self).state(),
                        request_model(Method::Post, url, headers, Some(body@)),
                        res,
                    )
                    &&& body_result_view(r) == body_of(res)
                },
    {
        let result = self.custom(Method::Post, url, headers, Some(body));
        response_body(result)
    }

    fn patch(&mut self, url: &str, headers: &[(&str, &str)], body: &[u8]) -> (r: Result<
        Vec<u8>,
        SimpleHttpError,
    >)
        ensures
            exists|res: Result<ResponseModel, ErrorModel>|
                {
                    &&& #[trigger] old(self).answers(
                        final(self).state(),
                        request_model(Method::Patch, url, headers, Some(body@)),
                        res,
                    )
                    &&& body_result_view(r) == body_of(res)
                },
    {
        let result = self.custom(Method::Patch, url, headers, Some(body));
        response_body(result)
    }

    fn put(&mut self, url: &str, headers: &[(&str, &str)], body: &[u8]) -> (r: Result<
        Vec<u8>,
        SimpleHttpError,
    >)
        ensures
            exists|res: Result<ResponseModel, ErrorModel>|
                {
                    &&& #[trigger] old(self).answers(
                        final(self).state(),
                        request_model(Method::Put, url, headers, Some(body@)),
                        res,
                    )
                    &&& body_result_view(r) == body_of(res)
                },
    {
        let result = self.custom(Method::Put, url, headers, Some(body));
        response_body(result)
    }

    fn get(&mut self, url: &str, headers: &[(&str, &str)]) -> (r: Result<Vec<u8>, SimpleHttpError>)
        ensures
            exists|res: Result<ResponseModel, ErrorModel>|
                {
                    &&& #[trigger] old(self).answers(
                        final(self).state(),
                        request_model(Method::Get, url, headers, None),
                        res,
                    )
                    &&& body_result_view(r) == body_of(res)
                },
    {
        let result = self.custom(Method::Get, url, headers, None);
        response_body(result)
    }

    fn delete(&mut self, url: &str, headers: &[(&str, &str)]) -> (r: Result<Vec<u8>, SimpleHttpError>)
        ensures
            exists|res: Result<ResponseModel, ErrorModel>|
                {
                    &&& #[trigger] old(self).answers(
                        final(self).state(),
                        request_model(Method::Delete, url, headers, None),
                        res,
                    )
                    &&& body_result_view(r) == body_of(res)
                },
    {
        let result = self.custom(Method::Delete, url, headers, None);
        response_body(result)
    }

    fn head(&mut self, url: &str, headers: &[(&str, &str)]) -> (r: Result<Vec<u8>, SimpleHttpError>)
        ensures
            exists|res: Result<ResponseModel, ErrorModel>|
                {
                    &&& #[trigger] old(self).answers(
                        final(self).state(),
                        request_model(Method::Head, url, headers, None),
                        res,
                    )
                    &&& body_result_view(r) == body_of(res)
                },
    {
        let result = self.custom(Method::Head, url, headers, None);
        response_body(result)
    }
}

} // verus!
