use vstd::prelude::*;

use crate::simplehttp::{ErrorModel, HttpResponse, ResponseModel, SimpleHttpError, owned_headers_view};

verus! {

/// The size of the buffer that each read of a response body fills.
pub const READ_BUFFER_SIZE: usize = 3048;

/// The response headers that the ESP-IDF client can report, in the order in
/// which they are looked up.
pub open spec fn supported_header_names() -> Seq<Seq<char>> {
    seq![
        "Content-Type"@,
        "Content-Length"@,
        "Content-Encoding"@,
        "Transfer-Encoding"@,
        "Host"@,
        "Connection"@,
        "Cache-Control"@,
        "Location"@,
        "Upgrade"@,
    ]
}

/// The supported header names.
pub fn supported_headers() -> (r: Vec<&'static str>)
    ensures
        r@.map_values(|s: &str| s@) == supported_header_names(),
{
    let r = vec![
        "Content-Type",
        "Content-Length",
        "Content-Encoding",
        "Transfer-Encoding",
        "Host",
        "Connection",
        "Cache-Control",
        "Location",
        "Upgrade",
    ];
    assert(r@.map_values(|s: &str| s@) =~= supported_header_names());
    r
}

/// The headers found: each name paired with the value found for it, in the
/// order of the names, leaving out the names with no value.
pub open spec fn found_headers_of(
    names: Seq<Seq<char>>,
    found: Seq<Option<Seq<char>>>,
) -> Seq<(Seq<char>, Seq<char>)>
    decreases found.len(),
{
    if found.len() == 0 {
        seq![]
    } else {
        let rest = found_headers_of(names, found.drop_last());
        match found.last() {
            Some(v) => rest.push((names[found.len() - 1], v)),
            None => rest,
        }
    }
}

/// Every name whose value was found appears in the result with that value,
/// and every entry of the result is a name paired with the value found for
/// it; no more entries than values found.
pub proof fn lemma_found_headers_members(names: Seq<Seq<char>>, found: Seq<Option<Seq<char>>>)
    requires
        found.len() <= names.len(),
    ensures
        forall|i: int|
            0 <= i < found.len() && (#[trigger] found[i]) is Some ==> found_headers_of(
                names,
                found,
            ).contains((names[i], found[i].unwrap())),
        forall|j: int|
            0 <= j < found_headers_of(names, found).len() ==> exists|i: int|
                0 <= i < found.len() && names[i] == (#[trigger] found_headers_of(names, found)[j]).0
                    && found[i] == Some(found_headers_of(names, found)[j].1),
        found_headers_of(names, found).len() <= found.len(),
    decreases found.len(),
{
    if found.len() > 0 {
        let init = found.drop_last();
        lemma_found_headers_members(names, init);
        let rest = found_headers_of(names, init);
        let res = found_headers_of(names, found);
        let last = found.len() - 1;
        assert forall|i: int|
            0 <= i < found.len() && (#[trigger] found[i]) is Some implies res.contains(
            (names[i], found[i].unwrap()),
        ) by {
            if i < last {
                assert(init[i] == found[i]);
                let k = choose|k: int| 0 <= k < rest.len() && rest[k] == (names[i], init[i].unwrap());
                assert(res[k] == rest[k]);
            } else {
                assert(res[res.len() - 1] == (names[i], found[i].unwrap()));
            }
        }
        assert forall|j: int| 0 <= j < res.len() implies exists|i: int|
            0 <= i < found.len() && names[i] == (#[trigger] res[j]).0 && found[i] == Some(
                res[j].1,
            ) by {
            if j < rest.len() {
                assert(res[j] == rest[j]);
                let i = choose|i: int|
                    0 <= i < init.len() && names[i] == (#[trigger] rest[j]).0 && init[i] == Some(
                        rest[j].1,
                    );
                assert(found[i] == init[i]);
            } else {
                assert(found[last] == Some(res[j].1));
            }
        }
    }
}

/// Values looked up, seen as optional character sequences.
pub open spec fn found_view(found: Seq<Option<String>>) -> Seq<Option<Seq<char>>> {
    found.map_values(
        |f: Option<String>|
            match f {
                Some(s) => Some(s@),
                None => None,
            },
    )
}

/// Pairs the value looked up for each supported header with its name, in
/// order, leaving out those that were not found.
pub fn found_headers(found: &Vec<Option<String>>) -> (r: Vec<(String, String)>)
    requires
        found.len() == supported_header_names().len(),
    ensures
        owned_headers_view(r@) == found_headers_of(supported_header_names(), found_view(found@)),
        forall|i: int|
            0 <= i < found@.len() && (#[trigger] found@[i]) is Some ==> owned_headers_view(
                r@,
            ).contains((supported_header_names()[i], found@[i].unwrap()@)),
        forall|j: int|
            0 <= j < r@.len() ==> exists|i: int|
                0 <= i < found@.len() && supported_header_names()[i] == (#[trigger] r@[j]).0@
                    && found@[i] is Some && found@[i].unwrap()@ == r@[j].1@,
{
    let names = supported_headers();
    let mut out: Vec<(String, String)> = Vec::new();
    let mut i: usize = 0;
    while i < found.len()
        invariant
            i <= found.len(),
            found.len() == names.len(),
            names@.map_values(|s: &str| s@) == supported_header_names(),
            owned_headers_view(out@) == found_headers_of(
                supported_header_names(),
                found_view(found@.take(i as int)),
            ),
        decreases found.len() - i,
    {
        proof {
            assert(found_view(found@.take(i as int + 1)).drop_last() =~= found_view(
                found@.take(i as int),
            ));
            assert(supported_header_names()[i as int] == names@[i as int]@);
        }
        match &found[i] {
            Some(v) => {
                out.push((names[i].to_owned(), v.clone()));
                proof {
                    assert(owned_headers_view(out@) =~= found_headers_of(
                        supported_header_names(),
                        found_view(found@.take(i as int)),
                    ).push((supported_header_names()[i as int], v@)));
                }
            },
            None => {},
        }
        i = i + 1;
    }
    proof {
        assert(found@.take(found.len() as int) =~= found@);
        let fv = found_view(found@);
        let names = supported_header_names();
        lemma_found_headers_members(names, fv);
        let ov = owned_headers_view(out@);
        assert forall|i: int|
            0 <= i < found@.len() && (#[trigger] found@[i]) is Some implies ov.contains(
            (names[i], found@[i].unwrap()@),
        ) by {
            assert(fv[i] == Some(found@[i].unwrap()@));
        }
        assert forall|j: int| 0 <= j < out@.len() implies exists|i: int|
            0 <= i < found@.len() && names[i] == (#[trigger] out@[j]).0@ && found@[i] is Some
                && found@[i].unwrap()@ == out@[j].1@ by {
            assert(ov[j] == (out@[j].0@, out@[j].1@));
            let i = choose|i: int|
                0 <= i < fv.len() && names[i] == (#[trigger] ov[j]).0 && fv[i] == Some(ov[j].1);
            assert(fv[i] == (match found@[i] {
                Some(s) => Some(s@),
                None => None,
            }));
        }
    }
    out
}

/// Whether `text` occurs in `s` as a contiguous run of characters.
pub open spec fn occurs_in(text: Seq<char>, s: Seq<char>) -> bool {
    exists|i: int| 0 <= i && i + text.len() <= s.len() && #[trigger] s.subrange(i, i + text.len()) == text
}

/// Whether a url names the local host, which a device cannot reach.
pub fn mentions_localhost(url: &str) -> (r: bool)
    ensures
        r == occurs_in("localhost"@, url@),
{
    let needle = "localhost";
    proof {
        reveal_strlit("localhost");
        assert(needle@ == "localhost"@);
    }
    let n = needle.unicode_len();
    let len = url.unicode_len();
    if len < n {
        proof {
            assert forall|i: int|
                0 <= i && i + needle@.len() <= url@.len() implies #[trigger] url@.subrange(
                i,
                i + needle@.len(),
            ) != needle@ by {}
        }
        return false;
    }
    let mut i: usize = 0;
    while i <= len - n
        invariant
            needle@ == "localhost"@,
            n == needle@.len(),
            len == url@.len(),
            n <= len,
            i <= len - n + 1,
            forall|k: int| 0 <= k < i ==> #[trigger] url@.subrange(k, k + n) != needle@,
        decreases len - n + 1 - i,
    {
        let mut j: usize = 0;
        let mut same = true;
        while j < n
            invariant
                n == needle@.len(),
                len == url@.len(),
                i + n <= len,
                j <= n,
                same == (forall|m: int| 0 <= m < j ==> url@[i + m] == needle@[m]),
            decreases n - j,
        {
            if url.get_char(i + j) != needle.get_char(j) {
                same = false;
            }
            j = j + 1;
        }
        if same {
            assert(url@.subrange(i as int, i + needle@.len()) =~= needle@);
            assert(occurs_in(needle@, url@));
            return true;
        }
        proof {
            assert(exists|m: int| 0 <= m < n && url@[i + m] != needle@[m]);
            let m = choose|m: int| 0 <= m < n && url@[i + m] != needle@[m];
            assert(url@.subrange(i as int, i + n)[m] != needle@[m]);
        }
        i = i + 1;
    }
    false
}

/// A response being read: the status and headers found, and the body read
/// so far.
pub struct EspResponseReader {
    status_code: u16,
    response_headers: Vec<(String, String)>,
    body: Vec<u8>,
}

impl View for EspResponseReader {
    type V = ResponseModel;

    closed spec fn view(&self) -> ResponseModel {
        ResponseModel {
            status_code: self.status_code,
            response_headers: owned_headers_view(self.response_headers@),
            body: self.body@,
        }
    }
}

/// What one read of the body gave: the bytes read, none once the body is
/// over, or the description of a failure.
pub enum ReadEvent {
    Read(Vec<u8>),
    Failed(String),
}

/// What comes after a read: more to read, the whole response, or an error.
pub enum ReadStep {
    More(EspResponseReader),
    Done(HttpResponse),
    Failed(SimpleHttpError),
}

/// The model of what comes after a read.
pub enum StepModel {
    More(ResponseModel),
    Done(ResponseModel),
    Failed(ErrorModel),
}

pub open spec fn step_view(s: ReadStep) -> StepModel {
    match s {
        ReadStep::More(r) => StepModel::More(r@),
        ReadStep::Done(r) => StepModel::Done(r@),
        ReadStep::Failed(e) => StepModel::Failed(e@),
    }
}

/// The response read so far, extended by the bytes of one read.
pub open spec fn with_more_body(state: ResponseModel, bytes: Seq<u8>) -> ResponseModel {
    ResponseModel { body: state.body + bytes, ..state }
}

/// What one read does: bytes extend the body, no bytes end it, a failure
/// ends the reading with an error.
pub open spec fn read_step(state: ResponseModel, event: ReadEvent) -> StepModel {
    match event {
        ReadEvent::Read(bytes) => if bytes@.len() == 0 {
            StepModel::Done(state)
        } else {
            StepModel::More(with_more_body(state, bytes@))
        },
        ReadEvent::Failed(c) => StepModel::Failed(ErrorModel::Nested("Error reading content"@, c@)),
    }
}

/// Successive reads that gave the given bytes: the body grows with each,
/// until a read gives none.
pub open spec fn read_all(state: ResponseModel, reads: Seq<Seq<u8>>) -> StepModel
    decreases reads.len(),
{
    if reads.len() == 0 {
        StepModel::More(state)
    } else if reads[0].len() == 0 {
        StepModel::Done(state)
    } else {
        read_all(with_more_body(state, reads[0]), reads.drop_first())
    }
}

/// Reading chunks and then reaching the end of the body gives a response
/// whose body is the chunks joined in the order read.
pub proof fn lemma_read_all_joins_chunks(state: ResponseModel, chunks: Seq<Seq<u8>>)
    requires
        forall|i: int| 0 <= i < chunks.len() ==> #[trigger] chunks[i].len() > 0,
    ensures
        read_all(state, chunks.push(Seq::empty())) == StepModel::Done(
            with_more_body(state, chunks.flatten()),
        ),
    decreases chunks.len(),
{
    if chunks.len() == 0 {
        assert(state.body + Seq::<u8>::empty() =~= state.body);
        assert(with_more_body(state, chunks.flatten()) == state);
    } else {
        let rest = chunks.drop_first();
        assert forall|i: int| 0 <= i < rest.len() implies #[trigger] rest[i].len() > 0 by {
            assert(rest[i] == chunks[i + 1]);
        }
        assert(chunks.push(Seq::empty()).drop_first() =~= rest.push(Seq::empty()));
        assert(chunks.push(Seq::empty())[0] == chunks[0]);
        let next = with_more_body(state, chunks[0]);
        lemma_read_all_joins_chunks(next, rest);
        assert(next.body + rest.flatten() =~= state.body + chunks.flatten());
    }
}

/// One read is the first step of a run of reads.
pub proof fn lemma_read_step_is_first_read(state: ResponseModel, bytes: Vec<u8>, later: Seq<Seq<u8>>)
    ensures
        read_all(state, seq![bytes@] + later) == (match read_step(state, ReadEvent::Read(bytes)) {
            StepModel::More(next) => read_all(next, later),
            other => other,
        }),
{
    let reads = seq![bytes@] + later;
    assert(reads[0] == bytes@);
    assert(reads.drop_first() =~= later);
}

impl EspResponseReader {
    /// Starts reading a response; a response that does not state its
    /// content length is refused.
    pub fn start(
        content_length: Option<u64>,
        status_code: u16,
        response_headers: Vec<(String, String)>,
    ) -> (r: Result<EspResponseReader, SimpleHttpError>)
        ensures
            content_length is None ==> (r matches Err(e) && e@ == ErrorModel::Simple(
                "Error reading content length"@,
            )),
            content_length is Some ==> (r matches Ok(reader) && reader@ == (ResponseModel {
                status_code,
                response_headers: owned_headers_view(response_headers@),
                body: Seq::empty(),
            })),
    {
        match content_length {
            None => Err(SimpleHttpError::new("Error reading content length")),
            Some(_) => Ok(EspResponseReader { status_code, response_headers, body: Vec::new() }),
        }
    }

    /// Takes what one read gave.
    pub fn step(self, event: ReadEvent) -> (r: ReadStep)
        ensures
            step_view(r) == read_step(self@, event),
    {
        match event {
            ReadEvent::Read(mut bytes) => {
                if bytes.len() == 0 {
                    ReadStep::Done(
                        HttpResponse {
                            status_code: self.status_code,
                            response_headers: self.response_headers,
                            body: self.body,
                        },
                    )
                } else {
                    let mut body = self.body;
                    body.append(&mut bytes);
                    ReadStep::More(
                        EspResponseReader {
                            status_code: self.status_code,
                            response_headers: self.response_headers,
                            body,
                        },
                    )
                }
            },
            ReadEvent::Failed(c) => ReadStep::Failed(
                SimpleHttpError::new_with_cause("Error reading content", c.as_str()),
            ),
        }
    }
}

/// What failed before the response could be read, with the description of
/// the cause.
pub enum EspFailure {
    RequestFailed(String),
    WriteFailed(String),
    SubmitFailed(String),
}

/// `format!("{:?}", ..)` on a string: its text as Rust writes a string
/// literal.
pub uninterp spec fn debug_text(s: Seq<char>) -> Seq<char>;

/// `format!("{:?}", s)`: the result is `debug_text` of the string.
#[verifier::external_body]
fn debug_string(s: &str) -> (r: String)
    ensures
        r@ == debug_text(s@),
{
    format!("{:?}", s)
}

/// The error for each failure of a request to `url`.
pub open spec fn esp_error(url: Seq<char>, failure: EspFailure) -> ErrorModel {
    match failure {
        EspFailure::RequestFailed(c) => ErrorModel::Nested("Error creating  get: {}"@, c@),
        EspFailure::WriteFailed(c) => ErrorModel::Nested(
            "Error getting(with body) url: "@ + debug_text(url),
            c@,
        ),
        EspFailure::SubmitFailed(c) => ErrorModel::Nested("Error connecting"@, c@),
    }
}

/// The error for a failure of a request to `url`.
pub fn esp_failure(url: &str, failure: EspFailure) -> (r: SimpleHttpError)
    ensures
        r@ == esp_error(url@, failure),
{
    match failure {
        EspFailure::RequestFailed(c) => SimpleHttpError::new_with_cause(
            "Error creating  get: {}",
            c.as_str(),
        ),
        EspFailure::WriteFailed(c) => {
            let mut message = "Error getting(with body) url: ".to_owned();
            let quoted = debug_string(url);
            message.append(quoted.as_str());
            SimpleHttpError::new_with_cause(message.as_str(), c.as_str())
        },
        EspFailure::SubmitFailed(c) => SimpleHttpError::new_with_cause(
            "Error connecting",
            c.as_str(),
        ),
    }
}

/// The error for a client that could not be created.
pub fn client_error() -> (r: SimpleHttpError)
    ensures
        r@ == ErrorModel::Simple("Error creating http client"@),
{
    SimpleHttpError::new("Error creating http client")
}

} // verus!
