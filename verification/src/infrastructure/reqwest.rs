//! The request executor for a `reqwest` client.
//!
//! A call goes through three stages. While it is built, [`ReqwestClient::prepare`]
//! turns the request into a [`TransportRequest`], whose fields are handed to
//! the client's request builder one by one. While it is in flight the caller
//! waits for the client. When the client has answered,
//! [`ReqwestClient::conclude`] turns the raw response into an [`HttpResponse`],
//! or the failure of the transport into an [`Error`]. A call is not tried
//! again, and it gives either a whole response or an error.

use vstd::prelude::*;
use vstd::string::StringExecFns;
use vstd::utf8::encode_utf8;
use crate::codec::{
    body_of, classify, decode_body, decode_fails, encode_body, file_of, file_paths, find_file,
    is_degraded, kind_of, pairs_of, paths_of, payload_of,
};
use crate::error::{Error, ErrorView};
use crate::models::headers::{
    capped, distinct_keys, has_key, lemma_put, put, total_size, Headers, Pair,
};
use crate::models::request::{Body, BodyView, HttpRequest, HttpRequestView, Method, Param};
use crate::models::response;
use crate::models::response::{
    body_size, HttpResponse, HttpResponseView, Size, Status, StatusView, Timing,
};
use crate::text::{
    ascii_chars, decode_text, folds_to, is_visible_ascii, is_visible_byte, lemma_ascii_is_utf8,
    lowered, visible_ascii,
};
use crate::transport::{
    FileContent, FileContentView, Payload, PayloadView, RawResponse, RawResponseView,
    TransportRequest, TransportRequestView,
};

verus! {

/// A byte that may stand in a header name: a letter, a digit, or one of
/// ``! " # $ % & ' * + - . ^ _ ` | ~``.
pub open spec fn is_name_byte(b: u8) -> bool {
    ||| 0x21 <= b <= 0x27
    ||| b == 0x2a
    ||| b == 0x2b
    ||| b == 0x2d
    ||| b == 0x2e
    ||| 0x30 <= b <= 0x39
    ||| 0x41 <= b <= 0x5a
    ||| 0x5e <= b <= 0x7a
    ||| b == 0x7c
    ||| b == 0x7e
}

/// A header name that the transport accepts: between 1 and 65535 bytes, each
/// of which may stand in a name.
pub open spec fn valid_header_name(name: Seq<u8>) -> bool {
    &&& 1 <= name.len() <= 65535
    &&& forall|i: int| 0 <= i < name.len() ==> is_name_byte(#[trigger] name[i])
}

/// A byte that may stand in a header value that is given as text: a tab, or
/// anything from the space upwards but the delete character.
pub open spec fn is_value_byte(b: u8) -> bool {
    (b >= 32 && b != 127) || b == 9
}

/// A header value that the transport accepts.
pub open spec fn valid_header_value(value: Seq<u8>) -> bool {
    forall|i: int| 0 <= i < value.len() ==> is_value_byte(#[trigger] value[i])
}

/// A header that the transport accepts: both its name and its value.
pub open spec fn is_sendable(header: Pair) -> bool {
    valid_header_name(encode_utf8(header.0)) && valid_header_value(encode_utf8(header.1))
}

/// The headers that the transport accepts, in the order in which they
/// stand.
pub open spec fn sendable(headers: Seq<Pair>) -> Seq<Pair>
    decreases headers.len(),
{
    if headers.len() == 0 {
        Seq::empty()
    } else if is_sendable(headers.last()) {
        sendable(headers.drop_last()).push(headers.last())
    } else {
        sendable(headers.drop_last())
    }
}

/// Every header that is picked for sending is one that the transport
/// accepts.
pub proof fn lemma_sendable_are_accepted(headers: Seq<Pair>)
    ensures
        forall|i: int|
            0 <= i < sendable(headers).len() ==> is_sendable(#[trigger] sendable(headers)[i]),
    decreases headers.len(),
{
    if headers.len() > 0 {
        let before = sendable(headers.drop_last());
        lemma_sendable_are_accepted(headers.drop_last());
        assert forall|i: int| 0 <= i < sendable(headers).len() implies is_sendable(
            #[trigger] sendable(headers)[i],
        ) by {
            if i < before.len() {
                assert(sendable(headers)[i] == before[i]);
            }
        }
    }
}

/// Tells whether `reqwest::header::HeaderName::from_bytes` accepts the bytes
/// of `name`. It does so for names of 1 to 65535 bytes that all map to
/// something in its table of header characters, which holds the letters,
/// the digits and ``! " # $ % & ' * + - . ^ _ ` | ~``.
#[verifier::external_body]
fn header_name_accepted(name: &str) -> (accepted: bool)
    ensures
        accepted == valid_header_name(encode_utf8(name@)),
{
    reqwest::header::HeaderName::from_bytes(name.as_bytes()).is_ok()
}

/// Tells whether `reqwest::header::HeaderValue::from_str` accepts `value`.
/// It refuses a value that holds a byte below the space other than the tab,
/// or the delete character, and accepts every other.
#[verifier::external_body]
fn header_value_accepted(value: &str) -> (accepted: bool)
    ensures
        accepted == valid_header_value(encode_utf8(value@)),
{
    reqwest::header::HeaderValue::from_str(value).is_ok()
}

/// The text of a header value that came with a response: its characters
/// where all its bytes are visible ASCII, spaces or tabs, and the empty text
/// otherwise.
pub open spec fn header_text(value: Seq<u8>) -> Seq<char> {
    if visible_ascii(value) {
        ascii_chars(value)
    } else {
        Seq::empty()
    }
}

/// The headers of a response as a collection: each is stored under its name
/// in the order in which it came, so that of two with one name the later
/// one stays.
pub open spec fn collected(headers: Seq<(Seq<char>, Seq<u8>)>) -> Seq<Pair>
    decreases headers.len(),
{
    if headers.len() == 0 {
        Seq::empty()
    } else {
        put(collected(headers.drop_last()), headers.last().0, header_text(headers.last().1))
    }
}

/// The payload of a request after a body was attached: what the body
/// becomes, and what was there before where the body becomes nothing or
/// there is no body.
pub open spec fn payload_with(
    current: PayloadView,
    body: Option<BodyView>,
    files: Seq<FileContentView>,
) -> PayloadView {
    match body {
        Some(body) => match payload_of(body, files) {
            Some(payload) => payload,
            None => current,
        },
        None => current,
    }
}

/// What is handed to the transport for a request, given the files that
/// could be read for its body.
pub open spec fn prepared(
    request: HttpRequestView,
    files: Seq<FileContentView>,
) -> TransportRequestView {
    TransportRequestView {
        method: request.method.token(),
        url: request.url,
        headers: sendable(request.headers),
        query: request.params,
        payload: payload_with(PayloadView::Empty, request.body, files),
        timeout: request.timeout,
    }
}

/// The name is that of the content type header: `content-type`, in
/// whatever case its letters are written.
pub open spec fn names_content_type(name: Seq<char>) -> bool {
    lowered(encode_utf8(name)) == encode_utf8("content-type"@)
}

/// The content type that the headers declare: the value of the first
/// header that is named `content-type`, in whatever case, if there is one.
pub open spec fn declared_type(headers: Seq<Pair>) -> Option<Seq<char>>
    decreases headers.len(),
{
    if headers.len() == 0 {
        None
    } else if names_content_type(headers[0].0) {
        Some(headers[0].1)
    } else {
        declared_type(headers.drop_first())
    }
}

/// The response that a raw response becomes, for a call dispatched at
/// `start` whose response had come at `end`.
pub open spec fn response_of(raw: RawResponseView, start: u64, end: u64) -> HttpResponseView {
    let headers = collected(raw.headers);
    let body = body_of(declared_type(headers), raw.body);
    HttpResponseView {
        status: StatusView { code: raw.status_code, text: raw.status_text },
        headers: headers,
        body: body,
        start: start,
        end: end,
        duration: (end - start) as u64,
        size: Size { headers: capped(total_size(headers)), body: capped(body_size(body)) },
    }
}

/// An error for each header that the transport refuses, in the order of the
/// headers.
pub open spec fn refused(headers: Seq<Pair>) -> Seq<ErrorView>
    decreases headers.len(),
{
    if headers.len() == 0 {
        Seq::empty()
    } else if is_sendable(headers.last()) {
        refused(headers.drop_last())
    } else {
        refused(headers.drop_last()).push(ErrorView::InvalidHeaderValue { name: headers.last().0 })
    }
}

/// An error for each path whose file is not among `files`, in the order of
/// the paths.
pub open spec fn unread(paths: Seq<Seq<char>>, files: Seq<FileContentView>) -> Seq<ErrorView>
    decreases paths.len(),
{
    if paths.len() == 0 {
        Seq::empty()
    } else if file_of(files, paths.last()) is Some {
        unread(paths.drop_last(), files)
    } else {
        unread(paths.drop_last(), files).push(ErrorView::ResourceUnavailable { path: paths.last() })
    }
}

/// What a request loses when it is prepared: first the headers that the
/// transport refuses, then the files that its body names and that could not
/// be read.
pub open spec fn request_losses(request: HttpRequestView, files: Seq<FileContentView>) -> Seq<
    ErrorView,
> {
    refused(request.headers) + unread(paths_of(request.body), files)
}

/// What a response loses when it is decoded: its body, where the bytes
/// cannot be read as what the headers declare them to be.
pub open spec fn response_loss(raw: RawResponseView) -> Option<ErrorView> {
    if decode_fails(kind_of(declared_type(collected(raw.headers))), raw.body) {
        Some(ErrorView::DecodeDegraded)
    } else {
        None
    }
}

/// Some header of a raw response has the name `name`.
pub open spec fn has_header(headers: Seq<(Seq<char>, Seq<u8>)>, name: Seq<char>) -> bool {
    exists|i: int| 0 <= i < headers.len() && (#[trigger] headers[i]).0 == name
}

/// The collection made of the headers of a response holds each name once,
/// and it holds the names that came and no others.
pub proof fn lemma_collected_names(headers: Seq<(Seq<char>, Seq<u8>)>, name: Seq<char>)
    ensures
        distinct_keys(collected(headers)),
        has_key(collected(headers), name) == has_header(headers, name),
    decreases headers.len(),
{
    if headers.len() > 0 {
        let before = headers.drop_last();
        let last = headers.last();
        lemma_collected_names(before, name);
        lemma_collected_names(before, last.0);
        lemma_put(collected(before), last.0, header_text(last.1));
        if has_header(before, name) {
            let i = choose|i: int| 0 <= i < before.len() && (#[trigger] before[i]).0 == name;
            assert(headers[i].0 == name);
        }
        if has_header(headers, name) && name != last.0 {
            let i = choose|i: int| 0 <= i < headers.len() && (#[trigger] headers[i]).0 == name;
            assert(before[i].0 == name);
        }
    }
}

/// Headers of which none is named `content-type` declare no content type.
pub proof fn lemma_none_declared(headers: Seq<Pair>)
    requires
        forall|i: int| 0 <= i < headers.len() ==> !names_content_type((#[trigger] headers[i]).0),
    ensures
        declared_type(headers) is None,
    decreases headers.len(),
{
    if headers.len() > 0 {
        let rest = headers.drop_first();
        assert(!names_content_type(headers[0].0));
        assert forall|i: int| 0 <= i < rest.len() implies !names_content_type(
            (#[trigger] rest[i]).0,
        ) by {
            assert(rest[i] == headers[i + 1]);
        }
        lemma_none_declared(rest);
    }
}

/// A response that came without a `content-type` header, in whatever case
/// the name may be written, has a binary body: the bytes of the raw response
/// as they came.
pub proof fn lemma_no_content_type_is_binary(raw: RawResponseView, start: u64, end: u64)
    requires
        forall|i: int|
            0 <= i < raw.headers.len() ==> !names_content_type((#[trigger] raw.headers[i]).0),
    ensures
        response_of(raw, start, end).body == response::BodyView::Binary(raw.body),
{
    let held = collected(raw.headers);
    assert forall|j: int| 0 <= j < held.len() implies !names_content_type(
        (#[trigger] held[j]).0,
    ) by {
        lemma_collected_names(raw.headers, held[j].0);
        assert(has_key(held, held[j].0));
        let i = choose|i: int|
            0 <= i < raw.headers.len() && (#[trigger] raw.headers[i]).0 == held[j].0;
        assert(!names_content_type(raw.headers[i].0));
    }
    lemma_none_declared(held);
}

/// Query parameters with one key both go out, at the places at which the
/// request holds them: nothing is merged and the order is kept.
pub proof fn lemma_query_keeps_duplicates(
    request: HttpRequestView,
    files: Seq<FileContentView>,
    first: int,
    second: int,
)
    requires
        0 <= first < second < request.params.len(),
        request.params[first].0 == request.params[second].0,
    ensures
        prepared(request, files).query.len() == request.params.len(),
        prepared(request, files).query[first] == request.params[first],
        prepared(request, files).query[second] == request.params[second],
{
}

/// The executor of requests.
#[derive(Debug)]
pub struct ReqwestClient {}

impl ReqwestClient {
    /// A new executor.
    pub fn new() -> (client: ReqwestClient)
        ensures
            client == (ReqwestClient {}),
    {
        ReqwestClient {}
    }

    /// The token of the transport method for `method`. Each of the seven
    /// methods has its own.
    pub fn to_reqwest_method(method: &Method) -> (token: &'static str)
        ensures
            token@ == method.token(),
    {
        match method {
            Method::GET => "GET",
            Method::POST => "POST",
            Method::PUT => "PUT",
            Method::DELETE => "DELETE",
            Method::PATCH => "PATCH",
            Method::HEAD => "HEAD",
            Method::OPTIONS => "OPTIONS",
        }
    }

    /// Picks the headers that the transport accepts. A header whose name or
    /// value it refuses is left out; the others keep their order.
    pub fn build_headers(&self, headers: &Headers) -> (built: Vec<(String, String)>)
        ensures
            built.deep_view() == sendable(headers@),
            forall|i: int| 0 <= i < built@.len() ==> is_sendable(#[trigger] built.deep_view()[i]),
    {
        proof {
            lemma_sendable_are_accepted(headers@);
        }
        let mut built: Vec<(String, String)> = Vec::new();
        let mut at: usize = 0;
        let count: usize = headers.len();
        while at < count
            invariant
                at <= count,
                count == headers@.len(),
                built.deep_view() =~= sendable(headers@.take(at as int)),
            decreases count - at,
        {
            assert(headers@.take(at + 1).drop_last() =~= headers@.take(at as int));
            let name = headers.name_at(at);
            let value = headers.value_at(at);
            if header_name_accepted(name.as_str()) && header_value_accepted(value.as_str()) {
                built.push((name.clone(), value.clone()));
            }
            at += 1;
        }
        assert(headers@.take(at as int) =~= headers@);
        built
    }

    /// Appends the query parameters in the order given. A key that is there
    /// already stays: both parameters go out.
    pub fn add_query_params(&self, builder: TransportRequest, params: &Vec<Param>) -> (built:
        TransportRequest)
        ensures
            built@ == (TransportRequestView {
                query: builder@.query + params.deep_view(),
                ..builder@
            }),
    {
        let mut built = builder;
        let mut pairs = pairs_of(params);
        let ghost before = built.query.deep_view();
        let ghost added = pairs.deep_view();
        built.query.append(&mut pairs);
        assert(built.query.deep_view() =~= before + added);
        built
    }

    /// Attaches the body. What it becomes is the payload; where it becomes
    /// nothing, or there is no body, the payload stays as it was.
    pub fn add_body(
        &self,
        builder: TransportRequest,
        body: &Option<Body>,
        files: &Vec<FileContent>,
    ) -> (built: TransportRequest)
        ensures
            built@ == (TransportRequestView {
                payload: payload_with(builder@.payload, body.deep_view(), files.deep_view()),
                ..builder@
            }),
    {
        let mut built = builder;
        match body {
            Some(body) => match encode_body(body, files) {
                Some(payload) => {
                    built.payload = payload;
                },
                None => {},
            },
            None => {},
        }
        built
    }

    /// Builds what is handed to the transport for `request`: its method
    /// token and URL, the headers that the transport accepts, the query
    /// parameters in order, the payload that the body becomes with the
    /// files that could be read, and the deadline.
    pub fn prepare(&self, request: &HttpRequest, files: &Vec<FileContent>) -> (built:
        TransportRequest)
        ensures
            built@ == prepared(request@, files.deep_view()),
    {
        let builder = TransportRequest {
            method: String::from_str(Self::to_reqwest_method(&request.method)),
            url: request.url.clone(),
            headers: self.build_headers(&request.headers),
            query: Vec::new(),
            payload: Payload::Empty,
            timeout: request.timeout,
        };
        let builder = self.add_query_params(builder, &request.params);
        self.add_body(builder, &request.body, files)
    }

    /// Reads the value of a response header as text. A value with a byte
    /// that is not visible ASCII, a space or a tab gives the empty string.
    pub fn header_value_text(value: &[u8]) -> (text: String)
        ensures
            text@ == header_text(value@),
    {
        if is_visible_ascii(value) {
            proof {
                assert(forall|i: int| 0 <= i < value@.len() ==> #[trigger] value@[i] < 128);
                lemma_ascii_is_utf8(value@);
            }
            match decode_text(value) {
                Some(text) => text,
                None => String::new(),
            }
        } else {
            String::new()
        }
    }

    /// Collects the headers of a response. Of two headers with one name the
    /// later one stays.
    pub fn collect_headers(raw: &Vec<(String, Vec<u8>)>) -> (headers: Headers)
        ensures
            headers@ == collected(raw.deep_view()),
    {
        let mut headers = Headers::new();
        let mut at: usize = 0;
        while at < raw.len()
            invariant
                at <= raw@.len(),
                headers@ == collected(raw.deep_view().take(at as int)),
            decreases raw@.len() - at,
        {
            let ghost done = raw.deep_view().take(at as int);
            let ghost next = raw.deep_view().take(at + 1);
            assert(next.drop_last() =~= done);
            assert(next.last().1 =~= raw@[at as int].1@);
            let value = Self::header_value_text(raw[at].1.as_slice());
            headers.insert(raw[at].0.clone(), value);
            at += 1;
        }
        assert(raw.deep_view().take(at as int) =~= raw.deep_view());
        headers
    }

    /// Finds the content type that the headers declare: the value of the
    /// first header that is named `content-type`, in whatever case.
    pub fn declared_content_type(headers: &Headers) -> (declared: Option<&String>)
        ensures
            declared.deep_view() == declared_type(headers@),
    {
        let count: usize = headers.len();
        let mut at: usize = 0;
        assert(headers@.skip(0) =~= headers@);
        while at < count
            invariant
                at <= count,
                count == headers@.len(),
                declared_type(headers@) == declared_type(headers@.skip(at as int)),
            decreases count - at,
        {
            assert(headers@.skip(at as int)[0] == headers@[at as int]);
            if folds_to(headers.name_at(at).as_str().as_bytes(), "content-type".as_bytes()) {
                return Some(headers.value_at(at));
            }
            assert(headers@.skip(at as int).drop_first() =~= headers@.skip(at + 1));
            at += 1;
        }
        None
    }

    /// Turns the raw response of a call into its response: the status and
    /// the headers as they came, the body decoded by the content type that
    /// the headers declare, the timing of the call and the sizes of headers
    /// and body.
    pub fn handle_response(&self, response: RawResponse, start: u64, end: u64) -> (completed:
        HttpResponse)
        requires
            start <= end,
        ensures
            completed@ == response_of(response@, start, end),
            completed@.duration == completed@.end - completed@.start,
            completed.size.body == body_size(completed@.body),
    {
        let status = Status { code: response.status_code, text: response.status_text };
        let headers = Self::collect_headers(&response.headers);
        let body = match Self::declared_content_type(&headers) {
            Some(declared) => decode_body(Some(declared.as_str()), response.body.as_slice()),
            None => decode_body(None, response.body.as_slice()),
        };
        let size = Size { headers: headers.size(), body: body.size() };
        HttpResponse { status, headers, body, timing: Timing::new(start, end), size }
    }

    /// Ends a call that was dispatched at `start` and came back at `end`.
    /// A raw response gives the response of the call; a failure of the
    /// transport gives a transport error that holds its cause.
    pub fn conclude(&self, outcome: Result<RawResponse, String>, start: u64, end: u64) -> (result:
        Result<HttpResponse, Error>)
        requires
            start <= end,
        ensures
            match outcome {
                Ok(raw) => result matches Ok(completed) && completed@ == response_of(
                    raw@,
                    start,
                    end,
                ),
                Err(cause) => result matches Err(error) && error@ == (ErrorView::Transport {
                    cause: cause@,
                }),
            },
    {
        match outcome {
            Ok(response) => Ok(self.handle_response(response, start, end)),
            Err(cause) => Err(Error::Transport { cause }),
        }
    }

    /// Lists what `request` loses when it is prepared with `files`: an error
    /// for each header that is left out, then one for each file that its
    /// body names and that is not among `files`. None of them ends the call.
    pub fn request_degradations(&self, request: &HttpRequest, files: &Vec<FileContent>) -> (losses:
        Vec<Error>)
        ensures
            losses.deep_view() == request_losses(request@, files.deep_view()),
            forall|i: int| 0 <= i < losses@.len() ==> !(#[trigger] losses@[i]@ is Transport),
    {
        let mut losses: Vec<Error> = Vec::new();
        let count: usize = request.headers.len();
        let mut at: usize = 0;
        while at < count
            invariant
                at <= count,
                count == request.headers@.len(),
                losses.deep_view() =~= refused(request.headers@.take(at as int)),
                forall|i: int| 0 <= i < losses@.len() ==> !(#[trigger] losses@[i]@ is Transport),
            decreases count - at,
        {
            assert(request.headers@.take(at + 1).drop_last() =~= request.headers@.take(at as int));
            let name = request.headers.name_at(at);
            let value = request.headers.value_at(at);
            if !(header_name_accepted(name.as_str()) && header_value_accepted(value.as_str())) {
                losses.push(Error::InvalidHeaderValue { name: name.clone() });
            }
            at += 1;
        }
        assert(request.headers@.take(at as int) =~= request.headers@);
        let paths = file_paths(&request.body);
        let ghost lost_headers = losses.deep_view();
        let mut at: usize = 0;
        while at < paths.len()
            invariant
                at <= paths@.len(),
                losses.deep_view() =~= lost_headers + unread(
                    paths.deep_view().take(at as int),
                    files.deep_view(),
                ),
                forall|i: int| 0 <= i < losses@.len() ==> !(#[trigger] losses@[i]@ is Transport),
            decreases paths@.len() - at,
        {
            assert(paths.deep_view().take(at + 1).drop_last() =~= paths.deep_view().take(at as int));
            let ghost before = losses.deep_view();
            if find_file(files, paths[at].as_str()).is_none() {
                losses.push(Error::ResourceUnavailable { path: paths[at].clone() });
                assert(losses.deep_view() =~= before.push(
                    ErrorView::ResourceUnavailable { path: paths@[at as int]@ },
                ));
            }
            at += 1;
        }
        assert(paths.deep_view().take(at as int) =~= paths.deep_view());
        losses
    }

    /// Tells what `response` loses when it is decoded: its body, where the
    /// bytes cannot be read as what the `content-type` header declares. The
    /// call still ends with a response.
    pub fn response_degradation(&self, response: &RawResponse) -> (loss: Option<Error>)
        ensures
            loss.deep_view() == response_loss(response@),
    {
        let headers = Self::collect_headers(&response.headers);
        let kind = match Self::declared_content_type(&headers) {
            Some(declared) => classify(Some(declared.as_str())),
            None => classify(None),
        };
        if is_degraded(kind, response.body.as_slice()) {
            Some(Error::DecodeDegraded)
        } else {
            None
        }
    }
}

} // verus!
