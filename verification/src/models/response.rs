//! The response model: what a completed call gave back.

use vstd::prelude::*;
use vstd::string::{StrSliceExecFns, StringExecFns};
use vstd::utf8::encode_utf8;
use crate::json::{json_text, value_to_string};
use crate::models::headers::{put, value_of, Headers, Pair};

verus! {

/// The status of a response.
#[derive(Debug, PartialEq, Eq)]
pub struct Status {
    pub code: u16,
    pub text: String,
}

/// The model of a [`Status`].
pub struct StatusView {
    pub code: u16,
    pub text: Seq<char>,
}

impl View for Status {
    type V = StatusView;

    open spec fn view(&self) -> StatusView {
        StatusView { code: self.code, text: self.text@ }
    }
}

/// The body of a response, typed by what the response declared it to be.
#[derive(Debug, PartialEq, Eq)]
pub enum Body {
    Empty,
    Text(String),
    Json(serde_json::Value),
    Html(String),
    Xml(String),
    Binary(Vec<u8>),
}

/// The model of a response [`Body`]. A JSON value is modelled by its compact
/// text.
pub enum BodyView {
    Empty,
    Text(Seq<char>),
    Json(Seq<char>),
    Html(Seq<char>),
    Xml(Seq<char>),
    Binary(Seq<u8>),
}

impl View for Body {
    type V = BodyView;

    open spec fn view(&self) -> BodyView {
        match self {
            Body::Empty => BodyView::Empty,
            Body::Text(text) => BodyView::Text(text@),
            Body::Json(value) => BodyView::Json(json_text(*value)),
            Body::Html(text) => BodyView::Html(text@),
            Body::Xml(text) => BodyView::Xml(text@),
            Body::Binary(bytes) => BodyView::Binary(bytes@),
        }
    }
}

/// The length of a body: the characters of a text, the bytes of the
/// compact text of a JSON value, the bytes of a binary body, and nothing for
/// an empty one.
pub open spec fn body_size(body: BodyView) -> nat {
    match body {
        BodyView::Empty => 0,
        BodyView::Text(text) => text.len(),
        BodyView::Html(text) => text.len(),
        BodyView::Xml(text) => text.len(),
        BodyView::Json(text) => encode_utf8(text).len(),
        BodyView::Binary(bytes) => bytes.len(),
    }
}

impl Body {
    /// The length of the body: the characters of a text, the bytes of the
    /// compact text of a JSON value, the bytes of a binary body, and nothing
    /// for an empty one.
    pub fn size(&self) -> (size: usize)
        ensures
            size == body_size(self@),
    {
        match self {
            Body::Empty => 0,
            Body::Text(text) => text.as_str().unicode_len(),
            Body::Html(text) => text.as_str().unicode_len(),
            Body::Xml(text) => text.as_str().unicode_len(),
            Body::Json(value) => value_to_string(value).as_str().as_bytes().len(),
            Body::Binary(bytes) => bytes.len(),
        }
    }
}

/// When a call was dispatched and when its response had come, on a clock
/// that never runs backwards, in nanoseconds.
#[derive(Debug, Clone, Copy)]
pub struct Timing {
    start: u64,
    end: u64,
    duration: u64,
}

impl Timing {
    #[verifier::type_invariant]
    spec fn consistent(self) -> bool {
        self.start <= self.end && self.duration == self.end - self.start
    }

    /// The time of dispatch.
    pub closed spec fn spec_start(self) -> u64 {
        self.start
    }

    /// The time at which the response had come.
    pub closed spec fn spec_end(self) -> u64 {
        self.end
    }

    /// The time the call took.
    pub closed spec fn spec_duration(self) -> u64 {
        self.duration
    }

    /// The timing of a call dispatched at `start` whose response had come at
    /// `end`.
    pub fn new(start: u64, end: u64) -> (timing: Timing)
        requires
            start <= end,
        ensures
            timing.spec_start() == start,
            timing.spec_end() == end,
            timing.spec_duration() == end - start,
    {
        Timing { start, end, duration: end - start }
    }

    /// The time of dispatch.
    #[verifier::when_used_as_spec(spec_start)]
    pub fn start(self) -> (start: u64)
        ensures
            start == self.spec_start(),
            start <= self.spec_end(),
    {
        proof {
            use_type_invariant(self);
        }
        self.start
    }

    /// The time at which the response had come.
    #[verifier::when_used_as_spec(spec_end)]
    pub fn end(self) -> (end: u64)
        ensures
            end == self.spec_end(),
            end >= self.spec_start(),
    {
        proof {
            use_type_invariant(self);
        }
        self.end
    }

    /// The time the call took: the end less the start.
    #[verifier::when_used_as_spec(spec_duration)]
    pub fn duration(self) -> (duration: u64)
        ensures
            duration == self.spec_duration(),
            duration == self.spec_end() - self.spec_start(),
    {
        proof {
            use_type_invariant(self);
        }
        self.duration
    }
}

/// The sizes of a response.
#[derive(Debug, Clone, Copy, PartialEq, Eq, Structural)]
pub struct Size {
    /// The lengths of all header names and values, added up.
    pub headers: usize,
    /// The length of the body.
    pub body: usize,
}

/// A completed call: status, headers, decoded body, timing and sizes.
#[derive(Debug)]
pub struct HttpResponse {
    pub status: Status,
    pub headers: Headers,
    pub body: Body,
    pub timing: Timing,
    pub size: Size,
}

/// The model of an [`HttpResponse`].
pub struct HttpResponseView {
    pub status: StatusView,
    pub headers: Seq<Pair>,
    pub body: BodyView,
    pub start: u64,
    pub end: u64,
    pub duration: u64,
    pub size: Size,
}

impl View for HttpResponse {
    type V = HttpResponseView;

    open spec fn view(&self) -> HttpResponseView {
        HttpResponseView {
            status: self.status@,
            headers: self.headers@,
            body: self.body@,
            start: self.timing.spec_start(),
            end: self.timing.spec_end(),
            duration: self.timing.spec_duration(),
            size: self.size,
        }
    }
}

/// The text that a body has, if it is one of the kinds that hold text. A
/// JSON body has its compact text.
pub open spec fn text_of(body: BodyView) -> Option<Seq<char>> {
    match body {
        BodyView::Text(text) => Some(text),
        BodyView::Html(text) => Some(text),
        BodyView::Xml(text) => Some(text),
        BodyView::Json(text) => Some(text),
        BodyView::Empty => None,
        BodyView::Binary(_) => None,
    }
}

impl HttpResponse {
    /// A response with the given status and nothing else: no header, an
    /// empty body, all times and sizes zero.
    pub fn new(status_code: u16, status_text: String) -> (response: HttpResponse)
        ensures
            response@ == (HttpResponseView {
                status: StatusView { code: status_code, text: status_text@ },
                headers: Seq::empty(),
                body: BodyView::Empty,
                start: 0,
                end: 0,
                duration: 0,
                size: Size { headers: 0, body: 0 },
            }),
    {
        HttpResponse {
            status: Status { code: status_code, text: status_text },
            headers: Headers::new(),
            body: Body::Empty,
            timing: Timing::new(0, 0),
            size: Size { headers: 0, body: 0 },
        }
    }

    /// The response with `value` stored under the header name `key`. A name
    /// that the response already holds takes the new value.
    pub fn with_header(self, key: &str, value: &str) -> (response: HttpResponse)
        ensures
            response@ == (HttpResponseView { headers: put(self@.headers, key@, value@), ..self@ }),
    {
        let mut response = self;
        response.headers.insert(String::from_str(key), String::from_str(value));
        response
    }

    /// The response with `body` as its body.
    pub fn with_body(self, body: Body) -> (response: HttpResponse)
        ensures
            response@ == (HttpResponseView { body: body@, ..self@ }),
    {
        let mut response = self;
        response.body = body;
        response
    }

    /// The response with the timing of a call dispatched at `start` whose
    /// response had come at `end`; the duration is the difference.
    pub fn with_timing(self, start: u64, end: u64) -> (response: HttpResponse)
        requires
            start <= end,
        ensures
            response@ == (HttpResponseView {
                start: start,
                end: end,
                duration: (end - start) as u64,
                ..self@
            }),
    {
        let mut response = self;
        response.timing = Timing::new(start, end);
        response
    }

    /// The value of the `Content-Type` header, looked up under that very
    /// spelling.
    pub fn get_content_type(&self) -> (content_type: Option<&str>)
        ensures
            content_type.deep_view() == value_of(self@.headers, "Content-Type"@),
    {
        match self.headers.get("Content-Type") {
            Some(value) => Some(value.as_str()),
            None => None,
        }
    }

    /// The body as text, for the kinds of body that hold text. A JSON body
    /// gives its compact text.
    pub fn get_body_as_text(&self) -> (text: Option<String>)
        ensures
            text.deep_view() == text_of(self@.body),
    {
        match &self.body {
            Body::Text(text) => Some(text.clone()),
            Body::Html(text) => Some(text.clone()),
            Body::Xml(text) => Some(text.clone()),
            Body::Json(value) => Some(value_to_string(value)),
            Body::Empty => None,
            Body::Binary(_) => None,
        }
    }
}

} // verus!
