//! The request model: a plain description of one outbound HTTP call.
//!
//! A request is built from a method and a URL and then extended step by step.
//! Nothing is validated while it is built: what the transport cannot send is
//! dealt with when the request is prepared for dispatch.

use vstd::prelude::*;
use vstd::string::StringExecFns;
use crate::models::headers::{put, Headers, Pair};

verus! {

/// The HTTP methods a request can use.
#[derive(Debug, Clone, Copy, PartialEq, Eq, Structural)]
pub enum Method {
    GET,
    POST,
    PUT,
    DELETE,
    PATCH,
    HEAD,
    OPTIONS,
}

impl Method {
    /// The method's token as it is written on the wire.
    pub open spec fn token(self) -> Seq<char> {
        match self {
            Method::GET => "GET"@,
            Method::POST => "POST"@,
            Method::PUT => "PUT"@,
            Method::DELETE => "DELETE"@,
            Method::PATCH => "PATCH"@,
            Method::HEAD => "HEAD"@,
            Method::OPTIONS => "OPTIONS"@,
        }
    }
}

/// Each method has a token of its own: two methods with one token are one
/// method.
pub proof fn lemma_method_tokens_differ(a: Method, b: Method)
    ensures
        a.token() == b.token() <==> a == b,
{
    reveal_strlit("GET");
    reveal_strlit("POST");
    reveal_strlit("PUT");
    reveal_strlit("DELETE");
    reveal_strlit("PATCH");
    reveal_strlit("HEAD");
    reveal_strlit("OPTIONS");
    if a != b && a.token() == b.token() {
        assert(a.token().len() == b.token().len());
        assert(a.token()[0] == b.token()[0]);
    }
}

/// A key with its value: a query parameter or a form field.
#[derive(Debug, Clone, PartialEq, Eq)]
pub struct Param {
    pub key: String,
    pub value: String,
}

impl View for Param {
    type V = Pair;

    open spec fn view(&self) -> Pair {
        (self.key@, self.value@)
    }
}

impl DeepView for Param {
    type V = Pair;

    open spec fn deep_view(&self) -> Pair {
        self@
    }
}

/// The kinds of text that a raw body can hold.
#[derive(Debug, Clone, Copy, PartialEq, Eq, Structural)]
pub enum RawBodyType {
    Text,
    Json,
    Xml,
    Html,
    Javascript,
}

impl RawBodyType {
    /// The media type that is sent as `Content-Type` for this kind of text.
    pub open spec fn mime(self) -> Seq<char> {
        match self {
            RawBodyType::Text => "text/plain"@,
            RawBodyType::Json => "application/json"@,
            RawBodyType::Xml => "application/xml"@,
            RawBodyType::Html => "text/html"@,
            RawBodyType::Javascript => "application/javascript"@,
        }
    }

    /// Returns the media type that is sent as `Content-Type` for this kind
    /// of text.
    pub fn as_mime(&self) -> (mime: &'static str)
        ensures
            mime@ == self.mime(),
    {
        match self {
            RawBodyType::Text => "text/plain",
            RawBodyType::Json => "application/json",
            RawBodyType::Xml => "application/xml",
            RawBodyType::Html => "text/html",
            RawBodyType::Javascript => "application/javascript",
        }
    }
}

/// A body given as literal text together with the kind of the text.
#[derive(Debug, Clone, PartialEq, Eq)]
pub struct RawBody {
    pub content: String,
    pub content_type: RawBodyType,
}

/// The model of a [`RawBody`].
pub struct RawBodyView {
    pub content: Seq<char>,
    pub content_type: RawBodyType,
}

impl View for RawBody {
    type V = RawBodyView;

    open spec fn view(&self) -> RawBodyView {
        RawBodyView { content: self.content@, content_type: self.content_type }
    }
}

impl DeepView for RawBody {
    type V = RawBodyView;

    open spec fn deep_view(&self) -> RawBodyView {
        self@
    }
}

/// The value of one multipart form field: a text, or a file to attach.
#[derive(Debug, Clone, PartialEq, Eq)]
pub enum FormDataValue {
    Text(String),
    File { path: String, content_type: Option<String> },
}

/// The model of a [`FormDataValue`].
pub enum FormDataValueView {
    Text(Seq<char>),
    File { path: Seq<char>, content_type: Option<Seq<char>> },
}

impl View for FormDataValue {
    type V = FormDataValueView;

    open spec fn view(&self) -> FormDataValueView {
        match self {
            FormDataValue::Text(text) => FormDataValueView::Text(text@),
            FormDataValue::File { path, content_type } => FormDataValueView::File {
                path: path@,
                content_type: content_type.deep_view(),
            },
        }
    }
}

impl DeepView for FormDataValue {
    type V = FormDataValueView;

    open spec fn deep_view(&self) -> FormDataValueView {
        self@
    }
}

/// One field of a multipart form.
#[derive(Debug, Clone, PartialEq, Eq)]
pub struct FormDataItem {
    pub key: String,
    pub value: FormDataValue,
}

/// The model of a [`FormDataItem`].
pub struct FormDataItemView {
    pub key: Seq<char>,
    pub value: FormDataValueView,
}

impl View for FormDataItem {
    type V = FormDataItemView;

    open spec fn view(&self) -> FormDataItemView {
        FormDataItemView { key: self.key@, value: self.value@ }
    }
}

impl DeepView for FormDataItem {
    type V = FormDataItemView;

    open spec fn deep_view(&self) -> FormDataItemView {
        self@
    }
}

/// The body of a request. A request has at most one.
#[derive(Debug, Clone, PartialEq, Eq)]
pub enum Body {
    /// Literal text with its kind.
    Raw(RawBody),
    /// A multipart form.
    FormData(Vec<FormDataItem>),
    /// A form sent as `application/x-www-form-urlencoded`.
    UrlEncoded(Vec<Param>),
    /// The path of a file whose bytes are the body.
    Binary(String),
}

/// The model of a request [`Body`].
pub enum BodyView {
    Raw(RawBodyView),
    FormData(Seq<FormDataItemView>),
    UrlEncoded(Seq<Pair>),
    Binary(Seq<char>),
}

impl View for Body {
    type V = BodyView;

    open spec fn view(&self) -> BodyView {
        match self {
            Body::Raw(raw) => BodyView::Raw(raw@),
            Body::FormData(items) => BodyView::FormData(items.deep_view()),
            Body::UrlEncoded(fields) => BodyView::UrlEncoded(fields.deep_view()),
            Body::Binary(path) => BodyView::Binary(path@),
        }
    }
}

impl DeepView for Body {
    type V = BodyView;

    open spec fn deep_view(&self) -> BodyView {
        self@
    }
}

/// The description of one outbound HTTP call.
#[derive(Debug)]
pub struct HttpRequest {
    pub method: Method,
    pub url: String,
    pub headers: Headers,
    pub params: Vec<Param>,
    pub body: Option<Body>,
    /// The deadline of the call in seconds, if it has one.
    pub timeout: Option<u64>,
}

/// The model of an [`HttpRequest`].
pub struct HttpRequestView {
    pub method: Method,
    pub url: Seq<char>,
    pub headers: Seq<Pair>,
    pub params: Seq<Pair>,
    pub body: Option<BodyView>,
    pub timeout: Option<u64>,
}

impl View for HttpRequest {
    type V = HttpRequestView;

    open spec fn view(&self) -> HttpRequestView {
        HttpRequestView {
            method: self.method,
            url: self.url@,
            headers: self.headers@,
            params: self.params.deep_view(),
            body: self.body.deep_view(),
            timeout: self.timeout,
        }
    }
}

impl HttpRequest {
    /// A request with the given method and URL and nothing else: no header,
    /// no query parameter, no body, no deadline.
    pub fn new(method: Method, url: String) -> (request: HttpRequest)
        ensures
            request@ == (HttpRequestView {
                method: method,
                url: url@,
                headers: Seq::empty(),
                params: Seq::empty(),
                body: None,
                timeout: None,
            }),
    {
        let request = HttpRequest {
            method,
            url,
            headers: Headers::new(),
            params: Vec::new(),
            body: None,
            timeout: None,
        };
        assert(request.params.deep_view() =~= Seq::<Pair>::empty());
        request
    }

    /// The request with `value` stored under the header name `key`. A name
    /// that the request already holds takes the new value.
    pub fn with_header(self, key: &str, value: &str) -> (request: HttpRequest)
        ensures
            request@ == (HttpRequestView { headers: put(self@.headers, key@, value@), ..self@ }),
    {
        let mut request = self;
        request.headers.insert(String::from_str(key), String::from_str(value));
        request
    }

    /// The request with one more query parameter at the end. A key that
    /// occurs already is kept as it is: both parameters are sent.
    pub fn with_param(self, key: &str, value: &str) -> (request: HttpRequest)
        ensures
            request@ == (HttpRequestView { params: self@.params.push((key@, value@)), ..self@ }),
    {
        let mut request = self;
        request.params.push(Param { key: String::from_str(key), value: String::from_str(value) });
        assert(request.params.deep_view() =~= self.params.deep_view().push((key@, value@)));
        request
    }

    /// The request with `body` as its body, in place of any it had.
    pub fn with_body(self, body: Body) -> (request: HttpRequest)
        ensures
            request@ == (HttpRequestView { body: Some(body@), ..self@ }),
    {
        let mut request = self;
        request.body = Some(body);
        request
    }

    /// The request with a deadline of `timeout` seconds.
    pub fn with_timeout(self, timeout: u64) -> (request: HttpRequest)
        ensures
            request@ == (HttpRequestView { timeout: Some(timeout), ..self@ }),
    {
        let mut request = self;
        request.timeout = Some(timeout);
        request
    }
}

} // verus!
