//! What crosses the border to the HTTP transport, as plain values.
//!
//! A [`TransportRequest`] says what is to be sent: each of its fields is
//! handed to the HTTP client as it stands. A [`RawResponse`] holds what came
//! back before anything was decoded. Files are read by the caller and handed
//! over as [`FileContent`] values.

use vstd::prelude::*;
use crate::models::headers::Pair;

verus! {

/// The last component of `path`, or `None` where the path has none that is
/// a name: what the standard library's `Path::file_name` gives on the
/// platform that the program is built for.
pub uninterp spec fn final_component_of(path: Seq<char>) -> Option<Seq<char>>;

/// Takes the last component of `path` with the standard library's
/// `Path::file_name` and hands it back as text. The call reads no disk, no
/// environment and no clock: in a built program its result is a function of
/// the text of the path alone, and [`final_component_of`] names it. The
/// component of a path that is text is text as well, so `OsStr::to_str`
/// only converts.
#[verifier::external_body]
fn final_component(path: &str) -> (name: Option<String>)
    ensures
        name.deep_view() == final_component_of(path@),
{
    match std::path::Path::new(path).file_name() {
        Some(name) => match name.to_str() {
            Some(text) => Some(text.to_string()),
            None => None,
        },
        None => None,
    }
}

/// A file that was read for a request body.
#[derive(Debug, Clone, PartialEq, Eq)]
pub struct FileContent {
    /// The path as the request names it.
    pub path: String,
    /// The last component of the path, if it has one.
    pub name: Option<String>,
    /// What the file holds.
    pub bytes: Vec<u8>,
}

/// The model of a [`FileContent`].
pub struct FileContentView {
    pub path: Seq<char>,
    pub name: Option<Seq<char>>,
    pub bytes: Seq<u8>,
}

impl View for FileContent {
    type V = FileContentView;

    open spec fn view(&self) -> FileContentView {
        FileContentView { path: self.path@, name: self.name.deep_view(), bytes: self.bytes@ }
    }
}

impl DeepView for FileContent {
    type V = FileContentView;

    open spec fn deep_view(&self) -> FileContentView {
        self@
    }
}

impl FileContent {
    /// The file at `path` with the bytes that were read from it. Its name is
    /// the last component of the path.
    pub fn new(path: String, bytes: Vec<u8>) -> (file: FileContent)
        ensures
            file@ == (FileContentView {
                path: path@,
                name: final_component_of(path@),
                bytes: bytes@,
            }),
    {
        let name = final_component(path.as_str());
        FileContent { path, name, bytes }
    }
}

/// The value of one part of a multipart payload.
#[derive(Debug, Clone, PartialEq, Eq)]
pub enum PartValue {
    /// A text field.
    Text(String),
    /// An attached file. Without a media type the transport picks one.
    File { content: Vec<u8>, file_name: String, mime: Option<String> },
}

/// The model of a [`PartValue`].
pub enum PartValueView {
    Text(Seq<char>),
    File { content: Seq<u8>, file_name: Seq<char>, mime: Option<Seq<char>> },
}

impl View for PartValue {
    type V = PartValueView;

    open spec fn view(&self) -> PartValueView {
        match self {
            PartValue::Text(text) => PartValueView::Text(text@),
            PartValue::File { content, file_name, mime } => PartValueView::File {
                content: content@,
                file_name: file_name@,
                mime: mime.deep_view(),
            },
        }
    }
}

impl DeepView for PartValue {
    type V = PartValueView;

    open spec fn deep_view(&self) -> PartValueView {
        self@
    }
}

/// One part of a multipart payload: a field name with its value.
#[derive(Debug, Clone, PartialEq, Eq)]
pub struct Part {
    pub name: String,
    pub value: PartValue,
}

/// The model of a [`Part`].
pub struct PartView {
    pub name: Seq<char>,
    pub value: PartValueView,
}

impl View for Part {
    type V = PartView;

    open spec fn view(&self) -> PartView {
        PartView { name: self.name@, value: self.value@ }
    }
}

impl DeepView for Part {
    type V = PartView;

    open spec fn deep_view(&self) -> PartView {
        self@
    }
}

/// What a request carries as its payload, ready for the transport.
#[derive(Debug, Clone, PartialEq, Eq)]
pub enum Payload {
    /// No payload, and no content type of its own.
    Empty,
    /// Literal text, sent with `content_type` as its `Content-Type`.
    Text { content_type: String, content: String },
    /// The parts of a multipart form, in order.
    Multipart(Vec<Part>),
    /// The fields of a form to send as `application/x-www-form-urlencoded`,
    /// in order.
    Form(Vec<(String, String)>),
    /// Raw bytes.
    Bytes(Vec<u8>),
}

/// The model of a [`Payload`].
pub enum PayloadView {
    Empty,
    Text { content_type: Seq<char>, content: Seq<char> },
    Multipart(Seq<PartView>),
    Form(Seq<Pair>),
    Bytes(Seq<u8>),
}

impl View for Payload {
    type V = PayloadView;

    open spec fn view(&self) -> PayloadView {
        match self {
            Payload::Empty => PayloadView::Empty,
            Payload::Text { content_type, content } => PayloadView::Text {
                content_type: content_type@,
                content: content@,
            },
            Payload::Multipart(parts) => PayloadView::Multipart(parts.deep_view()),
            Payload::Form(fields) => PayloadView::Form(fields.deep_view()),
            Payload::Bytes(bytes) => PayloadView::Bytes(bytes@),
        }
    }
}

impl DeepView for Payload {
    type V = PayloadView;

    open spec fn deep_view(&self) -> PayloadView {
        self@
    }
}

/// One outbound call as the transport is to make it.
#[derive(Debug, Clone, PartialEq, Eq)]
pub struct TransportRequest {
    /// The method token.
    pub method: String,
    pub url: String,
    /// The headers to send, in order. Each has a name and a value that the
    /// transport accepts.
    pub headers: Vec<(String, String)>,
    /// The query parameters to append to the URL, in order.
    pub query: Vec<(String, String)>,
    pub payload: Payload,
    /// The deadline of the call in seconds, if it has one.
    pub timeout: Option<u64>,
}

/// The model of a [`TransportRequest`].
pub struct TransportRequestView {
    pub method: Seq<char>,
    pub url: Seq<char>,
    pub headers: Seq<Pair>,
    pub query: Seq<Pair>,
    pub payload: PayloadView,
    pub timeout: Option<u64>,
}

impl View for TransportRequest {
    type V = TransportRequestView;

    open spec fn view(&self) -> TransportRequestView {
        TransportRequestView {
            method: self.method@,
            url: self.url@,
            headers: self.headers.deep_view(),
            query: self.query.deep_view(),
            payload: self.payload@,
            timeout: self.timeout,
        }
    }
}

impl DeepView for TransportRequest {
    type V = TransportRequestView;

    open spec fn deep_view(&self) -> TransportRequestView {
        self@
    }
}

/// What the transport got back for a call, before anything is decoded.
#[derive(Debug, Clone, PartialEq, Eq)]
pub struct RawResponse {
    pub status_code: u16,
    /// The status as the transport prints it.
    pub status_text: String,
    /// Each header as it came: its name and the bytes of its value. Names
    /// are told apart by their spelling; only the content type is looked
    /// for without regard to the case of the name.
    pub headers: Vec<(String, Vec<u8>)>,
    /// The bytes of the body.
    pub body: Vec<u8>,
}

/// The model of a [`RawResponse`].
pub struct RawResponseView {
    pub status_code: u16,
    pub status_text: Seq<char>,
    pub headers: Seq<(Seq<char>, Seq<u8>)>,
    pub body: Seq<u8>,
}

impl View for RawResponse {
    type V = RawResponseView;

    open spec fn view(&self) -> RawResponseView {
        RawResponseView {
            status_code: self.status_code,
            status_text: self.status_text@,
            headers: self.headers.deep_view(),
            body: self.body@,
        }
    }
}

impl DeepView for RawResponse {
    type V = RawResponseView;

    open spec fn deep_view(&self) -> RawResponseView {
        self@
    }
}

} // verus!
