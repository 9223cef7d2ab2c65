//! The body codec: from a request body to a transport payload, and from the
//! bytes of a response to a typed body.

use vstd::prelude::*;
use vstd::slice::slice_to_vec;
use vstd::string::StringExecFns;
use vstd::utf8::{encode_utf8, is_ascii_chars, is_ascii_chars_encode_utf8, valid_utf8};
use crate::json::{default_value, json_read, json_read_or_null, json_text, value_from_slice};
use crate::models::request::{
    Body, BodyView, FormDataItem, FormDataItemView, FormDataValue, FormDataValueView, Param,
    RawBodyType, RawBodyView,
};
use crate::models::response;
use crate::text::{
    contains, contains_lowered, decode_text, decode_text_or_empty, lemma_lower_case_holds_itself,
    lowered, same_text, starts_with, starts_with_lowered, text_or_empty,
};
use crate::transport::{
    FileContent, FileContentView, Part, PartValue, PartValueView, PartView, Payload, PayloadView,
};

verus! {

/// The text of the media type that the `mime` crate reads from `text`, or
/// `None` where it reads none.
pub uninterp spec fn mime_text(text: Seq<char>) -> Option<Seq<char>>;

/// Parses `text` with `mime::Mime::from_str` and hands back the text of the
/// media type that was read (`Mime::as_ref`). The parser is a function of
/// its input alone, so its result is named by [`mime_text`].
#[verifier::external_body]
fn parse_mime(text: &str) -> (parsed: Option<String>)
    ensures
        parsed.deep_view() == mime_text(text@),
{
    match text.parse::<mime::Mime>() {
        Ok(parsed) => Some(parsed.as_ref().to_string()),
        Err(_) => None,
    }
}

/// The first of `files` that was read from `path`, if any.
pub open spec fn file_of(files: Seq<FileContentView>, path: Seq<char>) -> Option<FileContentView>
    decreases files.len(),
{
    if files.len() == 0 {
        None
    } else if files[0].path == path {
        Some(files[0])
    } else {
        file_of(files.drop_first(), path)
    }
}

/// The file name under which a file is attached: the last component of its
/// path, or `"file"` where the path has none.
pub open spec fn attachment_name(file: FileContentView) -> Seq<char> {
    match file.name {
        Some(name) => name,
        None => "file"@,
    }
}

/// The media type that a file part declares: the one read from the field's
/// content type, where it has one and a media type can be read from it.
pub open spec fn declared_mime(content_type: Option<Seq<char>>) -> Option<Seq<char>> {
    match content_type {
        Some(text) => mime_text(text),
        None => None,
    }
}

/// The part that attaches a file under a field name: the bytes of the file,
/// the name under which it is attached, and the media type it declares, if
/// any.
pub open spec fn file_part_of(
    key: Seq<char>,
    file: FileContentView,
    mime: Option<Seq<char>>,
) -> PartView {
    PartView {
        name: key,
        value: PartValueView::File {
            content: file.bytes,
            file_name: attachment_name(file),
            mime: mime,
        },
    }
}

/// The part that a form field becomes. A file field whose file could not be
/// read becomes no part.
pub open spec fn part_of(item: FormDataItemView, files: Seq<FileContentView>) -> Option<PartView> {
    match item.value {
        FormDataValueView::Text(text) => Some(
            PartView { name: item.key, value: PartValueView::Text(text) },
        ),
        FormDataValueView::File { path, content_type } => match file_of(files, path) {
            Some(file) => Some(file_part_of(item.key, file, declared_mime(content_type))),
            None => None,
        },
    }
}

/// The parts that the fields of a form become, in the order of the fields.
pub open spec fn parts_of(items: Seq<FormDataItemView>, files: Seq<FileContentView>) -> Seq<
    PartView,
>
    decreases items.len(),
{
    if items.len() == 0 {
        Seq::empty()
    } else {
        let before = parts_of(items.drop_last(), files);
        match part_of(items.last(), files) {
            Some(part) => before.push(part),
            None => before,
        }
    }
}

/// The payload that a body becomes, or `None` where it becomes none: a
/// binary body whose file could not be read.
pub open spec fn payload_of(body: BodyView, files: Seq<FileContentView>) -> Option<PayloadView> {
    match body {
        BodyView::Raw(raw) => Some(
            PayloadView::Text { content_type: raw.content_type.mime(), content: raw.content },
        ),
        BodyView::FormData(items) => Some(PayloadView::Multipart(parts_of(items, files))),
        BodyView::UrlEncoded(fields) => Some(PayloadView::Form(fields)),
        BodyView::Binary(path) => match file_of(files, path) {
            Some(file) => Some(PayloadView::Bytes(file.bytes)),
            None => None,
        },
    }
}

/// The paths of the files that the fields of a form name, in the order of
/// the fields.
pub open spec fn form_paths(items: Seq<FormDataItemView>) -> Seq<Seq<char>>
    decreases items.len(),
{
    if items.len() == 0 {
        Seq::empty()
    } else {
        let before = form_paths(items.drop_last());
        match items.last().value {
            FormDataValueView::File { path, content_type } => before.push(path),
            FormDataValueView::Text(_) => before,
        }
    }
}

/// The paths of the files that a body needs: those of the file fields of a
/// multipart form, the one of a binary body, and none for any other.
pub open spec fn paths_of(body: Option<BodyView>) -> Seq<Seq<char>> {
    match body {
        Some(BodyView::FormData(items)) => form_paths(items),
        Some(BodyView::Binary(path)) => seq![path],
        _ => Seq::empty(),
    }
}

/// Lists the paths of the files that a body needs, in the order in which
/// the body names them. These are the files to read before the body is
/// encoded.
pub fn file_paths(body: &Option<Body>) -> (paths: Vec<String>)
    ensures
        paths.deep_view() == paths_of(body.deep_view()),
{
    let mut paths: Vec<String> = Vec::new();
    match body {
        Some(Body::FormData(items)) => {
            let mut at: usize = 0;
            while at < items.len()
                invariant
                    at <= items@.len(),
                    paths.deep_view() =~= form_paths(items.deep_view().take(at as int)),
                decreases items@.len() - at,
            {
                assert(items.deep_view().take(at + 1).drop_last() =~= items.deep_view().take(at as int));
                match &items[at].value {
                    FormDataValue::File { path, content_type } => {
                        paths.push(path.clone());
                    },
                    FormDataValue::Text(_) => {},
                }
                at += 1;
            }
            assert(items.deep_view().take(at as int) =~= items.deep_view());
        },
        Some(Body::Binary(path)) => {
            paths.push(path.clone());
        },
        _ => {
        },
    }
    paths
}

/// Finds the first of `files` that was read from `path`.
pub fn find_file<'a>(files: &'a Vec<FileContent>, path: &str) -> (found: Option<&'a FileContent>)
    ensures
        found.deep_view() == file_of(files.deep_view(), path@),
{
    let ghost all = files.deep_view();
    let mut at: usize = 0;
    assert(all.skip(0) =~= all);
    while at < files.len()
        invariant
            at <= files@.len(),
            all == files.deep_view(),
            file_of(all, path@) == file_of(all.skip(at as int), path@),
        decreases files@.len() - at,
    {
        let ghost rest = all.skip(at as int);
        if same_text(files[at].path.as_str(), path) {
            return Some(&files[at]);
        }
        assert(rest.drop_first() =~= all.skip(at + 1));
        at += 1;
    }
    None
}

/// Copies pairs of a key and a value into plain pairs, in order.
pub fn pairs_of(fields: &Vec<Param>) -> (pairs: Vec<(String, String)>)
    ensures
        pairs.deep_view() == fields.deep_view(),
{
    let mut pairs: Vec<(String, String)> = Vec::new();
    let mut at: usize = 0;
    while at < fields.len()
        invariant
            at <= fields@.len(),
            pairs@.len() == at,
            forall|k: int|
                0 <= k < at ==> (#[trigger] pairs@[k]).0@ == fields@[k].key@ && pairs@[k].1@
                    == fields@[k].value@,
        decreases fields@.len() - at,
    {
        let key = fields[at].key.clone();
        let value = fields[at].value.clone();
        pairs.push((key, value));
        at += 1;
    }
    pairs
}

/// Builds the part that attaches `file` under the field name `key`, with
/// `mime` as the media type it declares. The file goes under the last
/// component of its path, or under `"file"` where the path has none.
pub fn file_part(key: &str, file: &FileContent, mime: Option<String>) -> (part: Part)
    ensures
        part@ == file_part_of(key@, file@, mime.deep_view()),
{
    let file_name = match &file.name {
        Some(name) => name.clone(),
        None => String::from_str("file"),
    };
    Part {
        name: String::from_str(key),
        value: PartValue::File { content: slice_to_vec(file.bytes.as_slice()), file_name, mime },
    }
}

/// Builds the part for one form field, or none for a file field whose file
/// is not among `files`.
pub fn encode_part(item: &FormDataItem, files: &Vec<FileContent>) -> (part: Option<Part>)
    ensures
        part.deep_view() == part_of(item@, files.deep_view()),
{
    match &item.value {
        FormDataValue::Text(text) => Some(
            Part { name: item.key.clone(), value: PartValue::Text(text.clone()) },
        ),
        FormDataValue::File { path, content_type } => match find_file(files, path.as_str()) {
            Some(file) => {
                let mime = match content_type {
                    Some(text) => parse_mime(text.as_str()),
                    None => None,
                };
                Some(file_part(item.key.as_str(), file, mime))
            },
            None => None,
        },
    }
}

/// Builds the parts of a multipart form. File fields whose files are not
/// among `files` are left out; the other fields keep their order.
pub fn encode_form(items: &Vec<FormDataItem>, files: &Vec<FileContent>) -> (parts: Vec<Part>)
    ensures
        parts.deep_view() == parts_of(items.deep_view(), files.deep_view()),
{
    let mut parts: Vec<Part> = Vec::new();
    let mut at: usize = 0;
    while at < items.len()
        invariant
            at <= items@.len(),
            parts.deep_view() =~= parts_of(items.deep_view().take(at as int), files.deep_view()),
        decreases items@.len() - at,
    {
        assert(items.deep_view().take(at + 1).drop_last() =~= items.deep_view().take(at as int));
        match encode_part(&items[at], files) {
            Some(part) => {
                parts.push(part);
            },
            None => {},
        }
        at += 1;
    }
    assert(items.deep_view().take(at as int) =~= items.deep_view());
    parts
}

/// Encodes a request body as a transport payload.
///
/// Literal text goes out as it is, with the media type of its kind. A
/// multipart form becomes its parts, without the file fields whose files are
/// not among `files`. A URL-encoded form hands its fields on in order. A
/// binary body becomes the bytes of its file, and nothing at all where the
/// file is not among `files`.
pub fn encode_body(body: &Body, files: &Vec<FileContent>) -> (payload: Option<Payload>)
    ensures
        payload.deep_view() == payload_of(body@, files.deep_view()),
{
    match body {
        Body::Raw(raw) => Some(
            Payload::Text {
                content_type: String::from_str(raw.content_type.as_mime()),
                content: raw.content.clone(),
            },
        ),
        Body::FormData(items) => Some(Payload::Multipart(encode_form(items, files))),
        Body::UrlEncoded(fields) => Some(Payload::Form(pairs_of(fields))),
        Body::Binary(path) => match find_file(files, path.as_str()) {
            Some(file) => Some(Payload::Bytes(slice_to_vec(file.bytes.as_slice()))),
            None => None,
        },
    }
}

/// What a response declares its body to be.
#[derive(Debug, Clone, Copy, PartialEq, Eq, Structural)]
pub enum BodyKind {
    Json,
    Html,
    Xml,
    Text,
    Binary,
}

/// The kind that a declared content type stands for. The letters of the
/// declaration count without regard to ASCII case, and the first of these
/// decides: it holds `application/json`; it holds `text/html`; it holds
/// `application/xml` or `text/xml`; it begins with `text/`. A declaration
/// that meets none of them is binary.
pub open spec fn kind_of_declared(declared: Seq<char>) -> BodyKind {
    let folded = lowered(encode_utf8(declared));
    if contains(folded, encode_utf8("application/json"@)) {
        BodyKind::Json
    } else if contains(folded, encode_utf8("text/html"@)) {
        BodyKind::Html
    } else if contains(folded, encode_utf8("application/xml"@)) || contains(
        folded,
        encode_utf8("text/xml"@),
    ) {
        BodyKind::Xml
    } else if starts_with(folded, encode_utf8("text/"@)) {
        BodyKind::Text
    } else {
        BodyKind::Binary
    }
}

/// The kind of body of a response with the given content type. A response
/// that declares none is binary.
pub open spec fn kind_of(content_type: Option<Seq<char>>) -> BodyKind {
    match content_type {
        Some(declared) => kind_of_declared(declared),
        None => BodyKind::Binary,
    }
}

/// The body that the bytes of a response become under a kind. JSON that
/// cannot be read becomes the null value, and text that is not valid UTF-8
/// becomes the empty text.
pub open spec fn body_as(kind: BodyKind, bytes: Seq<u8>) -> response::BodyView {
    match kind {
        BodyKind::Json => response::BodyView::Json(json_read_or_null(bytes)),
        BodyKind::Html => response::BodyView::Html(text_or_empty(bytes)),
        BodyKind::Xml => response::BodyView::Xml(text_or_empty(bytes)),
        BodyKind::Text => response::BodyView::Text(text_or_empty(bytes)),
        BodyKind::Binary => response::BodyView::Binary(bytes),
    }
}

/// The body of a response with the given content type and bytes.
pub open spec fn body_of(content_type: Option<Seq<char>>, bytes: Seq<u8>) -> response::BodyView {
    body_as(kind_of(content_type), bytes)
}

/// The bytes cannot be read as a body of the kind: they hold no JSON value,
/// or they are not the UTF-8 text that an HTML, XML or text body is. Any
/// bytes are a binary body.
pub open spec fn decode_fails(kind: BodyKind, bytes: Seq<u8>) -> bool {
    match kind {
        BodyKind::Json => json_read(bytes) is None,
        BodyKind::Html => !valid_utf8(bytes),
        BodyKind::Xml => !valid_utf8(bytes),
        BodyKind::Text => !valid_utf8(bytes),
        BodyKind::Binary => false,
    }
}

/// Tells from its declared content type what a response holds. Only the
/// declaration counts: the bytes of the body are not looked at.
pub fn classify(content_type: Option<&str>) -> (kind: BodyKind)
    ensures
        kind == kind_of(content_type.deep_view()),
{
    match content_type {
        None => BodyKind::Binary,
        Some(declared) => {
            let bytes = declared.as_bytes();
            if contains_lowered(bytes, "application/json".as_bytes()) {
                BodyKind::Json
            } else if contains_lowered(bytes, "text/html".as_bytes()) {
                BodyKind::Html
            } else if contains_lowered(bytes, "application/xml".as_bytes()) || contains_lowered(
                bytes,
                "text/xml".as_bytes(),
            ) {
                BodyKind::Xml
            } else if starts_with_lowered(bytes, "text/".as_bytes()) {
                BodyKind::Text
            } else {
                BodyKind::Binary
            }
        },
    }
}

/// The JSON body for what was read from the bytes of a response: the value
/// that was read, or the null value where none could be read.
pub fn json_body(parsed: Option<serde_json::Value>) -> (body: response::Body)
    ensures
        body@ == response::BodyView::Json(
            match parsed {
                Some(value) => json_text(value),
                None => "null"@,
            },
        ),
{
    match parsed {
        Some(value) => response::Body::Json(value),
        None => response::Body::Json(default_value()),
    }
}

/// Decodes the bytes of a response as a body of the given kind.
pub fn decode_as(kind: BodyKind, bytes: &[u8]) -> (body: response::Body)
    ensures
        body@ == body_as(kind, bytes@),
{
    match kind {
        BodyKind::Json => json_body(value_from_slice(bytes)),
        BodyKind::Html => response::Body::Html(decode_text_or_empty(bytes)),
        BodyKind::Xml => response::Body::Xml(decode_text_or_empty(bytes)),
        BodyKind::Text => response::Body::Text(decode_text_or_empty(bytes)),
        BodyKind::Binary => response::Body::Binary(slice_to_vec(bytes)),
    }
}

/// Tells whether the bytes cannot be read as a body of the kind, in which
/// case decoding them gives the null value or the empty text in their place.
pub fn is_degraded(kind: BodyKind, bytes: &[u8]) -> (degraded: bool)
    ensures
        degraded == decode_fails(kind, bytes@),
{
    match kind {
        BodyKind::Json => value_from_slice(bytes).is_none(),
        BodyKind::Html => decode_text(bytes).is_none(),
        BodyKind::Xml => decode_text(bytes).is_none(),
        BodyKind::Text => decode_text(bytes).is_none(),
        BodyKind::Binary => false,
    }
}

/// Decodes the bytes of a response by its declared content type.
pub fn decode_body(content_type: Option<&str>, bytes: &[u8]) -> (body: response::Body)
    ensures
        body@ == body_of(content_type.deep_view(), bytes@),
{
    decode_as(classify(content_type), bytes)
}

/// A response that declares no content type is binary: its body is its
/// bytes as they came.
pub proof fn lemma_undeclared_is_binary(bytes: Seq<u8>)
    ensures
        kind_of(None) == BodyKind::Binary,
        body_of(None, bytes) == response::BodyView::Binary(bytes),
{
}

/// A response that declares `application/json` is read as JSON.
pub proof fn lemma_json_is_declared()
    ensures
        kind_of(Some("application/json"@)) == BodyKind::Json,
{
    reveal_strlit("application/json");
    let chars = "application/json"@;
    let bytes = encode_utf8(chars);
    is_ascii_chars_encode_utf8(chars);
    assert(forall|i: int| 0 <= i < bytes.len() ==> !(0x41 <= #[trigger] bytes[i] <= 0x5a));
    lemma_lower_case_holds_itself(bytes);
}

/// JSON text that is sent as a raw body and comes back as it went, declared
/// as `application/json`, is decoded to the JSON value that the text holds.
///
/// The raw body becomes a text payload with the content type
/// `application/json`, whose bytes on the wire are the UTF-8 encoding of the
/// content; a response with these bytes and that content type has a JSON
/// body, and its value is the one read from the content.
pub proof fn lemma_json_round_trip(content: Seq<char>, files: Seq<FileContentView>)
    ensures
        payload_of(
            BodyView::Raw(RawBodyView { content: content, content_type: RawBodyType::Json }),
            files,
        ) matches Some(PayloadView::Text { content_type, content: sent }) && sent == content
            && body_of(Some(content_type), encode_utf8(sent)) == response::BodyView::Json(
            json_read_or_null(encode_utf8(content)),
        ),
{
    lemma_json_is_declared();
}

} // verus!
