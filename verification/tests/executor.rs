use pigeon::error::Error;
use pigeon::infrastructure::reqwest::ReqwestClient;
use pigeon::models::request::{
    Body, FormDataItem, FormDataValue, HttpRequest, Method, Param, RawBody, RawBodyType,
};
use pigeon::models::response::Body as ResponseBody;
use pigeon::transport::{FileContent, PartValue, Payload, RawResponse};

fn answer(code: u16, text: &str, headers: &[(&str, &str)], body: &[u8]) -> RawResponse {
    RawResponse {
        status_code: code,
        status_text: text.to_string(),
        headers: headers
            .iter()
            .map(|(name, value)| (name.to_string(), value.as_bytes().to_vec()))
            .collect(),
        body: body.to_vec(),
    }
}

fn pairs(items: &[(&str, &str)]) -> Vec<(String, String)> {
    items.iter().map(|(key, value)| (key.to_string(), value.to_string())).collect()
}

#[test]
fn test_get_request() {
    let client = ReqwestClient::new();
    let request = HttpRequest::new(Method::GET, "http://localhost:8080/test".to_string());
    let plan = client.prepare(&request, &Vec::new());
    assert_eq!(plan.method, "GET");
    assert_eq!(plan.url, "http://localhost:8080/test");
    assert!(matches!(plan.payload, Payload::Empty));

    let raw = answer(200, "200 OK", &[("content-type", "text/plain")], b"Hello, world!");
    let response = client.conclude(Ok(raw), 10, 25).unwrap();

    assert_eq!(response.status.code, 200);
    assert_eq!(response.get_body_as_text().unwrap(), "Hello, world!");
}

#[test]
fn test_post_request_with_json() {
    let client = ReqwestClient::new();
    let body = Body::Raw(RawBody {
        content: r#"{"key": "value"}"#.to_string(),
        content_type: RawBodyType::Json,
    });
    let request =
        HttpRequest::new(Method::POST, "http://localhost:8080/test".to_string()).with_body(body);
    let plan = client.prepare(&request, &Vec::new());
    assert_eq!(plan.method, "POST");
    match &plan.payload {
        Payload::Text { content_type, content } => {
            assert_eq!(content_type, "application/json");
            assert_eq!(content, r#"{"key": "value"}"#);
        }
        other => panic!("Expected a text payload, got {:?}", other),
    }

    let raw = answer(
        201,
        "201 Created",
        &[("content-type", "application/json")],
        br#"{"message":"Created"}"#,
    );
    let response = client.conclude(Ok(raw), 0, 1).unwrap();

    assert_eq!(response.status.code, 201);
    assert_eq!(response.get_body_as_text().unwrap().as_str(), r#"{"message":"Created"}"#);
}

#[test]
fn test_request_with_custom_headers() {
    let client = ReqwestClient::new();
    let request = HttpRequest::new(Method::GET, "http://localhost:8080/test".to_string())
        .with_header("X-Custom-Header", "test-value");
    let plan = client.prepare(&request, &Vec::new());
    assert_eq!(plan.headers, pairs(&[("X-Custom-Header", "test-value")]));

    let response = client.conclude(Ok(answer(200, "200 OK", &[], b"")), 0, 0).unwrap();
    assert_eq!(response.status.code, 200);
}

#[test]
fn test_request_with_query_params() {
    let client = ReqwestClient::new();
    let request = HttpRequest::new(Method::GET, "http://localhost:8080/test".to_string())
        .with_param("key", "value");
    let plan = client.prepare(&request, &Vec::new());
    assert_eq!(plan.query, pairs(&[("key", "value")]));

    let response = client.conclude(Ok(answer(200, "200 OK", &[], b"")), 0, 0).unwrap();
    assert_eq!(response.status.code, 200);
}

#[test]
fn test_json_response() {
    let client = ReqwestClient::new();
    let raw = answer(
        200,
        "200 OK",
        &[("content-type", "application/json")],
        br#"{"key":"value"}"#,
    );
    let response = client.conclude(Ok(raw), 0, 0).unwrap();

    assert_eq!(response.status.code, 200);
    assert!(matches!(response.body, ResponseBody::Json(_)));
    if let ResponseBody::Json(json_value) = response.body {
        let expected: serde_json::Value = serde_json::from_str(r#"{"key": "value"}"#).unwrap();
        assert_eq!(json_value, expected);
    } else {
        panic!("Expected JSON response body");
    }
}

#[test]
fn test_xml_response() {
    let xml_content = r#"<?xml version="1.0" encoding="UTF-8"?>
<root>
    <element>
        <name>Test</name>
        <value>123</value>
    </element>
</root>"#;
    let client = ReqwestClient::new();
    let raw =
        answer(200, "200 OK", &[("content-type", "application/xml")], xml_content.as_bytes());
    let response = client.conclude(Ok(raw), 0, 0).unwrap();

    assert_eq!(response.status.code, 200);
    assert!(matches!(response.body, ResponseBody::Xml(_)));
    if let ResponseBody::Xml(xml_content_response) = response.body {
        assert_eq!(xml_content_response.trim(), xml_content.trim());
    } else {
        panic!("Expected XML response body");
    }
}

#[test]
fn test_html_response() {
    let client = ReqwestClient::new();
    let raw = answer(
        200,
        "200 OK",
        &[("content-type", "text/html")],
        b"<html><body>Hello</body></html>",
    );
    let response = client.conclude(Ok(raw), 0, 0).unwrap();

    assert_eq!(response.status.code, 200);
    assert!(matches!(response.body, ResponseBody::Html(_)));
    if let ResponseBody::Html(html_content) = response.body {
        assert_eq!(html_content, "<html><body>Hello</body></html>");
    }
}

#[test]
fn test_plain_text_response() {
    let client = ReqwestClient::new();
    let raw = answer(200, "200 OK", &[("content-type", "text/plain")], b"Hello, world!");
    let response = client.conclude(Ok(raw), 0, 0).unwrap();

    assert_eq!(response.status.code, 200);
    assert!(matches!(response.body, ResponseBody::Text(_)));
    if let ResponseBody::Text(text_content) = response.body {
        assert_eq!(text_content, "Hello, world!");
    } else {
        panic!("Expected Text response body");
    }
}

#[test]
fn every_method_has_its_own_token() {
    let all = [
        (Method::GET, "GET"),
        (Method::POST, "POST"),
        (Method::PUT, "PUT"),
        (Method::DELETE, "DELETE"),
        (Method::PATCH, "PATCH"),
        (Method::HEAD, "HEAD"),
        (Method::OPTIONS, "OPTIONS"),
    ];
    for (method, token) in all.iter() {
        assert_eq!(ReqwestClient::to_reqwest_method(method), *token);
        let parsed = reqwest::Method::from_bytes(token.as_bytes()).unwrap();
        assert_eq!(parsed.as_str(), *token);
    }
    let token = |method: Method| ReqwestClient::to_reqwest_method(&method).as_bytes();
    let transport = |method: Method| reqwest::Method::from_bytes(token(method)).unwrap();
    assert_eq!(transport(Method::GET), reqwest::Method::GET);
    assert_eq!(transport(Method::POST), reqwest::Method::POST);
    assert_eq!(transport(Method::PUT), reqwest::Method::PUT);
    assert_eq!(transport(Method::DELETE), reqwest::Method::DELETE);
    assert_eq!(transport(Method::PATCH), reqwest::Method::PATCH);
    assert_eq!(transport(Method::HEAD), reqwest::Method::HEAD);
    assert_eq!(transport(Method::OPTIONS), reqwest::Method::OPTIONS);
}

#[test]
fn duplicate_query_keys_are_kept_in_order() {
    let client = ReqwestClient::new();
    let request = HttpRequest::new(Method::GET, "http://h/".to_string())
        .with_param("a", "1")
        .with_param("a", "2")
        .with_param("b", "3");
    let plan = client.prepare(&request, &Vec::new());
    assert_eq!(plan.query, pairs(&[("a", "1"), ("a", "2"), ("b", "3")]));
}

#[test]
fn add_query_params_appends_to_what_is_there() {
    let client = ReqwestClient::new();
    let request = HttpRequest::new(Method::GET, "http://h/".to_string()).with_param("x", "0");
    let plan = client.prepare(&request, &Vec::new());
    let more = vec![
        Param { key: "x".to_string(), value: "1".to_string() },
        Param { key: "y".to_string(), value: "".to_string() },
    ];
    let plan = client.add_query_params(plan, &more);
    assert_eq!(plan.query, pairs(&[("x", "0"), ("x", "1"), ("y", "")]));
    assert_eq!(plan.url, "http://h/");
}

#[test]
fn headers_that_the_transport_refuses_are_left_out() {
    let client = ReqwestClient::new();
    let request = HttpRequest::new(Method::GET, "http://h/".to_string())
        .with_header("Accept", "*/*")
        .with_header("bad name", "v")
        .with_header("X-Line", "a\nb")
        .with_header("", "empty")
        .with_header("X-Tab", "a\tb")
        .with_header("X-Empty", "")
        .with_header("X-Latin", "caf\u{e9}");
    let plan = client.prepare(&request, &Vec::new());
    assert_eq!(
        plan.headers,
        pairs(&[("Accept", "*/*"), ("X-Tab", "a\tb"), ("X-Empty", ""), ("X-Latin", "caf\u{e9}")])
    );
    let losses = client.request_degradations(&request, &Vec::new());
    assert_eq!(
        losses,
        vec![
            Error::InvalidHeaderValue { name: "bad name".to_string() },
            Error::InvalidHeaderValue { name: "X-Line".to_string() },
            Error::InvalidHeaderValue { name: "".to_string() },
        ]
    );
    assert!(losses.iter().all(|loss| !loss.is_fatal()));
}

#[test]
fn header_names_are_held_to_the_table_of_the_transport() {
    let client = ReqwestClient::new();
    for byte in 0u8..128 {
        let name = (byte as char).to_string();
        let request = HttpRequest::new(Method::GET, "http://h/".to_string()).with_header(&name, "v");
        let kept = client.build_headers(&request.headers).len() == 1;
        let letter_or_digit = byte.is_ascii_alphanumeric();
        let mark = b"!\"#$%&'*+-.^_`|~".contains(&byte);
        assert_eq!(kept, letter_or_digit || mark, "byte {}", byte);
        let real = reqwest::header::HeaderName::from_bytes(&[byte]).is_ok();
        assert_eq!(kept, real, "byte {}", byte);
    }
    let request = HttpRequest::new(Method::GET, "http://h/".to_string()).with_header("\u{e9}", "v");
    assert!(client.build_headers(&request.headers).is_empty());
}

#[test]
fn header_names_have_a_greatest_length() {
    let client = ReqwestClient::new();
    let longest = "a".repeat(65535);
    let too_long = "a".repeat(65536);
    let request = HttpRequest::new(Method::GET, "http://h/".to_string())
        .with_header(&longest, "1")
        .with_header(&too_long, "2")
        .with_header(&"B".repeat(65), "3");
    let built = client.build_headers(&request.headers);
    assert_eq!(built.len(), 2);
    assert_eq!(built[0].0.len(), 65535);
    assert_eq!(built[1], ("B".repeat(65), "3".to_string()));
}

#[test]
fn header_values_are_held_to_the_rule_of_the_transport() {
    let client = ReqwestClient::new();
    for byte in 0u8..128 {
        let value = (byte as char).to_string();
        let request = HttpRequest::new(Method::GET, "http://h/".to_string()).with_header("n", &value);
        let kept = client.build_headers(&request.headers).len() == 1;
        assert_eq!(kept, (byte >= 32 && byte != 127) || byte == 9, "byte {}", byte);
    }
}

#[test]
fn raw_body_kinds_have_their_media_types() {
    let client = ReqwestClient::new();
    let kinds = [
        (RawBodyType::Text, "text/plain"),
        (RawBodyType::Json, "application/json"),
        (RawBodyType::Xml, "application/xml"),
        (RawBodyType::Html, "text/html"),
        (RawBodyType::Javascript, "application/javascript"),
    ];
    for (kind, mime) in kinds.iter() {
        let body = Body::Raw(RawBody { content: "x = 1".to_string(), content_type: *kind });
        let request = HttpRequest::new(Method::POST, "http://h/".to_string()).with_body(body);
        match client.prepare(&request, &Vec::new()).payload {
            Payload::Text { content_type, content } => {
                assert_eq!(content_type, *mime);
                assert_eq!(content, "x = 1");
            }
            other => panic!("Expected a text payload, got {:?}", other),
        }
    }
}

#[test]
fn a_form_with_a_missing_file_is_still_prepared() {
    let client = ReqwestClient::new();
    let body = Body::FormData(vec![
        FormDataItem { key: "note".to_string(), value: FormDataValue::Text("hi".to_string()) },
        FormDataItem {
            key: "upload".to_string(),
            value: FormDataValue::File {
                path: "/no/such/file.bin".to_string(),
                content_type: Some("application/octet-stream".to_string()),
            },
        },
        FormDataItem { key: "tail".to_string(), value: FormDataValue::Text("end".to_string()) },
    ]);
    let request = HttpRequest::new(Method::POST, "http://h/".to_string()).with_body(body);
    let plan = client.prepare(&request, &Vec::new());
    match &plan.payload {
        Payload::Multipart(parts) => {
            assert_eq!(parts.len(), 2);
            assert_eq!(parts[0].name, "note");
            assert!(matches!(&parts[0].value, PartValue::Text(text) if text == "hi"));
            assert_eq!(parts[1].name, "tail");
            assert!(matches!(&parts[1].value, PartValue::Text(text) if text == "end"));
        }
        other => panic!("Expected a multipart payload, got {:?}", other),
    }
    assert_eq!(
        client.request_degradations(&request, &Vec::new()),
        vec![Error::ResourceUnavailable { path: "/no/such/file.bin".to_string() }]
    );
}

#[test]
fn a_form_attaches_the_files_that_were_read() {
    let client = ReqwestClient::new();
    let body = Body::FormData(vec![
        FormDataItem {
            key: "first".to_string(),
            value: FormDataValue::File {
                path: "data/report.csv".to_string(),
                content_type: Some("TEXT/CSV".to_string()),
            },
        },
        FormDataItem {
            key: "second".to_string(),
            value: FormDataValue::File { path: "nameless".to_string(), content_type: None },
        },
        FormDataItem {
            key: "third".to_string(),
            value: FormDataValue::File {
                path: "data/report.csv".to_string(),
                content_type: Some("not a media type".to_string()),
            },
        },
    ]);
    let request = HttpRequest::new(Method::POST, "http://h/".to_string()).with_body(body);
    let files = vec![
        FileContent {
            path: "data/report.csv".to_string(),
            name: Some("report.csv".to_string()),
            bytes: b"a,b\n1,2\n".to_vec(),
        },
        FileContent { path: "nameless".to_string(), name: None, bytes: vec![0, 159, 255] },
        FileContent {
            path: "data/report.csv".to_string(),
            name: Some("shadowed".to_string()),
            bytes: b"later".to_vec(),
        },
    ];
    let plan = client.prepare(&request, &files);
    let parts = match plan.payload {
        Payload::Multipart(parts) => parts,
        other => panic!("Expected a multipart payload, got {:?}", other),
    };
    assert_eq!(parts.len(), 3);
    match &parts[0].value {
        PartValue::File { content, file_name, mime } => {
            assert_eq!(content, b"a,b\n1,2\n");
            assert_eq!(file_name, "report.csv");
            assert_eq!(mime.as_deref(), Some("text/csv"));
        }
        other => panic!("Expected a file part, got {:?}", other),
    }
    match &parts[1].value {
        PartValue::File { content, file_name, mime } => {
            assert_eq!(content, &vec![0u8, 159, 255]);
            assert_eq!(file_name, "file");
            assert_eq!(*mime, None);
        }
        other => panic!("Expected a file part, got {:?}", other),
    }
    match &parts[2].value {
        PartValue::File { content, file_name, mime } => {
            assert_eq!(content, b"a,b\n1,2\n");
            assert_eq!(file_name, "report.csv");
            assert_eq!(*mime, None);
        }
        other => panic!("Expected a file part, got {:?}", other),
    }
    assert!(client.request_degradations(&request, &files).is_empty());
}

#[test]
fn a_url_encoded_body_hands_its_fields_on_in_order() {
    let client = ReqwestClient::new();
    let body = Body::UrlEncoded(vec![
        Param { key: "q".to_string(), value: "a b".to_string() },
        Param { key: "q".to_string(), value: "c&d".to_string() },
    ]);
    let request = HttpRequest::new(Method::POST, "http://h/".to_string()).with_body(body);
    match client.prepare(&request, &Vec::new()).payload {
        Payload::Form(fields) => assert_eq!(fields, pairs(&[("q", "a b"), ("q", "c&d")])),
        other => panic!("Expected a form payload, got {:?}", other),
    }
}

#[test]
fn a_binary_body_is_the_bytes_of_its_file() {
    let client = ReqwestClient::new();
    let request = HttpRequest::new(Method::PUT, "http://h/".to_string())
        .with_body(Body::Binary("blob.bin".to_string()));
    let files = vec![FileContent::new("blob.bin".to_string(), vec![1, 2, 3])];
    match client.prepare(&request, &files).payload {
        Payload::Bytes(bytes) => assert_eq!(bytes, vec![1, 2, 3]),
        other => panic!("Expected a bytes payload, got {:?}", other),
    }
}

#[test]
fn a_binary_body_whose_file_is_missing_goes_out_without_payload() {
    let client = ReqwestClient::new();
    let request = HttpRequest::new(Method::PUT, "http://h/".to_string())
        .with_body(Body::Binary("blob.bin".to_string()));
    let plan = client.prepare(&request, &Vec::new());
    assert!(matches!(plan.payload, Payload::Empty));
    assert_eq!(
        client.request_degradations(&request, &Vec::new()),
        vec![Error::ResourceUnavailable { path: "blob.bin".to_string() }]
    );
}

#[test]
fn add_body_keeps_the_payload_where_the_body_gives_none() {
    let client = ReqwestClient::new();
    let request = HttpRequest::new(Method::PUT, "http://h/".to_string())
        .with_body(Body::Binary("kept.bin".to_string()));
    let files = vec![FileContent::new("kept.bin".to_string(), vec![7])];
    let plan = client.prepare(&request, &files);
    let plan = client.add_body(plan, &Some(Body::Binary("gone.bin".to_string())), &files);
    assert!(matches!(&plan.payload, Payload::Bytes(bytes) if bytes == &vec![7u8]));
    let plan = client.add_body(plan, &None, &files);
    assert!(matches!(&plan.payload, Payload::Bytes(bytes) if bytes == &vec![7u8]));
}

#[test]
fn the_deadline_is_handed_on() {
    let client = ReqwestClient::new();
    let request = HttpRequest::new(Method::GET, "http://h/".to_string());
    assert_eq!(client.prepare(&request, &Vec::new()).timeout, None);
    let request = request.with_timeout(30);
    assert_eq!(client.prepare(&request, &Vec::new()).timeout, Some(30));
}

#[test]
fn a_response_without_content_type_is_binary() {
    let client = ReqwestClient::new();
    let raw = answer(200, "200 OK", &[("x-other", "text/plain")], b"{\"a\":1}");
    let response = client.conclude(Ok(raw), 0, 0).unwrap();
    assert_eq!(response.body, ResponseBody::Binary(b"{\"a\":1}".to_vec()));
    assert_eq!(response.get_body_as_text(), None);
    assert_eq!(response.size.body, 7);
}

#[test]
fn the_timing_is_the_difference_of_end_and_start() {
    let client = ReqwestClient::new();
    let response = client.conclude(Ok(answer(204, "204 No Content", &[], b"")), 1_000, 4_500).unwrap();
    assert_eq!(response.timing.start(), 1_000);
    assert_eq!(response.timing.end(), 4_500);
    assert_eq!(response.timing.duration(), 3_500);
    let response = client.handle_response(answer(204, "204 No Content", &[], b""), 7, 7);
    assert_eq!(response.timing.duration(), 0);
    let response =
        client.handle_response(answer(204, "204 No Content", &[], b""), 0, u64::MAX);
    assert_eq!(response.timing.duration(), u64::MAX);
}

#[test]
fn sizes_count_characters_of_text_and_bytes_of_the_rest() {
    let client = ReqwestClient::new();
    let text = "gr\u{fc}\u{df}e \u{1f600}";
    let raw = answer(200, "200 OK", &[("content-type", "text/plain")], text.as_bytes());
    let response = client.handle_response(raw, 0, 0);
    assert_eq!(response.size.body, 7);
    assert_eq!(response.size.headers, "content-type".len() + "text/plain".len());

    let raw = answer(200, "200 OK", &[("content-type", "text/html")], text.as_bytes());
    assert_eq!(client.handle_response(raw, 0, 0).size.body, 7);
    let raw = answer(200, "200 OK", &[("content-type", "text/xml")], text.as_bytes());
    assert_eq!(client.handle_response(raw, 0, 0).size.body, 7);

    let raw = answer(200, "200 OK", &[("content-type", "image/png")], text.as_bytes());
    assert_eq!(client.handle_response(raw, 0, 0).size.body, text.len());
    assert_eq!(text.len(), 12);

    let raw = answer(
        200,
        "200 OK",
        &[("content-type", "application/json")],
        "{ \"k\" : \"\u{e9}\" }".as_bytes(),
    );
    let response = client.handle_response(raw, 0, 0);
    assert_eq!(response.get_body_as_text().unwrap(), "{\"k\":\"\u{e9}\"}");
    assert_eq!(response.size.body, 10);
}

#[test]
fn header_sizes_add_up_over_all_headers() {
    let client = ReqwestClient::new();
    let raw = answer(200, "200 OK", &[("a", "12"), ("bcd", ""), ("a", "3456")], b"");
    let response = client.handle_response(raw, 0, 0);
    assert_eq!(response.headers.len(), 2);
    assert_eq!(response.headers.get("a").map(|value| value.as_str()), Some("3456"));
    assert_eq!(response.size.headers, 1 + 4 + 3);
}

#[test]
fn a_header_value_that_is_not_visible_ascii_reads_as_empty() {
    let client = ReqwestClient::new();
    let raw = RawResponse {
        status_code: 200,
        status_text: "200 OK".to_string(),
        headers: vec![
            ("x-bytes".to_string(), vec![0xff, 0x41]),
            ("x-del".to_string(), vec![0x41, 0x7f]),
            ("x-tab".to_string(), b"a\tb ~".to_vec()),
            ("content-type".to_string(), b"Text/HTML; charset=utf-8".to_vec()),
        ],
        body: b"<p>".to_vec(),
    };
    let response = client.handle_response(raw, 0, 0);
    assert_eq!(response.headers.get("x-bytes").map(|value| value.as_str()), Some(""));
    assert_eq!(response.headers.get("x-del").map(|value| value.as_str()), Some(""));
    assert_eq!(response.headers.get("x-tab").map(|value| value.as_str()), Some("a\tb ~"));
    assert_eq!(response.body, ResponseBody::Html("<p>".to_string()));
    assert_eq!(ReqwestClient::header_value_text(b"plain"), "plain");
    assert_eq!(ReqwestClient::header_value_text(&[0x80]), "");
}

#[test]
fn a_transport_failure_ends_the_call_with_an_error() {
    let client = ReqwestClient::new();
    let result = client.conclude(Err("connection refused".to_string()), 0, 5);
    let error = result.unwrap_err();
    assert_eq!(error, Error::Transport { cause: "connection refused".to_string() });
    assert!(error.is_fatal());
}

#[test]
fn a_body_that_cannot_be_read_degrades() {
    let client = ReqwestClient::new();
    let raw = answer(200, "200 OK", &[("content-type", "application/json")], b"{not json");
    assert_eq!(client.response_degradation(&raw), Some(Error::DecodeDegraded));
    let response = client.handle_response(raw, 0, 0);
    assert_eq!(response.body, ResponseBody::Json(serde_json::Value::Null));
    assert_eq!(response.size.body, 4);

    let raw = answer(200, "200 OK", &[("content-type", "text/plain")], &[0x66, 0xff, 0x6f]);
    assert_eq!(client.response_degradation(&raw), Some(Error::DecodeDegraded));
    let response = client.handle_response(raw, 0, 0);
    assert_eq!(response.body, ResponseBody::Text(String::new()));
    assert_eq!(response.size.body, 0);

    let raw = answer(200, "200 OK", &[("content-type", "text/plain")], b"fine");
    assert_eq!(client.response_degradation(&raw), None);
    let raw = answer(200, "200 OK", &[], &[0xff]);
    assert_eq!(client.response_degradation(&raw), None);
    assert!(!Error::DecodeDegraded.is_fatal());
}

#[test]
fn header_values_read_as_the_transport_reads_them() {
    for byte in 0u8..=255 {
        for other in [b'a', b' ', 0x7f, 0x80, byte] {
            let bytes = [byte, other];
            if let Ok(value) = reqwest::header::HeaderValue::from_bytes(&bytes) {
                let expected = value.to_str().map(|text| text.to_string()).unwrap_or_default();
                assert_eq!(ReqwestClient::header_value_text(&bytes), expected, "{:?}", bytes);
            }
        }
    }
    assert_eq!(ReqwestClient::header_value_text(b""), "");
}

fn built_by_the_transport(plan: &pigeon::transport::TransportRequest) -> reqwest::Request {
    let method = reqwest::Method::from_bytes(plan.method.as_bytes()).unwrap();
    let mut headers = reqwest::header::HeaderMap::new();
    for (name, value) in &plan.headers {
        headers.insert(
            reqwest::header::HeaderName::from_bytes(name.as_bytes()).unwrap(),
            reqwest::header::HeaderValue::from_str(value).unwrap(),
        );
    }
    let builder = reqwest::Client::new()
        .request(method, &plan.url)
        .headers(headers)
        .query(&plan.query);
    let builder = match &plan.payload {
        Payload::Text { content_type, content } => builder
            .header(reqwest::header::CONTENT_TYPE, content_type.as_str())
            .body(content.clone()),
        Payload::Form(fields) => builder.form(fields),
        Payload::Bytes(bytes) => builder.body(bytes.clone()),
        _ => builder,
    };
    builder.build().unwrap()
}

#[test]
fn the_transport_writes_duplicate_keys_into_the_query_string() {
    let client = ReqwestClient::new();
    let request = HttpRequest::new(Method::GET, "http://localhost/find".to_string())
        .with_param("a", "1")
        .with_param("a", "2")
        .with_param("b c", "d&e");
    let built = built_by_the_transport(&client.prepare(&request, &Vec::new()));
    assert_eq!(built.method(), reqwest::Method::GET);
    assert_eq!(built.url().query(), Some("a=1&a=2&b+c=d%26e"));
    assert!(built.body().is_none());
}

#[test]
fn the_transport_accepts_every_header_that_was_built() {
    let client = ReqwestClient::new();
    let request = HttpRequest::new(Method::HEAD, "http://localhost/".to_string())
        .with_header("X-One", "1")
        .with_header("bad header", "2")
        .with_header("x-one", "3")
        .with_header("X-Two", "bell\u{7}");
    let built = built_by_the_transport(&client.prepare(&request, &Vec::new()));
    assert_eq!(built.method(), reqwest::Method::HEAD);
    assert_eq!(built.headers().len(), 1);
    assert_eq!(built.headers().get("x-one").unwrap(), "3");
}

#[test]
fn the_transport_sends_text_and_forms_with_their_content_types() {
    let client = ReqwestClient::new();
    let body = Body::Raw(RawBody {
        content: "{\"key\":\"value\"}".to_string(),
        content_type: RawBodyType::Json,
    });
    let request = HttpRequest::new(Method::POST, "http://localhost/".to_string()).with_body(body);
    let built = built_by_the_transport(&client.prepare(&request, &Vec::new()));
    assert_eq!(built.headers().get("content-type").unwrap(), "application/json");
    assert_eq!(built.body().unwrap().as_bytes(), Some("{\"key\":\"value\"}".as_bytes()));

    let body = Body::UrlEncoded(vec![
        Param { key: "q".to_string(), value: "a b".to_string() },
        Param { key: "q".to_string(), value: "c&d".to_string() },
    ]);
    let request = HttpRequest::new(Method::POST, "http://localhost/".to_string()).with_body(body);
    let built = built_by_the_transport(&client.prepare(&request, &Vec::new()));
    assert_eq!(
        built.headers().get("content-type").unwrap(),
        "application/x-www-form-urlencoded"
    );
    assert_eq!(built.body().unwrap().as_bytes(), Some("q=a+b&q=c%26d".as_bytes()));
}

#[test]
fn the_content_type_is_found_in_whatever_case_its_name_is_written() {
    let client = ReqwestClient::new();
    for name in ["content-type", "Content-Type", "CONTENT-TYPE", "cOnTeNt-TyPe"] {
        let raw = answer(200, "200 OK", &[("x-first", "1"), (name, "text/plain")], b"hi");
        let response = client.handle_response(raw, 0, 0);
        assert_eq!(response.body, ResponseBody::Text("hi".to_string()), "{}", name);
        assert_eq!(response.headers.name_at(1), name);
    }
    for name in ["content_type", "content-type ", "content-typ", "x-content-type", ""] {
        let raw = answer(200, "200 OK", &[(name, "text/plain")], b"hi");
        let response = client.handle_response(raw, 0, 0);
        assert_eq!(response.body, ResponseBody::Binary(b"hi".to_vec()), "{:?}", name);
    }
}

#[test]
fn the_first_content_type_header_decides() {
    let client = ReqwestClient::new();
    let raw = answer(
        200,
        "200 OK",
        &[("Content-Type", "text/html"), ("content-type", "application/json")],
        b"{}",
    );
    assert_eq!(client.response_degradation(&raw), None);
    let response = client.handle_response(raw, 0, 0);
    assert_eq!(response.headers.len(), 2);
    assert_eq!(response.body, ResponseBody::Html("{}".to_string()));

    let raw = answer(
        200,
        "200 OK",
        &[("content-type", "text/html"), ("content-type", "application/json")],
        b"{}",
    );
    let response = client.handle_response(raw, 0, 0);
    assert_eq!(response.headers.len(), 1);
    assert_eq!(
        ReqwestClient::declared_content_type(&response.headers).map(|value| value.as_str()),
        Some("application/json")
    );
    assert_eq!(response.body, ResponseBody::Json(serde_json::from_str("{}").unwrap()));
}
