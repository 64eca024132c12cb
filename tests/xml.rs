use std::collections::HashMap;

use axum::body::Bytes;
use axum_core::extract::FromRequest;
use axum_xml::content_type::is_xml_content_type;
use axum_xml::rejection::XmlRejection;
use axum_xml::reply::Reply;
use axum_xml::xml::{check_content_type, collect_body, xml_response, Xml};
use serde::de::DeserializeOwned;

/// Extraction as the framework runs it, over a body that arrived whole.
fn extract<T: DeserializeOwned>(
    content_type: Option<&str>,
    body: &str,
) -> Result<Xml<T>, XmlRejection> {
    check_content_type(content_type)?;
    let bytes = collect_body::<Vec<u8>>(Ok(body.as_bytes().to_vec()))?;
    Xml::from_decoded(quick_xml::de::from_reader(bytes.as_slice()))
}

/// A handler's reply: its own text on success, the rejection's response otherwise.
fn handle<T>(extracted: Result<Xml<T>, XmlRejection>, handler: impl FnOnce(T) -> String) -> Reply {
    match extracted {
        Ok(Xml(value)) => Reply::text(200, handler(value)),
        Err(rejection) => rejection.into_response(),
    }
}

fn input_handler(input: HashMap<String, String>) -> String {
    input.get("foo").cloned().unwrap_or_default()
}

fn valid_xml_content_type(content_type: &str) -> bool {
    println!("testing {:?}", content_type);
    let extracted = extract::<HashMap<String, String>>(Some(content_type), "<Value />");
    handle(extracted, |_| String::new()).status == 200
}

#[test]
fn deserialize_body() {
    let extracted = extract::<HashMap<String, String>>(
        Some("application/xml"),
        r#"<Input><foo>bar</foo></Input>"#,
    );
    let reply = handle(extracted, input_handler);
    assert_eq!(reply.body, "bar");
    assert_eq!(reply.status, 200);
}

#[test]
fn consume_body_to_xml_requires_xml_content_type() {
    let extracted = extract::<HashMap<String, String>>(None, r#"<Input><foo>bar</foo></Input>"#);
    let reply = handle(extracted, input_handler);
    assert!(!reply.body.is_empty());
    assert_eq!(reply.status, 415);
    assert_eq!(reply.body, "Expected request with `Content-Type: application/xml`");
}

#[test]
fn xml_content_types() {
    assert!(valid_xml_content_type("application/xml"));
    assert!(valid_xml_content_type("application/xml; charset=utf-8"));
    assert!(valid_xml_content_type("application/xml;charset=utf-8"));
    assert!(valid_xml_content_type("application/cloudevents+xml"));
    assert!(valid_xml_content_type("text/xml"));
    assert!(!valid_xml_content_type("application/json"));
}

#[test]
fn malformed_body_is_unprocessable() {
    let extracted =
        extract::<HashMap<String, String>>(Some("application/xml"), "<Input><foo>bar</Input>");
    assert!(matches!(extracted, Err(XmlRejection::InvalidXMLBody(_))));
    let reply = handle(extracted, input_handler);
    assert_eq!(reply.status, 422);
    assert!(reply.body.contains("Failed to parse the request body as XML"));
    assert_eq!(reply.content_type, "text/plain; charset=utf-8");
}

#[test]
fn body_of_wrong_shape_is_unprocessable() {
    let extracted =
        extract::<HashMap<String, u32>>(Some("application/xml"), "<Input><foo>bar</foo></Input>");
    let reply = handle(extracted, |_| String::new());
    assert_eq!(reply.status, 422);
    assert_eq!(reply.body, "Failed to parse the request body as XML");
}

#[test]
fn content_type_checked_before_body() {
    let extracted = extract::<HashMap<String, String>>(Some("text/html"), "<Input><foo>");
    assert!(matches!(extracted, Err(XmlRejection::MissingXMLContentType)));
    let reply = handle(extracted, input_handler);
    assert_eq!(reply.status, 415);
}

#[test]
fn response_round_trip() {
    let mut value: HashMap<String, String> = HashMap::new();
    value.insert("foo".to_string(), "bar".to_string());
    value.insert("baz".to_string(), "qux".to_string());
    let reply = xml_response(quick_xml::se::to_string_with_root("Input", &value));
    assert_eq!(reply.status, 200);
    assert_eq!(reply.content_type, "application/xml");
    let back: HashMap<String, String> = quick_xml::de::from_str(&reply.body).unwrap();
    assert_eq!(back, value);
}

#[test]
fn response_serialization_failure() {
    let reply = xml_response(Err(quick_xml::DeError::Custom("no root".to_string())));
    assert_eq!(reply.status, 500);
    assert_eq!(reply.content_type, "text/plain; charset=utf-8");
    assert!(reply.body.contains("no root"));
}

#[test]
fn matcher_is_pure() {
    for header in ["application/xml", "application/json", "text/xml; q=1", ""] {
        let first = is_xml_content_type(Some(header));
        for _ in 0..3 {
            assert_eq!(is_xml_content_type(Some(header)), first);
        }
    }
    assert!(!is_xml_content_type(None));
    assert!(!is_xml_content_type(None));
}

#[test]
fn matcher_edge_cases() {
    assert!(is_xml_content_type(Some(" application/xml ; charset=utf-8")));
    assert!(is_xml_content_type(Some("\tapplication/xml\t")));
    assert!(is_xml_content_type(Some("image/svg+xml")));
    assert!(is_xml_content_type(Some("text/xml;")));
    assert!(is_xml_content_type(Some("application/atom+xml; type=entry")));
    assert!(!is_xml_content_type(Some("")));
    assert!(!is_xml_content_type(Some(";application/xml")));
    assert!(!is_xml_content_type(Some("application/xmlx")));
    assert!(!is_xml_content_type(Some("application/xml+json")));
    assert!(!is_xml_content_type(Some("xml")));
    assert!(!is_xml_content_type(Some("text/plain; format=+xml")));
    assert!(!is_xml_content_type(Some("application/json; charset=utf-8")));
}

#[test]
fn rejection_statuses_and_texts() {
    let invalid = XmlRejection::from(quick_xml::DeError::Custom("bad".to_string()));
    assert!(matches!(invalid, XmlRejection::InvalidXMLBody(_)));
    assert_eq!(invalid.status(), 422);
    assert_eq!(invalid.body_text(), "Failed to parse the request body as XML");
    let missing = XmlRejection::MissingXMLContentType;
    assert_eq!(missing.status(), 415);
    let reply = missing.into_response();
    assert_eq!(reply.status, 415);
    assert_eq!(reply.content_type, "text/plain; charset=utf-8");
    assert_eq!(reply.body, "Expected request with `Content-Type: application/xml`");
}

#[test]
fn oversized_body_keeps_framework_rejection() {
    let runtime = tokio::runtime::Builder::new_current_thread().build().unwrap();
    let request = http::Request::builder()
        .header("content-type", "application/xml")
        .body(axum::body::Body::from(vec![b'x'; 3_000_000]))
        .unwrap();
    let content_type = request.headers().get("content-type").and_then(|v| v.to_str().ok());
    assert!(check_content_type(content_type).is_ok());
    let collected = runtime.block_on(Bytes::from_request(request, &()));
    let rejection = match collect_body(collected) {
        Err(rejection) => rejection,
        Ok(_) => panic!("a body over the default limit was collected"),
    };
    assert!(matches!(rejection, XmlRejection::BytesRejection(_)));
    assert_eq!(rejection.status(), 413);
    assert!(rejection.body_text().starts_with("Failed to buffer the request body"));
    let reply = rejection.into_response();
    assert_eq!(reply.status, 413);
    assert!(reply.body.starts_with("Failed to buffer the request body"));
}

#[test]
fn collected_body_passes_through() {
    let collected = collect_body::<Vec<u8>>(Ok(vec![1, 2, 3]));
    assert_eq!(collected.unwrap(), vec![1, 2, 3]);
}

#[test]
fn wrapper_gives_back_its_value() {
    assert_eq!(Xml(7u32).into_inner(), 7);
    let decoded = Xml::<u32>::from_decoded(Ok(5)).unwrap();
    assert_eq!(decoded.0, 5);
}
