use ddns_client::batch::{make_registrar_request, make_registrar_requests, make_registrar_requests_from_json};
use ddns_client::error::RequestError;
use ddns_client::json::{parse_json, json_text, Json};

fn good(name: &str) -> String {
    format!(
        r#"{{"name":"{}","method":"PUT","address":"https://dns.example/{}","headers":{{"X-Token":"abc","Accept":"*/*"}},"body":{{"ip":"1.2.3.4","ttl":60}}}}"#,
        name, name
    )
}

#[test]
fn parses_well_formed_batch() {
    let text = format!("[{},{}]", good("a"), good("b"));
    let requests = make_registrar_requests(&text).unwrap();
    assert_eq!(requests.len(), 2);
    assert_eq!(requests[0].name, "a");
    assert_eq!(requests[1].name, "b");
    assert_eq!(requests[0].method, "PUT");
    assert_eq!(requests[1].address, "https://dns.example/b");
    assert_eq!(
        requests[0].headers,
        vec![("X-Token".to_string(), "abc".to_string()), ("Accept".to_string(), "*/*".to_string())]
    );
    assert_eq!(requests[0].body, r#"{"ip":"1.2.3.4","ttl":60}"#);
}

#[test]
fn empty_array_gives_no_requests() {
    assert!(make_registrar_requests("[]").unwrap().is_empty());
}

#[test]
fn one_malformed_element_rejects_whole_batch_at_any_position() {
    let bad = r#"{"name":"bad","method":"GET","address":"http://x","headers":{"k":1},"body":null}"#;
    for n in 0..4 {
        for pos in 0..=n {
            let mut parts: Vec<String> = (0..n).map(|i| good(&format!("r{}", i))).collect();
            parts.insert(pos, bad.to_string());
            let text = format!("[{}]", parts.join(","));
            assert!(matches!(make_registrar_requests(&text), Err(RequestError::FormatError)));
        }
    }
}

#[test]
fn top_level_must_be_an_array() {
    assert!(matches!(make_registrar_requests(&good("x")), Err(RequestError::FormatError)));
}

#[test]
fn invalid_json_is_a_serde_error() {
    assert!(matches!(make_registrar_requests("[{"), Err(RequestError::SerdeJsonError(_))));
}

#[test]
fn missing_or_mistyped_fields_are_format_errors() {
    let cases = [
        r#"{"method":"GET","address":"http://x","headers":{},"body":1}"#,
        r#"{"name":"n","method":7,"address":"http://x","headers":{},"body":1}"#,
        r#"{"name":"n","method":"GET","headers":{},"body":1}"#,
        r#"{"name":"n","method":"GET","address":"http://x","body":1}"#,
        r#"{"name":"n","method":"GET","address":"http://x","headers":[],"body":1}"#,
        r#""just a string""#,
    ];
    for case in cases.iter() {
        let j = parse_json(case).unwrap();
        assert!(matches!(make_registrar_request(&j), Err(RequestError::FormatError)), "{}", case);
    }
}

#[test]
fn absent_body_is_null_text() {
    let j = parse_json(r#"{"name":"n","method":"GET","address":"http://x","headers":{}}"#).unwrap();
    let request = make_registrar_request(&j).unwrap();
    assert_eq!(request.body, "null");
}

#[test]
fn batch_from_built_json_value() {
    let element = Json::Object(vec![
        ("name".to_string(), Json::Str("n".to_string())),
        ("method".to_string(), Json::Str("DELETE".to_string())),
        ("address".to_string(), Json::Str("http://h/".to_string())),
        ("headers".to_string(), Json::Object(vec![])),
        ("body".to_string(), Json::Array(vec![Json::Bool(true), Json::Null])),
    ]);
    let requests = make_registrar_requests_from_json(&Json::Array(vec![element])).unwrap();
    assert_eq!(requests[0].method, "DELETE");
    assert_eq!(requests[0].body, "[true,null]");
    assert!(matches!(make_registrar_requests_from_json(&Json::Null), Err(RequestError::FormatError)));
}

#[test]
fn json_text_writes_compact_form() {
    let j = parse_json(r#" { "a" : [ 1 , "x\"y" ] } "#).unwrap();
    assert_eq!(json_text(&j), r#"{"a":[1,"x\"y"]}"#);
}
