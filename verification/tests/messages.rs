use context_server::error::HttpTransportError;
use context_server::json::JsonField;
use context_server::rpc::Envelope;
use context_server::transport::HttpTransport;

fn text(s: &str) -> Option<JsonField> {
    Some(JsonField::Text(s.to_string()))
}

fn fault(payload: &str) -> String {
    match HttpTransport::validate_jsonrpc_message(payload) {
        Ok(()) => "ok".to_string(),
        Err(HttpTransportError::JsonRpcValidationFailed(message)) => message,
        Err(HttpTransportError::JsonParseError(_)) => "no json".to_string(),
        Err(other) => panic!("{:?}", other),
    }
}

#[test]
fn valid_messages_pass() {
    assert_eq!(fault(r#"{"jsonrpc":"2.0","method":"ping","id":1}"#), "ok");
    assert_eq!(fault(r#"{"jsonrpc":"2.0","method":"ping","id":"a"}"#), "ok");
    assert_eq!(fault(r#"{"jsonrpc":"2.0","method":"ping","id":1.5,"params":{}}"#), "ok");
    assert_eq!(fault(r#" {"jsonrpc":"2.0","method":"note"} "#), "ok");
}

#[test]
fn first_fault_is_named() {
    let version = "Missing or invalid jsonrpc version";
    assert_eq!(fault("{}"), version);
    assert_eq!(fault("[]"), version);
    assert_eq!(fault("3"), version);
    assert_eq!(fault(r#"{"jsonrpc":"1.0","method":3}"#), version);
    assert_eq!(fault(r#"{"jsonrpc":2.0,"method":"x"}"#), version);
    assert_eq!(fault(r#"{"jsonrpc":"2.0"}"#), "Missing method field");
    assert_eq!(fault(r#"{"jsonrpc":"2.0","id":1,"result":{}}"#), "Missing method field");
    assert_eq!(fault(r#"{"jsonrpc":"2.0","method":null}"#), "Method must be a string");
    assert_eq!(fault(r#"{"jsonrpc":"2.0","method":7,"id":[]}"#), "Method must be a string");
    let id = "ID must be a string or number";
    assert_eq!(fault(r#"{"jsonrpc":"2.0","method":"x","id":null}"#), id);
    assert_eq!(fault(r#"{"jsonrpc":"2.0","method":"x","id":true}"#), id);
    assert_eq!(fault(r#"{"jsonrpc":"2.0","method":"x","id":{}}"#), id);
    assert_eq!(fault(r#"{"jsonrpc":"2.0","method":"x","id":[1]}"#), id);
}

#[test]
fn text_that_is_no_json_is_rejected() {
    assert_eq!(fault(""), "no json");
    assert_eq!(fault("{"), "no json");
    assert_eq!(fault(r#"{"jsonrpc":"2.0","method":"x"} x"#), "no json");
    let expected = serde_json::from_str::<serde_json::Value>("{").unwrap_err();
    match HttpTransport::validate_jsonrpc_message("{") {
        Err(e) => assert_eq!(e.message(), format!("JSON parsing error: {}", expected)),
        Ok(()) => panic!("accepted"),
    }
}

#[test]
fn requests_have_id_and_method() {
    let is_request = |s: &str| HttpTransport::is_request_message(s.as_bytes());
    assert!(is_request(r#"{"jsonrpc":"2.0","method":"x","id":1}"#));
    assert!(is_request(r#"{"method":null,"id":null}"#));
    assert!(!is_request(r#"{"jsonrpc":"2.0","method":"x"}"#));
    assert!(!is_request(r#"{"jsonrpc":"2.0","id":1,"result":{}}"#));
    assert!(!is_request(r#"["id","method"]"#));
    assert!(!is_request("no json"));
    assert!(!HttpTransport::is_request_message(b"{\"method\":\"\xff\",\"id\":1}"));
    assert!(is_request("{\"method\":\"é\",\"id\":1}"));
}

#[test]
fn last_of_two_equal_members_counts() {
    assert_eq!(fault(r#"{"jsonrpc":"1.0","jsonrpc":"2.0","method":"x"}"#), "ok");
}

#[test]
fn envelopes_are_checked_by_their_members() {
    let good = Envelope { jsonrpc: text("2.0"), method: text("x"), id: Some(JsonField::Number) };
    assert!(good.check().is_ok());
    assert!(good.is_request());
    let note = Envelope { jsonrpc: text("2.0"), method: text("x"), id: None };
    assert!(note.check().is_ok());
    assert!(!note.is_request());
    let bad = Envelope { jsonrpc: text("2"), method: None, id: Some(JsonField::Null) };
    assert!(matches!(
        bad.check(),
        Err(HttpTransportError::JsonRpcValidationFailed(m)) if m == "Missing or invalid jsonrpc version"
    ));
    assert!(!bad.is_request());
}

#[test]
fn valid_message_is_a_request_iff_it_has_an_id() {
    for (payload, request) in [
        (r#"{"jsonrpc":"2.0","method":"x","id":1}"#, true),
        (r#"{"jsonrpc":"2.0","method":"x","id":"1"}"#, true),
        (r#"{"jsonrpc":"2.0","method":"x"}"#, false),
    ] {
        assert!(HttpTransport::validate_jsonrpc_message(payload).is_ok());
        assert_eq!(HttpTransport::is_request_message(payload.as_bytes()), request);
    }
}

#[test]
fn each_error_has_its_text() {
    let e = HttpTransportError::HttpRequestFailed {
        status: http::StatusCode::NOT_FOUND,
        body: "gone".to_string(),
    };
    assert_eq!(e.message(), "HTTP request failed with status 404 Not Found: gone");
    let e = HttpTransportError::SseConnectionFailed("x".to_string());
    assert_eq!(e.message(), "Server-Sent Events connection failed: x");
    let e = HttpTransportError::JsonRpcValidationFailed("x".to_string());
    assert_eq!(e.message(), "JSON-RPC validation failed: x");
    let e = HttpTransportError::UnexpectedContentType {
        expected: "a".to_string(),
        actual: "b".to_string(),
    };
    assert_eq!(e.message(), "Unexpected content type: expected a, got b");
    let e = HttpTransportError::ChannelSendFailed;
    assert_eq!(e.message(), "Failed to send message through channel");
    let e = HttpTransportError::from(std::io::Error::new(std::io::ErrorKind::Other, "disk"));
    assert_eq!(e.message(), "I/O error: disk");
    assert_eq!(e.render("other"), "I/O error: other");
    let e = HttpTransportError::HttpClientError("x".to_string());
    assert_eq!(e.message(), "HTTP client error: x");
    let e = HttpTransportError::from(url::Url::parse("nowhere").unwrap_err());
    assert_eq!(e.message(), "URL parsing error: relative URL without a base");
    let e = HttpTransportError::from(serde_json::from_str::<serde_json::Value>("").unwrap_err());
    assert_eq!(e.message(), "JSON parsing error: EOF while parsing a value at line 1 column 0");
}

struct Broken;

impl std::io::Read for Broken {
    fn read(&mut self, _: &mut [u8]) -> std::io::Result<usize> {
        Err(std::io::Error::new(std::io::ErrorKind::Other, "disk"))
    }
}

#[test]
fn io_errors_are_told_apart() {
    let read = serde_json::from_reader::<Broken, serde_json::Value>(Broken).unwrap_err();
    let wrapped = HttpTransportError::from(read);
    assert!(wrapped.is_io());
    assert_eq!(wrapped.message(), "JSON parsing error: disk");
    let direct = HttpTransportError::from(std::io::Error::new(std::io::ErrorKind::Other, "disk"));
    assert!(direct.is_io());
    match HttpTransport::validate_jsonrpc_message("{") {
        Err(e) => assert!(!e.is_io()),
        Ok(()) => panic!("accepted"),
    }
    assert!(!HttpTransportError::ChannelSendFailed.is_io());
}
