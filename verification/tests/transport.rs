use context_server::config::HttpTransportConfig;
use context_server::error::HttpTransportError;
use context_server::exchange::{classify, response_content, Content};
use context_server::transport::HttpTransport;
use context_server::wire::header_text;
use http::{HeaderMap, HeaderValue};
use std::time::Duration;
use url::Url;

fn url(text: &str) -> Url {
    Url::parse(text).unwrap()
}

fn transport() -> HttpTransport {
    HttpTransport::new(url("http://localhost:8080/mcp")).unwrap()
}

fn value(request: &http::Request<Vec<u8>>, name: &str) -> Option<String> {
    let all: Vec<_> = request.headers().get_all(name).iter().collect();
    assert!(all.len() <= 1);
    all.first().map(|v| v.to_str().unwrap().to_string())
}

#[test]
fn default_configuration() {
    let config = HttpTransportConfig::default();
    assert_eq!(config.request_timeout, Duration::from_secs(30));
    assert_eq!(config.origin, "zed://local");
    assert_eq!(config.channel_buffer_size, 1000);
    let copy = config.clone();
    assert_eq!(copy.request_timeout, config.request_timeout);
    assert_eq!(copy.origin, config.origin);
    assert_eq!(copy.channel_buffer_size, config.channel_buffer_size);
}

#[test]
fn session_is_what_was_set() {
    let mut t = transport();
    assert_eq!(t.session_id(), None);
    assert_eq!(t.protocol_version(), None);
    t.set_session_id(Some("abc".to_string()));
    t.set_protocol_version(Some("2025-03-26".to_string()));
    assert_eq!(t.session_id(), Some("abc".to_string()));
    assert_eq!(t.protocol_version(), Some("2025-03-26".to_string()));
    t.set_session_id(None);
    assert_eq!(t.session_id(), None);
    assert_eq!(t.protocol_version(), Some("2025-03-26".to_string()));
}

#[test]
fn request_without_a_session() {
    let t = transport();
    let request = t.build_request(&t.get_target_url(), b"hello".to_vec()).unwrap();
    assert_eq!(request.method(), http::Method::POST);
    assert_eq!(request.uri().to_string(), "http://localhost:8080/mcp");
    assert_eq!(request.body(), b"hello");
    assert_eq!(value(&request, "Content-Type").unwrap(), "application/json");
    assert_eq!(value(&request, "Accept").unwrap(), "application/json, text/event-stream");
    assert_eq!(value(&request, "Content-Length").unwrap(), "5");
    assert_eq!(value(&request, "Origin").unwrap(), "zed://local");
    assert_eq!(value(&request, "Mcp-Session-Id"), None);
    assert_eq!(value(&request, "MCP-Protocol-Version"), None);
    assert_eq!(request.headers().len(), 4);
}

#[test]
fn request_with_a_session() {
    let config = HttpTransportConfig {
        request_timeout: Duration::from_millis(5),
        origin: "https://example.com".to_string(),
        channel_buffer_size: 1,
    };
    let mut t = HttpTransport::with_config(url("https://example.com/a?b=c#d"), config).unwrap();
    t.set_session_id(Some("s 1".to_string()));
    t.set_protocol_version(Some("v".to_string()));
    let request = t.build_request(&t.get_target_url(), vec![0; 1234]).unwrap();
    assert_eq!(request.uri().to_string(), "https://example.com/a?b=c");
    assert_eq!(value(&request, "content-length").unwrap(), "1234");
    assert_eq!(value(&request, "origin").unwrap(), "https://example.com");
    assert_eq!(value(&request, "mcp-session-id").unwrap(), "s 1");
    assert_eq!(value(&request, "mcp-protocol-version").unwrap(), "v");
    assert_eq!(request.headers().len(), 6);
}

#[test]
fn request_that_cannot_be_built() {
    let mut t = transport();
    t.set_session_id(Some("a\nb".to_string()));
    match t.build_request(&t.get_target_url(), Vec::new()) {
        Err(HttpTransportError::HttpClientError(m)) => {
            assert_eq!(m, "Failed to build HTTP request: failed to parse header value")
        }
        _ => panic!("built"),
    }
    t.set_session_id(Some("a\u{e9}b".to_string()));
    assert!(t.build_request(&t.get_target_url(), Vec::new()).is_ok());
    let long = url(&format!("http://localhost/{}", "a".repeat(70000)));
    match t.build_request(&long, Vec::new()) {
        Err(HttpTransportError::HttpClientError(m)) => {
            assert_eq!(m, "Failed to build HTTP request: uri too long")
        }
        _ => panic!("built"),
    }
}

#[test]
fn endpoint_redirects_messages() {
    let mut t = transport();
    assert_eq!(t.get_target_url(), url("http://localhost:8080/mcp"));
    t.adopt_endpoint(url("http://localhost:8080/messages?id=7"));
    assert_eq!(t.get_target_url(), url("http://localhost:8080/messages?id=7"));
    assert_eq!(t.base_url(), url("http://localhost:8080/mcp"));
    let request = t.build_request(&t.get_target_url(), Vec::new()).unwrap();
    assert_eq!(request.uri().to_string(), "http://localhost:8080/messages?id=7");
}

#[test]
fn session_of_a_response_is_sent_back() {
    let mut t = transport();
    let mut headers = HeaderMap::new();
    headers.insert("mcp-session-id", HeaderValue::from_static("first"));
    headers.append("mcp-session-id", HeaderValue::from_static("second"));
    headers.insert("Mcp-Protocol-Version", HeaderValue::from_static("2025-06-18"));
    t.update_session_from_response(&headers);
    assert_eq!(t.session_id(), Some("first".to_string()));
    assert_eq!(t.protocol_version(), Some("2025-06-18".to_string()));
    let request = t.build_request(&t.get_target_url(), Vec::new()).unwrap();
    assert_eq!(value(&request, "mcp-session-id").unwrap(), "first");
    assert_eq!(value(&request, "mcp-protocol-version").unwrap(), "2025-06-18");
    t.update_session_from_response(&HeaderMap::new());
    assert_eq!(t.session_id(), Some("first".to_string()));
    assert_eq!(t.protocol_version(), Some("2025-06-18".to_string()));
}

#[test]
fn opaque_header_values_are_passed_over() {
    let mut t = transport();
    t.set_session_id(Some("kept".to_string()));
    let mut headers = HeaderMap::new();
    headers.insert("mcp-session-id", HeaderValue::from_bytes(b"\xe9").unwrap());
    t.update_session_from_response(&headers);
    assert_eq!(t.session_id(), Some("kept".to_string()));
    assert_eq!(header_text(&headers, "Mcp-Session-Id"), None);
    headers.insert("mcp-session-id", HeaderValue::from_static("a\tb c~"));
    assert_eq!(header_text(&headers, "MCP-SESSION-ID"), Some("a\tb c~".to_string()));
    assert_eq!(header_text(&headers, "other"), None);
}

#[test]
fn content_types() {
    assert!(matches!(classify("application/json".to_string()), Content::Json));
    assert!(matches!(classify("application/json; charset=utf-8".to_string()), Content::Json));
    assert!(matches!(classify("text/event-stream".to_string()), Content::Events));
    assert!(matches!(classify("Application/JSON".to_string()), Content::Other(t) if t == "Application/JSON"));
    assert!(matches!(classify(String::new()), Content::Other(t) if t.is_empty()));
    let mut headers = HeaderMap::new();
    assert!(matches!(response_content(&headers), Content::Other(t) if t.is_empty()));
    headers.insert(http::header::CONTENT_TYPE, HeaderValue::from_static("text/event-stream;x"));
    assert!(matches!(response_content(&headers), Content::Events));
}

#[test]
fn bodies_as_text() {
    assert_eq!(HttpTransport::read_response_body("é!".as_bytes().to_vec()), "é!");
    assert_eq!(HttpTransport::read_response_body(vec![0xff]), "[Invalid UTF-8]");
    assert_eq!(HttpTransport::read_response_body(Vec::new()), "");
}
