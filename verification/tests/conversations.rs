use context_server::exchange::{failure_message, Exchange};
use context_server::flow::{Action, Event, Outcome};
use context_server::json::JsonField;
use context_server::sse::{announced_endpoint, endpoint_text, parse_line, SseConnection};
use context_server::transport::HttpTransport;
use http::{HeaderMap, HeaderValue, StatusCode};
use url::Url;

const REQUEST: &str = r#"{"jsonrpc":"2.0","method":"ping","id":1}"#;
const NOTE: &str = r#"{"jsonrpc":"2.0","method":"note"}"#;

fn transport() -> HttpTransport {
    HttpTransport::new(Url::parse("http://localhost/mcp").unwrap()).unwrap()
}

fn show(action: &Action) -> String {
    match action {
        Action::ReadBody => "read body".to_string(),
        Action::ReadLine => "read line".to_string(),
        Action::Deliver(m) => format!("deliver {}", m),
        Action::Report(m) => format!("report {}", m),
        Action::StartFallback => "fall back".to_string(),
        Action::Finish(Outcome::Done) => "done".to_string(),
        Action::Finish(Outcome::Propagated) => "propagated".to_string(),
        Action::Finish(Outcome::Failed(m)) => format!("failed {}", m),
    }
}

fn responded(status: u16, content_type: &str) -> Event {
    let mut headers = HeaderMap::new();
    headers.insert("content-type", HeaderValue::from_str(content_type).unwrap());
    headers.insert("mcp-session-id", HeaderValue::from_static("s"));
    Event::Responded { status: StatusCode::from_u16(status).unwrap(), headers }
}

fn line(s: &str) -> Event {
    Event::Line(s.to_string())
}

fn run(t: &mut HttpTransport, message: &str, events: Vec<Event>) -> Vec<String> {
    let (mut exchange, request) = t.send_http_message(message.to_string()).unwrap();
    assert_eq!(request.body().as_slice(), message.as_bytes());
    let mut shown = Vec::new();
    for event in events {
        let (next, action): (Exchange, Action) = exchange.step(t, event).unwrap();
        shown.push(show(&action));
        exchange = next;
    }
    shown
}

fn run_sse(t: &mut HttpTransport, events: Vec<Event>) -> Vec<String> {
    let (mut connection, request) = t.start_legacy_sse_mode().unwrap();
    assert_eq!(request.method(), http::Method::GET);
    assert_eq!(request.uri().to_string(), "http://localhost/mcp");
    assert_eq!(request.headers().get("accept").unwrap(), "text/event-stream");
    assert_eq!(request.headers().get("cache-control").unwrap(), "no-cache");
    assert_eq!(request.headers().len(), 2);
    assert!(request.body().is_empty());
    let mut shown = Vec::new();
    for event in events {
        let (next, action) = connection.step(t, event).unwrap();
        shown.push(show(&action));
        connection = next;
    }
    shown
}

#[test]
fn json_response_is_delivered() {
    let mut t = transport();
    let shown = run(
        &mut t,
        REQUEST,
        vec![
            responded(200, "application/json"),
            Event::Body(b"{\"result\":1}".to_vec()),
            Event::Delivered(true),
        ],
    );
    assert_eq!(shown, vec!["read body", "deliver {\"result\":1}", "done"]);
    assert_eq!(t.session_id(), Some("s".to_string()));
}

#[test]
fn json_response_without_a_receiver() {
    let shown = run(
        &mut transport(),
        REQUEST,
        vec![responded(200, "application/json"), Event::Body(vec![0xff]), Event::Delivered(false)],
    );
    assert_eq!(
        shown,
        vec!["read body", "deliver [Invalid UTF-8]", "failed Failed to send message to channel"]
    );
}

#[test]
fn event_stream_is_delivered_in_order() {
    let shown = run(
        &mut transport(),
        REQUEST,
        vec![
            responded(200, "text/event-stream"),
            line(": hello\n"),
            line("event: message\n"),
            line("data: one\n"),
            Event::Delivered(true),
            line("\n"),
            line("data: {\"endpoint\":\"http://localhost/x\"}\r\n"),
            Event::Delivered(true),
            line("data:three\n"),
            line(""),
        ],
    );
    assert_eq!(
        shown,
        vec![
            "read line", "read line", "read line", "deliver one", "read line", "read line",
            "deliver {\"endpoint\":\"http://localhost/x\"}", "read line", "read line", "done",
        ]
    );
}

#[test]
fn event_stream_ends_with_a_read_error_or_without_a_receiver() {
    let shown = run(
        &mut transport(),
        REQUEST,
        vec![responded(200, "text/event-stream"), Event::Failed("x".to_string())],
    );
    assert_eq!(shown, vec!["read line", "done"]);
    let shown = run(
        &mut transport(),
        REQUEST,
        vec![responded(200, "text/event-stream"), line("data: x"), Event::Delivered(false)],
    );
    assert_eq!(shown, vec!["read line", "deliver x", "failed Failed to send SSE data to channel"]);
}

#[test]
fn notification_delivers_nothing() {
    for status in [200, 202, 204, 299] {
        let shown = run(&mut transport(), NOTE, vec![responded(status, "application/json")]);
        assert_eq!(shown, vec!["done"]);
    }
}

#[test]
fn unexpected_content_is_reported_once() {
    let message = "Unexpected content type: expected application/json or text/event-stream, got text/html";
    let shown = run(
        &mut transport(),
        REQUEST,
        vec![responded(200, "text/html"), Event::Reported],
    );
    assert_eq!(shown, vec![format!("report {}", message), format!("failed {}", message)]);
}

#[test]
fn failure_is_reported_once() {
    for message in [REQUEST, NOTE] {
        let shown = run(
            &mut transport(),
            message,
            vec![responded(500, "text/plain"), Event::Body(b"oops".to_vec()), Event::Reported],
        );
        let text = "HTTP request failed: 500 Internal Server Error - oops";
        assert_eq!(
            shown,
            vec!["read body".to_string(), format!("report {}", text), format!("failed {}", text)]
        );
    }
    assert_eq!(failure_message("404 Not Found", ""), "HTTP request failed: 404 Not Found - ");
}

#[test]
fn unknown_address_starts_the_fallback() {
    for (status, name) in [(404, "404 Not Found"), (405, "405 Method Not Allowed")] {
        let mut t = transport();
        let shown = run(
            &mut t,
            REQUEST,
            vec![
                responded(status, "text/plain"),
                Event::Body(b"no".to_vec()),
                Event::FallbackStarted,
                Event::Reported,
            ],
        );
        let text = format!("HTTP request failed: {} - no", name);
        assert_eq!(
            shown,
            vec![
                "read body".to_string(),
                "fall back".to_string(),
                format!("report {}", text),
                format!("failed {}", text),
            ]
        );
        assert_eq!(t.session_id(), Some("s".to_string()));
    }
}

#[test]
fn no_fallback_once_an_endpoint_is_known() {
    let mut t = transport();
    t.adopt_endpoint(Url::parse("http://localhost/post").unwrap());
    let shown = run(
        &mut t,
        REQUEST,
        vec![responded(404, "text/plain"), Event::Body(Vec::new())],
    );
    assert_eq!(shown, vec!["read body", "report HTTP request failed: 404 Not Found - "]);
}

#[test]
fn outside_errors_are_propagated() {
    let failed = || Event::Failed("x".to_string());
    assert_eq!(run(&mut transport(), REQUEST, vec![failed()]), vec!["propagated"]);
    let shown = run(&mut transport(), REQUEST, vec![responded(404, "a/b"), failed()]);
    assert_eq!(shown, vec!["read body", "propagated"]);
    let shown = run(&mut transport(), REQUEST, vec![responded(200, "application/json"), failed()]);
    assert_eq!(shown, vec!["read body", "propagated"]);
}

#[test]
fn other_events_are_not_taken() {
    let mut t = transport();
    let (exchange, _) = t.send_http_message(REQUEST.to_string()).unwrap();
    assert!(exchange.step(&mut t, Event::Reported).is_none());
    let (exchange, _) = t.send_http_message(NOTE.to_string()).unwrap();
    let (exchange, _) = exchange.step(&mut t, responded(202, "")).unwrap();
    assert!(exchange.step(&mut t, responded(202, "")).is_none());
    let (connection, _) = t.start_legacy_sse_mode().unwrap();
    assert!(connection.step(&mut t, line("data: x")).is_none());
}

#[test]
fn message_that_cannot_be_sent() {
    let mut t = transport();
    t.set_protocol_version(Some("\u{7f}".to_string()));
    assert!(t.send_http_message(NOTE.to_string()).is_err());
    let long = format!("http://localhost/{}", "a".repeat(70000));
    let unbuilt = HttpTransport::new(Url::parse(&long).unwrap()).unwrap();
    match unbuilt.start_legacy_sse_mode() {
        Err(m) => assert_eq!(m, "Failed to build SSE request: uri too long"),
        Ok(_) => panic!("built"),
    }
}

#[test]
fn legacy_stream_announces_an_endpoint() {
    let mut t = transport();
    let shown = run_sse(
        &mut t,
        vec![
            responded(200, "text/event-stream"),
            line("event: endpoint\n"),
            line("data: {\"endpoint\": \"http://localhost/post?x=1\"}\n"),
            line("data: {\"endpoint\": \"not a url\"}\n"),
            Event::Delivered(true),
            line("data: {\"endpoint\": 7}\n"),
            Event::Delivered(true),
            line("data: plain text\n"),
            Event::Delivered(true),
            line(": comment\n"),
            line(""),
        ],
    );
    assert_eq!(
        shown,
        vec![
            "read line", "read line", "read line", "deliver {\"endpoint\": \"not a url\"}",
            "read line", "deliver {\"endpoint\": 7}", "read line", "deliver plain text",
            "read line", "read line", "done",
        ]
    );
    assert_eq!(t.get_target_url().as_str(), "http://localhost/post?x=1");
    assert!(!t.is_standard());
    let (_, request) = t.send_http_message(REQUEST.to_string()).unwrap();
    assert_eq!(request.uri().to_string(), "http://localhost/post?x=1");
    assert_eq!(t.session_id(), None);
}

#[test]
fn last_announcement_counts() {
    let mut t = transport();
    run_sse(
        &mut t,
        vec![
            responded(200, "text/event-stream"),
            line("data: {\"endpoint\": \"http://localhost/a\"}\n"),
            line("data: {\"endpoint\": \"http://localhost/b\"}\n"),
            Event::Failed("reset".to_string()),
        ],
    );
    assert_eq!(t.get_target_url().as_str(), "http://localhost/b");
}

#[test]
fn legacy_failure_is_reported_once() {
    let shown = run_sse(&mut transport(), vec![Event::Failed("refused".to_string())]);
    assert_eq!(shown, vec!["failed SSE connection failed: refused"]);
    let shown = run_sse(&mut transport(), vec![responded(503, ""), Event::Reported]);
    let text = "SSE connection failed with status: 503 Service Unavailable";
    assert_eq!(shown, vec![format!("report {}", text), format!("failed {}", text)]);
    let shown = run_sse(
        &mut transport(),
        vec![responded(200, ""), line("data: x\n"), Event::Delivered(false)],
    );
    assert_eq!(shown, vec!["read line", "deliver x", "done"]);
}

#[test]
fn lines_and_their_data() {
    let data = |s: &str| parse_line(s);
    assert_eq!(data("data: x\n"), Some("x".to_string()));
    assert_eq!(data("  data:  two words \r\n"), Some(" two words".to_string()));
    assert_eq!(data("data: \n"), None);
    assert_eq!(data("data:x\n"), None);
    assert_eq!(data("\n"), None);
    assert_eq!(data(": data: x\n"), None);
    assert_eq!(data("id: 1\n"), None);
    assert_eq!(data("\u{a0}data: é\u{3000}"), Some("é".to_string()));
}

#[test]
fn endpoints_in_events() {
    assert_eq!(
        announced_endpoint("{\"endpoint\":\"HTTP://Example.com\"}").map(|u| u.to_string()),
        Some("http://example.com/".to_string())
    );
    assert_eq!(announced_endpoint("{\"endpoint\":\"/relative\"}"), None);
    assert_eq!(announced_endpoint("{\"other\":\"http://a.b\"}"), None);
    assert_eq!(announced_endpoint("\"http://a.b\""), None);
    assert_eq!(announced_endpoint("nonsense"), None);
    assert_eq!(endpoint_text(Some(JsonField::Text("x".to_string()))), Some("x".to_string()));
    assert_eq!(endpoint_text(Some(JsonField::Number)), None);
    assert_eq!(endpoint_text(None), None);
}

#[test]
fn data_is_delivered_or_redirects() {
    let mut t = transport();
    let (_, action) = SseConnection::take_data(&mut t, "d".to_string(), None);
    assert_eq!(show(&action), "deliver d");
    assert_eq!(t.get_target_url().as_str(), "http://localhost/mcp");
    let endpoint = Url::parse("http://localhost/e").unwrap();
    let (_, action) = SseConnection::take_data(&mut t, "d".to_string(), Some(endpoint));
    assert_eq!(show(&action), "read line");
    assert_eq!(t.get_target_url().as_str(), "http://localhost/e");
}

#[test]
fn conversations_share_the_transport() {
    let mut t = transport();
    let (exchange, _) = t.send_http_message(REQUEST.to_string()).unwrap();
    let (exchange, action) = exchange.step(&mut t, responded(404, "text/plain")).unwrap();
    assert_eq!(show(&action), "read body");
    assert_eq!(t.get_target_url().as_str(), "http://localhost/mcp");
    let (connection, _) = t.start_legacy_sse_mode().unwrap();
    let (connection, _) = connection.step(&mut t, responded(200, "text/event-stream")).unwrap();
    let announcement = line("data: {\"endpoint\": \"http://localhost/post\"}\n");
    let (_, action) = connection.step(&mut t, announcement).unwrap();
    assert_eq!(show(&action), "read line");
    let (exchange, action) = exchange.step(&mut t, Event::Body(Vec::new())).unwrap();
    assert_eq!(show(&action), "report HTTP request failed: 404 Not Found - ");
    exchange.step(&mut t, Event::Reported).unwrap();
    assert_eq!(t.get_target_url().as_str(), "http://localhost/post");
    assert_eq!(t.session_id(), Some("s".to_string()));
    assert_eq!(t.base_url().as_str(), "http://localhost/mcp");
}

fn named(session: &'static str) -> Event {
    let mut headers = HeaderMap::new();
    headers.insert("mcp-session-id", HeaderValue::from_static(session));
    Event::Responded { status: StatusCode::ACCEPTED, headers }
}

#[test]
fn session_is_the_one_named_last() {
    let mut t = transport();
    run(&mut t, NOTE, vec![named("a")]);
    run(&mut t, NOTE, vec![named("a")]);
    assert_eq!(t.session_id(), Some("a".to_string()));
    let silent = Event::Responded { status: StatusCode::ACCEPTED, headers: HeaderMap::new() };
    run(&mut t, NOTE, vec![silent]);
    run_sse(&mut t, vec![named("other")]);
    assert_eq!(t.session_id(), Some("a".to_string()));
    run(&mut t, NOTE, vec![named("b")]);
    assert_eq!(t.session_id(), Some("b".to_string()));
    assert_eq!(t.protocol_version(), None);
}

#[test]
fn fallback_of_a_sent_message_opens() {
    let t = transport();
    assert!(t.send_http_message(REQUEST.to_string()).is_ok());
    assert!(t.start_legacy_sse_mode().is_ok());
}

#[test]
fn mode_follows_the_announcements() {
    let mut t = transport();
    run_sse(
        &mut t,
        vec![
            responded(200, "text/event-stream"),
            line("data: {\"endpoint\": \"nowhere\"}\n"),
            Event::Delivered(true),
            line(""),
        ],
    );
    assert!(t.is_standard());
    // The announced endpoint is the base address, and yet the mode is legacy.
    run_sse(
        &mut t,
        vec![
            responded(200, "text/event-stream"),
            line("data: {\"endpoint\": \"http://localhost/mcp\"}\n"),
        ],
    );
    assert_eq!(t.get_target_url(), t.base_url());
    assert!(!t.is_standard());
    let shown =
        run(&mut t, REQUEST, vec![responded(404, ""), Event::Body(Vec::new()), Event::Reported]);
    let text = "HTTP request failed: 404 Not Found - ";
    assert_eq!(
        shown,
        vec!["read body".to_string(), format!("report {}", text), format!("failed {}", text)]
    );
}
