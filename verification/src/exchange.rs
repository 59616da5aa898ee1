//! Sending a message and handling its response.

use http::header::HeaderMap;
use http::{Request, StatusCode};
use vstd::prelude::*;
use vstd::utf8::*;

use crate::error::HttpTransportError;
use crate::flow;
use crate::flow::{Action, ActionView, Event, EventView, Outcome, OutcomeView};
use crate::rpc;
use crate::sse;
use crate::sse::SseConnection;
use crate::text;
use crate::transport;
use crate::transport::{HttpTransport, TransportState};
use crate::urls;
use crate::wire;
use crate::wire::Fields;

verus! {

/// The type of a response's content.
pub enum Content {
    /// A JSON document.
    Json,
    /// A stream of events.
    Events,
    /// Anything else, as the header names it.
    Other(String),
}

/// The model of a `Content`.
pub enum ContentView {
    Json,
    Events,
    Other(Seq<char>),
}

impl View for Content {
    type V = ContentView;

    open spec fn view(&self) -> ContentView {
        match self {
            Content::Json => ContentView::Json,
            Content::Events => ContentView::Events,
            Content::Other(t) => ContentView::Other(t@),
        }
    }
}

/// What a content type stands for.
pub open spec fn content_of(content_type: Seq<char>) -> ContentView {
    if "application/json"@.is_prefix_of(content_type) {
        ContentView::Json
    } else if "text/event-stream"@.is_prefix_of(content_type) {
        ContentView::Events
    } else {
        ContentView::Other(content_type)
    }
}

/// The content type that header fields name; an empty text, if they name none
/// that can be read.
pub open spec fn content_type(fields: Fields) -> Seq<char> {
    match wire::field_text(fields, "content-type"@) {
        Some(t) => t,
        None => Seq::empty(),
    }
}

/// A response body as text.
pub open spec fn body_text(bytes: Seq<u8>) -> Seq<char> {
    if valid_utf8(bytes) {
        decode_utf8(bytes)
    } else {
        "[Invalid UTF-8]"@
    }
}

/// What is reported of a response that is no success.
pub open spec fn failure(status_line: Seq<char>, body: Seq<char>) -> Seq<char> {
    "HTTP request failed: "@ + status_line + " - "@ + body
}

/// What is reported of content of an unexpected type.
pub open spec fn unexpected(content_type: Seq<char>) -> Seq<char> {
    "Unexpected content type: expected application/json or text/event-stream, got "@ + content_type
}

/// A status with which a server says that it does not know the standard
/// protocol: 404 or 405.
pub open spec fn calls_for_fallback(status: u16) -> bool {
    status == 404 || status == 405
}

/// How far an exchange has come.
enum Phase {
    Sent,
    ReadingFailure { status: StatusCode },
    StartingFallback { message: String },
    Reporting { message: String },
    ReadingJson,
    DeliveringJson,
    ReadingEvents,
    DeliveringEvent,
    Finished,
}

/// The model of how far an exchange has come.
pub enum PhaseView {
    /// The request was sent.
    Sent,
    /// The body of a response with this status is being read.
    ReadingFailure(u16),
    /// A legacy connection is being started; the failure is reported next.
    StartingFallback(Seq<char>),
    /// The failure is being reported.
    Reporting(Seq<char>),
    /// The body of a JSON response is being read.
    ReadingJson,
    /// The body is being handed to the channel.
    DeliveringJson,
    /// The next line of an event stream is being read.
    ReadingEvents,
    /// An event is being handed to the channel.
    DeliveringEvent,
    /// The exchange is over.
    Finished,
}

/// The sending of one message.
pub struct Exchange {
    is_request: bool,
    phase: Phase,
}

/// The model of an `Exchange`.
pub struct ExchangeState {
    pub is_request: bool,
    pub phase: PhaseView,
}

impl View for Exchange {
    type V = ExchangeState;

    closed spec fn view(&self) -> ExchangeState {
        ExchangeState {
            is_request: self.is_request,
            phase: match self.phase {
                Phase::Sent => PhaseView::Sent,
                Phase::ReadingFailure { status } => PhaseView::ReadingFailure(
                    wire::status_number(status),
                ),
                Phase::StartingFallback { message } => PhaseView::StartingFallback(message@),
                Phase::Reporting { message } => PhaseView::Reporting(message@),
                Phase::ReadingJson => PhaseView::ReadingJson,
                Phase::DeliveringJson => PhaseView::DeliveringJson,
                Phase::ReadingEvents => PhaseView::ReadingEvents,
                Phase::DeliveringEvent => PhaseView::DeliveringEvent,
                Phase::Finished => PhaseView::Finished,
            },
        }
    }
}

impl ExchangeState {
    /// The exchange in another phase.
    pub open spec fn at(self, phase: PhaseView) -> ExchangeState {
        ExchangeState { phase, ..self }
    }

    /// The phase and the action that follow a response.
    pub open spec fn on_response(self, status: u16, content: ContentView) -> (PhaseView, ActionView) {
        if !flow::success(status) {
            (PhaseView::ReadingFailure(status), ActionView::ReadBody)
        } else if !self.is_request {
            (PhaseView::Finished, ActionView::Finish(OutcomeView::Done))
        } else {
            match content {
                ContentView::Json => (PhaseView::ReadingJson, ActionView::ReadBody),
                ContentView::Events => (PhaseView::ReadingEvents, ActionView::ReadLine),
                ContentView::Other(t) => (
                    PhaseView::Reporting(unexpected(t)),
                    ActionView::Report(unexpected(t)),
                ),
            }
        }
    }

    /// What happens on an event: the state afterwards, what the transport has
    /// learned and what to do next. Nothing happens on an event that the
    /// exchange does not wait for.
    pub open spec fn next(self, transport: TransportState, event: EventView) -> Option<
        (ExchangeState, TransportState, ActionView),
    > {
        match (self.phase, event) {
            (PhaseView::Sent, EventView::Failed(_)) => Some(
                (
                    self.at(PhaseView::Finished),
                    transport,
                    ActionView::Finish(OutcomeView::Propagated),
                ),
            ),
            (PhaseView::Sent, EventView::Responded { status, fields }) => {
                let (phase, action) = self.on_response(status, content_of(content_type(fields)));
                Some((self.at(phase), transport.after_response(fields), action))
            },
            (PhaseView::ReadingFailure(_), EventView::Failed(_)) => Some(
                (
                    self.at(PhaseView::Finished),
                    transport,
                    ActionView::Finish(OutcomeView::Propagated),
                ),
            ),
            (PhaseView::ReadingFailure(status), EventView::Body(bytes)) => {
                let message = failure(wire::status_line(status), body_text(bytes));
                if calls_for_fallback(status) && transport.mode is Standard {
                    Some(
                        (
                            self.at(PhaseView::StartingFallback(message)),
                            transport,
                            ActionView::StartFallback,
                        ),
                    )
                } else {
                    Some(
                        (
                            self.at(PhaseView::Reporting(message)),
                            transport,
                            ActionView::Report(message),
                        ),
                    )
                }
            },
            (PhaseView::StartingFallback(message), EventView::FallbackStarted) => Some(
                (self.at(PhaseView::Reporting(message)), transport, ActionView::Report(message)),
            ),
            (PhaseView::Reporting(message), EventView::Reported) => Some(
                (
                    self.at(PhaseView::Finished),
                    transport,
                    ActionView::Finish(OutcomeView::Failed(message)),
                ),
            ),
            (PhaseView::ReadingJson, EventView::Failed(_)) => Some(
                (
                    self.at(PhaseView::Finished),
                    transport,
                    ActionView::Finish(OutcomeView::Propagated),
                ),
            ),
            (PhaseView::ReadingJson, EventView::Body(bytes)) => Some(
                (
                    self.at(PhaseView::DeliveringJson),
                    transport,
                    ActionView::Deliver(body_text(bytes)),
                ),
            ),
            (PhaseView::DeliveringJson, EventView::Delivered(received)) => Some(
                (
                    self.at(PhaseView::Finished),
                    transport,
                    ActionView::Finish(
                        if received {
                            OutcomeView::Done
                        } else {
                            OutcomeView::Failed("Failed to send message to channel"@)
                        },
                    ),
                ),
            ),
            (PhaseView::ReadingEvents, EventView::Failed(_)) => Some(
                (self.at(PhaseView::Finished), transport, ActionView::Finish(OutcomeView::Done)),
            ),
            (PhaseView::ReadingEvents, EventView::Line(line)) => if line.len() == 0 {
                Some(
                    (self.at(PhaseView::Finished), transport, ActionView::Finish(OutcomeView::Done)),
                )
            } else {
                match sse::line_data(line) {
                    None => Some((self, transport, ActionView::ReadLine)),
                    Some(data) => Some(
                        (
                            self.at(PhaseView::DeliveringEvent),
                            transport,
                            ActionView::Deliver(data),
                        ),
                    ),
                }
            },
            (PhaseView::DeliveringEvent, EventView::Delivered(received)) => if received {
                Some((self.at(PhaseView::ReadingEvents), transport, ActionView::ReadLine))
            } else {
                Some(
                    (
                        self.at(PhaseView::Finished),
                        transport,
                        ActionView::Finish(
                            OutcomeView::Failed("Failed to send SSE data to channel"@),
                        ),
                    ),
                )
            },
            _ => None,
        }
    }
}

/// What a content type stands for.
pub fn classify(content_type: String) -> (r: Content)
    ensures
        r@ == content_of(content_type@),
{
    if text::starts_with(content_type.as_str(), "application/json") {
        Content::Json
    } else if text::starts_with(content_type.as_str(), "text/event-stream") {
        Content::Events
    } else {
        Content::Other(content_type)
    }
}

/// The type of the content that a response's headers name.
pub fn response_content(headers: &HeaderMap) -> (r: Content)
    ensures
        r@ == content_of(content_type(wire::map_fields(*headers))),
{
    proof {
        reveal_strlit("content-type");
        assert(wire::lower("content-type"@) =~= "content-type"@);
    }
    match wire::header_text(headers, "content-type") {
        Some(t) => classify(t),
        None => classify(String::new()),
    }
}

/// What is reported of a response that is no success, given how its status
/// prints and its body.
pub fn failure_message(status_line: &str, body: &str) -> (r: String)
    ensures
        r@ == failure(status_line@, body@),
{
    text::joined("HTTP request failed: ", status_line).concat(" - ").concat(body)
}

impl HttpTransport {
    /// Reads the entire response body as a string.
    pub fn read_response_body(bytes: Vec<u8>) -> (r: String)
        ensures
            r@ == body_text(bytes@),
    {
        match text::from_utf8(bytes) {
            Some(body) => body,
            None => "[Invalid UTF-8]".to_string(),
        }
    }

    /// Starts sending a message to the MCP server: the request to send first.
    pub fn send_http_message(&self, message: String) -> (r: Result<
        (Exchange, Request<Vec<u8>>),
        HttpTransportError,
    >)
        ensures
            ({
                let bytes = encode_utf8(message@);
                let head = self@.post(urls::url_text(self@.target()), bytes.len());
                match r {
                    Ok((exchange, request)) => {
                        &&& exchange@ == (ExchangeState {
                            is_request: rpc::request_bytes(bytes),
                            phase: PhaseView::Sent,
                        })
                        &&& transport::built(head, bytes, Ok(request))
                    },
                    Err(e) => transport::built(head, bytes, Err(e)),
                }
            }),
    {
        let body = message.as_str().as_bytes_vec();
        let is_request = HttpTransport::is_request_message(body.as_slice());
        let target = self.get_target_url();
        match self.build_request(&target, body) {
            Ok(request) => Ok((Exchange { is_request, phase: Phase::Sent }, request)),
            Err(e) => Err(e),
        }
    }

    /// Starts legacy SSE mode for backwards compatibility: a connection to the
    /// address that the transport was made with. An error is the failure of the
    /// connection that was to be opened, not of the exchange that asked for it:
    /// that one is told that the fallback was started all the same. After a
    /// message was sent in standard mode there is none.
    pub fn start_legacy_sse_mode(&self) -> (r: Result<(SseConnection, Request<Vec<u8>>), String>)
        ensures
            match sse::open_head(urls::url_text(self@.base_url)) {
                Ok(head) => r matches Ok((c, q)) && c@ is Connecting && wire::request_head(q)
                    == head && wire::request_body(q) == Seq::<u8>::empty(),
                Err(e) => r matches Err(t) && t@ == "Failed to build SSE request: "@ + e,
            },
    {
        let sse_url = self.base_url();
        SseConnection::open(&sse_url)
    }
}

impl Exchange {
    fn at(self, phase: Phase) -> (r: Exchange)
        ensures
            r.is_request == self.is_request,
            r.phase == phase,
    {
        Exchange { is_request: self.is_request, phase }
    }

    fn reporting(self, message: String) -> (r: (Exchange, Action))
        ensures
            r.0@ == self@.at(PhaseView::Reporting(message@)),
            r.1@ == ActionView::Report(message@),
    {
        let report = message.clone();
        (self.at(Phase::Reporting { message }), Action::Report(report))
    }

    fn finished(self, outcome: Outcome) -> (r: (Exchange, Action))
        ensures
            r.0@ == self@.at(PhaseView::Finished),
            r.1@ == ActionView::Finish(outcome@),
    {
        (self.at(Phase::Finished), Action::Finish(outcome))
    }

    /// Handles response content based on content type, if the response is a
    /// success and one is expected.
    pub fn handle_response_content(self, status: StatusCode, content: Content) -> (r: (
        Exchange,
        Action,
    ))
        ensures
            ({
                let (phase, action) = self@.on_response(wire::status_number(status), content@);
                r.0@ == self@.at(phase) && r.1@ == action
            }),
    {
        if !wire::is_success(&status) {
            (self.at(Phase::ReadingFailure { status }), Action::ReadBody)
        } else if !self.is_request {
            self.finished(Outcome::Done)
        } else {
            match content {
                Content::Json => (self.at(Phase::ReadingJson), Action::ReadBody),
                Content::Events => (self.at(Phase::ReadingEvents), Action::ReadLine),
                Content::Other(t) => self.reporting(
                    text::joined(
                        "Unexpected content type: expected application/json or text/event-stream, got ",
                        &t,
                    ),
                ),
            }
        }
    }

    /// Takes an event and says what to do next. The transport learns of a
    /// session from the headers of the response. Of an event that the exchange
    /// does not wait for, nothing comes.
    pub fn step(self, transport: &mut HttpTransport, event: Event) -> (r: Option<
        (Exchange, Action),
    >)
        ensures
            match self@.next(old(transport)@, event@) {
                Some((state, t, action)) => r matches Some((x, a)) && x@ == state && a@ == action
                    && final(transport)@ == t,
                None => r is None && final(transport)@ == old(transport)@,
            },
    {
        let Exchange { is_request, phase } = self;
        let over = Exchange { is_request, phase: Phase::Finished };
        match (phase, event) {
            (Phase::Sent, Event::Failed(_)) => Some(over.finished(Outcome::Propagated)),
            (Phase::Sent, Event::Responded { status, headers }) => {
                transport.update_session_from_response(&headers);
                let content = response_content(&headers);
                Some(over.handle_response_content(status, content))
            },
            (Phase::ReadingFailure { .. }, Event::Failed(_)) => Some(
                over.finished(Outcome::Propagated),
            ),
            (Phase::ReadingFailure { status }, Event::Body(bytes)) => {
                let body = HttpTransport::read_response_body(bytes);
                let line = wire::status_text(&status);
                let message = failure_message(line.as_str(), body.as_str());
                let number: u16 = wire::number_of(&status);
                if (number == 404 || number == 405) && transport.is_standard() {
                    Some((over.at(Phase::StartingFallback { message }), Action::StartFallback))
                } else {
                    Some(over.reporting(message))
                }
            },
            (Phase::StartingFallback { message }, Event::FallbackStarted) => Some(
                over.reporting(message),
            ),
            (Phase::Reporting { message }, Event::Reported) => Some(
                over.finished(Outcome::Failed(message)),
            ),
            (Phase::ReadingJson, Event::Failed(_)) => Some(over.finished(Outcome::Propagated)),
            (Phase::ReadingJson, Event::Body(bytes)) => Some(
                (
                    over.at(Phase::DeliveringJson),
                    Action::Deliver(HttpTransport::read_response_body(bytes)),
                ),
            ),
            (Phase::DeliveringJson, Event::Delivered(received)) => {
                if received {
                    Some(over.finished(Outcome::Done))
                } else {
                    Some(
                        over.finished(
                            Outcome::Failed("Failed to send message to channel".to_string()),
                        ),
                    )
                }
            },
            (Phase::ReadingEvents, Event::Failed(_)) => Some(over.finished(Outcome::Done)),
            (Phase::ReadingEvents, Event::Line(line)) => {
                if line.as_str().is_empty() {
                    return Some(over.finished(Outcome::Done));
                }
                match sse::parse_line(line.as_str()) {
                    None => Some((over.at(Phase::ReadingEvents), Action::ReadLine)),
                    Some(data) => Some((over.at(Phase::DeliveringEvent), Action::Deliver(data))),
                }
            },
            (Phase::DeliveringEvent, Event::Delivered(received)) => {
                if received {
                    Some((over.at(Phase::ReadingEvents), Action::ReadLine))
                } else {
                    Some(
                        over.finished(
                            Outcome::Failed("Failed to send SSE data to channel".to_string()),
                        ),
                    )
                }
            },
            _ => None,
        }
    }
}

/// The content of a response is known by how its type starts, if that is
/// visible ASCII, and whatever follows; where no type can be read, the content
/// is of no known type.
pub proof fn content_is_known_by_its_type(fields: Fields)
    ensures
        ({
            let content = content_of(content_type(fields));
            if fields.contains_key("content-type"@) && wire::visible(fields["content-type"@][0]) {
                let t = decode_utf8(fields["content-type"@][0]);
                &&& "application/json"@.is_prefix_of(t) ==> content is Json
                &&& "text/event-stream"@.is_prefix_of(t) ==> content is Events
                &&& !"application/json"@.is_prefix_of(t) && !"text/event-stream"@.is_prefix_of(t)
                    ==> content == ContentView::Other(t)
            } else {
                content == ContentView::Other(Seq::empty())
            }
        }),
{
    reveal_strlit("application/json");
    reveal_strlit("text/event-stream");
    assert("application/json"@.len() == 16);
    assert("text/event-stream"@.len() == 17);
    assert("application/json"@[0] == 'a');
    assert("text/event-stream"@[0] == 't');
    wire::header_is_read_whole(fields, "content-type"@);
    if fields.contains_key("content-type"@) && wire::visible(fields["content-type"@][0]) {
        let t = decode_utf8(fields["content-type"@][0]);
        if "application/json"@.is_prefix_of(t) {
            assert(t.subrange(0, 16)[0] == t[0]);
        }
        if "text/event-stream"@.is_prefix_of(t) {
            assert(t.subrange(0, 17)[0] == t[0]);
        }
    }
}

/// A body that is text is read back whole, whatever its length; any other body
/// reads as a fixed text.
pub proof fn body_is_read_back(s: Seq<char>, bytes: Seq<u8>)
    ensures
        body_text(encode_utf8(s)) == s,
        !valid_utf8(bytes) ==> body_text(bytes) == "[Invalid UTF-8]"@,
{
    encode_utf8_valid_utf8(s);
    encode_utf8_decode_utf8(s);
}

/// What is reported of a response gives the status and the whole body, or the
/// whole content type.
pub proof fn reports_give_the_whole_text(status_line: Seq<char>, body: Seq<char>)
    ensures
        failure(status_line, body) == "HTTP request failed: "@ + status_line + " - "@ + body,
        unexpected(body)
            == "Unexpected content type: expected application/json or text/event-stream, got "@
            + body,
{
}

/// A content type is shown as what it is.
pub proof fn content_shows_its_type(t: String)
    ensures
        Content::Other(t)@ == ContentView::Other(t@),
        Content::Json@ is Json,
        Content::Events@ is Events,
{
}

} // verus!
