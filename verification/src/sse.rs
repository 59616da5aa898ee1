//! Server-Sent Events: the lines of a stream, and the legacy connection on
//! which a server announces where messages are to be sent.

use http::Request;
use url::Url;
use vstd::prelude::*;
use vstd::utf8::*;

use crate::flow;
use crate::flow::{Action, ActionView, Event, EventView, Outcome, OutcomeView};
use crate::json;
use crate::json::{FieldKind, JsonField};
use crate::text;
use crate::transport::{HttpTransport, TransportState};
use crate::urls;
use crate::wire;
use crate::wire::RequestHead;

verus! {

/// The data that a line of a stream carries, if it is a data line.
pub open spec fn line_data(line: Seq<char>) -> Option<Seq<char>> {
    text::after_prefix(text::trimmed(line), "data: "@)
}

/// The endpoint that an event announces: the URL in the member `endpoint` of a
/// JSON object.
pub open spec fn announced(data: Seq<char>) -> Option<Url> {
    match json::json_reading(data) {
        Ok(value) => match json::member_of(value, "endpoint"@) {
            Some(FieldKind::Text(t)) => match urls::url_reading(t) {
                Ok(url) => Some(url),
                Err(_) => None,
            },
            _ => None,
        },
        Err(_) => None,
    }
}

/// The data that a line of a stream carries, if it is a data line. Blank
/// lines, comments and other fields carry none.
pub fn parse_line(line: &str) -> (r: Option<String>)
    ensures
        text::opt_text(r) == line_data(line@),
{
    let trimmed = text::trim(line);
    match text::strip_prefix(trimmed, "data: ") {
        Some(data) => Some(data.to_string()),
        None => None,
    }
}

/// The text of the member that may hold an endpoint: only a string does.
pub fn endpoint_text(member: Option<JsonField>) -> (r: Option<String>)
    ensures
        text::opt_text(r) == match json::opt_kind(member) {
            Some(FieldKind::Text(t)) => Some(t),
            _ => None,
        },
{
    match member {
        Some(JsonField::Text(endpoint)) => Some(endpoint),
        _ => None,
    }
}

/// The endpoint that an event announces, if it is an announcement.
pub fn announced_endpoint(data: &str) -> (r: Option<Url>)
    ensures
        r == announced(data@),
{
    match json::read_text(data) {
        Ok(value) => match endpoint_text(json::member(&value, "endpoint")) {
            Some(endpoint) => match Url::parse(endpoint.as_str()) {
                Ok(url) => Some(url),
                Err(_) => None,
            },
            None => None,
        },
        Err(_) => None,
    }
}

/// How far a legacy connection has come.
enum Phase {
    Connecting,
    Reporting { message: String },
    Reading,
    Delivering,
    Finished,
}

/// The model of a legacy connection.
pub enum SseState {
    /// The request was sent.
    Connecting,
    /// The failure is being reported.
    Reporting(Seq<char>),
    /// The next line is being read.
    Reading,
    /// A message is being handed to the channel.
    Delivering,
    /// The connection is over.
    Finished,
}

/// A legacy Server-Sent Events connection.
pub struct SseConnection {
    phase: Phase,
}

impl View for SseConnection {
    type V = SseState;

    closed spec fn view(&self) -> SseState {
        match self.phase {
            Phase::Connecting => SseState::Connecting,
            Phase::Reporting { message } => SseState::Reporting(message@),
            Phase::Reading => SseState::Reading,
            Phase::Delivering => SseState::Delivering,
            Phase::Finished => SseState::Finished,
        }
    }
}

impl SseState {
    /// What happens to data that was read, given the endpoint that it
    /// announces: an announcement redirects the transport and goes no further,
    /// all other data is delivered.
    pub open spec fn on_data(
        transport: TransportState,
        data: Seq<char>,
        endpoint: Option<Url>,
    ) -> (SseState, TransportState, ActionView) {
        match endpoint {
            Some(url) => (SseState::Reading, transport.with_endpoint(url), ActionView::ReadLine),
            None => (SseState::Delivering, transport, ActionView::Deliver(data)),
        }
    }

    /// What happens on an event: the state afterwards, what the transport has
    /// learned and what to do next. Nothing happens on an event that the
    /// connection does not wait for.
    pub open spec fn next(self, transport: TransportState, event: EventView) -> Option<
        (SseState, TransportState, ActionView),
    > {
        match (self, event) {
            (SseState::Connecting, EventView::Failed(t)) => Some(
                (
                    SseState::Finished,
                    transport,
                    ActionView::Finish(OutcomeView::Failed("SSE connection failed: "@ + t)),
                ),
            ),
            (SseState::Connecting, EventView::Responded { status, .. }) => if flow::success(
                status,
            ) {
                Some((SseState::Reading, transport, ActionView::ReadLine))
            } else {
                let message = "SSE connection failed with status: "@ + wire::status_line(status);
                Some((SseState::Reporting(message), transport, ActionView::Report(message)))
            },
            (SseState::Reporting(message), EventView::Reported) => Some(
                (
                    SseState::Finished,
                    transport,
                    ActionView::Finish(OutcomeView::Failed(message)),
                ),
            ),
            (SseState::Reading, EventView::Failed(_)) => Some(
                (SseState::Finished, transport, ActionView::Finish(OutcomeView::Done)),
            ),
            (SseState::Reading, EventView::Line(line)) => if line.len() == 0 {
                Some((SseState::Finished, transport, ActionView::Finish(OutcomeView::Done)))
            } else {
                match line_data(line) {
                    None => Some((SseState::Reading, transport, ActionView::ReadLine)),
                    Some(data) => Some(SseState::on_data(transport, data, announced(data))),
                }
            },
            (SseState::Delivering, EventView::Delivered(true)) => Some(
                (SseState::Reading, transport, ActionView::ReadLine),
            ),
            (SseState::Delivering, EventView::Delivered(false)) => Some(
                (SseState::Finished, transport, ActionView::Finish(OutcomeView::Done)),
            ),
            _ => None,
        }
    }
}

/// The head of the request that opens a legacy connection to a URL, or the
/// message of the error that prevents it.
pub open spec fn open_head(url: Seq<char>) -> Result<RequestHead, Seq<char>> {
    match wire::uri_reading(url) {
        Err(text) => Err(text),
        Ok(uri) => Ok(
            RequestHead {
                method: "GET"@,
                uri,
                fields: map![
                    "accept"@ => seq![encode_utf8("text/event-stream"@)],
                    "cache-control"@ => seq![encode_utf8("no-cache"@)],
                ],
            },
        ),
    }
}

impl SseConnection {
    /// Opens a connection to `sse_url`: the request to send first. The error
    /// says why the request cannot be built.
    pub fn open(sse_url: &Url) -> (r: Result<(SseConnection, Request<Vec<u8>>), String>)
        ensures
            match open_head(urls::url_text(*sse_url)) {
                Ok(head) => r matches Ok((c, q)) && c@ is Connecting && wire::request_head(q)
                    == head && wire::request_body(q) == Seq::<u8>::empty(),
                Err(e) => r matches Err(t) && t@ == "Failed to build SSE request: "@ + e,
            },
    {
        proof {
            open_names();
        }
        let mut builder = wire::new_builder();
        builder = wire::set_method(builder, "GET");
        builder = wire::set_uri(builder, sse_url.as_str());
        builder = wire::add_header(builder, "Accept", "text/event-stream");
        builder = wire::add_header(builder, "Cache-Control", "no-cache");
        proof {
            match (wire::builder_state(builder), open_head(urls::url_text(*sse_url))) {
                (Ok(head), Ok(expected)) => {
                    assert(head.fields =~= expected.fields);
                },
                _ => {},
            }
        }
        match wire::set_body(builder, Vec::new()) {
            Ok(request) => Ok((SseConnection { phase: Phase::Connecting }, request)),
            Err(e) => {
                let detail = wire::error_text(&e);
                Err(text::joined("Failed to build SSE request: ", &detail))
            },
        }
    }

    /// Takes data that was read and the endpoint that it announces, if any: the
    /// endpoint is adopted, and data without one is to be delivered.
    pub fn take_data(transport: &mut HttpTransport, data: String, endpoint: Option<Url>) -> (r: (
        SseConnection,
        Action,
    ))
        ensures
            (r.0@, final(transport)@, r.1@) == SseState::on_data(
                old(transport)@,
                data@,
                endpoint,
            ),
    {
        match endpoint {
            Some(url) => {
                transport.adopt_endpoint(url);
                (SseConnection { phase: Phase::Reading }, Action::ReadLine)
            },
            None => (SseConnection { phase: Phase::Delivering }, Action::Deliver(data)),
        }
    }

    /// Takes an event and says what to do next. The transport learns of an
    /// announced endpoint. Of an event that the connection does not wait for,
    /// nothing comes.
    pub fn step(self, transport: &mut HttpTransport, event: Event) -> (r: Option<
        (SseConnection, Action),
    >)
        ensures
            match self@.next(old(transport)@, event@) {
                Some((state, t, action)) => r matches Some((c, a)) && c@ == state && a@ == action
                    && final(transport)@ == t,
                None => r is None && final(transport)@ == old(transport)@,
            },
    {
        match (self.phase, event) {
            (Phase::Connecting, Event::Failed(t)) => Some(
                (
                    SseConnection { phase: Phase::Finished },
                    Action::Finish(Outcome::Failed(text::joined("SSE connection failed: ", &t))),
                ),
            ),
            (Phase::Connecting, Event::Responded { status, .. }) => {
                if wire::is_success(&status) {
                    Some((SseConnection { phase: Phase::Reading }, Action::ReadLine))
                } else {
                    let line = wire::status_text(&status);
                    let message = text::joined("SSE connection failed with status: ", &line);
                    let report = message.clone();
                    Some(
                        (
                            SseConnection { phase: Phase::Reporting { message } },
                            Action::Report(report),
                        ),
                    )
                }
            },
            (Phase::Reporting { message }, Event::Reported) => Some(
                (
                    SseConnection { phase: Phase::Finished },
                    Action::Finish(Outcome::Failed(message)),
                ),
            ),
            (Phase::Reading, Event::Failed(_)) => Some(
                (SseConnection { phase: Phase::Finished }, Action::Finish(Outcome::Done)),
            ),
            (Phase::Reading, Event::Line(line)) => {
                if line.as_str().is_empty() {
                    return Some(
                        (SseConnection { phase: Phase::Finished }, Action::Finish(Outcome::Done)),
                    );
                }
                match parse_line(line.as_str()) {
                    None => Some((SseConnection { phase: Phase::Reading }, Action::ReadLine)),
                    Some(data) => {
                        let endpoint = announced_endpoint(data.as_str());
                        Some(SseConnection::take_data(transport, data, endpoint))
                    },
                }
            },
            (Phase::Delivering, Event::Delivered(received)) => {
                if received {
                    Some((SseConnection { phase: Phase::Reading }, Action::ReadLine))
                } else {
                    Some((SseConnection { phase: Phase::Finished }, Action::Finish(Outcome::Done)))
                }
            },
            _ => None,
        }
    }
}

/// The header fields of the opening request: names, values, and that the two
/// names differ.
proof fn open_names()
    ensures
        wire::plain_name("Accept"@),
        wire::lower("Accept"@) == "accept"@,
        wire::plain_name("Cache-Control"@),
        wire::lower("Cache-Control"@) == "cache-control"@,
        "accept"@ != "cache-control"@,
        wire::field_value_ok(encode_utf8("text/event-stream"@)),
        wire::field_value_ok(encode_utf8("no-cache"@)),
{
    reveal_strlit("Accept");
    reveal_strlit("accept");
    assert(wire::lower("Accept"@) =~= "accept"@);
    reveal_strlit("Cache-Control");
    reveal_strlit("cache-control");
    assert(wire::lower("Cache-Control"@) =~= "cache-control"@);
    assert("accept"@.len() == 6);
    assert("cache-control"@.len() == 13);
    reveal_strlit("text/event-stream");
    wire::printable_is_a_field_value("text/event-stream"@);
    reveal_strlit("no-cache");
    wire::printable_is_a_field_value("no-cache"@);
}

/// A line carries data exactly if it is, but for white space around it, the
/// field name `data: ` and behind it that data.
pub proof fn data_stands_behind_its_field_name(line: Seq<char>, data: Seq<char>)
    ensures
        line_data(line) == Some(data) <==> text::trimmed(line) == "data: "@ + data,
        line_data(line) is None <==> !"data: "@.is_prefix_of(text::trimmed(line)),
{
    text::prefix_and_rest_make_the_text(text::trimmed(line), "data: "@, data);
}

/// An event whose member `endpoint` is a string that reads as a URL announces
/// that URL, whichever it is and whatever other members there are.
pub proof fn endpoint_member_is_announced(
    data: Seq<char>,
    value: serde_json::Value,
    t: Seq<char>,
    url: Url,
)
    requires
        json::json_reading(data) == Ok::<serde_json::Value, serde_json::Error>(value),
        json::members(value).contains_key("endpoint"@),
        json::members(value)["endpoint"@] == FieldKind::Text(t),
        urls::url_reading(t) == Ok::<Url, url::ParseError>(url),
    ensures
        announced(data) == Some(url),
{
}

/// Nothing but a JSON object whose member `endpoint` is a string that reads as
/// a URL announces anything.
pub proof fn nothing_else_is_announced(data: Seq<char>)
    requires
        announced(data) is Some,
    ensures
        json::json_reading(data) is Ok,
        ({
            let m = json::members(json::json_reading(data)->Ok_0);
            &&& m.contains_key("endpoint"@)
            &&& m["endpoint"@] is Text
            &&& urls::url_reading(m["endpoint"@]->Text_0) is Ok
            &&& urls::url_reading(m["endpoint"@]->Text_0)->Ok_0 == announced(data)->0
        }),
{
}

/// On an open connection, a line that carries an object with such a member
/// `endpoint` sends messages to that URL from then on, and is not delivered:
/// the next line is read. Nothing else of the transport changes.
pub proof fn announcement_redirects_messages(
    transport: TransportState,
    line: Seq<char>,
    data: Seq<char>,
    value: serde_json::Value,
    t: Seq<char>,
    url: Url,
)
    requires
        text::trimmed(line) == "data: "@ + data,
        json::json_reading(data) == Ok::<serde_json::Value, serde_json::Error>(value),
        json::members(value).contains_key("endpoint"@),
        json::members(value)["endpoint"@] == FieldKind::Text(t),
        urls::url_reading(t) == Ok::<Url, url::ParseError>(url),
    ensures
        ({
            match SseState::Reading.next(transport, EventView::Line(line)) {
                Some((connection, t2, action)) => {
                    &&& connection is Reading
                    &&& action is ReadLine
                    &&& t2.target() == url
                    &&& t2.mode is LegacySse
                    &&& t2.base_url == transport.base_url
                    &&& t2.config == transport.config
                    &&& t2.session_id == transport.session_id
                    &&& t2.protocol_version == transport.protocol_version
                },
                None => false,
            }
        }),
{
    data_stands_behind_its_field_name(line, data);
    a_trimmed_line_is_no_end(line);
}

/// On an open connection, data that announces no endpoint is delivered whole,
/// and the transport stays as it is.
pub proof fn other_data_is_delivered(transport: TransportState, line: Seq<char>, data: Seq<char>)
    requires
        text::trimmed(line) == "data: "@ + data,
        announced(data) is None,
    ensures
        SseState::Reading.next(transport, EventView::Line(line)) == Some(
            (SseState::Delivering, transport, ActionView::Deliver(data)),
        ),
{
    data_stands_behind_its_field_name(line, data);
    a_trimmed_line_is_no_end(line);
}

/// On an open connection, a line that is no data line is passed over.
pub proof fn other_lines_are_passed_over(transport: TransportState, line: Seq<char>)
    requires
        line.len() > 0,
        !"data: "@.is_prefix_of(text::trimmed(line)),
    ensures
        SseState::Reading.next(transport, EventView::Line(line)) == Some(
            (SseState::Reading, transport, ActionView::ReadLine),
        ),
{
    data_stands_behind_its_field_name(line, Seq::empty());
}

proof fn a_trimmed_line_is_no_end(line: Seq<char>)
    requires
        "data: "@.is_prefix_of(text::trimmed(line)),
    ensures
        line.len() > 0,
{
    reveal_strlit("data: ");
    assert("data: "@.len() == 6);
    text::trimmed_is_the_core(line);
}

/// A legacy connection is opened with `GET`, at the address that was given,
/// with two header fields and no other, wherever that address is one for a
/// request.
pub proof fn connection_is_opened_with_get(url: Seq<char>)
    ensures
        wire::uri_reading(url) is Ok ==> open_head(url) is Ok && {
            let head = open_head(url)->Ok_0;
            &&& head.method == "GET"@
            &&& wire::uri_reading(url)->Ok_0 == head.uri
            &&& head.fields.contains_key("accept"@)
            &&& head.fields["accept"@] == seq![encode_utf8("text/event-stream"@)]
            &&& head.fields.contains_key("cache-control"@)
            &&& head.fields["cache-control"@] == seq![encode_utf8("no-cache"@)]
            &&& forall|k: Seq<char>| #[trigger]
                head.fields.contains_key(k) ==> k == "accept"@ || k == "cache-control"@
        },
        wire::uri_reading(url) is Err ==> open_head(url) is Err && open_head(url)->Err_0
            == wire::uri_reading(url)->Err_0,
{
    open_names();
}

} // verus!
