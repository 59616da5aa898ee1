//! What holds of whole conversations: laws over any number of events, whatever
//! other conversations do to the transport in between.

use url::Url;
use vstd::prelude::*;
use vstd::utf8::*;

use crate::exchange;
use crate::exchange::{ContentView, ExchangeState, PhaseView};
use crate::flow;
use crate::flow::{ActionView, EventView, OutcomeView};
use crate::sse;
use crate::sse::SseState;
use crate::text;
use crate::transport;
use crate::transport::{TransportMode, TransportState};
use crate::urls;
use crate::wire;
use crate::wire::Fields;

verus! {

/// What became of an exchange: the transport as each event left it, and the
/// actions asked for.
pub struct ExchangeRun {
    pub exchange: ExchangeState,
    pub left: Seq<TransportState>,
    pub actions: Seq<ActionView>,
}

/// What became of a connection: the transport as each event left it, and the
/// actions asked for.
pub struct SseRun {
    pub connection: SseState,
    pub left: Seq<TransportState>,
    pub actions: Seq<ActionView>,
}

/// Where an exchange is after a list of events, when `met[i]` is the transport
/// as the event at `i` finds it; nothing, if one of the events was not waited
/// for.
pub open spec fn exchange_run(
    exchange: ExchangeState,
    met: Seq<TransportState>,
    events: Seq<EventView>,
) -> Option<ExchangeRun>
    decreases events.len(),
{
    if events.len() == 0 {
        Some(ExchangeRun { exchange, left: Seq::empty(), actions: Seq::empty() })
    } else {
        match exchange_run(exchange, met, events.drop_last()) {
            Some(run) => match run.exchange.next(met[events.len() - 1], events.last()) {
                Some((x, t, action)) => Some(
                    ExchangeRun {
                        exchange: x,
                        left: run.left.push(t),
                        actions: run.actions.push(action),
                    },
                ),
                None => None,
            },
            None => None,
        }
    }
}

/// Where a legacy connection is after a list of events, when `met[i]` is the
/// transport as the event at `i` finds it; nothing, if one of the events was
/// not waited for.
pub open spec fn sse_run(
    connection: SseState,
    met: Seq<TransportState>,
    events: Seq<EventView>,
) -> Option<SseRun>
    decreases events.len(),
{
    if events.len() == 0 {
        Some(SseRun { connection, left: Seq::empty(), actions: Seq::empty() })
    } else {
        match sse_run(connection, met, events.drop_last()) {
            Some(run) => match run.connection.next(met[events.len() - 1], events.last()) {
                Some((c, t, action)) => Some(
                    SseRun {
                        connection: c,
                        left: run.left.push(t),
                        actions: run.actions.push(action),
                    },
                ),
                None => None,
            },
            None => None,
        }
    }
}

/// The data of the data lines among `lines`, in order.
pub open spec fn data_of(lines: Seq<Seq<char>>) -> Seq<Seq<char>>
    decreases lines.len(),
{
    if lines.len() == 0 {
        Seq::empty()
    } else {
        match sse::line_data(lines.last()) {
            Some(data) => data_of(lines.drop_last()).push(data),
            None => data_of(lines.drop_last()),
        }
    }
}

/// The events among `data` that announce no endpoint, in order.
pub open spec fn messages_of(data: Seq<Seq<char>>) -> Seq<Seq<char>>
    decreases data.len(),
{
    if data.len() == 0 {
        Seq::empty()
    } else if sse::announced(data.last()) is None {
        messages_of(data.drop_last()).push(data.last())
    } else {
        messages_of(data.drop_last())
    }
}

/// The last endpoint that one of the events `data` announces.
pub open spec fn last_announced(data: Seq<Seq<char>>) -> Option<Url>
    decreases data.len(),
{
    if data.len() == 0 {
        None
    } else {
        match sse::announced(data.last()) {
            Some(endpoint) => Some(endpoint),
            None => last_announced(data.drop_last()),
        }
    }
}

/// A response names something under a header name: its first value there is
/// visible ASCII, of whatever length.
pub open spec fn names(fields: Fields, name: Seq<char>) -> bool {
    fields.contains_key(name) && wire::visible(fields[name][0])
}

/// The session that a server names in a response, of whatever length, is the
/// session that the transport has then and that the next message names to the
/// server, byte for byte; the same holds of the protocol version. A message
/// that could be sent before the response can be sent after it.
pub proof fn next_message_carries_the_session(t: TransportState, fields: Fields, length: nat)
    ensures
        ({
            let u = t.after_response(fields);
            let sent = u.message_fields(length);
            &&& fields.contains_key("mcp-session-id"@) && wire::visible(
                fields["mcp-session-id"@][0],
            ) ==> {
                &&& u.session_id == Some(decode_utf8(fields["mcp-session-id"@][0]))
                &&& sent.contains_key("mcp-session-id"@)
                &&& sent["mcp-session-id"@] == seq![fields["mcp-session-id"@][0]]
            }
            &&& fields.contains_key("mcp-protocol-version"@) && wire::visible(
                fields["mcp-protocol-version"@][0],
            ) ==> {
                &&& u.protocol_version == Some(decode_utf8(fields["mcp-protocol-version"@][0]))
                &&& sent.contains_key("mcp-protocol-version"@)
                &&& sent["mcp-protocol-version"@] == seq![fields["mcp-protocol-version"@][0]]
            }
            &&& t.sendable() ==> u.sendable()
        }),
{
    transport::distinct_names();
    wire::header_is_read_whole(fields, "mcp-session-id"@);
    wire::header_is_read_whole(fields, "mcp-protocol-version"@);
    if names(fields, "mcp-session-id"@) {
        wire::visible_text_is_a_field_value(fields["mcp-session-id"@][0]);
    }
    if names(fields, "mcp-protocol-version"@) {
        wire::visible_text_is_a_field_value(fields["mcp-protocol-version"@][0]);
    }
}

/// A response that names no session leaves the session as it was, and no
/// response changes where messages go or where they say they come from.
pub proof fn response_changes_the_session_only(t: TransportState, fields: Fields)
    ensures
        ({
            let u = t.after_response(fields);
            &&& u.base_url == t.base_url
            &&& u.config == t.config
            &&& u.mode == t.mode
            &&& u.target() == t.target()
            &&& !names(fields, "mcp-session-id"@) ==> u.session_id == t.session_id
            &&& !names(fields, "mcp-protocol-version"@) ==> u.protocol_version
                == t.protocol_version
        }),
{
    wire::header_is_read_whole(fields, "mcp-session-id"@);
    wire::header_is_read_whole(fields, "mcp-protocol-version"@);
}

/// A message names the session and the protocol version of the transport, and
/// none where the transport has none; it always names its type, what it
/// accepts, its length and its origin, and nothing else.
pub proof fn message_says_what_the_transport_knows(t: TransportState, length: nat)
    ensures
        ({
            let sent = t.message_fields(length);
            &&& sent.contains_key("mcp-session-id"@) <==> t.session_id is Some
            &&& t.session_id matches Some(id) ==> sent["mcp-session-id"@] == seq![encode_utf8(id)]
            &&& sent.contains_key("mcp-protocol-version"@) <==> t.protocol_version is Some
            &&& t.protocol_version matches Some(version) ==> sent["mcp-protocol-version"@]
                == seq![encode_utf8(version)]
            &&& sent.contains_key("content-type"@) && sent["content-type"@] == seq![
                encode_utf8("application/json"@),
            ]
            &&& sent.contains_key("accept"@) && sent["accept"@] == seq![
                encode_utf8("application/json, text/event-stream"@),
            ]
            &&& sent.contains_key("content-length"@) && sent["content-length"@] == seq![
                encode_utf8(text::decimal(length)),
            ]
            &&& sent.contains_key("origin"@) && sent["origin"@] == seq![
                encode_utf8(t.config.origin@),
            ]
            &&& forall|k: Seq<char>| #[trigger]
                sent.contains_key(k) ==> {
                    ||| k == "content-type"@
                    ||| k == "accept"@
                    ||| k == "content-length"@
                    ||| k == "origin"@
                    ||| k == "mcp-session-id"@
                    ||| k == "mcp-protocol-version"@
                }
        }),
{
    transport::distinct_names();
}

/// A message names no session before a server has named one.
pub proof fn first_message_names_no_session(
    base_url: Url,
    config: crate::config::HttpTransportConfig,
    length: nat,
)
    ensures
        ({
            let sent = TransportState::fresh(base_url, config).message_fields(length);
            !sent.contains_key("mcp-session-id"@) && !sent.contains_key("mcp-protocol-version"@)
        }),
{
    transport::distinct_names();
}

/// In standard mode messages go to the address that the transport was made
/// with, and once an endpoint is known they go there, whatever responses come.
pub proof fn messages_follow_the_mode(t: TransportState, endpoint: Url, fields: Fields)
    ensures
        t.mode is Standard ==> t.target() == t.base_url,
        t.with_endpoint(endpoint).target() == endpoint,
        t.with_endpoint(endpoint).mode is LegacySse,
        t.with_endpoint(endpoint).base_url == t.base_url,
        t.with_endpoint(endpoint).config == t.config,
        t.with_endpoint(endpoint).session_id == t.session_id,
        t.with_endpoint(endpoint).protocol_version == t.protocol_version,
        t.with_endpoint(endpoint).after_response(fields).target() == endpoint,
{
}

/// A turn of one of the conversations that share a transport: an event that an
/// exchange or a legacy connection takes.
pub enum Turn {
    Exchange(ExchangeState, EventView),
    Connection(SseState, EventView),
}

/// The transport after a turn.
pub open spec fn after_turn(transport: TransportState, turn: Turn) -> TransportState {
    match turn {
        Turn::Exchange(exchange, event) => match exchange.next(transport, event) {
            Some((_, t, _)) => t,
            None => transport,
        },
        Turn::Connection(connection, event) => match connection.next(transport, event) {
            Some((_, t, _)) => t,
            None => transport,
        },
    }
}

/// The transport after a list of turns.
pub open spec fn after_turns(transport: TransportState, turns: Seq<Turn>) -> TransportState
    decreases turns.len(),
{
    if turns.len() == 0 {
        transport
    } else {
        after_turn(after_turns(transport, turns.drop_last()), turns.last())
    }
}

/// However conversations take turns, the transport keeps its base address and
/// its configuration, never goes back to standard mode, and forgets neither the
/// session nor the protocol version.
pub proof fn what_is_learned_stays(transport: TransportState, turns: Seq<Turn>)
    ensures
        ({
            let t = after_turns(transport, turns);
            &&& t.base_url == transport.base_url
            &&& t.config == transport.config
            &&& transport.mode is LegacySse ==> t.mode is LegacySse
            &&& transport.session_id is Some ==> t.session_id is Some
            &&& transport.protocol_version is Some ==> t.protocol_version is Some
        }),
    decreases turns.len(),
{
    if turns.len() > 0 {
        what_is_learned_stays(transport, turns.drop_last());
    }
}

/// The text that a turn learns from a response under a header name.
pub open spec fn named_in(turn: Turn, name: Seq<char>) -> Option<Seq<char>> {
    match turn {
        Turn::Exchange(exchange, EventView::Responded { fields, .. }) => if exchange.phase is Sent {
            wire::field_text(fields, name)
        } else {
            None
        },
        _ => None,
    }
}

/// The last text that turns learn from responses under a header name.
pub open spec fn last_named(turns: Seq<Turn>, name: Seq<char>) -> Option<Seq<char>>
    decreases turns.len(),
{
    if turns.len() == 0 {
        None
    } else {
        match named_in(turns.last(), name) {
            Some(text) => Some(text),
            None => last_named(turns.drop_last(), name),
        }
    }
}

/// However conversations take turns, the session and the protocol version are
/// those that a response named last, and what they were if none named any.
pub proof fn session_is_the_one_named_last(transport: TransportState, turns: Seq<Turn>)
    ensures
        after_turns(transport, turns).session_id == match last_named(turns, "mcp-session-id"@) {
            Some(id) => Some(id),
            None => transport.session_id,
        },
        after_turns(transport, turns).protocol_version == match last_named(
            turns,
            "mcp-protocol-version"@,
        ) {
            Some(version) => Some(version),
            None => transport.protocol_version,
        },
    decreases turns.len(),
{
    if turns.len() > 0 {
        session_is_the_one_named_last(transport, turns.drop_last());
    }
}

/// No turn names another text under `name` than `known`.
pub open spec fn none_names_another(
    turns: Seq<Turn>,
    name: Seq<char>,
    known: Option<Seq<char>>,
) -> bool {
    forall|i: int|
        0 <= i < turns.len() ==> ({
            let named = named_in(#[trigger] turns[i], name);
            named is None || named == known
        })
}

/// The session keeps its value over any turns in which no response names
/// another, and so does the protocol version.
pub proof fn session_stays_until_another_is_named(transport: TransportState, turns: Seq<Turn>)
    ensures
        none_names_another(turns, "mcp-session-id"@, transport.session_id) ==> after_turns(
            transport,
            turns,
        ).session_id == transport.session_id,
        none_names_another(turns, "mcp-protocol-version"@, transport.protocol_version)
            ==> after_turns(transport, turns).protocol_version == transport.protocol_version,
{
    session_is_the_one_named_last(transport, turns);
    if none_names_another(turns, "mcp-session-id"@, transport.session_id) {
        last_named_is_known(turns, "mcp-session-id"@, transport.session_id);
    }
    if none_names_another(turns, "mcp-protocol-version"@, transport.protocol_version) {
        last_named_is_known(turns, "mcp-protocol-version"@, transport.protocol_version);
    }
}

proof fn last_named_is_known(turns: Seq<Turn>, name: Seq<char>, known: Option<Seq<char>>)
    requires
        none_names_another(turns, name, known),
    ensures
        last_named(turns, name) is None || last_named(turns, name) == known,
    decreases turns.len(),
{
    if turns.len() > 0 {
        let before = turns.drop_last();
        assert(none_names_another(before, name, known)) by {
            assert forall|i: int| 0 <= i < before.len() implies ({
                let named = named_in(#[trigger] before[i], name);
                named is None || named == known
            }) by {
                assert(before[i] == turns[i]);
            }
        }
        last_named_is_known(before, name, known);
        assert(turns.last() == turns[turns.len() - 1]);
    }
}

/// However many exchanges take turns, messages go on to the same address.
pub proof fn exchanges_keep_the_mode(transport: TransportState, turns: Seq<Turn>)
    requires
        forall|i: int| 0 <= i < turns.len() ==> (#[trigger] turns[i]) is Exchange,
    ensures
        after_turns(transport, turns).mode == transport.mode,
        after_turns(transport, turns).target() == transport.target(),
    decreases turns.len(),
{
    what_is_learned_stays(transport, turns);
    if turns.len() > 0 {
        let before = turns.drop_last();
        assert forall|i: int| 0 <= i < before.len() implies (#[trigger] before[i]) is Exchange by {
            assert(turns[i] is Exchange);
        }
        exchanges_keep_the_mode(transport, before);
        assert(turns[turns.len() - 1] is Exchange);
    }
}

/// An event stream in response to a request is delivered whole and in order:
/// after any run, what was delivered is the data of the lines that were read.
pub proof fn stream_is_delivered_in_order(
    exchange: ExchangeState,
    met: Seq<TransportState>,
    events: Seq<EventView>,
)
    requires
        exchange.phase is Sent,
        exchange.is_request,
        events.len() > 0,
        events[0] is Responded,
        200 <= events[0]->status < 300,
        exchange::content_of(exchange::content_type(events[0]->fields)) == ContentView::Events,
        exchange_run(exchange, met, events) is Some,
    ensures
        flow::delivered(exchange_run(exchange, met, events)->0.actions) == data_of(
            flow::lines(events),
        ),
        ({
            let p = exchange_run(exchange, met, events)->0.exchange.phase;
            p is ReadingEvents || p is DeliveringEvent || p is Finished
        }),
    decreases events.len(),
{
    let before = events.drop_last();
    let actions = exchange_run(exchange, met, before)->0.actions;
    let all = exchange_run(exchange, met, events)->0.actions;
    assert(all.drop_last() =~= actions);
    assert(all.last() == all[all.len() - 1]);
    if before.len() > 0 {
        assert(before[0] == events[0]);
        stream_is_delivered_in_order(exchange, met, before);
    } else {
        assert(flow::delivered(actions) =~= Seq::empty());
        assert(flow::lines(before) =~= Seq::empty());
        assert(data_of(flow::lines(before)) =~= Seq::empty());
    }
    match events.last() {
        EventView::Line(line) => {
            if line.len() > 0 {
                assert(flow::lines(events).drop_last() =~= flow::lines(before));
            }
        },
        _ => {},
    }
}

/// What is known of a run that started with a request just sent.
spec fn sent_inv(exchange: ExchangeState, met: Seq<TransportState>, events: Seq<EventView>) -> bool {
    match exchange_run(exchange, met, events) {
        None => true,
        Some(ExchangeRun { exchange: x, left, actions }) => {
            let reports = flow::reported(actions);
            let responded = events.len() > 0 && events[0] is Responded;
            &&& x.is_request == exchange.is_request
            &&& actions.len() == events.len()
            &&& left.len() == events.len()
            &&& !exchange.is_request ==> flow::delivered(actions).len() == 0
            &&& actions.contains(ActionView::StartFallback) ==> responded && events.len() > 1
                && exchange::calls_for_fallback(events[0]->status) && met[1].mode is Standard
            &&& match x.phase {
                PhaseView::Sent => events.len() == 0,
                PhaseView::ReadingFailure(status) => responded && events.len() == 1
                    && events[0]->status == status && reports.len() == 0 && !actions.contains(
                    ActionView::StartFallback,
                ),
                PhaseView::StartingFallback(m) => responded && reports.len() == 0,
                PhaseView::Reporting(m) => responded && reports == seq![m],
                PhaseView::Finished => match actions.last() {
                    ActionView::Finish(OutcomeView::Failed(m)) => reports == seq![m] || (
                    reports.len() == 0 && events.last() == EventView::Delivered(false)),
                    ActionView::Finish(_) => reports.len() == 0,
                    _ => false,
                },
                _ => exchange.is_request && responded && reports.len() == 0,
            }
        },
    }
}

proof fn pushed_contains(actions: Seq<ActionView>, action: ActionView)
    ensures
        actions.push(action).contains(ActionView::StartFallback) <==> actions.contains(
            ActionView::StartFallback,
        ) || action == ActionView::StartFallback,
{
    let all = actions.push(action);
    if actions.contains(ActionView::StartFallback) {
        let i = choose|i: int| 0 <= i < actions.len() && actions[i] == ActionView::StartFallback;
        assert(all[i] == ActionView::StartFallback);
    }
    if action == ActionView::StartFallback {
        assert(all[actions.len() as int] == ActionView::StartFallback);
    }
}

proof fn sent_inv_holds(exchange: ExchangeState, met: Seq<TransportState>, events: Seq<EventView>)
    requires
        exchange.phase is Sent,
    ensures
        sent_inv(exchange, met, events),
    decreases events.len(),
{
    if events.len() > 0 {
        let before = events.drop_last();
        sent_inv_holds(exchange, met, before);
        match exchange_run(exchange, met, before) {
            Some(ExchangeRun { exchange: x, left, actions }) => match x.next(
                met[events.len() - 1],
                events.last(),
            ) {
                Some((y, u, action)) => {
                    pushed_contains(actions, action);
                    let all = actions.push(action);
                    assert(all.drop_last() =~= actions);
                    assert(all.last() == action);
                    if before.len() > 0 {
                        assert(before[0] == events[0]);
                    } else {
                        assert(flow::reported(actions).len() == 0);
                        assert(flow::delivered(actions).len() == 0);
                    }
                    match action {
                        ActionView::Report(m) => {
                            assert(flow::reported(actions).len() == 0);
                            assert(flow::reported(all) =~= seq![m]);
                        },
                        _ => {},
                    }
                },
                None => {},
            },
            None => {},
        }
    }
}

/// Sending a notification delivers nothing, whatever the server answers.
pub proof fn notification_delivers_nothing(
    exchange: ExchangeState,
    met: Seq<TransportState>,
    events: Seq<EventView>,
)
    requires
        exchange.phase is Sent,
        !exchange.is_request,
        exchange_run(exchange, met, events) is Some,
    ensures
        flow::delivered(exchange_run(exchange, met, events)->0.actions) == Seq::<Seq<char>>::empty(),
{
    sent_inv_holds(exchange, met, events);
}

/// A failure is reported at most once, and what was reported is what the
/// exchange fails with. Only a failure to deliver goes unreported.
pub proof fn failure_is_reported_once(
    exchange: ExchangeState,
    met: Seq<TransportState>,
    events: Seq<EventView>,
)
    requires
        exchange.phase is Sent,
        exchange_run(exchange, met, events) is Some,
    ensures
        ({
            let ExchangeRun { exchange: x, actions, .. } = exchange_run(exchange, met, events)->0;
            let reports = flow::reported(actions);
            &&& reports.len() <= 1
            &&& x.phase is Finished ==> match actions.last() {
                ActionView::Finish(OutcomeView::Failed(m)) => reports == seq![m] || events.last()
                    == EventView::Delivered(false),
                ActionView::Finish(_) => reports.len() == 0,
                _ => false,
            }
        }),
{
    sent_inv_holds(exchange, met, events);
}

/// The legacy mode is tried only where the server answered 404 or 405 and no
/// endpoint was known when the answer had been read.
pub proof fn fallback_needs_an_unknown_address(
    exchange: ExchangeState,
    met: Seq<TransportState>,
    events: Seq<EventView>,
)
    requires
        exchange.phase is Sent,
        exchange_run(exchange, met, events) is Some,
        exchange_run(exchange, met, events)->0.actions.contains(ActionView::StartFallback),
    ensures
        events.len() > 1,
        events[0] is Responded,
        events[0]->status == 404 || events[0]->status == 405,
        met[1].mode is Standard,
{
    sent_inv_holds(exchange, met, events);
}

/// One more event takes a run one step further.
proof fn run_pushed(
    exchange: ExchangeState,
    met: Seq<TransportState>,
    events: Seq<EventView>,
    event: EventView,
)
    ensures
        exchange_run(exchange, met, events.push(event)) == match exchange_run(
            exchange,
            met,
            events,
        ) {
            Some(run) => match run.exchange.next(met[events.len() as int], event) {
                Some((x, t, action)) => Some(
                    ExchangeRun {
                        exchange: x,
                        left: run.left.push(t),
                        actions: run.actions.push(action),
                    },
                ),
                None => None,
            },
            None => None,
        },
{
    assert(events.push(event).drop_last() =~= events);
}

/// Whether an exchange that is over ended as it was answered: `reports` is what
/// it reported, and `end` its last action.
pub open spec fn ended_as_answered(
    is_request: bool,
    events: Seq<EventView>,
    reports: Seq<Seq<char>>,
    end: ActionView,
) -> bool {
    match events[0] {
        EventView::Failed(_) => reports.len() == 0 && end == ActionView::Finish(
            OutcomeView::Propagated,
        ),
        EventView::Responded { status, fields } => if !(200 <= status < 300) {
            events.len() > 1 && match events[1] {
                EventView::Failed(_) => reports.len() == 0 && end == ActionView::Finish(
                    OutcomeView::Propagated,
                ),
                EventView::Body(body) => failed_with(
                    "HTTP request failed: "@ + wire::status_line(status) + " - "@
                        + exchange::body_text(body),
                    reports,
                    end,
                ),
                _ => false,
            }
        } else if !is_request {
            reports.len() == 0 && end == ActionView::Finish(OutcomeView::Done)
        } else {
            match exchange::content_of(exchange::content_type(fields)) {
                ContentView::Json => reports.len() == 0 && end == ActionView::Finish(
                    match events.last() {
                        EventView::Delivered(true) => OutcomeView::Done,
                        EventView::Delivered(false) => OutcomeView::Failed(
                            "Failed to send message to channel"@,
                        ),
                        _ => OutcomeView::Propagated,
                    },
                ) && (events.last() is Delivered || events.last() is Failed),
                ContentView::Events => reports.len() == 0 && end == ActionView::Finish(
                    match events.last() {
                        EventView::Delivered(_) => OutcomeView::Failed(
                            "Failed to send SSE data to channel"@,
                        ),
                        _ => OutcomeView::Done,
                    },
                ) && ends_a_stream(events.last()),
                ContentView::Other(t) => failed_with(
                    "Unexpected content type: expected application/json or text/event-stream, got "@
                        + t,
                    reports,
                    end,
                ),
            }
        },
        _ => false,
    }
}

/// The event ends the reading of a stream: its end, a failure to read on, or
/// data for which there is no receiver. No line that holds anything does.
pub open spec fn ends_a_stream(event: EventView) -> bool {
    match event {
        EventView::Line(line) => line.len() == 0,
        EventView::Failed(_) => true,
        EventView::Delivered(received) => !received,
        _ => false,
    }
}

/// A conversation reported `message` alone and failed with it.
pub open spec fn failed_with(
    message: Seq<char>,
    reports: Seq<Seq<char>>,
    end: ActionView,
) -> bool {
    reports == seq![message] && end == ActionView::Finish(OutcomeView::Failed(message))
}

/// What is known of an exchange that is under way, from the answer that it got.
spec fn under_way(
    exchange: ExchangeState,
    phase: PhaseView,
    events: Seq<EventView>,
    reports: Seq<Seq<char>>,
) -> bool {
    match events[0] {
        EventView::Responded { status, fields } => if !flow::success(status) {
            match phase {
                PhaseView::ReadingFailure(n) => n == status && events.len() == 1 && reports.len()
                    == 0,
                PhaseView::StartingFallback(m) => events.len() > 1 && events[1] is Body && m
                    == exchange::failure(
                    wire::status_line(status),
                    exchange::body_text(events[1]->Body_0),
                ) && reports.len() == 0,
                PhaseView::Reporting(m) => events.len() > 1 && events[1] is Body && m
                    == exchange::failure(
                    wire::status_line(status),
                    exchange::body_text(events[1]->Body_0),
                ) && reports == seq![m],
                _ => false,
            }
        } else {
            exchange.is_request && match exchange::content_of(exchange::content_type(fields)) {
                ContentView::Json => reports.len() == 0 && (phase is ReadingJson
                    || phase is DeliveringJson),
                ContentView::Events => reports.len() == 0 && (phase is ReadingEvents
                    || phase is DeliveringEvent),
                ContentView::Other(t) => phase == PhaseView::Reporting(exchange::unexpected(t))
                    && reports == seq![exchange::unexpected(t)],
            }
        },
        _ => false,
    }
}

proof fn answered_inv(exchange: ExchangeState, met: Seq<TransportState>, events: Seq<EventView>)
    requires
        exchange.phase is Sent,
        exchange_run(exchange, met, events) is Some,
    ensures
        ({
            let ExchangeRun { exchange: x, actions, .. } = exchange_run(exchange, met, events)->0;
            let reports = flow::reported(actions);
            &&& x.is_request == exchange.is_request
            &&& if events.len() == 0 {
                x == exchange
            } else if x.phase is Finished {
                ended_as_answered(exchange.is_request, events, reports, actions.last())
            } else {
                under_way(exchange, x.phase, events, reports)
            }
        }),
    decreases events.len(),
{
    if events.len() > 0 {
        let before = events.drop_last();
        answered_inv(exchange, met, before);
        let ExchangeRun { exchange: x, actions, .. } = exchange_run(exchange, met, before)->0;
        let all = exchange_run(exchange, met, events)->0.actions;
        assert(all.drop_last() =~= actions);
        if before.len() > 0 {
            assert(before[0] == events[0]);
        } else {
            assert(flow::reported(actions).len() == 0);
        }
        if before.len() > 1 {
            assert(before[1] == events[1]);
        }
        match all.last() {
            ActionView::Report(m) => {
                assert(flow::reported(actions).len() == 0);
                assert(flow::reported(all) =~= seq![m]);
            },
            _ => {},
        }
    }
}

/// How an exchange ends, and what it reports, is what its answer calls for: a
/// response that is no success and content of an unexpected type are reported
/// and are what the exchange fails with, and nothing else is reported.
pub proof fn exchange_ends_as_it_was_answered(
    exchange: ExchangeState,
    met: Seq<TransportState>,
    events: Seq<EventView>,
)
    requires
        exchange.phase is Sent,
        exchange_run(exchange, met, events) is Some,
        exchange_run(exchange, met, events)->0.exchange.phase is Finished,
    ensures
        events.len() > 0,
        ({
            let actions = exchange_run(exchange, met, events)->0.actions;
            ended_as_answered(
                exchange.is_request,
                events,
                flow::reported(actions),
                actions.last(),
            )
        }),
{
    answered_inv(exchange, met, events);
}

/// A message that meets 404 or 405 in standard mode starts the legacy mode and
/// fails all the same, with the status and the body of the response.
pub proof fn unknown_address_starts_the_fallback(
    exchange: ExchangeState,
    met: Seq<TransportState>,
    status: u16,
    fields: Fields,
    body: Seq<u8>,
)
    requires
        exchange.phase is Sent,
        status == 404 || status == 405,
        met[1].mode is Standard,
    ensures
        ({
            let events = seq![
                EventView::Responded { status, fields },
                EventView::Body(body),
                EventView::FallbackStarted,
                EventView::Reported,
            ];
            let message = exchange::failure(wire::status_line(status), exchange::body_text(body));
            exchange_run(exchange, met, events) == Some(
                ExchangeRun {
                    exchange: exchange.at(PhaseView::Finished),
                    left: seq![met[0].after_response(fields), met[1], met[2], met[3]],
                    actions: seq![
                        ActionView::ReadBody,
                        ActionView::StartFallback,
                        ActionView::Report(message),
                        ActionView::Finish(OutcomeView::Failed(message)),
                    ],
                },
            )
        }),
{
    let e0 = Seq::<EventView>::empty();
    let e1 = e0.push(EventView::Responded { status, fields });
    let e2 = e1.push(EventView::Body(body));
    let e3 = e2.push(EventView::FallbackStarted);
    run_pushed(exchange, met, e0, EventView::Responded { status, fields });
    run_pushed(exchange, met, e1, EventView::Body(body));
    run_pushed(exchange, met, e2, EventView::FallbackStarted);
    run_pushed(exchange, met, e3, EventView::Reported);
    let message = exchange::failure(wire::status_line(status), exchange::body_text(body));
    let events = seq![
        EventView::Responded { status, fields },
        EventView::Body(body),
        EventView::FallbackStarted,
        EventView::Reported,
    ];
    assert(events =~= e3.push(EventView::Reported));
    let run = exchange_run(exchange, met, events)->0;
    assert(run.left =~= seq![met[0].after_response(fields), met[1], met[2], met[3]]);
    assert(run.actions =~= seq![
        ActionView::ReadBody,
        ActionView::StartFallback,
        ActionView::Report(message),
        ActionView::Finish(OutcomeView::Failed(message)),
    ]);
}

/// Where a message can be built in standard mode, a legacy connection can be
/// opened: the fallback for a message that was sent never fails to start.
pub proof fn fallback_of_a_sent_message_opens(t: TransportState, length: nat)
    requires
        t.mode is Standard,
        t.post(urls::url_text(t.target()), length) is Ok,
    ensures
        sse::open_head(urls::url_text(t.base_url)) is Ok,
{
}

/// A JSON response to a request is delivered whole, as one message, and the
/// session of the response is taken over.
pub proof fn json_response_is_delivered(
    exchange: ExchangeState,
    met: Seq<TransportState>,
    status: u16,
    fields: Fields,
    body: Seq<u8>,
)
    requires
        exchange.phase is Sent,
        exchange.is_request,
        200 <= status < 300,
        exchange::content_of(exchange::content_type(fields)) is Json,
    ensures
        ({
            let events = seq![
                EventView::Responded { status, fields },
                EventView::Body(body),
                EventView::Delivered(true),
            ];
            exchange_run(exchange, met, events) == Some(
                ExchangeRun {
                    exchange: exchange.at(PhaseView::Finished),
                    left: seq![met[0].after_response(fields), met[1], met[2]],
                    actions: seq![
                        ActionView::ReadBody,
                        ActionView::Deliver(exchange::body_text(body)),
                        ActionView::Finish(OutcomeView::Done),
                    ],
                },
            )
        }),
{
    let e0 = Seq::<EventView>::empty();
    let e1 = e0.push(EventView::Responded { status, fields });
    let e2 = e1.push(EventView::Body(body));
    run_pushed(exchange, met, e0, EventView::Responded { status, fields });
    run_pushed(exchange, met, e1, EventView::Body(body));
    run_pushed(exchange, met, e2, EventView::Delivered(true));
    let events = seq![
        EventView::Responded { status, fields },
        EventView::Body(body),
        EventView::Delivered(true),
    ];
    assert(events =~= e2.push(EventView::Delivered(true)));
    let run = exchange_run(exchange, met, events)->0;
    assert(run.left =~= seq![met[0].after_response(fields), met[1], met[2]]);
    assert(run.actions =~= seq![
        ActionView::ReadBody,
        ActionView::Deliver(exchange::body_text(body)),
        ActionView::Finish(OutcomeView::Done),
    ]);
}

/// An exchange or a connection that is over takes no more events.
pub proof fn finished_takes_no_events(
    exchange: ExchangeState,
    connection: SseState,
    transport: TransportState,
    event: EventView,
)
    requires
        exchange.phase is Finished,
        connection is Finished,
    ensures
        exchange.next(transport, event) is None,
        connection.next(transport, event) is None,
{
}

/// The endpoint that an event of a legacy connection announces.
pub open spec fn announced_by(event: EventView) -> Option<Url> {
    match event {
        EventView::Line(line) => match sse::line_data(line) {
            Some(data) => sse::announced(data),
            None => None,
        },
        _ => None,
    }
}

/// On a legacy connection every event that announces no endpoint is delivered,
/// in order and nothing else, and an announcement does nothing but redirect the
/// transport.
pub proof fn legacy_stream_is_delivered_in_order(met: Seq<TransportState>, events: Seq<EventView>)
    requires
        sse_run(SseState::Connecting, met, events) is Some,
    ensures
        ({
            let SseRun { left, actions, .. } = sse_run(SseState::Connecting, met, events)->0;
            &&& flow::delivered(actions) == messages_of(data_of(flow::lines(events)))
            &&& left.len() == events.len()
            &&& forall|i: int|
                0 <= i < left.len() ==> #[trigger] left[i] == match announced_by(events[i]) {
                    Some(endpoint) => met[i].with_endpoint(endpoint),
                    None => met[i],
                }
        }),
    decreases events.len(),
{
    if events.len() > 0 {
        let before = events.drop_last();
        legacy_stream_is_delivered_in_order(met, before);
        let SseRun { left: held, actions, .. } = sse_run(SseState::Connecting, met, before)->0;
        let SseRun { left, actions: all, .. } = sse_run(SseState::Connecting, met, events)->0;
        assert(all.drop_last() =~= actions);
        match events.last() {
            EventView::Line(line) => {
                if line.len() > 0 {
                    assert(flow::lines(events).drop_last() =~= flow::lines(before));
                    match sse::line_data(line) {
                        Some(data) => {
                            assert(data_of(flow::lines(events)).drop_last() =~= data_of(
                                flow::lines(before),
                            ));
                        },
                        None => {},
                    }
                } else {
                    end_carries_nothing(line);
                }
            },
            _ => {},
        }
        assert forall|i: int| 0 <= i < left.len() implies #[trigger] left[i] == match announced_by(
            events[i],
        ) {
            Some(endpoint) => met[i].with_endpoint(endpoint),
            None => met[i],
        } by {
            if i < held.len() {
                assert(left[i] == held[i]);
                assert(events[i] == before[i]);
            }
        }
    } else {
        assert(flow::lines(events) =~= Seq::empty());
        assert(data_of(flow::lines(events)) =~= Seq::empty());
    }
}

proof fn end_carries_nothing(line: Seq<char>)
    requires
        line.len() == 0,
    ensures
        sse::line_data(line) is None,
{
    reveal_strlit("data: ");
    assert("data: "@.len() == 6);
}

/// What a legacy connection reports and how it ends: a response that is no
/// success is reported, once, and is what the connection fails with; a request
/// that cannot be sent is not reported; otherwise nothing is reported, and the
/// connection ends well and not before its stream does.
pub proof fn legacy_failure_is_reported_once(met: Seq<TransportState>, events: Seq<EventView>)
    requires
        sse_run(SseState::Connecting, met, events) is Some,
    ensures
        ({
            let SseRun { connection, actions, .. } = sse_run(SseState::Connecting, met, events)->0;
            let reports = flow::reported(actions);
            &&& reports.len() <= 1
            &&& events.len() == 0 ==> connection is Connecting && reports.len() == 0
            &&& events.len() > 0 ==> match events[0] {
                EventView::Failed(t) => {
                    &&& connection is Finished
                    &&& reports.len() == 0
                    &&& actions.last() == ActionView::Finish(
                        OutcomeView::Failed("SSE connection failed: "@ + t),
                    )
                },
                EventView::Responded { status, .. } => if 200 <= status < 300 {
                    &&& reports.len() == 0
                    &&& connection is Reading || connection is Delivering || connection is Finished
                    &&& connection is Finished ==> actions.last() == ActionView::Finish(
                        OutcomeView::Done,
                    ) && ends_a_stream(events.last())
                } else {
                    let message = "SSE connection failed with status: "@ + wire::status_line(
                        status,
                    );
                    &&& reports == seq![message]
                    &&& connection == SseState::Reporting(message) || connection is Finished
                    &&& connection is Finished ==> failed_with(message, reports, actions.last())
                },
                _ => false,
            }
        }),
    decreases events.len(),
{
    if events.len() > 0 {
        let before = events.drop_last();
        legacy_failure_is_reported_once(met, before);
        let actions = sse_run(SseState::Connecting, met, before)->0.actions;
        let all = sse_run(SseState::Connecting, met, events)->0.actions;
        assert(all.drop_last() =~= actions);
        if before.len() > 0 {
            assert(before[0] == events[0]);
        }
        match all.last() {
            ActionView::Report(m) => {
                assert(flow::reported(all) =~= seq![m]);
            },
            _ => {},
        }
    }
}

/// The transport that a legacy connection meets at each event is the one that
/// it left, but for what exchanges change.
pub open spec fn met_where_left(met: Seq<TransportState>, left: Seq<TransportState>) -> bool {
    forall|i: int|
        0 < i < left.len() ==> (#[trigger] met[i]).mode == left[i - 1].mode && met[i].base_url
            == left[i - 1].base_url
}

/// After a legacy connection announced endpoints, the transport is in legacy
/// mode with the last of them, whatever exchanges take place meanwhile, and
/// messages go there; before that the mode is what it was, and messages go
/// where they went.
pub proof fn messages_go_where_the_server_announced(
    met: Seq<TransportState>,
    events: Seq<EventView>,
)
    requires
        events.len() > 0,
        sse_run(SseState::Connecting, met, events) is Some,
        met_where_left(met, sse_run(SseState::Connecting, met, events)->0.left),
    ensures
        ({
            let t = sse_run(SseState::Connecting, met, events)->0.left.last();
            match last_announced(data_of(flow::lines(events))) {
                Some(endpoint) => t.mode == (TransportMode::LegacySse { endpoint }) && t.target()
                    == endpoint,
                None => t.mode == met[0].mode && t.target() == met[0].target(),
            }
        }),
    decreases events.len(),
{
    let before = events.drop_last();
    let left = sse_run(SseState::Connecting, met, events)->0.left;
    let held = sse_run(SseState::Connecting, met, before)->0.left;
    legacy_stream_is_delivered_in_order(met, events);
    legacy_stream_is_delivered_in_order(met, before);
    assert(left.drop_last() =~= held);
    let last = events.len() - 1;
    assert(left[last] == left.last());
    if before.len() > 0 {
        assert forall|i: int| 0 < i < held.len() implies (#[trigger] met[i]).mode == held[i - 1].mode
            && met[i].base_url == held[i - 1].base_url by {
            assert(held[i - 1] == left[i - 1]);
        }
        messages_go_where_the_server_announced(met, before);
        assert(held.last() == left[last - 1]);
        assert(met[last].target() == held.last().target());
    } else {
        assert(flow::lines(before) =~= Seq::empty());
        assert(data_of(flow::lines(before)) =~= Seq::empty());
        assert(last_announced(data_of(flow::lines(before))) is None);
    }
    match events.last() {
        EventView::Line(line) => {
            if line.len() > 0 {
                assert(flow::lines(events).drop_last() =~= flow::lines(before));
                match sse::line_data(line) {
                    Some(data) => {
                        assert(data_of(flow::lines(events)).drop_last() =~= data_of(
                            flow::lines(before),
                        ));
                    },
                    None => {},
                }
            } else {
                end_carries_nothing(line);
            }
        },
        _ => {},
    }
}

/// Blank lines and comments carry no data.
pub proof fn blank_lines_and_comments_carry_nothing(line: Seq<char>)
    requires
        text::trimmed(line).len() == 0 || text::trimmed(line)[0] == ':',
    ensures
        sse::line_data(line) is None,
{
    reveal_strlit("data: ");
    if "data: "@.is_prefix_of(text::trimmed(line)) {
        assert("data: "@.len() == 6);
        assert("data: "@[0] == 'd');
        assert(text::trimmed(line).subrange(0, 6)[0] == text::trimmed(line)[0]);
    }
}

/// A data line gives back the data that was written on it, if that does not end
/// in white space.
pub proof fn written_data_is_read_back(data: Seq<char>)
    requires
        data.len() > 0,
        !text::white_space(data.last()),
    ensures
        sse::line_data("data: "@ + data + "\n"@) == Some(data),
{
    reveal_strlit("data: ");
    reveal_strlit("\n");
    let core = "data: "@ + data;
    let line = core + "\n"@;
    assert("data: "@.len() == 6);
    assert("\n"@.len() == 1);
    assert(line.first() == 'd');
    assert(text::without_leading(line) == line);
    assert(line.last() == '\n');
    assert(line.drop_last() =~= core);
    assert(core.last() == data.last());
    assert(text::without_trailing(core) == core);
    assert(text::trimmed(line) == core);
    assert(core.subrange(0, 6) =~= "data: "@);
    assert(core.skip(6) =~= data);
}

/// An exchange takes every event that can come of what it asked for last, and
/// no other; at first it takes a response or the failure to get one.
pub proof fn exchange_takes_every_answer(
    exchange: ExchangeState,
    met: Seq<TransportState>,
    events: Seq<EventView>,
    transport: TransportState,
    event: EventView,
)
    requires
        exchange.phase is Sent,
        exchange_run(exchange, met, events) is Some,
    ensures
        ({
            let ExchangeRun { exchange: x, actions, .. } = exchange_run(exchange, met, events)->0;
            x.next(transport, event) is Some <==> if events.len() == 0 {
                event is Responded || event is Failed
            } else {
                flow::answers(actions.last(), event)
            }
        }),
{
    sent_inv_holds(exchange, met, events);
    if events.len() > 0 {
        let before = events.drop_last();
        sent_inv_holds(exchange, met, before);
        let run = exchange_run(exchange, met, before)->0;
        let last = exchange_run(exchange, met, events)->0;
        let action = last.actions.last();
        assert(last.actions =~= run.actions.push(action));
    }
}

/// A legacy connection takes every event that can come of what it asked for
/// last, and no other; at first it takes a response or the failure to get one.
pub proof fn connection_takes_every_answer(
    met: Seq<TransportState>,
    events: Seq<EventView>,
    transport: TransportState,
    event: EventView,
)
    requires
        sse_run(SseState::Connecting, met, events) is Some,
    ensures
        ({
            let SseRun { connection, actions, .. } = sse_run(SseState::Connecting, met, events)->0;
            connection.next(transport, event) is Some <==> if events.len() == 0 {
                event is Responded || event is Failed
            } else {
                flow::answers(actions.last(), event)
            }
        }),
{
    legacy_failure_is_reported_once(met, events);
    if events.len() > 0 {
        let before = events.drop_last();
        let run = sse_run(SseState::Connecting, met, before)->0;
        let last = sse_run(SseState::Connecting, met, events)->0;
        let action = last.actions.last();
        assert(last.actions =~= run.actions.push(action));
    }
}

/// The only event of an exchange that the transport learns from is the
/// response, whatever its status; the others leave it as they find it.
pub proof fn exchange_learns_from_its_response_only(
    exchange: ExchangeState,
    met: Seq<TransportState>,
    events: Seq<EventView>,
)
    requires
        exchange.phase is Sent,
        exchange_run(exchange, met, events) is Some,
    ensures
        ({
            let left = exchange_run(exchange, met, events)->0.left;
            &&& left.len() == events.len()
            &&& forall|i: int|
                0 <= i < left.len() ==> #[trigger] left[i] == match events[i] {
                    EventView::Responded { fields, .. } => met[i].after_response(fields),
                    _ => met[i],
                }
        }),
    decreases events.len(),
{
    if events.len() > 0 {
        let before = events.drop_last();
        exchange_learns_from_its_response_only(exchange, met, before);
        let held = exchange_run(exchange, met, before)->0.left;
        let left = exchange_run(exchange, met, events)->0.left;
        assert forall|i: int| 0 <= i < left.len() implies #[trigger] left[i] == match events[i] {
            EventView::Responded { fields, .. } => met[i].after_response(fields),
            _ => met[i],
        } by {
            if i < held.len() {
                assert(left[i] == held[i]);
                assert(events[i] == before[i]);
            }
        }
    }
}

/// A notification is done as soon as the server accepts it, whatever content
/// the response has.
pub proof fn accepted_notification_is_done(
    exchange: ExchangeState,
    transport: TransportState,
    status: u16,
    fields: Fields,
)
    requires
        exchange.phase is Sent,
        !exchange.is_request,
        200 <= status < 300,
    ensures
        exchange.next(transport, EventView::Responded { status, fields }) == Some(
            (
                exchange.at(PhaseView::Finished),
                transport.after_response(fields),
                ActionView::Finish(OutcomeView::Done),
            ),
        ),
{
}

/// While a response stream is read, data is delivered whole, and a line that is
/// no data line is passed over.
pub proof fn stream_lines_are_read_on(
    exchange: ExchangeState,
    transport: TransportState,
    line: Seq<char>,
    data: Seq<char>,
)
    requires
        exchange.phase is ReadingEvents,
        line.len() > 0,
    ensures
        text::trimmed(line) == "data: "@ + data ==> exchange.next(transport, EventView::Line(line))
            == Some(
            (exchange.at(PhaseView::DeliveringEvent), transport, ActionView::Deliver(data)),
        ),
        !"data: "@.is_prefix_of(text::trimmed(line)) ==> exchange.next(
            transport,
            EventView::Line(line),
        ) == Some((exchange, transport, ActionView::ReadLine)),
{
    sse::data_stands_behind_its_field_name(line, data);
}

} // verus!
