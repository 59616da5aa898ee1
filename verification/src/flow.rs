//! What a conversation with a server asks to be done, and what it is told.

use http::header::HeaderMap;
use http::StatusCode;
use vstd::prelude::*;

use crate::wire;
use crate::wire::Fields;

verus! {

/// What was done on behalf of a conversation.
pub enum Event {
    /// The request was answered.
    Responded { status: StatusCode, headers: HeaderMap },
    /// Sending or reading failed; the text says how.
    Failed(String),
    /// The whole body was read.
    Body(Vec<u8>),
    /// A line was read, its end included; at the end of the body it is empty.
    Line(String),
    /// A message was handed to the channel, or there was no receiver for it.
    Delivered(bool),
    /// An error message was handed to the error channel.
    Reported,
    /// A legacy connection was started.
    FallbackStarted,
}

/// What a conversation asks to be done next.
pub enum Action {
    /// Read the whole body of the response.
    ReadBody,
    /// Read the next line of the response.
    ReadLine,
    /// Hand a message to the channel.
    Deliver(String),
    /// Hand a message to the error channel, as far as that is possible.
    Report(String),
    /// Start a legacy connection beside this conversation.
    StartFallback,
    /// The conversation is over.
    Finish(Outcome),
}

/// How a conversation ended.
pub enum Outcome {
    /// Nothing went wrong.
    Done,
    /// The error of the last event is the conversation's error.
    Propagated,
    /// The conversation failed; the text says how.
    Failed(String),
}

/// The model of an `Event`.
pub enum EventView {
    Responded { status: u16, fields: Fields },
    Failed(Seq<char>),
    Body(Seq<u8>),
    Line(Seq<char>),
    Delivered(bool),
    Reported,
    FallbackStarted,
}

/// The model of an `Action`.
pub enum ActionView {
    ReadBody,
    ReadLine,
    Deliver(Seq<char>),
    Report(Seq<char>),
    StartFallback,
    Finish(OutcomeView),
}

/// The model of an `Outcome`.
pub enum OutcomeView {
    Done,
    Propagated,
    Failed(Seq<char>),
}

impl View for Event {
    type V = EventView;

    open spec fn view(&self) -> EventView {
        match self {
            Event::Responded { status, headers } => EventView::Responded {
                status: wire::status_number(*status),
                fields: wire::map_fields(*headers),
            },
            Event::Failed(t) => EventView::Failed(t@),
            Event::Body(b) => EventView::Body(b@),
            Event::Line(l) => EventView::Line(l@),
            Event::Delivered(b) => EventView::Delivered(*b),
            Event::Reported => EventView::Reported,
            Event::FallbackStarted => EventView::FallbackStarted,
        }
    }
}

impl View for Outcome {
    type V = OutcomeView;

    open spec fn view(&self) -> OutcomeView {
        match self {
            Outcome::Done => OutcomeView::Done,
            Outcome::Propagated => OutcomeView::Propagated,
            Outcome::Failed(t) => OutcomeView::Failed(t@),
        }
    }
}

impl View for Action {
    type V = ActionView;

    open spec fn view(&self) -> ActionView {
        match self {
            Action::ReadBody => ActionView::ReadBody,
            Action::ReadLine => ActionView::ReadLine,
            Action::Deliver(t) => ActionView::Deliver(t@),
            Action::Report(t) => ActionView::Report(t@),
            Action::StartFallback => ActionView::StartFallback,
            Action::Finish(o) => ActionView::Finish(o@),
        }
    }
}

/// A status from 200 to 299.
pub open spec fn success(status: u16) -> bool {
    200 <= status < 300
}

/// The messages that a list of actions delivers, in order.
pub open spec fn delivered(actions: Seq<ActionView>) -> Seq<Seq<char>>
    decreases actions.len(),
{
    if actions.len() == 0 {
        Seq::empty()
    } else {
        match actions.last() {
            ActionView::Deliver(message) => delivered(actions.drop_last()).push(message),
            _ => delivered(actions.drop_last()),
        }
    }
}

/// The error messages that a list of actions reports, in order.
pub open spec fn reported(actions: Seq<ActionView>) -> Seq<Seq<char>>
    decreases actions.len(),
{
    if actions.len() == 0 {
        Seq::empty()
    } else {
        match actions.last() {
            ActionView::Report(message) => reported(actions.drop_last()).push(message),
            _ => reported(actions.drop_last()),
        }
    }
}

/// The lines that a list of events brings, in order, without the empty ones
/// that stand for the end.
pub open spec fn lines(events: Seq<EventView>) -> Seq<Seq<char>>
    decreases events.len(),
{
    if events.len() == 0 {
        Seq::empty()
    } else {
        match events.last() {
            EventView::Line(line) => if line.len() > 0 {
                lines(events.drop_last()).push(line)
            } else {
                lines(events.drop_last())
            },
            _ => lines(events.drop_last()),
        }
    }
}

/// The model of an action shows the whole text of it, and which action it is.
pub proof fn actions_show_their_text(message: String)
    ensures
        Action::Deliver(message)@ == ActionView::Deliver(message@),
        Action::Report(message)@ == ActionView::Report(message@),
        Action::Finish(Outcome::Failed(message))@ == ActionView::Finish(
            OutcomeView::Failed(message@),
        ),
        Action::Finish(Outcome::Done)@ == ActionView::Finish(OutcomeView::Done),
        Action::Finish(Outcome::Propagated)@ == ActionView::Finish(OutcomeView::Propagated),
        Action::ReadBody@ is ReadBody,
        Action::ReadLine@ is ReadLine,
        Action::StartFallback@ is StartFallback,
{
}

/// The model of an event shows all that the event brought.
pub proof fn events_show_what_they_brought(
    status: StatusCode,
    headers: HeaderMap,
    message: String,
    bytes: Vec<u8>,
    received: bool,
)
    ensures
        (Event::Responded { status, headers })@ == (EventView::Responded {
            status: wire::status_number(status),
            fields: wire::map_fields(headers),
        }),
        Event::Failed(message)@ == EventView::Failed(message@),
        Event::Line(message)@ == EventView::Line(message@),
        Event::Body(bytes)@ == EventView::Body(bytes@),
        Event::Delivered(received)@ == EventView::Delivered(received),
        Event::Reported@ is Reported,
        Event::FallbackStarted@ is FallbackStarted,
{
}

/// The event is what can come of an action that was asked for.
pub open spec fn answers(action: ActionView, event: EventView) -> bool {
    match action {
        ActionView::ReadBody => event is Body || event is Failed,
        ActionView::ReadLine => event is Line || event is Failed,
        ActionView::Deliver(_) => event is Delivered,
        ActionView::Report(_) => event is Reported,
        ActionView::StartFallback => event is FallbackStarted,
        ActionView::Finish(_) => false,
    }
}

} // verus!
