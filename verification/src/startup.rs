//! Starting a context server: create a client, register the handlers of
//! notifications, and only then initialize.

use std::sync::Arc;
use vstd::prelude::*;

use crate::server;
use crate::server::{ClientPlan, ContextServer, ServerState};

verus! {

/// How the client introduces itself.
pub struct Implementation {
    pub name: String,
    pub version: String,
}

/// What was done on behalf of a startup. `P` is what an initialized connection
/// is.
pub enum StartEvent<P> {
    /// The client was created.
    ClientCreated,
    /// The handler was registered.
    HandlerRegistered,
    /// The connection was initialized.
    Initialized(Arc<P>),
    /// Creating the client or initializing the connection failed.
    Failed,
}

/// What a startup asks to be done next.
pub enum StartAction {
    /// Register the handler at this place in the list.
    RegisterHandler(usize),
    /// Initialize the connection.
    Initialize(Implementation),
    /// The server is started.
    Done,
    /// The error of the last event is the startup's error.
    Propagated,
}

/// The model of a `StartAction`.
pub enum StartActionView {
    RegisterHandler(int),
    Initialize { name: Seq<char>, version: Seq<char> },
    Done,
    Propagated,
}

impl View for StartAction {
    type V = StartActionView;

    open spec fn view(&self) -> StartActionView {
        match self {
            StartAction::RegisterHandler(i) => StartActionView::RegisterHandler(*i as int),
            StartAction::Initialize(info) => StartActionView::Initialize {
                name: info.name@,
                version: info.version@,
            },
            StartAction::Done => StartActionView::Done,
            StartAction::Propagated => StartActionView::Propagated,
        }
    }
}

/// How far a startup has come.
enum Phase {
    Creating,
    Registering { current: usize },
    Initializing,
    Finished,
}

/// The model of how far a startup has come.
pub enum StartPhase {
    /// The client is being created.
    Creating,
    /// The handler at this place is being registered.
    Registering(int),
    /// The connection is being initialized.
    Initializing,
    /// The startup is over.
    Finished,
}

/// The starting of a context server.
pub struct Startup {
    handlers: usize,
    version: String,
    phase: Phase,
}

/// The model of a `Startup`.
pub struct StartupState {
    pub handlers: int,
    pub version: Seq<char>,
    pub phase: StartPhase,
}

impl View for Startup {
    type V = StartupState;

    closed spec fn view(&self) -> StartupState {
        StartupState {
            handlers: self.handlers as int,
            version: self.version@,
            phase: match self.phase {
                Phase::Creating => StartPhase::Creating,
                Phase::Registering { current } => StartPhase::Registering(current as int),
                Phase::Initializing => StartPhase::Initializing,
                Phase::Finished => StartPhase::Finished,
            },
        }
    }
}

impl StartupState {
    /// The startup in another phase.
    pub open spec fn at(self, phase: StartPhase) -> StartupState {
        StartupState { phase, ..self }
    }

    /// The startup once the first `done` handlers are registered, and what to
    /// do then.
    pub open spec fn proceed(self, done: int) -> (StartupState, StartActionView) {
        if done < self.handlers {
            (self.at(StartPhase::Registering(done)), StartActionView::RegisterHandler(done))
        } else {
            (
                self.at(StartPhase::Initializing),
                StartActionView::Initialize { name: "Zed"@, version: self.version },
            )
        }
    }

    /// What happens on an event: the state afterwards, the connection that the
    /// server has then, and what to do next. Nothing happens on an event that
    /// the startup does not wait for.
    pub open spec fn next<P>(self, client: Option<Arc<P>>, event: StartEvent<P>) -> Option<
        (StartupState, Option<Arc<P>>, StartActionView),
    > {
        match (self.phase, event) {
            (StartPhase::Creating, StartEvent::ClientCreated) => {
                let (state, action) = self.proceed(0);
                Some((state, client, action))
            },
            (StartPhase::Creating, StartEvent::Failed) => Some(
                (self.at(StartPhase::Finished), client, StartActionView::Propagated),
            ),
            (StartPhase::Registering(current), StartEvent::HandlerRegistered) => {
                let (state, action) = self.proceed(current + 1);
                Some((state, client, action))
            },
            (StartPhase::Initializing, StartEvent::Initialized(protocol)) => Some(
                (self.at(StartPhase::Finished), Some(protocol), StartActionView::Done),
            ),
            (StartPhase::Initializing, StartEvent::Failed) => Some(
                (self.at(StartPhase::Finished), client, StartActionView::Propagated),
            ),
            _ => None,
        }
    }
}

impl<P, T: ?Sized> ContextServer<P, T> {
    /// Starts the context server: the client to create first. `version` is the
    /// version that the client introduces itself with.
    pub fn start(&self, version: String) -> (r: (Startup, ClientPlan<T>))
        ensures
            r.0@ == (StartupState {
                handlers: 0,
                version: version@,
                phase: StartPhase::Creating,
            }),
            server::planned(self@.id, self@.configuration, r.1),
    {
        self.start_with_handlers(0, version)
    }

    /// Starts the context server, making sure handlers are registered before
    /// initialization happens: the client to create first. `handlers` is how
    /// many there are.
    pub fn start_with_handlers(&self, handlers: usize, version: String) -> (r: (
        Startup,
        ClientPlan<T>,
    ))
        ensures
            r.0@ == (StartupState {
                handlers: handlers as int,
                version: version@,
                phase: StartPhase::Creating,
            }),
            server::planned(self@.id, self@.configuration, r.1),
    {
        let plan = self.new_client();
        (Startup { handlers, version, phase: Phase::Creating }, plan)
    }
}

impl Startup {
    #[verifier::type_invariant]
    spec fn in_range(self) -> bool {
        self.phase matches Phase::Registering { current } ==> current < self.handlers
    }

    fn at(self, phase: Phase) -> (r: Startup)
        requires
            phase matches Phase::Registering { current } ==> current < self.handlers,
        ensures
            r.handlers == self.handlers,
            r.version == self.version,
            r.phase == phase,
    {
        Startup { handlers: self.handlers, version: self.version, phase }
    }

    fn proceed(self, done: usize) -> (r: (Startup, StartAction))
        ensures
            (r.0@, r.1@) == self@.proceed(done as int),
    {
        if done < self.handlers {
            (self.at(Phase::Registering { current: done }), StartAction::RegisterHandler(done))
        } else {
            let info = Implementation { name: "Zed".to_string(), version: self.version.clone() };
            (self.at(Phase::Initializing), StartAction::Initialize(info))
        }
    }

    /// Takes an event and says what to do next. The server keeps an
    /// initialized connection. Of an event that the startup does not wait for,
    /// nothing comes.
    pub fn step<P, T: ?Sized>(
        self,
        server: &mut ContextServer<P, T>,
        event: StartEvent<P>,
    ) -> (r: Option<(Startup, StartAction)>)
        ensures
            match self@.next(old(server)@.client, event) {
                Some((state, client, action)) => r matches Some((s, a)) && s@ == state && a@
                    == action && final(server)@ == (ServerState {
                    client,
                    ..old(server)@
                }),
                None => r is None && final(server)@ == old(server)@,
            },
    {
        proof {
            use_type_invariant(&self);
        }
        match (&self.phase, event) {
            (Phase::Creating, StartEvent::ClientCreated) => Some(self.proceed(0)),
            (Phase::Creating, StartEvent::Failed) => Some(
                (self.at(Phase::Finished), StartAction::Propagated),
            ),
            (Phase::Registering { current }, StartEvent::HandlerRegistered) => {
                let done: usize = *current + 1;
                Some(self.proceed(done))
            },
            (Phase::Initializing, StartEvent::Initialized(protocol)) => {
                server.initialize(protocol);
                Some((self.at(Phase::Finished), StartAction::Done))
            },
            (Phase::Initializing, StartEvent::Failed) => Some(
                (self.at(Phase::Finished), StartAction::Propagated),
            ),
            _ => None,
        }
    }
}

/// What became of a startup, of the server's connection and of the actions
/// asked for.
pub struct StartRun<P> {
    pub startup: StartupState,
    pub client: Option<Arc<P>>,
    pub actions: Seq<StartActionView>,
}

/// Where a startup and the server's connection are after a list of events, and
/// the actions that were asked for; nothing, if one of the events was not
/// waited for.
pub open spec fn start_run<P>(
    startup: StartupState,
    client: Option<Arc<P>>,
    events: Seq<StartEvent<P>>,
) -> Option<StartRun<P>>
    decreases events.len(),
{
    if events.len() == 0 {
        Some(StartRun { startup, client, actions: Seq::empty() })
    } else {
        match start_run(startup, client, events.drop_last()) {
            Some(run) => match run.startup.next(run.client, events.last()) {
                Some((s, c, action)) => Some(
                    StartRun { startup: s, client: c, actions: run.actions.push(action) },
                ),
                None => None,
            },
            None => None,
        }
    }
}

/// The first `count` actions register the handlers in order.
pub open spec fn registers(actions: Seq<StartActionView>, count: int) -> bool {
    &&& count <= actions.len()
    &&& forall|i: int|
        0 <= i < count ==> #[trigger] actions[i] == StartActionView::RegisterHandler(i)
}

spec fn start_inv<P>(
    startup: StartupState,
    client: Option<Arc<P>>,
    events: Seq<StartEvent<P>>,
) -> bool {
    match start_run(startup, client, events) {
        None => true,
        Some(StartRun { startup: s, client: c, actions }) => {
            let n = startup.handlers;
            &&& s.handlers == n && s.version == startup.version
            &&& actions.len() == events.len()
            &&& forall|i: int|
                0 <= i < actions.len() && (#[trigger] actions[i]) is Initialize ==> i == n
                    && registers(actions, n)
            &&& match s.phase {
                StartPhase::Creating => actions.len() == 0 && c == client,
                StartPhase::Registering(current) => 0 <= current < n && actions.len() == current + 1
                    && registers(actions, current + 1) && c == client,
                StartPhase::Initializing => actions.len() == n + 1 && registers(actions, n)
                    && actions[n] is Initialize && c == client,
                StartPhase::Finished => actions.len() > 0 && match actions.last() {
                    StartActionView::Done => actions.len() == n + 2 && registers(actions, n)
                        && actions[n] is Initialize && (c matches Some(p) && events.last()
                        == StartEvent::Initialized(p)),
                    StartActionView::Propagated => c == client,
                    _ => false,
                },
            }
        },
    }
}

proof fn start_inv_holds<P>(
    startup: StartupState,
    client: Option<Arc<P>>,
    events: Seq<StartEvent<P>>,
)
    requires
        startup.phase is Creating,
        startup.handlers >= 0,
    ensures
        start_inv(startup, client, events),
    decreases events.len(),
{
    if events.len() > 0 {
        let before = events.drop_last();
        start_inv_holds(startup, client, before);
        match start_run(startup, client, before) {
            Some(StartRun { startup: s, client: c, actions }) => match s.next(c, events.last()) {
                Some((u, d, action)) => {
                    let all = actions.push(action);
                    let n = startup.handlers;
                    assert(all.last() == action);
                    assert forall|i: int|
                        0 <= i < all.len() && (#[trigger] all[i]) is Initialize implies i == n
                        && registers(all, n) by {
                        if i < actions.len() {
                            assert(actions[i] is Initialize);
                        }
                    }
                },
                None => {},
            },
            None => {},
        }
    }
}

/// Handlers are registered before initialization happens: when a startup asks
/// to initialize, it has asked to register each handler, in order, and nothing
/// else.
pub proof fn handlers_come_before_initialization<P>(
    startup: StartupState,
    client: Option<Arc<P>>,
    events: Seq<StartEvent<P>>,
    at: int,
)
    requires
        startup.phase is Creating,
        startup.handlers >= 0,
        start_run(startup, client, events) is Some,
        0 <= at < start_run(startup, client, events)->0.actions.len(),
        start_run(startup, client, events)->0.actions[at] is Initialize,
    ensures
        at == startup.handlers,
        registers(start_run(startup, client, events)->0.actions, startup.handlers),
{
    start_inv_holds(startup, client, events);
}

/// The server has a new connection exactly if its startup is done; a startup
/// that fails leaves the connection as it was.
pub proof fn only_a_finished_startup_connects<P>(
    startup: StartupState,
    client: Option<Arc<P>>,
    events: Seq<StartEvent<P>>,
)
    requires
        startup.phase is Creating,
        startup.handlers >= 0,
        start_run(startup, client, events) is Some,
    ensures
        ({
            let run = start_run(startup, client, events)->0;
            if run.actions.len() > 0 && run.actions.last() is Done {
                run.client matches Some(p) && events.last() == StartEvent::Initialized(p)
            } else {
                run.client == client
            }
        }),
{
    start_inv_holds(startup, client, events);
}

/// What is done to a server: a turn of one of its startups, or a stop.
pub enum Deed<P> {
    Turn(StartupState, StartEvent<P>),
    Stop,
}

/// The connection of a server after a deed.
pub open spec fn after_deed<P>(client: Option<Arc<P>>, deed: Deed<P>) -> Option<Arc<P>> {
    match deed {
        Deed::Turn(startup, event) => match startup.next(client, event) {
            Some((_, c, _)) => c,
            None => client,
        },
        Deed::Stop => None,
    }
}

/// The connection of a server after a list of deeds.
pub open spec fn after_deeds<P>(client: Option<Arc<P>>, deeds: Seq<Deed<P>>) -> Option<Arc<P>>
    decreases deeds.len(),
{
    if deeds.len() == 0 {
        client
    } else {
        after_deed(after_deeds(client, deeds.drop_last()), deeds.last())
    }
}

/// The connection of a start that succeeds with a deed: the startup says that
/// the server is started.
pub open spec fn started_by<P>(deed: Deed<P>) -> Option<Arc<P>> {
    match deed {
        Deed::Turn(startup, event) => match startup.next(None, event) {
            Some((_, connection, StartActionView::Done)) => connection,
            _ => None,
        },
        Deed::Stop => None,
    }
}

/// However a server is started and stopped, one start after the other or
/// several at a time: it has a connection exactly if a start succeeded since
/// the last stop, and that of the latest such start.
pub proof fn client_is_of_the_latest_start<P>(deeds: Seq<Deed<P>>)
    ensures
        match after_deeds(None, deeds) {
            Some(p) => exists|i: int|
                0 <= i < deeds.len() && started_by(#[trigger] deeds[i]) == Some(p) && (forall|
                    j: int,
                |
                    i < j < deeds.len() ==> !((#[trigger] deeds[j]) is Stop) && started_by(deeds[j])
                        is None),
            None => forall|i: int|
                0 <= i < deeds.len() && started_by(#[trigger] deeds[i]) is Some ==> exists|j: int|
                    i < j < deeds.len() && (#[trigger] deeds[j]) is Stop,
        },
    decreases deeds.len(),
{
    if deeds.len() > 0 {
        let before = deeds.drop_last();
        let last = deeds.len() - 1;
        client_is_of_the_latest_start(before);
        let held = after_deeds(None, before);
        assert(deeds.last() == deeds[last]);
        match after_deeds(None, deeds) {
            Some(p) => {
                if started_by(deeds[last]) is None {
                    assert(held == Some(p));
                    let i = choose|i: int|
                        0 <= i < before.len() && started_by(#[trigger] before[i]) == Some(p) && (
                        forall|j: int|
                            i < j < before.len() ==> !((#[trigger] before[j]) is Stop)
                                && started_by(before[j]) is None);
                    assert(started_by(deeds[i]) == Some(p));
                    assert forall|j: int| i < j < deeds.len() implies !((
                    #[trigger] deeds[j]) is Stop) && started_by(deeds[j]) is None by {
                        if j < last {
                            assert(before[j] == deeds[j]);
                        }
                    }
                } else {
                    assert(started_by(deeds[last]) == Some(p));
                }
            },
            None => {
                assert forall|i: int|
                    0 <= i < deeds.len() && started_by(#[trigger] deeds[i]) is Some implies exists|
                    j: int,
                |
                    i < j < deeds.len() && (#[trigger] deeds[j]) is Stop by {
                    assert(i < last);
                    if deeds[last] is Stop {
                    } else {
                        assert(held is None);
                        assert(before[i] == deeds[i]);
                        let j = choose|j: int| i < j < before.len() && (#[trigger] before[j]) is Stop;
                        assert(deeds[j] is Stop);
                    }
                }
            },
        }
    }
}

/// The events of a start in which nothing fails and `handlers` handlers are
/// registered, up to its initialization.
pub open spec fn smooth_events<P>(handlers: nat) -> Seq<StartEvent<P>> {
    Seq::new(
        handlers + 1,
        |i: int|
            if i == 0 {
                StartEvent::<P>::ClientCreated
            } else {
                StartEvent::<P>::HandlerRegistered
            },
    )
}

proof fn smooth_run<P>(startup: StartupState, client: Option<Arc<P>>, registered: nat)
    requires
        startup.phase is Creating,
        0 <= registered <= startup.handlers,
    ensures
        ({
            let n = startup.handlers;
            let run = start_run(startup, client, smooth_events::<P>(registered));
            &&& run is Some
            &&& run->0.client == client
            &&& run->0.startup.handlers == n
            &&& run->0.startup.version == startup.version
            &&& run->0.startup.phase == if registered < n {
                StartPhase::Registering(registered as int)
            } else {
                StartPhase::Initializing
            }
            &&& run->0.actions.len() == registered + 1
            &&& forall|i: int|
                0 <= i <= registered && i < n ==> #[trigger] run->0.actions[i]
                    == StartActionView::RegisterHandler(i)
            &&& registered == n ==> run->0.actions[n] == (StartActionView::Initialize {
                name: "Zed"@,
                version: startup.version,
            })
        }),
    decreases registered,
{
    let events = smooth_events::<P>(registered);
    if registered == 0 {
        assert(events.drop_last() =~= Seq::<StartEvent<P>>::empty());
        assert(start_run(startup, client, events.drop_last()) is Some);
    } else {
        let before = smooth_events::<P>((registered - 1) as nat);
        smooth_run(startup, client, (registered - 1) as nat);
        assert(events.drop_last() =~= before);
        assert(events.last() is HandlerRegistered);
        let held = start_run(startup, client, before)->0.actions;
        let all = start_run(startup, client, events)->0.actions;
        assert(all.drop_last() =~= held);
    }
}

/// A start in which nothing fails succeeds, however many handlers there are: it
/// asks to register each of them, in order, then to initialize as `Zed` with
/// the version it was given, and then it is done and the server has the
/// connection.
pub proof fn smooth_start_succeeds<P>(startup: StartupState, client: Option<Arc<P>>, p: Arc<P>)
    requires
        startup.phase is Creating,
        startup.handlers >= 0,
    ensures
        ({
            let n = startup.handlers;
            let events = smooth_events::<P>(n as nat).push(StartEvent::Initialized(p));
            let run = start_run(startup, client, events);
            &&& run is Some
            &&& run->0.client == Some(p)
            &&& run->0.startup.phase is Finished
            &&& run->0.actions.len() == n + 2
            &&& forall|i: int|
                0 <= i < n ==> #[trigger] run->0.actions[i] == StartActionView::RegisterHandler(i)
            &&& run->0.actions[n] == (StartActionView::Initialize {
                name: "Zed"@,
                version: startup.version,
            })
            &&& run->0.actions[n + 1] is Done
        }),
{
    let n = startup.handlers;
    let before = smooth_events::<P>(n as nat);
    let events = before.push(StartEvent::Initialized(p));
    smooth_run(startup, client, n as nat);
    assert(events.drop_last() =~= before);
    let held = start_run(startup, client, before)->0.actions;
    let all = start_run(startup, client, events)->0.actions;
    assert(all.drop_last() =~= held);
    assert forall|i: int| 0 <= i < n implies #[trigger] all[i] == StartActionView::RegisterHandler(
        i,
    ) by {
        assert(held[i] == StartActionView::RegisterHandler(i));
    }
    assert(all[n] == held[n]);
}

/// A startup fails exactly on an event that says that something failed, and
/// then leaves the connection as it is; it is done exactly with an initialized
/// connection, which the server then has.
pub proof fn startup_fails_on_failures_only<P>(
    startup: StartupState,
    client: Option<Arc<P>>,
    event: StartEvent<P>,
)
    ensures
        match startup.next(client, event) {
            Some((s, c, action)) => {
                &&& action is Propagated <==> event is Failed
                &&& action is Done <==> event is Initialized
                &&& s.phase is Finished <==> action is Propagated || action is Done
                &&& event matches StartEvent::Initialized(p) ==> c == Some(p)
                &&& !(event is Initialized) ==> c == client
                &&& s.handlers == startup.handlers
                &&& s.version == startup.version
            },
            None => true,
        },
{
}

/// A startup takes every event that can come of what it asked for last, and no
/// other; at first it takes that the client was created or was not.
pub proof fn startup_takes_every_answer<P>(
    startup: StartupState,
    client: Option<Arc<P>>,
    events: Seq<StartEvent<P>>,
    event: StartEvent<P>,
)
    requires
        startup.phase is Creating,
        startup.handlers >= 0,
        start_run(startup, client, events) is Some,
    ensures
        ({
            let run = start_run(startup, client, events)->0;
            run.startup.next(run.client, event) is Some <==> if events.len() == 0 {
                event is ClientCreated || event is Failed
            } else {
                match run.actions.last() {
                    StartActionView::RegisterHandler(_) => event is HandlerRegistered,
                    StartActionView::Initialize { .. } => event is Initialized || event is Failed,
                    _ => false,
                }
            }
        }),
{
    start_inv_holds(startup, client, events);
    if events.len() > 0 {
        let before = events.drop_last();
        start_inv_holds(startup, client, before);
        let held = start_run(startup, client, before)->0.actions;
        let all = start_run(startup, client, events)->0.actions;
        assert(all.drop_last() =~= held);
    }
}

/// The model of an action shows what is asked for.
pub proof fn start_actions_show_what_they_ask(place: usize, name: String, version: String)
    ensures
        StartAction::RegisterHandler(place)@ == StartActionView::RegisterHandler(place as int),
        StartAction::Initialize(Implementation { name, version })@ == (StartActionView::Initialize {
            name: name@,
            version: version@,
        }),
        StartAction::Done@ is Done,
        StartAction::Propagated@ is Propagated,
{
}

} // verus!
