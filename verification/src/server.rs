//! A context server: its identity, how it is reached, and how it is started
//! and stopped.

use std::path::{Path, PathBuf};
use std::sync::Arc;
use std::time::Duration;
use url::Url;
use vstd::prelude::*;

use crate::command;
use crate::command::ContextServerCommand;
use crate::config;
use crate::environment;
use crate::environment::EnvVars;

verus! {

/// `std::path::Path`.
#[verifier::external_type_specification]
#[verifier::external_body]
pub struct ExPath(std::path::Path);

/// A path as a path of its own.
pub uninterp spec fn owned_path(path: &Path) -> PathBuf;

/// `Path::to_path_buf`: the path as a path of its own.
pub assume_specification[ Path::to_path_buf ](path: &Path) -> (r: PathBuf)
    ensures
        r == owned_path(path),
;

/// The identity of a context server.
#[derive(Debug, PartialEq, Eq, Hash)]
pub struct ContextServerId(pub Arc<str>);

impl View for ContextServerId {
    type V = Seq<char>;

    open spec fn view(&self) -> Seq<char> {
        (*self.0)@
    }
}

impl Clone for ContextServerId {
    fn clone(&self) -> (r: Self)
        ensures
            r == *self,
    {
        ContextServerId(self.0.clone())
    }
}

impl ContextServerId {
    /// The identity as text.
    pub fn to_string(&self) -> (r: String)
        ensures
            r@ == self@,
    {
        (*self.0).to_string()
    }
}

/// How a context server is reached.
pub enum ContextServerTransport<T: ?Sized> {
    /// A process, run in a directory.
    Stdio {
        path: PathBuf,
        args: Vec<String>,
        env: Option<EnvVars>,
        timeout: Option<u64>,
        working_directory: Option<PathBuf>,
    },
    /// A server that sends events.
    HttpSse { sse_url: Url, post_url: Option<Url>, timeout: Option<u64> },
    /// A server that takes messages over HTTP.
    HttpStreamable { url: Url, timeout: Option<u64> },
    /// A transport of the caller's.
    Custom(Arc<T>),
}

/// The process that a client is to run.
pub struct ModelContextServerBinary {
    pub executable: PathBuf,
    pub args: Vec<String>,
    pub env: Option<EnvVars>,
    pub timeout: Option<u64>,
}

/// The client that is to be created for a context server.
pub enum ClientPlan<T: ?Sized> {
    /// A client that speaks to a process.
    Stdio {
        server_id: ContextServerId,
        binary: ModelContextServerBinary,
        working_directory: Option<PathBuf>,
    },
    /// A client that listens for events.
    HttpSse {
        server_id: ContextServerId,
        server_name: Arc<str>,
        sse_url: Url,
        post_url: Option<Url>,
        timeout: Option<Duration>,
    },
    /// A client that sends messages over HTTP.
    HttpStreamable {
        server_id: ContextServerId,
        server_name: Arc<str>,
        url: Url,
        timeout: Option<Duration>,
    },
    /// A client over a transport of the caller's.
    Custom {
        server_id: ContextServerId,
        server_name: Arc<str>,
        transport: Arc<T>,
        timeout: Option<Duration>,
    },
}

/// The model of how a context server is reached.
pub enum TransportView<T: ?Sized> {
    Stdio {
        path: PathBuf,
        args: Seq<Seq<char>>,
        env: Option<Seq<(Seq<char>, Seq<char>)>>,
        timeout: Option<u64>,
        working_directory: Option<PathBuf>,
    },
    HttpSse { sse_url: Url, post_url: Option<Url>, timeout: Option<u64> },
    HttpStreamable { url: Url, timeout: Option<u64> },
    Custom(Arc<T>),
}

/// The variables of an optional environment.
pub open spec fn opt_pairs(env: Option<EnvVars>) -> Option<Seq<(Seq<char>, Seq<char>)>> {
    match env {
        Some(vars) => Some(vars.pairs()),
        None => None,
    }
}

impl<T: ?Sized> View for ContextServerTransport<T> {
    type V = TransportView<T>;

    open spec fn view(&self) -> TransportView<T> {
        match self {
            ContextServerTransport::Stdio { path, args, env, timeout, working_directory } =>
                TransportView::Stdio {
                    path: *path,
                    args: environment::texts(args@),
                    env: opt_pairs(*env),
                    timeout: *timeout,
                    working_directory: *working_directory,
                },
            ContextServerTransport::HttpSse { sse_url, post_url, timeout } =>
                TransportView::HttpSse { sse_url: *sse_url, post_url: *post_url, timeout: *timeout },
            ContextServerTransport::HttpStreamable { url, timeout } =>
                TransportView::HttpStreamable { url: *url, timeout: *timeout },
            ContextServerTransport::Custom(transport) => TransportView::Custom(*transport),
        }
    }
}

/// A timeout in milliseconds as a duration.
pub open spec fn timeout_is(duration: Option<Duration>, millis: Option<u64>) -> bool {
    match millis {
        Some(n) => duration matches Some(d) && config::duration_nanos(d) == n * 1_000_000,
        None => duration is None,
    }
}

/// Whether a plan is the one for a server with this identity that is reached
/// in this way.
pub open spec fn planned<T: ?Sized>(
    id: ContextServerId,
    configuration: TransportView<T>,
    plan: ClientPlan<T>,
) -> bool {
    match configuration {
        TransportView::Stdio { path, args, env, timeout, working_directory } => {
            &&& plan is Stdio
            &&& plan->Stdio_server_id == id
            &&& plan->binary.executable == path
            &&& environment::texts(plan->binary.args@) == args
            &&& opt_pairs(plan->binary.env) == env
            &&& plan->binary.timeout == timeout
            &&& plan->working_directory == working_directory
        },
        TransportView::HttpSse { sse_url, post_url, timeout } => {
            &&& plan is HttpSse
            &&& plan->HttpSse_server_id == id
            &&& plan->HttpSse_server_name == id.0
            &&& plan->sse_url == sse_url
            &&& plan->post_url == post_url
            &&& timeout_is(plan->HttpSse_timeout, timeout)
        },
        TransportView::HttpStreamable { url, timeout } => {
            &&& plan is HttpStreamable
            &&& plan->HttpStreamable_server_id == id
            &&& plan->HttpStreamable_server_name == id.0
            &&& plan->url == url
            &&& timeout_is(plan->HttpStreamable_timeout, timeout)
        },
        TransportView::Custom(transport) => {
            &&& plan is Custom
            &&& plan->Custom_server_id == id
            &&& plan->Custom_server_name == id.0
            &&& plan->transport == transport
            &&& plan->Custom_timeout is None
        },
    }
}

/// A context server. `P` is what an initialized connection to it is, and `T` a
/// transport of the caller's.
pub struct ContextServer<P, T: ?Sized> {
    id: ContextServerId,
    client: Option<Arc<P>>,
    configuration: ContextServerTransport<T>,
}

/// The model of a `ContextServer`.
#[verifier::ext_equal]
pub struct ServerState<P, T: ?Sized> {
    pub id: ContextServerId,
    pub client: Option<Arc<P>>,
    pub configuration: TransportView<T>,
}

impl<P, T: ?Sized> View for ContextServer<P, T> {
    type V = ServerState<P, T>;

    closed spec fn view(&self) -> ServerState<P, T> {
        ServerState { id: self.id, client: self.client, configuration: self.configuration@ }
    }
}

fn as_duration(timeout: &Option<u64>) -> (r: Option<Duration>)
    ensures
        timeout_is(r, *timeout),
{
    match timeout {
        Some(n) => Some(Duration::from_millis(*n)),
        None => None,
    }
}

fn opt_url(url: &Option<Url>) -> (r: Option<Url>)
    ensures
        r == *url,
{
    match url {
        Some(u) => Some(u.clone()),
        None => None,
    }
}

impl<P, T: ?Sized> ContextServer<P, T> {
    /// A server that is a process, as the command says, run in a directory.
    /// The command has to be that of a process.
    pub fn stdio(
        id: ContextServerId,
        command: ContextServerCommand,
        working_directory: Option<Arc<Path>>,
    ) -> (r: Self)
        requires
            command is Stdio,
        ensures
            r@.id == id,
            r@.client is None,
            r@.configuration is Stdio,
            command@ == (command::CommandView::Stdio {
                path: r@.configuration->path,
                args: r@.configuration->args,
                env: r@.configuration->env,
                timeout: r@.configuration->Stdio_timeout,
            }),
            match working_directory {
                Some(directory) => r@.configuration->working_directory == Some(
                    owned_path(&*directory),
                ),
                None => r@.configuration->working_directory is None,
            },
    {
        match command {
            ContextServerCommand::Stdio { path, args, env, timeout } => {
                let working_directory = match working_directory {
                    Some(directory) => Some((*directory).to_path_buf()),
                    None => None,
                };
                ContextServer {
                    id,
                    client: None,
                    configuration: ContextServerTransport::Stdio {
                        path,
                        args,
                        env,
                        timeout,
                        working_directory,
                    },
                }
            },
            _ => {
                proof {
                    assert(false);
                }
                vstd::pervasive::unreached()
            },
        }
    }

    /// A server that is reached over a transport of the caller's.
    pub fn new(id: ContextServerId, transport: Arc<T>) -> (r: Self)
        ensures
            r@ == (ServerState {
                id,
                client: None::<Arc<P>>,
                configuration: TransportView::Custom(transport),
            }),
    {
        ContextServer {
            id,
            client: None,
            configuration: ContextServerTransport::Custom(transport),
        }
    }

    /// A server that sends events from `sse_url`.
    pub fn http_sse(
        id: ContextServerId,
        sse_url: Url,
        post_url: Option<Url>,
        timeout: Option<u64>,
    ) -> (r: Self)
        ensures
            r@ == (ServerState {
                id,
                client: None::<Arc<P>>,
                configuration: TransportView::<T>::HttpSse { sse_url, post_url, timeout },
            }),
    {
        ContextServer {
            id,
            client: None,
            configuration: ContextServerTransport::HttpSse { sse_url, post_url, timeout },
        }
    }

    /// A server that takes messages at `url`.
    pub fn http_streamable(id: ContextServerId, url: Url, timeout: Option<u64>) -> (r: Self)
        ensures
            r@ == (ServerState {
                id,
                client: None::<Arc<P>>,
                configuration: TransportView::<T>::HttpStreamable { url, timeout },
            }),
    {
        ContextServer {
            id,
            client: None,
            configuration: ContextServerTransport::HttpStreamable { url, timeout },
        }
    }

    /// The identity of the server.
    pub fn id(&self) -> (r: ContextServerId)
        ensures
            r == self@.id,
    {
        self.id.clone()
    }

    /// The connection to the server, if it was started.
    pub fn client(&self) -> (r: Option<Arc<P>>)
        ensures
            r == self@.client,
    {
        match &self.client {
            Some(client) => Some(client.clone()),
            None => None,
        }
    }

    /// Keeps the connection to the server that was initialized.
    pub fn initialize(&mut self, protocol: Arc<P>)
        ensures
            final(self)@ == (ServerState { client: Some(protocol), ..old(self)@ }),
    {
        self.client = Some(protocol);
    }

    /// Stops the server: the connection is given up.
    pub fn stop(&mut self) -> (r: Result<(), String>)
        ensures
            r is Ok,
            final(self)@ == (ServerState { client: None::<Arc<P>>, ..old(self)@ }),
    {
        self.client = None;
        Ok(())
    }

    /// The client that is to be created for the server.
    pub fn new_client(&self) -> (r: ClientPlan<T>)
        ensures
            planned(self@.id, self@.configuration, r),
    {
        match &self.configuration {
            ContextServerTransport::Stdio { path, args, env, timeout, working_directory } => {
                let env = match env {
                    Some(vars) => Some(vars.clone()),
                    None => None,
                };
                let working_directory = match working_directory {
                    Some(directory) => Some(directory.clone()),
                    None => None,
                };
                ClientPlan::Stdio {
                    server_id: self.id.clone(),
                    binary: ModelContextServerBinary {
                        executable: path.clone(),
                        args: command::list_clone(args),
                        env,
                        timeout: *timeout,
                    },
                    working_directory,
                }
            },
            ContextServerTransport::HttpSse { sse_url, post_url, timeout } => ClientPlan::HttpSse {
                server_id: self.id.clone(),
                server_name: self.id.0.clone(),
                sse_url: sse_url.clone(),
                post_url: opt_url(post_url),
                timeout: as_duration(timeout),
            },
            ContextServerTransport::HttpStreamable { url, timeout } => ClientPlan::HttpStreamable {
                server_id: self.id.clone(),
                server_name: self.id.0.clone(),
                url: url.clone(),
                timeout: as_duration(timeout),
            },
            ContextServerTransport::Custom(transport) => ClientPlan::Custom {
                server_id: self.id.clone(),
                server_name: self.id.0.clone(),
                transport: transport.clone(),
                timeout: None,
            },
        }
    }
}

/// The number of milliseconds of a timeout can be read back from its duration.
pub open spec fn millis_of(duration: Option<Duration>, millis: Option<u64>) -> bool {
    &&& duration is Some <==> millis is Some
    &&& duration is Some ==> config::duration_nanos(duration->0) == millis->0 as nat * 1_000_000
}

/// All that a plan is made from can be read back from it: the identity, and how
/// the server is reached.
pub proof fn plan_gives_back_the_configuration<T: ?Sized>(
    id: ContextServerId,
    configuration: TransportView<T>,
    plan: ClientPlan<T>,
)
    requires
        planned(id, configuration, plan),
    ensures
        match plan {
            ClientPlan::Stdio { server_id, binary, working_directory } => {
                &&& server_id == id
                &&& configuration == (TransportView::<T>::Stdio {
                    path: binary.executable,
                    args: binary.args@.map_values(|a: String| a@),
                    env: match binary.env {
                        Some(vars) => Some(vars.pairs()),
                        None => None,
                    },
                    timeout: binary.timeout,
                    working_directory,
                })
            },
            ClientPlan::HttpSse { server_id, server_name, sse_url, post_url, timeout } => {
                &&& server_id == id
                &&& server_name == id.0
                &&& configuration is HttpSse
                &&& configuration->sse_url == sse_url
                &&& configuration->post_url == post_url
                &&& millis_of(timeout, configuration->HttpSse_timeout)
            },
            ClientPlan::HttpStreamable { server_id, server_name, url, timeout } => {
                &&& server_id == id
                &&& server_name == id.0
                &&& configuration is HttpStreamable
                &&& configuration->url == url
                &&& millis_of(timeout, configuration->HttpStreamable_timeout)
            },
            ClientPlan::Custom { server_id, server_name, transport, timeout } => {
                &&& server_id == id
                &&& server_name == id.0
                &&& configuration == TransportView::Custom(transport)
                &&& timeout is None
            },
        },
{
}

/// Two servers for which the same client is planned have the same identity and
/// are reached in the same way.
pub proof fn different_servers_have_different_plans<T: ?Sized>(
    a: ContextServerId,
    b: ContextServerId,
    c: TransportView<T>,
    d: TransportView<T>,
    plan: ClientPlan<T>,
)
    requires
        planned(a, c, plan),
        planned(b, d, plan),
    ensures
        a == b,
        c == d,
{
    plan_gives_back_the_configuration(a, c, plan);
    plan_gives_back_the_configuration(b, d, plan);
}

/// The model of how a server is reached shows all of it.
pub proof fn transport_shows_how_the_server_is_reached<T: ?Sized>(
    path: PathBuf,
    args: Vec<String>,
    vars: EnvVars,
    timeout: Option<u64>,
    working_directory: Option<PathBuf>,
    sse_url: Url,
    post_url: Option<Url>,
    transport: Arc<T>,
)
    ensures
        (ContextServerTransport::<T>::Stdio {
            path,
            args,
            env: Some(vars),
            timeout,
            working_directory,
        })@ == (TransportView::<T>::Stdio {
            path,
            args: args@.map_values(|a: String| a@),
            env: Some(vars.pairs()),
            timeout,
            working_directory,
        }),
        (ContextServerTransport::<T>::Stdio {
            path,
            args,
            env: None,
            timeout,
            working_directory,
        })@->env is None,
        (ContextServerTransport::<T>::HttpSse { sse_url, post_url, timeout })@ == (TransportView::<
            T,
        >::HttpSse { sse_url, post_url, timeout }),
        (ContextServerTransport::<T>::HttpStreamable { url: sse_url, timeout })@
            == (TransportView::<T>::HttpStreamable { url: sse_url, timeout }),
        ContextServerTransport::<T>::Custom(transport)@ == TransportView::<T>::Custom(transport),
{
}

/// An identity reads as the text that it holds.
pub proof fn identity_reads_as_its_text(id: ContextServerId)
    ensures
        id@ == (*id.0)@,
{
}

} // verus!
