use context_server::command::ContextServerCommand;
use context_server::environment::EnvVars;
use context_server::server::{ClientPlan, ContextServer, ContextServerId};
use context_server::startup::{StartAction, StartEvent, Startup};
use std::path::{Path, PathBuf};
use std::sync::Arc;
use std::time::Duration;
use url::Url;

type Server = ContextServer<u32, str>;

fn id() -> ContextServerId {
    ContextServerId(Arc::from("my-server"))
}

fn env(pairs: &[(&str, &str)]) -> EnvVars {
    let mut vars = EnvVars::new();
    for (name, value) in pairs {
        vars.insert(name.to_string(), value.to_string());
    }
    vars
}

fn process(pairs: &[(&str, &str)]) -> ContextServerCommand {
    ContextServerCommand::stdio(
        PathBuf::from("/bin/tool"),
        vec!["--flag".to_string(), "a \"b\"".to_string()],
        Some(env(pairs)),
        Some(5),
    )
}

fn secrets(names: &[&str]) -> Vec<String> {
    names.iter().map(|n| n.to_string()).collect()
}

#[test]
fn identity_as_text() {
    assert_eq!(id().to_string(), "my-server");
    assert_eq!(id(), id().clone());
    assert_ne!(id(), ContextServerId(Arc::from("other")));
}

#[test]
fn timeouts_default_to_a_minute() {
    assert_eq!(process(&[]).timeout(), 5);
    let sse = |t| ContextServerCommand::http_sse("http://a".to_string(), None, t);
    assert_eq!(sse(None).timeout(), 60000);
    assert_eq!(sse(Some(0)).timeout(), 0);
    let streamable = |t| ContextServerCommand::http_streamable("http://a".to_string(), t);
    assert_eq!(streamable(None).timeout(), 60000);
    assert_eq!(streamable(Some(7)).timeout(), 7);
    let plain = ContextServerCommand::stdio(PathBuf::from("x"), Vec::new(), None, None);
    assert_eq!(plain.timeout(), 60000);
}

#[test]
fn environment_variables() {
    let mut vars = EnvVars::new();
    assert_eq!(vars.insert("A".to_string(), "1".to_string()), None);
    assert_eq!(vars.insert("B".to_string(), "2".to_string()), None);
    assert_eq!(vars.insert("A".to_string(), "3".to_string()), Some("1".to_string()));
    assert_eq!(vars.get(&"A".to_string()), Some("3".to_string()));
    assert_eq!(vars.get(&"B".to_string()), Some("2".to_string()));
    assert_eq!(vars.get(&"C".to_string()), None);
    assert_eq!(vars.names().len(), 2);
    assert!(vars == env(&[("B", "2"), ("A", "3")]));
    assert!(vars != env(&[("B", "2")]));
    assert!(env(&[("B", "2")]) != vars);
    assert!(vars != env(&[("B", "2"), ("A", "1")]));
    assert!(vars == vars.clone());
}

#[test]
fn commands_are_compared_by_their_parts() {
    let a = process(&[("A", "1"), ("B", "2")]);
    assert!(a == a.clone());
    assert!(a == process(&[("B", "2"), ("A", "1")]));
    assert!(a != process(&[("B", "2")]));
    let path = |p: &str| ContextServerCommand::stdio(PathBuf::from(p), Vec::new(), None, None);
    assert!(path("a//b") == path("a/b"));
    assert!(path("a/b") != path("a/c"));
    assert!(path("a") != ContextServerCommand::stdio(PathBuf::from("a"), Vec::new(), None, Some(1)));
    assert!(path("a") != ContextServerCommand::stdio(PathBuf::from("a"), vec![String::new()], None, None));
    assert!(path("a") != ContextServerCommand::stdio(PathBuf::from("a"), Vec::new(), Some(EnvVars::new()), None));
    let sse = |u: &str, p: Option<&str>| {
        ContextServerCommand::http_sse(u.to_string(), p.map(|s| s.to_string()), None)
    };
    assert!(sse("u", Some("p")) == sse("u", Some("p")).clone());
    assert!(sse("u", Some("p")) != sse("u", None));
    assert!(sse("u", None) != sse("v", None));
    let streamable = |u: &str| ContextServerCommand::http_streamable(u.to_string(), None);
    assert!(streamable("u") == streamable("u").clone());
    assert!(streamable("u") != streamable("v"));
    assert!(streamable("u") != sse("u", None));
}

#[test]
fn debug_text_of_each_kind() {
    assert_eq!(
        process(&[("KEY", "s3cret"), ("HOME", "/h\n")]).debug_text(&secrets(&["KEY"])),
        "ContextServerCommand::Stdio { path: \"/bin/tool\", args: [\"--flag\", \"a \\\"b\\\"\"], \
         env: Some([(\"KEY\", \"[REDACTED]\"), (\"HOME\", \"/h\\n\")]), timeout: Some(5) }"
    );
    let plain = ContextServerCommand::stdio(PathBuf::from("x"), Vec::new(), None, None);
    assert_eq!(
        plain.debug_text(&Vec::new()),
        "ContextServerCommand::Stdio { path: \"x\", args: [], env: None, timeout: None }"
    );
    let sse = ContextServerCommand::http_sse("u".to_string(), Some("p".to_string()), Some(60000));
    assert_eq!(
        sse.debug_text(&Vec::new()),
        "ContextServerCommand::HttpSse { sse_url: \"u\", post_url: Some(\"p\"), timeout: Some(60000) }"
    );
    let streamable = ContextServerCommand::http_streamable("u".to_string(), None);
    assert_eq!(
        streamable.debug_text(&Vec::new()),
        "ContextServerCommand::HttpStreamable { url: \"u\", timeout: None }"
    );
    let empty = process(&[]).debug_text(&secrets(&["KEY"]));
    assert!(empty.contains("env: Some([])"));
}

#[test]
fn secrets_do_not_show() {
    let secret = secrets(&["TOKEN"]);
    let a = process(&[("TOKEN", "one"), ("X", "y")]);
    let b = process(&[("TOKEN", "two"), ("X", "y")]);
    assert_eq!(a.debug_text(&secret), b.debug_text(&secret));
    assert!(!a.debug_text(&secret).contains("one"));
    assert_ne!(a.debug_text(&Vec::new()), b.debug_text(&Vec::new()));
    assert_eq!(a.env_names(), vec!["TOKEN", "X"]);
    assert!(ContextServerCommand::http_streamable("u".to_string(), None).env_names().is_empty());
    assert_eq!(
        env(&[("TOKEN", "one"), ("X", "y")]).redacted(&secret),
        vec![
            ("TOKEN".to_string(), "[REDACTED]".to_string()),
            ("X".to_string(), "y".to_string()),
        ]
    );
}

#[test]
fn process_plan() {
    let directory: Arc<Path> = Arc::from(Path::new("/work"));
    let server: Server = ContextServer::stdio(id(), process(&[("A", "1")]), Some(directory));
    assert_eq!(server.id(), id());
    assert!(server.client().is_none());
    match server.new_client() {
        ClientPlan::Stdio { server_id, binary, working_directory } => {
            assert_eq!(server_id, id());
            assert_eq!(binary.executable, PathBuf::from("/bin/tool"));
            assert_eq!(binary.args, vec!["--flag", "a \"b\""]);
            assert!(binary.env == Some(env(&[("A", "1")])));
            assert_eq!(binary.timeout, Some(5));
            assert_eq!(working_directory, Some(PathBuf::from("/work")));
        }
        _ => panic!("other plan"),
    }
    let server: Server = ContextServer::stdio(id(), process(&[]), None);
    assert!(matches!(server.new_client(), ClientPlan::Stdio { working_directory: None, .. }));
}

#[test]
fn http_plans() {
    let url = |s: &str| Url::parse(s).unwrap();
    let server: Server =
        ContextServer::http_sse(id(), url("http://a/s"), Some(url("http://a/p")), Some(1500));
    match server.new_client() {
        ClientPlan::HttpSse { server_id, server_name, sse_url, post_url, timeout } => {
            assert_eq!(server_id, id());
            assert_eq!(&*server_name, "my-server");
            assert_eq!(sse_url, url("http://a/s"));
            assert_eq!(post_url, Some(url("http://a/p")));
            assert_eq!(timeout, Some(Duration::from_millis(1500)));
        }
        _ => panic!("other plan"),
    }
    let server: Server = ContextServer::http_streamable(id(), url("http://a/s"), None);
    match server.new_client() {
        ClientPlan::HttpStreamable { server_id, server_name, url: u, timeout } => {
            assert_eq!(server_id, id());
            assert_eq!(&*server_name, "my-server");
            assert_eq!(u, url("http://a/s"));
            assert_eq!(timeout, None);
        }
        _ => panic!("other plan"),
    }
}

#[test]
fn custom_plan() {
    let server: Server = ContextServer::new(id(), Arc::from("mine"));
    match server.new_client() {
        ClientPlan::Custom { server_id, server_name, transport, timeout } => {
            assert_eq!(server_id, id());
            assert_eq!(&*server_name, "my-server");
            assert_eq!(&*transport, "mine");
            assert_eq!(timeout, None);
        }
        _ => panic!("other plan"),
    }
}

fn show(action: &StartAction) -> String {
    match action {
        StartAction::RegisterHandler(i) => format!("register {}", i),
        StartAction::Initialize(info) => format!("initialize {} {}", info.name, info.version),
        StartAction::Done => "done".to_string(),
        StartAction::Propagated => "propagated".to_string(),
    }
}

fn run(server: &mut Server, mut startup: Startup, events: Vec<StartEvent<u32>>) -> Vec<String> {
    let mut shown = Vec::new();
    for event in events {
        let (next, action) = startup.step(server, event).unwrap();
        shown.push(show(&action));
        startup = next;
    }
    shown
}

#[test]
fn handlers_come_before_initialization() {
    let mut server: Server = ContextServer::new(id(), Arc::from("mine"));
    let (startup, plan) = server.start_with_handlers(2, "1.2.3".to_string());
    assert!(matches!(plan, ClientPlan::Custom { .. }));
    let shown = run(
        &mut server,
        startup,
        vec![
            StartEvent::ClientCreated,
            StartEvent::HandlerRegistered,
            StartEvent::HandlerRegistered,
            StartEvent::Initialized(Arc::new(7)),
        ],
    );
    assert_eq!(shown, vec!["register 0", "register 1", "initialize Zed 1.2.3", "done"]);
    assert_eq!(server.client(), Some(Arc::new(7)));
    assert!(server.stop().is_ok());
    assert_eq!(server.client(), None);
    assert!(server.stop().is_ok());
    assert_eq!(server.id(), id());
}

#[test]
fn start_without_handlers() {
    let mut server: Server = ContextServer::new(id(), Arc::from("mine"));
    let (startup, _) = server.start("1".to_string());
    let shown = run(
        &mut server,
        startup,
        vec![StartEvent::ClientCreated, StartEvent::Initialized(Arc::new(1))],
    );
    assert_eq!(shown, vec!["initialize Zed 1", "done"]);
}

#[test]
fn failed_startup_leaves_the_connection() {
    let mut server: Server = ContextServer::new(id(), Arc::from("mine"));
    server.initialize(Arc::new(3));
    let (startup, _) = server.start("1".to_string());
    assert_eq!(run(&mut server, startup, vec![StartEvent::Failed]), vec!["propagated"]);
    assert_eq!(server.client(), Some(Arc::new(3)));
    let (startup, _) = server.start("1".to_string());
    let shown = run(&mut server, startup, vec![StartEvent::ClientCreated, StartEvent::Failed]);
    assert_eq!(shown, vec!["initialize Zed 1", "propagated"]);
    assert_eq!(server.client(), Some(Arc::new(3)));
    let (startup, _) = server.start("1".to_string());
    assert!(startup.step(&mut server, StartEvent::HandlerRegistered).is_none());
    assert_eq!(server.client(), Some(Arc::new(3)));
}

#[test]
fn client_is_of_the_latest_start() {
    let mut server: Server = ContextServer::new(id(), Arc::from("mine"));
    let (first, _) = server.start("1".to_string());
    let (second, _) = server.start("1".to_string());
    let (first, _) = first.step(&mut server, StartEvent::ClientCreated).unwrap();
    let (second, _) = second.step(&mut server, StartEvent::ClientCreated).unwrap();
    second.step(&mut server, StartEvent::Initialized(Arc::new(2))).unwrap();
    assert_eq!(server.client(), Some(Arc::new(2)));
    first.step(&mut server, StartEvent::Initialized(Arc::new(1))).unwrap();
    assert_eq!(server.client(), Some(Arc::new(1)));
    assert!(server.stop().is_ok());
    let (third, _) = server.start("1".to_string());
    third.step(&mut server, StartEvent::Failed).unwrap();
    assert_eq!(server.client(), None);
}
