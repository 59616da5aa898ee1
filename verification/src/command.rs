//! How a context server is reached: the command that a user configures.

use std::path::PathBuf;
use vstd::prelude::*;
use vstd::std_specs::cmp::PartialEqSpec;

use crate::environment;
use crate::environment::EnvVars;
use crate::text;

verus! {

/// `std::path::PathBuf`.
#[verifier::external_type_specification]
#[verifier::external_body]
pub struct ExPathBuf(std::path::PathBuf);

/// Whether two paths that may be spelled differently are equal as paths.
pub uninterp spec fn same_path(a: PathBuf, b: PathBuf) -> bool;

/// How a path prints for debugging.
pub uninterp spec fn path_debug(path: PathBuf) -> Seq<char>;

/// How a text prints for debugging: quoted and escaped.
pub uninterp spec fn quoted(s: Seq<char>) -> Seq<char>;

/// `Clone` of `PathBuf`: the same path.
pub assume_specification[ <PathBuf as Clone>::clone ](path: &PathBuf) -> (r: PathBuf)
    ensures
        r == *path,
;

/// `PartialEq` of `PathBuf`: whether the paths are equal, component by
/// component. A path equals itself.
#[verifier::external_body]
fn path_eq(a: &PathBuf, b: &PathBuf) -> (r: bool)
    ensures
        r == (*a == *b || same_path(*a, *b)),
{
    a == b
}

/// `Debug` of `PathBuf`: the text that it prints.
#[verifier::external_body]
fn path_debug_text(path: &PathBuf) -> (r: String)
    ensures
        r@ == path_debug(*path),
{
    format!("{:?}", path)
}

/// `Debug` of `str`: the text that it prints.
#[verifier::external_body]
fn quoted_text(s: &str) -> (r: String)
    ensures
        r@ == quoted(s@),
{
    format!("{:?}", s)
}

/// How a context server is run or reached.
pub enum ContextServerCommand {
    /// A process that is spoken to over its standard streams.
    Stdio {
        path: PathBuf,
        args: Vec<String>,
        env: Option<EnvVars>,
        timeout: Option<u64>,
    },
    /// A server that sends events and takes messages, maybe at another URL.
    HttpSse { sse_url: String, post_url: Option<String>, timeout: Option<u64> },
    /// A server that takes messages over HTTP.
    HttpStreamable { url: String, timeout: Option<u64> },
}

/// The model of a `ContextServerCommand`.
pub enum CommandView {
    Stdio {
        path: PathBuf,
        args: Seq<Seq<char>>,
        env: Option<Seq<(Seq<char>, Seq<char>)>>,
        timeout: Option<u64>,
    },
    HttpSse { sse_url: Seq<char>, post_url: Option<Seq<char>>, timeout: Option<u64> },
    HttpStreamable { url: Seq<char>, timeout: Option<u64> },
}

impl View for ContextServerCommand {
    type V = CommandView;

    open spec fn view(&self) -> CommandView {
        match self {
            ContextServerCommand::Stdio { path, args, env, timeout } => CommandView::Stdio {
                path: *path,
                args: environment::texts(args@),
                env: match env {
                    Some(vars) => Some(vars.pairs()),
                    None => None,
                },
                timeout: *timeout,
            },
            ContextServerCommand::HttpSse { sse_url, post_url, timeout } => CommandView::HttpSse {
                sse_url: sse_url@,
                post_url: text::opt_text(*post_url),
                timeout: *timeout,
            },
            ContextServerCommand::HttpStreamable { url, timeout } => CommandView::HttpStreamable {
                url: url@,
                timeout: *timeout,
            },
        }
    }
}

/// Items between brackets, with commas.
pub open spec fn listing(items: Seq<Seq<char>>) -> Seq<char> {
    "["@ + separated(items) + "]"@
}

/// Items with a comma and a space between each two.
pub open spec fn separated(items: Seq<Seq<char>>) -> Seq<char>
    decreases items.len(),
{
    if items.len() == 0 {
        Seq::empty()
    } else if items.len() == 1 {
        items[0]
    } else {
        separated(items.drop_last()) + ", "@ + items.last()
    }
}

/// How an optional value prints, given how the value prints.
pub open spec fn optional(item: Option<Seq<char>>) -> Seq<char> {
    match item {
        Some(t) => "Some("@ + t + ")"@,
        None => "None"@,
    }
}

/// How a timeout prints.
pub open spec fn timeout_debug(timeout: Option<u64>) -> Seq<char> {
    optional(
        match timeout {
            Some(n) => Some(text::decimal(n as nat)),
            None => None,
        },
    )
}

/// How a pair prints.
pub open spec fn pair_debug(pair: (Seq<char>, Seq<char>)) -> Seq<char> {
    "("@ + quoted(pair.0) + ", "@ + quoted(pair.1) + ")"@
}

/// How an environment prints, given what may be shown of it.
pub open spec fn env_debug(pairs: Option<Seq<(Seq<char>, Seq<char>)>>) -> Seq<char> {
    optional(
        match pairs {
            Some(p) => Some(listing(p.map_values(|pair: (Seq<char>, Seq<char>)| pair_debug(pair)))),
            None => None,
        },
    )
}

impl CommandView {
    /// The command with the values of the variables in `secret` replaced.
    pub open spec fn without(self, secret: Seq<Seq<char>>) -> CommandView {
        match self {
            CommandView::Stdio { path, args, env, timeout } => CommandView::Stdio {
                path,
                args,
                env: match env {
                    Some(pairs) => Some(environment::shown(pairs, secret)),
                    None => None,
                },
                timeout,
            },
            _ => self,
        }
    }

    /// How the command prints for debugging.
    pub open spec fn debug(self) -> Seq<char> {
        match self {
            CommandView::Stdio { path, args, env, timeout } =>
                "ContextServerCommand::Stdio { path: "@ + path_debug(path) + ", args: "@ + listing(
                    args.map_values(|a: Seq<char>| quoted(a)),
                ) + ", env: "@ + env_debug(env) + ", timeout: "@ + timeout_debug(timeout) + " }"@,
            CommandView::HttpSse { sse_url, post_url, timeout } =>
                "ContextServerCommand::HttpSse { sse_url: "@ + quoted(sse_url) + ", post_url: "@
                    + optional(
                    match post_url {
                        Some(t) => Some(quoted(t)),
                        None => None,
                    },
                ) + ", timeout: "@ + timeout_debug(timeout) + " }"@,
            CommandView::HttpStreamable { url, timeout } =>
                "ContextServerCommand::HttpStreamable { url: "@ + quoted(url) + ", timeout: "@
                    + timeout_debug(timeout) + " }"@,
        }
    }

    /// The timeout that was configured, if any.
    pub open spec fn configured_timeout(self) -> Option<u64> {
        match self {
            CommandView::Stdio { timeout, .. } => timeout,
            CommandView::HttpSse { timeout, .. } => timeout,
            CommandView::HttpStreamable { timeout, .. } => timeout,
        }
    }
}

/// Whether two commands are equal: the same kind, with equal parts.
pub open spec fn same_command(a: ContextServerCommand, b: ContextServerCommand) -> bool {
    match (a, b) {
        (
            ContextServerCommand::Stdio { path, args, env, timeout },
            ContextServerCommand::Stdio { path: path2, args: args2, env: env2, timeout: timeout2 },
        ) => {
            &&& path == path2 || same_path(path, path2)
            &&& environment::texts(args@) == environment::texts(args2@)
            &&& match (env, env2) {
                (Some(e), Some(e2)) => e@ == e2@,
                (None, None) => true,
                _ => false,
            }
            &&& timeout == timeout2
        },
        (ContextServerCommand::HttpSse { .. }, ContextServerCommand::HttpSse { .. }) => a@ == b@,
        (
            ContextServerCommand::HttpStreamable { .. },
            ContextServerCommand::HttpStreamable { .. },
        ) => a@ == b@,
        _ => false,
    }
}

fn opt_eq(a: &Option<String>, b: &Option<String>) -> (r: bool)
    ensures
        r == (text::opt_text(*a) == text::opt_text(*b)),
{
    match (a, b) {
        (Some(s), Some(t)) => *s == *t,
        (None, None) => true,
        _ => false,
    }
}

fn timeout_eq(a: &Option<u64>, b: &Option<u64>) -> (r: bool)
    ensures
        r == (*a == *b),
{
    match (a, b) {
        (Some(s), Some(t)) => *s == *t,
        (None, None) => true,
        _ => false,
    }
}

fn env_eq(a: &Option<EnvVars>, b: &Option<EnvVars>) -> (r: bool)
    ensures
        r == match (*a, *b) {
            (Some(e), Some(f)) => e@ == f@,
            (None, None) => true,
            _ => false,
        },
{
    match (a, b) {
        (Some(e), Some(f)) => *e == *f,
        (None, None) => true,
        _ => false,
    }
}

fn list_eq(a: &Vec<String>, b: &Vec<String>) -> (r: bool)
    ensures
        r == (environment::texts(a@) == environment::texts(b@)),
{
    if a.len() != b.len() {
        assert(environment::texts(a@).len() != environment::texts(b@).len());
        return false;
    }
    let mut i: usize = 0;
    while i < a.len()
        invariant
            i <= a@.len(),
            a@.len() == b@.len(),
            forall|j: int| 0 <= j < i ==> (#[trigger] a@[j])@ == b@[j]@,
        decreases a@.len() - i,
    {
        if a[i] != b[i] {
            assert(environment::texts(a@)[i as int] != environment::texts(b@)[i as int]);
            return false;
        }
        i = i + 1;
    }
    assert(environment::texts(a@) =~= environment::texts(b@));
    true
}

pub(crate) fn list_clone(list: &Vec<String>) -> (r: Vec<String>)
    ensures
        r@ == list@,
{
    let mut r: Vec<String> = Vec::new();
    let mut i: usize = 0;
    while i < list.len()
        invariant
            i <= list@.len(),
            r@.len() == i,
            forall|j: int| 0 <= j < i ==> #[trigger] r@[j] == list@[j],
        decreases list@.len() - i,
    {
        r.push(list[i].clone());
        i = i + 1;
    }
    assert(r@ =~= list@);
    r
}

fn separated_text(items: &Vec<String>) -> (r: String)
    ensures
        r@ == separated(environment::texts(items@)),
{
    let ghost all = environment::texts(items@);
    if items.len() == 0 {
        return String::new();
    }
    let mut r = items[0].clone();
    let mut i: usize = 1;
    assert(all.take(1)[0] == items@[0]@);
    while i < items.len()
        invariant
            1 <= i <= items@.len(),
            all == environment::texts(items@),
            r@ == separated(all.take(i as int)),
        decreases items@.len() - i,
    {
        proof {
            assert(all.take(i + 1).drop_last() =~= all.take(i as int));
            assert(all.take(i + 1).last() == items@[i as int]@);
        }
        r = r.concat(", ").concat(items[i].as_str());
        i = i + 1;
    }
    assert(all.take(i as int) =~= all);
    r
}

fn listing_text(items: &Vec<String>) -> (r: String)
    ensures
        r@ == listing(environment::texts(items@)),
{
    let inner = separated_text(items);
    text::joined("[", &inner).concat("]")
}

fn optional_text(item: Option<String>) -> (r: String)
    ensures
        r@ == optional(text::opt_text(item)),
{
    match item {
        Some(t) => text::joined("Some(", &t).concat(")"),
        None => "None".to_string(),
    }
}

fn timeout_text(timeout: &Option<u64>) -> (r: String)
    ensures
        r@ == timeout_debug(*timeout),
{
    match timeout {
        Some(n) => optional_text(Some(text::decimal_text(*n))),
        None => optional_text(None),
    }
}

fn args_text(args: &Vec<String>) -> (r: String)
    ensures
        r@ == listing(environment::texts(args@).map_values(|a: Seq<char>| quoted(a))),
{
    let mut items: Vec<String> = Vec::new();
    let mut i: usize = 0;
    while i < args.len()
        invariant
            i <= args@.len(),
            items@.len() == i,
            forall|j: int| 0 <= j < i ==> (#[trigger] items@[j])@ == quoted(args@[j]@),
        decreases args@.len() - i,
    {
        items.push(quoted_text(args[i].as_str()));
        i = i + 1;
    }
    assert(environment::texts(items@) =~= environment::texts(args@).map_values(
        |a: Seq<char>| quoted(a),
    ));
    listing_text(&items)
}

fn env_text(env: &Option<EnvVars>, secret: &Vec<String>) -> (r: String)
    ensures
        r@ == env_debug(
            match *env {
                Some(vars) => Some(
                    environment::shown(vars.pairs(), environment::texts(secret@)),
                ),
                None => None,
            },
        ),
{
    match env {
        None => optional_text(None),
        Some(vars) => {
            let pairs = vars.redacted(secret);
            let ghost visible = environment::shown(vars.pairs(), environment::texts(secret@));
            let mut items: Vec<String> = Vec::new();
            let mut i: usize = 0;
            while i < pairs.len()
                invariant
                    i <= pairs@.len(),
                    items@.len() == i,
                    environment::pair_texts(pairs@) == visible,
                    forall|j: int| 0 <= j < i ==> (#[trigger] items@[j])@ == pair_debug(visible[j]),
                decreases pairs@.len() - i,
            {
                let name = quoted_text(pairs[i].0.as_str());
                let value = quoted_text(pairs[i].1.as_str());
                let item = text::joined("(", &name).concat(", ").concat(value.as_str()).concat(")");
                assert(environment::pair_texts(pairs@)[i as int] == (
                    pairs@[i as int].0@,
                    pairs@[i as int].1@,
                ));
                items.push(item);
                i = i + 1;
            }
            assert(visible.len() == pairs@.len());
            assert(environment::texts(items@) =~= visible.map_values(
                |pair: (Seq<char>, Seq<char>)| pair_debug(pair),
            ));
            optional_text(Some(listing_text(&items)))
        },
    }
}

impl ContextServerCommand {
    /// A process at `path`.
    pub fn stdio(
        path: PathBuf,
        args: Vec<String>,
        env: Option<EnvVars>,
        timeout: Option<u64>,
    ) -> (r: Self)
        ensures
            r == (ContextServerCommand::Stdio { path, args, env, timeout }),
    {
        ContextServerCommand::Stdio { path, args, env, timeout }
    }

    /// A server that sends events from `sse_url`.
    pub fn http_sse(sse_url: String, post_url: Option<String>, timeout: Option<u64>) -> (r: Self)
        ensures
            r == (ContextServerCommand::HttpSse { sse_url, post_url, timeout }),
    {
        ContextServerCommand::HttpSse { sse_url, post_url, timeout }
    }

    /// A server that takes messages at `url`.
    pub fn http_streamable(url: String, timeout: Option<u64>) -> (r: Self)
        ensures
            r == (ContextServerCommand::HttpStreamable { url, timeout }),
    {
        ContextServerCommand::HttpStreamable { url, timeout }
    }

    /// The timeout in milliseconds: a minute, unless another was configured.
    pub fn timeout(&self) -> (r: u64)
        ensures
            r == match self@.configured_timeout() {
                Some(n) => n,
                None => 60000,
            },
    {
        match self {
            ContextServerCommand::Stdio { timeout, .. } => timeout.unwrap_or(60000),
            ContextServerCommand::HttpSse { timeout, .. } => timeout.unwrap_or(60000),
            ContextServerCommand::HttpStreamable { timeout, .. } => timeout.unwrap_or(60000),
        }
    }

    /// The names of the environment variables that the command sets.
    pub fn env_names(&self) -> (r: Vec<String>)
        ensures
            match self@ {
                CommandView::Stdio { env: Some(pairs), .. } => r@.len() == pairs.len() && (forall|
                    i: int,
                |
                    0 <= i < r@.len() ==> (#[trigger] r@[i])@ == pairs[i].0),
                _ => r@.len() == 0,
            },
    {
        match self {
            ContextServerCommand::Stdio { env: Some(vars), .. } => vars.names(),
            _ => Vec::new(),
        }
    }

    /// The command as it prints for debugging, with the values of the
    /// variables named in `secret` left out.
    pub fn debug_text(&self, secret: &Vec<String>) -> (r: String)
        ensures
            r@ == self@.without(environment::texts(secret@)).debug(),
    {
        match self {
            ContextServerCommand::Stdio { path, args, env, timeout } => {
                let p = path_debug_text(path);
                let a = args_text(args);
                let e = env_text(env, secret);
                let t = timeout_text(timeout);
                text::joined("ContextServerCommand::Stdio { path: ", &p).concat(", args: ").concat(
                    a.as_str(),
                ).concat(", env: ").concat(e.as_str()).concat(", timeout: ").concat(
                    t.as_str(),
                ).concat(" }")
            },
            ContextServerCommand::HttpSse { sse_url, post_url, timeout } => {
                let s = quoted_text(sse_url.as_str());
                let q = match post_url {
                    Some(url) => optional_text(Some(quoted_text(url.as_str()))),
                    None => optional_text(None),
                };
                let t = timeout_text(timeout);
                text::joined("ContextServerCommand::HttpSse { sse_url: ", &s).concat(
                    ", post_url: ",
                ).concat(q.as_str()).concat(", timeout: ").concat(t.as_str()).concat(" }")
            },
            ContextServerCommand::HttpStreamable { url, timeout } => {
                let u = quoted_text(url.as_str());
                let t = timeout_text(timeout);
                text::joined("ContextServerCommand::HttpStreamable { url: ", &u).concat(
                    ", timeout: ",
                ).concat(t.as_str()).concat(" }")
            },
        }
    }
}

impl Clone for ContextServerCommand {
    fn clone(&self) -> (r: Self)
        ensures
            r@ == self@,
    {
        match self {
            ContextServerCommand::Stdio { path, args, env, timeout } => {
                let env = match env {
                    Some(vars) => Some(vars.clone()),
                    None => None,
                };
                ContextServerCommand::Stdio {
                    path: path.clone(),
                    args: list_clone(args),
                    env,
                    timeout: *timeout,
                }
            },
            ContextServerCommand::HttpSse { sse_url, post_url, timeout } =>
                ContextServerCommand::HttpSse {
                    sse_url: sse_url.clone(),
                    post_url: post_url.clone(),
                    timeout: *timeout,
                },
            ContextServerCommand::HttpStreamable { url, timeout } =>
                ContextServerCommand::HttpStreamable { url: url.clone(), timeout: *timeout },
        }
    }
}

impl PartialEq for ContextServerCommand {
    fn eq(&self, other: &Self) -> (r: bool) {
        match (self, other) {
            (
                ContextServerCommand::Stdio { path, args, env, timeout },
                ContextServerCommand::Stdio {
                    path: path2,
                    args: args2,
                    env: env2,
                    timeout: timeout2,
                },
            ) => path_eq(path, path2) && list_eq(args, args2) && env_eq(env, env2) && timeout_eq(
                timeout,
                timeout2,
            ),
            (
                ContextServerCommand::HttpSse { sse_url, post_url, timeout },
                ContextServerCommand::HttpSse {
                    sse_url: sse_url2,
                    post_url: post_url2,
                    timeout: timeout2,
                },
            ) => *sse_url == *sse_url2 && opt_eq(post_url, post_url2) && timeout_eq(
                timeout,
                timeout2,
            ),
            (
                ContextServerCommand::HttpStreamable { url, timeout },
                ContextServerCommand::HttpStreamable { url: url2, timeout: timeout2 },
            ) => *url == *url2 && timeout_eq(timeout, timeout2),
            _ => false,
        }
    }
}

impl vstd::std_specs::cmp::PartialEqSpecImpl for ContextServerCommand {
    open spec fn obeys_eq_spec() -> bool {
        true
    }

    open spec fn eq_spec(&self, other: &Self) -> bool {
        same_command(*self, *other)
    }
}

impl Eq for ContextServerCommand {

}

/// A command equals a copy of it.
pub proof fn a_copy_is_equal(a: ContextServerCommand, b: ContextServerCommand)
    requires
        a@ == b@,
    ensures
        a.eq_spec(&b),
{
}

/// What a command prints for debugging tells nothing of secret values: commands
/// that differ in the values of secret variables alone print alike.
pub proof fn debug_text_keeps_secrets(
    path: PathBuf,
    args: Seq<Seq<char>>,
    a: Seq<(Seq<char>, Seq<char>)>,
    b: Seq<(Seq<char>, Seq<char>)>,
    timeout: Option<u64>,
    secret: Seq<Seq<char>>,
)
    requires
        a.len() == b.len(),
        forall|i: int|
            0 <= i < a.len() ==> (#[trigger] a[i]).0 == b[i].0 && (secret.contains(a[i].0) || a[i].1
                == b[i].1),
    ensures
        (CommandView::Stdio { path, args, env: Some(a), timeout }).without(secret).debug() == (
        CommandView::Stdio { path, args, env: Some(b), timeout }).without(secret).debug(),
{
    environment::secrets_do_not_show(a, b, secret);
}

/// Items are separated one from the next: two lists that are not empty, one
/// behind the other, print as the first, a comma and a space, and the second.
pub proof fn separated_lists_join(a: Seq<Seq<char>>, b: Seq<Seq<char>>)
    requires
        a.len() > 0,
        b.len() > 0,
    ensures
        separated(a + b) == separated(a) + ", "@ + separated(b),
    decreases b.len(),
{
    let all = a + b;
    if b.len() == 1 {
        assert(all.drop_last() =~= a);
        assert(all.last() == b[0]);
    } else {
        let c = b.drop_last();
        separated_lists_join(a, c);
        assert(all.drop_last() =~= a + c);
        assert(all.last() == b.last());
        assert(separated(all) =~= separated(a) + ", "@ + separated(b));
    }
}

/// One item prints as itself, and none as nothing.
pub proof fn single_item_is_itself(item: Seq<char>)
    ensures
        separated(seq![item]) == item,
        separated(Seq::empty()) == Seq::<char>::empty(),
        listing(seq![item]) == "["@ + item + "]"@,
        listing(Seq::empty()) == "["@ + Seq::<char>::empty() + "]"@,
{
}

/// How optional values and numbers print.
pub proof fn options_show_their_value(item: Seq<char>, n: u64)
    ensures
        optional(Some(item)) == "Some("@ + item + ")"@,
        optional(None) == "None"@,
        timeout_debug(Some(n)) == "Some("@ + text::decimal(n as nat) + ")"@,
        timeout_debug(None) == "None"@,
{
}

/// A process prints with its path, all its arguments and all its variables,
/// quoted and in order.
pub proof fn process_prints_all_its_parts(
    path: PathBuf,
    args: Seq<Seq<char>>,
    pairs: Seq<(Seq<char>, Seq<char>)>,
    timeout: Option<u64>,
    arg_items: Seq<Seq<char>>,
    env_items: Seq<Seq<char>>,
)
    requires
        arg_items.len() == args.len(),
        forall|i: int| 0 <= i < args.len() ==> #[trigger] arg_items[i] == quoted(args[i]),
        env_items.len() == pairs.len(),
        forall|i: int|
            0 <= i < pairs.len() ==> #[trigger] env_items[i] == "("@ + quoted(pairs[i].0) + ", "@
                + quoted(pairs[i].1) + ")"@,
    ensures
        (CommandView::Stdio { path, args, env: Some(pairs), timeout }).debug()
            == "ContextServerCommand::Stdio { path: "@ + path_debug(path) + ", args: "@ + ("["@
            + separated(arg_items) + "]"@) + ", env: "@ + ("Some("@ + ("["@ + separated(env_items)
            + "]"@) + ")"@) + ", timeout: "@ + timeout_debug(timeout) + " }"@,
        (CommandView::Stdio { path, args, env: None, timeout }).debug()
            == "ContextServerCommand::Stdio { path: "@ + path_debug(path) + ", args: "@ + ("["@
            + separated(arg_items) + "]"@) + ", env: "@ + "None"@ + ", timeout: "@ + timeout_debug(
            timeout,
        ) + " }"@,
{
    assert(args.map_values(|a: Seq<char>| quoted(a)) =~= arg_items);
    assert(pairs.map_values(|pair: (Seq<char>, Seq<char>)| pair_debug(pair)) =~= env_items);
}

/// A server that is reached over HTTP prints with its addresses, quoted.
pub proof fn server_prints_its_addresses(url: Seq<char>, post: Seq<char>, timeout: Option<u64>)
    ensures
        (CommandView::HttpSse { sse_url: url, post_url: Some(post), timeout }).debug()
            == "ContextServerCommand::HttpSse { sse_url: "@ + quoted(url) + ", post_url: "@ + (
        "Some("@ + quoted(post) + ")"@) + ", timeout: "@ + timeout_debug(timeout) + " }"@,
        (CommandView::HttpSse { sse_url: url, post_url: None, timeout }).debug()
            == "ContextServerCommand::HttpSse { sse_url: "@ + quoted(url) + ", post_url: "@
            + "None"@ + ", timeout: "@ + timeout_debug(timeout) + " }"@,
        (CommandView::HttpStreamable { url, timeout }).debug()
            == "ContextServerCommand::HttpStreamable { url: "@ + quoted(url) + ", timeout: "@
            + timeout_debug(timeout) + " }"@,
{
}

/// Leaving secrets out touches nothing but the values of secret variables: the
/// names stay, in order, and so does every other part.
pub proof fn only_secret_values_are_left_out(
    command: CommandView,
    path: PathBuf,
    args: Seq<Seq<char>>,
    pairs: Seq<(Seq<char>, Seq<char>)>,
    timeout: Option<u64>,
    secret: Seq<Seq<char>>,
)
    ensures
        !(command is Stdio) ==> command.without(secret) == command,
        (CommandView::Stdio { path, args, env: None, timeout }).without(secret) == (
        CommandView::Stdio { path, args, env: None, timeout }),
        (CommandView::Stdio { path, args, env: Some(pairs), timeout }).without(secret) == (
        CommandView::Stdio { path, args, env: Some(environment::shown(pairs, secret)), timeout }),
        (forall|i: int| 0 <= i < pairs.len() ==> !secret.contains((#[trigger] pairs[i]).0)) ==> (
        CommandView::Stdio { path, args, env: Some(pairs), timeout }).without(secret) == (
        CommandView::Stdio { path, args, env: Some(pairs), timeout }),
{
    if forall|i: int| 0 <= i < pairs.len() ==> !secret.contains((#[trigger] pairs[i]).0) {
        assert(environment::shown(pairs, secret) =~= pairs);
    }
}

/// The model of a command shows all of it, and its timeout is the one that it
/// was made with, whatever kind of command it is.
pub proof fn command_shows_its_parts(
    path: PathBuf,
    args: Vec<String>,
    vars: EnvVars,
    url: String,
    post: String,
    timeout: Option<u64>,
)
    ensures
        (ContextServerCommand::Stdio { path, args, env: Some(vars), timeout })@ == (
        CommandView::Stdio {
            path,
            args: args@.map_values(|a: String| a@),
            env: Some(vars.pairs()),
            timeout,
        }),
        (ContextServerCommand::Stdio { path, args, env: None, timeout })@ == (CommandView::Stdio {
            path,
            args: args@.map_values(|a: String| a@),
            env: None,
            timeout,
        }),
        (ContextServerCommand::HttpSse { sse_url: url, post_url: Some(post), timeout })@ == (
        CommandView::HttpSse { sse_url: url@, post_url: Some(post@), timeout }),
        (ContextServerCommand::HttpSse { sse_url: url, post_url: None, timeout })@ == (
        CommandView::HttpSse { sse_url: url@, post_url: None, timeout }),
        (ContextServerCommand::HttpStreamable { url, timeout })@ == (CommandView::HttpStreamable {
            url: url@,
            timeout,
        }),
        (ContextServerCommand::Stdio {
            path,
            args,
            env: Some(vars),
            timeout,
        })@.configured_timeout() == timeout,
        (ContextServerCommand::Stdio { path, args, env: None, timeout })@.configured_timeout()
            == timeout,
        (ContextServerCommand::HttpSse {
            sse_url: url,
            post_url: Some(post),
            timeout,
        })@.configured_timeout() == timeout,
        (ContextServerCommand::HttpSse {
            sse_url: url,
            post_url: None,
            timeout,
        })@.configured_timeout() == timeout,
        (ContextServerCommand::HttpStreamable { url, timeout })@.configured_timeout() == timeout,
{
}

/// Equal commands are of the same kind and agree in every part: in the path as
/// a path, in the variables as a map, and in the rest text by text.
pub proof fn equal_commands_agree(a: ContextServerCommand, b: ContextServerCommand)
    requires
        a.eq_spec(&b),
    ensures
        a@.configured_timeout() == b@.configured_timeout(),
        a is Stdio ==> {
            &&& b is Stdio
            &&& a->path == b->path || same_path(a->path, b->path)
            &&& a->args@.len() == b->args@.len()
            &&& forall|i: int|
                0 <= i < a->args@.len() ==> (#[trigger] a->args@[i])@ == b->args@[i]@
            &&& a->env is Some <==> b->env is Some
            &&& a->env is Some ==> a->env->0@ == b->env->0@
        },
        !(a is Stdio) ==> a@ == b@,
{
    if a is Stdio {
        let s = environment::texts(a->args@);
        let t = environment::texts(b->args@);
        assert(s.len() == t.len());
        assert forall|i: int| 0 <= i < a->args@.len() implies (#[trigger] a->args@[i])@
            == b->args@[i]@ by {
            assert(s[i] == t[i]);
        }
    }
}

/// Commands for processes that agree in every part are equal.
pub proof fn agreeing_commands_are_equal(
    a: ContextServerCommand,
    b: ContextServerCommand,
)
    requires
        a is Stdio,
        b is Stdio,
        a->path == b->path || same_path(a->path, b->path),
        a->args@.len() == b->args@.len(),
        forall|i: int| 0 <= i < a->args@.len() ==> (#[trigger] a->args@[i])@ == b->args@[i]@,
        a->env is Some <==> b->env is Some,
        a->env is Some ==> a->env->0@ == b->env->0@,
        a->Stdio_timeout == b->Stdio_timeout,
    ensures
        a.eq_spec(&b),
{
    assert(environment::texts(a->args@) =~= environment::texts(b->args@));
}

} // verus!
