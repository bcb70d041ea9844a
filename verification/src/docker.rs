//! The `docker` CLI as this program uses it: the commands it runs, the
//! records it reads back, and how each outcome is read.
//!
//! Running a command is the caller's part: it hands back a
//! [`DockerOutcome`]. JSON records arrive framed by [`ndjson_lines`] and
//! [`compose_is_array`]; the caller decodes each frame and
//! [`collect_rows`] / the `list_*` functions do the rest.

use vstd::prelude::*;
use vstd::string::*;
use vstd::utf8::*;
use crate::order::{sort_by_keys, stable_sort_of};
use crate::text::{
    all_ascii_digits, all_digits, ascii_lower, cat, chars_of, contains, decimal, decimal_text,
    eq_ascii_nocase, eq_ignore_ascii_case, has_sub, lossy_text, lowercase, push_char, same,
    split_chars, split_on, string_of, strip_prefix, to_lowercase, trim, trimmed, utf8_lossy,
    utf8_text, views,
};

verus! {

broadcast use vstd::seq_lib::group_seq_properties;

// ─── Running docker ─────────────────────────────────────────────────────

/// What became of one `docker` invocation.
#[derive(Debug)]
pub enum DockerOutcome {
    /// The process could not be started (no `docker` on PATH, ...).
    NotStarted,
    /// The process ran to completion.
    Finished { success: bool, stdout: Vec<u8>, stderr: Vec<u8> },
}

/// The character sequences of a list of strings.
pub open spec fn texts(v: Seq<String>) -> Seq<Seq<char>> {
    v.map_values(|s: String| s@)
}

/// Arguments joined by single spaces (`[&str]::join(" ")`).
pub open spec fn joined(args: Seq<Seq<char>>) -> Seq<char>
    decreases args.len(),
{
    if args.len() == 0 {
        Seq::empty()
    } else if args.len() == 1 {
        args[0]
    } else {
        joined(args.drop_last()) + seq![' '] + args.last()
    }
}

/// The error for a `docker` process that could not be started.
pub open spec fn spawn_message(args: Seq<Seq<char>>) -> Seq<char> {
    "spawn `docker "@ + joined(args) + "`"@
}

/// The error for a `docker` process that exited unsuccessfully.
pub open spec fn failure_message(stderr: Seq<u8>) -> Seq<char> {
    "docker: "@ + trim(utf8_lossy(stderr))
}

/// stdout of a successful run, or the error text for the outcome.
pub open spec fn run_result(args: Seq<Seq<char>>, outcome: DockerOutcome) -> Result<Seq<u8>, Seq<char>> {
    match outcome {
        DockerOutcome::NotStarted => Err(spawn_message(args)),
        DockerOutcome::Finished { success, stdout, stderr } => if success {
            Ok(stdout@)
        } else {
            Err(failure_message(stderr@))
        },
    }
}

fn join_args(args: &Vec<String>) -> (r: String)
    ensures
        r@ == joined(texts(args@)),
{
    let mut out = String::new();
    let mut i: usize = 0;
    while i < args.len()
        invariant
            i <= args@.len(),
            out@ == joined(texts(args@).take(i as int)),
        decreases args@.len() - i,
    {
        let ghost before = texts(args@).take(i as int);
        let ghost after = texts(args@).take(i + 1);
        assert(after.drop_last() =~= before);
        if i > 0 {
            push_char(&mut out, ' ');
        }
        out.append(args[i].as_str());
        proof {
            if i == 0 {
                assert(out@ =~= joined(after));
            } else {
                assert(out@ =~= joined(after));
            }
        }
        i += 1;
    }
    assert(texts(args@).take(args@.len() as int) =~= texts(args@));
    out
}

/// The text of `failure_message`.
pub fn docker_err(stderr: &[u8]) -> (r: String)
    ensures
        r@ == failure_message(stderr@),
{
    let s = lossy_text(stderr);
    let t = trimmed(s.as_str());
    cat("docker: ", t.as_str())
}

/// stdout of a successful `docker args` run, or its error text.
pub fn docker_stdout(args: &Vec<String>, outcome: &DockerOutcome) -> (r: Result<Vec<u8>, String>)
    ensures
        match run_result(texts(args@), *outcome) {
            Ok(out) => r matches Ok(b) && b@ == out,
            Err(msg) => r matches Err(e) && e@ == msg,
        },
{
    match outcome {
        DockerOutcome::NotStarted => {
            let j = join_args(args);
            let a = cat("spawn `docker ", j.as_str());
            Err(cat(a.as_str(), "`"))
        },
        DockerOutcome::Finished { success, stdout, stderr } => {
            if *success {
                Ok(stdout.clone())
            } else {
                Err(docker_err(stderr.as_slice()))
            }
        },
    }
}

/// Outcome of a `docker` command run only for its effect.
pub fn action_result(args: &Vec<String>, outcome: &DockerOutcome) -> (r: Result<(), String>)
    ensures
        match run_result(texts(args@), *outcome) {
            Ok(_) => r is Ok,
            Err(msg) => r matches Err(e) && e@ == msg,
        },
{
    match docker_stdout(args, outcome) {
        Ok(_) => Ok(()),
        Err(e) => Err(e),
    }
}

/// A string from a literal, with its contents.
pub fn text(s: &str) -> (r: String)
    ensures
        r@ == s@,
{
    String::from_str(s)
}

pub proof fn lemma_texts_push(v: Seq<String>, x: String)
    ensures
        texts(v.push(x)) == texts(v).push(x@),
{
    assert(texts(v.push(x)) =~= texts(v).push(x@));
}

pub fn args1(a: &str) -> (r: Vec<String>)
    ensures
        texts(r@) == seq![a@],
{
    let mut v = Vec::new();
    v.push(text(a));
    assert(texts(v@) =~= seq![a@]);
    v
}

pub fn args2(a: &str, b: &str) -> (r: Vec<String>)
    ensures
        texts(r@) == seq![a@, b@],
{
    let mut v = args1(a);
    let t = text(b);
    proof { lemma_texts_push(v@, t); }
    v.push(t);
    assert(texts(v@) =~= seq![a@, b@]);
    v
}

pub fn args3(a: &str, b: &str, c: &str) -> (r: Vec<String>)
    ensures
        texts(r@) == seq![a@, b@, c@],
{
    let mut v = args2(a, b);
    let t = text(c);
    proof { lemma_texts_push(v@, t); }
    v.push(t);
    assert(texts(v@) =~= seq![a@, b@, c@]);
    v
}

pub fn args4(a: &str, b: &str, c: &str, d: &str) -> (r: Vec<String>)
    ensures
        texts(r@) == seq![a@, b@, c@, d@],
{
    let mut v = args3(a, b, c);
    let t = text(d);
    proof { lemma_texts_push(v@, t); }
    v.push(t);
    assert(texts(v@) =~= seq![a@, b@, c@, d@]);
    v
}


// ─── Records ────────────────────────────────────────────────────────────

/// One row of `docker ps -a --format '{{json .}}'`.
#[derive(Debug, Clone, PartialEq, Eq)]
pub struct Container {
    pub id: String,
    pub image: String,
    pub names: String,
    pub status: String,
    pub state: String,
    pub ports: String,
    pub running_for: String,
    pub command: String,
    pub created_at: String,
}

/// One row of `docker images --format '{{json .}}'`.
#[derive(Debug, Clone, PartialEq, Eq)]
pub struct Image {
    pub id: String,
    pub repository: String,
    pub tag: String,
    pub size: String,
    pub created_since: String,
    pub created_at: String,
    pub digest: String,
}

/// One row of `docker volume ls --format '{{json .}}'`.
#[derive(Debug, Clone, PartialEq, Eq)]
pub struct Volume {
    pub name: String,
    pub driver: String,
    pub mountpoint: String,
    pub scope: String,
}

/// One row of `docker network ls --format '{{json .}}'`.
#[derive(Debug, Clone, PartialEq, Eq)]
pub struct Network {
    pub id: String,
    pub name: String,
    pub driver: String,
    pub scope: String,
    pub created_at: String,
}

/// One service of `docker compose ps --format json`.
#[derive(Debug, Clone, PartialEq, Eq)]
pub struct ComposeService {
    pub name: String,
    pub service: String,
    pub state: String,
    pub status: String,
    pub image: String,
    pub project: String,
}

// ─── Short identifiers ─────────────────────────────────────────────────

/// Byte length of the 12-byte short form (or of the whole id if shorter).
pub open spec fn cut12(s: Seq<char>) -> int {
    let n = encode_utf8(s).len() as int;
    if n < 12 {
        n
    } else {
        12
    }
}

/// The short form cuts the UTF-8 bytes at a character boundary (always so
/// for the ASCII ids docker prints; byte slicing panics elsewhere). The
/// byte length of a string in memory fits in `usize`.
pub open spec fn can_shorten(s: Seq<char>) -> bool {
    &&& encode_utf8(s).len() <= usize::MAX
    &&& is_char_boundary(encode_utf8(s), cut12(s))
}

/// The first 12 bytes of an id, as text.
pub open spec fn shortened(s: Seq<char>) -> Seq<char> {
    decode_utf8(encode_utf8(s).subrange(0, cut12(s)))
}

/// `&id[..id.len().min(12)]`.
pub fn short(id: &str) -> (r: &str)
    requires
        can_shorten(id@),
    ensures
        r@ == shortened(id@),
{
    proof {
        encode_utf8_valid_utf8(id@);
    }
    let n = id.len();
    let cap = if n < 12 {
        n
    } else {
        12
    };
    let (a, _b) = id.split_at(cap);
    proof {
        encode_utf8_decode_utf8(a@);
    }
    a
}

/// Whether every id that the short form is taken of can be shortened.
pub open spec fn image_short_source(id: Seq<char>) -> Seq<char> {
    if "sha256:"@.is_prefix_of(id) {
        id.skip(7)
    } else {
        id
    }
}

proof fn lemma_sha_len()
    ensures
        "sha256:"@.len() == 7,
{
    reveal_strlit("sha256:");
}

impl Container {
    /// 12-char short form of the container ID, as `docker ps` shows it.
    pub fn short_id(&self) -> (r: &str)
        requires
            can_shorten(self.id@),
        ensures
            r@ == shortened(self.id@),
    {
        short(self.id.as_str())
    }

    /// The `State` field says `running` (ASCII case ignored).
    pub fn is_running(&self) -> (b: bool)
        ensures
            b == eq_ascii_nocase(self.state@, "running"@),
    {
        eq_ignore_ascii_case(self.state.as_str(), "running")
    }
}

/// `repository:tag`, with docker's `<none>:<none>` for untagged images.
pub open spec fn repo_tag_of(repository: Seq<char>, tag: Seq<char>) -> Seq<char> {
    if repository.len() == 0 && tag.len() == 0 {
        "<none>:<none>"@
    } else if tag.len() == 0 {
        repository
    } else {
        repository + ":"@ + tag
    }
}

impl Image {
    /// Short form of the image ID, past any `sha256:` prefix.
    pub fn short_id(&self) -> (r: &str)
        requires
            can_shorten(image_short_source(self.id@)),
        ensures
            r@ == shortened(image_short_source(self.id@)),
    {
        proof {
            lemma_sha_len();
        }
        let raw = match strip_prefix(self.id.as_str(), "sha256:") {
            Some(rest) => rest,
            None => self.id.as_str(),
        };
        short(raw)
    }

    pub fn repo_tag(&self) -> (r: String)
        ensures
            r@ == repo_tag_of(self.repository@, self.tag@),
    {
        if self.repository.as_str().is_empty() && self.tag.as_str().is_empty() {
            text("<none>:<none>")
        } else if self.tag.as_str().is_empty() {
            self.repository.clone()
        } else {
            let a = cat(self.repository.as_str(), ":");
            cat(a.as_str(), self.tag.as_str())
        }
    }
}

impl Network {
    pub fn short_id(&self) -> (r: &str)
        requires
            can_shorten(self.id@),
        ensures
            r@ == shortened(self.id@),
    {
        short(self.id.as_str())
    }
}


// ─── ECR image references ──────────────────────────────────────────────

/// `(account, region)` of an ECR reference
/// `<acct>.dkr.ecr.<region>.amazonaws.com/<repo>[:tag]`: the registry host
/// (the text before the first `/`) has exactly the six dot-separated
/// segments `<acct>`, `dkr`, `ecr`, `<region>`, `amazonaws`, `com`, with a
/// non-empty all-digit account and a non-empty region.
pub open spec fn ecr_account_region(image_ref: Seq<char>) -> Option<(Seq<char>, Seq<char>)> {
    let parts = split_on(split_on(image_ref, '/')[0], '.');
    if parts.len() == 6 && parts[1] == "dkr"@ && parts[2] == "ecr"@ && parts[4] == "amazonaws"@
        && parts[5] == "com"@ && parts[0].len() > 0 && parts[3].len() > 0 && all_digits(parts[0]) {
        Some((parts[0], parts[3]))
    } else {
        None
    }
}

fn chars_are(a: &Vec<char>, b: &str) -> (r: bool)
    ensures
        r == (a@ == b@),
{
    let s = string_of(a.as_slice());
    same(s.as_str(), b)
}

/// Detects an AWS ECR image reference and returns `(account, region)`.
pub fn parse_ecr_url(image_ref: &str) -> (r: Option<(String, String)>)
    ensures
        match ecr_account_region(image_ref@) {
            Some((acct, region)) => r matches Some((a, g)) && a@ == acct && g@ == region,
            None => r is None,
        },
{
    let slash = split_chars(image_ref, '/');
    proof {
        crate::text::lemma_split_on_nonempty(image_ref@, '/');
    }
    assert(slash@[0]@ == views(slash@)[0]);
    let host = string_of(slash[0].as_slice());
    let parts = split_chars(host.as_str(), '.');
    let ghost pv = views(parts@);
    if parts.len() != 6 {
        return None;
    }
    assert(parts@[0]@ == pv[0] && parts@[1]@ == pv[1] && parts@[2]@ == pv[2]);
    assert(parts@[3]@ == pv[3] && parts@[4]@ == pv[4] && parts@[5]@ == pv[5]);
    if !chars_are(&parts[1], "dkr") || !chars_are(&parts[2], "ecr") || !chars_are(&parts[4], "amazonaws")
        || !chars_are(&parts[5], "com") {
        return None;
    }
    if parts[0].len() == 0 || parts[3].len() == 0 {
        return None;
    }
    if !all_ascii_digits(&parts[0]) {
        return None;
    }
    Some((string_of(parts[0].as_slice()), string_of(parts[3].as_slice())))
}

// ─── Daemon state ───────────────────────────────────────────────────────

/// Text that the docker CLI prints on stderr when the daemon socket is
/// unreachable.
pub const DAEMON_OFFLINE_MARKER: &'static str = "Cannot connect to the Docker daemon";

/// The stderr text looks like the daemon-not-running error.
pub fn is_daemon_offline(stderr: &str) -> (b: bool)
    ensures
        b == has_sub(stderr@, DAEMON_OFFLINE_MARKER@),
{
    contains(stderr, DAEMON_OFFLINE_MARKER)
}

/// Whether the docker daemon is reachable.
#[derive(Debug, Clone, PartialEq, Eq)]
pub enum DaemonState {
    /// The daemon answered: its server version (or `unknown`).
    Online(String),
    /// The daemon socket is not reachable.
    Offline,
    /// The `docker` CLI could not be started.
    CliMissing(String),
    /// Some other error from the CLI.
    Error(String),
}

/// `docker version --format {{.Server.Version}}`.
pub fn probe_args() -> (r: Vec<String>)
    ensures
        texts(r@) == seq!["version"@, "--format"@, "{{.Server.Version}}"@],
{
    args3("version", "--format", "{{.Server.Version}}")
}

/// What the version probe's outcome says of the daemon: the trimmed
/// server version (`unknown` when empty) after a successful run; offline
/// when stderr holds the offline marker; otherwise the trimmed stderr; and
/// a missing CLI when the process could not start.
pub open spec fn probe_reading(outcome: DockerOutcome, r: DaemonState) -> bool {
    match outcome {
        DockerOutcome::NotStarted => r matches DaemonState::CliMissing(e) && e@ == spawn_message(
            seq!["version"@, "--format"@, "{{.Server.Version}}"@],
        ),
        DockerOutcome::Finished { success, stdout, stderr } => if success {
            let v = trim(utf8_lossy(stdout@));
            r matches DaemonState::Online(s) && s@ == (if v.len() == 0 {
                "unknown"@
            } else {
                v
            })
        } else {
            let e = utf8_lossy(stderr@);
            if has_sub(e, DAEMON_OFFLINE_MARKER@) {
                r is Offline
            } else {
                r matches DaemonState::Error(m) && m@ == trim(e)
            }
        },
    }
}

/// Reads the outcome of the version probe (`probe_args`).
pub fn probe_daemon(outcome: &DockerOutcome) -> (r: DaemonState)
    ensures
        probe_reading(*outcome, r),
{
    match outcome {
        DockerOutcome::NotStarted => {
            let args = probe_args();
            match docker_stdout(&args, outcome) {
                Ok(_) => DaemonState::Offline,
                Err(e) => DaemonState::CliMissing(e),
            }
        },
        DockerOutcome::Finished { success, stdout, stderr } => {
            if *success {
                let out = lossy_text(stdout.as_slice());
                let v = trimmed(out.as_str());
                if v.as_str().is_empty() {
                    DaemonState::Online(text("unknown"))
                } else {
                    DaemonState::Online(v)
                }
            } else {
                let err = lossy_text(stderr.as_slice());
                if is_daemon_offline(err.as_str()) {
                    DaemonState::Offline
                } else {
                    DaemonState::Error(trimmed(err.as_str()))
                }
            }
        },
    }
}


// ─── Text replies (inspect) ────────────────────────────────────────────

/// A textual result, by the views of its strings.
pub open spec fn text_result_is(r: Result<String, String>, s: Result<Seq<char>, Seq<char>>) -> bool {
    match s {
        Ok(t) => r matches Ok(x) && x@ == t,
        Err(m) => r matches Err(e) && e@ == m,
    }
}

/// stdout of a successful run as UTF-8 text; `what` names the error when
/// it is not UTF-8.
pub open spec fn text_reply(args: Seq<Seq<char>>, outcome: DockerOutcome, what: Seq<char>) -> Result<Seq<char>, Seq<char>> {
    match run_result(args, outcome) {
        Err(m) => Err(m),
        Ok(b) => if valid_utf8(b) {
            Ok(decode_utf8(b))
        } else {
            Err(what)
        },
    }
}

fn text_of_run(args: &Vec<String>, outcome: &DockerOutcome, what: &str) -> (r: Result<String, String>)
    ensures
        text_result_is(r, text_reply(texts(args@), *outcome, what@)),
{
    match docker_stdout(args, outcome) {
        Err(e) => Err(e),
        Ok(bytes) => match utf8_text(bytes.as_slice()) {
            Some(t) => Ok(t),
            None => Err(text(what)),
        },
    }
}

/// `docker inspect <id>`.
pub fn inspect_args(id: &str) -> (r: Vec<String>)
    ensures
        texts(r@) == seq!["inspect"@, id@],
{
    args2("inspect", id)
}

/// `docker inspect <id>` output, verbatim (containers, images, compose
/// services).
pub fn inspect(id: &str, outcome: &DockerOutcome) -> (r: Result<String, String>)
    ensures
        text_result_is(
            r,
            text_reply(seq!["inspect"@, id@], *outcome, "docker inspect stdout was not UTF-8"@),
        ),
{
    let args = inspect_args(id);
    text_of_run(&args, outcome, "docker inspect stdout was not UTF-8")
}

/// `docker volume inspect <name>`.
pub fn inspect_volume_args(name: &str) -> (r: Vec<String>)
    ensures
        texts(r@) == seq!["volume"@, "inspect"@, name@],
{
    args3("volume", "inspect", name)
}

/// `docker volume inspect <name>` output, verbatim.
pub fn inspect_volume(name: &str, outcome: &DockerOutcome) -> (r: Result<String, String>)
    ensures
        text_result_is(
            r,
            text_reply(
                seq!["volume"@, "inspect"@, name@],
                *outcome,
                "docker volume inspect stdout was not UTF-8"@,
            ),
        ),
{
    let args = inspect_volume_args(name);
    text_of_run(&args, outcome, "docker volume inspect stdout was not UTF-8")
}

/// `docker network inspect <name>`.
pub fn inspect_network_args(name: &str) -> (r: Vec<String>)
    ensures
        texts(r@) == seq!["network"@, "inspect"@, name@],
{
    args3("network", "inspect", name)
}

/// `docker network inspect <name>` output, verbatim.
pub fn inspect_network(name: &str, outcome: &DockerOutcome) -> (r: Result<String, String>)
    ensures
        text_result_is(
            r,
            text_reply(
                seq!["network"@, "inspect"@, name@],
                *outcome,
                "docker network inspect stdout was not UTF-8"@,
            ),
        ),
{
    let args = inspect_network_args(name);
    text_of_run(&args, outcome, "docker network inspect stdout was not UTF-8")
}

// ─── Actions ────────────────────────────────────────────────────────────

/// `docker stop <id>`.
pub fn stop_container(id: &str) -> (r: Vec<String>)
    ensures
        texts(r@) == seq!["stop"@, id@],
{
    args2("stop", id)
}

/// `docker start <id>`.
pub fn start_container(id: &str) -> (r: Vec<String>)
    ensures
        texts(r@) == seq!["start"@, id@],
{
    args2("start", id)
}

/// `docker rm -f <id>` (force: stops a running container first).
pub fn rm_container(id: &str) -> (r: Vec<String>)
    ensures
        texts(r@) == seq!["rm"@, "-f"@, id@],
{
    args3("rm", "-f", id)
}

/// `docker rmi <id>`.
pub fn rmi_image(id: &str) -> (r: Vec<String>)
    ensures
        texts(r@) == seq!["rmi"@, id@],
{
    args2("rmi", id)
}

/// `docker volume rm <name>`.
pub fn rm_volume(name: &str) -> (r: Vec<String>)
    ensures
        texts(r@) == seq!["volume"@, "rm"@, name@],
{
    args3("volume", "rm", name)
}

/// `docker network rm <name>`.
pub fn rm_network(name: &str) -> (r: Vec<String>)
    ensures
        texts(r@) == seq!["network"@, "rm"@, name@],
{
    args3("network", "rm", name)
}

// ─── Listing ────────────────────────────────────────────────────────────

/// `docker ps -a --format {{json .}}` (every container, stopped ones too).
pub fn containers_args() -> (r: Vec<String>)
    ensures
        texts(r@) == seq!["ps"@, "-a"@, "--format"@, "{{json .}}"@],
{
    args4("ps", "-a", "--format", "{{json .}}")
}

/// `docker images --format {{json .}}`.
pub fn images_args() -> (r: Vec<String>)
    ensures
        texts(r@) == seq!["images"@, "--format"@, "{{json .}}"@],
{
    args3("images", "--format", "{{json .}}")
}

/// `docker volume ls --format {{json .}}`.
pub fn volumes_args() -> (r: Vec<String>)
    ensures
        texts(r@) == seq!["volume"@, "ls"@, "--format"@, "{{json .}}"@],
{
    args4("volume", "ls", "--format", "{{json .}}")
}

/// `docker network ls --format {{json .}}`.
pub fn networks_args() -> (r: Vec<String>)
    ensures
        texts(r@) == seq!["network"@, "ls"@, "--format"@, "{{json .}}"@],
{
    args4("network", "ls", "--format", "{{json .}}")
}

/// `docker compose -f <file> ps --format json`: the command that lists the
/// services of one compose project.
pub fn list_compose_services(compose_file: &str) -> (r: Vec<String>)
    ensures
        texts(r@) == seq!["compose"@, "-f"@, compose_file@, "ps"@, "--format"@, "json"@],
{
    let mut v = args4("compose", "-f", compose_file, "ps");
    let a = text("--format");
    proof {
        lemma_texts_push(v@, a);
    }
    v.push(a);
    let b = text("json");
    proof {
        lemma_texts_push(v@, b);
    }
    v.push(b);
    v
}

/// Sort key of a container: its lower-cased name.
pub open spec fn container_key() -> spec_fn(Container) -> Seq<char> {
    |c: Container| lowercase(c.names@)
}

/// Sort key of an image: its lower-cased `repository:tag`.
pub open spec fn image_key() -> spec_fn(Image) -> Seq<char> {
    |i: Image| lowercase(repo_tag_of(i.repository@, i.tag@))
}

/// Sort key of a volume: its lower-cased name.
pub open spec fn volume_key() -> spec_fn(Volume) -> Seq<char> {
    |v: Volume| lowercase(v.name@)
}

/// Sort key of a network: its lower-cased name.
pub open spec fn network_key() -> spec_fn(Network) -> Seq<char> {
    |n: Network| lowercase(n.name@)
}

/// Containers in display order: stable-sorted by lower-cased name.
pub fn list_containers(rows: Vec<Container>) -> (r: Vec<Container>)
    ensures
        stable_sort_of(r@, rows@, container_key()),
{
    let mut keys: Vec<Vec<char>> = Vec::new();
    let mut i: usize = 0;
    while i < rows.len()
        invariant
            i <= rows@.len(),
            keys@.len() == i,
            forall|j: int| 0 <= j < i ==> (#[trigger] keys@[j])@ == (container_key())(rows@[j]),
        decreases rows@.len() - i,
    {
        let k = to_lowercase(rows[i].names.as_str());
        keys.push(chars_of(k.as_str()));
        i += 1;
    }
    sort_by_keys(rows, keys, Ghost(container_key()))
}

/// Images in display order: stable-sorted by lower-cased `repository:tag`.
pub fn list_images(rows: Vec<Image>) -> (r: Vec<Image>)
    ensures
        stable_sort_of(r@, rows@, image_key()),
{
    let mut keys: Vec<Vec<char>> = Vec::new();
    let mut i: usize = 0;
    while i < rows.len()
        invariant
            i <= rows@.len(),
            keys@.len() == i,
            forall|j: int| 0 <= j < i ==> (#[trigger] keys@[j])@ == (image_key())(rows@[j]),
        decreases rows@.len() - i,
    {
        let rt = rows[i].repo_tag();
        let k = to_lowercase(rt.as_str());
        keys.push(chars_of(k.as_str()));
        i += 1;
    }
    sort_by_keys(rows, keys, Ghost(image_key()))
}

/// Volumes in display order: stable-sorted by lower-cased name.
pub fn list_volumes(rows: Vec<Volume>) -> (r: Vec<Volume>)
    ensures
        stable_sort_of(r@, rows@, volume_key()),
{
    let mut keys: Vec<Vec<char>> = Vec::new();
    let mut i: usize = 0;
    while i < rows.len()
        invariant
            i <= rows@.len(),
            keys@.len() == i,
            forall|j: int| 0 <= j < i ==> (#[trigger] keys@[j])@ == (volume_key())(rows@[j]),
        decreases rows@.len() - i,
    {
        let k = to_lowercase(rows[i].name.as_str());
        keys.push(chars_of(k.as_str()));
        i += 1;
    }
    sort_by_keys(rows, keys, Ghost(volume_key()))
}

/// Networks in display order: stable-sorted by lower-cased name.
pub fn list_networks(rows: Vec<Network>) -> (r: Vec<Network>)
    ensures
        stable_sort_of(r@, rows@, network_key()),
{
    let mut keys: Vec<Vec<char>> = Vec::new();
    let mut i: usize = 0;
    while i < rows.len()
        invariant
            i <= rows@.len(),
            keys@.len() == i,
            forall|j: int| 0 <= j < i ==> (#[trigger] keys@[j])@ == (network_key())(rows@[j]),
        decreases rows@.len() - i,
    {
        let k = to_lowercase(rows[i].name.as_str());
        keys.push(chars_of(k.as_str()));
        i += 1;
    }
    sort_by_keys(rows, keys, Ghost(network_key()))
}


// ─── JSON framing ───────────────────────────────────────────────────────

/// The lines of `s` (`str::lines`): pieces between `\n`, without the empty
/// piece after a final `\n` (a `\r` before `\n` is left in the piece; every
/// use trims it).
pub open spec fn raw_lines(s: Seq<char>) -> Seq<Seq<char>> {
    let parts = split_on(s, '\n');
    if parts.last().len() == 0 {
        parts.drop_last()
    } else {
        parts
    }
}

/// `(line number, trimmed text)` of each of the first `n` lines whose
/// trimmed text is not empty; numbers count from 1 and include blank lines.
pub open spec fn frames_upto(lines: Seq<Seq<char>>, n: int) -> Seq<(int, Seq<char>)>
    decreases n,
{
    if n <= 0 {
        Seq::empty()
    } else {
        let prev = frames_upto(lines, n - 1);
        let t = trim(lines[n - 1]);
        if t.len() > 0 {
            prev.push((n, t))
        } else {
            prev
        }
    }
}

/// The non-blank lines of newline-delimited JSON text, trimmed, with
/// their line numbers.
pub open spec fn ndjson_frames(s: Seq<char>) -> Seq<(int, Seq<char>)> {
    frames_upto(raw_lines(s), raw_lines(s).len() as int)
}

/// One non-blank line of newline-delimited JSON.
#[derive(Debug, Clone)]
pub struct NdjsonLine {
    /// 1-based line number in the whole text.
    pub number: usize,
    /// The line, trimmed.
    pub text: String,
}

pub open spec fn frame_views(v: Seq<NdjsonLine>) -> Seq<(int, Seq<char>)> {
    v.map_values(|l: NdjsonLine| (l.number as int, l.text@))
}

/// Frames docker's newline-delimited JSON output: one frame per non-blank
/// line. Output that is not UTF-8 is an error.
pub fn ndjson_lines(bytes: &[u8]) -> (r: Result<Vec<NdjsonLine>, String>)
    ensures
        r is Err <==> !valid_utf8(bytes@),
        r matches Err(e) ==> e@ == "docker stdout was not UTF-8"@,
        r matches Ok(v) ==> frame_views(v@) == ndjson_frames(decode_utf8(bytes@)),
{
    let s = match utf8_text(bytes) {
        Some(t) => t,
        None => {
            return Err(text("docker stdout was not UTF-8"));
        },
    };
    let mut parts = split_chars(s.as_str(), '\n');
    proof {
        crate::text::lemma_split_on_nonempty(s@, '\n');
    }
    let last = parts.len() - 1;
    assert(parts@[last as int]@ == views(parts@).last());
    if parts[last].len() == 0 {
        parts.pop();
        assert(views(parts@) =~= split_on(s@, '\n').drop_last());
    }
    let ghost lines = views(parts@);
    assert(lines == raw_lines(s@));
    let mut out: Vec<NdjsonLine> = Vec::new();
    let mut i: usize = 0;
    while i < parts.len()
        invariant
            i <= parts@.len(),
            lines == views(parts@),
            frame_views(out@) == frames_upto(lines, i as int),
        decreases parts@.len() - i,
    {
        assert(parts@[i as int]@ == lines[i as int]);
        let line = string_of(parts[i].as_slice());
        let t = trimmed(line.as_str());
        if !t.as_str().is_empty() {
            let ghost before = out@;
            out.push(NdjsonLine { number: i + 1, text: t });
            assert(frame_views(out@) =~= frame_views(before).push(((i + 1) as int, trim(lines[i as int]))));
        }
        i += 1;
    }
    Ok(out)
}

/// Every decoded frame, or the error naming the first line that did not
/// decode.
pub open spec fn rows_result<T>(lines: Seq<NdjsonLine>, decoded: Seq<Option<T>>, r: Result<Vec<T>, String>) -> bool {
    match r {
        Ok(v) => v@.len() == decoded.len() && forall|i: int| 0 <= i < decoded.len() ==> #[trigger] decoded[i] == Some(v@[i]),
        Err(e) => exists|i: int|
            0 <= i < decoded.len() && decoded[i] is None && (forall|j: int| 0 <= j < i ==> #[trigger] decoded[j] is Some)
                && e@ == "parse docker ndjson line "@ + decimal(lines[i].number as nat),
    }
}

/// Gathers the records that the caller decoded from `lines` (one entry
/// per frame, `None` where a frame did not decode).
pub fn collect_rows<T>(lines: &Vec<NdjsonLine>, rows: Vec<Option<T>>) -> (r: Result<Vec<T>, String>)
    requires
        rows@.len() == lines@.len(),
    ensures
        rows_result(lines@, rows@, r),
        r is Ok <==> forall|i: int| 0 <= i < rows@.len() ==> #[trigger] rows@[i] is Some,
{
    let ghost all = rows@;
    let mut decoded = rows;
    let mut out: Vec<T> = Vec::new();
    let mut i: usize = 0;
    while decoded.len() > 0
        invariant
            i <= all.len(),
            all == rows@,
            decoded@ == all.skip(i as int),
            out@.len() == i,
            all.len() == lines.len(),
            forall|j: int| 0 <= j < i ==> #[trigger] all[j] == Some(out@[j]),
        decreases decoded@.len(),
    {
        let d = decoded.remove(0);
        assert(d == all[i as int]);
        match d {
            Some(x) => {
                out.push(x);
                assert(decoded@ =~= all.skip(i + 1));
            },
            None => {
                assert(all[i as int] is None);
                assert(forall|j: int| 0 <= j < i ==> #[trigger] all[j] is Some);
                let n = decimal_text(lines[i].number);
                return Err(cat("parse docker ndjson line ", n.as_str()));
            },
        }
        i += 1;
    }
    Ok(out)
}

/// Error for a compose listing in the JSON-array shape that did not decode.
pub const COMPOSE_ARRAY_ERROR: &'static str = "parse compose ps JSON array";

/// ASCII whitespace as `u8::is_ascii_whitespace` has it.
pub open spec fn ascii_ws_byte(b: u8) -> bool {
    b == 0x20 || b == 0x09 || b == 0x0a || b == 0x0c || b == 0x0d
}

/// The first byte that is not ASCII whitespace is `[`.
pub open spec fn starts_json_array(b: Seq<u8>) -> bool {
    exists|i: int| 0 <= i < b.len() && b[i] == 0x5b && forall|j: int| 0 <= j < i ==> ascii_ws_byte(#[trigger] b[j])
}

/// Whether `docker compose ps` answered with a JSON array (current
/// compose) rather than newline-delimited JSON (older builds).
pub fn compose_is_array(bytes: &[u8]) -> (r: bool)
    ensures
        r == starts_json_array(bytes@),
{
    let mut i: usize = 0;
    while i < bytes.len()
        invariant
            i <= bytes@.len(),
            forall|j: int| 0 <= j < i ==> ascii_ws_byte(#[trigger] bytes@[j]),
        decreases bytes@.len() - i,
    {
        let b = bytes[i];
        if !(b == 0x20 || b == 0x09 || b == 0x0a || b == 0x0c || b == 0x0d) {
            if b == 0x5b {
                return true;
            }
            assert forall|k: int| 0 <= k < bytes@.len() && bytes@[k] == 0x5b implies !(forall|j: int|
                0 <= j < k ==> ascii_ws_byte(#[trigger] bytes@[j])) by {
                if k > i {
                    assert(!ascii_ws_byte(bytes@[i as int]));
                }
            }
            return false;
        }
        i += 1;
    }
    false
}

} // verus!
