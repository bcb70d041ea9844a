//! The browser's state: one tab per configured view, each with its list of
//! docker resources, a selection cursor and the lazily loaded `inspect`
//! text of the focused row; a status line; the daemon state; the pending
//! `rm` confirmation.
//!
//! Work outside the process (running docker, the clipboard, launching a
//! program) is not done here. A method that needs it leaves a
//! [`Request`] in `App::request`; the caller performs it and hands the
//! outcome back through the matching `on_*` method, which may leave the
//! next request.

use vstd::prelude::*;
use vstd::string::*;
use crate::config::{Config, Tab, has_project_path, path_or_empty, plain_kind};
use crate::docker::{
    self, can_shorten, image_short_source, repo_tag_of, shortened, Container, ComposeService,
    DaemonState, DockerOutcome, Image, Network, Volume,
};
use crate::text::{
    cat, debug_quoted, debug_text, join_path, opt_view, path_join, same, trim, trimmed,
};

verus! {

// ─── Tabs ───────────────────────────────────────────────────────────────

/// What a tab lists.
#[derive(Debug, Clone, PartialEq, Eq)]
pub enum TabKind {
    Containers,
    Images,
    Volumes,
    Networks,
    /// Services of one compose project; `compose_file` is the resolved
    /// path of its compose file.
    Compose { compose_file: String },
}

/// The kind's name as the config file spells it.
pub open spec fn kind_name(k: TabKind) -> Seq<char> {
    match k {
        TabKind::Containers => "containers"@,
        TabKind::Images => "images"@,
        TabKind::Volumes => "volumes"@,
        TabKind::Networks => "networks"@,
        TabKind::Compose { .. } => "compose"@,
    }
}

impl TabKind {
    pub fn as_str(&self) -> (r: &'static str)
        ensures
            r@ == kind_name(*self),
    {
        match self {
            TabKind::Containers => "containers",
            TabKind::Images => "images",
            TabKind::Volumes => "volumes",
            TabKind::Networks => "networks",
            TabKind::Compose { .. } => "compose",
        }
    }

    /// A copy with the same contents.
    pub fn duplicate(&self) -> (r: TabKind)
        ensures
            r == *self,
    {
        match self {
            TabKind::Containers => TabKind::Containers,
            TabKind::Images => TabKind::Images,
            TabKind::Volumes => TabKind::Volumes,
            TabKind::Networks => TabKind::Networks,
            TabKind::Compose { compose_file } => TabKind::Compose { compose_file: compose_file.clone() },
        }
    }
}

/// A resolved tab entry.
#[derive(Debug, Clone)]
pub struct TabSpec {
    pub kind: TabKind,
}

/// `Path::file_name` of a path held as text.
pub uninterp spec fn file_name_of(p: Seq<char>) -> Option<Seq<char>>;

/// The final component of a path (`Path::file_name`), as text.
#[verifier::external_body]
fn file_name(p: &str) -> (r: Option<String>)
    ensures
        opt_view(r) == file_name_of(p@),
{
    std::path::Path::new(p).file_name().map(|n| n.to_string_lossy().into_owned())
}

/// Whether something exists at the path (`Path::exists`); it depends on
/// the disk, so nothing is stated of it.
#[verifier::external_body]
fn path_exists(p: &str) -> (r: bool) {
    std::path::Path::new(p).exists()
}

/// The conventional compose file names, in order of preference.
pub open spec fn compose_candidate(k: int) -> Seq<char> {
    if k == 0 {
        "compose.yaml"@
    } else if k == 1 {
        "compose.yml"@
    } else {
        "docker-compose.yml"@
    }
}

/// One of the four conventional compose file names. (Each has an
/// extension, so `Path::extension` is `Some` for them.)
pub open spec fn compose_file_name(n: Seq<char>) -> bool {
    n == "compose.yaml"@ || n == "compose.yml"@ || n == "docker-compose.yml"@ || n
        == "docker-compose.yaml"@
}

/// Whether a file name is one of the four compose file names.
pub fn is_compose_file_name(name: &str) -> (b: bool)
    ensures
        b == compose_file_name(name@),
{
    same(name, "compose.yaml") || same(name, "compose.yml") || same(name, "docker-compose.yml")
        || same(name, "docker-compose.yaml")
}

/// The path names a compose file itself.
pub open spec fn names_compose_file(dir: Seq<char>) -> bool {
    match file_name_of(dir) {
        Some(n) => compose_file_name(n),
        None => false,
    }
}

/// The compose file for a project path: the path itself when it names a
/// compose file; else the first candidate present in the directory; else
/// `<dir>/docker-compose.yml`.
pub open spec fn compose_file_for(dir: Seq<char>, present: Seq<bool>) -> Seq<char> {
    if names_compose_file(dir) {
        dir
    } else if present[0] {
        path_join(dir, compose_candidate(0))
    } else if present[1] {
        path_join(dir, compose_candidate(1))
    } else {
        path_join(dir, compose_candidate(2))
    }
}

fn candidate_name(k: usize) -> (r: &'static str)
    ensures
        r@ == compose_candidate(k as int),
{
    if k == 0 {
        "compose.yaml"
    } else if k == 1 {
        "compose.yml"
    } else {
        "docker-compose.yml"
    }
}

/// Whether the path names a compose file itself.
pub fn looks_like_compose_file(dir: &str) -> (b: bool)
    ensures
        b == names_compose_file(dir@),
{
    match file_name(dir) {
        Some(n) => is_compose_file_name(n.as_str()),
        None => false,
    }
}

/// The compose file, given which candidates are present in the directory
/// (`present[k]` for `compose_candidate(k)`).
pub fn pick_compose_file(dir: &str, present: &Vec<bool>) -> (r: String)
    requires
        present@.len() == 3,
    ensures
        r@ == compose_file_for(dir@, present@),
{
    if looks_like_compose_file(dir) {
        String::from_str(dir)
    } else if present[0] {
        join_path(dir, candidate_name(0))
    } else if present[1] {
        join_path(dir, candidate_name(1))
    } else {
        join_path(dir, candidate_name(2))
    }
}

/// The error for a compose tab without a project path.
pub open spec fn missing_path_error(t: Tab) -> Seq<char> {
    "tab `"@ + t.name@ + "`: kind=\"compose\" requires `project_path`"@
}

/// The error for a tab of unknown kind.
pub open spec fn unknown_kind_error(t: Tab) -> Seq<char> {
    "tab `"@ + t.name@ + "`: unknown kind "@ + debug_quoted(t.kind@)
}

/// What resolving a tab gives, but for which compose file a directory
/// holds (that depends on the disk).
pub open spec fn resolves_to(t: Tab, r: Result<TabSpec, String>) -> bool {
    if t.kind@ == "containers"@ {
        r matches Ok(s) && s.kind is Containers
    } else if t.kind@ == "images"@ {
        r matches Ok(s) && s.kind is Images
    } else if t.kind@ == "volumes"@ {
        r matches Ok(s) && s.kind is Volumes
    } else if t.kind@ == "networks"@ {
        r matches Ok(s) && s.kind is Networks
    } else if t.kind@ == "compose"@ {
        if !has_project_path(t) {
            r matches Err(e) && e@ == missing_path_error(t)
        } else {
            r matches Ok(s) && s.kind matches TabKind::Compose { compose_file } && exists|present: Seq<bool>|
                present.len() == 3 && compose_file@ == compose_file_for(trim(path_or_empty(t.project_path)), present)
        }
    } else {
        r matches Err(e) && e@ == unknown_kind_error(t)
    }
}

impl TabSpec {
    /// Resolves a config entry; a compose entry's project directory is
    /// probed for `compose.yaml`, `compose.yml`, `docker-compose.yml` in
    /// that order.
    pub fn resolve(t: &Tab) -> (r: Result<TabSpec, String>)
        ensures
            resolves_to(*t, r),
    {
        if same(t.kind.as_str(), "containers") {
            return Ok(TabSpec { kind: TabKind::Containers });
        }
        if same(t.kind.as_str(), "images") {
            return Ok(TabSpec { kind: TabKind::Images });
        }
        if same(t.kind.as_str(), "volumes") {
            return Ok(TabSpec { kind: TabKind::Volumes });
        }
        if same(t.kind.as_str(), "networks") {
            return Ok(TabSpec { kind: TabKind::Networks });
        }
        if same(t.kind.as_str(), "compose") {
            let dir = crate::config::trimmed_project_path(&t.project_path);
            if dir.as_str().is_empty() {
                let a = cat("tab `", t.name.as_str());
                return Err(cat(a.as_str(), "`: kind=\"compose\" requires `project_path`"));
            }
            let mut present: Vec<bool> = Vec::new();
            let mut found = false;
            let mut k: usize = 0;
            while k < 3
                invariant
                    k <= 3,
                    present@.len() == k,
                decreases 3 - k,
            {
                if found {
                    present.push(false);
                } else {
                    let cand = join_path(dir.as_str(), candidate_name(k));
                    let e = path_exists(cand.as_str());
                    present.push(e);
                    found = e;
                }
                k += 1;
            }
            let f = pick_compose_file(dir.as_str(), &present);
            return Ok(TabSpec { kind: TabKind::Compose { compose_file: f } });
        }
        let a = cat("tab `", t.name.as_str());
        let b = cat(a.as_str(), "`: unknown kind ");
        let q = debug_text(t.kind.as_str());
        Err(cat(b.as_str(), q.as_str()))
    }
}


// ─── Items ──────────────────────────────────────────────────────────────

/// One row of a tab.
#[derive(Debug, Clone)]
pub enum Item {
    Container(Container),
    Image(Image),
    Volume(Volume),
    Network(Network),
    ComposeService(ComposeService),
}

/// The bold name at the left of a row.
pub open spec fn primary_of(i: Item) -> Seq<char> {
    match i {
        Item::Container(c) => c.names@,
        Item::Image(m) => repo_tag_of(m.repository@, m.tag@),
        Item::Volume(v) => v.name@,
        Item::Network(n) => n.name@,
        Item::ComposeService(s) => s.service@,
    }
}

/// The ids shown in short form can be cut at 12 bytes.
pub open spec fn shortable(i: Item) -> bool {
    match i {
        Item::Container(c) => can_shorten(c.id@),
        Item::Image(m) => can_shorten(image_short_source(m.id@)),
        Item::Network(n) => can_shorten(n.id@),
        _ => true,
    }
}

/// The text trailing the name in a row.
pub open spec fn secondary_of(i: Item) -> Seq<char> {
    match i {
        Item::Container(c) => shortened(c.id@) + "  "@ + c.image@ + (if c.ports@.len() == 0 {
            Seq::empty()
        } else {
            " · "@ + c.ports@
        }),
        Item::Image(m) => shortened(image_short_source(m.id@)) + "  "@ + m.size@ + "  "@
            + m.created_since@,
        Item::Volume(v) => v.driver@ + "  "@ + v.mountpoint@,
        Item::Network(n) => shortened(n.id@) + "  "@ + n.driver@ + "  "@ + n.scope@,
        Item::ComposeService(s) => if s.image@.len() == 0 {
            s.status@
        } else {
            s.status@ + "  "@ + s.image@
        },
    }
}

/// docker's state word for containers and services; the kind otherwise.
pub open spec fn state_of(i: Item) -> Seq<char> {
    match i {
        Item::Container(c) => c.state@,
        Item::Image(_) => "image"@,
        Item::Volume(_) => "volume"@,
        Item::Network(_) => "network"@,
        Item::ComposeService(s) => s.state@,
    }
}

/// The identifier used for inspect, actions and yanks.
pub open spec fn id_of(i: Item) -> Seq<char> {
    match i {
        Item::Container(c) => c.id@,
        Item::Image(m) => m.id@,
        Item::Volume(v) => v.name@,
        Item::Network(n) => n.name@,
        Item::ComposeService(s) => s.name@,
    }
}

fn cat3(a: &str, b: &str, c: &str) -> (r: String)
    ensures
        r@ == a@ + b@ + c@,
{
    let x = cat(a, b);
    cat(x.as_str(), c)
}

impl Item {
    pub fn primary_label(&self) -> (r: String)
        ensures
            r@ == primary_of(*self),
    {
        match self {
            Item::Container(c) => c.names.clone(),
            Item::Image(i) => i.repo_tag(),
            Item::Volume(v) => v.name.clone(),
            Item::Network(n) => n.name.clone(),
            Item::ComposeService(s) => s.service.clone(),
        }
    }

    pub fn secondary_label(&self) -> (r: String)
        requires
            shortable(*self),
        ensures
            r@ == secondary_of(*self),
    {
        match self {
            Item::Container(c) => {
                let head = cat3(c.short_id(), "  ", c.image.as_str());
                if c.ports.as_str().is_empty() {
                    proof {
                        reveal_strlit("");
                    }
                    assert(head@ + Seq::<char>::empty() =~= head@);
                    head
                } else {
                    cat3(head.as_str(), " · ", c.ports.as_str())
                }
            },
            Item::Image(i) => {
                let a = cat3(i.short_id(), "  ", i.size.as_str());
                cat3(a.as_str(), "  ", i.created_since.as_str())
            },
            Item::Volume(v) => cat3(v.driver.as_str(), "  ", v.mountpoint.as_str()),
            Item::Network(n) => {
                let a = cat3(n.short_id(), "  ", n.driver.as_str());
                cat3(a.as_str(), "  ", n.scope.as_str())
            },
            Item::ComposeService(s) => {
                if s.image.as_str().is_empty() {
                    s.status.clone()
                } else {
                    cat3(s.status.as_str(), "  ", s.image.as_str())
                }
            },
        }
    }

    pub fn state(&self) -> (r: &str)
        ensures
            r@ == state_of(*self),
    {
        match self {
            Item::Container(c) => c.state.as_str(),
            Item::Image(_) => "image",
            Item::Volume(_) => "volume",
            Item::Network(_) => "network",
            Item::ComposeService(s) => s.state.as_str(),
        }
    }

    pub fn id(&self) -> (r: &str)
        ensures
            r@ == id_of(*self),
    {
        match self {
            Item::Container(c) => c.id.as_str(),
            Item::Image(i) => i.id.as_str(),
            Item::Volume(v) => v.name.as_str(),
            Item::Network(n) => n.name.as_str(),
            Item::ComposeService(s) => s.name.as_str(),
        }
    }
}

// ─── Pending removal ────────────────────────────────────────────────────

/// A destructive action awaiting confirmation.
#[derive(Debug, Clone, PartialEq, Eq)]
pub enum RmPending {
    Container(String),
    Image(String),
    Volume(String),
    Network(String),
}

/// The ids that the description shortens can be cut at 12 bytes.
pub open spec fn pending_shortable(p: RmPending) -> bool {
    match p {
        RmPending::Container(id) => can_shorten(id@),
        RmPending::Image(id) => can_shorten(id@),
        _ => true,
    }
}

/// `remove <what> <id or name>`, ids in short form.
pub open spec fn description_of(p: RmPending) -> Seq<char> {
    match p {
        RmPending::Container(id) => "remove container "@ + shortened(id@),
        RmPending::Image(id) => "remove image "@ + shortened(id@),
        RmPending::Volume(name) => "remove volume "@ + name@,
        RmPending::Network(name) => "remove network "@ + name@,
    }
}

impl RmPending {
    pub fn description(&self) -> (r: String)
        requires
            pending_shortable(*self),
        ensures
            r@ == description_of(*self),
    {
        match self {
            RmPending::Container(id) => cat("remove container ", docker::short(id.as_str())),
            RmPending::Image(id) => cat("remove image ", docker::short(id.as_str())),
            RmPending::Volume(name) => cat("remove volume ", name.as_str()),
            RmPending::Network(name) => cat("remove network ", name.as_str()),
        }
    }

    pub fn duplicate(&self) -> (r: RmPending)
        ensures
            r == *self,
    {
        match self {
            RmPending::Container(id) => RmPending::Container(id.clone()),
            RmPending::Image(id) => RmPending::Image(id.clone()),
            RmPending::Volume(n) => RmPending::Volume(n.clone()),
            RmPending::Network(n) => RmPending::Network(n.clone()),
        }
    }
}


// ─── Tab state ──────────────────────────────────────────────────────────

/// The rows of one tab and what has been loaded for them.
#[derive(Debug, Clone)]
pub struct ItemsTab {
    pub items: Vec<Item>,
    pub selected: usize,
    /// When the list was last loaded (monotonic clock, nanoseconds).
    pub last_loaded: Option<u64>,
    pub last_error: Option<String>,
    pub loading: bool,
    /// `docker inspect` text for the focused row, fetched lazily.
    pub focused_detail: Option<String>,
    /// The id that `focused_detail` belongs to.
    pub focused_detail_for: Option<String>,
}

impl ItemsTab {
    pub fn empty() -> (r: ItemsTab)
        ensures
            r.items@.len() == 0,
            r.selected == 0,
            r.last_loaded is None,
            r.last_error is None,
            !r.loading,
            r.focused_detail is None,
            r.focused_detail_for is None,
    {
        ItemsTab {
            items: Vec::new(),
            selected: 0,
            last_loaded: None,
            last_error: None,
            loading: false,
            focused_detail: None,
            focused_detail_for: None,
        }
    }
}

#[derive(Debug, Clone)]
pub struct TabState {
    pub name: String,
    pub spec: TabSpec,
    pub data: ItemsTab,
}

/// The cursor is on a row, or at 0 when there are none.
pub open spec fn selection_ok(d: ItemsTab) -> bool {
    if d.items@.len() == 0 {
        d.selected == 0
    } else {
        d.selected < d.items@.len()
    }
}

// ─── Requests for outside work ─────────────────────────────────────────

/// What follows a list refresh.
#[derive(Debug, Clone, Copy, PartialEq, Eq)]
pub enum Then {
    Nothing,
    /// Load the focused row's inspect text.
    EnsureFocused,
}

/// Why the daemon is being probed.
#[derive(Debug, Clone, Copy, PartialEq, Eq)]
pub enum AfterProbe {
    /// First probe when the app starts.
    Startup,
    /// A refresh found the daemon offline.
    Refresh(Then),
}

/// Which inspect command describes an item.
#[derive(Debug, Clone, Copy, PartialEq, Eq)]
pub enum InspectKind {
    /// `docker inspect` (containers, images, compose services).
    Object,
    /// `docker volume inspect`.
    Volume,
    /// `docker network inspect`.
    Network,
}

/// What a docker action was for.
#[derive(Debug, Clone)]
pub enum AfterRun {
    /// Started the container with this label.
    Started(String),
    /// Stopped the container with this label.
    Stopped(String),
    /// Carried out a confirmed removal.
    Removed(RmPending),
}

/// What a launched program was for.
#[derive(Debug, Clone)]
pub enum AfterLaunch {
    Desktop,
    /// `mnml-aws-ecr` for this region.
    Ecr(String),
}

/// Outside work the app is waiting for.
#[derive(Debug, Clone)]
pub enum Request {
    /// Run the daemon probe (`docker::probe_args`); answer with `on_probed`.
    Probe(AfterProbe),
    /// List the resources of tab `tab` (`list_args`); answer with `on_listed`.
    List { tab: usize, kind: TabKind, then: Then },
    /// Inspect `id` (`inspect_request_args`); answer with `on_inspected`.
    Inspect { tab: usize, id: String, kind: InspectKind },
    /// Run `docker <args>`; answer with `on_ran`.
    Run { args: Vec<String>, then: AfterRun },
    /// Put the text on the clipboard; answer with `on_copied`.
    Copy(String),
    /// Start the program (detached); answer with `on_launched`.
    Launch { argv: Vec<String>, then: AfterLaunch },
}

/// The inspect command for an item.
pub open spec fn inspect_kind_of(i: Item) -> InspectKind {
    match i {
        Item::Volume(_) => InspectKind::Volume,
        Item::Network(_) => InspectKind::Network,
        _ => InspectKind::Object,
    }
}

/// Arguments of the inspect command.
pub open spec fn inspect_args_of(kind: InspectKind, id: Seq<char>) -> Seq<Seq<char>> {
    match kind {
        InspectKind::Object => seq!["inspect"@, id],
        InspectKind::Volume => seq!["volume"@, "inspect"@, id],
        InspectKind::Network => seq!["network"@, "inspect"@, id],
    }
}

/// The text of an inspect reply.
pub open spec fn inspect_reply(kind: InspectKind, id: Seq<char>, outcome: DockerOutcome) -> Result<Seq<char>, Seq<char>> {
    docker::text_reply(
        inspect_args_of(kind, id),
        outcome,
        match kind {
            InspectKind::Object => "docker inspect stdout was not UTF-8"@,
            InspectKind::Volume => "docker volume inspect stdout was not UTF-8"@,
            InspectKind::Network => "docker network inspect stdout was not UTF-8"@,
        },
    )
}

/// The docker arguments for an inspect request.
pub fn inspect_request_args(kind: InspectKind, id: &str) -> (r: Vec<String>)
    ensures
        docker::texts(r@) == inspect_args_of(kind, id@),
{
    match kind {
        InspectKind::Object => docker::inspect_args(id),
        InspectKind::Volume => docker::inspect_volume_args(id),
        InspectKind::Network => docker::inspect_network_args(id),
    }
}

/// Arguments of the command that lists a tab.
pub open spec fn list_args_of(k: TabKind) -> Seq<Seq<char>> {
    match k {
        TabKind::Containers => seq!["ps"@, "-a"@, "--format"@, "{{json .}}"@],
        TabKind::Images => seq!["images"@, "--format"@, "{{json .}}"@],
        TabKind::Volumes => seq!["volume"@, "ls"@, "--format"@, "{{json .}}"@],
        TabKind::Networks => seq!["network"@, "ls"@, "--format"@, "{{json .}}"@],
        TabKind::Compose { compose_file } => seq![
            "compose"@,
            "-f"@,
            compose_file@,
            "ps"@,
            "--format"@,
            "json"@,
        ],
    }
}

impl TabKind {
    /// The docker arguments that list this kind.
    pub fn list_args(&self) -> (r: Vec<String>)
        ensures
            docker::texts(r@) == list_args_of(*self),
    {
        match self {
            TabKind::Containers => docker::containers_args(),
            TabKind::Images => docker::images_args(),
            TabKind::Volumes => docker::volumes_args(),
            TabKind::Networks => docker::networks_args(),
            TabKind::Compose { compose_file } => docker::list_compose_services(compose_file.as_str()),
        }
    }
}


// ─── The app ────────────────────────────────────────────────────────────

pub struct App {
    pub cfg: Config,
    pub tabs: Vec<TabState>,
    pub active_tab: usize,
    pub status: String,
    pub daemon: DaemonState,
    /// The `R` confirmation overlay; `None` when nothing awaits.
    pub rm_pending: Option<RmPending>,
    /// Commands to run in the foreground terminal (logs, exec).
    pub pending_spawns: Vec<Vec<String>>,
    /// Outside work to perform next, if any.
    pub request: Option<Request>,
}

/// The daemon probe ran and succeeded (so the daemon counts as online).
pub open spec fn probe_answered(o: DockerOutcome) -> bool {
    o matches DockerOutcome::Finished { success, .. } && success
}

/// The daemon answered.
pub open spec fn is_online(d: DaemonState) -> bool {
    d is Online
}

/// The row under the cursor of the active tab.
pub open spec fn focused_of(a: App) -> Option<Item> {
    let d = a.tabs@[a.active_tab as int].data;
    if a.active_tab < a.tabs@.len() && d.selected < d.items@.len() {
        Some(d.items@[d.selected as int])
    } else {
        None
    }
}

/// The focused row's inspect text is already held.
pub open spec fn detail_cached(d: ItemsTab, id: Seq<char>) -> bool {
    &&& d.focused_detail_for matches Some(f) && f@ == id
    &&& d.focused_detail is Some
}

/// The request after loading the focused row's inspect text from `a`: an
/// inspect of the focused row, or `a`'s own request when none is needed.
pub open spec fn focus_request_ok(a: App, r: Option<Request>) -> bool {
    match focused_of(a) {
        None => r == a.request,
        Some(it) => if !is_online(a.daemon) || detail_cached(a.tabs@[a.active_tab as int].data, id_of(it)) {
            r == a.request
        } else {
            r matches Some(Request::Inspect { tab, id, kind }) && tab == a.active_tab && id@ == id_of(it)
                && kind == inspect_kind_of(it)
        },
    }
}

/// The ids a removal confirmation of the item would show can be cut.
pub open spec fn rm_shortable(i: Item) -> bool {
    match i {
        Item::Container(c) => can_shorten(c.id@),
        Item::Image(m) => can_shorten(m.id@),
        _ => true,
    }
}

impl App {
    /// The shape every operation keeps: there is an active tab, each
    /// cursor is on a row (or 0 on an empty tab), and what awaits an
    /// answer names an existing tab.
    pub open spec fn wf(&self) -> bool {
        &&& self.tabs@.len() <= usize::MAX
        &&& if self.tabs@.len() == 0 {
            self.active_tab == 0 && !is_online(self.daemon)
        } else {
            self.active_tab < self.tabs@.len()
        }
        &&& forall|i: int| 0 <= i < self.tabs@.len() ==> selection_ok(#[trigger] self.tabs@[i].data)
        &&& match self.request {
            Some(Request::List { tab, .. }) => tab < self.tabs@.len(),
            Some(Request::Inspect { tab, .. }) => tab < self.tabs@.len(),
            Some(Request::Run { then: AfterRun::Removed(p), .. }) => pending_shortable(p),
            _ => true,
        }
        &&& match self.rm_pending {
            Some(p) => pending_shortable(p),
            None => true,
        }
    }

    pub fn active(&self) -> (r: &TabState)
        requires
            self.wf(),
            self.tabs@.len() > 0,
        ensures
            *r == self.tabs@[self.active_tab as int],
    {
        &self.tabs[self.active_tab]
    }

    pub fn active_mut(&mut self) -> (r: &mut TabState)
        requires
            old(self).wf(),
            old(self).tabs@.len() > 0,
        ensures
            *r == old(self).tabs@[old(self).active_tab as int],
            final(self).tabs@ == old(self).tabs@.update(old(self).active_tab as int, *final(r)),
            *final(self) == (App { tabs: final(self).tabs, ..*old(self) }),
    {
        let idx = self.active_tab;
        &mut self.tabs[idx]
    }

    pub fn daemon_online(&self) -> (b: bool)
        ensures
            b == is_online(self.daemon),
    {
        match self.daemon {
            DaemonState::Online(_) => true,
            _ => false,
        }
    }

    pub fn focused_item(&self) -> (r: Option<&Item>)
        requires
            self.wf(),
            self.tabs@.len() > 0,
        ensures
            match focused_of(*self) {
                Some(it) => r matches Some(x) && *x == it,
                None => r is None,
            },
    {
        let t = &self.tabs[self.active_tab];
        if t.data.selected < t.data.items.len() {
            Some(&t.data.items[t.data.selected])
        } else {
            None
        }
    }

    /// Asks for the focused row's inspect text unless it is held already
    /// (or the daemon is offline, or there is no row).
    pub fn ensure_focused_loaded(&mut self)
        requires
            old(self).wf(),
        ensures
            final(self).wf(),
            ensure_focused_effect(*old(self), *final(self)),
    {
        if !self.daemon_online() {
            return;
        }
        let idx = self.active_tab;
        let sel = self.tabs[idx].data.selected;
        if sel >= self.tabs[idx].data.items.len() {
            return;
        }
        let item = &self.tabs[idx].data.items[sel];
        let id = String::from_str(item.id());
        let cached = match &self.tabs[idx].data.focused_detail_for {
            Some(f) => same(f.as_str(), id.as_str()),
            None => false,
        } && self.tabs[idx].data.focused_detail.is_some();
        if cached {
            return;
        }
        let kind = match item {
            Item::Volume(_) => InspectKind::Volume,
            Item::Network(_) => InspectKind::Network,
            _ => InspectKind::Object,
        };
        self.request = Some(Request::Inspect { tab: idx, id, kind });
    }

    /// Takes the outcome of the inspect request: the focused detail becomes
    /// the output, or `(inspect failed: <error>)`.
    pub fn on_inspected(&mut self, outcome: &DockerOutcome)
        requires
            old(self).wf(),
        ensures
            final(self).wf(),
            on_inspected_effect(*old(self), *final(self), *outcome),
    {
        let (tab, id, kind) = match &self.request {
            Some(Request::Inspect { tab, id, kind }) => (*tab, id.clone(), *kind),
            _ => {
                return;
            },
        };
        let result = match kind {
            InspectKind::Object => docker::inspect(id.as_str(), outcome),
            InspectKind::Volume => docker::inspect_volume(id.as_str(), outcome),
            InspectKind::Network => docker::inspect_network(id.as_str(), outcome),
        };
        let detail = match result {
            Ok(d) => d,
            Err(e) => cat3("(inspect failed: ", e.as_str(), ")"),
        };
        self.tabs[tab].data.focused_detail = Some(detail);
        self.tabs[tab].data.focused_detail_for = Some(id);
        self.request = None;
        assert(self.tabs@ =~= old(self).tabs@.update(tab as int, self.tabs@[tab as int]));
    }
}


// ─── Refreshing ─────────────────────────────────────────────────────────

/// `new` is `old` with the active tab marked loading, the status saying
/// so, and its list requested, followed by `then`.
pub open spec fn loading_started(old: App, new: App, then: Then) -> bool {
    let idx = old.active_tab;
    let t = old.tabs@[idx as int];
    &&& new.tabs@ == old.tabs@.update(idx as int, TabState { data: ItemsTab { loading: true, ..t.data }, ..t })
    &&& new.status@ == "loading "@ + t.name@ + "…"@
    &&& new.request matches Some(Request::List { tab, kind, then: th }) && tab == idx && kind
        == t.spec.kind && th == then
    &&& new == (App { tabs: new.tabs, status: new.status, request: new.request, ..old })
}

/// A refresh of the active tab: the list when the daemon is online, else
/// a probe first.
pub open spec fn refresh_started(old: App, new: App, then: Then) -> bool {
    if is_online(old.daemon) {
        loading_started(old, new, then)
    } else {
        new == (App { request: Some(Request::Probe(AfterProbe::Refresh(then))), ..old })
    }
}

/// The status line when the daemon answered.
pub open spec fn online_message(v: Seq<char>) -> Seq<char> {
    "daemon: ok · docker server "@ + v
}

/// The status line for a daemon that did not answer (`refreshing` when it
/// was a retry).
pub open spec fn daemon_message(d: DaemonState, refreshing: bool) -> Seq<char> {
    match d {
        DaemonState::Online(v) => online_message(v@),
        DaemonState::Offline => if refreshing {
            "docker daemon still offline — start Docker Desktop, then press r"@
        } else {
            "docker daemon not running — start Docker Desktop, then press r"@
        },
        DaemonState::CliMissing(e) => "docker CLI not found: "@ + e@,
        DaemonState::Error(e) => "docker error: "@ + e@,
    }
}

/// Id of the row at `sel`, if there is one.
pub open spec fn focus_id(items: Seq<Item>, sel: int) -> Option<Seq<char>> {
    if 0 <= sel < items.len() {
        Some(id_of(items[sel]))
    } else {
        None
    }
}

/// The status after a tab's list loaded.
pub open spec fn loaded_message(name: Seq<char>, count: nat, kind: TabKind) -> Seq<char> {
    name + ": "@ + crate::text::decimal(count) + " "@ + kind_name(kind)
}

/// The state right after a list reply for tab `tab`, before what follows
/// the refresh.
pub open spec fn listed_state(old: App, mid: App, tab: int, kind: TabKind, result: Result<Vec<Item>, String>, now: u64) -> bool {
    let t = old.tabs@[tab];
    match result {
        Ok(items) => {
            let n = items@.len();
            let sel = if t.data.selected < n {
                t.data.selected
            } else if n == 0 {
                0
            } else {
                (n - 1) as usize
            };
            let keep = focus_id(t.data.items@, t.data.selected as int) == focus_id(items@, sel as int);
            &&& mid.tabs@ == old.tabs@.update(
                tab,
                TabState {
                    data: ItemsTab {
                        items: items,
                        selected: sel,
                        last_loaded: Some(now),
                        last_error: None,
                        loading: false,
                        focused_detail: if keep {
                            t.data.focused_detail
                        } else {
                            None
                        },
                        focused_detail_for: if keep {
                            t.data.focused_detail_for
                        } else {
                            None
                        },
                    },
                    ..t
                },
            )
            &&& mid.status@ == loaded_message(t.name@, n, kind)
            &&& mid == (App { tabs: mid.tabs, status: mid.status, request: mid.request, ..old })
        },
        Err(msg) => if crate::text::has_sub(msg@, docker::DAEMON_OFFLINE_MARKER@) {
            &&& mid.tabs@ == old.tabs@.update(tab, TabState { data: ItemsTab { loading: false, ..t.data }, ..t })
            &&& mid.daemon is Offline
            &&& mid.status@ == "docker daemon not running — start Docker Desktop, then press r"@
            &&& mid == (App { tabs: mid.tabs, daemon: mid.daemon, status: mid.status, request: mid.request, ..old })
        } else {
            &&& mid.tabs@ == old.tabs@.update(
                tab,
                TabState { data: ItemsTab { loading: false, last_error: Some(msg), ..t.data }, ..t },
            )
            &&& mid.status@ == "error: "@ + msg@
            &&& mid == (App { tabs: mid.tabs, status: mid.status, request: mid.request, ..old })
        },
    }
}

/// What follows a refresh: nothing, or a load of the focused row.
pub open spec fn followed_by(mid: App, new: App, then: Then) -> bool {
    &&& new == (App { request: new.request, ..mid })
    &&& match then {
        Then::Nothing => new.request is None,
        Then::EnsureFocused => focus_request_ok(mid, new.request),
    }
}

/// `clamp(x, lo, hi)`.
pub open spec fn clamped(x: int, lo: int, hi: int) -> int {
    if x < lo {
        lo
    } else if x > hi {
        hi
    } else {
        x
    }
}

/// Whole seconds from `from` to `now` (nanoseconds), 0 if `now` is earlier.
pub open spec fn elapsed_secs(from: u64, now: u64) -> int {
    if now >= from {
        (now - from) / 1_000_000_000
    } else {
        0
    }
}

/// The kind named by a list request.
pub open spec fn listed_kind(r: Option<Request>) -> TabKind {
    match r {
        Some(Request::List { kind, .. }) => kind,
        _ => TabKind::Containers,
    }
}

impl App {
    fn begin_list(&mut self, then: Then)
        requires
            old(self).wf(),
            old(self).tabs@.len() > 0,
        ensures
            final(self).wf(),
            loading_started(*old(self), *final(self), then),
    {
        let idx = self.active_tab;
        let a = cat("loading ", self.tabs[idx].name.as_str());
        self.status = cat(a.as_str(), "…");
        self.tabs[idx].data.loading = true;
        let kind = self.tabs[idx].spec.kind.duplicate();
        self.request = Some(Request::List { tab: idx, kind, then });
        assert(selection_ok(self.tabs@[idx as int].data));
    }

    fn start_refresh(&mut self, then: Then)
        requires
            old(self).wf(),
        ensures
            final(self).wf(),
            refresh_started(*old(self), *final(self), then),
    {
        if !self.daemon_online() {
            self.request = Some(Request::Probe(AfterProbe::Refresh(then)));
            return;
        }
        self.begin_list(then);
    }

    /// Reloads the active tab; when the daemon was offline it is probed
    /// again first (`r` is the "I just started Docker" key).
    pub fn refresh_active(&mut self)
        requires
            old(self).wf(),
        ensures
            final(self).wf(),
            refresh_started(*old(self), *final(self), Then::Nothing),
    {
        self.start_refresh(Then::Nothing);
    }

    fn daemon_status(d: &DaemonState, refreshing: bool) -> (r: String)
        ensures
            r@ == daemon_message(*d, refreshing),
    {
        match d {
            DaemonState::Online(v) => cat("daemon: ok · docker server ", v.as_str()),
            DaemonState::Offline => if refreshing {
                String::from_str("docker daemon still offline — start Docker Desktop, then press r")
            } else {
                String::from_str("docker daemon not running — start Docker Desktop, then press r")
            },
            DaemonState::CliMissing(e) => cat("docker CLI not found: ", e.as_str()),
            DaemonState::Error(e) => cat("docker error: ", e.as_str()),
        }
    }

    /// Takes the outcome of a daemon probe: records the daemon state and its
    /// status line; when it answered, the active tab's list follows.
    pub fn on_probed(&mut self, outcome: &DockerOutcome)
        requires
            old(self).wf(),
            (old(self).request matches Some(Request::Probe(_))) && probe_answered(*outcome) ==> old(self).tabs@.len() > 0,
        ensures
            final(self).wf(),
            on_probed_effect(*old(self), *final(self), *outcome),
    {
        let why = match &self.request {
            Some(Request::Probe(w)) => *w,
            _ => {
                return;
            },
        };
        let then = match why {
            AfterProbe::Startup => Then::EnsureFocused,
            AfterProbe::Refresh(t) => t,
        };
        let d = docker::probe_daemon(outcome);
        let refreshing = match why {
            AfterProbe::Startup => false,
            AfterProbe::Refresh(_) => true,
        };
        self.status = App::daemon_status(&d, refreshing);
        self.daemon = d;
        if self.daemon_online() {
            self.begin_list(then);
        } else {
            self.request = None;
        }
    }

    /// Takes the result of a list request (`now` is the monotonic clock in
    /// nanoseconds): on success the rows replace the tab's, the cursor is
    /// kept within them and the cached detail dropped if the focused id
    /// changed; an error naming the offline daemon marks the daemon
    /// offline, any other is recorded on the tab.
    pub fn on_listed(&mut self, result: Result<Vec<Item>, String>, now: u64)
        requires
            old(self).wf(),
        ensures
            final(self).wf(),
            on_listed_effect(*old(self), *final(self), result, now),
    {
        let (tab, then) = match &self.request {
            Some(Request::List { tab, then, .. }) => (*tab, *then),
            _ => {
                return;
            },
        };
        let ghost kind = listed_kind(self.request);
        let ghost old_app = *self;
        let kind_name_text = match &self.request {
            Some(Request::List { kind, .. }) => kind.as_str(),
            _ => "",
        };
        self.tabs[tab].data.loading = false;
        match result {
            Ok(items) => {
                let count = items.len();
                let sel0 = self.tabs[tab].data.selected;
                let prev_id: Option<String> = if sel0 < self.tabs[tab].data.items.len() {
                    Some(String::from_str(self.tabs[tab].data.items[sel0].id()))
                } else {
                    None
                };
                let sel = if sel0 < count {
                    sel0
                } else if count == 0 {
                    0
                } else {
                    count - 1
                };
                let new_id: Option<String> = if sel < count {
                    Some(String::from_str(items[sel].id()))
                } else {
                    None
                };
                let keep = match (&prev_id, &new_id) {
                    (Some(a), Some(b)) => same(a.as_str(), b.as_str()),
                    (None, None) => true,
                    _ => false,
                };
                assert(keep == (focus_id(old_app.tabs@[tab as int].data.items@, sel0 as int) == focus_id(items@, sel as int)));
                self.tabs[tab].data.items = items;
                self.tabs[tab].data.selected = sel;
                if !keep {
                    self.tabs[tab].data.focused_detail = None;
                    self.tabs[tab].data.focused_detail_for = None;
                }
                self.tabs[tab].data.last_loaded = Some(now);
                self.tabs[tab].data.last_error = None;
                let n = crate::text::decimal_text(count);
                let a = cat(self.tabs[tab].name.as_str(), ": ");
                let b = cat3(a.as_str(), n.as_str(), " ");
                self.status = cat(b.as_str(), kind_name_text);
                assert(kind_name_text@ == kind_name(kind));
                assert(self.status@ == loaded_message(old_app.tabs@[tab as int].name@, count as nat, kind));
                assert(self.tabs@[tab as int].data.items == items);
                let ghost t = old_app.tabs@[tab as int];
                assert(self.tabs@[tab as int].data == (ItemsTab {
                        items: items,
                        selected: sel,
                        last_loaded: Some(now),
                        last_error: None,
                        loading: false,
                        focused_detail: if keep {
                            t.data.focused_detail
                        } else {
                            None
                        },
                        focused_detail_for: if keep {
                            t.data.focused_detail_for
                        } else {
                            None
                        },
                    }));
                assert(self.tabs@ == old_app.tabs@.update(tab as int, TabState { data: self.tabs@[tab as int].data, ..t }));
                self.request = None;
                assert(listed_state(old_app, *self, tab as int, kind, Ok(items), now));
            },
            Err(msg) => {
                let ghost t = old_app.tabs@[tab as int];
                assert(self.tabs@ == old_app.tabs@.update(tab as int, TabState { data: ItemsTab { loading: false, ..t.data }, ..t }));
                if docker::is_daemon_offline(msg.as_str()) {
                    self.daemon = DaemonState::Offline;
                    self.status = String::from_str(
                        "docker daemon not running — start Docker Desktop, then press r",
                    );
                    self.request = None;
                    assert(*self == (App { tabs: self.tabs, daemon: self.daemon, status: self.status, request: self.request, ..old_app }));
                    assert(crate::text::has_sub(msg@, docker::DAEMON_OFFLINE_MARKER@));
                    assert(self.status@ == "docker daemon not running — start Docker Desktop, then press r"@);
                } else {
                    self.status = cat("error: ", msg.as_str());
                    self.tabs[tab].data.last_error = Some(msg);
                    self.request = None;
                    assert(self.tabs@ == old_app.tabs@.update(
                        tab as int,
                        TabState { data: ItemsTab { loading: false, last_error: Some(msg), ..t.data }, ..t },
                    ));
                    assert(*self == (App { tabs: self.tabs, status: self.status, request: self.request, ..old_app }));
                }
                self.request = None;
                assert(listed_state(old_app, *self, tab as int, kind, Err(msg), now));
            },
        }
        self.request = None;
        let ghost mid = *self;
        assert(selection_ok(self.tabs@[tab as int].data));
        assert(listed_state(old_app, mid, tab as int, kind, result, now));
        match then {
            Then::Nothing => {},
            Then::EnsureFocused => {
                self.ensure_focused_loaded();
            },
        }
        assert(followed_by(mid, *self, then));
    }
}


impl App {
    /// Auto-refresh: when an interval is configured, the daemon is online
    /// and the active tab's list is at least that many seconds old (or was
    /// never loaded) and not loading, a refresh starts and `true` is
    /// returned. `now` is the monotonic clock in nanoseconds.
    pub fn tick(&mut self, now: u64) -> (r: bool)
        requires
            old(self).wf(),
        ensures
            final(self).wf(),
            tick_effect(*old(self), *final(self), now, r),
    {
        let interval = self.cfg.refresh_interval_secs;
        if interval == 0 || !self.daemon_online() {
            return false;
        }
        let idx = self.active_tab;
        let stale = match self.tabs[idx].data.last_loaded {
            Some(t) => {
                let el = if now >= t {
                    (now - t) / 1_000_000_000
                } else {
                    0
                };
                el >= interval
            },
            None => true,
        };
        if stale && !self.tabs[idx].data.loading {
            self.begin_list(Then::Nothing);
            true
        } else {
            false
        }
    }

    /// Makes tab `idx` active (when it exists). With the daemon online its
    /// list is loaded if it has neither rows nor an error, then the
    /// focused row's detail.
    pub fn switch_tab(&mut self, idx: usize)
        requires
            old(self).wf(),
        ensures
            final(self).wf(),
            switch_tab_effect(*old(self), *final(self), idx),
    {
        if idx >= self.tabs.len() {
            return;
        }
        self.active_tab = idx;
        if !self.daemon_online() {
            return;
        }
        if self.tabs[idx].data.items.len() == 0 && self.tabs[idx].data.last_error.is_none() {
            self.begin_list(Then::EnsureFocused);
        } else {
            self.ensure_focused_loaded();
        }
    }

    /// Moves the cursor by `delta` rows, clamped to the list, then loads
    /// the focused row's detail. Nothing happens on an empty tab.
    pub fn move_selection(&mut self, delta: isize)
        requires
            old(self).wf(),
            old(self).tabs@.len() > 0,
            old(self).tabs@[old(self).active_tab as int].data.selected + delta <= isize::MAX,
        ensures
            final(self).wf(),
            move_selection_effect(*old(self), *final(self), delta),
    {
        let idx = self.active_tab;
        let n = self.tabs[idx].data.items.len();
        if n == 0 {
            return;
        }
        let cur = self.tabs[idx].data.selected as i128;
        let want = cur + delta as i128;
        let next: usize = if want < 0 {
            0
        } else if want > (n - 1) as i128 {
            n - 1
        } else {
            want as usize
        };
        self.tabs[idx].data.selected = next;
        let ghost mid = *self;
        self.ensure_focused_loaded();
        assert(focus_request_ok(mid, self.request));
    }
}


// ─── Actions on the focused row ─────────────────────────────────────────

/// The argument vector of a spawned command.
pub open spec fn argv_is(v: Vec<String>, words: Seq<Seq<char>>) -> bool {
    docker::texts(v@) == words
}

/// Only the status line changed, to `msg`.
pub open spec fn status_only(old: App, new: App, msg: Seq<char>) -> bool {
    &&& new.status@ == msg
    &&& new == (App { status: new.status, ..old })
}

/// The shell chain run by `exec_shell`: bash when present, else sh.
pub open spec fn shell_chain() -> Seq<char> {
    "if [ -x /bin/bash ]; then exec /bin/bash; else exec /bin/sh; fi"@
}

/// The removal awaiting confirmation for an item (none for compose
/// services).
pub open spec fn pending_for(i: Item) -> Option<RmPending> {
    match i {
        Item::Container(c) => Some(RmPending::Container(c.id)),
        Item::Image(m) => Some(RmPending::Image(m.id)),
        Item::Volume(v) => Some(RmPending::Volume(v.name)),
        Item::Network(n) => Some(RmPending::Network(n.name)),
        Item::ComposeService(_) => None,
    }
}

/// The docker command of a removal.
pub open spec fn rm_args_of(p: RmPending) -> Seq<Seq<char>> {
    match p {
        RmPending::Container(id) => seq!["rm"@, "-f"@, id@],
        RmPending::Image(id) => seq!["rmi"@, id@],
        RmPending::Volume(name) => seq!["volume"@, "rm"@, name@],
        RmPending::Network(name) => seq!["network"@, "rm"@, name@],
    }
}

/// The status after a docker action succeeded.
pub open spec fn done_message(then: AfterRun) -> Seq<char> {
    match then {
        AfterRun::Started(label) => "started "@ + label@,
        AfterRun::Stopped(label) => "stopped "@ + label@,
        AfterRun::Removed(p) => "done: "@ + description_of(p),
    }
}

/// The status after a launch.
pub open spec fn launch_message(then: AfterLaunch, result: Result<(), String>) -> Seq<char> {
    match (then, result) {
        (AfterLaunch::Desktop, Ok(_)) => "opened Docker Desktop"@,
        (AfterLaunch::Desktop, Err(e)) => "open Docker Desktop failed: "@ + e@,
        (AfterLaunch::Ecr(region), Ok(_)) => "launched mnml-aws-ecr ("@ + region@ + ")"@,
        (AfterLaunch::Ecr(_), Err(e)) => "spawn mnml-aws-ecr failed (install it?): "@ + e@,
    }
}

impl App {
    /// `y`: asks to put the focused row's full id on the clipboard.
    pub fn yank_id(&mut self)
        requires
            old(self).wf(),
            old(self).tabs@.len() > 0,
        ensures
            final(self).wf(),
            yank_id_effect(*old(self), *final(self)),
    {
        let id = match self.focused_item() {
            None => {
                self.status = String::from_str("no item under cursor");
                return;
            },
            Some(item) => String::from_str(item.id()),
        };
        if id.as_str().is_empty() {
            self.status = String::from_str("no ID to yank");
            return;
        }
        self.request = Some(Request::Copy(id));
    }

    /// Takes the clipboard outcome.
    pub fn on_copied(&mut self, result: Result<(), String>)
        requires
            old(self).wf(),
        ensures
            final(self).wf(),
            on_copied_effect(*old(self), *final(self), result),
    {
        let id = match &self.request {
            Some(Request::Copy(id)) => id.clone(),
            _ => {
                return;
            },
        };
        self.status = match result {
            Ok(()) => cat("copied: ", id.as_str()),
            Err(e) => cat("copy failed: ", e.as_str()),
        };
        self.request = None;
    }

    /// `l`: queues `docker logs -f <id>` for the focused container.
    pub fn tail_logs(&mut self)
        requires
            old(self).wf(),
            old(self).tabs@.len() > 0,
        ensures
            final(self).wf(),
            tail_logs_effect(*old(self), *final(self)),
    {
        let (id, label) = match self.focused_item() {
            None => {
                self.status = String::from_str("no item under cursor");
                return;
            },
            Some(Item::Container(c)) => (c.id.clone(), c.names.clone()),
            Some(_) => {
                self.status = String::from_str("logs: only available on containers");
                return;
            },
        };
        let argv = docker::args4("docker", "logs", "-f", id.as_str());
        self.pending_spawns.push(argv);
        self.status = cat3("tailing logs for ", label.as_str(), "…");
    }

    /// `e`: queues a shell in the focused running container (bash when the
    /// container has it, else sh).
    pub fn exec_shell(&mut self)
        requires
            old(self).wf(),
            old(self).tabs@.len() > 0,
        ensures
            final(self).wf(),
            exec_shell_effect(*old(self), *final(self)),
    {
        let (id, label, running) = match self.focused_item() {
            None => {
                self.status = String::from_str("no item under cursor");
                return;
            },
            Some(Item::Container(c)) => (c.id.clone(), c.names.clone(), c.is_running()),
            Some(_) => {
                self.status = String::from_str("exec: only available on containers");
                return;
            },
        };
        if !running {
            self.status = cat3("exec: ", label.as_str(), " is not running");
            return;
        }
        let mut argv = docker::args4("docker", "exec", "-it", id.as_str());
        let a = docker::text("/bin/sh");
        proof {
            docker::lemma_texts_push(argv@, a);
        }
        argv.push(a);
        let b = docker::text("-c");
        proof {
            docker::lemma_texts_push(argv@, b);
        }
        argv.push(b);
        let c = docker::text("if [ -x /bin/bash ]; then exec /bin/bash; else exec /bin/sh; fi");
        proof {
            docker::lemma_texts_push(argv@, c);
        }
        argv.push(c);
        assert(docker::texts(argv@) =~= seq!["docker"@, "exec"@, "-it"@, id@, "/bin/sh"@, "-c"@, shell_chain()]);
        self.pending_spawns.push(argv);
        self.status = cat3("exec into ", label.as_str(), "…");
    }

    /// `s` / `S`: asks docker to stop (or start) the focused container.
    pub fn stop_or_start(&mut self, start: bool)
        requires
            old(self).wf(),
            old(self).tabs@.len() > 0,
        ensures
            final(self).wf(),
            stop_or_start_effect(*old(self), *final(self), start),
    {
        let (id, label) = match self.focused_item() {
            None => {
                self.status = String::from_str("no item under cursor");
                return;
            },
            Some(Item::Container(c)) => (c.id.clone(), c.names.clone()),
            Some(_) => {
                self.status = String::from_str("stop/start: only available on containers");
                return;
            },
        };
        if start {
            self.request = Some(Request::Run { args: docker::start_container(id.as_str()), then: AfterRun::Started(label) });
        } else {
            self.request = Some(Request::Run { args: docker::stop_container(id.as_str()), then: AfterRun::Stopped(label) });
        }
    }

    /// `R`: shows the removal confirmation for the focused row; calling it
    /// again keeps the same pending removal.
    pub fn enter_rm_confirm(&mut self)
        requires
            old(self).wf(),
            old(self).tabs@.len() > 0,
            focused_of(*old(self)) matches Some(it) ==> rm_shortable(it),
        ensures
            final(self).wf(),
            enter_rm_confirm_effect(*old(self), *final(self)),
    {
        let pending = match self.focused_item() {
            None => {
                self.status = String::from_str("no item under cursor");
                return;
            },
            Some(Item::Container(c)) => RmPending::Container(c.id.clone()),
            Some(Item::Image(i)) => RmPending::Image(i.id.clone()),
            Some(Item::Volume(v)) => RmPending::Volume(v.name.clone()),
            Some(Item::Network(n)) => RmPending::Network(n.name.clone()),
            Some(Item::ComposeService(_)) => {
                self.status = String::from_str(
                    "rm: not supported for compose services — `docker compose down` instead",
                );
                return;
            },
        };
        let d = pending.description();
        self.status = cat(d.as_str(), " — y to confirm, n / Esc to cancel");
        self.rm_pending = Some(pending);
    }

    /// `y` on the confirmation: asks docker to carry out the pending
    /// removal (the confirmation closes).
    pub fn confirm_rm(&mut self)
        requires
            old(self).wf(),
        ensures
            final(self).wf(),
            confirm_rm_effect(*old(self), *final(self)),
    {
        let pending = match self.rm_pending.take() {
            None => {
                return;
            },
            Some(p) => p,
        };
        let args = match &pending {
            RmPending::Container(id) => docker::rm_container(id.as_str()),
            RmPending::Image(id) => docker::rmi_image(id.as_str()),
            RmPending::Volume(name) => docker::rm_volume(name.as_str()),
            RmPending::Network(name) => docker::rm_network(name.as_str()),
        };
        self.request = Some(Request::Run { args, then: AfterRun::Removed(pending) });
    }

    /// `n` / Esc on the confirmation: drops the pending removal.
    pub fn cancel_rm(&mut self)
        requires
            old(self).wf(),
        ensures
            final(self).wf(),
            cancel_rm_effect(*old(self), *final(self)),
    {
        if self.rm_pending.take().is_some() {
            self.status = String::from_str("rm cancelled");
        }
    }

    /// Takes the outcome of a docker action: on success the status says
    /// what was done and the active tab refreshes; on failure the status
    /// holds the error.
    pub fn on_ran(&mut self, outcome: &DockerOutcome)
        requires
            old(self).wf(),
        ensures
            final(self).wf(),
            on_ran_effect(*old(self), *final(self), *outcome),
    {
        let res = match &self.request {
            Some(Request::Run { args, .. }) => docker::action_result(args, outcome),
            _ => {
                return;
            },
        };
        match res {
            Ok(()) => {
                let msg = match &self.request {
                    Some(Request::Run { then: AfterRun::Started(label), .. }) => cat("started ", label.as_str()),
                    Some(Request::Run { then: AfterRun::Stopped(label), .. }) => cat("stopped ", label.as_str()),
                    Some(Request::Run { then: AfterRun::Removed(p), .. }) => {
                        let d = p.description();
                        cat("done: ", d.as_str())
                    },
                    _ => String::new(),
                };
                self.status = msg;
                self.request = None;
                let ghost mid = *self;
                self.start_refresh(Then::Nothing);
                assert(refresh_started(mid, *self, Then::Nothing));
            },
            Err(e) => {
                self.status = e;
                self.request = None;
            },
        }
    }

    /// `o`: asks to open Docker Desktop, which only macOS has.
    pub fn open_docker_desktop(&mut self, on_macos: bool)
        requires
            old(self).wf(),
        ensures
            final(self).wf(),
            open_docker_desktop_effect(*old(self), *final(self), on_macos),
    {
        if on_macos {
            self.request = Some(Request::Launch {
                argv: docker::args3("open", "-a", "Docker Desktop"),
                then: AfterLaunch::Desktop,
            });
        } else {
            self.status = String::from_str("Docker Desktop launch only supported on macOS");
        }
    }

    /// `L`: when the focused image's reference is an ECR reference, asks to
    /// launch `mnml-aws-ecr --region <region>`. Only images have the jump.
    pub fn handoff_ecr(&mut self)
        requires
            old(self).wf(),
            old(self).tabs@.len() > 0,
        ensures
            final(self).wf(),
            handoff_ecr_effect(*old(self), *final(self)),
    {
        let image = match self.focused_item() {
            None => {
                self.status = String::from_str("no item under cursor");
                return;
            },
            Some(Item::Image(i)) => i.repo_tag(),
            Some(_) => {
                self.status = String::from_str("L jump: only available on images");
                return;
            },
        };
        match docker::parse_ecr_url(image.as_str()) {
            None => {
                self.status = cat("not an ECR image: ", image.as_str());
            },
            Some((_acct, region)) => {
                let argv = docker::args3("mnml-aws-ecr", "--region", region.as_str());
                self.request = Some(Request::Launch { argv, then: AfterLaunch::Ecr(region) });
            },
        }
    }

    /// Takes the outcome of a launch.
    pub fn on_launched(&mut self, result: Result<(), String>)
        requires
            old(self).wf(),
        ensures
            final(self).wf(),
            on_launched_effect(*old(self), *final(self), result),
    {
        let msg = match &self.request {
            Some(Request::Launch { then: AfterLaunch::Desktop, .. }) => match &result {
                Ok(()) => String::from_str("opened Docker Desktop"),
                Err(e) => cat("open Docker Desktop failed: ", e.as_str()),
            },
            Some(Request::Launch { then: AfterLaunch::Ecr(region), .. }) => match &result {
                Ok(()) => cat3("launched mnml-aws-ecr (", region.as_str(), ")"),
                Err(e) => cat("spawn mnml-aws-ecr failed (install it?): ", e.as_str()),
            },
            _ => {
                return;
            },
        };
        self.status = msg;
        self.request = None;
    }
}


impl App {
    /// Builds the app from a config: each tab resolved in order (the first
    /// that cannot be is the error), all empty (a config without tabs gives
    /// an app without tabs, usable only while the daemon is offline); then the daemon is probed
    /// (the request left for the caller). The status stays empty and the
    /// daemon counts as offline until the probe's answer arrives.
    pub fn new(cfg: Config) -> (r: Result<App, String>)
        ensures
            r is Ok <==> forall|i: int|
                0 <= i < cfg.tabs@.len() ==> crate::config::tab_valid(#[trigger] cfg.tabs@[i]),
            (r matches Err(e) ==> exists|i: int|
                0 <= i < cfg.tabs@.len() && !crate::config::tab_valid(cfg.tabs@[i]) && (forall|j: int|
                    0 <= j < i ==> crate::config::tab_valid(#[trigger] cfg.tabs@[j])) && resolves_to(cfg.tabs@[i], Err(e))),
            r matches Ok(app) ==> {
                &&& app.wf()
                &&& app.cfg == cfg
                &&& app.tabs@.len() == cfg.tabs@.len()
                &&& forall|i: int| 0 <= i < cfg.tabs@.len() ==> {
                    let t = #[trigger] app.tabs@[i];
                    &&& t.name == cfg.tabs@[i].name
                    &&& resolves_to(cfg.tabs@[i], Ok(t.spec))
                    &&& t.data.items@.len() == 0 && t.data.selected == 0 && t.data.last_loaded is None
                    &&& t.data.last_error is None && !t.data.loading
                    &&& t.data.focused_detail is None && t.data.focused_detail_for is None
                }
                &&& app.active_tab == 0
                &&& app.status@.len() == 0
                &&& app.daemon is Offline
                &&& app.rm_pending is None
                &&& app.pending_spawns@.len() == 0
                &&& app.request == Some(Request::Probe(AfterProbe::Startup))
            },
    {
        let mut tabs: Vec<TabState> = Vec::new();
        let mut i: usize = 0;
        while i < cfg.tabs.len()
            invariant
                i <= cfg.tabs@.len(),
                tabs@.len() == i,
                forall|j: int| 0 <= j < i ==> crate::config::tab_valid(#[trigger] cfg.tabs@[j]),
                forall|j: int| 0 <= j < i ==> {
                    let t = #[trigger] tabs@[j];
                    &&& t.name == cfg.tabs@[j].name
                    &&& resolves_to(cfg.tabs@[j], Ok(t.spec))
                    &&& t.data.items@.len() == 0 && t.data.selected == 0 && t.data.last_loaded is None
                    &&& t.data.last_error is None && !t.data.loading
                    &&& t.data.focused_detail is None && t.data.focused_detail_for is None
                },
            decreases cfg.tabs@.len() - i,
        {
            let t = &cfg.tabs[i];
            match TabSpec::resolve(t) {
                Ok(spec) => {
                    tabs.push(TabState { name: t.name.clone(), spec, data: ItemsTab::empty() });
                },
                Err(e) => {
                    return Err(e);
                },
            }
            i += 1;
        }
        let app = App {
            cfg,
            tabs,
            active_tab: 0,
            status: String::new(),
            daemon: DaemonState::Offline,
            rm_pending: None,
            pending_spawns: Vec::new(),
            request: Some(Request::Probe(AfterProbe::Startup)),
        };
        Ok(app)
    }
}

/// What `App::ensure_focused_loaded` does.
pub open spec fn ensure_focused_effect(old: App, new: App) -> bool {
    &&& new == (App { request: new.request, ..old })
    &&& focus_request_ok(old, new.request)
}

/// What `App::on_inspected` does.
pub open spec fn on_inspected_effect(old: App, new: App, outcome: DockerOutcome) -> bool {
    match old.request {
        Some(Request::Inspect { tab, id, kind }) => {
            let d = new.tabs@[tab as int].data;
            &&& new.request is None
            &&& new.tabs@ == old.tabs@.update(tab as int, new.tabs@[tab as int])
            &&& new.tabs@[tab as int] == (TabState {
                data: ItemsTab {
                    focused_detail: d.focused_detail,
                    focused_detail_for: d.focused_detail_for,
                    ..old.tabs@[tab as int].data
                },
                ..old.tabs@[tab as int]
            })
            &&& d.focused_detail_for matches Some(f) && f@ == id@
            &&& d.focused_detail matches Some(t) && t@ == match inspect_reply(kind, id@, outcome) {
                Ok(out) => out,
                Err(e) => "(inspect failed: "@ + e + ")"@,
            }
            &&& new == (App { tabs: new.tabs, request: None, ..old })
        },
        _ => new == old,
    }
}

/// What `App::on_probed` does.
pub open spec fn on_probed_effect(old: App, new: App, outcome: DockerOutcome) -> bool {
    match old.request {
        Some(Request::Probe(why)) => {
            let then = match why {
                AfterProbe::Startup => Then::EnsureFocused,
                AfterProbe::Refresh(t) => t,
            };
            &&& docker::probe_reading(outcome, new.daemon)
            &&& if is_online(new.daemon) {
                loading_started(App { daemon: new.daemon, ..old }, new, then)
            } else {
                &&& new.status@ == daemon_message(new.daemon, why != AfterProbe::Startup)
                &&& new == (App {
                    daemon: new.daemon,
                    status: new.status,
                    request: None,
                    ..old
                })
            }
        },
        _ => new == old,
    }
}

/// What `App::on_listed` does.
pub open spec fn on_listed_effect(old: App, new: App, result: Result<Vec<Item>, String>, now: u64) -> bool {
    match old.request {
        Some(Request::List { tab, kind, then }) => exists|mid: App|
            #![trigger listed_state(old, mid, tab as int, kind, result, now)]
            mid.wf() && mid.request is None && listed_state(old, mid, tab as int, kind, result, now)
                && followed_by(mid, new, then),
        _ => new == old,
    }
}

/// What `App::on_copied` does.
pub open spec fn on_copied_effect(old: App, new: App, result: Result<(), String>) -> bool {
    match old.request {
        Some(Request::Copy(id)) => {
            &&& new.request is None
            &&& new.status@ == match result {
                Ok(_) => "copied: "@ + id@,
                Err(e) => "copy failed: "@ + e@,
            }
            &&& new == (App { status: new.status, request: None, ..old })
        },
        _ => new == old,
    }
}

/// What `App::on_ran` does.
pub open spec fn on_ran_effect(old: App, new: App, outcome: DockerOutcome) -> bool {
    match old.request {
        Some(Request::Run { args, then }) => match docker::run_result(docker::texts(args@), outcome) {
            Ok(_) => exists|mid: App|
                #![trigger refresh_started(mid, new, Then::Nothing)]
                mid.wf() && mid.status@ == done_message(then) && mid == (App {
                    status: mid.status,
                    request: None,
                    ..old
                }) && refresh_started(mid, new, Then::Nothing),
            Err(e) => {
                &&& new.status@ == e
                &&& new == (App { status: new.status, request: None, ..old })
            },
        },
        _ => new == old,
    }
}

/// What `App::on_launched` does.
pub open spec fn on_launched_effect(old: App, new: App, result: Result<(), String>) -> bool {
    match old.request {
        Some(Request::Launch { then, .. }) => {
            &&& new.status@ == launch_message(then, result)
            &&& new == (App { status: new.status, request: None, ..old })
        },
        _ => new == old,
    }
}

/// What `App::tick` does (`r` is its result).
pub open spec fn tick_effect(old: App, new: App, now: u64, r: bool) -> bool {
    let interval = old.cfg.refresh_interval_secs;
    let d = old.tabs@[old.active_tab as int].data;
    let stale = match d.last_loaded {
        Some(t) => elapsed_secs(t, now) >= interval,
        None => true,
    };
    if interval != 0 && is_online(old.daemon) && stale && !d.loading {
        r && loading_started(old, new, Then::Nothing)
    } else {
        !r && new == old
    }
}

/// What `App::switch_tab` does.
pub open spec fn switch_tab_effect(old: App, new: App, idx: usize) -> bool {
    ({
        let mid = App { active_tab: idx, ..old };
        let d = old.tabs@[idx as int].data;
        if idx >= old.tabs@.len() {
            new == old
        } else if !is_online(old.daemon) {
            new == mid
        } else if d.items@.len() == 0 && d.last_error is None {
            loading_started(mid, new, Then::EnsureFocused)
        } else {
            new == (App { request: new.request, ..mid })
                && focus_request_ok(mid, new.request)
        }
    })
}

/// What `App::move_selection` does.
pub open spec fn move_selection_effect(old: App, new: App, delta: isize) -> bool {
    ({
        let idx = old.active_tab as int;
        let t = old.tabs@[idx];
        let n = t.data.items@.len();
        if n == 0 {
            new == old
        } else {
            let next = clamped(t.data.selected + delta, 0, n - 1) as usize;
            &&& new.tabs@ == old.tabs@.update(
                idx,
                TabState { data: ItemsTab { selected: next, ..t.data }, ..t },
            )
            &&& new == (App { tabs: new.tabs, request: new.request, ..old })
            &&& focus_request_ok(App { request: old.request, ..new }, new.request)
        }
    })
}

/// What `App::yank_id` does.
pub open spec fn yank_id_effect(old: App, new: App) -> bool {
    match focused_of(old) {
        None => status_only(old, new, "no item under cursor"@),
        Some(it) => if id_of(it).len() == 0 {
            status_only(old, new, "no ID to yank"@)
        } else {
            &&& new == (App { request: new.request, ..old })
            &&& new.request matches Some(Request::Copy(t)) && t@ == id_of(it)
        },
    }
}

/// What `App::tail_logs` does.
pub open spec fn tail_logs_effect(old: App, new: App) -> bool {
    match focused_of(old) {
        None => status_only(old, new, "no item under cursor"@),
        Some(Item::Container(c)) => {
            let spawns = new.pending_spawns@;
            &&& spawns == old.pending_spawns@.push(spawns.last())
            &&& argv_is(spawns.last(), seq!["docker"@, "logs"@, "-f"@, c.id@])
            &&& new.status@ == "tailing logs for "@ + c.names@ + "…"@
            &&& new == (App {
                status: new.status,
                pending_spawns: new.pending_spawns,
                ..old
            })
        },
        Some(_) => status_only(old, new, "logs: only available on containers"@),
    }
}

/// What `App::exec_shell` does.
pub open spec fn exec_shell_effect(old: App, new: App) -> bool {
    match focused_of(old) {
        None => status_only(old, new, "no item under cursor"@),
        Some(Item::Container(c)) => if !crate::text::eq_ascii_nocase(c.state@, "running"@) {
            status_only(old, new, "exec: "@ + c.names@ + " is not running"@)
        } else {
            let spawns = new.pending_spawns@;
            &&& spawns == old.pending_spawns@.push(spawns.last())
            &&& argv_is(
                spawns.last(),
                seq!["docker"@, "exec"@, "-it"@, c.id@, "/bin/sh"@, "-c"@, shell_chain()],
            )
            &&& new.status@ == "exec into "@ + c.names@ + "…"@
            &&& new == (App {
                status: new.status,
                pending_spawns: new.pending_spawns,
                ..old
            })
        },
        Some(_) => status_only(old, new, "exec: only available on containers"@),
    }
}

/// What `App::stop_or_start` does.
pub open spec fn stop_or_start_effect(old: App, new: App, start: bool) -> bool {
    match focused_of(old) {
        None => status_only(old, new, "no item under cursor"@),
        Some(Item::Container(c)) => {
            &&& new == (App { request: new.request, ..old })
            &&& new.request matches Some(Request::Run { args, then }) && if start {
                argv_is(args, seq!["start"@, c.id@]) && (then matches AfterRun::Started(l) && l@ == c.names@)
            } else {
                argv_is(args, seq!["stop"@, c.id@]) && (then matches AfterRun::Stopped(l) && l@ == c.names@)
            }
        },
        Some(_) => status_only(old, new, "stop/start: only available on containers"@),
    }
}

/// What `App::enter_rm_confirm` does.
pub open spec fn enter_rm_confirm_effect(old: App, new: App) -> bool {
    match focused_of(old) {
        None => status_only(old, new, "no item under cursor"@),
        Some(it) => match pending_for(it) {
            None => status_only(
                old,
                new,
                "rm: not supported for compose services — `docker compose down` instead"@,
            ),
            Some(p) => {
                &&& new.rm_pending == Some(p)
                &&& new.status@ == description_of(p) + " — y to confirm, n / Esc to cancel"@
                &&& new == (App {
                    status: new.status,
                    rm_pending: Some(p),
                    ..old
                })
            },
        },
    }
}

/// What `App::confirm_rm` does.
pub open spec fn confirm_rm_effect(old: App, new: App) -> bool {
    match old.rm_pending {
        None => new == old,
        Some(p) => {
            &&& new == (App { rm_pending: None, request: new.request, ..old })
            &&& new.request matches Some(Request::Run { args, then }) && argv_is(args, rm_args_of(p))
                && then == AfterRun::Removed(p)
        },
    }
}

/// What `App::cancel_rm` does.
pub open spec fn cancel_rm_effect(old: App, new: App) -> bool {
    match old.rm_pending {
        None => new == old,
        Some(_) => {
            &&& new.status@ == "rm cancelled"@
            &&& new == (App { status: new.status, rm_pending: None, ..old })
        },
    }
}

/// What `App::open_docker_desktop` does.
pub open spec fn open_docker_desktop_effect(old: App, new: App, on_macos: bool) -> bool {
    if on_macos {
        &&& new == (App { request: new.request, ..old })
        &&& new.request matches Some(Request::Launch { argv, then }) && argv_is(
            argv,
            seq!["open"@, "-a"@, "Docker Desktop"@],
        ) && then is Desktop
    } else {
        status_only(old, new, "Docker Desktop launch only supported on macOS"@)
    }
}

/// What `App::handoff_ecr` does.
pub open spec fn handoff_ecr_effect(old: App, new: App) -> bool {
    match focused_of(old) {
        None => status_only(old, new, "no item under cursor"@),
        Some(Item::Image(m)) => {
            let img = repo_tag_of(m.repository@, m.tag@);
            match docker::ecr_account_region(img) {
                None => status_only(old, new, "not an ECR image: "@ + img),
                Some((_, region)) => {
                    &&& new == (App { request: new.request, ..old })
                    &&& new.request matches Some(Request::Launch { argv, then }) && argv_is(
                        argv,
                        seq!["mnml-aws-ecr"@, "--region"@, region],
                    ) && (then matches AfterLaunch::Ecr(g) && g@ == region)
                },
            }
        },
        Some(_) => status_only(old, new, "L jump: only available on images"@),
    }
}

} // verus!
