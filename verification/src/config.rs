//! The configuration: refresh interval and the tabs to show.

use vstd::prelude::*;
use vstd::string::*;
use crate::text::{
    cat, debug_quoted, debug_text, decimal, decimal_text, join_path, opt_view, path_join, same, trim,
    trimmed,
};

verus! {

/// What the config file holds.
#[derive(Debug, Clone)]
pub struct Config {
    /// Auto-refresh interval of the active tab; 0 disables it.
    pub refresh_interval_secs: u64,
    pub tabs: Vec<Tab>,
}

/// One `[[tabs]]` entry.
#[derive(Debug, Clone)]
pub struct Tab {
    pub name: String,
    /// `containers`, `images`, `volumes`, `networks` or `compose`.
    pub kind: String,
    /// The compose project directory (or file); required for `compose`.
    pub project_path: Option<String>,
}

/// Refresh interval used when the file names none.
pub fn default_refresh() -> (r: u64)
    ensures
        r == 60,
{
    60
}

/// A kind that needs no further fields.
pub open spec fn plain_kind(k: Seq<char>) -> bool {
    k == "containers"@ || k == "images"@ || k == "volumes"@ || k == "networks"@
}

/// The project path, or empty when absent.
pub open spec fn path_or_empty(p: Option<String>) -> Seq<char> {
    match p {
        Some(s) => s@,
        None => Seq::empty(),
    }
}

/// A compose tab names a project path that is not blank.
pub open spec fn has_project_path(t: Tab) -> bool {
    trim(path_or_empty(t.project_path)).len() > 0
}

/// A tab entry that the program can show.
pub open spec fn tab_valid(t: Tab) -> bool {
    plain_kind(t.kind@) || (t.kind@ == "compose"@ && has_project_path(t))
}

/// The message for the `i`-th tab when it is not valid.
pub open spec fn tab_error(i: int, t: Tab) -> Seq<char> {
    if t.kind@ == "compose"@ {
        "tab #"@ + decimal(i as nat) + " ("@ + t.name@ + "): kind=\"compose\" requires `project_path`"@
    } else {
        "tab #"@ + decimal(i as nat) + " ("@ + t.name@ + "): unknown kind "@ + debug_quoted(t.kind@)
            + " (expected containers/images/volumes/networks/compose)"@
    }
}

/// Whether `kind` is one of the four plain kinds.
pub fn is_plain_kind(kind: &str) -> (b: bool)
    ensures
        b == plain_kind(kind@),
{
    same(kind, "containers") || same(kind, "images") || same(kind, "volumes") || same(kind, "networks")
}

/// The project path with surrounding whitespace removed ("" when absent).
pub fn trimmed_project_path(p: &Option<String>) -> (r: String)
    ensures
        r@ == trim(path_or_empty(*p)),
{
    match p {
        Some(s) => trimmed(s.as_str()),
        None => {
            proof {
                reveal_strlit("");
            }
            assert(""@ =~= Seq::<char>::empty());
            trimmed("")
        },
    }
}

fn tab_error_text(i: usize, t: &Tab) -> (r: String)
    ensures
        r@ == tab_error(i as int, *t),
{
    let n = decimal_text(i);
    let a = cat("tab #", n.as_str());
    let b = cat(a.as_str(), " (");
    let c = cat(b.as_str(), t.name.as_str());
    if same(t.kind.as_str(), "compose") {
        cat(c.as_str(), "): kind=\"compose\" requires `project_path`")
    } else {
        let d = cat(c.as_str(), "): unknown kind ");
        let q = debug_text(t.kind.as_str());
        let e = cat(d.as_str(), q.as_str());
        cat(e.as_str(), " (expected containers/images/volumes/networks/compose)")
    }
}

impl Config {
    /// The configuration written on first run.
    pub const EXAMPLE: &'static str = r##"# mnml-virt-docker config. Edit and re-run.
#
# Auto-refresh interval for the active tab. Set to 0 to disable.
refresh_interval_secs = 60

# ── Tabs ─────────────────────────────────────────────────────────
# Kinds:
#   "containers" — every container in the local engine
#   "images"     — every image
#   "volumes"    — every volume
#   "networks"   — every network
#   "compose"    — services in a single compose project (requires `project_path`)

[[tabs]]
name = "containers"
kind = "containers"

[[tabs]]
name = "images"
kind = "images"

[[tabs]]
name = "volumes"
kind = "volumes"

[[tabs]]
name = "networks"
kind = "networks"

# Example compose-project tab — uncomment + point at the project dir
# containing the docker-compose.yml:
# [[tabs]]
# name = "myapp"
# kind = "compose"
# project_path = "/Users/me/Projects/myapp"
"##;

    /// Checks that there is a tab and that every tab is valid; the error
    /// names the first tab that is not.
    pub fn validate(&self) -> (r: Result<(), String>)
        ensures
            r is Ok <==> (self.tabs@.len() > 0 && forall|i: int|
                0 <= i < self.tabs@.len() ==> tab_valid(#[trigger] self.tabs@[i])),
            self.tabs@.len() == 0 ==> (r matches Err(e) && e@
                == "config: at least one [[tabs]] entry required"@),
            self.tabs@.len() > 0 ==> (r matches Err(e) ==> exists|i: int|
                0 <= i < self.tabs@.len() && !tab_valid(self.tabs@[i]) && (forall|j: int|
                    0 <= j < i ==> tab_valid(#[trigger] self.tabs@[j])) && e@ == tab_error(
                    i,
                    self.tabs@[i],
                )),
    {
        if self.tabs.len() == 0 {
            return Err(String::from_str("config: at least one [[tabs]] entry required"));
        }
        let mut i: usize = 0;
        while i < self.tabs.len()
            invariant
                i <= self.tabs@.len(),
                forall|j: int| 0 <= j < i ==> tab_valid(#[trigger] self.tabs@[j]),
            decreases self.tabs@.len() - i,
        {
            let t = &self.tabs[i];
            if !is_plain_kind(t.kind.as_str()) {
                let ok = same(t.kind.as_str(), "compose") && {
                    let p = trimmed_project_path(&t.project_path);
                    !p.as_str().is_empty()
                };
                if !ok {
                    return Err(tab_error_text(i, t));
                }
            }
            i += 1;
        }
        Ok(())
    }
}

/// `~/.config/mnml-virt-docker` under the given home directory (`.` when
/// there is none).
pub open spec fn config_dir_under(home: Option<Seq<char>>) -> Seq<char> {
    let base = match home {
        Some(h) => h,
        None => "."@,
    };
    path_join(path_join(base, ".config"@), "mnml-virt-docker"@)
}

/// The config directory for a known home directory.
pub fn config_dir_in(home: Option<String>) -> (r: String)
    ensures
        r@ == config_dir_under(opt_view(home)),
{
    let base = match home {
        Some(h) => h,
        None => String::from_str("."),
    };
    let a = join_path(base.as_str(), ".config");
    join_path(a.as_str(), "mnml-virt-docker")
}

/// The user's home directory, by `dirs::home_dir` (read from the
/// environment and the password database, so nothing is stated of it),
/// as text.
#[verifier::external_body]
fn home_dir() -> (r: Option<String>) {
    dirs::home_dir().map(|p| p.to_string_lossy().into_owned())
}

/// `~/.config/mnml-virt-docker`.
pub fn config_dir() -> (r: String)
    ensures
        exists|h: Option<Seq<char>>| r@ == config_dir_under(h),
{
    let home = home_dir();
    let ghost hv = opt_view(home);
    let r = config_dir_in(home);
    assert(r@ == config_dir_under(hv));
    r
}

/// `~/.config/mnml-virt-docker/config.toml`.
pub fn config_path() -> (r: String)
    ensures
        exists|h: Option<Seq<char>>| r@ == path_join(config_dir_under(h), "config.toml"@),
{
    let d = config_dir();
    join_path(d.as_str(), "config.toml")
}

} // verus!
