//! What the screen shows, as text: list rows, tab labels, the detail
//! header, the daemon notice. Drawing it is the terminal front end's part.

use vstd::prelude::*;
use vstd::string::*;
use crate::app::{id_of, primary_of, secondary_of, shortable, state_of, Item, TabState};
use crate::blit::Color;
use crate::docker::{self, repo_tag_of, shortened, image_short_source, DaemonState};
use crate::text::{cat, chars_of, decimal, decimal_text, push_char, same, string_of};

verus! {

/// `s` cut to `max` characters, the last replaced by `…` when it is cut.
pub open spec fn truncated(s: Seq<char>, max: nat) -> Seq<char> {
    if s.len() <= max {
        s
    } else {
        s.take(if max == 0 {
            0
        } else {
            max - 1
        }).push('…')
    }
}

pub fn truncate(s: &str, max: usize) -> (r: String)
    ensures
        r@ == truncated(s@, max as nat),
{
    let cs = chars_of(s);
    if cs.len() <= max {
        String::from_str(s)
    } else {
        let keep = if max == 0 {
            0
        } else {
            max - 1
        };
        let mut out = crate::text::slice_chars(&cs, 0, keep);
        push_char(&mut out, '…');
        assert(cs@.subrange(0, keep as int) =~= s@.take(keep as int));
        out
    }
}

/// `s` padded with spaces to at least `width` characters (`{:<width}`).
pub open spec fn padded(s: Seq<char>, width: nat) -> Seq<char> {
    if s.len() >= width {
        s
    } else {
        s + Seq::new((width - s.len()) as nat, |_i: int| ' ')
    }
}

pub fn pad_right(s: &str, width: usize) -> (r: String)
    ensures
        r@ == padded(s@, width as nat),
{
    let cs = chars_of(s);
    let mut out = String::from_str(s);
    let mut k = cs.len();
    while k < width
        invariant
            cs@ == s@,
            cs@.len() <= k || k == cs@.len(),
            k >= cs@.len(),
            k <= width || k == cs@.len(),
            out@ == s@ + Seq::new((k - cs@.len()) as nat, |_i: int| ' '),
        decreases width - k,
    {
        push_char(&mut out, ' ');
        assert(out@ =~= s@ + Seq::new((k + 1 - cs@.len()) as nat, |_i: int| ' '));
        k += 1;
    }
    assert(cs@.len() >= width ==> out@ =~= s@);
    out
}

/// Leading glyph of a row: its state at a glance.
pub open spec fn badge_of(state: Seq<char>) -> Seq<char> {
    if state == "running"@ {
        "●"@
    } else if state == "exited"@ || state == "dead"@ {
        "○"@
    } else if state == "restarting"@ {
        "↺"@
    } else if state == "paused"@ {
        "‖"@
    } else if state == "created"@ {
        "·"@
    } else {
        " "@
    }
}

pub fn state_badge(item: &Item) -> (r: &'static str)
    ensures
        r@ == badge_of(state_of(*item)),
{
    let st = item.state();
    if same(st, "running") {
        "●"
    } else if same(st, "exited") || same(st, "dead") {
        "○"
    } else if same(st, "restarting") {
        "↺"
    } else if same(st, "paused") {
        "‖"
    } else if same(st, "created") {
        "·"
    } else {
        " "
    }
}

/// Text colour of an unselected row.
pub open spec fn state_color(state: Seq<char>) -> Color {
    if state == "running"@ {
        Color::Green
    } else if state == "exited"@ {
        Color::DarkGray
    } else if state == "dead"@ {
        Color::Red
    } else if state == "restarting"@ || state == "paused"@ {
        Color::Yellow
    } else {
        Color::Gray
    }
}

pub fn state_color_for(item: &Item) -> (c: Color)
    ensures
        c == state_color(state_of(*item)),
{
    let st = item.state();
    if same(st, "running") {
        Color::Green
    } else if same(st, "exited") {
        Color::DarkGray
    } else if same(st, "dead") {
        Color::Red
    } else if same(st, "restarting") || same(st, "paused") {
        Color::Yellow
    } else {
        Color::Gray
    }
}

/// First row shown of a list of `total` rows in `body_rows` lines: the
/// cursor kept near the middle without scrolling past the end.
pub open spec fn window_start(total: int, selected: int, body_rows: int) -> int {
    if total <= body_rows {
        0
    } else {
        let lo = if selected >= body_rows / 2 {
            selected - body_rows / 2
        } else {
            0
        };
        if lo < total - body_rows {
            lo
        } else {
            total - body_rows
        }
    }
}

pub fn list_window_start(total: usize, selected: usize, body_rows: usize) -> (r: usize)
    ensures
        r == window_start(total as int, selected as int, body_rows as int),
        total > body_rows ==> r + body_rows <= total,
{
    if total <= body_rows {
        0
    } else {
        let lo = selected.saturating_sub(body_rows / 2);
        if lo < total - body_rows {
            lo
        } else {
            total - body_rows
        }
    }
}

/// A list row: cursor mark, badge, the name cut and padded to 24
/// characters, two spaces, the secondary text.
pub open spec fn row_text(item: Item, selected: bool) -> Seq<char> {
    (if selected {
        "▸ "@
    } else {
        "  "@
    }) + badge_of(state_of(item)) + " "@ + padded(truncated(primary_of(item), 24), 24) + "  "@
        + secondary_of(item)
}

pub fn list_row_text(item: &Item, selected: bool) -> (r: String)
    requires
        shortable(*item),
    ensures
        r@ == row_text(*item, selected),
{
    let cursor = if selected {
        "▸ "
    } else {
        "  "
    };
    let badge = state_badge(item);
    let p = item.primary_label();
    let t = truncate(p.as_str(), 24);
    let name = pad_right(t.as_str(), 24);
    let sec = item.secondary_label();
    let a = cat(cursor, badge);
    let b = cat(a.as_str(), " ");
    let c = cat(b.as_str(), name.as_str());
    let d = cat(c.as_str(), "  ");
    cat(d.as_str(), sec.as_str())
}

/// A tab's label: its number, name and a count badge (none while the
/// daemon is offline).
pub open spec fn tab_label_of(i: nat, t: TabState, online: bool) -> Seq<char> {
    decimal(i + 1) + "."@ + t.name@ + if !online {
        Seq::empty()
    } else if t.data.loading {
        " (…)"@
    } else if t.data.last_error is Some {
        " (err)"@
    } else {
        " ("@ + decimal(t.data.items@.len()) + ")"@
    }
}

pub fn tab_label(i: usize, t: &TabState, online: bool) -> (r: String)
    requires
        i < usize::MAX,
    ensures
        r@ == tab_label_of(i as nat, *t, online),
{
    let n = decimal_text(i + 1);
    let a = cat(n.as_str(), ".");
    let b = cat(a.as_str(), t.name.as_str());
    if !online {
        proof {
            reveal_strlit("");
        }
        assert(b@ + Seq::<char>::empty() =~= b@);
        b
    } else if t.data.loading {
        cat(b.as_str(), " (…)")
    } else if t.data.last_error.is_some() {
        cat(b.as_str(), " (err)")
    } else {
        let c = decimal_text(t.data.items.len());
        let d = cat(b.as_str(), " (");
        let e = cat(d.as_str(), c.as_str());
        cat(e.as_str(), ")")
    }
}

/// Title of the list panel: ` <kind> (<count>) `.
pub fn list_title(t: &TabState) -> (r: String)
    ensures
        r@ == " "@ + crate::app::kind_name(t.spec.kind) + " ("@ + decimal(t.data.items@.len()) + ") "@,
{
    let a = cat(" ", t.spec.kind.as_str());
    let b = cat(a.as_str(), " (");
    let c = decimal_text(t.data.items.len());
    let d = cat(b.as_str(), c.as_str());
    cat(d.as_str(), ") ")
}

/// What the list panel shows instead of rows: the tab's error, or a
/// placeholder while it has no rows; none when there are rows to show.
pub open spec fn list_notice_of(t: TabState) -> Option<Seq<char>> {
    match t.data.last_error {
        Some(e) => Some("error: "@ + e@),
        None => if t.data.items@.len() == 0 {
            Some(
                if t.data.loading {
                    "(loading…)"@
                } else {
                    "(none)"@
                },
            )
        } else {
            None
        },
    }
}

pub fn list_notice(t: &TabState) -> (r: Option<String>)
    ensures
        crate::text::opt_view(r) == list_notice_of(*t),
{
    match &t.data.last_error {
        Some(e) => Some(cat("error: ", e.as_str())),
        None => if t.data.items.len() == 0 {
            if t.data.loading {
                Some(String::from_str("(loading…)"))
            } else {
                Some(String::from_str("(none)"))
            }
        } else {
            None
        },
    }
}

/// The detail panel's body when no row is focused.
pub const NO_ITEM_SELECTED: &'static str = "(no item selected)";

/// The detail panel's line while the inspect text is not loaded yet.
pub const LOADING_INSPECT: &'static str = " (loading inspect…) ";

/// The body shown instead of the lists while the daemon is unreachable.
pub open spec fn offline_notice(d: DaemonState) -> Seq<char> {
    match d {
        DaemonState::Offline => "Docker daemon not running.\n\nStart Docker Desktop, then press `r` to retry."@,
        DaemonState::CliMissing(e) => "`docker` CLI not found on PATH.\n\n"@ + e@
            + "\n\nInstall Docker Desktop or the docker CLI, then press `r` to retry."@,
        DaemonState::Error(e) => "docker error:\n\n"@ + e@ + "\n\nPress `r` to retry."@,
        DaemonState::Online(_) => Seq::empty(),
    }
}

pub fn daemon_notice(d: &DaemonState) -> (r: String)
    ensures
        r@ == offline_notice(*d),
{
    match d {
        DaemonState::Offline => String::from_str(
            "Docker daemon not running.\n\nStart Docker Desktop, then press `r` to retry.",
        ),
        DaemonState::CliMissing(e) => {
            let a = cat("`docker` CLI not found on PATH.\n\n", e.as_str());
            cat(a.as_str(), "\n\nInstall Docker Desktop or the docker CLI, then press `r` to retry.")
        },
        DaemonState::Error(e) => {
            let a = cat("docker error:\n\n", e.as_str());
            cat(a.as_str(), "\n\nPress `r` to retry.")
        },
        DaemonState::Online(_) => String::new(),
    }
}


/// One header row: the key padded to 14 characters after a space, and
/// the value.
pub open spec fn kv(k: Seq<char>, v: Seq<char>) -> (Seq<char>, Seq<char>) {
    (" "@ + padded(k, 14), v)
}

/// The detail panel's header rows for an item.
pub open spec fn header_of(item: Item) -> Seq<(Seq<char>, Seq<char>)> {
    match item {
        Item::Container(c) => seq![
            kv("Name"@, c.names@),
            kv("ID"@, shortened(c.id@)),
            kv("Image"@, c.image@),
            kv("State"@, c.state@),
            kv("Status"@, c.status@),
        ] + (if c.ports@.len() == 0 {
            Seq::empty()
        } else {
            seq![kv("Ports"@, c.ports@)]
        }) + seq![kv("Running for"@, c.running_for@)],
        Item::Image(m) => seq![
            kv("Repo:Tag"@, repo_tag_of(m.repository@, m.tag@)),
            kv("ID"@, shortened(image_short_source(m.id@))),
            kv("Size"@, m.size@),
            kv("Created"@, m.created_since@),
        ],
        Item::Volume(v) => seq![
            kv("Name"@, v.name@),
            kv("Driver"@, v.driver@),
            kv("Mountpoint"@, v.mountpoint@),
            kv("Scope"@, v.scope@),
        ],
        Item::Network(n) => seq![
            kv("Name"@, n.name@),
            kv("ID"@, shortened(n.id@)),
            kv("Driver"@, n.driver@),
            kv("Scope"@, n.scope@),
        ],
        Item::ComposeService(sv) => seq![
            kv("Service"@, sv.service@),
            kv("Container"@, sv.name@),
            kv("State"@, sv.state@),
            kv("Status"@, sv.status@),
        ] + (if sv.image@.len() == 0 {
            Seq::empty()
        } else {
            seq![kv("Image"@, sv.image@)]
        }) + (if sv.project@.len() == 0 {
            Seq::empty()
        } else {
            seq![kv("Project"@, sv.project@)]
        }),
    }
}

/// The text pairs of a list of header rows.
pub open spec fn pair_views(v: Seq<(String, String)>) -> Seq<(Seq<char>, Seq<char>)> {
    v.map_values(|p: (String, String)| (p.0@, p.1@))
}

fn push_kv(out: &mut Vec<(String, String)>, k: &str, v: &str)
    ensures
        pair_views(final(out)@) == pair_views(old(out)@).push(kv(k@, v@)),
{
    let key = pad_right(k, 14);
    let key = cat(" ", key.as_str());
    let ghost before = out@;
    out.push((key, String::from_str(v)));
    assert(pair_views(out@) =~= pair_views(before).push(kv(k@, v@)));
}

/// The rows at the top of the detail panel.
pub fn header_fields(item: &Item) -> (r: Vec<(String, String)>)
    requires
        shortable(*item),
    ensures
        pair_views(r@) == header_of(*item),
{
    let mut out: Vec<(String, String)> = Vec::new();
    match item {
        Item::Container(c) => {
            push_kv(&mut out, "Name", c.names.as_str());
            push_kv(&mut out, "ID", c.short_id());
            push_kv(&mut out, "Image", c.image.as_str());
            push_kv(&mut out, "State", c.state.as_str());
            push_kv(&mut out, "Status", c.status.as_str());
            if !c.ports.as_str().is_empty() {
                push_kv(&mut out, "Ports", c.ports.as_str());
            }
            push_kv(&mut out, "Running for", c.running_for.as_str());
        },
        Item::Image(i) => {
            let rt = i.repo_tag();
            push_kv(&mut out, "Repo:Tag", rt.as_str());
            push_kv(&mut out, "ID", i.short_id());
            push_kv(&mut out, "Size", i.size.as_str());
            push_kv(&mut out, "Created", i.created_since.as_str());
        },
        Item::Volume(v) => {
            push_kv(&mut out, "Name", v.name.as_str());
            push_kv(&mut out, "Driver", v.driver.as_str());
            push_kv(&mut out, "Mountpoint", v.mountpoint.as_str());
            push_kv(&mut out, "Scope", v.scope.as_str());
        },
        Item::Network(n) => {
            push_kv(&mut out, "Name", n.name.as_str());
            push_kv(&mut out, "ID", n.short_id());
            push_kv(&mut out, "Driver", n.driver.as_str());
            push_kv(&mut out, "Scope", n.scope.as_str());
        },
        Item::ComposeService(sv) => {
            push_kv(&mut out, "Service", sv.service.as_str());
            push_kv(&mut out, "Container", sv.name.as_str());
            push_kv(&mut out, "State", sv.state.as_str());
            push_kv(&mut out, "Status", sv.status.as_str());
            if !sv.image.as_str().is_empty() {
                push_kv(&mut out, "Image", sv.image.as_str());
            }
            if !sv.project.as_str().is_empty() {
                push_kv(&mut out, "Project", sv.project.as_str());
            }
        },
    }
    assert(pair_views(out@) =~= header_of(*item));
    out
}

/// The lines of a text (`str::lines`): pieces between `\n`, a `\r` before
/// the `\n` removed, no empty piece after a final `\n`.
pub open spec fn text_lines(s: Seq<char>) -> Seq<Seq<char>> {
    let parts = crate::text::split_on(s, '\n');
    let whole = parts.len() - 1;
    let kept = if parts.last().len() == 0 {
        parts.drop_last()
    } else {
        parts
    };
    Seq::new(
        kept.len(),
        |k: int|
            if k < whole && kept[k].len() > 0 && kept[k].last() == '\r' {
                kept[k].drop_last()
            } else {
                kept[k]
            },
    )
}

/// The inspect text as panel lines, each indented by a space.
pub fn detail_lines(detail: &str) -> (r: Vec<String>)
    ensures
        docker::texts(r@) == text_lines(detail@).map_values(|l: Seq<char>| " "@ + l),
{
    let parts = crate::text::split_chars(detail, '\n');
    proof {
        crate::text::lemma_split_on_nonempty(detail@, '\n');
    }
    let ghost pv = crate::text::views(parts@);
    let whole = parts.len() - 1;
    let kept = if parts[whole].len() == 0 {
        whole
    } else {
        parts.len()
    };
    assert(parts@[whole as int]@ == pv.last());
    let ghost lines = text_lines(detail@);
    assert(lines.len() == kept);
    let mut out: Vec<String> = Vec::new();
    let mut k: usize = 0;
    while k < kept
        invariant
            k <= kept <= parts@.len(),
            whole == parts@.len() - 1,
            pv == crate::text::views(parts@),
            pv == crate::text::split_on(detail@, '\n'),
            lines == text_lines(detail@),
            lines.len() == kept,
            docker::texts(out@) == lines.take(k as int).map_values(|l: Seq<char>| " "@ + l),
        decreases kept - k,
    {
        let piece = &parts[k];
        assert(piece@ == pv[k as int]);
        let n = piece.len();
        let end = if k < whole && n > 0 && piece[n - 1] == '\r' {
            n - 1
        } else {
            n
        };
        let text = crate::text::slice_chars(piece, 0, end);
        let line = cat(" ", text.as_str());
        proof {
            if k < whole && n > 0 && piece@[n - 1] == '\r' {
                assert(text@ =~= pv[k as int].drop_last());
            } else {
                assert(text@ =~= pv[k as int]);
            }
            assert(lines[k as int] == text@);
            docker::lemma_texts_push(out@, line);
        }
        out.push(line);
        assert(lines.take(k + 1).map_values(|l: Seq<char>| " "@ + l) =~= lines.take(k as int).map_values(
            |l: Seq<char>| " "@ + l,
        ).push(" "@ + lines[k as int]));
        k += 1;
    }
    assert(lines.take(kept as int) =~= lines);
    out
}

} // verus!
