//! Properties that tie several operations together.

use vstd::prelude::*;
use vstd::utf8::*;
use crate::app::{
    argv_is, cancel_rm_effect, confirm_rm_effect, ensure_focused_effect, enter_rm_confirm_effect,
    exec_shell_effect, focused_of, handoff_ecr_effect, move_selection_effect, on_copied_effect,
    on_inspected_effect, on_launched_effect, on_listed_effect, on_probed_effect, on_ran_effect,
    open_docker_desktop_effect, pending_for, refresh_started, resolves_to, rm_args_of,
    stop_or_start_effect, switch_tab_effect, tail_logs_effect, tick_effect, yank_id_effect,
    detail_cached, inspect_args_of, is_online, list_args_of, AfterRun, App, Item, Request,
    RmPending, TabKind, TabSpec, TabState, Then,
};
use crate::docker::DockerOutcome;
use crate::blit::{ansi256, color_rgba, Color};
use crate::config::{tab_valid, Config};
use crate::docker::{can_shorten, ecr_account_region, shortened};
use crate::keys::{action_effect, action_for, Action, KeyCode, KeyEvent};
use crate::text::{all_digits, split_on};
use crate::view::truncated;

verus! {

broadcast use vstd::seq_lib::group_seq_properties;

proof fn lemma_split_without_delim(a: Seq<char>, d: char)
    requires
        !a.contains(d),
    ensures
        split_on(a, d) == seq![a],
    decreases a.len(),
{
    if a.len() > 0 {
        assert(!a.drop_first().contains(d)) by {
            if a.drop_first().contains(d) {
                let k = choose|k: int| 0 <= k < a.drop_first().len() && a.drop_first()[k] == d;
                assert(a[k + 1] == d);
            }
        }
        lemma_split_without_delim(a.drop_first(), d);
        assert(a[0] != d);
        assert(seq![a[0]] + a.drop_first() =~= a);
        assert(split_on(a, d) =~= seq![a]);
    } else {
        assert(a =~= Seq::<char>::empty());
    }
}

proof fn lemma_split_at_delim(a: Seq<char>, b: Seq<char>, d: char)
    requires
        !a.contains(d),
    ensures
        split_on(a + seq![d] + b, d) == seq![a] + split_on(b, d),
    decreases a.len(),
{
    let s = a + seq![d] + b;
    if a.len() == 0 {
        assert(s.drop_first() =~= b);
        assert(a =~= Seq::<char>::empty());
        assert(split_on(s, d) =~= seq![a] + split_on(b, d));
    } else {
        let a1 = a.drop_first();
        assert(!a1.contains(d)) by {
            if a1.contains(d) {
                let k = choose|k: int| 0 <= k < a1.len() && a1[k] == d;
                assert(a[k + 1] == d);
            }
        }
        lemma_split_at_delim(a1, b, d);
        assert(s.drop_first() =~= a1 + seq![d] + b);
        assert(s[0] == a[0]);
        assert(a[0] != d);
        crate::text::lemma_split_on_nonempty(b, d);
        assert(seq![a[0]] + a1 =~= a);
        assert(split_on(s, d) =~= seq![a] + split_on(b, d));
    }
}

/// Every reference of the documented ECR form
/// `<acct>.dkr.ecr.<region>.amazonaws.com/<repo>` (a non-empty all-digit
/// account, a non-empty region without `.` or `/`) yields its account and
/// region.
pub proof fn lemma_ecr_reference_parses(acct: Seq<char>, region: Seq<char>, repo: Seq<char>)
    requires
        acct.len() > 0,
        all_digits(acct),
        region.len() > 0,
        !region.contains('.'),
        !region.contains('/'),
    ensures
        ecr_account_region(acct + ".dkr.ecr."@ + region + ".amazonaws.com/"@ + repo) == Some((acct, region)),
{
    reveal_strlit(".dkr.ecr.");
    reveal_strlit(".amazonaws.com/");
    reveal_strlit("dkr");
    reveal_strlit("ecr");
    reveal_strlit("amazonaws");
    reveal_strlit("com");
    let dkr = "dkr"@;
    let ecr = "ecr"@;
    let amz = "amazonaws"@;
    let com = "com"@;
    let dot = seq!['.'];
    let host = acct + dot + dkr + dot + ecr + dot + region + dot + amz + dot + com;
    let s = acct + ".dkr.ecr."@ + region + ".amazonaws.com/"@ + repo;
    assert(s =~= host + seq!['/'] + repo);
    assert(!acct.contains('.') && !acct.contains('/')) by {
        if acct.contains('.') || acct.contains('/') {
            let k = choose|k: int| 0 <= k < acct.len() && (acct[k] == '.' || acct[k] == '/');
            assert(crate::text::is_ascii_digit(acct[k]));
        }
    }
    assert(!dkr.contains('.') && !dkr.contains('/'));
    assert(!ecr.contains('.') && !ecr.contains('/'));
    assert(!amz.contains('.') && !amz.contains('/'));
    assert(!com.contains('.') && !com.contains('/'));
    assert(!dot.contains('/'));
    assert(!host.contains('/')) by {
        if host.contains('/') {
            let k = choose|k: int| 0 <= k < host.len() && host[k] == '/';
            assert(false);
        }
    }
    lemma_split_at_delim(host, repo, '/');
    // host = acct . dkr . ecr . region . amazonaws . com
    let t5 = com;
    let t4 = amz + dot + com;
    let t3 = region + dot + t4;
    let t2 = ecr + dot + t3;
    let t1 = dkr + dot + t2;
    assert(host =~= acct + dot + t1);
    assert(t1 =~= dkr + dot + t2);
    lemma_split_without_delim(t5, '.');
    lemma_split_at_delim(amz, t5, '.');
    lemma_split_at_delim(region, t4, '.');
    lemma_split_at_delim(ecr, t3, '.');
    lemma_split_at_delim(dkr, t2, '.');
    lemma_split_at_delim(acct, t1, '.');
    let parts = split_on(host, '.');
    assert(parts =~= seq![acct, dkr, ecr, region, amz, com]);
}

/// For an ASCII id (docker's are hex), the short form is its first 12
/// characters, or the whole id when shorter.
pub proof fn lemma_ascii_short_id(s: Seq<char>)
    requires
        is_ascii_chars(s),
        s.len() <= usize::MAX,
    ensures
        can_shorten(s),
        shortened(s) == s.take(if s.len() < 12 {
            s.len() as int
        } else {
            12
        }),
{
    is_ascii_chars_encode_utf8(s);
    let b = encode_utf8(s);
    encode_utf8_valid_utf8(s);
    let c = if s.len() < 12 {
        s.len() as int
    } else {
        12
    };
    if c == b.len() {
        is_char_boundary_start_end_of_seq(b);
    } else {
        is_char_boundary_iff_not_is_continuation_byte(b, c);
        assert(s[c] as u8 == b[c]);
    }
    let t = s.take(c);
    assert(is_ascii_chars(t));
    is_ascii_chars_encode_utf8(t);
    assert(encode_utf8(t) =~= b.subrange(0, c));
    encode_utf8_decode_utf8(t);
}

/// Pressing `R` twice keeps the same pending removal.
pub proof fn lemma_rm_confirm_idempotent(a0: App, a1: App, a2: App)
    requires
        a0.wf(),
        enter_rm_confirm_effect(a0, a1),
        enter_rm_confirm_effect(a1, a2),
    ensures
        a2.rm_pending == a1.rm_pending,
        a2.status@ == a1.status@,
{
    assert(focused_of(a1) == focused_of(a0));
}

/// The app is waiting on a docker removal.
pub open spec fn removal_requested(r: Option<Request>) -> bool {
    r matches Some(Request::Run { then: AfterRun::Removed(_), .. })
}

/// Only confirming the `R` overlay asks docker to remove anything: every
/// other action leaves the app without a removal under way when there was
/// none.
pub proof fn lemma_only_confirm_removes(action: Action, a0: App, a1: App, on_macos: bool)
    requires
        a0.wf(),
        action != Action::ConfirmRm,
        !removal_requested(a0.request),
        action_effect(action, a0, a1, on_macos),
    ensures
        !removal_requested(a1.request),
{
}

/// `R` only shows the confirmation: it asks for no docker command.
pub proof fn lemma_rm_confirm_removes_nothing(a0: App, a1: App)
    requires
        a0.wf(),
        enter_rm_confirm_effect(a0, a1),
    ensures
        a1.request == a0.request,
{
}

/// `R` then `n` / Esc leaves nothing pending and says it was cancelled.
pub proof fn lemma_rm_enter_then_cancel(a0: App, a1: App, a2: App)
    requires
        a0.wf(),
        focused_of(a0) matches Some(it) && pending_for(it) is Some,
        enter_rm_confirm_effect(a0, a1),
        cancel_rm_effect(a1, a2),
    ensures
        a2.rm_pending is None,
        a2.status@ == "rm cancelled"@,
{
}

/// `R` then `y` asks docker to remove exactly the focused item, by the
/// command for its kind, and closes the confirmation.
pub proof fn lemma_rm_enter_then_confirm(a0: App, a1: App, a2: App)
    requires
        a0.wf(),
        focused_of(a0) matches Some(it) && pending_for(it) is Some,
        enter_rm_confirm_effect(a0, a1),
        confirm_rm_effect(a1, a2),
    ensures
        a2.rm_pending is None,
        ({
            let p = pending_for(focused_of(a0).unwrap()).unwrap();
            a2.request matches Some(Request::Run { args, then }) && argv_is(args, rm_args_of(p))
                && then == AfterRun::Removed(p)
        }),
{
}

/// `Home` (a move up by `i32::MAX` rows) reaches the first row.
pub proof fn lemma_home_reaches_top(a0: App, a1: App)
    requires
        a0.wf(),
        a0.tabs@.len() > 0,
        a0.tabs@[a0.active_tab as int].data.items@.len() > 0,
        move_selection_effect(a0, a1, -0x7fff_ffff as isize),
        a0.tabs@[a0.active_tab as int].data.selected <= 0x7fff_ffff,
    ensures
        a1.tabs@[a1.active_tab as int].data.selected == 0,
{
}

/// `End` (a move down by `i32::MAX` rows) reaches the last row of a list
/// of up to `i32::MAX + 1` rows.
pub proof fn lemma_end_reaches_bottom(a0: App, a1: App)
    requires
        a0.wf(),
        a0.tabs@.len() > 0,
        a0.tabs@[a0.active_tab as int].data.items@.len() > 0,
        a0.tabs@[a0.active_tab as int].data.items@.len() <= 0x8000_0000,
        move_selection_effect(a0, a1, 0x7fff_ffff as isize),
    ensures
        a1.tabs@[a1.active_tab as int].data.selected == a0.tabs@[a0.active_tab as int].data.items@.len() - 1,
{
}

/// `Tab` then `BackTab` returns to the tab one started on.
pub proof fn lemma_next_then_prev_tab(a0: App, a1: App, a2: App, on_macos: bool)
    requires
        a0.wf(),
        a0.tabs@.len() > 0,
        a1.wf(),
        action_effect(Action::NextTab, a0, a1, on_macos),
        action_effect(Action::PrevTab, a1, a2, on_macos),
    ensures
        a2.active_tab == a0.active_tab,
{
    let n = a0.tabs@.len() as int;
    let i = a0.active_tab as int;
    if i + 1 < n {
        assert((i + 1) % n == i + 1) by (nonlinear_arith)
            requires
                0 <= i + 1 < n,
        ;
    } else {
        assert((i + 1) % n == 0) by (nonlinear_arith)
            requires
                i + 1 == n,
                n > 0,
        ;
    }
    let nx = crate::keys::next_tab(a0);
    assert(0 <= nx < n);
    assert(crate::app::switch_tab_effect(a0, a1, nx as usize));
    assert((nx as usize) as int == nx);
    assert(a1.active_tab == nx);
    assert(a1.tabs@.len() == a0.tabs@.len());
}

/// While a removal awaits confirmation, keys only confirm or cancel.
pub proof fn lemma_confirming_keys(k: KeyEvent)
    ensures
        match action_for(k, true) {
            None => true,
            Some(a) => a == Action::ConfirmRm || a == Action::CancelRm,
        },
{
}

/// Esc cancels a pending removal and otherwise quits.
pub proof fn lemma_esc_cancels_or_quits(k: KeyEvent, confirming: bool)
    requires
        k.code == KeyCode::Esc,
    ensures
        action_for(k, confirming) == if confirming {
            Some(Action::CancelRm)
        } else {
            Some(Action::Quit)
        },
{
}

/// A cut name keeps `max` characters, the last of them `…`.
pub proof fn lemma_truncated_length(s: Seq<char>, max: nat)
    requires
        max >= 1,
    ensures
        truncated(s, max).len() == if s.len() <= max {
            s.len()
        } else {
            max
        },
        s.len() > max ==> truncated(s, max).last() == '…',
{
}

/// The named colours are the first 16 entries of the 256-colour palette.
pub proof fn lemma_named_colors_are_palette(is_bg: bool)
    ensures
        color_rgba(Color::Black, is_bg) == ansi256(0),
        color_rgba(Color::Red, is_bg) == ansi256(1),
        color_rgba(Color::Green, is_bg) == ansi256(2),
        color_rgba(Color::Yellow, is_bg) == ansi256(3),
        color_rgba(Color::Blue, is_bg) == ansi256(4),
        color_rgba(Color::Magenta, is_bg) == ansi256(5),
        color_rgba(Color::Cyan, is_bg) == ansi256(6),
        color_rgba(Color::Gray, is_bg) == ansi256(7),
        color_rgba(Color::DarkGray, is_bg) == ansi256(8),
        color_rgba(Color::LightRed, is_bg) == ansi256(9),
        color_rgba(Color::LightGreen, is_bg) == ansi256(10),
        color_rgba(Color::LightYellow, is_bg) == ansi256(11),
        color_rgba(Color::LightBlue, is_bg) == ansi256(12),
        color_rgba(Color::LightMagenta, is_bg) == ansi256(13),
        color_rgba(Color::LightCyan, is_bg) == ansi256(14),
        color_rgba(Color::White, is_bg) == ansi256(15),
{
}

/// A config that validates resolves every tab (so building the app from
/// it cannot fail).
pub proof fn lemma_valid_config_resolves(cfg: Config, i: int, r: Result<TabSpec, String>)
    requires
        cfg.tabs@.len() > 0,
        forall|j: int| 0 <= j < cfg.tabs@.len() ==> tab_valid(#[trigger] cfg.tabs@[j]),
        0 <= i < cfg.tabs@.len(),
        resolves_to(cfg.tabs@[i], r),
    ensures
        r is Ok,
{
    assert(tab_valid(cfg.tabs@[i]));
}


// ─── Runs of calls ──────────────────────────────────────────────────────

/// One call of a method of the app, with its arguments.
pub enum Call {
    EnsureFocusedLoaded,
    OnInspected(DockerOutcome),
    RefreshActive,
    OnProbed(DockerOutcome),
    OnListed(Result<Vec<Item>, String>, u64),
    /// `tick(now)`, which returned the `bool`.
    Tick(u64, bool),
    SwitchTab(usize),
    MoveSelection(isize),
    YankId,
    OnCopied(Result<(), String>),
    TailLogs,
    ExecShell,
    StopOrStart(bool),
    EnterRmConfirm,
    ConfirmRm,
    CancelRm,
    OnRan(DockerOutcome),
    OpenDockerDesktop(bool),
    HandoffEcr,
    OnLaunched(Result<(), String>),
    /// `keys::apply(action, app, on_macos)`.
    Key(Action, bool),
    /// A change through `active_mut`: the active tab becomes this one.
    EditActiveTab(TabState),
}

/// What a call does to the app, as the method's contract states it.
pub open spec fn call_effect(c: Call, old: App, new: App) -> bool {
    match c {
        Call::EnsureFocusedLoaded => ensure_focused_effect(old, new),
        Call::OnInspected(o) => on_inspected_effect(old, new, o),
        Call::RefreshActive => refresh_started(old, new, Then::Nothing),
        Call::OnProbed(o) => on_probed_effect(old, new, o),
        Call::OnListed(r, now) => on_listed_effect(old, new, r, now),
        Call::Tick(now, r) => tick_effect(old, new, now, r),
        Call::SwitchTab(i) => switch_tab_effect(old, new, i),
        Call::MoveSelection(d) => move_selection_effect(old, new, d),
        Call::YankId => yank_id_effect(old, new),
        Call::OnCopied(r) => on_copied_effect(old, new, r),
        Call::TailLogs => tail_logs_effect(old, new),
        Call::ExecShell => exec_shell_effect(old, new),
        Call::StopOrStart(start) => stop_or_start_effect(old, new, start),
        Call::EnterRmConfirm => enter_rm_confirm_effect(old, new),
        Call::ConfirmRm => confirm_rm_effect(old, new),
        Call::CancelRm => cancel_rm_effect(old, new),
        Call::OnRan(o) => on_ran_effect(old, new, o),
        Call::OpenDockerDesktop(m) => open_docker_desktop_effect(old, new, m),
        Call::HandoffEcr => handoff_ecr_effect(old, new),
        Call::OnLaunched(r) => on_launched_effect(old, new, r),
        Call::Key(a, m) => action_effect(a, old, new, m),
        Call::EditActiveTab(t) => new.tabs@ == old.tabs@.update(old.active_tab as int, t) && new == (App {
            tabs: new.tabs,
            ..old
        }),
    }
}

/// The call confirms the `R` overlay (`confirm_rm`, or `y` through the key
/// map).
pub open spec fn confirms(c: Call) -> bool {
    c is ConfirmRm || (c matches Call::Key(a, _) && a == Action::ConfirmRm)
}

/// The call is `R` (`enter_rm_confirm`, directly or through the key map).
pub open spec fn enters_rm(c: Call) -> bool {
    c is EnterRmConfirm || (c matches Call::Key(a, _) && a == Action::EnterRmConfirm)
}

/// What one call may do to the pending removal and to a removal request:
/// the pending removal stays, is dropped, or (by `R`) becomes the focused
/// row's; a removal is asked for only by confirming, of the pending
/// removal, with its removal command.
pub open spec fn removal_step(c: Call, old: App, new: App) -> bool {
    &&& (new.rm_pending == old.rm_pending || new.rm_pending is None || (enters_rm(c)
        && pending_of_focus(old, new.rm_pending)))
    &&& (!removal_requested(new.request) || new.request == old.request || (confirms(c)
        && removal_of(old.rm_pending, new.request)))
}

/// `pending` is the removal `R` puts up for the focused row of `a`.
pub open spec fn pending_of_focus(a: App, pending: Option<RmPending>) -> bool {
    match focused_of(a) {
        Some(it) => pending_for(it) is Some && pending == pending_for(it),
        None => false,
    }
}

/// `r` asks docker for the removal `pending`, by its removal command.
pub open spec fn removal_of(pending: Option<RmPending>, r: Option<Request>) -> bool {
    match (pending, r) {
        (Some(p), Some(Request::Run { args, then })) => argv_is(args, rm_args_of(p)) && then
            == AfterRun::Removed(p),
        _ => false,
    }
}

/// Every call keeps to `removal_step`.
pub proof fn lemma_call_removal_step(c: Call, a0: App, a1: App)
    requires
        a0.wf(),
        call_effect(c, a0, a1),
    ensures
        removal_step(c, a0, a1),
{
    match c {
        Call::OnListed(r, now) => {
            match a0.request {
                Some(Request::List { tab, kind, then }) => {
                    let mid = choose|mid: App|
                        #![trigger crate::app::listed_state(a0, mid, tab as int, kind, r, now)]
                        mid.wf() && mid.request is None && crate::app::listed_state(a0, mid, tab as int, kind, r, now)
                            && crate::app::followed_by(mid, a1, then);
                    assert(mid.rm_pending == a0.rm_pending);
                },
                _ => {},
            }
        },
        Call::OnRan(o) => {
            match a0.request {
                Some(Request::Run { args, then }) => {
                    match crate::docker::run_result(crate::docker::texts(args@), o) {
                        Ok(_) => {
                            let mid = choose|mid: App|
                                #![trigger refresh_started(mid, a1, Then::Nothing)]
                                mid.wf() && mid.status@ == crate::app::done_message(then) && mid == (App {
                                    status: mid.status,
                                    request: None,
                                    ..a0
                                }) && refresh_started(mid, a1, Then::Nothing);
                            assert(mid.rm_pending == a0.rm_pending);
                        },
                        Err(_) => {},
                    }
                },
                _ => {},
            }
        },
        Call::Key(a, m) => {
            if a != Action::ConfirmRm {
                if !removal_requested(a0.request) {
                    lemma_only_confirm_removes(a, a0, a1, m);
                }
            }
        },
        _ => {},
    }
}

/// The pending removal `p` at step `i` was set by an earlier `R` on the row
/// then focused.
pub open spec fn set_by_rm_key(apps: Seq<App>, calls: Seq<Call>, i: int, p: RmPending) -> bool {
    exists|k: int|
        #![trigger calls[k], apps[k]]
        0 <= k < i && enters_rm(calls[k]) && pending_of_focus(apps[k], Some(p))
}

/// A removal asked for at step `i` is the removal command of a pending `p`
/// that an earlier call confirmed, `p` having been set by an even earlier
/// `R` on the row then focused.
pub open spec fn removal_confirmed(apps: Seq<App>, calls: Seq<Call>, i: int) -> bool {
    match apps[i].request {
        Some(Request::Run { args, then: AfterRun::Removed(p) }) => argv_is(args, rm_args_of(p)) && exists|j: int|
            #![trigger calls[j], apps[j]]
            0 <= j < i && confirms(calls[j]) && apps[j].rm_pending == Some(p) && set_by_rm_key(
                apps,
                calls,
                j,
                p,
            ),
        _ => true,
    }
}

/// Over any run of method calls that starts with no removal pending and
/// none asked for (as `App::new` leaves the app), every removal the app
/// asks docker for is the removal command of the item that an earlier `R`
/// put up for confirmation on the row then focused, and an earlier call
/// confirmed it while it was pending; no other call removes anything.
pub proof fn lemma_removals_need_confirmation(apps: Seq<App>, calls: Seq<Call>)
    requires
        apps.len() == calls.len() + 1,
        apps[0].rm_pending is None,
        !removal_requested(apps[0].request),
        forall|i: int| 0 <= i < apps.len() ==> (#[trigger] apps[i]).wf(),
        forall|i: int| 0 <= i < calls.len() ==> call_effect(#[trigger] calls[i], apps[i], apps[i + 1]),
    ensures
        forall|i: int| 0 <= i < apps.len() ==> #[trigger] removal_confirmed(apps, calls, i),
{
    assert forall|i: int| 0 <= i < apps.len() implies {
        &&& (apps[i].rm_pending matches Some(p) ==> set_by_rm_key(apps, calls, i, p))
        &&& removal_confirmed(apps, calls, i)
    } by {
        lemma_removal_prefix(apps, calls, i);
    }
}

proof fn lemma_removal_prefix(apps: Seq<App>, calls: Seq<Call>, i: int)
    requires
        apps.len() == calls.len() + 1,
        apps[0].rm_pending is None,
        !removal_requested(apps[0].request),
        forall|i: int| 0 <= i < apps.len() ==> (#[trigger] apps[i]).wf(),
        forall|i: int| 0 <= i < calls.len() ==> call_effect(#[trigger] calls[i], apps[i], apps[i + 1]),
        0 <= i < apps.len(),
    ensures
        apps[i].rm_pending matches Some(p) ==> set_by_rm_key(apps, calls, i, p),
        removal_confirmed(apps, calls, i),
    decreases i,
{
    if i > 0 {
        let h = i - 1;
        lemma_removal_prefix(apps, calls, h);
        let a0 = apps[h];
        let a1 = apps[i];
        let c = calls[h];
        assert(call_effect(c, a0, a1));
        lemma_call_removal_step(c, a0, a1);
        if let Some(p) = a1.rm_pending {
            if a1.rm_pending == a0.rm_pending {
                let k = choose|k: int|
                    #![trigger calls[k], apps[k]]
                    0 <= k < h && enters_rm(calls[k]) && pending_of_focus(apps[k], Some(p));
                assert(0 <= k < i && enters_rm(calls[k]));
            } else {
                assert(enters_rm(calls[h]) && apps[h] == a0);
            }
        }
        match a1.request {
            Some(Request::Run { args, then: AfterRun::Removed(p) }) => {
                if a1.request == a0.request {
                    let j = choose|j: int|
                        #![trigger calls[j], apps[j]]
                        0 <= j < h && confirms(calls[j]) && apps[j].rm_pending == Some(p)
                            && set_by_rm_key(apps, calls, j, p);
                    assert(0 <= j < i && confirms(calls[j]));
                } else {
                    assert(confirms(calls[h]) && apps[h] == a0);
                    assert(a0.rm_pending == Some(p));
                    assert(set_by_rm_key(apps, calls, h, p));
                }
            },
            _ => {},
        }
    }
}


// ─── Commands by kind ───────────────────────────────────────────────────

/// `R` then `y` on a row asks docker to remove that very row, with the
/// removal command of its kind: `rm -f <id>` for a container, `rmi <id>`
/// for an image, `volume rm <name>` for a volume, `network rm <name>` for a
/// network. A compose service asks for nothing.
pub proof fn lemma_rm_command_by_kind(a0: App, a1: App, a2: App)
    requires
        a0.wf(),
        a0.rm_pending is None,
        enter_rm_confirm_effect(a0, a1),
        confirm_rm_effect(a1, a2),
    ensures
        match focused_of(a0) {
            Some(Item::Container(c)) => a2.request matches Some(Request::Run { args, then })
                && crate::docker::texts(args@) == seq!["rm"@, "-f"@, c.id@] && then
                == AfterRun::Removed(RmPending::Container(c.id)),
            Some(Item::Image(m)) => a2.request matches Some(Request::Run { args, then })
                && crate::docker::texts(args@) == seq!["rmi"@, m.id@] && then == AfterRun::Removed(
                RmPending::Image(m.id),
            ),
            Some(Item::Volume(v)) => a2.request matches Some(Request::Run { args, then })
                && crate::docker::texts(args@) == seq!["volume"@, "rm"@, v.name@] && then
                == AfterRun::Removed(RmPending::Volume(v.name)),
            Some(Item::Network(n)) => a2.request matches Some(Request::Run { args, then })
                && crate::docker::texts(args@) == seq!["network"@, "rm"@, n.name@] && then
                == AfterRun::Removed(RmPending::Network(n.name)),
            _ => a2.request == a0.request && a2.rm_pending is None,
        },
{
}

/// Confirming a pending removal asks docker for the removal command of
/// that removal's kind, on its id or name, and closes the confirmation.
pub proof fn lemma_confirm_rm_command(a0: App, a1: App)
    requires
        a0.wf(),
        confirm_rm_effect(a0, a1),
    ensures
        a1.rm_pending is None,
        match a0.rm_pending {
            None => a1 == a0,
            Some(p) => a1.request matches Some(Request::Run { args, then }) && then
                == AfterRun::Removed(p) && crate::docker::texts(args@) == match p {
                RmPending::Container(id) => seq!["rm"@, "-f"@, id@],
                RmPending::Image(id) => seq!["rmi"@, id@],
                RmPending::Volume(name) => seq!["volume"@, "rm"@, name@],
                RmPending::Network(name) => seq!["network"@, "rm"@, name@],
            },
        },
{
}

/// Each tab kind is listed by the docker command for that kind's resource,
/// as one JSON record per line (`docker compose -f <file> ps` answers in
/// JSON for a compose tab).
pub proof fn lemma_list_command_by_kind(k: TabKind)
    ensures
        match k {
            TabKind::Containers => list_args_of(k) == seq!["ps"@, "-a"@, "--format"@, "{{json .}}"@],
            TabKind::Images => list_args_of(k) == seq!["images"@, "--format"@, "{{json .}}"@],
            TabKind::Volumes => list_args_of(k) == seq!["volume"@, "ls"@, "--format"@, "{{json .}}"@],
            TabKind::Networks => list_args_of(k) == seq!["network"@, "ls"@, "--format"@, "{{json .}}"@],
            TabKind::Compose { compose_file } => list_args_of(k) == seq![
                "compose"@,
                "-f"@,
                compose_file@,
                "ps"@,
                "--format"@,
                "json"@,
            ],
        },
{
}

/// A refresh of the active tab (daemon online) lists it by the command of
/// its own kind.
pub proof fn lemma_refresh_lists_own_kind(a0: App, a1: App)
    requires
        a0.wf(),
        is_online(a0.daemon),
        refresh_started(a0, a1, Then::Nothing),
    ensures
        a1.request matches Some(Request::List { tab, kind, .. }) && tab == a0.active_tab && kind
            == a0.tabs@[a0.active_tab as int].spec.kind,
{
}

/// Loading the focused row's detail (daemon online, detail not held)
/// inspects that row with the command of its kind: `network inspect
/// <name>` for a network, `volume inspect <name>` for a volume, `inspect
/// <id>` for a container or an image, `inspect <container name>` for a
/// compose service.
pub proof fn lemma_inspect_command_by_kind(a0: App, a1: App)
    requires
        a0.wf(),
        is_online(a0.daemon),
        focused_of(a0) is Some,
        !detail_cached(a0.tabs@[a0.active_tab as int].data, crate::app::id_of(focused_of(a0).unwrap())),
        ensure_focused_effect(a0, a1),
    ensures
        a1.request matches Some(Request::Inspect { tab, id, kind }) && tab == a0.active_tab
            && inspect_args_of(kind, id@) == match focused_of(a0).unwrap() {
            Item::Container(c) => seq!["inspect"@, c.id@],
            Item::Image(m) => seq!["inspect"@, m.id@],
            Item::Volume(v) => seq!["volume"@, "inspect"@, v.name@],
            Item::Network(n) => seq!["network"@, "inspect"@, n.name@],
            Item::ComposeService(s) => seq!["inspect"@, s.name@],
        },
{
}

// ─── Cursor keys ────────────────────────────────────────────────────────

/// ↑ / ↓ move the cursor one row and PgUp / PgDn ten rows, stopping at the
/// first and last row; the tab and its rows stay as they were.
pub proof fn lemma_cursor_keys(action: Action, a0: App, a1: App, on_macos: bool)
    requires
        a0.wf(),
        a0.tabs@.len() > 0,
        a0.tabs@[a0.active_tab as int].data.items@.len() > 0,
        action == Action::Up || action == Action::Down || action == Action::PageUp || action
            == Action::PageDown,
        action_effect(action, a0, a1, on_macos),
    ensures
        ({
            let n = a0.tabs@[a0.active_tab as int].data.items@.len() as int;
            let s = a0.tabs@[a0.active_tab as int].data.selected as int;
            let t = a1.tabs@[a1.active_tab as int].data.selected as int;
            &&& a1.active_tab == a0.active_tab
            &&& a1.tabs@[a1.active_tab as int].data.items == a0.tabs@[a0.active_tab as int].data.items
            &&& action == Action::Down ==> t == if s + 1 < n {
                s + 1
            } else {
                n - 1
            }
            &&& action == Action::Up ==> t == if s >= 1 {
                s - 1
            } else {
                0
            }
            &&& action == Action::PageDown ==> t == if s + 10 < n {
                s + 10
            } else {
                n - 1
            }
            &&& action == Action::PageUp ==> t == if s >= 10 {
                s - 10
            } else {
                0
            }
        }),
{
    let idx = a0.active_tab as int;
    let d = crate::keys::move_delta(action);
    assert(d == -1 || d == 1 || d == -10 || d == 10);
    assert((d as isize) as int == d);
    assert(move_selection_effect(a0, a1, d as isize));
    let t0 = a0.tabs@[idx];
    assert(crate::app::selection_ok(t0.data));
    assert(t0.data.items@.len() == t0.data.items.len());
    let next = crate::app::clamped(t0.data.selected + d, 0, t0.data.items@.len() - 1) as usize;
    assert(a1.tabs@ == a0.tabs@.update(idx, TabState { data: crate::app::ItemsTab { selected: next, ..t0.data }, ..t0 }));
    assert(a1.active_tab == a0.active_tab);
    assert(a1.tabs@[idx].data.selected == next);
}

} // verus!
