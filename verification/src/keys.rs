//! Keyboard chord → action, and each action's effect on the app.

use vstd::prelude::*;
use crate::app::{
    cancel_rm_effect, confirm_rm_effect, enter_rm_confirm_effect, exec_shell_effect, focused_of,
    handoff_ecr_effect, move_selection_effect, open_docker_desktop_effect, refresh_started,
    rm_shortable, stop_or_start_effect, switch_tab_effect, tail_logs_effect, yank_id_effect, App,
    Then,
};

verus! {

/// A key, as the terminal reports it.
#[derive(Debug, Clone, Copy, PartialEq, Eq)]
pub enum KeyCode {
    Backspace,
    Enter,
    Left,
    Right,
    Up,
    Down,
    Home,
    End,
    PageUp,
    PageDown,
    Tab,
    BackTab,
    Delete,
    Insert,
    F(u8),
    Char(char),
    Esc,
    /// Any other key.
    Other,
}

/// Modifier bits, as crossterm's `KeyModifiers` has them.
pub const MOD_SHIFT: u8 = 0b0000_0001;
pub const MOD_CONTROL: u8 = 0b0000_0010;
pub const MOD_ALT: u8 = 0b0000_0100;
pub const MOD_SUPER: u8 = 0b0000_1000;

/// A key press with its modifier bits.
#[derive(Debug, Clone, Copy, PartialEq, Eq)]
pub struct KeyEvent {
    pub code: KeyCode,
    pub modifiers: u8,
}

#[derive(Debug, Clone, Copy, PartialEq, Eq)]
pub enum Action {
    Quit,
    Up,
    Down,
    PageUp,
    PageDown,
    Home,
    End,
    OpenDesktop,
    YankId,
    TailLogs,
    ExecShell,
    StopContainer,
    StartContainer,
    EnterRmConfirm,
    ConfirmRm,
    CancelRm,
    HandoffEcr,
    Refresh,
    SwitchTab(usize),
    NextTab,
    PrevTab,
}

/// The key map. While a removal awaits confirmation only `y` / `Y` /
/// Enter (confirm) and `n` / `N` / Esc (cancel) act. Otherwise: `q`, Esc and
/// Ctrl+C quit, ↑/`k` ↓/`j` PgUp PgDn Home/`g` End/`G`
/// move, `o y l e s S R L r` act on the focused row, Tab / BackTab cycle
/// and `1`–`9` pick a tab.
pub open spec fn action_for(key: KeyEvent, confirming: bool) -> Option<Action> {
    if confirming {
        match key.code {
            KeyCode::Char('y') | KeyCode::Char('Y') | KeyCode::Enter => Some(Action::ConfirmRm),
            KeyCode::Char('n') | KeyCode::Char('N') | KeyCode::Esc => Some(Action::CancelRm),
            _ => None,
        }
    } else {
        match key.code {
            KeyCode::Char('q') | KeyCode::Esc => Some(Action::Quit),
            KeyCode::Char('c') => if key.modifiers & MOD_CONTROL != 0 {
                Some(Action::Quit)
            } else {
                None
            },
            KeyCode::Up | KeyCode::Char('k') => Some(Action::Up),
            KeyCode::Down | KeyCode::Char('j') => Some(Action::Down),
            KeyCode::PageUp => Some(Action::PageUp),
            KeyCode::PageDown => Some(Action::PageDown),
            KeyCode::Home | KeyCode::Char('g') => Some(Action::Home),
            KeyCode::End | KeyCode::Char('G') => Some(Action::End),
            KeyCode::Char('o') => Some(Action::OpenDesktop),
            KeyCode::Char('y') => Some(Action::YankId),
            KeyCode::Char('l') => Some(Action::TailLogs),
            KeyCode::Char('e') => Some(Action::ExecShell),
            KeyCode::Char('s') => Some(Action::StopContainer),
            KeyCode::Char('S') => Some(Action::StartContainer),
            KeyCode::Char('R') => Some(Action::EnterRmConfirm),
            KeyCode::Char('L') => Some(Action::HandoffEcr),
            KeyCode::Char('r') => Some(Action::Refresh),
            KeyCode::Tab => Some(Action::NextTab),
            KeyCode::BackTab => Some(Action::PrevTab),
            KeyCode::Char(c) => if '1' <= c <= '9' {
                Some(Action::SwitchTab((c as u32 - '1' as u32) as usize))
            } else {
                None
            },
            _ => None,
        }
    }
}

/// Maps a key press to an action, given the app's state.
pub fn handle(key: KeyEvent, app: &App) -> (r: Option<Action>)
    ensures
        r == action_for(key, app.rm_pending is Some),
{
    if app.rm_pending.is_some() {
        return match key.code {
            KeyCode::Char('y') | KeyCode::Char('Y') | KeyCode::Enter => Some(Action::ConfirmRm),
            KeyCode::Char('n') | KeyCode::Char('N') | KeyCode::Esc => Some(Action::CancelRm),
            _ => None,
        };
    }
    let m = key.modifiers;
    match key.code {
        KeyCode::Char('q') | KeyCode::Esc => Some(Action::Quit),
        KeyCode::Char('c') => if m & MOD_CONTROL != 0 {
            Some(Action::Quit)
        } else {
            None
        },
        KeyCode::Up | KeyCode::Char('k') => Some(Action::Up),
        KeyCode::Down | KeyCode::Char('j') => Some(Action::Down),
        KeyCode::PageUp => Some(Action::PageUp),
        KeyCode::PageDown => Some(Action::PageDown),
        KeyCode::Home | KeyCode::Char('g') => Some(Action::Home),
        KeyCode::End | KeyCode::Char('G') => Some(Action::End),
        KeyCode::Char('o') => Some(Action::OpenDesktop),
        KeyCode::Char('y') => Some(Action::YankId),
        KeyCode::Char('l') => Some(Action::TailLogs),
        KeyCode::Char('e') => Some(Action::ExecShell),
        KeyCode::Char('s') => Some(Action::StopContainer),
        KeyCode::Char('S') => Some(Action::StartContainer),
        KeyCode::Char('R') => Some(Action::EnterRmConfirm),
        KeyCode::Char('L') => Some(Action::HandoffEcr),
        KeyCode::Char('r') => Some(Action::Refresh),
        KeyCode::Tab => Some(Action::NextTab),
        KeyCode::BackTab => Some(Action::PrevTab),
        KeyCode::Char(c) => if '1' <= c && c <= '9' {
            Some(Action::SwitchTab((c as u32 - '1' as u32) as usize))
        } else {
            None
        },
        _ => None,
    }
}

/// Actions that an app without tabs can carry out (the others act on the
/// active tab).
pub open spec fn needs_no_tab(a: Action) -> bool {
    match a {
        Action::Quit | Action::OpenDesktop | Action::Refresh | Action::SwitchTab(_) | Action::ConfirmRm
        | Action::CancelRm => true,
        _ => false,
    }
}

/// Rows moved by an action (`Home` / `End` move by ∓`i32::MAX`).
pub open spec fn move_delta(a: Action) -> int {
    match a {
        Action::Up => -1,
        Action::Down => 1,
        Action::PageUp => -10,
        Action::PageDown => 10,
        Action::Home => -0x7fff_ffff,
        Action::End => 0x7fff_ffff,
        _ => 0,
    }
}

/// The tab after the active one, wrapping.
pub open spec fn next_tab(app: App) -> int {
    (app.active_tab + 1) % (app.tabs@.len() as int)
}

/// The tab before the active one, wrapping.
pub open spec fn prev_tab(app: App) -> int {
    if app.active_tab == 0 {
        app.tabs@.len() - 1
    } else {
        app.active_tab - 1
    }
}

/// What an action does to the app.
pub open spec fn action_effect(action: Action, old: App, new: App, on_macos: bool) -> bool {
    match action {
        Action::Quit => new == old,
        Action::Up | Action::Down | Action::PageUp | Action::PageDown | Action::Home | Action::End =>
            move_selection_effect(old, new, move_delta(action) as isize),
        Action::OpenDesktop => open_docker_desktop_effect(old, new, on_macos),
        Action::YankId => yank_id_effect(old, new),
        Action::TailLogs => tail_logs_effect(old, new),
        Action::ExecShell => exec_shell_effect(old, new),
        Action::StopContainer => stop_or_start_effect(old, new, false),
        Action::StartContainer => stop_or_start_effect(old, new, true),
        Action::EnterRmConfirm => enter_rm_confirm_effect(old, new),
        Action::ConfirmRm => confirm_rm_effect(old, new),
        Action::CancelRm => cancel_rm_effect(old, new),
        Action::HandoffEcr => handoff_ecr_effect(old, new),
        Action::Refresh => refresh_started(old, new, Then::Nothing),
        Action::NextTab => switch_tab_effect(old, new, next_tab(old) as usize),
        Action::PrevTab => switch_tab_effect(old, new, prev_tab(old) as usize),
        Action::SwitchTab(i) => switch_tab_effect(old, new, i),
    }
}

/// Carries out an action; `true` means quit. `on_macos` tells whether
/// Docker Desktop can be opened here.
pub fn apply(action: Action, app: &mut App, on_macos: bool) -> (quit: bool)
    requires
        old(app).wf(),
        old(app).tabs@.len() > 0 || needs_no_tab(action),
        old(app).tabs@.len() > 0 ==> old(app).tabs@[old(app).active_tab as int].data.selected + move_delta(
            action,
        ) <= isize::MAX,
        action == Action::EnterRmConfirm ==> (focused_of(*old(app)) matches Some(it) ==> rm_shortable(it)),
    ensures
        final(app).wf(),
        quit == (action == Action::Quit),
        action_effect(action, *old(app), *final(app), on_macos),
{
    match action {
        Action::Quit => {
            return true;
        },
        Action::Up => app.move_selection(-1),
        Action::Down => app.move_selection(1),
        Action::PageUp => app.move_selection(-10),
        Action::PageDown => app.move_selection(10),
        Action::Home => app.move_selection(-(i32::MAX as isize)),
        Action::End => app.move_selection(i32::MAX as isize),
        Action::OpenDesktop => app.open_docker_desktop(on_macos),
        Action::YankId => app.yank_id(),
        Action::TailLogs => app.tail_logs(),
        Action::ExecShell => app.exec_shell(),
        Action::StopContainer => app.stop_or_start(false),
        Action::StartContainer => app.stop_or_start(true),
        Action::EnterRmConfirm => app.enter_rm_confirm(),
        Action::ConfirmRm => app.confirm_rm(),
        Action::CancelRm => app.cancel_rm(),
        Action::HandoffEcr => app.handoff_ecr(),
        Action::Refresh => app.refresh_active(),
        Action::NextTab => {
            assert(app.active_tab < app.tabs.len());
            let next = (app.active_tab + 1) % app.tabs.len();
            app.switch_tab(next);
        },
        Action::PrevTab => {
            let prev = if app.active_tab == 0 {
                app.tabs.len() - 1
            } else {
                app.active_tab - 1
            };
            app.switch_tab(prev);
        },
        Action::SwitchTab(i) => {
            app.switch_tab(i);
        },
    }
    false
}

} // verus!
