//! Keyboard chord → action mapping, and what each action does to the app.
use vstd::prelude::*;
use crate::app::{
    can_publish, cancelled, confirm_taken, in_chrono_range, moved, publish_refused, publish_staged,
    switched, unsubscribe_requested,
    web_opened, yanked, App, ConfirmAction, FetchRequest,
};

verus! {

/// The key of a key press, as far as the mapping reads it.
#[derive(Debug, Clone, Copy, PartialEq, Eq)]
pub enum KeyCode {
    Char(char),
    Up,
    Down,
    PageUp,
    PageDown,
    Home,
    End,
    Enter,
    Tab,
    BackTab,
    Esc,
    Other,
}

/// A key press: the key and whether Ctrl was held.
#[derive(Debug, Clone, Copy, PartialEq, Eq)]
pub struct KeyInput {
    pub code: KeyCode,
    pub ctrl: bool,
}

#[derive(Debug, Clone, Copy, PartialEq, Eq)]
pub enum Action {
    Quit,
    Up,
    Down,
    PageUp,
    PageDown,
    Home,
    End,
    OpenWeb,
    YankId,
    RequestPublish,
    RequestUnsubscribe,
    ConfirmYes,
    ConfirmNo,
    Refresh,
    SwitchTab(usize),
    NextTab,
    PrevTab,
}

/// The action for a key press in the normal map. `q`, `Esc` and `Ctrl+C`
/// quit.
pub open spec fn normal_action(key: KeyInput) -> Option<Action> {
    match key.code {
        KeyCode::Char('q') | KeyCode::Esc => Some(Action::Quit),
        KeyCode::Char('c') if key.ctrl => Some(Action::Quit),
        KeyCode::Up | KeyCode::Char('k') => Some(Action::Up),
        KeyCode::Down | KeyCode::Char('j') => Some(Action::Down),
        KeyCode::PageUp => Some(Action::PageUp),
        KeyCode::PageDown => Some(Action::PageDown),
        KeyCode::Home | KeyCode::Char('g') => Some(Action::Home),
        KeyCode::End | KeyCode::Char('G') => Some(Action::End),
        KeyCode::Char('o') | KeyCode::Enter => Some(Action::OpenWeb),
        KeyCode::Char('y') => Some(Action::YankId),
        KeyCode::Char('p') => Some(Action::RequestPublish),
        KeyCode::Char('X') => Some(Action::RequestUnsubscribe),
        KeyCode::Char('r') => Some(Action::Refresh),
        KeyCode::Tab => Some(Action::NextTab),
        KeyCode::BackTab => Some(Action::PrevTab),
        KeyCode::Char(c) => if '1' <= c <= '9' {
            Some(Action::SwitchTab((c as int - '1' as int) as usize))
        } else {
            None
        },
        _ => None,
    }
}

/// The action for a key press. While a confirm is pending, `y`/`Y`
/// confirm, `n`/`N`/`Esc` cancel and `Ctrl+C` quits; every other key goes
/// to the normal map.
pub open spec fn action_for(key: KeyInput, pending: bool) -> Option<Action> {
    if pending {
        match key.code {
            KeyCode::Char('y') | KeyCode::Char('Y') => Some(Action::ConfirmYes),
            KeyCode::Char('n') | KeyCode::Char('N') | KeyCode::Esc => Some(Action::ConfirmNo),
            KeyCode::Char('c') if key.ctrl => Some(Action::Quit),
            _ => normal_action(key),
        }
    } else {
        normal_action(key)
    }
}

fn normal_map(key: KeyInput) -> (r: Option<Action>)
    ensures
        r == normal_action(key),
{
    match key.code {
        // `q` / `Esc` / `Ctrl+C` quit (`Esc` cancels a pending prompt
        // first; that layer is in `handle`).
        KeyCode::Char('q') | KeyCode::Esc => Some(Action::Quit),
        KeyCode::Char('c') if key.ctrl => Some(Action::Quit),
        KeyCode::Up | KeyCode::Char('k') => Some(Action::Up),
        KeyCode::Down | KeyCode::Char('j') => Some(Action::Down),
        KeyCode::PageUp => Some(Action::PageUp),
        KeyCode::PageDown => Some(Action::PageDown),
        KeyCode::Home | KeyCode::Char('g') => Some(Action::Home),
        KeyCode::End | KeyCode::Char('G') => Some(Action::End),
        KeyCode::Char('o') | KeyCode::Enter => Some(Action::OpenWeb),
        KeyCode::Char('y') => Some(Action::YankId),
        KeyCode::Char('p') => Some(Action::RequestPublish),
        KeyCode::Char('X') => Some(Action::RequestUnsubscribe),
        KeyCode::Char('r') => Some(Action::Refresh),
        KeyCode::Tab => Some(Action::NextTab),
        KeyCode::BackTab => Some(Action::PrevTab),
        KeyCode::Char(c) => {
            if '1' <= c && c <= '9' {
                Some(Action::SwitchTab(((c as u32) - ('1' as u32)) as usize))
            } else {
                None
            }
        },
        _ => None,
    }
}

/// Two key-routing layers. When a confirm is pending, `y/n/Esc` act
/// on it; everything else is forwarded to the normal map (so the
/// user can still navigate / read while the prompt is up).
pub fn handle(key: KeyInput, app: &App) -> (r: Option<Action>)
    ensures
        r == action_for(key, app.confirm is Some),
{
    if app.confirm.is_some() {
        match key.code {
            KeyCode::Char('y') | KeyCode::Char('Y') => return Some(Action::ConfirmYes),
            KeyCode::Char('n') | KeyCode::Char('N') | KeyCode::Esc => {
                return Some(Action::ConfirmNo);
            },
            // Allow Ctrl+C to bail out of everything.
            KeyCode::Char('c') if key.ctrl => return Some(Action::Quit),
            _ => {},
        }
    }
    normal_map(key)
}

/// What the caller has to do after an action.
#[derive(Debug, Clone)]
pub enum Effect {
    /// Nothing; keep going.
    Continue,
    /// Leave the app.
    Quit,
    /// Load a listing and hand the outcome to `App::finish_refresh`.
    Fetch(FetchRequest),
    /// Open a page in the browser and hand the outcome to `App::finish_open_web`.
    OpenUrl(String),
    /// Copy a text to the clipboard and hand the outcome to `App::finish_yank`.
    Copy(String),
    /// Carry out a confirmed action and hand the outcome to `App::finish_confirm`.
    Execute(ConfirmAction),
}

/// The tab after the active one, wrapping around.
pub open spec fn next_tab(app: App) -> usize {
    ((app.active_tab + 1) % (app.tabs@.len() as int)) as usize
}

/// The tab before the active one, wrapping around.
pub open spec fn prev_tab(app: App) -> usize {
    if app.active_tab == 0 {
        (app.tabs@.len() - 1) as usize
    } else {
        (app.active_tab - 1) as usize
    }
}

/// The effect of a tab switch that may have started a load.
pub open spec fn fetch_effect(f: Option<FetchRequest>) -> Effect {
    match f {
        Some(f) => Effect::Fetch(f),
        None => Effect::Continue,
    }
}

/// What `apply(action)` does to the app and what it asks of the caller.
pub open spec fn applied(action: Action, pre: App, post: App, r: Effect) -> bool {
    match action {
        Action::Quit => r == Effect::Quit && post == pre,
        Action::Up => r == Effect::Continue && moved(pre, post, -1),
        Action::Down => r == Effect::Continue && moved(pre, post, 1),
        Action::PageUp => r == Effect::Continue && moved(pre, post, -10),
        Action::PageDown => r == Effect::Continue && moved(pre, post, 10),
        Action::Home => r == Effect::Continue && moved(pre, post, -0x7fff_ffff),
        Action::End => r == Effect::Continue && moved(pre, post, 0x7fff_ffff),
        Action::OpenWeb => exists|u: Option<String>| {
            &&& #[trigger] web_opened(pre, post, u)
            &&& match u {
                Some(url) => r == Effect::OpenUrl(url),
                None => r == Effect::Continue,
            }
        },
        Action::YankId => exists|p: Option<String>| {
            &&& #[trigger] yanked(pre, post, p)
            &&& match p {
                Some(payload) => r == Effect::Copy(payload),
                None => r == Effect::Continue,
            }
        },
        Action::RequestPublish => r == Effect::Continue && if can_publish(pre) {
            (exists|now: int| in_chrono_range(now + 300) && #[trigger] publish_staged(pre, post, now))
                || post == pre
        } else {
            publish_refused(pre, post)
        },
        Action::RequestUnsubscribe => r == Effect::Continue && unsubscribe_requested(pre, post),
        Action::ConfirmYes => confirm_taken(pre, post, pre.confirm) && match pre.confirm {
            Some(a) => r == Effect::Execute(a),
            None => r == Effect::Continue,
        },
        Action::ConfirmNo => r == Effect::Continue && cancelled(pre, post),
        Action::Refresh => r == Effect::Fetch(pre.fetch_for()) && pre.loading_started(post),
        Action::NextTab => exists|f: Option<FetchRequest>|
            #[trigger] switched(pre, post, next_tab(pre), f) && r == fetch_effect(f),
        Action::PrevTab => exists|f: Option<FetchRequest>|
            #[trigger] switched(pre, post, prev_tab(pre), f) && r == fetch_effect(f),
        Action::SwitchTab(i) => exists|f: Option<FetchRequest>|
            #[trigger] switched(pre, post, i, f) && r == fetch_effect(f),
    }
}

/// Applies an action to the app; the result says what the caller has to
/// do next (quit, load, open, copy, carry out a confirmed action).
pub fn apply(action: Action, app: &mut App) -> (r: Effect)
    requires
        old(app).wf(),
    ensures
        final(app).wf(),
        applied(action, *old(app), *final(app), r),
{
    match action {
        Action::Quit => Effect::Quit,
        Action::Up => {
            app.move_selection(-1);
            Effect::Continue
        },
        Action::Down => {
            app.move_selection(1);
            Effect::Continue
        },
        Action::PageUp => {
            app.move_selection(-10);
            Effect::Continue
        },
        Action::PageDown => {
            app.move_selection(10);
            Effect::Continue
        },
        Action::Home => {
            app.move_selection(-(0x7fff_ffff as isize));
            Effect::Continue
        },
        Action::End => {
            app.move_selection(0x7fff_ffff as isize);
            Effect::Continue
        },
        Action::OpenWeb => {
            let u = app.open_web();
            assert(web_opened(*old(app), *app, u));
            match u {
                Some(url) => Effect::OpenUrl(url),
                None => Effect::Continue,
            }
        },
        Action::YankId => {
            let p = app.yank_id();
            assert(yanked(*old(app), *app, p));
            match p {
                Some(payload) => Effect::Copy(payload),
                None => Effect::Continue,
            }
        },
        Action::RequestPublish => {
            app.request_publish();
            Effect::Continue
        },
        Action::RequestUnsubscribe => {
            app.request_unsubscribe();
            Effect::Continue
        },
        Action::ConfirmYes => {
            match app.confirm_yes() {
                Some(a) => Effect::Execute(a),
                None => Effect::Continue,
            }
        },
        Action::ConfirmNo => {
            app.confirm_no();
            Effect::Continue
        },
        Action::Refresh => Effect::Fetch(app.refresh_active()),
        Action::NextTab => {
            let n = app.tabs.len();
            assert(app.active_tab < n);
            let next = (app.active_tab + 1) % n;
            let f = app.switch_tab(next);
            assert(switched(*old(app), *app, next_tab(*old(app)), f));
            match f {
                Some(f) => Effect::Fetch(f),
                None => Effect::Continue,
            }
        },
        Action::PrevTab => {
            let prev = if app.active_tab == 0 {
                app.tabs.len() - 1
            } else {
                app.active_tab - 1
            };
            let f = app.switch_tab(prev);
            assert(switched(*old(app), *app, prev_tab(*old(app)), f));
            match f {
                Some(f) => Effect::Fetch(f),
                None => Effect::Continue,
            }
        },
        Action::SwitchTab(i) => {
            let f = app.switch_tab(i);
            assert(switched(*old(app), *app, i, f));
            match f {
                Some(f) => Effect::Fetch(f),
                None => Effect::Continue,
            }
        },
    }
}

} // verus!
