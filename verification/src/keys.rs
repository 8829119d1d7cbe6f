//! What the keys do.
//!
//! A key changes the state and may call for an action that the program performs outside
//! of the library; what came of it is handed back and changes the state once more.

use crate::app::{labelled, limit_options, App, AppView, ConfirmKind, ConfirmView, Mode, ModeView, SpeedLimits, Tab};
use crate::aria2::{request, Aria2};
use crate::download::{Download, DownloadView};
use crate::json::{Json, JsonView};
use crate::outside::{select_next, select_previous};
use crate::search::{knaben_address, knaben_url, tpb_address, tpb_url, Engine, ResultView, SearchResult};
use crate::sizes::{fmt_spd, speed_text};
use crate::text::{is_digit, number_up_to, parse_up_to, same, trim, trimmed};
use vstd::prelude::*;
use vstd::string::*;

verus! {

/// A key of the keyboard.
#[derive(Debug, Clone, Copy, PartialEq, Eq, Structural)]
pub enum Key {
    Char(char),
    Enter,
    Esc,
    Tab,
    Backspace,
    Up,
    Down,
    Left,
    Right,
    Other,
}

/// Something that happened to a key: only a press counts.
#[derive(Debug, Clone, Copy, PartialEq, Eq, Structural)]
pub struct KeyEvent {
    pub key: Key,
    pub control: bool,
    pub press: bool,
}

/// What the program is to do after a key.
#[derive(Debug, PartialEq, Eq)]
pub enum Action {
    Nothing,
    Quit,
    RefreshTrackers,
    Resume { gid: String },
    Pause { gid: String },
    Remove { gid: String },
    Add { uri: String, name: Option<String> },
    Search { engine: Engine, url: String },
    ApplyLimits,
    Clear(ConfirmKind),
}

/// What an action says.
pub enum ActionView {
    Nothing,
    Quit,
    RefreshTrackers,
    Resume { gid: Seq<char> },
    Pause { gid: Seq<char> },
    Remove { gid: Seq<char> },
    Add { uri: Seq<char>, name: Option<Seq<char>> },
    Search { engine: Engine, url: Seq<char> },
    ApplyLimits,
    Clear(ConfirmView),
}

impl View for Action {
    type V = ActionView;

    open spec fn view(&self) -> ActionView {
        match self {
            Action::Nothing => ActionView::Nothing,
            Action::Quit => ActionView::Quit,
            Action::RefreshTrackers => ActionView::RefreshTrackers,
            Action::Resume { gid } => ActionView::Resume { gid: gid@ },
            Action::Pause { gid } => ActionView::Pause { gid: gid@ },
            Action::Remove { gid } => ActionView::Remove { gid: gid@ },
            Action::Add { uri, name } => ActionView::Add {
                uri: uri@,
                name: match name {
                    Some(n) => Some(n@),
                    None => None,
                },
            },
            Action::Search { engine, url } => ActionView::Search { engine: *engine, url: url@ },
            Action::ApplyLimits => ActionView::ApplyLimits,
            Action::Clear(kind) => ActionView::Clear(kind@),
        }
    }
}

// ---------------------------------------------------------------------------
// Meaning
// ---------------------------------------------------------------------------

/// The selection one further down; the first item where nothing is selected.
pub open spec fn one_down(selected: Option<usize>) -> Option<usize> {
    match selected {
        None => Some(0),
        Some(i) => Some(
            if i < usize::MAX {
                (i + 1) as usize
            } else {
                usize::MAX
            },
        ),
    }
}

/// The selection one further up; where nothing is selected, a place that stands for the
/// last item.
pub open spec fn one_up(selected: Option<usize>) -> Option<usize> {
    match selected {
        None => Some(usize::MAX),
        Some(i) => Some(
            if i > 0 {
                (i - 1) as usize
            } else {
                0
            },
        ),
    }
}

impl AppView {
    /// The selected download, if there is one at the selected place.
    pub open spec fn selected_download(self) -> Option<DownloadView> {
        match self.dl_sel {
            Some(i) => if i < self.downloads.len() {
                Some(self.downloads[i as int])
            } else {
                None
            },
            None => None,
        }
    }

    /// The selected search result, if there is one at the selected place.
    pub open spec fn selected_result(self) -> Option<ResultView> {
        match self.res_sel {
            Some(i) => if i < self.results.len() {
                Some(self.results[i as int])
            } else {
                None
            },
            None => None,
        }
    }

    /// What holds of every state: where a speed limit is typed, it is one of the two, and
    /// only digits have been typed.
    pub open spec fn wf(self) -> bool {
        self.mode is SpeedLimit ==> self.mode->field <= 1 && forall|i: int|
            0 <= i < self.buf.len() ==> is_digit(#[trigger] self.buf[i])
    }

    /// Whether the help is open only where nothing is typed or asked.
    pub open spec fn help_is_alone(self) -> bool {
        self.show_help ==> self.mode is Normal
    }

    /// The speed limit that has been typed, in kilobytes per second; nought where it is
    /// no number of sixty-four bits.
    pub open spec fn typed_limit(self) -> nat {
        match number_up_to(trimmed(self.buf), u64::MAX as nat) {
            Some(n) => n,
            None => 0,
        }
    }

    /// Whether the typed speed limit can be held in bytes per second.
    pub open spec fn limit_fits(self) -> bool {
        self.typed_limit() * 1024 <= u64::MAX
    }

    /// The speed limits with the typed one put in its place.
    pub open spec fn with_typed_limit(self, field: u8) -> SpeedLimits {
        let bps = (self.typed_limit() * 1024) as u64;
        if field == 0 {
            SpeedLimits { dl_bps: bps, ..self.limits }
        } else {
            SpeedLimits { ul_bps: bps, ..self.limits }
        }
    }
}

/// A state and nothing to do.
pub open spec fn quietly(s: AppView) -> (AppView, ActionView) {
    (s, ActionView::Nothing)
}

/// Back to normal, with a message that says so.
pub open spec fn cancelled(s: AppView) -> AppView {
    AppView { mode: ModeView::Normal, status: "Cancelled."@, ..s }
}

/// Moves the selection of the page that is shown.
pub open spec fn moved(s: AppView, down: bool) -> AppView {
    let step = |sel: Option<usize>|
        if down {
            one_down(sel)
        } else {
            one_up(sel)
        };
    match s.tab {
        Tab::Downloads => AppView { dl_sel: step(s.dl_sel), ..s },
        Tab::Search => AppView { res_sel: step(s.res_sel), ..s },
        Tab::Settings => s,
    }
}

/// Pauses the selected download, or resumes it when it is paused.
pub open spec fn pause_key(s: AppView) -> (AppView, ActionView) {
    match s.selected_download() {
        Some(d) => if d.status == "paused"@ {
            (
                AppView { status: "▶ Resumed: "@ + d.name, ..s },
                ActionView::Resume { gid: d.gid },
            )
        } else {
            (
                AppView { status: "⏸ Paused: "@ + d.name, ..s },
                ActionView::Pause { gid: d.gid },
            )
        },
        None => quietly(s),
    }
}

/// Removes the selected download.
pub open spec fn remove_key(s: AppView) -> (AppView, ActionView) {
    match s.selected_download() {
        Some(d) => (
            AppView { status: "✗ Removed: "@ + d.name, ..s },
            ActionView::Remove { gid: d.gid },
        ),
        None => quietly(s),
    }
}

/// Asks whether the selected download is to be cleared from the history.
pub open spec fn clear_key(s: AppView) -> AppView {
    if s.dl_sel is None {
        AppView { status: "Select an item first (↑ ↓)."@, ..s }
    } else {
        match s.selected_download() {
            Some(d) => AppView {
                mode: ModeView::Confirm(ConfirmView::ClearOne { gid: d.gid, name: d.name }, false),
                ..s
            },
            None => AppView { status: "No item selected."@, ..s },
        }
    }
}

/// Downloads the selected search result.
pub open spec fn result_key(s: AppView) -> (AppView, ActionView) {
    match s.selected_result() {
        Some(r) => (s, ActionView::Add { uri: r.magnet, name: Some(r.name) }),
        None => quietly(s),
    }
}

/// A key while nothing is typed or asked. The help overlay, when it is open, takes all
/// keys.
pub open spec fn normal_key(s: AppView, k: Key) -> (AppView, ActionView) {
    if s.show_help {
        if k == Key::Char('?') || k == Key::Esc {
            quietly(AppView { show_help: false, ..s })
        } else {
            quietly(s)
        }
    } else {
        match k {
            Key::Char('q') => (s, ActionView::Quit),
            Key::Char('?') => quietly(AppView { show_help: true, ..s }),
            Key::Char('1') => quietly(AppView { tab: Tab::Downloads, ..s }),
            Key::Char('2') => quietly(AppView { tab: Tab::Search, ..s }),
            Key::Char('3') => quietly(AppView { tab: Tab::Settings, ..s }),
            Key::Char('a') => quietly(
                AppView { mode: ModeView::AddUrl, buf: Seq::empty(), ..s },
            ),
            Key::Char('s') => quietly(
                AppView {
                    mode: ModeView::Searching,
                    buf: Seq::empty(),
                    tab: Tab::Search,
                    status: "Type query and press Enter…"@,
                    ..s
                },
            ),
            Key::Char('r') => (
                AppView { status: "Refreshing trackers…"@, ..s },
                ActionView::RefreshTrackers,
            ),
            Key::Char('e') => if s.tab == Tab::Search {
                quietly(
                    AppView {
                        engine: s.engine.other(),
                        status: "Engine: "@ + s.engine.other().name(),
                        ..s
                    },
                )
            } else {
                quietly(s)
            },
            Key::Tab => if s.tab == Tab::Search {
                quietly(
                    AppView {
                        category: s.category.following(),
                        status: "Category: "@ + s.category.following().name(),
                        ..s
                    },
                )
            } else {
                quietly(s)
            },
            Key::Char('l') => if s.tab == Tab::Settings {
                quietly(
                    AppView { mode: ModeView::SpeedLimit { field: 0 }, buf: Seq::empty(), ..s },
                )
            } else {
                quietly(s)
            },
            Key::Down => quietly(moved(s, true)),
            Key::Char('j') => quietly(moved(s, true)),
            Key::Up => quietly(moved(s, false)),
            Key::Char('k') => quietly(moved(s, false)),
            Key::Char('p') => pause_key(s),
            Key::Char('x') => remove_key(s),
            Key::Char('c') => if s.tab == Tab::Downloads {
                quietly(clear_key(s))
            } else {
                quietly(s)
            },
            Key::Char('C') => if s.tab == Tab::Downloads {
                quietly(AppView { mode: ModeView::Confirm(ConfirmView::ClearAll, true), ..s })
            } else {
                quietly(s)
            },
            Key::Enter => if s.tab == Tab::Search {
                result_key(s)
            } else {
                quietly(s)
            },
            _ => quietly(s),
        }
    }
}

/// A key while a question is asked, `no` telling that "No" is highlighted.
pub open spec fn confirm_key(s: AppView, kind: ConfirmView, no: bool, k: Key) -> (
    AppView,
    ActionView,
) {
    match k {
        Key::Left => quietly(AppView { mode: ModeView::Confirm(kind, false), ..s }),
        Key::Char('y') => quietly(AppView { mode: ModeView::Confirm(kind, false), ..s }),
        Key::Right => quietly(AppView { mode: ModeView::Confirm(kind, true), ..s }),
        Key::Char('n') => quietly(AppView { mode: ModeView::Confirm(kind, true), ..s }),
        Key::Enter => if no {
            quietly(cancelled(s))
        } else {
            (AppView { mode: ModeView::Normal, ..s }, ActionView::Clear(kind))
        },
        Key::Esc => quietly(cancelled(s)),
        _ => quietly(s),
    }
}

/// A key that edits the typed text.
pub open spec fn edited(s: AppView, k: Key) -> AppView {
    match k {
        Key::Backspace => AppView {
            buf: if s.buf.len() > 0 {
                s.buf.drop_last()
            } else {
                s.buf
            },
            ..s
        },
        Key::Char(c) => AppView { buf: s.buf.push(c), ..s },
        _ => s,
    }
}

/// A key while an address is typed.
pub open spec fn add_url_key(s: AppView, k: Key) -> (AppView, ActionView) {
    match k {
        Key::Enter => if trimmed(s.buf).len() > 0 {
            (
                AppView { mode: ModeView::Normal, buf: Seq::empty(), ..s },
                ActionView::Add { uri: trimmed(s.buf), name: None },
            )
        } else {
            quietly(cancelled(AppView { buf: Seq::empty(), ..s }))
        },
        Key::Esc => quietly(cancelled(AppView { buf: Seq::empty(), ..s })),
        _ => quietly(edited(s, k)),
    }
}

/// The address of a search for `q`.
pub open spec fn search_address(s: AppView, q: Seq<char>) -> Seq<char> {
    match s.engine {
        Engine::Tpb => tpb_address(q, s.category),
        Engine::Knaben => knaben_address(q, s.category),
    }
}

/// A key while a query is typed. The query stays in view after the search.
pub open spec fn searching_key(s: AppView, k: Key) -> (AppView, ActionView) {
    match k {
        Key::Enter => if s.buf.len() > 0 {
            (
                AppView {
                    mode: ModeView::Normal,
                    status: "Searching \""@ + s.buf + "\" on "@ + s.engine.name() + "…"@,
                    ..s
                },
                ActionView::Search { engine: s.engine, url: search_address(s, s.buf) },
            )
        } else {
            quietly(AppView { mode: ModeView::Normal, ..s })
        },
        Key::Esc => quietly(
            AppView { mode: ModeView::Normal, status: "[a]=add  [s]=search  [?]=help"@, ..s },
        ),
        _ => quietly(edited(s, k)),
    }
}

/// A key while a speed limit is typed.
pub open spec fn speed_key(s: AppView, field: u8, k: Key) -> (AppView, ActionView) {
    match k {
        Key::Tab => quietly(
            AppView {
                limits: s.with_typed_limit(field),
                mode: ModeView::SpeedLimit { field: (1 - field) as u8 },
                buf: Seq::empty(),
                ..s
            },
        ),
        Key::Enter => (
            AppView {
                limits: s.with_typed_limit(field),
                mode: ModeView::Normal,
                buf: Seq::empty(),
                ..s
            },
            ActionView::ApplyLimits,
        ),
        Key::Esc => quietly(cancelled(AppView { buf: Seq::empty(), ..s })),
        Key::Char(c) => if is_digit(c) {
            quietly(edited(s, k))
        } else {
            quietly(s)
        },
        _ => quietly(edited(s, k)),
    }
}

/// A pressed key, whatever the mode.
pub open spec fn pressed(s: AppView, k: Key) -> (AppView, ActionView) {
    match s.mode {
        ModeView::Normal => normal_key(s, k),
        ModeView::AddUrl => add_url_key(s, k),
        ModeView::Searching => searching_key(s, k),
        ModeView::SpeedLimit { field } => speed_key(s, field, k),
        ModeView::Confirm(kind, no) => confirm_key(s, kind, no, k),
    }
}

/// What a key event does: nothing unless the key is pressed; Ctrl+C leaves the program,
/// whatever the mode.
pub open spec fn key_step(s: AppView, ev: KeyEvent) -> (AppView, ActionView) {
    if !ev.press {
        quietly(s)
    } else if ev.key == Key::Char('c') && ev.control {
        (s, ActionView::Quit)
    } else {
        pressed(s, ev.key)
    }
}

/// Whether a key event makes a typed speed limit count.
pub open spec fn sets_limit(s: AppView, ev: KeyEvent) -> bool {
    s.mode is SpeedLimit && ev.press && (ev.key == Key::Tab || ev.key == Key::Enter)
}

/// A speed limit as the user reads it.
pub open spec fn limit_text(bps: u64, none: Seq<char>) -> Seq<char> {
    if bps == 0 {
        none
    } else {
        speed_text(bps as nat)
    }
}

/// The state after an action that has an outcome was performed: `error` is the message
/// where it failed.
pub open spec fn finished(s: AppView, action: ActionView, error: Option<Seq<char>>) -> AppView {
    match action {
        ActionView::Add { uri, name } => match error {
            Some(e) => AppView { status: "✗ "@ + e, ..s },
            None => AppView {
                status: match name {
                    Some(n) => "✓ Added: "@ + n,
                    None => "✓ Added"@,
                },
                tab: Tab::Downloads,
                ..s
            },
        },
        ActionView::Clear(kind) => AppView {
            status: match error {
                Some(e) => "✗ "@ + e,
                None => match kind {
                    ConfirmView::ClearOne { gid, name } => "✓ Cleared: "@ + name,
                    ConfirmView::ClearAll => "✓ History cleared."@,
                },
            },
            ..s
        },
        ActionView::ApplyLimits => AppView {
            status: match error {
                Some(e) => "✗ "@ + e,
                None => "✓ Speed limits applied: ↓"@ + limit_text(s.limits.dl_bps, "∞"@)
                    + " ↑"@ + limit_text(s.limits.ul_bps, "∞"@),
            },
            ..s
        },
        ActionView::Search { engine, url } => match error {
            Some(e) => AppView { status: "✗ Search failed: "@ + e, ..s },
            None => s,
        },
        _ => s,
    }
}

/// The call to the daemon by which an action is performed, where one call does it.
pub open spec fn action_call(
    s: AppView,
    token: Option<Seq<char>>,
    action: ActionView,
) -> Option<JsonView> {
    match action {
        ActionView::Resume { gid } => Some(
            request(token, "aria2.unpause"@, seq![JsonView::Str(gid)]),
        ),
        ActionView::Pause { gid } => Some(request(token, "aria2.pause"@, seq![JsonView::Str(gid)])),
        ActionView::Remove { gid } => Some(
            request(token, "aria2.forceRemove"@, seq![JsonView::Str(gid)]),
        ),
        ActionView::ApplyLimits => Some(
            request(token, "aria2.changeGlobalOption"@, seq![limit_options(s.limits)]),
        ),
        ActionView::Clear(kind) => Some(
            match kind {
                ConfirmView::ClearOne { gid, name } => request(
                    token,
                    "aria2.removeDownloadResult"@,
                    seq![JsonView::Str(gid)],
                ),
                ConfirmView::ClearAll => request(
                    token,
                    "aria2.purgeDownloadResult"@,
                    Seq::<JsonView>::empty(),
                ),
            },
        ),
        _ => None,
    }
}

// ---------------------------------------------------------------------------
// Keys
// ---------------------------------------------------------------------------

impl App {
    /// The selected download, if there is one at the selected place.
    pub fn selected_download(&self) -> (r: Option<&Download>)
        ensures
            match r {
                Some(d) => self@.selected_download() == Some(d@),
                None => self@.selected_download() is None,
            },
    {
        match self.dl_sel {
            Some(i) => if i < self.downloads.len() {
                Some(&self.downloads[i])
            } else {
                None
            },
            None => None,
        }
    }

    /// The selected search result, if there is one at the selected place.
    pub fn selected_result(&self) -> (r: Option<&SearchResult>)
        ensures
            match r {
                Some(x) => self@.selected_result() == Some(x@),
                None => self@.selected_result() is None,
            },
    {
        match self.res_sel {
            Some(i) => if i < self.results.len() {
                Some(&self.results[i])
            } else {
                None
            },
            None => None,
        }
    }

    /// Takes in the selections as drawing the lists left them.
    pub fn drawn(&mut self, dl_sel: Option<usize>, res_sel: Option<usize>)
        ensures
            final(self)@ == (AppView { dl_sel, res_sel, ..old(self)@ }),
            old(self)@.wf() ==> final(self)@.wf(),
    {
        self.dl_sel = dl_sel;
        self.res_sel = res_sel;
        proof {
            assert(self@ =~= AppView { dl_sel, res_sel, ..old(self)@ });
        }
    }

    /// The speed limit that has been typed, in kilobytes per second.
    fn typed_kbs(&self) -> (n: u64)
        ensures
            n as nat == self@.typed_limit(),
    {
        let t = trim(self.buf.as_str());
        match parse_up_to(t.as_str(), u64::MAX) {
            Some(n) => n,
            None => 0,
        }
    }

    /// Whether the typed speed limit can be held in bytes per second.
    pub fn typed_limit_fits(&self) -> (r: bool)
        ensures
            r == self@.limit_fits(),
    {
        self.typed_kbs() <= u64::MAX / 1024
    }

    /// Whether a key event can be taken in: one that makes a typed speed limit count can
    /// only where the limit can be held in bytes per second.
    pub fn admits(&self, ev: KeyEvent) -> (r: bool)
        ensures
            r == (sets_limit(self@, ev) ==> self@.limit_fits()),
    {
        let typing = match self.mode {
            Mode::SpeedLimit { field: _ } => true,
            _ => false,
        };
        let counts = ev.press && (ev.key == Key::Tab || ev.key == Key::Enter);
        !(typing && counts) || self.typed_limit_fits()
    }

    /// Moves the selection of the page that is shown.
    fn move_selection(&mut self, down: bool)
        ensures
            final(self)@ == moved(old(self)@, down),
    {
        match self.tab {
            Tab::Downloads => {
                self.dl_sel = if down {
                    select_next(self.dl_sel)
                } else {
                    select_previous(self.dl_sel)
                };
            },
            Tab::Search => {
                self.res_sel = if down {
                    select_next(self.res_sel)
                } else {
                    select_previous(self.res_sel)
                };
            },
            Tab::Settings => {},
        }
        proof {
            assert(self@ =~= moved(old(self)@, down));
        }
    }

    fn on_pause(&mut self) -> (action: Action)
        ensures
            (final(self)@, action@) == pause_key(old(self)@),
    {
        let (gid, name, paused) = match self.selected_download() {
            Some(d) => (d.gid.clone(), d.name.clone(), same(d.status.as_str(), "paused")),
            None => {
                return Action::Nothing;
            },
        };
        if paused {
            self.status = labelled("▶ Resumed: ", name.as_str());
            proof {
                assert(self@ =~= pause_key(old(self)@).0);
            }
            Action::Resume { gid }
        } else {
            self.status = labelled("⏸ Paused: ", name.as_str());
            proof {
                assert(self@ =~= pause_key(old(self)@).0);
            }
            Action::Pause { gid }
        }
    }

    fn on_remove(&mut self) -> (action: Action)
        ensures
            (final(self)@, action@) == remove_key(old(self)@),
    {
        let (gid, name) = match self.selected_download() {
            Some(d) => (d.gid.clone(), d.name.clone()),
            None => {
                return Action::Nothing;
            },
        };
        self.status = labelled("✗ Removed: ", name.as_str());
        proof {
            assert(self@ =~= remove_key(old(self)@).0);
        }
        Action::Remove { gid }
    }

    fn on_clear(&mut self)
        ensures
            final(self)@ == clear_key(old(self)@),
    {
        if self.dl_sel.is_none() {
            self.status = "Select an item first (↑ ↓).".to_owned();
        } else {
            let kind = match self.selected_download() {
                Some(d) => Some(ConfirmKind::ClearOne { gid: d.gid.clone(), name: d.name.clone() }),
                None => None,
            };
            match kind {
                Some(k) => {
                    self.mode = Mode::Confirm(k, false);
                },
                None => {
                    self.status = "No item selected.".to_owned();
                },
            }
        }
        proof {
            assert(self@ =~= clear_key(old(self)@));
        }
    }

    fn on_result(&self) -> (action: Action)
        ensures
            (self@, action@) == result_key(self@),
    {
        match self.selected_result() {
            Some(r) => Action::Add { uri: r.magnet.clone(), name: Some(r.name.clone()) },
            None => Action::Nothing,
        }
    }

    /// A key while nothing is typed or asked.
    fn on_normal(&mut self, k: Key) -> (action: Action)
        ensures
            (final(self)@, action@) == normal_key(old(self)@, k),
    {
        let mut action = Action::Nothing;
        if self.show_help {
            match k {
                Key::Char('?') | Key::Esc => {
                    self.show_help = false;
                },
                _ => {},
            }
        } else {
            match k {
                Key::Char('q') => {
                    action = Action::Quit;
                },
                Key::Char('?') => {
                    self.show_help = true;
                },
                Key::Char('1') => {
                    self.tab = Tab::Downloads;
                },
                Key::Char('2') => {
                    self.tab = Tab::Search;
                },
                Key::Char('3') => {
                    self.tab = Tab::Settings;
                },
                Key::Char('a') => {
                    self.mode = Mode::AddUrl;
                    self.buf.clear();
                },
                Key::Char('s') => {
                    self.mode = Mode::Searching;
                    self.buf.clear();
                    self.tab = Tab::Search;
                    self.status = "Type query and press Enter…".to_owned();
                },
                Key::Char('r') => {
                    self.status = "Refreshing trackers…".to_owned();
                    action = Action::RefreshTrackers;
                },
                Key::Char('e') => {
                    if self.tab == Tab::Search {
                        self.engine = self.engine.toggle();
                        self.status = labelled("Engine: ", self.engine.label());
                    }
                },
                Key::Tab => {
                    if self.tab == Tab::Search {
                        self.category = self.category.next();
                        self.status = labelled("Category: ", self.category.label());
                    }
                },
                Key::Char('l') => {
                    if self.tab == Tab::Settings {
                        self.mode = Mode::SpeedLimit { field: 0 };
                        self.buf.clear();
                    }
                },
                Key::Down | Key::Char('j') => {
                    self.move_selection(true);
                },
                Key::Up | Key::Char('k') => {
                    self.move_selection(false);
                },
                Key::Char('p') => {
                    action = self.on_pause();
                },
                Key::Char('x') => {
                    action = self.on_remove();
                },
                Key::Char('c') => {
                    if self.tab == Tab::Downloads {
                        self.on_clear();
                    }
                },
                Key::Char('C') => {
                    if self.tab == Tab::Downloads {
                        self.mode = Mode::Confirm(ConfirmKind::ClearAll, true);
                    }
                },
                Key::Enter => {
                    if self.tab == Tab::Search {
                        action = self.on_result();
                    }
                },
                _ => {},
            }
        }
        proof {
            assert(self@ =~= normal_key(old(self)@, k).0);
        }
        action
    }

    /// Back to normal, with a message that says so.
    fn cancel(&mut self)
        ensures
            final(self)@ == cancelled(old(self)@),
    {
        self.mode = Mode::Normal;
        self.status = "Cancelled.".to_owned();
        proof {
            assert(self@ =~= cancelled(old(self)@));
        }
    }

    /// A key while a question is asked.
    fn on_confirm(&mut self, kind: ConfirmKind, no: bool, k: Key) -> (action: Action)
        requires
            old(self)@.mode == ModeView::Confirm(kind@, no),
        ensures
            (final(self)@, action@) == confirm_key(old(self)@, kind@, no, k),
    {
        let mut action = Action::Nothing;
        match k {
            Key::Left | Key::Char('y') => {
                self.mode = Mode::Confirm(kind, false);
            },
            Key::Right | Key::Char('n') => {
                self.mode = Mode::Confirm(kind, true);
            },
            Key::Enter => {
                if no {
                    self.cancel();
                } else {
                    self.mode = Mode::Normal;
                    action = Action::Clear(kind);
                }
            },
            Key::Esc => {
                self.cancel();
            },
            _ => {},
        }
        proof {
            assert(self@ =~= confirm_key(old(self)@, kind@, no, k).0);
        }
        action
    }

    /// A key that edits the typed text.
    fn edit(&mut self, k: Key)
        ensures
            final(self)@ == edited(old(self)@, k),
    {
        match k {
            Key::Backspace => {
                let _ = self.buf.pop();
            },
            Key::Char(c) => {
                self.buf.push(c);
            },
            _ => {},
        }
        proof {
            assert(self@ =~= edited(old(self)@, k));
        }
    }

    /// A key while an address is typed.
    fn on_add_url(&mut self, k: Key) -> (action: Action)
        ensures
            (final(self)@, action@) == add_url_key(old(self)@, k),
    {
        let mut action = Action::Nothing;
        match k {
            Key::Enter => {
                let uri = trim(self.buf.as_str());
                self.buf.clear();
                if !uri.as_str().is_empty() {
                    self.mode = Mode::Normal;
                    action = Action::Add { uri, name: None };
                } else {
                    self.cancel();
                }
            },
            Key::Esc => {
                self.buf.clear();
                self.cancel();
            },
            _ => {
                self.edit(k);
            },
        }
        proof {
            assert(self@ =~= add_url_key(old(self)@, k).0);
        }
        action
    }

    /// Begins the search for `q`: the message, and the address to ask.
    pub fn search(&mut self, q: &str) -> (url: String)
        ensures
            url@ == search_address(old(self)@, q@),
            final(self)@ == (AppView {
                status: "Searching \""@ + q@ + "\" on "@ + old(self)@.engine.name() + "…"@,
                ..old(self)@
            }),
    {
        let mut s = "Searching \"".to_owned();
        s.append(q);
        s.append("\" on ");
        s.append(self.engine.label());
        s.append("…");
        self.status = s;
        proof {
            assert(self@ =~= AppView {
                status: "Searching \""@ + q@ + "\" on "@ + old(self)@.engine.name() + "…"@,
                ..old(self)@
            });
        }
        match self.engine {
            Engine::Tpb => tpb_url(q, self.category),
            Engine::Knaben => knaben_url(q, self.category),
        }
    }

    /// A key while a query is typed.
    fn on_searching(&mut self, k: Key) -> (action: Action)
        ensures
            (final(self)@, action@) == searching_key(old(self)@, k),
    {
        let mut action = Action::Nothing;
        match k {
            Key::Enter => {
                let q = self.buf.clone();
                self.mode = Mode::Normal;
                if !q.as_str().is_empty() {
                    let engine = self.engine;
                    let url = self.search(q.as_str());
                    action = Action::Search { engine, url };
                }
            },
            Key::Esc => {
                self.mode = Mode::Normal;
                self.status = "[a]=add  [s]=search  [?]=help".to_owned();
            },
            _ => {
                self.edit(k);
            },
        }
        proof {
            assert(self@ =~= searching_key(old(self)@, k).0);
        }
        action
    }

    /// Puts the typed speed limit in its place.
    fn take_limit(&mut self, field: u8)
        requires
            old(self)@.limit_fits(),
        ensures
            final(self)@ == (AppView {
                limits: old(self)@.with_typed_limit(field),
                buf: Seq::empty(),
                ..old(self)@
            }),
    {
        let val_kbs: u64 = self.typed_kbs();
        if field == 0 {
            self.limits.dl_bps = val_kbs * 1024;
        } else {
            self.limits.ul_bps = val_kbs * 1024;
        }
        self.buf.clear();
        proof {
            assert(self@ =~= AppView {
                limits: old(self)@.with_typed_limit(field),
                buf: Seq::empty(),
                ..old(self)@
            });
        }
    }

    /// A key while a speed limit is typed.
    fn on_speed(&mut self, field: u8, k: Key) -> (action: Action)
        requires
            field <= 1,
            k == Key::Tab || k == Key::Enter ==> old(self)@.limit_fits(),
        ensures
            (final(self)@, action@) == speed_key(old(self)@, field, k),
    {
        let mut action = Action::Nothing;
        match k {
            Key::Tab => {
                self.take_limit(field);
                self.mode = Mode::SpeedLimit { field: 1 - field };
            },
            Key::Enter => {
                self.take_limit(field);
                self.mode = Mode::Normal;
                action = Action::ApplyLimits;
            },
            Key::Esc => {
                self.buf.clear();
                self.cancel();
            },
            Key::Char(c) => {
                if c >= '0' && c <= '9' {
                    self.edit(k);
                }
            },
            _ => {
                self.edit(k);
            },
        }
        proof {
            assert(self@ =~= speed_key(old(self)@, field, k).0);
        }
        action
    }

    /// Takes in a key event: the new state, and what is to be done.
    pub fn handle_key(&mut self, ev: KeyEvent) -> (action: Action)
        requires
            old(self)@.wf(),
            sets_limit(old(self)@, ev) ==> old(self)@.limit_fits(),
        ensures
            (final(self)@, action@) == key_step(old(self)@, ev),
            final(self)@.wf(),
            old(self)@.help_is_alone() ==> final(self)@.help_is_alone(),
    {
        if !ev.press {
            return Action::Nothing;
        }
        let k = ev.key;
        match k {
            Key::Char('c') => if ev.control {
                return Action::Quit;
            },
            _ => {},
        }
        match &self.mode {
            Mode::Normal => self.on_normal(k),
            Mode::AddUrl => self.on_add_url(k),
            Mode::Searching => self.on_searching(k),
            Mode::SpeedLimit { field } => {
                let field = *field;
                self.on_speed(field, k)
            },
            Mode::Confirm(kind, no) => {
                let no = *no;
                let kind = match kind {
                    ConfirmKind::ClearOne { gid, name } => ConfirmKind::ClearOne {
                        gid: gid.clone(),
                        name: name.clone(),
                    },
                    ConfirmKind::ClearAll => ConfirmKind::ClearAll,
                };
                self.on_confirm(kind, no, k)
            },
        }
    }

    /// The call to the daemon by which an action is performed, where one call does it.
    pub fn request_for(&self, aria2: &Aria2, action: &Action) -> (body: Option<Json>)
        ensures
            match body {
                Some(b) => action_call(self@, aria2.secret(), action@) == Some(b@),
                None => action_call(self@, aria2.secret(), action@) is None,
            },
    {
        match action {
            Action::Resume { gid } => Some(aria2.unpause(gid.as_str())),
            Action::Pause { gid } => Some(aria2.pause(gid.as_str())),
            Action::Remove { gid } => Some(aria2.remove(gid.as_str())),
            Action::ApplyLimits => Some(self.apply_limits(aria2)),
            Action::Clear(ConfirmKind::ClearOne { gid, name: _ }) => Some(
                aria2.remove_result(gid.as_str()),
            ),
            Action::Clear(ConfirmKind::ClearAll) => Some(aria2.purge()),
            _ => None,
        }
    }

    /// Takes in what came of an action: the message of its error where it failed.
    pub fn finish(&mut self, action: &Action, error: Option<String>)
        ensures
            final(self)@ == finished(
                old(self)@,
                action@,
                match error {
                    Some(e) => Some(e@),
                    None => None,
                },
            ),
            old(self)@.wf() ==> final(self)@.wf(),
    {
        match action {
            Action::Add { uri: _, name } => match error {
                Some(e) => {
                    self.status = labelled("✗ ", e.as_str());
                },
                None => {
                    self.status = match name {
                        Some(n) => labelled("✓ Added: ", n.as_str()),
                        None => "✓ Added".to_owned(),
                    };
                    self.tab = Tab::Downloads;
                },
            },
            Action::Clear(kind) => {
                self.status = match error {
                    Some(e) => labelled("✗ ", e.as_str()),
                    None => match kind {
                        ConfirmKind::ClearOne { gid: _, name } => labelled(
                            "✓ Cleared: ",
                            name.as_str(),
                        ),
                        ConfirmKind::ClearAll => "✓ History cleared.".to_owned(),
                    },
                };
            },
            Action::ApplyLimits => {
                self.status = match error {
                    Some(e) => labelled("✗ ", e.as_str()),
                    None => {
                        let mut s = labelled(
                            "✓ Speed limits applied: ↓",
                            fmt_limit(self.limits.dl_bps, "∞").as_str(),
                        );
                        s.append(" ↑");
                        s.append(fmt_limit(self.limits.ul_bps, "∞").as_str());
                        s
                    },
                };
            },
            Action::Search { engine: _, url: _ } => match error {
                Some(e) => {
                    self.status = labelled("✗ Search failed: ", e.as_str());
                },
                None => {},
            },
            _ => {},
        }
        proof {
            assert(self@ =~= finished(
                old(self)@,
                action@,
                match error {
                    Some(e) => Some(e@),
                    None => None,
                },
            ));
        }
    }
}

/// A speed limit as the user reads it, `none` standing for no limit.
pub fn fmt_limit(bps: u64, none: &str) -> (s: String)
    ensures
        s@ == limit_text(bps, none@),
{
    if bps == 0 {
        none.to_owned()
    } else {
        fmt_spd(bps)
    }
}

}
