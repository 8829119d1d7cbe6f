//! What holds of each key and of the outcome of each action.

use crate::app::{initial, prompt_text, AppView, ConfirmView, ModeView, SpeedLimits, Tab};
use crate::aria2::request;
use crate::json::JsonView;
use crate::keys::{action_call, finished, key_step, ActionView, Key, KeyEvent};
use crate::laws::{after, after_typing, called_for, law_typing_digits};
use crate::search::{Category, Engine};
use crate::sizes::size_text;
use crate::text::{decimal, is_digit, law_decimal_round_trip, lemma_decimal_digits};
use crate::text_laws::law_clip;
use vstd::prelude::*;

verus! {

/// Whether the keys act on the pages: nothing is typed or asked, and the help is closed.
pub open spec fn at_ease(s: AppView) -> bool {
    s.mode is Normal && !s.show_help
}

/// `p` on a selected download resumes it where it is paused, and pauses it otherwise: just
/// that download, by just that call. The message names it, and nothing else changes.
pub proof fn law_pause_key(s: AppView, i: usize, token: Option<Seq<char>>)
    requires
        at_ease(s),
        s.dl_sel == Some(i),
        i < s.downloads.len(),
    ensures
        ({
            let d = s.downloads[i as int];
            let t = after(s, Key::Char('p'));
            let call = action_call(t, token, called_for(s, Key::Char('p')));
            &&& d.status == "paused"@ ==> call == Some(
                request(token, "aria2.unpause"@, seq![JsonView::Str(d.gid)]),
            ) && t.status == "▶ Resumed: "@ + d.name
            &&& d.status != "paused"@ ==> call == Some(
                request(token, "aria2.pause"@, seq![JsonView::Str(d.gid)]),
            ) && t.status == "⏸ Paused: "@ + d.name
            &&& t == (AppView { status: t.status, ..s })
        }),
{
}

/// `x` on a selected download removes just that download.
pub proof fn law_remove_key(s: AppView, i: usize, token: Option<Seq<char>>)
    requires
        at_ease(s),
        s.dl_sel == Some(i),
        i < s.downloads.len(),
    ensures
        ({
            let d = s.downloads[i as int];
            let t = after(s, Key::Char('x'));
            &&& action_call(t, token, called_for(s, Key::Char('x'))) == Some(
                request(token, "aria2.forceRemove"@, seq![JsonView::Str(d.gid)]),
            )
            &&& t == (AppView { status: "✗ Removed: "@ + d.name, ..s })
        }),
{
}

/// Where no download is at the selected place, neither `p` nor `x` does anything; and
/// where no result is, neither does Enter.
pub proof fn law_nothing_selected(s: AppView)
    requires
        at_ease(s),
    ensures
        (s.dl_sel matches Some(i) ==> i >= s.downloads.len()) ==> {
            &&& called_for(s, Key::Char('p')) is Nothing && after(s, Key::Char('p')) == s
            &&& called_for(s, Key::Char('x')) is Nothing && after(s, Key::Char('x')) == s
        },
        (s.res_sel matches Some(i) ==> i >= s.results.len()) ==> called_for(s, Key::Enter) is Nothing
            && after(s, Key::Enter) == s,
        s.tab != Tab::Search ==> called_for(s, Key::Enter) is Nothing && after(s, Key::Enter) == s,
{
}

/// Enter on a selected result adds it by its own link, and will name it by its own name.
pub proof fn law_result_key(s: AppView, i: usize)
    requires
        at_ease(s),
        s.tab == Tab::Search,
        s.res_sel == Some(i),
        i < s.results.len(),
    ensures
        called_for(s, Key::Enter) == (ActionView::Add {
            uri: s.results[i as int].magnet,
            name: Some(s.results[i as int].name),
        }),
        after(s, Key::Enter) == s,
{
}

/// `1`, `2` and `3` show a page each, and change nothing else.
pub proof fn law_page_keys(s: AppView)
    requires
        at_ease(s),
    ensures
        after(s, Key::Char('1')) == (AppView { tab: Tab::Downloads, ..s }),
        after(s, Key::Char('2')) == (AppView { tab: Tab::Search, ..s }),
        after(s, Key::Char('3')) == (AppView { tab: Tab::Settings, ..s }),
        called_for(s, Key::Char('1')) is Nothing,
        called_for(s, Key::Char('2')) is Nothing,
        called_for(s, Key::Char('3')) is Nothing,
{
}

/// On the search page `e` switches to the other engine and Tab to the next category, and
/// the message names it; on the other pages neither does anything.
pub proof fn law_search_setting_keys(s: AppView)
    requires
        at_ease(s),
    ensures
        s.tab == Tab::Search ==> {
            let t = after(s, Key::Char('e'));
            &&& t.engine != s.engine
            &&& t == (AppView { engine: t.engine, status: "Engine: "@ + t.engine.name(), ..s })
        },
        s.tab == Tab::Search ==> {
            let t = after(s, Key::Tab);
            &&& t.category != s.category
            &&& t == (AppView {
                category: t.category,
                status: "Category: "@ + t.category.name(),
                ..s
            })
        },
        s.tab != Tab::Search ==> after(s, Key::Char('e')) == s && after(s, Key::Tab) == s,
        called_for(s, Key::Char('e')) is Nothing,
        called_for(s, Key::Tab) is Nothing,
{
}

/// The categories follow one another as the help says: all, video, audio, software, games,
/// books, and all again.
pub proof fn law_category_order(c: Category)
    ensures
        c.following() == match c {
            Category::All => Category::Video,
            Category::Video => Category::Audio,
            Category::Audio => Category::Software,
            Category::Software => Category::Games,
            Category::Games => Category::Books,
            Category::Books => Category::All,
        },
{
}

/// `a` begins an address, `s` a query, and `l` on the settings page a download limit, each
/// with nothing typed yet.
pub proof fn law_typing_begins(s: AppView)
    requires
        at_ease(s),
    ensures
        after(s, Key::Char('a')) == (AppView {
            mode: ModeView::AddUrl,
            buf: Seq::<char>::empty(),
            ..s
        }),
        after(s, Key::Char('s')) == (AppView {
            mode: ModeView::Searching,
            buf: Seq::<char>::empty(),
            tab: Tab::Search,
            status: "Type query and press Enter…"@,
            ..s
        }),
        s.tab == Tab::Settings ==> after(s, Key::Char('l')) == (AppView {
            mode: ModeView::SpeedLimit { field: 0 },
            buf: Seq::<char>::empty(),
            ..s
        }),
        s.tab != Tab::Settings ==> after(s, Key::Char('l')) == s,
        called_for(s, Key::Char('a')) is Nothing,
        called_for(s, Key::Char('s')) is Nothing,
        called_for(s, Key::Char('l')) is Nothing,
{
}

/// Which key calls for what: nothing is called for by any other key or in any other mode.
pub proof fn law_who_calls(s: AppView, ev: KeyEvent)
    ensures
        ({
            let a = key_step(s, ev).1;
            let k = ev.key;
            &&& a is RefreshTrackers <==> ev.press && at_ease(s) && k == Key::Char('r')
            &&& a is Pause || a is Resume ==> ev.press && at_ease(s) && k == Key::Char('p')
            &&& a is Remove ==> ev.press && at_ease(s) && k == Key::Char('x')
            &&& a is Add ==> ev.press && k == Key::Enter && (s.mode is AddUrl || at_ease(s) && s.tab
                == Tab::Search)
            &&& a is Search ==> ev.press && k == Key::Enter && s.mode is Searching
            &&& a is ApplyLimits ==> ev.press && k == Key::Enter && s.mode is SpeedLimit
        }),
{
}

/// The selection moves by one place, on the page that is shown only: down from none to the
/// first, up from the first to itself, and up from none to a place that stands for the
/// last.
pub proof fn law_selection(s: AppView)
    requires
        at_ease(s),
    ensures
        ({
            let (d, u) = (after(s, Key::Down), after(s, Key::Up));
            &&& s.tab == Tab::Downloads ==> d == (AppView { dl_sel: d.dl_sel, ..s }) && u == (
            AppView { dl_sel: u.dl_sel, ..s })
            &&& s.tab == Tab::Search ==> d == (AppView { res_sel: d.res_sel, ..s }) && u == (
            AppView { res_sel: u.res_sel, ..s })
            &&& s.tab == Tab::Settings ==> d == s && u == s
            &&& s.tab == Tab::Downloads ==> one_on(s.dl_sel, d.dl_sel) && one_back(
                s.dl_sel,
                u.dl_sel,
            )
            &&& s.tab == Tab::Search ==> one_on(s.res_sel, d.res_sel) && one_back(
                s.res_sel,
                u.res_sel,
            )
        }),
{
}

/// Whether a selection is one further than another.
pub open spec fn one_on(old_sel: Option<usize>, new_sel: Option<usize>) -> bool {
    match old_sel {
        None => new_sel == Some(0usize),
        Some(i) => new_sel is Some && (new_sel->0 == i + 1 || i == usize::MAX && new_sel->0 == i),
    }
}

/// Whether a selection is one before another.
pub open spec fn one_back(old_sel: Option<usize>, new_sel: Option<usize>) -> bool {
    match old_sel {
        None => new_sel == Some(usize::MAX),
        Some(i) => new_sel is Some && (new_sel->0 == i - 1 || i == 0 && new_sel->0 == i),
    }
}

/// A key that means nothing where nothing is typed or asked changes nothing there.
pub proof fn law_other_keys(s: AppView, k: Key)
    requires
        s.mode is Normal,
        !(k is Char),
        k != Key::Enter,
        k != Key::Tab,
        k != Key::Up,
        k != Key::Down,
        k != Key::Esc,
    ensures
        after(s, k) == s,
        called_for(s, k) is Nothing,
{
}

/// A number and Enter where the first limit is typed set that one and leave the other; and
/// nothing typed sets it to none.
pub proof fn law_one_limit(s: AppView, n: nat, field: u8)
    requires
        s.mode == (ModeView::SpeedLimit { field }),
        field == 0 || field == 1,
        s.buf.len() == 0,
        n * 1024 <= u64::MAX,
    ensures
        ({
            let t = after(after_typing(s, decimal(n)), Key::Enter);
            let u = after(s, Key::Enter);
            &&& t.mode is Normal && u.mode is Normal
            &&& field == 0 ==> t.limits.dl_bps == n * 1024 && t.limits.ul_bps == s.limits.ul_bps
            &&& field == 1 ==> t.limits.ul_bps == n * 1024 && t.limits.dl_bps == s.limits.dl_bps
            &&& field == 0 ==> u.limits.dl_bps == 0 && u.limits.ul_bps == s.limits.ul_bps
            &&& field == 1 ==> u.limits.ul_bps == 0 && u.limits.dl_bps == s.limits.dl_bps
        }),
{
    lemma_decimal_digits(n);
    law_decimal_round_trip(n);
    law_typing_digits(s, decimal(n));
    crate::laws::lemma_digits_are_trimmed(decimal(n));
    crate::laws::lemma_digits_are_trimmed(s.buf);
    assert(s.buf + decimal(n) =~= decimal(n));
    let typed = after_typing(s, decimal(n));
    assert(typed.typed_limit() == n);
    assert(s.typed_limit() == 0);
}

/// What a failed action leaves: the message of the error, and everything else as it was.
pub proof fn law_failures(s: AppView, action: ActionView, e: Seq<char>)
    ensures
        ({
            let t = finished(s, action, Some(e));
            &&& t == (AppView { status: t.status, ..s })
            &&& action is Add || action is Clear || action is ApplyLimits ==> t.status == "✗ "@ + e
            &&& action is Search ==> t.status == "✗ Search failed: "@ + e
            &&& action is Pause || action is Resume || action is Remove || action is Nothing
                ==> t == s
        }),
{
}

/// What an action leaves that went well: a message that names what was done, and, where a
/// download was added, the page of the downloads.
pub proof fn law_successes(s: AppView, action: ActionView)
    ensures
        ({
            let t = finished(s, action, None);
            &&& t == (AppView { status: t.status, tab: t.tab, ..s })
            &&& action is Add ==> t.tab == Tab::Downloads
            &&& !(action is Add) ==> t.tab == s.tab
            &&& action matches ActionView::Add { uri, name: Some(n) } ==> t.status
                == "✓ Added: "@ + n
            &&& action matches ActionView::Add { uri, name: None } ==> t.status == "✓ Added"@
            &&& action matches ActionView::Clear(ConfirmView::ClearOne { gid, name }) ==> t.status
                == "✓ Cleared: "@ + name
            &&& action == ActionView::Clear(ConfirmView::ClearAll) ==> t.status
                == "✓ History cleared."@
            &&& action is ApplyLimits && s.limits.dl_bps > 0 && s.limits.ul_bps > 0 ==> t.status
                == "✓ Speed limits applied: ↓"@ + (size_text(s.limits.dl_bps as nat) + "/s"@)
                + " ↑"@ + (size_text(s.limits.ul_bps as nat) + "/s"@)
            &&& action is ApplyLimits && s.limits == (SpeedLimits { dl_bps: 0, ul_bps: 0 })
                ==> t.status == "✓ Speed limits applied: ↓"@ + "∞"@ + " ↑"@ + "∞"@
            &&& action is Search || action is Pause || action is Resume || action is Remove ==> t
                == s
        }),
{
}

/// The question about one entry quotes its name, up to fifty characters.
pub proof fn law_questions(gid: Seq<char>, name: Seq<char>)
    ensures
        ({
            let q = prompt_text(ConfirmView::ClearOne { gid, name });
            &&& name.len() <= 50 ==> q == "Remove \""@ + name + "\" from history?"@
            &&& name.len() >= 50 ==> q == "Remove \""@ + name.take(50) + "\" from history?"@
        }),
        prompt_text(ConfirmView::ClearAll) == "Clear ALL completed / error entries from history?"@,
{
    law_clip(name, 50);
    if name.len() == 50 {
        assert(name.take(50) =~= name);
    }
}

/// The program begins with nothing: no downloads, results, trackers, selections or limits,
/// on the page of the downloads, with The Pirate Bay and all categories set.
pub proof fn law_start(dl_dir: Seq<char>)
    ensures
        ({
            let s = initial(dl_dir);
            &&& at_ease(s)
            &&& s.downloads.len() == 0 && s.results.len() == 0 && s.trackers.len() == 0
            &&& s.dl_sel is None && s.res_sel is None && s.buf.len() == 0
            &&& s.tab == Tab::Downloads && s.engine == Engine::Tpb && s.category == Category::All
            &&& s.limits.dl_bps == 0 && s.limits.ul_bps == 0
            &&& s.global_dl == 0 && s.global_ul == 0 && s.active_cnt == 0
            &&& s.dl_dir == dl_dir
        }),
{
}

// ---------------------------------------------------------------------------
// Modes
// ---------------------------------------------------------------------------

/// Enter where an address is typed ends the typing: nothing stays of it, and nothing else
/// changes; where nothing but white space was typed, the message says so.
pub proof fn law_address_enter(s: AppView)
    requires
        s.mode is AddUrl,
    ensures
        ({
            let t = after(s, Key::Enter);
            let empty = crate::text::trimmed(s.buf).len() == 0;
            &&& t == (AppView {
                mode: ModeView::Normal,
                buf: Seq::<char>::empty(),
                status: t.status,
                ..s
            })
            &&& t.status == if empty {
                "Cancelled."@
            } else {
                s.status
            }
            &&& called_for(s, Key::Enter) is Nothing <==> empty
        }),
{
}

/// Enter where a query is typed keeps the query in view, and the message says what is
/// searched for, and where; an empty query is not searched for.
pub proof fn law_query_enter(s: AppView)
    requires
        s.mode is Searching,
    ensures
        s.buf.len() > 0 ==> after(s, Key::Enter) == (AppView {
            mode: ModeView::Normal,
            status: "Searching \""@ + s.buf + "\" on "@ + (if s.engine == Engine::Tpb {
                "ThePirateBay"@
            } else {
                "Knaben"@
            }) + "…"@,
            ..s
        }),
        s.buf.len() == 0 ==> after(s, Key::Enter) == (AppView { mode: ModeView::Normal, ..s }),
        called_for(s, Key::Enter) is Search <==> s.buf.len() > 0,
        called_for(s, Key::Enter) is Nothing <==> s.buf.len() == 0,
{
}

/// What Esc leaves in each mode: a query stays in view, any other typing is gone, and the
/// message says so.
pub proof fn law_escape_leaves(s: AppView)
    ensures
        s.mode is AddUrl || s.mode is SpeedLimit ==> after(s, Key::Esc) == (AppView {
            mode: ModeView::Normal,
            buf: Seq::<char>::empty(),
            status: "Cancelled."@,
            ..s
        }),
        s.mode is Confirm ==> after(s, Key::Esc) == (AppView {
            mode: ModeView::Normal,
            status: "Cancelled."@,
            ..s
        }),
        s.mode is Searching ==> after(s, Key::Esc) == (AppView {
            mode: ModeView::Normal,
            status: "[a]=add  [s]=search  [?]=help"@,
            ..s
        }),
        at_ease(s) ==> after(s, Key::Esc) == s,
{
}

/// `c` on the page of the downloads asks about the selected download; where there is none
/// the message says so, and nothing else changes. On other pages neither `c` nor `C` does
/// anything.
pub proof fn law_clear_keys(s: AppView)
    requires
        at_ease(s),
    ensures
        ({
            let t = after(s, Key::Char('c'));
            let u = after(s, Key::Char('C'));
            &&& s.tab != Tab::Downloads ==> t == s && u == s
            &&& s.tab == Tab::Downloads && s.dl_sel is None ==> t == (AppView {
                status: "Select an item first (↑ ↓)."@,
                ..s
            })
            &&& s.tab == Tab::Downloads && (s.dl_sel matches Some(i) && i >= s.downloads.len())
                ==> t == (AppView { status: "No item selected."@, ..s })
            &&& s.tab == Tab::Downloads && (s.dl_sel matches Some(i) && i < s.downloads.len()) ==> t
                == (AppView {
                mode: ModeView::Confirm(
                    ConfirmView::ClearOne {
                        gid: s.downloads[s.dl_sel->0 as int].gid,
                        name: s.downloads[s.dl_sel->0 as int].name,
                    },
                    false,
                ),
                ..s
            })
            &&& s.tab == Tab::Downloads ==> u == (AppView {
                mode: ModeView::Confirm(ConfirmView::ClearAll, true),
                ..s
            })
            &&& called_for(s, Key::Char('c')) is Nothing
            &&& called_for(s, Key::Char('C')) is Nothing
        }),
{
}

/// In a question `y` and Left highlight "Yes", `n` and Right highlight "No", Enter closes
/// it, and no other key does anything but Esc.
pub proof fn law_question_keys(s: AppView, k: Key)
    requires
        s.mode is Confirm,
    ensures
        ({
            let kind = s.mode->Confirm_0;
            let t = after(s, k);
            &&& k == Key::Char('y') || k == Key::Left ==> t == (AppView {
                mode: ModeView::Confirm(kind, false),
                ..s
            })
            &&& k == Key::Char('n') || k == Key::Right ==> t == (AppView {
                mode: ModeView::Confirm(kind, true),
                ..s
            })
            &&& k == Key::Enter && !s.mode->Confirm_1 ==> t == (AppView {
                mode: ModeView::Normal,
                ..s
            })
            &&& k == Key::Enter && s.mode->Confirm_1 ==> t == (AppView {
                mode: ModeView::Normal,
                status: "Cancelled."@,
                ..s
            })
            &&& k != Key::Char('y') && k != Key::Left && k != Key::Char('n') && k != Key::Right && k
                != Key::Enter && k != Key::Esc ==> t == s
        }),
{
}

/// While something is typed, a character is typed, Backspace takes the last one back if
/// there is one, and keys that move do nothing. Of a speed limit only digits are taken.
pub proof fn law_typing_keys(s: AppView, k: Key)
    requires
        s.mode is AddUrl || s.mode is Searching || s.mode is SpeedLimit,
    ensures
        k matches Key::Char(c) && (!(s.mode is SpeedLimit) || is_digit(c)) ==> after(s, k) == (
        AppView { buf: s.buf.push(k->Char_0), ..s }),
        k matches Key::Char(c) && s.mode is SpeedLimit && !is_digit(c) ==> after(s, k) == s,
        k == Key::Backspace && s.buf.len() > 0 ==> after(s, k) == (AppView {
            buf: s.buf.drop_last(),
            ..s
        }),
        k == Key::Backspace && s.buf.len() == 0 ==> after(s, k) == s,
        k == Key::Up || k == Key::Down || k == Key::Left || k == Key::Right || k == Key::Other
            ==> after(s, k) == s,
        k == Key::Tab && !(s.mode is SpeedLimit) ==> after(s, k) == s,
        k != Key::Enter ==> called_for(s, k) is Nothing,
{
}

/// Tab where a speed limit is typed goes on to the other one, with nothing typed.
pub proof fn law_limit_tab(s: AppView)
    requires
        s.mode is SpeedLimit,
        s.mode->field <= 1,
    ensures
        ({
            let t = after(s, Key::Tab);
            &&& t == (AppView { mode: t.mode, buf: Seq::<char>::empty(), limits: t.limits, ..s })
            &&& t.mode == (ModeView::SpeedLimit {
                field: if s.mode->field == 0 {
                    1u8
                } else {
                    0u8
                },
            })
            &&& s.mode->field == 0 ==> t.limits.ul_bps == s.limits.ul_bps
            &&& s.mode->field == 1 ==> t.limits.dl_bps == s.limits.dl_bps
        }),
{
}

/// A key is refused only where it would make a limit count whose number of bytes does not
/// fit in sixty-four bits: so many kilobytes that a thousand and twenty-four times as many
/// bytes are too many, but not so many that the number itself does not fit.
pub proof fn law_refused_keys(s: AppView, ev: KeyEvent, n: nat)
    requires
        s.buf == decimal(n),
    ensures
        s.limit_fits() <==> n * 1024 <= u64::MAX || n > u64::MAX,
        crate::keys::sets_limit(s, ev) <==> s.mode is SpeedLimit && ev.press && (ev.key == Key::Tab
            || ev.key == Key::Enter),
{
    lemma_decimal_digits(n);
    law_decimal_round_trip(n);
    crate::laws::lemma_digits_are_trimmed(decimal(n));
}

/// Refreshing the trackers says so, and changes nothing else.
pub proof fn law_refresh_key(s: AppView)
    requires
        at_ease(s),
    ensures
        after(s, Key::Char('r')) == (AppView { status: "Refreshing trackers…"@, ..s }),
        after(s, Key::Char('q')) == s,
        after(s, Key::Char('?')) == (AppView { show_help: true, ..s }),
{
}

/// Actions that one call performs are performed by just that call; the others by none.
pub proof fn law_calls(s: AppView, token: Option<Seq<char>>, gid: Seq<char>, name: Seq<char>)
    ensures
        action_call(s, token, ActionView::Resume { gid }) == Some(
            request(token, "aria2.unpause"@, seq![JsonView::Str(gid)]),
        ),
        action_call(s, token, ActionView::Pause { gid }) == Some(
            request(token, "aria2.pause"@, seq![JsonView::Str(gid)]),
        ),
        action_call(s, token, ActionView::Remove { gid }) == Some(
            request(token, "aria2.forceRemove"@, seq![JsonView::Str(gid)]),
        ),
        action_call(s, token, ActionView::Clear(ConfirmView::ClearOne { gid, name })) == Some(
            request(token, "aria2.removeDownloadResult"@, seq![JsonView::Str(gid)]),
        ),
        action_call(s, token, ActionView::Clear(ConfirmView::ClearAll)) == Some(
            request(token, "aria2.purgeDownloadResult"@, Seq::<JsonView>::empty()),
        ),
        action_call(s, token, ActionView::Nothing) is None,
        action_call(s, token, ActionView::Quit) is None,
        action_call(s, token, ActionView::RefreshTrackers) is None,
        action_call(s, token, ActionView::Add { uri: gid, name: Some(name) }) is None,
        action_call(s, token, ActionView::Add { uri: gid, name: None }) is None,
        action_call(s, token, ActionView::Search { engine: Engine::Tpb, url: gid }) is None,
        action_call(s, token, ActionView::Search { engine: Engine::Knaben, url: gid }) is None,
{
}

}
