//! What holds of what is shown.

use crate::app::{AppView, ConfirmView, Tab};
use crate::double::law_progress_accurate;
use crate::download::{color_of_status, eta_text, DownloadView};
use crate::keys::limit_text;
use crate::outside::uppercase;
use crate::render::{add_overlay, bar, confirm_lines, confirm_overlay, download_row, downloads_page, filled_cells, free_above, help_lines, help_overlay, percent, popup_columns, popup_rows, result_row, search_controls, search_head, search_list, settings_page, settings_text, speed_lines, speed_overlay, status_bar, tab_bar, KEY_REFERENCE};
use crate::screen::{bold, colored, Area, Color, Constraint, Listing, Style, TextView};
use crate::search::ResultView;
use crate::sizes::{size_text, speed_text};
use crate::text::{decimal, pad_left, repeated};
use crate::text_laws::{law_clip, law_pad_left, law_repeated};
use vstd::prelude::*;

verus! {

/// Whether a text ends in a part, and blanks alone stand before it.
pub open spec fn right_aligned(text: Seq<char>, part: Seq<char>, width: nat) -> bool {
    &&& part.is_suffix_of(text)
    &&& text.len() == if part.len() <= width {
        width
    } else {
        part.len()
    }
    &&& forall|i: int| 0 <= i < text.len() - part.len() ==> #[trigger] text[i] == ' '
}

proof fn lemma_aligned(part: Seq<char>, width: nat)
    ensures
        right_aligned(pad_left(part, width as int), part, width),
{
    law_pad_left(part, width);
}

/// The cells of the bar are filled from the left, as many as the progress covers.
pub proof fn law_bar(d: DownloadView)
    ensures
        bar(d).len() == 24,
        forall|i: int|
            0 <= i < 24 ==> #[trigger] bar(d)[i] == if i < filled_cells(d) {
                '█'
            } else {
                '░'
            },
{
    law_repeated('█', filled_cells(d));
    law_repeated('░', (24 - filled_cells(d)) as nat);
}

/// The percentage and the filled cells are the share that is done, rounded down, up to ten
/// terabytes: they never say more, and at most one less.
pub proof fn law_percent_accurate(d: DownloadView)
    requires
        d.done <= d.total,
        0 < d.total,
        100 * d.total <= 0x4_0000_0000_0000,
    ensures
        percent(d) * d.total <= 100 * d.done <= (percent(d) + 1) * d.total,
        filled_cells(d) * d.total <= 24 * d.done <= (filled_cells(d) + 1) * d.total,
{
    law_progress_accurate(d.done as nat, d.total as nat, 100);
    law_progress_accurate(d.done as nat, d.total as nat, 24);
    crate::double::law_progress_bounded(d.done as nat, d.total as nat, 100);
    crate::double::law_progress_bounded(d.done as nat, d.total as nat, 24);
}

/// What the row of a download shows, cell by cell: the status, the percentage and the bar,
/// the speed, the size, the time left or what is wrong, the peers, and the name.
pub proof fn law_download_row(d: DownloadView, state: Seq<char>)
    ensures
        ({
            let row = download_row(d, state);
            &&& row.len() == 7
            &&& row[0].style == bold(color_of_status(d.status))
            &&& exists|t: Seq<char>|
                #[trigger] right_aligned(t, state, 8) && row[0].text == " "@ + t + " "@
            &&& exists|t: Seq<char>|
                #[trigger] right_aligned(t, decimal(percent(d)), 3) && row[1].text == t + "%["@
                    + bar(d) + "]"@
            &&& d.dl_speed > 0 ==> exists|t: Seq<char>|
                #[trigger] right_aligned(t, size_text(d.dl_speed as nat) + "/s"@, 8) && row[2].text
                    == "↓"@ + t
            &&& d.dl_speed == 0 ==> right_aligned(row[2].text, Seq::<char>::empty(), 9)
            &&& d.total > 0 ==> right_aligned(row[3].text, " "@ + size_text(d.total as nat), 8)
            &&& d.total == 0 ==> right_aligned(row[3].text, ""@, 8)
            &&& d.status == "active"@ && d.dl_speed > 0 ==> right_aligned(
                row[4].text,
                " ETA:"@ + eta_text(d),
                12,
            )
            &&& d.status == "error"@ && 0 < d.error.len() <= 28 ==> right_aligned(
                row[4].text,
                " ERR:"@ + d.error,
                12,
            )
            &&& d.status == "error"@ && d.error.len() > 28 ==> right_aligned(
                row[4].text,
                " ERR:"@ + d.error.take(28),
                12,
            )
            &&& !(d.status == "active"@ && d.dl_speed > 0) && !(d.status == "error"@
                && d.error.len() > 0) ==> right_aligned(row[4].text, ""@, 12)
            &&& d.is_torrent && (d.seeds > 0 || d.conns > 0) ==> right_aligned(
                row[5].text,
                " S:"@ + decimal(d.seeds as nat) + " P:"@ + decimal(d.conns as nat),
                10,
            )
            &&& !d.is_torrent && d.conns > 0 ==> right_aligned(
                row[5].text,
                " C:"@ + decimal(d.conns as nat),
                10,
            )
            &&& d.conns == 0 && !(d.is_torrent && d.seeds > 0) ==> right_aligned(
                row[5].text,
                ""@,
                10,
            )
            &&& d.name.len() <= 42 ==> row[6].text == "  "@ + d.name
            &&& d.name.len() >= 42 ==> row[6].text == "  "@ + d.name.take(42)
        }),
{
    reveal_strlit("active");
    reveal_strlit("error");
    assert("active"@.len() == 6 && "error"@.len() == 5);
    let row = download_row(d, state);
    lemma_aligned(state, 8);
    assert(row[0].text == " "@ + pad_left(state, 8) + " "@);
    lemma_aligned(decimal(percent(d)), 3);
    assert(row[1].text == pad_left(decimal(percent(d)), 3) + "%["@ + bar(d) + "]"@);
    let speed = size_text(d.dl_speed as nat) + "/s"@;
    lemma_aligned(speed, 8);
    if d.dl_speed > 0 {
        assert(row[2].text == "↓"@ + pad_left(speed, 8));
    } else {
        law_repeated(' ', 9);
        assert(row[2].text =~= repeated(' ', 9));
        assert(Seq::<char>::empty() =~= row[2].text.subrange(9, 9));
    }
    lemma_aligned(crate::render::size_column(d), 8);
    lemma_aligned(crate::render::note(d), 12);
    lemma_aligned(crate::render::peers(d), 10);
    law_clip(d.error, 28);
    law_clip(d.name, 42);
    assert(d.error.len() == 28 ==> d.error.take(28) =~= d.error);
    assert(d.name.len() == 42 ==> d.name.take(42) =~= d.name);
}

/// What the row of a search result shows, cell by cell: seeds and leeches, the size, the
/// engine, the category, and the name.
pub proof fn law_result_row(r: ResultView)
    ensures
        ({
            let row = result_row(r);
            &&& row.len() == 5
            &&& exists|s: Seq<char>, l: Seq<char>|
                #[trigger] right_aligned(s, decimal(r.seeds as nat), 5) && #[trigger] right_aligned(
                    l,
                    decimal(r.leeches as nat),
                    5,
                ) && row[0].text == " "@ + s + "↑"@ + l + "↓ "@
            &&& exists|t: Seq<char>|
                #[trigger] right_aligned(t, r.size, 8) && row[1].text == t + "  "@
            &&& exists|t: Seq<char>|
                #[trigger] right_aligned(t, r.source, 6) && row[2].text == "["@ + t + "] "@
            &&& r.category.len() <= 10 ==> exists|t: Seq<char>|
                #[trigger] right_aligned(t, r.category, 10) && row[3].text == t + "  "@
            &&& r.category.len() > 10 ==> row[3].text == r.category.take(10) + "  "@
            &&& row[4].text == r.name
            &&& row[0].style == colored(Color::Green) <==> r.seeds > 50
            &&& row[0].style == colored(Color::Red) <==> r.seeds <= 10
            &&& row[2].style == colored(Color::Red) <==> r.source == "TPB"@
        }),
{
    let row = result_row(r);
    lemma_aligned(decimal(r.seeds as nat), 5);
    lemma_aligned(decimal(r.leeches as nat), 5);
    assert(row[0].text == " "@ + pad_left(decimal(r.seeds as nat), 5) + "↑"@ + pad_left(
        decimal(r.leeches as nat),
        5,
    ) + "↓ "@);
    lemma_aligned(r.size, 8);
    assert(row[1].text == pad_left(r.size, 8) + "  "@);
    lemma_aligned(r.source, 6);
    assert(row[2].text == "["@ + pad_left(r.source, 6) + "] "@);
    lemma_aligned(r.category, 10);
    law_clip(r.category, 10);
    if r.category.len() <= 10 {
        assert(row[3].text == pad_left(r.category, 10) + "  "@);
    } else {
        assert(crate::text::clip(r.category, 10) =~= r.category.take(10));
        law_pad_left(r.category.take(10), 10);
    }
}

/// The page of the downloads has a row for every download, in their order, and its title
/// says how many they are; without downloads it says how to add one.
pub proof fn law_downloads_page(s: AppView, area: Area)
    ensures
        downloads_page(s, area).area == area,
        s.downloads.len() == 0 <==> downloads_page(s, area).widget is Paragraph,
        s.downloads.len() > 0 ==> {
            let w = downloads_page(s, area).widget;
            &&& w is List && w->of == Listing::Downloads
            &&& w->rows.len() == s.downloads.len()
            &&& forall|i: int|
                0 <= i < s.downloads.len() ==> #[trigger] w->rows[i] == download_row(
                    s.downloads[i],
                    uppercase(s.downloads[i].status),
                )
            &&& (" Downloads ("@ + decimal(s.downloads.len()) + ")"@).is_prefix_of(
                w->List_block.title.text,
            )
        },
{
    if s.downloads.len() > 0 {
        reveal_strlit(")");
        reveal_strlit(") │ p=pause  x=remove  c=clear  C=clear all history ");
        let title = downloads_page(s, area).widget->List_block.title.text;
        let front = " Downloads ("@ + decimal(s.downloads.len()) + ")"@;
        assert(front =~= title.take(front.len() as int));
    }
}

/// The search page has a row for every result, in their order, and its title says how many
/// they are.
pub proof fn law_search_list(s: AppView, area: Area)
    ensures
        search_list(s, area).area == area,
        s.results.len() == 0 <==> search_list(s, area).widget is Paragraph,
        s.results.len() > 0 ==> {
            let w = search_list(s, area).widget;
            &&& w is List && w->of == Listing::Results
            &&& w->rows.len() == s.results.len()
            &&& forall|i: int|
                0 <= i < s.results.len() ==> #[trigger] w->rows[i] == result_row(s.results[i])
            &&& (" Results ("@ + decimal(s.results.len()) + ")"@).is_prefix_of(
                w->List_block.title.text,
            )
        },
{
    if s.results.len() > 0 {
        reveal_strlit(")");
        reveal_strlit(") – Enter=Download ");
        let title = search_list(s, area).widget->List_block.title.text;
        let front = " Results ("@ + decimal(s.results.len()) + ")"@;
        assert(front =~= title.take(front.len() as int));
    }
}

/// The upper part of the search page shows the query, with a block behind it exactly while
/// it is typed, and the engine and the category that are set.
pub proof fn law_search_controls(s: AppView)
    ensures
        ({
            let lines = search_controls(s);
            &&& lines.len() == 3
            &&& lines[0]->Spans_0[1].text == s.buf + (if s.mode is Searching {
                "█"@
            } else {
                ""@
            })
            &&& lines[1]->Spans_0[1].text == s.engine.name()
            &&& lines[1]->Spans_0[3].text == s.category.name()
        }),
{
}

/// The status bar shows the message, what comes and what goes in a second, and how many
/// downloads run.
pub proof fn law_status_bar(s: AppView, area: Area)
    ensures
        status_bar(s, area).area == area,
        status_bar(s, area).widget->text == TextView::Plain(
            " "@ + s.status + " │ ↓"@ + speed_text(s.global_dl as nat) + " ↑"@ + speed_text(
                s.global_ul as nat,
            ) + " │ active:"@ + decimal(s.active_cnt as nat) + " │ [?]Help"@,
        ),
{
}

/// The settings page shows the directory, the number of trackers and both limits.
pub proof fn law_settings(s: AppView)
    ensures
        ("\n  Download dir   : "@ + s.dl_dir + "\n  Trackers       : "@ + decimal(
            s.trackers.len(),
        ) + " loaded  (auto-refreshed hourly from 4 sources)\n  Download limit : "@ + limit_text(
            s.limits.dl_bps,
            "Unlimited"@,
        ) + "      Upload limit: "@ + limit_text(s.limits.ul_bps, "Unlimited"@)).is_prefix_of(
            settings_text(s),
        ),
{
    let front = "\n  Download dir   : "@ + s.dl_dir + "\n  Trackers       : "@ + decimal(
        s.trackers.len(),
    ) + " loaded  (auto-refreshed hourly from 4 sources)\n  Download limit : "@ + limit_text(
        s.limits.dl_bps,
        "Unlimited"@,
    ) + "      Upload limit: "@ + limit_text(s.limits.ul_bps, "Unlimited"@);
    assert(front =~= settings_text(s).take(front.len() as int));
}

/// The tab bar marks the page that is shown: the name at the marked place is that of the
/// page.
pub proof fn law_tab_bar(s: AppView, area: Area)
    ensures
        ({
            let w = tab_bar(s, area).widget;
            &&& tab_bar(s, area).area == area
            &&& w is Tabs && w->titles.len() == 3 && w->selected < 3
            &&& w->titles[w->selected as int] == match s.tab {
                Tab::Downloads => "[1] Downloads"@,
                Tab::Search => "[2] Search"@,
                Tab::Settings => "[3] Settings"@,
            }
        }),
{
}

/// While a speed limit is typed, the overlay shows what has been typed in its place, and
/// the other limit as it is set.
pub proof fn law_speed_lines(s: AppView, field: u8)
    requires
        field == 0 || field == 1,
    ensures
        ({
            let lines = speed_lines(s, field);
            let (down, up) = (lines[1]->Spans_0[1].text, lines[3]->Spans_0[1].text);
            &&& lines.len() == 7
            &&& field == 0 ==> down == s.buf + "_"@ && up == limit_text(
                s.limits.ul_bps,
                "0  (unlimited)"@,
            )
            &&& field == 1 ==> up == s.buf + "_"@ && down == limit_text(
                s.limits.dl_bps,
                "0  (unlimited)"@,
            )
        }),
{
}

/// An overlay is put in the middle: the share that is free above it is half of what it
/// leaves free of the height, to within one per cent; and what is free on its left is what
/// is free on its right, so that all of the width is used up to one per cent.
pub proof fn law_in_the_middle(pct_w: u16, h: u16, area: Area)
    requires
        0 < area.height,
        h <= area.height,
        h <= 655,
        pct_w <= 100,
    ensures
        popup_rows(h, area).len() == 3,
        popup_rows(h, area)[0] matches Constraint::Percentage(p) && 100 * (area.height - h)
            - area.height <= 2 * p * area.height <= 100 * (area.height - h) + area.height,
        popup_rows(h, area)[1] == Constraint::Length(h),
        popup_columns(pct_w).len() == 3,
        popup_columns(pct_w)[1] == Constraint::Percentage(pct_w),
        popup_columns(pct_w)[0] == popup_columns(pct_w)[2],
        popup_columns(pct_w)[0] matches Constraint::Percentage(p) && 99 <= 2 * p + pct_w <= 100,
{
    let height = area.height as int;
    let wanted = 100 * h as int;
    let share = wanted / height;
    vstd::arithmetic::div_mod::lemma_fundamental_div_mod(wanted, height);
    assert(share <= 100) by (nonlinear_arith)
        requires
            share * height <= wanted,
            wanted <= 100 * height,
            height > 0,
            height * share == share * height,
    ;
    let p = free_above(h, area.height) as int;
    assert(p == (100 - share) / 2);
    assert(2 * p * height <= (100 - share) * height) by (nonlinear_arith)
        requires
            2 * p <= 100 - share,
            height > 0,
    ;
    assert(2 * p * height >= (99 - share) * height) by (nonlinear_arith)
        requires
            2 * p >= 99 - share,
            height > 0,
    ;
    assert((100 - share) * height == 100 * height - height * share) by (nonlinear_arith);
    assert((99 - share) * height == 99 * height - height * share) by (nonlinear_arith);
}

/// A question shows its text in a line of its own.
pub proof fn law_question_is_shown(kind: ConfirmView, no: bool)
    ensures
        confirm_lines(kind, no).len() == 5,
        confirm_lines(kind, no)[1]->Plain_0.text == crate::app::prompt_text(kind),
        confirm_lines(kind, no)[3]->Spans_0[1].text == "  Yes  "@,
        confirm_lines(kind, no)[3]->Spans_0[3].text == "  No  "@,
        confirm_lines(kind, no)[0]->Plain_0.text == ""@,
        confirm_lines(kind, no)[2]->Plain_0.text == ""@,
        confirm_lines(kind, no)[4]->Plain_0.text
            == "  ← → / y / n  •  Enter = confirm  •  Esc = cancel"@,
{
}

// ---------------------------------------------------------------------------
// Looks
// ---------------------------------------------------------------------------

/// The colours of the cells of a download.
pub proof fn law_download_colors(d: DownloadView, state: Seq<char>)
    ensures
        ({
            let row = download_row(d, state);
            &&& row[0].style.bold && row[0].style.bg is None
            &&& row[1].style == (Style { fg: row[1].style.fg, bg: None, bold: false })
            &&& row[1].style.fg == Some(Color::Blue) <==> percent(d) == 100
            &&& row[1].style.fg == Some(Color::Cyan) <==> percent(d) != 100
            &&& row[2].style == (Style { fg: Some(Color::Green), bg: None, bold: false })
            &&& row[3].style == (Style { fg: Some(Color::DarkGray), bg: None, bold: false })
            &&& row[4].style == (Style { fg: Some(Color::Yellow), bg: None, bold: false })
            &&& row[5].style == (Style { fg: Some(Color::Magenta), bg: None, bold: false })
            &&& row[6].style == (Style { fg: None, bg: None, bold: false })
        }),
{
}

/// The colours of the cells of a search result.
pub proof fn law_result_colors(r: ResultView)
    ensures
        ({
            let row = result_row(r);
            &&& row[0].style.fg == Some(Color::Green) <==> r.seeds > 50
            &&& row[0].style.fg == Some(Color::Yellow) <==> 10 < r.seeds <= 50
            &&& row[0].style.fg == Some(Color::Red) <==> r.seeds <= 10
            &&& row[1].style == (Style { fg: Some(Color::Cyan), bg: None, bold: false })
            &&& row[2].style.fg == Some(Color::Red) <==> r.source == "TPB"@
            &&& row[2].style.fg == Some(Color::Blue) <==> r.source != "TPB"@
            &&& row[3].style == (Style { fg: Some(Color::Blue), bg: None, bold: false })
            &&& row[4].style == (Style { fg: None, bg: None, bold: false })
        }),
{
}

/// Both lists mark the selected row alike.
pub proof fn law_selected_row(s: AppView, area: Area)
    ensures
        ({
            let marked = Style { fg: Some(Color::White), bg: Some(Color::DarkGray), bold: true };
            &&& s.downloads.len() > 0 ==> {
                let w = downloads_page(s, area).widget;
                w->List_highlight == marked && w->symbol == "▶ "@
            }
            &&& s.results.len() > 0 ==> {
                let w = search_list(s, area).widget;
                w->List_highlight == marked && w->symbol == "▶ "@
            }
        }),
{
}

/// The pages without rows say what to do, in a frame with their name.
pub proof fn law_empty_pages(s: AppView, area: Area)
    ensures
        s.downloads.len() == 0 ==> {
            let w = downloads_page(s, area).widget;
            &&& w->text == TextView::Plain(
                "\n  No downloads yet.\n\n  [a]  Add URL / magnet / .torrent\n  [s]  Search torrent sites\n  [?]  Show help"@,
            )
            &&& w->frame->0.title.text == " Downloads "@
            &&& w->style.fg == Some(Color::DarkGray)
        },
        s.results.len() == 0 ==> {
            let w = search_list(s, area).widget;
            &&& w->text == TextView::Plain("\n  Results will appear here."@)
            &&& w->frame->0.title.text == " Results "@
            &&& w->style.fg == Some(Color::DarkGray)
        },
{
}

/// The upper part of the search page has all of its lines, in a frame that is yellow
/// exactly while a query is typed.
pub proof fn law_search_head(s: AppView, area: Area)
    ensures
        ({
            let w = search_head(s, area).widget;
            let query = search_controls(s)[0]->Spans_0;
            &&& search_head(s, area).area == area
            &&& w->text == TextView::Lines(search_controls(s))
            &&& w->frame->0.title.text == " Search "@
            &&& w->frame->0.border.fg == Some(Color::Yellow) <==> s.mode is Searching
            &&& w->frame->0.border.fg is None <==> !(s.mode is Searching)
            &&& query[0].text == " Query  : "@
            &&& query[1].style.fg == Some(Color::Yellow) <==> s.mode is Searching
            &&& query[1].style.fg == Some(Color::White) <==> !(s.mode is Searching)
            &&& search_controls(s)[1]->Spans_0[0].text == " Engine : "@
            &&& search_controls(s)[1]->Spans_0[2].text == "    Category : "@
            &&& search_controls(s)[2]->Plain_0.text
                == "  [s] type query  [e] toggle engine  [Tab] cycle category  [Enter] search"@
        }),
{
}

/// Every overlay clears its place before it is drawn there, in a frame with its name and
/// in its colour.
pub proof fn law_overlays(s: AppView, kind: ConfirmView, no: bool, field: u8, popup: Area)
    ensures
        ({
            let (a, c, v, h) = (
                add_overlay(s, popup),
                confirm_overlay(kind, no, popup),
                speed_overlay(s, field, popup),
                help_overlay(popup),
            );
            &&& a.len() == 2 && c.len() == 2 && v.len() == 2 && h.len() == 2
            &&& a[0].widget is Clear && c[0].widget is Clear && v[0].widget is Clear && h[0].widget
                is Clear
            &&& a[0].area == popup && c[0].area == popup && v[0].area == popup && h[0].area == popup
            &&& a[1].area == popup && c[1].area == popup && v[1].area == popup && h[1].area == popup
            &&& a[1].widget->text == TextView::Plain(s.buf + "_"@)
            &&& c[1].widget->text == TextView::Lines(confirm_lines(kind, no))
            &&& v[1].widget->text == TextView::Lines(speed_lines(s, field))
            &&& h[1].widget->text == TextView::Lines(help_lines())
            &&& a[1].widget->frame->0.title.text
                == " Add Download — URL / magnet:? / .torrent URL  (Enter=confirm  Esc=cancel) "@
            &&& c[1].widget->frame->0.title.text == " Confirm "@
            &&& v[1].widget->frame->0.title.text == " Speed Limits "@
            &&& h[1].widget->frame->0.title.text == " Help "@
            &&& a[1].widget->frame->0.border.fg == Some(Color::Yellow)
            &&& c[1].widget->frame->0.border.fg == Some(Color::Yellow)
            &&& v[1].widget->frame->0.border.fg == Some(Color::Cyan)
            &&& h[1].widget->frame->0.border.fg == Some(Color::Cyan)
            &&& a[1].widget->wrap == Some(true)
            &&& c[1].widget->wrap == Some(false) && v[1].widget->wrap == Some(false)
                && h[1].widget->wrap == Some(false)
        }),
{
}

/// The lines around the speed limits, and the colours that tell the one that is typed.
pub proof fn law_speed_labels(s: AppView, field: u8)
    ensures
        ({
            let lines = speed_lines(s, field);
            let (down, up) = (lines[1]->Spans_0, lines[3]->Spans_0);
            &&& down[0].text == "  Download limit (KB/s, 0=unlimited) : "@
            &&& up[0].text == "  Upload   limit (KB/s, 0=unlimited) : "@
            &&& down[1].style.fg == Some(Color::Yellow) <==> field == 0
            &&& up[1].style.fg == Some(Color::Yellow) <==> field == 1
            &&& down[1].style.bold <==> field == 0
            &&& up[1].style.bold <==> field == 1
            &&& field != 0 ==> down[1].style.fg == Some(Color::Gray)
            &&& field != 1 ==> up[1].style.fg == Some(Color::Gray)
            &&& lines[0]->Plain_0.text == ""@ && lines[2]->Plain_0.text == ""@
            &&& lines[4]->Plain_0.text == ""@ && lines[5]->Plain_0.text == ""@
            &&& lines[6]->Plain_0.text == "  Tab = switch field    Enter = apply    Esc = cancel"@
        }),
{
}

/// The looks of the tab bar, the status bar and the settings page.
pub proof fn law_bars(s: AppView, area: Area)
    ensures
        ({
            let (t, b, p) = (
                tab_bar(s, area).widget,
                status_bar(s, area).widget,
                settings_page(s, area),
            );
            &&& t->Tabs_block.title.text == " ⬇  torfile "@
            &&& t->Tabs_block.title.style.fg == Some(Color::Cyan) && t->Tabs_block.title.style.bold
            &&& t->Tabs_highlight == (Style { fg: Some(Color::Yellow), bg: None, bold: true })
            &&& t->divider == "  "@
            &&& t->titles == seq!["[1] Downloads"@, "[2] Search"@, "[3] Settings"@]
            &&& b->frame is None && b->style.fg == Some(Color::DarkGray)
            &&& p.area == area
            &&& p.widget->text == TextView::Plain(settings_text(s))
            &&& p.widget->frame->0.title.text == " Settings & Key Reference "@
            &&& p.widget->wrap == Some(false)
        }),
{
}

/// The answer that is not highlighted is grey, and so are the hints under the overlays and
/// the search settings; the engine and the category stand out.
pub proof fn law_hints(s: AppView, kind: ConfirmView, no: bool, field: u8)
    ensures
        ({
            let grey = Style { fg: Some(Color::DarkGray), bg: None, bold: false };
            let answers = confirm_lines(kind, no)[3]->Spans_0;
            let settings = search_controls(s)[1]->Spans_0;
            &&& no ==> answers[1].style == grey
            &&& !no ==> answers[3].style == grey
            &&& confirm_lines(kind, no)[4]->Plain_0.style == grey
            &&& speed_lines(s, field)[6]->Plain_0.style == grey
            &&& search_controls(s)[2]->Plain_0.style == grey
            &&& settings[1].style == (Style { fg: Some(Color::Magenta), bg: None, bold: true })
            &&& settings[3].style == (Style { fg: Some(Color::Cyan), bg: None, bold: true })
        }),
{
}

/// The headings of the help stand out, the last line is grey, and the others are plain.
pub proof fn law_help_colors(i: int)
    requires
        0 <= i < 25,
    ensures
        ({
            let look = help_lines()[i]->Plain_0.style;
            let heading = i == 1 || i == 6 || i == 11 || i == 16 || i == 19;
            &&& heading ==> look == (Style { fg: Some(Color::Yellow), bg: None, bold: true })
            &&& i == 24 ==> look == (Style { fg: Some(Color::DarkGray), bg: None, bold: false })
            &&& !heading && i < 24 ==> look == (Style { fg: None, bg: None, bold: false })
        }),
{
}

/// The keys that the help lists.
pub proof fn law_help_lines()
    ensures
        help_lines().len() == 25,
        help_lines()[0]->Plain_0.text == ""@,
        help_lines()[1]->Plain_0.text == "  GLOBAL"@,
        help_lines()[2]->Plain_0.text == "  q / Ctrl+C    Quit                  ?   Toggle this help"@,
        help_lines()[3]->Plain_0.text == "  1 / 2 / 3     Switch tabs            r   Refresh trackers now"@,
        help_lines()[4]->Plain_0.text == "  a             Add URL / magnet / .torrent URL"@,
        help_lines()[5]->Plain_0.text == ""@,
        help_lines()[6]->Plain_0.text == "  DOWNLOADS TAB"@,
        help_lines()[7]->Plain_0.text == "  ↑ ↓  /  j k   Navigate list         p   Pause / Resume"@,
        help_lines()[8]->Plain_0.text == "  x             Force-remove entry    c   Clear selected from history"@,
        help_lines()[9]->Plain_0.text == "  C             Clear ALL history entries"@,
        help_lines()[10]->Plain_0.text == ""@,
        help_lines()[11]->Plain_0.text == "  SEARCH TAB"@,
        help_lines()[12]->Plain_0.text == "  s             Start typing query    Enter   Download selected"@,
        help_lines()[13]->Plain_0.text == "  e             Toggle engine (TPB ↔ Knaben)"@,
        help_lines()[14]->Plain_0.text == "  Tab           Cycle category  All→Video→Audio→Software→Games→Books"@,
        help_lines()[15]->Plain_0.text == ""@,
        help_lines()[16]->Plain_0.text == "  SETTINGS TAB"@,
        help_lines()[17]->Plain_0.text == "  l             Set global speed limits (KB/s; 0 = unlimited)"@,
        help_lines()[18]->Plain_0.text == ""@,
        help_lines()[19]->Plain_0.text == "  SUPPORTED URL TYPES"@,
        help_lines()[20]->Plain_0.text == "  http(s)://…   Direct download"@,
        help_lines()[21]->Plain_0.text == "  magnet:?…     BitTorrent magnet link"@,
        help_lines()[22]->Plain_0.text == "  https://….torrent   Remote .torrent file"@,
        help_lines()[23]->Plain_0.text == ""@,
        help_lines()[24]->Plain_0.text == "  Press [?] or [Esc] to close this overlay"@,
{
}

/// The keys that the settings page lists, behind the settings.
pub proof fn law_key_reference(s: AppView)
    ensures
        KEY_REFERENCE@ == "\n\
    \n\
    \x20 ── Global ─────────────────────────────────────────────────\n\
    \x20 q / Ctrl+C   Quit             ?   Toggle help overlay\n\
    \x20 a            Add URL / magnet / .torrent URL\n\
    \x20 s            Search (opens Search tab and starts typing)\n\
    \x20 r            Refresh trackers now\n\
    \x20 1 / 2 / 3    Switch tabs\n\
    \n\
    \x20 ── Downloads tab ──────────────────────────────────────────\n\
    \x20 ↑ ↓ / j k    Navigate        p   Pause / Resume\n\
    \x20 x            Force remove    c   Clear selected from history\n\
    \x20 C            Clear ALL completed / error entries\n\
    \n\
    \x20 ── Search tab ─────────────────────────────────────────────\n\
    \x20 s            Type query       Enter   Download selected\n\
    \x20 e            Toggle engine    Tab     Cycle category\n\
    \n\
    \x20 ── Settings tab ───────────────────────────────────────────\n\
    \x20 l            Set speed limits (KB/s; 0 = unlimited)\n"@,
        KEY_REFERENCE@.is_suffix_of(settings_text(s)),
{
    let text = settings_text(s);
    let n = KEY_REFERENCE@.len();
    assert(KEY_REFERENCE@ =~= text.subrange(text.len() - n, text.len() as int));
}

}
