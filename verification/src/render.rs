//! The pages and overlays of the program, as widgets to be drawn.

use crate::app::{labelled, prompt_text, App, AppView, ConfirmKind, ConfirmView, Mode, ModeView, Tab};
use crate::download::{color_of_status, eta_text, progress_of, Download, DownloadView};
use crate::keys::{fmt_limit, limit_text};
use crate::outside::{as_asked, fits, keeps_lengths, may_divide, split_area, to_uppercase, uppercase};
use crate::screen::{bold, bold_on, colored, framed, line_views, placed_views, raw_line, row_views, span_views, styled, styled_line, unstyled, Area, Block, BlockView, Color, Constraint, Direction, Line, LineView, Listing, Placed, PlacedView, Span, SpanView, Style, Text, TextView, Widget, WidgetView};
use crate::search::{ResultView, SearchResult};
use crate::sizes::{fmt_b, fmt_spd, size_text, speed_text};
use crate::text::{align_right, clip, decimal, decimal_text, pad_left, push_decimal, push_repeated, repeated, same, take_chars, texts};
use vstd::prelude::*;
use vstd::string::*;

verus! {

// ---------------------------------------------------------------------------
// Divided areas
// ---------------------------------------------------------------------------

/// Whether a part lies within an area.
pub open spec fn inside(part: Area, area: Area) -> bool {
    &&& area.x <= part.x && part.x + part.width <= area.x + area.width
    &&& area.y <= part.y && part.y + part.height <= area.y + area.height
}

/// Whether an area may come out in these parts when it is divided: one for each
/// constraint, each within the area and as the area is across the direction. Of three
/// parts at most, none is longer than asked for; and where they fit, all are as asked for.
pub open spec fn divided(
    direction: Direction,
    constraints: Seq<Constraint>,
    area: Area,
    parts: Seq<Area>,
) -> bool {
    &&& may_divide(direction, constraints, area, parts)
    &&& parts.len() == constraints.len()
    &&& forall|i: int| 0 <= i < parts.len() ==> inside(#[trigger] parts[i], area)
    &&& constraints.len() <= 3 ==> keeps_lengths(direction, constraints, parts)
    &&& constraints.len() <= 3 && fits(direction, constraints, area) ==> as_asked(
        direction,
        constraints,
        area,
        parts,
    )
    &&& forall|i: int|
        0 <= i < parts.len() ==> match direction {
            Direction::Vertical => (#[trigger] parts[i]).x == area.x && parts[i].width
                == area.width,
            Direction::Horizontal => parts[i].y == area.y && parts[i].height == area.height,
        }
}

// ---------------------------------------------------------------------------
// Downloads
// ---------------------------------------------------------------------------

/// The share of a download that is done, in parts of `scale`, as a number of sixty-four
/// bits.
pub open spec fn shown_progress(d: DownloadView, scale: nat) -> nat {
    let p = progress_of(d.done as nat, d.total as nat, scale);
    if p <= u64::MAX {
        p
    } else {
        u64::MAX as nat
    }
}

/// The percentage of a download that is done.
pub open spec fn percent(d: DownloadView) -> nat {
    shown_progress(d, 100)
}

/// How many of the twenty-four cells of the bar are filled.
pub open spec fn filled_cells(d: DownloadView) -> nat {
    if shown_progress(d, 24) <= 24 {
        shown_progress(d, 24)
    } else {
        24
    }
}

/// The progress bar.
pub open spec fn bar(d: DownloadView) -> Seq<char> {
    repeated('█', filled_cells(d) as int) + repeated('░', 24 - filled_cells(d))
}

/// The speed column: nine characters at least.
pub open spec fn speed_column(d: DownloadView) -> Seq<char> {
    if d.dl_speed > 0 {
        "↓"@ + pad_left(speed_text(d.dl_speed as nat), 8)
    } else {
        repeated(' ', 9)
    }
}

/// The time that a running download still takes, or what is wrong with a failed one.
pub open spec fn note(d: DownloadView) -> Seq<char> {
    if d.status == "active"@ && d.dl_speed > 0 {
        " ETA:"@ + eta_text(d)
    } else if d.status == "error"@ && d.error.len() > 0 {
        " ERR:"@ + clip(d.error, 28)
    } else {
        ""@
    }
}

/// The seeds and peers of a torrent, or the connections of another download.
pub open spec fn peers(d: DownloadView) -> Seq<char> {
    if d.is_torrent && (d.seeds > 0 || d.conns > 0) {
        " S:"@ + decimal(d.seeds as nat) + " P:"@ + decimal(d.conns as nat)
    } else if d.conns > 0 {
        " C:"@ + decimal(d.conns as nat)
    } else {
        ""@
    }
}

/// The size, where it is known.
pub open spec fn size_column(d: DownloadView) -> Seq<char> {
    if d.total > 0 {
        " "@ + size_text(d.total as nat)
    } else {
        ""@
    }
}

/// The row of a download, with its status in upper case.
pub open spec fn download_row(d: DownloadView, state: Seq<char>) -> Seq<SpanView> {
    seq![
        styled(" "@ + pad_left(state, 8) + " "@, bold(color_of_status(d.status))),
        styled(
            pad_left(decimal(percent(d)), 3) + "%["@ + bar(d) + "]"@,
            colored(
                if percent(d) == 100 {
                    Color::Blue
                } else {
                    Color::Cyan
                },
            ),
        ),
        styled(speed_column(d), colored(Color::Green)),
        styled(pad_left(size_column(d), 8), colored(Color::DarkGray)),
        styled(pad_left(note(d), 12), colored(Color::Yellow)),
        styled(pad_left(peers(d), 10), colored(Color::Magenta)),
        styled("  "@ + clip(d.name, 42), unstyled()),
    ]
}

/// The style of the selected row of a list.
pub open spec fn selected_style() -> Style {
    bold_on(Color::White, Color::DarkGray)
}

/// The page of the downloads.
pub open spec fn downloads_page(s: AppView, area: Area) -> PlacedView {
    PlacedView {
        widget: if s.downloads.len() == 0 {
            WidgetView::Paragraph {
                text: TextView::Plain(
                    "\n  No downloads yet.\n\n  [a]  Add URL / magnet / .torrent\n  [s]  Search torrent sites\n  [?]  Show help"@,
                ),
                frame: Some(framed(" Downloads "@, unstyled())),
                style: colored(Color::DarkGray),
                wrap: None,
            }
        } else {
            WidgetView::List {
                rows: s.downloads.map_values(
                    |d: DownloadView| download_row(d, uppercase(d.status)),
                ),
                of: Listing::Downloads,
                block: framed(
                    " Downloads ("@ + decimal(s.downloads.len())
                        + ") │ p=pause  x=remove  c=clear  C=clear all history "@,
                    unstyled(),
                ),
                highlight: selected_style(),
                symbol: "▶ "@,
            }
        },
        area,
    }
}

/// The percentage column and the bar.
fn bar_cell(d: &Download, pct: u64) -> (s: String)
    requires
        pct as nat == percent(d@),
    ensures
        s@ == pad_left(decimal(percent(d@)), 3) + "%["@ + bar(d@) + "]"@,
{
    let cells: u64 = d.progress(24);
    let filled: usize = if cells <= 24 {
        cells as usize
    } else {
        24
    };
    let mut s = align_right(decimal_text(pct).as_str(), 3);
    s.append("%[");
    let mut b = String::new();
    push_repeated(&mut b, '█', filled);
    push_repeated(&mut b, '░', 24 - filled);
    proof {
        assert(b@ =~= bar(d@));
    }
    s.append(b.as_str());
    s.append("]");
    s
}

/// The speed column.
fn speed_cell(d: &Download) -> (s: String)
    ensures
        s@ == speed_column(d@),
{
    if d.dl_speed > 0 {
        let mut s = "↓".to_owned();
        s.append(align_right(fmt_spd(d.dl_speed).as_str(), 8).as_str());
        s
    } else {
        let mut s = String::new();
        push_repeated(&mut s, ' ', 9);
        proof {
            assert(s@ =~= repeated(' ', 9));
        }
        s
    }
}

/// The time that a running download still takes, or what is wrong with a failed one.
fn note_cell(d: &Download) -> (s: String)
    ensures
        s@ == note(d@),
{
    if same(d.status.as_str(), "active") && d.dl_speed > 0 {
        let mut s = " ETA:".to_owned();
        s.append(d.eta().as_str());
        s
    } else if same(d.status.as_str(), "error") && !d.error.as_str().is_empty() {
        let mut s = " ERR:".to_owned();
        s.append(take_chars(d.error.as_str(), 28).as_str());
        s
    } else {
        "".to_owned()
    }
}

/// The seeds and peers of a torrent, or the connections of another download.
fn peers_cell(d: &Download) -> (s: String)
    ensures
        s@ == peers(d@),
{
    if d.is_torrent && (d.seeds > 0 || d.conns > 0) {
        let mut s = " S:".to_owned();
        push_decimal(&mut s, d.seeds as u64);
        s.append(" P:");
        push_decimal(&mut s, d.conns as u64);
        s
    } else if d.conns > 0 {
        let mut s = " C:".to_owned();
        push_decimal(&mut s, d.conns as u64);
        s
    } else {
        "".to_owned()
    }
}

/// The size, where it is known.
fn size_cell(d: &Download) -> (s: String)
    ensures
        s@ == size_column(d@),
{
    if d.total > 0 {
        let mut s = " ".to_owned();
        s.append(fmt_b(d.total).as_str());
        s
    } else {
        "".to_owned()
    }
}

/// The row of a download, with its status in upper case.
pub fn render_download(d: &Download, state: &str) -> (row: Vec<Span>)
    ensures
        span_views(row@) == download_row(d@, state@),
{
    let pct: u64 = d.progress(100);
    let mut first = " ".to_owned();
    first.append(align_right(state, 8).as_str());
    first.append(" ");
    let mut last = "  ".to_owned();
    last.append(take_chars(d.name.as_str(), 42).as_str());
    let bar_color = if pct == 100 {
        Color::Blue
    } else {
        Color::Cyan
    };
    let row = vec![
        Span::styled(first, Style::strong(d.status_color())),
        Span::styled(bar_cell(d, pct), Style::color(bar_color)),
        Span::styled(speed_cell(d), Style::color(Color::Green)),
        Span::styled(align_right(size_cell(d).as_str(), 8), Style::color(Color::DarkGray)),
        Span::styled(align_right(note_cell(d).as_str(), 12), Style::color(Color::Yellow)),
        Span::styled(align_right(peers_cell(d).as_str(), 10), Style::color(Color::Magenta)),
        Span::styled(last, Style::none()),
    ];
    proof {
        assert(span_views(row@) =~= download_row(d@, state@));
    }
    row
}

/// The page of the downloads.
pub fn render_downloads(app: &App, area: Area) -> (p: Placed)
    ensures
        p@ == downloads_page(app@, area),
{
    if app.downloads.len() == 0 {
        return Placed {
            widget: Widget::Paragraph {
                text: Text::Plain(
                    "\n  No downloads yet.\n\n  [a]  Add URL / magnet / .torrent\n  [s]  Search torrent sites\n  [?]  Show help".to_owned(),
                ),
                frame: Some(Block::framed(" Downloads ", Style::none())),
                style: Style::color(Color::DarkGray),
                wrap: None,
            },
            area,
        };
    }
    let ghost row_of = |d: DownloadView| download_row(d, uppercase(d.status));
    let mut rows: Vec<Vec<Span>> = Vec::new();
    let mut i: usize = 0;
    while i < app.downloads.len()
        invariant
            i <= app.downloads@.len(),
            row_of == |d: DownloadView| download_row(d, uppercase(d.status)),
            row_views(rows@) == app@.downloads.take(i as int).map_values(row_of),
        decreases app.downloads@.len() - i,
    {
        let d = &app.downloads[i];
        let ghost before = rows@;
        rows.push(render_download(d, to_uppercase(d.status.as_str()).as_str()));
        proof {
            assert(row_views(rows@) =~= row_views(before).push(row_of(d@)));
            assert(app@.downloads.take(i + 1).map_values(row_of) =~= app@.downloads.take(
                i as int,
            ).map_values(row_of).push(row_of(d@)));
        }
        i = i + 1;
    }
    proof {
        assert(app@.downloads.take(i as int) =~= app@.downloads);
    }
    let mut title = " Downloads (".to_owned();
    push_decimal(&mut title, app.downloads.len() as u64);
    title.append(") │ p=pause  x=remove  c=clear  C=clear all history ");
    Placed {
        widget: Widget::List {
            rows,
            of: Listing::Downloads,
            block: Block::framed(title.as_str(), Style::none()),
            highlight: Style::strong_on(Color::White, Color::DarkGray),
            symbol: "▶ ".to_owned(),
        },
        area,
    }
}

// ---------------------------------------------------------------------------
// Search
// ---------------------------------------------------------------------------

/// The colour that tells how well a torrent is seeded.
pub open spec fn seeds_color(seeds: u32) -> Color {
    if seeds > 50 {
        Color::Green
    } else if seeds > 10 {
        Color::Yellow
    } else {
        Color::Red
    }
}

/// The row of a search result.
pub open spec fn result_row(r: ResultView) -> Seq<SpanView> {
    seq![
        styled(
            " "@ + pad_left(decimal(r.seeds as nat), 5) + "↑"@ + pad_left(
                decimal(r.leeches as nat),
                5,
            ) + "↓ "@,
            colored(seeds_color(r.seeds)),
        ),
        styled(pad_left(r.size, 8) + "  "@, colored(Color::Cyan)),
        styled(
            "["@ + pad_left(r.source, 6) + "] "@,
            colored(
                if r.source == "TPB"@ {
                    Color::Red
                } else {
                    Color::Blue
                },
            ),
        ),
        styled(pad_left(clip(r.category, 10), 10) + "  "@, colored(Color::Blue)),
        styled(r.name, unstyled()),
    ]
}

/// The lines that show what is searched for, and how. The query ends in a block while it
/// is typed.
pub open spec fn search_controls(s: AppView) -> Seq<LineView> {
    let typing = s.mode is Searching;
    seq![
        LineView::Spans(
            seq![
                styled(" Query  : "@, unstyled()),
                styled(
                    s.buf + if typing {
                        "█"@
                    } else {
                        ""@
                    },
                    colored(
                        if typing {
                            Color::Yellow
                        } else {
                            Color::White
                        },
                    ),
                ),
            ],
        ),
        LineView::Spans(
            seq![
                styled(" Engine : "@, unstyled()),
                styled(s.engine.name(), bold(Color::Magenta)),
                styled("    Category : "@, unstyled()),
                styled(s.category.name(), bold(Color::Cyan)),
            ],
        ),
        styled_line(
            "  [s] type query  [e] toggle engine  [Tab] cycle category  [Enter] search"@,
            colored(Color::DarkGray),
        ),
    ]
}

/// The upper part of the search page.
pub open spec fn search_head(s: AppView, area: Area) -> PlacedView {
    PlacedView {
        widget: WidgetView::Paragraph {
            text: TextView::Lines(search_controls(s)),
            frame: Some(
                framed(
                    " Search "@,
                    if s.mode is Searching {
                        colored(Color::Yellow)
                    } else {
                        unstyled()
                    },
                ),
            ),
            style: unstyled(),
            wrap: None,
        },
        area,
    }
}

/// The lower part of the search page: what was found.
pub open spec fn search_list(s: AppView, area: Area) -> PlacedView {
    PlacedView {
        widget: if s.results.len() == 0 {
            WidgetView::Paragraph {
                text: TextView::Plain("\n  Results will appear here."@),
                frame: Some(framed(" Results "@, unstyled())),
                style: colored(Color::DarkGray),
                wrap: None,
            }
        } else {
            WidgetView::List {
                rows: s.results.map_values(|r: ResultView| result_row(r)),
                of: Listing::Results,
                block: framed(
                    " Results ("@ + decimal(s.results.len()) + ") – Enter=Download "@,
                    unstyled(),
                ),
                highlight: selected_style(),
                symbol: "▶ "@,
            }
        },
        area,
    }
}

/// How the search page is divided.
pub open spec fn search_constraints() -> Seq<Constraint> {
    seq![Constraint::Length(5), Constraint::Min(0)]
}

/// The row of a search result.
fn render_result(r: &SearchResult) -> (row: Vec<Span>)
    ensures
        span_views(row@) == result_row(r@),
{
    let sc = if r.seeds > 50 {
        Color::Green
    } else if r.seeds > 10 {
        Color::Yellow
    } else {
        Color::Red
    };
    let src_clr = if same(r.source, "TPB") {
        Color::Red
    } else {
        Color::Blue
    };
    let mut counts = " ".to_owned();
    counts.append(align_right(decimal_text(r.seeds as u64).as_str(), 5).as_str());
    counts.append("↑");
    counts.append(align_right(decimal_text(r.leeches as u64).as_str(), 5).as_str());
    counts.append("↓ ");
    let mut size = align_right(r.size.as_str(), 8);
    size.append("  ");
    let mut source = "[".to_owned();
    source.append(align_right(r.source, 6).as_str());
    source.append("] ");
    let mut category = align_right(take_chars(r.category.as_str(), 10).as_str(), 10);
    category.append("  ");
    let row = vec![
        Span::styled(counts, Style::color(sc)),
        Span::styled(size, Style::color(Color::Cyan)),
        Span::styled(source, Style::color(src_clr)),
        Span::styled(category, Style::color(Color::Blue)),
        Span::raw(r.name.as_str()),
    ];
    proof {
        assert(span_views(row@) =~= result_row(r@));
    }
    row
}

/// The lines that show what is searched for, and how.
fn render_controls(app: &App) -> (lines: Vec<Line>)
    ensures
        line_views(lines@) == search_controls(app@),
{
    let typing = match app.mode {
        Mode::Searching => true,
        _ => false,
    };
    let mut query = app.buf.clone();
    query.append(
        if typing {
            "█"
        } else {
            ""
        },
    );
    let first = vec![
        Span::raw(" Query  : "),
        Span::styled(
            query,
            Style::color(
                if typing {
                    Color::Yellow
                } else {
                    Color::White
                },
            ),
        ),
    ];
    let second = vec![
        Span::raw(" Engine : "),
        Span::styled(app.engine.label().to_owned(), Style::strong(Color::Magenta)),
        Span::raw("    Category : "),
        Span::styled(app.category.label().to_owned(), Style::strong(Color::Cyan)),
    ];
    let ghost (a, b) = (span_views(first@), span_views(second@));
    let lines = vec![
        Line::Spans(first),
        Line::Spans(second),
        Line::styled(
            "  [s] type query  [e] toggle engine  [Tab] cycle category  [Enter] search",
            Style::color(Color::DarkGray),
        ),
    ];
    proof {
        assert(a =~= search_controls(app@)[0]->Spans_0);
        assert(b =~= search_controls(app@)[1]->Spans_0);
        assert(line_views(lines@) =~= search_controls(app@));
    }
    lines
}

/// The upper part of the search page.
pub fn render_search_head(app: &App, area: Area) -> (p: Placed)
    ensures
        p@ == search_head(app@, area),
{
    let border = match app.mode {
        Mode::Searching => Style::color(Color::Yellow),
        _ => Style::none(),
    };
    Placed {
        widget: Widget::Paragraph {
            text: Text::Lines(render_controls(app)),
            frame: Some(Block::framed(" Search ", border)),
            style: Style::none(),
            wrap: None,
        },
        area,
    }
}

/// The lower part of the search page: what was found.
pub fn render_search_list(app: &App, area: Area) -> (p: Placed)
    ensures
        p@ == search_list(app@, area),
{
    if app.results.len() == 0 {
        return Placed {
            widget: Widget::Paragraph {
                text: Text::Plain("\n  Results will appear here.".to_owned()),
                frame: Some(Block::framed(" Results ", Style::none())),
                style: Style::color(Color::DarkGray),
                wrap: None,
            },
            area,
        };
    }
    let ghost row_of = |r: ResultView| result_row(r);
    let mut rows: Vec<Vec<Span>> = Vec::new();
    let mut i: usize = 0;
    while i < app.results.len()
        invariant
            i <= app.results@.len(),
            row_of == |r: ResultView| result_row(r),
            row_views(rows@) == app@.results.take(i as int).map_values(row_of),
        decreases app.results@.len() - i,
    {
        let r = &app.results[i];
        let ghost before = rows@;
        rows.push(render_result(r));
        proof {
            assert(row_views(rows@) =~= row_views(before).push(row_of(r@)));
            assert(app@.results.take(i + 1).map_values(row_of) =~= app@.results.take(
                i as int,
            ).map_values(row_of).push(row_of(r@)));
        }
        i = i + 1;
    }
    proof {
        assert(app@.results.take(i as int) =~= app@.results);
    }
    let mut title = " Results (".to_owned();
    push_decimal(&mut title, app.results.len() as u64);
    title.append(") – Enter=Download ");
    Placed {
        widget: Widget::List {
            rows,
            of: Listing::Results,
            block: Block::framed(title.as_str(), Style::none()),
            highlight: Style::strong_on(Color::White, Color::DarkGray),
            symbol: "▶ ".to_owned(),
        },
        area,
    }
}

/// Whether the search page may stand so in an area: the two parts, one below the other.
pub open spec fn may_show_search(s: AppView, area: Area, shown: Seq<PlacedView>) -> bool {
    exists|parts: Seq<Area>|
        #![trigger divided(Direction::Vertical, search_constraints(), area, parts)]
        divided(Direction::Vertical, search_constraints(), area, parts) && shown == seq![
            search_head(s, parts[0]),
            search_list(s, parts[1]),
        ]
}

/// The search page.
pub fn render_search(app: &App, area: Area) -> (shown: Vec<Placed>)
    ensures
        may_show_search(app@, area, placed_views(shown@)),
{
    let constraints = vec![Constraint::Length(5), Constraint::Min(0)];
    proof {
        assert(constraints@ =~= search_constraints());
    }
    let chunks = split_area(Direction::Vertical, &constraints, area);
    let shown = vec![render_search_head(app, chunks[0]), render_search_list(app, chunks[1])];
    proof {
        assert(placed_views(shown@) =~= seq![
            search_head(app@, chunks@[0]),
            search_list(app@, chunks@[1]),
        ]);
        assert(divided(Direction::Vertical, search_constraints(), area, chunks@));
    }
    shown
}

// ---------------------------------------------------------------------------
// Settings
// ---------------------------------------------------------------------------

/// The list of the keys on the settings page.
pub const KEY_REFERENCE: &'static str = "\n\
    \n\
    \x20 ── Global ─────────────────────────────────────────────────\n\
    \x20 q / Ctrl+C   Quit             ?   Toggle help overlay\n\
    \x20 a            Add URL / magnet / .torrent URL\n\
    \x20 s            Search (opens Search tab and starts typing)\n\
    \x20 r            Refresh trackers now\n\
    \x20 1 / 2 / 3    Switch tabs\n\
    \n\
    \x20 ── Downloads tab ──────────────────────────────────────────\n\
    \x20 ↑ ↓ / j k    Navigate        p   Pause / Resume\n\
    \x20 x            Force remove    c   Clear selected from history\n\
    \x20 C            Clear ALL completed / error entries\n\
    \n\
    \x20 ── Search tab ─────────────────────────────────────────────\n\
    \x20 s            Type query       Enter   Download selected\n\
    \x20 e            Toggle engine    Tab     Cycle category\n\
    \n\
    \x20 ── Settings tab ───────────────────────────────────────────\n\
    \x20 l            Set speed limits (KB/s; 0 = unlimited)\n";

/// The text of the settings page: where downloads go, how many trackers are known, the
/// speed limits, and the keys.
pub open spec fn settings_text(s: AppView) -> Seq<char> {
    "\n  Download dir   : "@ + s.dl_dir + "\n  Trackers       : "@ + decimal(s.trackers.len())
        + " loaded  (auto-refreshed hourly from 4 sources)\n  Download limit : "@ + limit_text(
        s.limits.dl_bps,
        "Unlimited"@,
    ) + "      Upload limit: "@ + limit_text(s.limits.ul_bps, "Unlimited"@) + KEY_REFERENCE@
}

/// The settings page.
pub open spec fn settings_page(s: AppView, area: Area) -> PlacedView {
    PlacedView {
        widget: WidgetView::Paragraph {
            text: TextView::Plain(settings_text(s)),
            frame: Some(framed(" Settings & Key Reference "@, unstyled())),
            style: unstyled(),
            wrap: Some(false),
        },
        area,
    }
}

/// The settings page.
pub fn render_settings(app: &App, area: Area) -> (p: Placed)
    ensures
        p@ == settings_page(app@, area),
{
    let mut text = "\n  Download dir   : ".to_owned();
    text.append(app.dl_dir.as_str());
    text.append("\n  Trackers       : ");
    push_decimal(&mut text, app.trackers.len() as u64);
    text.append(" loaded  (auto-refreshed hourly from 4 sources)\n  Download limit : ");
    text.append(fmt_limit(app.limits.dl_bps, "Unlimited").as_str());
    text.append("      Upload limit: ");
    text.append(fmt_limit(app.limits.ul_bps, "Unlimited").as_str());
    text.append(KEY_REFERENCE);
    Placed {
        widget: Widget::Paragraph {
            text: Text::Plain(text),
            frame: Some(Block::framed(" Settings & Key Reference ", Style::none())),
            style: Style::none(),
            wrap: Some(false),
        },
        area,
    }
}

// ---------------------------------------------------------------------------
// Overlays
// ---------------------------------------------------------------------------

/// The share of the height, in per cent, that is left free above an overlay of `h` rows;
/// nought where the overlay is as high as the area or higher.
pub open spec fn free_above(h: u16, height: u16) -> u16 {
    let wanted: int = if h * 100 <= u16::MAX {
        h * 100
    } else {
        u16::MAX as int
    };
    let share = wanted / (if height > 0 {
        height as int
    } else {
        1
    });
    if share <= 100 {
        ((100 - share) / 2) as u16
    } else {
        0
    }
}

/// How an area is divided into rows for an overlay of `h` rows.
pub open spec fn popup_rows(h: u16, area: Area) -> Seq<Constraint> {
    seq![
        Constraint::Percentage(free_above(h, area.height)),
        Constraint::Length(h),
        Constraint::Min(0),
    ]
}

/// How an area is divided into columns for an overlay that takes `pct_w` per cent of the
/// width.
pub open spec fn popup_columns(pct_w: u16) -> Seq<Constraint> {
    let side = ((100 - pct_w) / 2) as u16;
    seq![
        Constraint::Percentage(side),
        Constraint::Percentage(pct_w),
        Constraint::Percentage(side),
    ]
}

/// Whether a place is in the middle of the middle when an area is divided in rows and
/// the middle row in columns.
pub open spec fn may_be_centered(pct_w: u16, h: u16, area: Area, popup: Area) -> bool {
    exists|rows: Seq<Area>, columns: Seq<Area>|
        #![trigger divided(Direction::Vertical, popup_rows(h, area), area, rows), divided(Direction::Horizontal, popup_columns(pct_w), rows[1], columns)]
        divided(Direction::Vertical, popup_rows(h, area), area, rows) && divided(
            Direction::Horizontal,
            popup_columns(pct_w),
            rows[1],
            columns,
        ) && popup == columns[1]
}

/// A place for an overlay in the middle of an area: `h` rows high, or less where the area
/// is lower, and `pct_w` per cent wide.
pub fn centered(pct_w: u16, h: u16, area: Area) -> (popup: Area)
    requires
        pct_w <= 100,
    ensures
        may_be_centered(pct_w, h, area, popup),
        inside(popup, area),
        popup.height <= h,
{
    let wanted: u16 = if h <= u16::MAX / 100 {
        h * 100
    } else {
        u16::MAX
    };
    let height: u16 = if area.height > 0 {
        area.height
    } else {
        1
    };
    let above: u16 = 100u16.saturating_sub(wanted / height) / 2;
    let side: u16 = (100 - pct_w) / 2;
    let rows = vec![Constraint::Percentage(above), Constraint::Length(h), Constraint::Min(0)];
    let columns = vec![
        Constraint::Percentage(side),
        Constraint::Percentage(pct_w),
        Constraint::Percentage(side),
    ];
    proof {
        assert(rows@ =~= popup_rows(h, area));
        assert(columns@ =~= popup_columns(pct_w));
    }
    let vert = split_area(Direction::Vertical, &rows, area);
    let horiz = split_area(Direction::Horizontal, &columns, vert[1]);
    proof {
        assert(divided(Direction::Vertical, popup_rows(h, area), area, vert@));
        assert(divided(Direction::Horizontal, popup_columns(pct_w), vert@[1], horiz@));
    }
    horiz[1]
}

/// An overlay: what was drawn below it is cleared, then its text is drawn.
pub open spec fn overlay(
    text: TextView,
    title: Seq<char>,
    border: Color,
    trim: bool,
    popup: Area,
) -> Seq<PlacedView> {
    seq![
        PlacedView { widget: WidgetView::Clear, area: popup },
        PlacedView {
            widget: WidgetView::Paragraph {
                text,
                frame: Some(framed(title, colored(border))),
                style: unstyled(),
                wrap: Some(trim),
            },
            area: popup,
        },
    ]
}

/// An overlay at a place.
fn place_overlay(text: Text, title: &str, border: Color, trim: bool, popup: Area) -> (shown: Vec<
    Placed,
>)
    ensures
        placed_views(shown@) == overlay(text@, title@, border, trim, popup),
{
    let shown = vec![
        Placed { widget: Widget::Clear, area: popup },
        Placed {
            widget: Widget::Paragraph {
                text,
                frame: Some(Block::framed(title, Style::color(border))),
                style: Style::none(),
                wrap: Some(trim),
            },
            area: popup,
        },
    ];
    proof {
        assert(placed_views(shown@) =~= overlay(text@, title@, border, trim, popup));
    }
    shown
}

/// The overlay in which an address is typed, at a place.
pub open spec fn add_overlay(s: AppView, popup: Area) -> Seq<PlacedView> {
    overlay(
        TextView::Plain(s.buf + "_"@),
        " Add Download — URL / magnet:? / .torrent URL  (Enter=confirm  Esc=cancel) "@,
        Color::Yellow,
        true,
        popup,
    )
}

/// The overlay in which an address is typed, at a place.
pub fn add_overlay_at(app: &App, popup: Area) -> (shown: Vec<Placed>)
    ensures
        placed_views(shown@) == add_overlay(app@, popup),
{
    place_overlay(
        Text::Plain(labelled(app.buf.as_str(), "_")),
        " Add Download — URL / magnet:? / .torrent URL  (Enter=confirm  Esc=cancel) ",
        Color::Yellow,
        true,
        popup,
    )
}

/// The overlay in which an address is typed.
pub fn render_add_overlay(app: &App, area: Area) -> (shown: Vec<Placed>)
    ensures
        exists|popup: Area| #[trigger]
            may_be_centered(82, 5, area, popup) && placed_views(shown@) == add_overlay(
                app@,
                popup,
            ),
{
    add_overlay_at(app, centered(82, 5, area))
}

/// A speed limit in the overlay: what is typed, where it is this one, or what is set.
pub open spec fn limit_value(s: AppView, typed: bool, bps: u64) -> SpanView {
    if typed {
        styled(s.buf + "_"@, bold(Color::Yellow))
    } else {
        styled(limit_text(bps, "0  (unlimited)"@), colored(Color::Gray))
    }
}

/// The text of the overlay in which the speed limits are typed.
pub open spec fn speed_lines(s: AppView, field: u8) -> Seq<LineView> {
    seq![
        raw_line(""@),
        LineView::Spans(
            seq![
                styled("  Download limit (KB/s, 0=unlimited) : "@, unstyled()),
                limit_value(s, field == 0, s.limits.dl_bps),
            ],
        ),
        raw_line(""@),
        LineView::Spans(
            seq![
                styled("  Upload   limit (KB/s, 0=unlimited) : "@, unstyled()),
                limit_value(s, field == 1, s.limits.ul_bps),
            ],
        ),
        raw_line(""@),
        raw_line(""@),
        styled_line(
            "  Tab = switch field    Enter = apply    Esc = cancel"@,
            colored(Color::DarkGray),
        ),
    ]
}

/// The overlay in which the speed limits are typed, at a place.
pub open spec fn speed_overlay(s: AppView, field: u8, popup: Area) -> Seq<PlacedView> {
    overlay(
        TextView::Lines(speed_lines(s, field)),
        " Speed Limits "@,
        Color::Cyan,
        false,
        popup,
    )
}

/// A speed limit in the overlay.
fn limit_span(app: &App, typed: bool, bps: u64) -> (s: Span)
    ensures
        s@ == limit_value(app@, typed, bps),
{
    if typed {
        Span::styled(labelled(app.buf.as_str(), "_"), Style::strong(Color::Yellow))
    } else {
        Span::styled(fmt_limit(bps, "0  (unlimited)"), Style::color(Color::Gray))
    }
}

/// The overlay in which the speed limits are typed, at a place.
pub fn speed_overlay_at(app: &App, field: u8, popup: Area) -> (shown: Vec<Placed>)
    ensures
        placed_views(shown@) == speed_overlay(app@, field, popup),
{
    let download = vec![
        Span::raw("  Download limit (KB/s, 0=unlimited) : "),
        limit_span(app, field == 0, app.limits.dl_bps),
    ];
    let upload = vec![
        Span::raw("  Upload   limit (KB/s, 0=unlimited) : "),
        limit_span(app, field == 1, app.limits.ul_bps),
    ];
    let ghost (a, b) = (span_views(download@), span_views(upload@));
    let content = vec![
        Line::raw(""),
        Line::Spans(download),
        Line::raw(""),
        Line::Spans(upload),
        Line::raw(""),
        Line::raw(""),
        Line::styled(
            "  Tab = switch field    Enter = apply    Esc = cancel",
            Style::color(Color::DarkGray),
        ),
    ];
    proof {
        assert(a =~= speed_lines(app@, field)[1]->Spans_0);
        assert(b =~= speed_lines(app@, field)[3]->Spans_0);
        assert(line_views(content@) =~= speed_lines(app@, field));
    }
    place_overlay(Text::Lines(content), " Speed Limits ", Color::Cyan, false, popup)
}

/// The overlay in which the speed limits are typed.
pub fn render_speed_overlay(app: &App, area: Area, field: u8) -> (shown: Vec<Placed>)
    ensures
        exists|popup: Area| #[trigger]
            may_be_centered(60, 9, area, popup) && placed_views(shown@) == speed_overlay(
                app@,
                field,
                popup,
            ),
{
    speed_overlay_at(app, field, centered(60, 9, area))
}

/// The text of a question, the answer that Enter gives highlighted.
pub open spec fn confirm_lines(kind: ConfirmView, no_sel: bool) -> Seq<LineView> {
    seq![
        raw_line(""@),
        raw_line(prompt_text(kind)),
        raw_line(""@),
        LineView::Spans(
            seq![
                styled("           "@, unstyled()),
                styled(
                    "  Yes  "@,
                    if !no_sel {
                        bold_on(Color::Black, Color::Green)
                    } else {
                        colored(Color::DarkGray)
                    },
                ),
                styled("        "@, unstyled()),
                styled(
                    "  No  "@,
                    if no_sel {
                        bold_on(Color::Black, Color::Red)
                    } else {
                        colored(Color::DarkGray)
                    },
                ),
            ],
        ),
        styled_line(
            "  ← → / y / n  •  Enter = confirm  •  Esc = cancel"@,
            colored(Color::DarkGray),
        ),
    ]
}

/// The overlay that asks a question, at a place.
pub open spec fn confirm_overlay(kind: ConfirmView, no_sel: bool, popup: Area) -> Seq<PlacedView> {
    overlay(
        TextView::Lines(confirm_lines(kind, no_sel)),
        " Confirm "@,
        Color::Yellow,
        false,
        popup,
    )
}

/// The overlay that asks a question, at a place.
pub fn confirm_overlay_at(kind: &ConfirmKind, no_sel: bool, popup: Area) -> (shown: Vec<Placed>)
    ensures
        placed_views(shown@) == confirm_overlay(kind@, no_sel, popup),
{
    let yes_sty = if !no_sel {
        Style::strong_on(Color::Black, Color::Green)
    } else {
        Style::color(Color::DarkGray)
    };
    let no_sty = if no_sel {
        Style::strong_on(Color::Black, Color::Red)
    } else {
        Style::color(Color::DarkGray)
    };
    let answers = vec![
        Span::raw("           "),
        Span::styled("  Yes  ".to_owned(), yes_sty),
        Span::raw("        "),
        Span::styled("  No  ".to_owned(), no_sty),
    ];
    let ghost a = span_views(answers@);
    let content = vec![
        Line::raw(""),
        Line::raw(kind.prompt().as_str()),
        Line::raw(""),
        Line::Spans(answers),
        Line::styled(
            "  ← → / y / n  •  Enter = confirm  •  Esc = cancel",
            Style::color(Color::DarkGray),
        ),
    ];
    proof {
        assert(a =~= confirm_lines(kind@, no_sel)[3]->Spans_0);
        assert(line_views(content@) =~= confirm_lines(kind@, no_sel));
    }
    place_overlay(Text::Lines(content), " Confirm ", Color::Yellow, false, popup)
}

/// The overlay that asks a question.
pub fn render_confirm(area: Area, kind: &ConfirmKind, no_sel: bool) -> (shown: Vec<Placed>)
    ensures
        exists|popup: Area| #[trigger]
            may_be_centered(62, 7, area, popup) && placed_views(shown@) == confirm_overlay(
                kind@,
                no_sel,
                popup,
            ),
{
    confirm_overlay_at(kind, no_sel, centered(62, 7, area))
}

/// The text of the help.
pub open spec fn help_lines() -> Seq<LineView> {
    seq![
        raw_line(""@),
        styled_line("  GLOBAL"@, bold(Color::Yellow)),
        raw_line("  q / Ctrl+C    Quit                  ?   Toggle this help"@),
        raw_line("  1 / 2 / 3     Switch tabs            r   Refresh trackers now"@),
        raw_line("  a             Add URL / magnet / .torrent URL"@),
        raw_line(""@),
        styled_line("  DOWNLOADS TAB"@, bold(Color::Yellow)),
        raw_line("  ↑ ↓  /  j k   Navigate list         p   Pause / Resume"@),
        raw_line("  x             Force-remove entry    c   Clear selected from history"@),
        raw_line("  C             Clear ALL history entries"@),
        raw_line(""@),
        styled_line("  SEARCH TAB"@, bold(Color::Yellow)),
        raw_line("  s             Start typing query    Enter   Download selected"@),
        raw_line("  e             Toggle engine (TPB ↔ Knaben)"@),
        raw_line("  Tab           Cycle category  All→Video→Audio→Software→Games→Books"@),
        raw_line(""@),
        styled_line("  SETTINGS TAB"@, bold(Color::Yellow)),
        raw_line("  l             Set global speed limits (KB/s; 0 = unlimited)"@),
        raw_line(""@),
        styled_line("  SUPPORTED URL TYPES"@, bold(Color::Yellow)),
        raw_line("  http(s)://…   Direct download"@),
        raw_line("  magnet:?…     BitTorrent magnet link"@),
        raw_line("  https://….torrent   Remote .torrent file"@),
        raw_line(""@),
        styled_line("  Press [?] or [Esc] to close this overlay"@, colored(Color::DarkGray)),
    ]
}

/// The help, at a place.
pub open spec fn help_overlay(popup: Area) -> Seq<PlacedView> {
    overlay(TextView::Lines(help_lines()), " Help "@, Color::Cyan, false, popup)
}

/// The help, at a place.
pub fn help_overlay_at(popup: Area) -> (shown: Vec<Placed>)
    ensures
        placed_views(shown@) == help_overlay(popup),
{
    let h = Style::strong(Color::Yellow);
    let d = Style::color(Color::DarkGray);
    let content = vec![
        Line::raw(""),
        Line::styled("  GLOBAL", h),
        Line::raw("  q / Ctrl+C    Quit                  ?   Toggle this help"),
        Line::raw("  1 / 2 / 3     Switch tabs            r   Refresh trackers now"),
        Line::raw("  a             Add URL / magnet / .torrent URL"),
        Line::raw(""),
        Line::styled("  DOWNLOADS TAB", h),
        Line::raw("  ↑ ↓  /  j k   Navigate list         p   Pause / Resume"),
        Line::raw("  x             Force-remove entry    c   Clear selected from history"),
        Line::raw("  C             Clear ALL history entries"),
        Line::raw(""),
        Line::styled("  SEARCH TAB", h),
        Line::raw("  s             Start typing query    Enter   Download selected"),
        Line::raw("  e             Toggle engine (TPB ↔ Knaben)"),
        Line::raw("  Tab           Cycle category  All→Video→Audio→Software→Games→Books"),
        Line::raw(""),
        Line::styled("  SETTINGS TAB", h),
        Line::raw("  l             Set global speed limits (KB/s; 0 = unlimited)"),
        Line::raw(""),
        Line::styled("  SUPPORTED URL TYPES", h),
        Line::raw("  http(s)://…   Direct download"),
        Line::raw("  magnet:?…     BitTorrent magnet link"),
        Line::raw("  https://….torrent   Remote .torrent file"),
        Line::raw(""),
        Line::styled("  Press [?] or [Esc] to close this overlay", d),
    ];
    proof {
        assert(line_views(content@) =~= help_lines());
    }
    place_overlay(Text::Lines(content), " Help ", Color::Cyan, false, popup)
}

/// The help.
pub fn render_help(area: Area) -> (shown: Vec<Placed>)
    ensures
        exists|popup: Area| #[trigger]
            may_be_centered(68, 26, area, popup) && placed_views(shown@) == help_overlay(popup),
{
    help_overlay_at(centered(68, 26, area))
}

// ---------------------------------------------------------------------------
// The whole screen
// ---------------------------------------------------------------------------

/// The names of the pages in the tab bar.
pub open spec fn tab_titles() -> Seq<Seq<char>> {
    seq!["[1] Downloads"@, "[2] Search"@, "[3] Settings"@]
}

/// The tab bar.
pub open spec fn tab_bar(s: AppView, area: Area) -> PlacedView {
    PlacedView {
        widget: WidgetView::Tabs {
            titles: tab_titles(),
            selected: s.tab.place(),
            block: BlockView {
                title: styled(" ⬇  torfile "@, bold(Color::Cyan)),
                border: unstyled(),
            },
            highlight: bold(Color::Yellow),
            divider: "  "@,
        },
        area,
    }
}

/// The status bar: the message, the overall speeds, and how many downloads run.
pub open spec fn status_bar(s: AppView, area: Area) -> PlacedView {
    PlacedView {
        widget: WidgetView::Paragraph {
            text: TextView::Plain(
                " "@ + s.status + " │ ↓"@ + speed_text(s.global_dl as nat) + " ↑"@ + speed_text(
                    s.global_ul as nat,
                ) + " │ active:"@ + decimal(s.active_cnt as nat) + " │ [?]Help"@,
            ),
            frame: None,
            style: colored(Color::DarkGray),
            wrap: None,
        },
        area,
    }
}

/// How the screen is divided: the tab bar, the page, and the status bar.
pub open spec fn root_constraints() -> Seq<Constraint> {
    seq![Constraint::Length(3), Constraint::Min(0), Constraint::Length(1)]
}

/// Whether the page may stand so in an area.
pub open spec fn may_show_page(s: AppView, area: Area, shown: Seq<PlacedView>) -> bool {
    match s.tab {
        Tab::Downloads => shown == seq![downloads_page(s, area)],
        Tab::Search => may_show_search(s, area, shown),
        Tab::Settings => shown == seq![settings_page(s, area)],
    }
}

/// Whether the overlay that the mode asks for, if any, may stand so on the screen.
pub open spec fn may_show_overlay(s: AppView, area: Area, shown: Seq<PlacedView>) -> bool {
    match s.mode {
        ModeView::AddUrl => exists|popup: Area| #[trigger]
            may_be_centered(82, 5, area, popup) && shown == add_overlay(s, popup),
        ModeView::Confirm(kind, no) => exists|popup: Area| #[trigger]
            may_be_centered(62, 7, area, popup) && shown == confirm_overlay(kind, no, popup),
        ModeView::SpeedLimit { field } => exists|popup: Area| #[trigger]
            may_be_centered(60, 9, area, popup) && shown == speed_overlay(s, field, popup),
        _ => shown == Seq::<PlacedView>::empty(),
    }
}

/// Whether the help, where it is open, may stand so on the screen.
pub open spec fn may_show_help(s: AppView, area: Area, shown: Seq<PlacedView>) -> bool {
    if s.show_help {
        exists|popup: Area| #[trigger]
            may_be_centered(68, 26, area, popup) && shown == help_overlay(popup)
    } else {
        shown == Seq::<PlacedView>::empty()
    }
}

/// Whether a state may be shown so on the screen: the tab bar, the page, the status bar,
/// and on top the overlays, the help last.
pub open spec fn may_show(s: AppView, area: Area, shown: Seq<PlacedView>) -> bool {
    exists|root: Seq<Area>, page: Seq<PlacedView>, over: Seq<PlacedView>, help: Seq<PlacedView>|
        #![trigger divided(Direction::Vertical, root_constraints(), area, root), may_show_page(s, root[1], page), may_show_overlay(s, area, over), may_show_help(s, area, help)]
        divided(Direction::Vertical, root_constraints(), area, root) && may_show_page(
            s,
            root[1],
            page,
        ) && may_show_overlay(s, area, over) && may_show_help(s, area, help) && shown == seq![
            tab_bar(s, root[0]),
        ] + page + seq![status_bar(s, root[2])] + over + help
}

/// The tab bar.
pub fn render_tabs(app: &App, area: Area) -> (p: Placed)
    ensures
        p@ == tab_bar(app@, area),
{
    let titles = vec![
        "[1] Downloads".to_owned(),
        "[2] Search".to_owned(),
        "[3] Settings".to_owned(),
    ];
    proof {
        assert(texts(titles@) =~= tab_titles());
    }
    Placed {
        widget: Widget::Tabs {
            titles,
            selected: app.tab.index(),
            block: Block {
                title: Span::styled(" ⬇  torfile ".to_owned(), Style::strong(Color::Cyan)),
                border: Style::none(),
            },
            highlight: Style::strong(Color::Yellow),
            divider: "  ".to_owned(),
        },
        area,
    }
}

/// The status bar.
pub fn render_status(app: &App, area: Area) -> (p: Placed)
    ensures
        p@ == status_bar(app@, area),
{
    let mut status = " ".to_owned();
    status.append(app.status.as_str());
    status.append(" │ ↓");
    status.append(fmt_spd(app.global_dl).as_str());
    status.append(" ↑");
    status.append(fmt_spd(app.global_ul).as_str());
    status.append(" │ active:");
    push_decimal(&mut status, app.active_cnt as u64);
    status.append(" │ [?]Help");
    Placed {
        widget: Widget::Paragraph {
            text: Text::Plain(status),
            frame: None,
            style: Style::color(Color::DarkGray),
            wrap: None,
        },
        area,
    }
}

/// One widget alone.
fn alone(p: Placed) -> (v: Vec<Placed>)
    ensures
        placed_views(v@) == seq![p@],
{
    let v = vec![p];
    proof {
        assert(placed_views(v@) =~= seq![p@]);
    }
    v
}

/// No widget.
fn nothing() -> (v: Vec<Placed>)
    ensures
        placed_views(v@) == Seq::<PlacedView>::empty(),
{
    let v: Vec<Placed> = Vec::new();
    proof {
        assert(placed_views(v@) =~= Seq::<PlacedView>::empty());
    }
    v
}

/// What the state shows on a screen of this area, in the order in which it is drawn.
pub fn render(app: &App, area: Area) -> (shown: Vec<Placed>)
    ensures
        may_show(app@, area, placed_views(shown@)),
{
    let constraints = vec![Constraint::Length(3), Constraint::Min(0), Constraint::Length(1)];
    proof {
        assert(constraints@ =~= root_constraints());
    }
    let root = split_area(Direction::Vertical, &constraints, area);
    let mut shown = alone(render_tabs(app, root[0]));
    let mut page = match app.tab {
        Tab::Downloads => alone(render_downloads(app, root[1])),
        Tab::Search => render_search(app, root[1]),
        Tab::Settings => alone(render_settings(app, root[1])),
    };
    let mut status = alone(render_status(app, root[2]));
    let mut over = match &app.mode {
        Mode::AddUrl => render_add_overlay(app, area),
        Mode::Confirm(kind, no) => render_confirm(area, kind, *no),
        Mode::SpeedLimit { field } => render_speed_overlay(app, area, *field),
        _ => nothing(),
    };
    let mut help = if app.show_help {
        render_help(area)
    } else {
        nothing()
    };
    let ghost (a, b, c, d, e) = (shown@, page@, status@, over@, help@);
    shown.append(&mut page);
    shown.append(&mut status);
    shown.append(&mut over);
    shown.append(&mut help);
    proof {
        assert(shown@ =~= a + b + c + d + e);
        assert(placed_views(shown@) =~= placed_views(a) + placed_views(b) + placed_views(c)
            + placed_views(d) + placed_views(e));
        assert(divided(Direction::Vertical, root_constraints(), area, root@));
        assert(may_show_page(app@, root@[1], placed_views(b)));
        assert(may_show_overlay(app@, area, placed_views(d)));
        assert(may_show_help(app@, area, placed_views(e)));
    }
    shown
}

}
