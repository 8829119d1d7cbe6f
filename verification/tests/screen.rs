use torfile::app::{App, BgMsg, ConfirmKind, Mode, SpeedLimits, Tab};
use torfile::download::Download;
use torfile::render::{centered, render, render_add_overlay, render_confirm, render_download, render_downloads, render_help, render_search, render_settings, render_speed_overlay};
use torfile::screen::{Area, Block, Color, Line, Listing, Placed, Span, Style, Text, Widget};
use torfile::search::SearchResult;

const SCREEN: Area = Area { x: 0, y: 0, width: 100, height: 40 };

fn start() -> App {
    App::new("/dl".to_string())
}

fn download() -> Download {
    Download {
        gid: "1".to_string(),
        name: "ubuntu.iso".to_string(),
        status: "active".to_string(),
        dl_speed: 1_048_576,
        ul_speed: 0,
        total: 1_073_741_824,
        done: 536_870_912,
        seeds: 12,
        conns: 3,
        error: String::new(),
        is_torrent: true,
    }
}

fn span(text: &str, style: Style) -> Span {
    Span { text: text.to_string(), style }
}

fn row_text(row: &[Span]) -> String {
    row.iter().map(|s| s.text.as_str()).collect()
}

fn paragraph(p: &Placed) -> (&Text, &Option<Block>, Style, Option<bool>) {
    match &p.widget {
        Widget::Paragraph { text, frame, style, wrap } => (text, frame, *style, *wrap),
        _ => panic!("no paragraph"),
    }
}

fn plain_text(p: &Placed) -> &str {
    match paragraph(p).0 {
        Text::Plain(s) => s,
        Text::Lines(_) => panic!("lines"),
    }
}

fn line_texts(p: &Placed) -> Vec<String> {
    match paragraph(p).0 {
        Text::Plain(_) => panic!("no lines"),
        Text::Lines(lines) => lines
            .iter()
            .map(|l| match l {
                Line::Plain(s) => s.text.clone(),
                Line::Spans(v) => row_text(v),
            })
            .collect(),
    }
}

fn title(p: &Placed) -> &str {
    match &p.widget {
        Widget::Paragraph { frame: Some(b), .. } => &b.title.text,
        Widget::List { block, .. } => &block.title.text,
        _ => panic!("no title"),
    }
}

#[test]
fn a_row_of_a_download() {
    let row = render_download(&download(), "ACTIVE");
    assert_eq!(
        row,
        [
            span("   ACTIVE ", Style::strong(Color::Green)),
            span(" 50%[████████████░░░░░░░░░░░░]", Style::color(Color::Cyan)),
            span("↓    1M/s", Style::color(Color::Green)),
            span("    1.0G", Style::color(Color::DarkGray)),
            span("   ETA:08:32", Style::color(Color::Yellow)),
            span("  S:12 P:3", Style::color(Color::Magenta)),
            span("  ubuntu.iso", Style::none()),
        ]
    );
}

#[test]
fn a_row_of_a_failed_download() {
    let mut d = download();
    d.status = "error".to_string();
    d.error = "e".repeat(40);
    d.dl_speed = 0;
    d.total = 0;
    d.is_torrent = false;
    d.name = "n".repeat(50);
    let row = render_download(&d, "ERROR");
    assert_eq!(row[0], span("    ERROR ", Style::strong(Color::Red)));
    assert_eq!(row[1].text, "  0%[░░░░░░░░░░░░░░░░░░░░░░░░]");
    assert_eq!(row[2].text, "         ");
    assert_eq!(row[3].text, "        ");
    assert_eq!(row[4].text, format!(" ERR:{}", "e".repeat(28)));
    assert_eq!(row[5].text, "       C:3");
    assert_eq!(row[6].text, format!("  {}", "n".repeat(42)));
    d.conns = 0;
    d.error = String::new();
    let row = render_download(&d, "ERROR");
    assert_eq!(row[4].text, "            ");
    assert_eq!(row[5].text, "          ");
}

#[test]
fn bars_are_twenty_four_wide() {
    for (done, total, pct, color) in
        [(0, 5, "  0%", Color::Cyan), (5, 5, "100%", Color::Blue), (9, 5, "180%", Color::Cyan), (u64::MAX, 1, "18446744073709551615%", Color::Cyan)]
    {
        let mut d = download();
        d.done = done;
        d.total = total;
        let cell = &render_download(&d, "")[1];
        assert!(cell.text.starts_with(pct));
        assert_eq!(cell.text.chars().filter(|c| *c == '█' || *c == '░').count(), 24);
        assert_eq!(cell.style, Style::color(color));
    }
}

#[test]
fn the_page_of_the_downloads() {
    let mut app = start();
    let p = render_downloads(&app, SCREEN);
    assert_eq!(p.area, SCREEN);
    assert_eq!(
        plain_text(&p),
        "\n  No downloads yet.\n\n  [a]  Add URL / magnet / .torrent\n  [s]  Search torrent sites\n  [?]  Show help"
    );
    assert_eq!(title(&p), " Downloads ");
    assert_eq!(paragraph(&p).2, Style::color(Color::DarkGray));
    let mut waiting = download();
    waiting.status = "straße".to_string();
    app.drain(vec![BgMsg::Downloads(vec![download(), waiting])]);
    let p = render_downloads(&app, SCREEN);
    assert_eq!(title(&p), " Downloads (2) │ p=pause  x=remove  c=clear  C=clear all history ");
    match p.widget {
        Widget::List { rows, of, highlight, symbol, .. } => {
            assert_eq!(rows.len(), 2);
            assert_eq!(rows[0], render_download(&download(), "ACTIVE"));
            assert_eq!(rows[1][0], span("  STRASSE ", Style::strong(Color::Gray)));
            assert_eq!(of, Listing::Downloads);
            assert_eq!(highlight, Style::strong_on(Color::White, Color::DarkGray));
            assert_eq!(symbol, "▶ ");
        }
        _ => panic!("no list"),
    }
}

#[test]
fn the_search_page() {
    let mut app = start();
    app.buf = "que".to_string();
    let shown = render_search(&app, SCREEN);
    assert_eq!(shown.len(), 2);
    assert_eq!(shown[0].area, Area { x: 0, y: 0, width: 100, height: 5 });
    assert_eq!(shown[1].area, Area { x: 0, y: 5, width: 100, height: 35 });
    assert_eq!(
        line_texts(&shown[0]),
        [
            " Query  : que",
            " Engine : ThePirateBay    Category : All",
            "  [s] type query  [e] toggle engine  [Tab] cycle category  [Enter] search",
        ]
    );
    assert_eq!(paragraph(&shown[0]).1.as_ref().unwrap().border, Style::none());
    assert_eq!(plain_text(&shown[1]), "\n  Results will appear here.");
    app.mode = Mode::Searching;
    let shown = render_search(&app, SCREEN);
    assert_eq!(line_texts(&shown[0])[0], " Query  : que█");
    assert_eq!(paragraph(&shown[0]).1.as_ref().unwrap().border, Style::color(Color::Yellow));
}

#[test]
fn rows_of_search_results() {
    let mut app = start();
    let result = |seeds: u32, source: &'static str| SearchResult {
        name: "movie".to_string(),
        magnet: String::new(),
        size: "1.5G".to_string(),
        seeds,
        leeches: 7,
        category: "Television HD".to_string(),
        source,
    };
    app.results = vec![result(51, "TPB"), result(50, "Knaben"), result(10, "TPB")];
    let list = render_search(&app, SCREEN).pop().unwrap();
    assert_eq!(title(&list), " Results (3) – Enter=Download ");
    match list.widget {
        Widget::List { rows, of, .. } => {
            assert_eq!(of, Listing::Results);
            assert_eq!(
                rows[0],
                [
                    span("    51↑    7↓ ", Style::color(Color::Green)),
                    span("    1.5G  ", Style::color(Color::Cyan)),
                    span("[   TPB] ", Style::color(Color::Red)),
                    span("Television  ", Style::color(Color::Blue)),
                    span("movie", Style::none()),
                ]
            );
            assert_eq!(rows[1][0].style, Style::color(Color::Yellow));
            assert_eq!(rows[1][2], span("[Knaben] ", Style::color(Color::Blue)));
            assert_eq!(rows[2][0].style, Style::color(Color::Red));
        }
        _ => panic!("no list"),
    }
}

#[test]
fn the_settings_page() {
    let mut app = start();
    app.trackers = vec!["t".to_string()];
    app.limits = SpeedLimits { dl_bps: 1_048_576, ul_bps: 0 };
    let p = render_settings(&app, SCREEN);
    let text = plain_text(&p);
    let mut lines = text.split('\n');
    assert_eq!(lines.next(), Some(""));
    assert_eq!(lines.next(), Some("  Download dir   : /dl"));
    assert_eq!(lines.next(), Some("  Trackers       : 1 loaded  (auto-refreshed hourly from 4 sources)"));
    assert_eq!(lines.next(), Some("  Download limit : 1M/s      Upload limit: Unlimited"));
    assert_eq!(lines.next(), Some(""));
    assert_eq!(lines.next(), Some("  ── Global ─────────────────────────────────────────────────"));
    assert_eq!(lines.next(), Some("  q / Ctrl+C   Quit             ?   Toggle help overlay"));
    assert!(text.ends_with("  l            Set speed limits (KB/s; 0 = unlimited)\n"));
    assert_eq!(text.matches('\n').count(), 23);
    assert_eq!(title(&p), " Settings & Key Reference ");
    assert_eq!(paragraph(&p).3, Some(false));
}

#[test]
fn places_in_the_middle() {
    assert_eq!(centered(60, 10, Area { x: 0, y: 0, width: 100, height: 40 }), Area { x: 20, y: 15, width: 60, height: 10 });
    let low = centered(82, 26, Area { x: 0, y: 0, width: 50, height: 10 });
    assert_eq!((low.y, low.height), (0, 10));
    let none = centered(100, 5, Area { x: 0, y: 0, width: 0, height: 0 });
    assert_eq!((none.width, none.height), (0, 0));
    let tall = centered(50, u16::MAX, Area { x: 0, y: 0, width: 10, height: 10 });
    assert_eq!((tall.y, tall.height), (0, 10));
}

#[test]
fn the_overlay_for_addresses() {
    let mut app = start();
    app.buf = "http://".to_string();
    let shown = render_add_overlay(&app, SCREEN);
    assert_eq!(shown[0].widget, Widget::Clear);
    assert_eq!(shown[0].area, centered(82, 5, SCREEN));
    assert_eq!(shown[1].area, shown[0].area);
    assert_eq!(plain_text(&shown[1]), "http://_");
    assert_eq!(title(&shown[1]), " Add Download — URL / magnet:? / .torrent URL  (Enter=confirm  Esc=cancel) ");
    assert_eq!(paragraph(&shown[1]).1.as_ref().unwrap().border, Style::color(Color::Yellow));
    assert_eq!(paragraph(&shown[1]).3, Some(true));
}

#[test]
fn the_overlay_for_speed_limits() {
    let mut app = start();
    app.buf = "51".to_string();
    app.limits = SpeedLimits { dl_bps: 0, ul_bps: 2048 };
    let shown = render_speed_overlay(&app, SCREEN, 0);
    assert_eq!(shown[0].area, centered(60, 9, SCREEN));
    assert_eq!(
        line_texts(&shown[1]),
        [
            "",
            "  Download limit (KB/s, 0=unlimited) : 51_",
            "",
            "  Upload   limit (KB/s, 0=unlimited) : 2K/s",
            "",
            "",
            "  Tab = switch field    Enter = apply    Esc = cancel",
        ]
    );
    let shown = render_speed_overlay(&app, SCREEN, 1);
    let lines = line_texts(&shown[1]);
    assert_eq!(lines[1], "  Download limit (KB/s, 0=unlimited) : 0  (unlimited)");
    assert_eq!(lines[3], "  Upload   limit (KB/s, 0=unlimited) : 51_");
    match paragraph(&shown[1]).0 {
        Text::Lines(v) => {
            assert!(matches!(&v[1], Line::Spans(s) if s[1].style == Style::color(Color::Gray)));
            assert!(matches!(&v[3], Line::Spans(s) if s[1].style == Style::strong(Color::Yellow)));
        }
        Text::Plain(_) => panic!("no lines"),
    }
}

#[test]
fn questions_highlight_an_answer() {
    let answers = |no: bool| {
        let shown = render_confirm(SCREEN, &ConfirmKind::ClearAll, no);
        assert_eq!(shown[0].area, centered(62, 7, SCREEN));
        assert_eq!(title(&shown[1]), " Confirm ");
        let lines = line_texts(&shown[1]);
        assert_eq!(lines[1], "Clear ALL completed / error entries from history?");
        assert_eq!(lines[3], "             Yes            No  ");
        assert_eq!(lines[4], "  ← → / y / n  •  Enter = confirm  •  Esc = cancel");
        match paragraph(&shown[1]).0 {
            Text::Lines(v) => match &v[3] {
                Line::Spans(s) => (s[1].style, s[3].style),
                Line::Plain(_) => panic!("one text"),
            },
            Text::Plain(_) => panic!("no lines"),
        }
    };
    let off = Style::color(Color::DarkGray);
    assert_eq!(answers(false), (Style::strong_on(Color::Black, Color::Green), off));
    assert_eq!(answers(true), (off, Style::strong_on(Color::Black, Color::Red)));
}

#[test]
fn the_help() {
    let shown = render_help(SCREEN);
    assert_eq!(shown[1].area, centered(68, 26, SCREEN));
    let lines = line_texts(&shown[1]);
    assert_eq!(lines.len(), 25);
    assert_eq!(lines[1], "  GLOBAL");
    assert_eq!(lines[14], "  Tab           Cycle category  All→Video→Audio→Software→Games→Books");
    assert_eq!(lines[24], "  Press [?] or [Esc] to close this overlay");
}

#[test]
fn the_whole_screen() {
    let mut app = start();
    app.drain(vec![BgMsg::Stats { dl: 2048, ul: 0, active: 3 }, BgMsg::Status("hi".to_string())]);
    let shown = render(&app, SCREEN);
    assert_eq!(shown.len(), 3);
    assert_eq!(shown[0].area, Area { x: 0, y: 0, width: 100, height: 3 });
    assert_eq!(shown[1], render_downloads(&app, Area { x: 0, y: 3, width: 100, height: 36 }));
    assert_eq!(shown[2].area, Area { x: 0, y: 39, width: 100, height: 1 });
    assert_eq!(plain_text(&shown[2]), " hi │ ↓2K/s ↑ │ active:3 │ [?]Help");
    match &shown[0].widget {
        Widget::Tabs { titles, selected, block, highlight, divider } => {
            assert_eq!(*titles, ["[1] Downloads", "[2] Search", "[3] Settings"]);
            assert_eq!(*selected, 0);
            assert_eq!(block.title, span(" ⬇  torfile ", Style::strong(Color::Cyan)));
            assert_eq!(*highlight, Style::strong(Color::Yellow));
            assert_eq!(divider, "  ");
        }
        _ => panic!("no tabs"),
    }
}

#[test]
fn overlays_are_drawn_last() {
    let mut app = start();
    app.tab = Tab::Search;
    app.mode = Mode::AddUrl;
    app.show_help = true;
    let shown = render(&app, SCREEN);
    assert_eq!(shown.len(), 8);
    assert_eq!(shown[4..6], render_add_overlay(&app, SCREEN)[..]);
    assert_eq!(shown[6..8], render_help(SCREEN)[..]);
    app.show_help = false;
    app.tab = Tab::Settings;
    app.mode = Mode::SpeedLimit { field: 1 };
    assert_eq!(render(&app, SCREEN)[3..], render_speed_overlay(&app, SCREEN, 1)[..]);
    app.mode = Mode::Confirm(ConfirmKind::ClearAll, true);
    assert_eq!(render(&app, SCREEN)[3..], render_confirm(SCREEN, &ConfirmKind::ClearAll, true)[..]);
    app.mode = Mode::Searching;
    assert_eq!(render(&app, SCREEN).len(), 3);
    assert!(matches!(render(&app, SCREEN)[0].widget, Widget::Tabs { selected: 2, .. }));
}

#[test]
fn nothing_is_drawn_beyond_the_screen() {
    for (width, height) in [(0, 0), (1, 1), (7, 3), (20, 5), (80, 24), (300, 90), (65535, 65535)] {
        let area = Area { x: 0, y: 0, width, height };
        for tab in [Tab::Downloads, Tab::Search, Tab::Settings] {
            for mode in [Mode::Normal, Mode::AddUrl, Mode::SpeedLimit { field: 0 }, Mode::Confirm(ConfirmKind::ClearAll, true)] {
                let mut app = start();
                app.tab = tab;
                app.mode = mode;
                app.show_help = true;
                for p in render(&app, area) {
                    assert!(p.area.x as u32 + p.area.width as u32 <= width as u32);
                    assert!(p.area.y as u32 + p.area.height as u32 <= height as u32);
                }
            }
        }
    }
    let moved = Area { x: 10, y: 20, width: 30, height: 8 };
    let popup = centered(60, 9, moved);
    assert!(popup.x >= 10 && popup.y >= 20 && popup.x + popup.width <= 40 && popup.y + popup.height <= 28);
}

#[test]
fn overlays_are_no_higher_than_asked_for() {
    for height in 0..200u16 {
        for h in [0, 1, 5, 7, 9, 26, 99, 150, 700, u16::MAX] {
            for y in [0, 3] {
                let area = Area { x: 1, y, width: 77, height };
                let popup = centered(62, h, area);
                assert!(popup.height <= h && popup.height <= height);
            }
        }
    }
}

#[test]
fn rows_of_the_screen() {
    for height in 9..300u16 {
        let mut app = start();
        app.tab = Tab::Search;
        let shown = render(&app, Area { x: 2, y: 1, width: 33, height });
        let places: Vec<(u16, u16, u16, u16)> =
            shown.iter().map(|p| (p.area.x, p.area.y, p.area.width, p.area.height)).collect();
        assert_eq!(places, [(2, 1, 33, 3), (2, 4, 33, 5), (2, 9, 33, height - 9), (2, height, 33, 1)]);
    }
}
