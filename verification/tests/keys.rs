use torfile::app::{after_get, after_read, AddPlan, AddState, App, BgMsg, ConfirmKind, Fetched, Mode, SpeedLimits, Tab};
use torfile::aria2::Aria2;
use torfile::download::Download;
use torfile::json::Json;
use torfile::keys::{fmt_limit, Action, Key, KeyEvent};
use torfile::search::{make_magnet, Category, Engine, SearchResult};

fn press(app: &mut App, key: Key) -> Action {
    let ev = KeyEvent { key, control: false, press: true };
    assert!(app.admits(ev));
    app.handle_key(ev)
}

fn type_text(app: &mut App, text: &str) {
    for c in text.chars() {
        assert_eq!(press(app, Key::Char(c)), Action::Nothing);
    }
}

fn start() -> App {
    App::new("/home/u/Downloads".to_string())
}

fn download(gid: &str, name: &str, status: &str) -> Download {
    Download {
        gid: gid.to_string(),
        name: name.to_string(),
        status: status.to_string(),
        dl_speed: 0,
        ul_speed: 0,
        total: 0,
        done: 0,
        seeds: 0,
        conns: 0,
        error: String::new(),
        is_torrent: false,
    }
}

fn with_downloads() -> App {
    let mut app = start();
    app.drain(vec![BgMsg::Downloads(vec![download("1", "one", "active"), download("2", "two", "paused")])]);
    app
}

fn text(s: &str) -> Json {
    Json::Str(s.to_string())
}

fn method_and_params(body: Json) -> (Json, Json) {
    match body {
        Json::Object(mut fields) => {
            let params = fields.pop().unwrap().1;
            let method = fields.pop().unwrap().1;
            (method, params)
        }
        _ => panic!("no call"),
    }
}

#[test]
fn the_start() {
    let app = start();
    assert_eq!(app.status, "Connecting to aria2… │ [?] Help");
    assert_eq!(app.dl_dir, "/home/u/Downloads");
    assert_eq!(app.mode, Mode::Normal);
    assert_eq!(app.tab, Tab::Downloads);
    assert_eq!(app.engine, Engine::Tpb);
    assert_eq!(app.category, Category::All);
    assert_eq!(app.limits, SpeedLimits::default());
    assert_eq!((app.dl_sel, app.res_sel), (None, None));
    assert!(!app.show_help);
}

#[test]
fn messages_change_their_own_fields() {
    let mut app = start();
    app.drain(vec![
        BgMsg::Downloads(vec![download("1", "a", "x"), download("2", "b", "x")]),
        BgMsg::Stats { dl: 1, ul: 2, active: 3 },
        BgMsg::Trackers(vec!["udp://t".to_string()]),
        BgMsg::Status("hello".to_string()),
        BgMsg::Downloads(vec![download("3", "c", "x")]),
    ]);
    assert_eq!(app.downloads, [download("3", "c", "x")]);
    assert_eq!((app.global_dl, app.global_ul, app.active_cnt), (1, 2, 3));
    assert_eq!(app.trackers, ["udp://t"]);
    assert_eq!(app.status, "hello");
    let before = start();
    let mut same = start();
    same.drain(vec![]);
    assert_eq!(same, before);
}

#[test]
fn leaving_the_program() {
    assert_eq!(press(&mut start(), Key::Char('q')), Action::Quit);
    let ctrl_c = KeyEvent { key: Key::Char('c'), control: true, press: true };
    for key in ['a', 's', '?', 'C'] {
        let mut app = start();
        press(&mut app, Key::Char(key));
        assert_eq!(app.handle_key(ctrl_c), Action::Quit);
    }
    let mut app = start();
    press(&mut app, Key::Char('a'));
    assert_eq!(press(&mut app, Key::Char('q')), Action::Nothing);
    assert_eq!(app.buf, "q");
}

#[test]
fn only_presses_count() {
    let mut app = start();
    assert_eq!(app.handle_key(KeyEvent { key: Key::Char('q'), control: false, press: false }), Action::Nothing);
    assert_eq!(app.handle_key(KeyEvent { key: Key::Char('c'), control: true, press: false }), Action::Nothing);
    assert_eq!(app, start());
}

#[test]
fn help_takes_the_keys() {
    let mut app = start();
    press(&mut app, Key::Char('?'));
    assert!(app.show_help);
    assert_eq!(press(&mut app, Key::Char('q')), Action::Nothing);
    press(&mut app, Key::Char('2'));
    assert_eq!(app.tab, Tab::Downloads);
    press(&mut app, Key::Esc);
    assert_eq!(app, start());
    press(&mut app, Key::Char('?'));
    press(&mut app, Key::Char('?'));
    assert_eq!(app, start());
}

#[test]
fn pages() {
    let mut app = start();
    for (key, tab) in [('2', Tab::Search), ('3', Tab::Settings), ('1', Tab::Downloads)] {
        press(&mut app, Key::Char(key));
        assert_eq!(app.tab, tab);
    }
    press(&mut app, Key::Other);
    press(&mut app, Key::Left);
    assert_eq!(app, start());
}

#[test]
fn escape_leaves_every_mode() {
    let mut app = start();
    press(&mut app, Key::Char('a'));
    type_text(&mut app, "abc");
    press(&mut app, Key::Esc);
    assert_eq!((app.mode, app.buf, app.status), (Mode::Normal, String::new(), "Cancelled.".to_string()));
    let mut app = start();
    press(&mut app, Key::Char('s'));
    type_text(&mut app, "abc");
    press(&mut app, Key::Esc);
    assert_eq!(app.mode, Mode::Normal);
    assert_eq!(app.buf, "abc");
    assert_eq!(app.status, "[a]=add  [s]=search  [?]=help");
    let mut app = start();
    press(&mut app, Key::Char('3'));
    press(&mut app, Key::Char('l'));
    type_text(&mut app, "7");
    press(&mut app, Key::Esc);
    assert_eq!(app.mode, Mode::Normal);
    assert_eq!(app.limits, SpeedLimits::default());
    let mut app = start();
    press(&mut app, Key::Char('C'));
    assert_eq!(press(&mut app, Key::Esc), Action::Nothing);
    assert_eq!((app.mode, app.status), (Mode::Normal, "Cancelled.".to_string()));
}

#[test]
fn typing_an_address() {
    let mut app = start();
    press(&mut app, Key::Char('2'));
    press(&mut app, Key::Char('a'));
    assert_eq!(app.mode, Mode::AddUrl);
    type_text(&mut app, " http://x/yz");
    press(&mut app, Key::Backspace);
    press(&mut app, Key::Up);
    let action = press(&mut app, Key::Enter);
    assert_eq!(action, Action::Add { uri: "http://x/y".to_string(), name: None });
    assert_eq!(app.mode, Mode::Normal);
    assert_eq!(app.buf, "");
    app.finish(&action, None);
    assert_eq!(app.status, "✓ Added");
    assert_eq!(app.tab, Tab::Downloads);
    app.finish(&action, Some("no".to_string()));
    assert_eq!(app.status, "✗ no");
}

#[test]
fn an_empty_address_cancels() {
    let mut app = start();
    press(&mut app, Key::Char('a'));
    type_text(&mut app, " \u{3000} ");
    assert_eq!(press(&mut app, Key::Enter), Action::Nothing);
    assert_eq!((app.mode, app.buf, app.status), (Mode::Normal, String::new(), "Cancelled.".to_string()));
}

#[test]
fn searching() {
    let mut app = start();
    press(&mut app, Key::Char('s'));
    assert_eq!(app.tab, Tab::Search);
    assert_eq!(app.status, "Type query and press Enter…");
    type_text(&mut app, "big buck");
    let action = press(&mut app, Key::Enter);
    assert_eq!(
        action,
        Action::Search { engine: Engine::Tpb, url: "https://apibay.org/q.php?q=big%20buck&cat=0".to_string() }
    );
    assert_eq!(app.status, "Searching \"big buck\" on ThePirateBay…");
    assert_eq!(app.buf, "big buck");
    let before = app.status.clone();
    app.finish(&action, None);
    assert_eq!(app.status, before);
    app.finish(&action, Some("down".to_string()));
    assert_eq!(app.status, "✗ Search failed: down");
    let mut app = start();
    press(&mut app, Key::Char('s'));
    assert_eq!(press(&mut app, Key::Enter), Action::Nothing);
    assert_eq!(app.mode, Mode::Normal);
    assert_eq!(app.status, "Type query and press Enter…");
}

#[test]
fn search_settings_cycle() {
    let mut app = start();
    press(&mut app, Key::Char('e'));
    press(&mut app, Key::Tab);
    assert_eq!(app, start());
    press(&mut app, Key::Char('2'));
    press(&mut app, Key::Char('e'));
    assert_eq!(app.engine, Engine::Knaben);
    assert_eq!(app.status, "Engine: Knaben");
    press(&mut app, Key::Tab);
    assert_eq!(app.category, Category::Video);
    assert_eq!(app.status, "Category: Video");
    press(&mut app, Key::Char('s'));
    type_text(&mut app, "x");
    assert_eq!(
        press(&mut app, Key::Enter),
        Action::Search {
            engine: Engine::Knaben,
            url: "https://knaben.eu/api/v1/search?q=x&categories=video&size=60&from=0&orderBy=seeders&orderDirection=desc"
                .to_string()
        }
    );
    for _ in 0..5 {
        press(&mut app, Key::Tab);
    }
    press(&mut app, Key::Char('e'));
    assert_eq!((app.engine, app.category), (Engine::Tpb, Category::All));
}

#[test]
fn results_are_taken_in() {
    let mut app = start();
    app.trackers = vec!["udp://t".to_string()];
    let entry = |name: &str, seeds: &str| {
        Json::Object(vec![("name".to_string(), text(name)), ("seeders".to_string(), text(seeds))])
    };
    app.found_tpb(&vec![entry("a", "1"), entry("b", "9"), entry("c", "1")]);
    let names: Vec<&str> = app.results.iter().map(|r| r.name.as_str()).collect();
    assert_eq!(names, ["b", "a", "c"]);
    assert_eq!(app.results[0].magnet, make_magnet("", "b", &app.trackers));
    assert_eq!(app.status, "3 results │ ↑↓ nav  Enter=DL  e=engine  Tab=category");
    app.found_knaben(&Json::Null);
    assert_eq!(app.results, Vec::<SearchResult>::new());
    assert_eq!(app.status, "0 results │ ↑↓ nav  Enter=DL  e=engine  Tab=category");
}

#[test]
fn a_result_is_downloaded() {
    let mut app = start();
    app.found_tpb(&vec![Json::Object(vec![("name".to_string(), text("movie"))])]);
    press(&mut app, Key::Char('2'));
    assert_eq!(press(&mut app, Key::Enter), Action::Nothing);
    press(&mut app, Key::Down);
    assert_eq!(app.res_sel, Some(0));
    let action = press(&mut app, Key::Enter);
    assert_eq!(
        action,
        Action::Add { uri: make_magnet("", "movie", &Vec::new()), name: Some("movie".to_string()) }
    );
    app.finish(&action, None);
    assert_eq!(app.status, "✓ Added: movie");
    assert_eq!(app.tab, Tab::Downloads);
    press(&mut app, Key::Char('2'));
    press(&mut app, Key::Char('j'));
    assert_eq!(press(&mut app, Key::Enter), Action::Nothing);
}

#[test]
fn moving_in_lists() {
    let mut app = with_downloads();
    press(&mut app, Key::Up);
    assert_eq!(app.dl_sel, Some(usize::MAX));
    press(&mut app, Key::Down);
    assert_eq!(app.dl_sel, Some(usize::MAX));
    app.drawn(Some(1), None);
    assert_eq!((app.dl_sel, app.res_sel), (Some(1), None));
    press(&mut app, Key::Char('k'));
    press(&mut app, Key::Char('k'));
    assert_eq!(app.dl_sel, Some(0));
    press(&mut app, Key::Char('j'));
    assert_eq!(app.dl_sel, Some(1));
    press(&mut app, Key::Char('3'));
    press(&mut app, Key::Down);
    assert_eq!((app.dl_sel, app.res_sel), (Some(1), None));
}

#[test]
fn pausing_and_resuming() {
    let mut app = with_downloads();
    assert_eq!(press(&mut app, Key::Char('p')), Action::Nothing);
    press(&mut app, Key::Down);
    assert_eq!(app.selected_download().map(|d| d.gid.as_str()), Some("1"));
    assert_eq!(press(&mut app, Key::Char('p')), Action::Pause { gid: "1".to_string() });
    assert_eq!(app.status, "⏸ Paused: one");
    press(&mut app, Key::Down);
    assert_eq!(press(&mut app, Key::Char('p')), Action::Resume { gid: "2".to_string() });
    assert_eq!(app.status, "▶ Resumed: two");
    assert_eq!(press(&mut app, Key::Char('x')), Action::Remove { gid: "2".to_string() });
    assert_eq!(app.status, "✗ Removed: two");
    press(&mut app, Key::Down);
    assert_eq!(press(&mut app, Key::Char('x')), Action::Nothing);
    assert_eq!(app.status, "✗ Removed: two");
}

#[test]
fn refreshing_the_trackers() {
    let mut app = start();
    assert_eq!(press(&mut app, Key::Char('r')), Action::RefreshTrackers);
    assert_eq!(app.status, "Refreshing trackers…");
}

#[test]
fn clearing_one_entry() {
    let mut app = with_downloads();
    press(&mut app, Key::Char('c'));
    assert_eq!(app.status, "Select an item first (↑ ↓).");
    press(&mut app, Key::Up);
    press(&mut app, Key::Char('c'));
    assert_eq!(app.status, "No item selected.");
    app.drawn(Some(0), None);
    press(&mut app, Key::Char('c'));
    let kind = || ConfirmKind::ClearOne { gid: "1".to_string(), name: "one".to_string() };
    assert_eq!(app.mode, Mode::Confirm(kind(), false));
    assert_eq!(kind().prompt(), "Remove \"one\" from history?");
    press(&mut app, Key::Right);
    assert_eq!(app.mode, Mode::Confirm(kind(), true));
    press(&mut app, Key::Char('y'));
    let action = press(&mut app, Key::Enter);
    assert_eq!(action, Action::Clear(kind()));
    app.finish(&action, None);
    assert_eq!(app.status, "✓ Cleared: one");
    app.finish(&action, Some("e".to_string()));
    assert_eq!(app.status, "✗ e");
}

#[test]
fn clearing_the_history_needs_a_yes() {
    let mut app = start();
    press(&mut app, Key::Char('C'));
    assert_eq!(app.mode, Mode::Confirm(ConfirmKind::ClearAll, true));
    assert_eq!(ConfirmKind::ClearAll.prompt(), "Clear ALL completed / error entries from history?");
    assert_eq!(press(&mut app, Key::Enter), Action::Nothing);
    assert_eq!((app.mode, app.status), (Mode::Normal, "Cancelled.".to_string()));
    let mut app = start();
    press(&mut app, Key::Char('C'));
    press(&mut app, Key::Left);
    press(&mut app, Key::Char('n'));
    press(&mut app, Key::Left);
    let action = press(&mut app, Key::Enter);
    assert_eq!(action, Action::Clear(ConfirmKind::ClearAll));
    app.finish(&action, None);
    assert_eq!(app.status, "✓ History cleared.");
    let mut app = start();
    press(&mut app, Key::Char('2'));
    press(&mut app, Key::Char('C'));
    press(&mut app, Key::Char('c'));
    assert_eq!(app.mode, Mode::Normal);
}

#[test]
fn long_names_are_cut_in_questions() {
    let kind = ConfirmKind::ClearOne { gid: String::new(), name: "é".repeat(60) };
    assert_eq!(kind.prompt(), format!("Remove \"{}\" from history?", "é".repeat(50)));
}

#[test]
fn speed_limits_by_keys() {
    let mut app = start();
    press(&mut app, Key::Char('l'));
    assert_eq!(app.mode, Mode::Normal);
    press(&mut app, Key::Char('3'));
    press(&mut app, Key::Char('l'));
    assert_eq!(app.mode, Mode::SpeedLimit { field: 0 });
    type_text(&mut app, "5x1-2");
    assert_eq!(app.buf, "512");
    press(&mut app, Key::Tab);
    assert_eq!(app.mode, Mode::SpeedLimit { field: 1 });
    assert_eq!(app.buf, "");
    type_text(&mut app, "20");
    let action = press(&mut app, Key::Enter);
    assert_eq!(action, Action::ApplyLimits);
    assert_eq!(app.limits, SpeedLimits { dl_bps: 512 * 1024, ul_bps: 20 * 1024 });
    app.finish(&action, None);
    assert_eq!(app.status, "✓ Speed limits applied: ↓512K/s ↑20K/s");
    press(&mut app, Key::Char('l'));
    let action = press(&mut app, Key::Enter);
    assert_eq!(app.limits, SpeedLimits { dl_bps: 0, ul_bps: 20 * 1024 });
    app.finish(&action, None);
    assert_eq!(app.status, "✓ Speed limits applied: ↓∞ ↑20K/s");
    app.finish(&action, Some("e".to_string()));
    assert_eq!(app.status, "✗ e");
}

#[test]
fn speed_limits_that_do_not_fit() {
    let mut app = start();
    press(&mut app, Key::Char('3'));
    press(&mut app, Key::Char('l'));
    type_text(&mut app, "18014398509481983");
    assert!(app.typed_limit_fits());
    press(&mut app, Key::Backspace);
    type_text(&mut app, "4");
    assert!(!app.typed_limit_fits());
    for key in [Key::Tab, Key::Enter] {
        assert!(!app.admits(KeyEvent { key, control: false, press: true }));
        assert!(app.admits(KeyEvent { key, control: false, press: false }));
    }
    assert!(app.admits(KeyEvent { key: Key::Esc, control: false, press: true }));
    // A number beyond sixty-four bits counts as none at all.
    app.buf = "99999999999999999999999".to_string();
    assert!(app.typed_limit_fits());
    press(&mut app, Key::Tab);
    assert_eq!(app.limits.dl_bps, 0);
}

#[test]
fn limits_as_the_user_reads_them() {
    assert_eq!(fmt_limit(0, "Unlimited"), "Unlimited");
    assert_eq!(fmt_limit(1_048_576, "Unlimited"), "1M/s");
}

#[test]
fn how_downloads_are_added() {
    let app = start();
    let uri = |s: &str| AddPlan::Uri(s.to_string());
    assert_eq!(app.add(" http://h/file.iso\n"), uri("http://h/file.iso"));
    assert_eq!(app.add("magnet:?xt=urn:btih:X&dn=a.torrent"), uri("magnet:?xt=urn:btih:X&dn=a.torrent"));
    assert_eq!(app.add("sftp://h/x"), uri("sftp://h/x"));
    assert_eq!(app.add("https://h/x.torrent"), AddPlan::RemoteTorrent("https://h/x.torrent".to_string()));
    assert_eq!(app.add("https://h/x.torrent?k"), AddPlan::RemoteTorrent("https://h/x.torrent?k".to_string()));
    assert_eq!(app.add("https://h/torrent/1"), AddPlan::RemoteTorrent("https://h/torrent/1".to_string()));
    assert_eq!(app.add("/tmp/x.torrent "), AddPlan::LocalTorrent("/tmp/x.torrent".to_string()));
    assert_eq!(app.add("https://h/x.torrents"), uri("https://h/x.torrents"));
    // Only what ends as a torrent file does is looked for on the disk.
    assert_eq!(app.add("a/torrent/b"), AddPlan::RemoteTorrent("a/torrent/b".to_string()));
    assert_eq!(app.add("/data/x.torrent?k"), AddPlan::RemoteTorrent("/data/x.torrent?k".to_string()));
    let link = make_magnet("X", "/torrent/ a.torrent", &vec!["udp://t/x.torrent".to_string()]);
    assert_eq!(app.add(&link), uri(&link));
}

#[test]
fn what_is_sent_to_add_a_download() {
    let aria2 = Aria2::new("u", None);
    let mut app = start();
    let dir = || ("dir".to_string(), text("/home/u/Downloads"));
    assert_eq!(app.opts(), Json::Object(vec![dir()]));
    app.trackers = vec!["a".to_string(), "b".to_string()];
    let opts = || Json::Object(vec![dir(), ("bt-tracker".to_string(), text("a,b"))]);
    assert_eq!(app.opts(), opts());
    assert_eq!(
        method_and_params(app.add_request(&aria2, "http://x", None)),
        (text("aria2.addUri"), Json::Array(vec![Json::Array(vec![text("http://x")]), opts()]))
    );
    assert_eq!(
        method_and_params(app.add_request(&aria2, "x.torrent", Some(b"d4:".to_vec()))),
        (text("aria2.addTorrent"), Json::Array(vec![text("ZDQ6"), Json::Array(vec![]), opts()]))
    );
}

#[test]
fn what_is_sent_for_an_action() {
    let aria2 = Aria2::new("u", None);
    let mut app = start();
    app.limits = SpeedLimits { dl_bps: 1024, ul_bps: 0 };
    let gid = || "7".to_string();
    let calls = [
        (Action::Pause { gid: gid() }, "aria2.pause", vec![text("7")]),
        (Action::Resume { gid: gid() }, "aria2.unpause", vec![text("7")]),
        (Action::Remove { gid: gid() }, "aria2.forceRemove", vec![text("7")]),
        (
            Action::Clear(ConfirmKind::ClearOne { gid: gid(), name: "n".to_string() }),
            "aria2.removeDownloadResult",
            vec![text("7")],
        ),
        (Action::Clear(ConfirmKind::ClearAll), "aria2.purgeDownloadResult", vec![]),
        (
            Action::ApplyLimits,
            "aria2.changeGlobalOption",
            vec![Json::Object(vec![
                ("max-overall-download-limit".to_string(), text("1024")),
                ("max-overall-upload-limit".to_string(), text("0")),
            ])],
        ),
    ];
    for (action, method, params) in calls {
        let body = app.request_for(&aria2, &action).unwrap();
        assert_eq!(method_and_params(body), (text(method), Json::Array(params)));
    }
    assert_eq!(app.request_for(&aria2, &Action::Nothing), None);
    assert_eq!(app.request_for(&aria2, &Action::Quit), None);
    assert_eq!(app.request_for(&aria2, &Action::Add { uri: gid(), name: None }), None);
    app.limits = SpeedLimits::default();
    assert_eq!(app.apply_limits(&aria2), app.request_for(&aria2, &Action::ApplyLimits).unwrap());
}

#[test]
fn messages_in_two_parts() {
    let first = || vec![BgMsg::Status("a".to_string()), BgMsg::Trackers(vec!["t".to_string()])];
    let second = || vec![BgMsg::Status("b".to_string())];
    let mut at_once = start();
    at_once.drain(first().into_iter().chain(second()).collect());
    let mut in_parts = start();
    in_parts.drain(first());
    in_parts.drain(second());
    assert_eq!(at_once, in_parts);
    assert_eq!(at_once.status, "b");
    assert_eq!(at_once.trackers, ["t"]);
}

#[test]
fn keys_leave_the_data() {
    let mut app = with_downloads();
    app.drain(vec![BgMsg::Stats { dl: 1, ul: 2, active: 3 }, BgMsg::Trackers(vec!["t".to_string()])]);
    for c in "jpxr2eks1cy\u{e9}3l9".chars() {
        press(&mut app, Key::Char(c));
        press(&mut app, Key::Esc);
    }
    assert_eq!(app.downloads, with_downloads().downloads);
    assert_eq!(app.trackers, ["t"]);
    assert_eq!((app.global_dl, app.global_ul, app.active_cnt), (1, 2, 3));
    assert_eq!(app.dl_dir, "/home/u/Downloads");
}

#[test]
fn backspace_takes_back() {
    let mut app = start();
    press(&mut app, Key::Char('s'));
    press(&mut app, Key::Backspace);
    assert_eq!(app.buf, "");
    type_text(&mut app, "né");
    press(&mut app, Key::Backspace);
    assert_eq!(app.buf, "n");
}

#[test]
fn down_and_up_undo_each_other() {
    let mut app = with_downloads();
    app.drawn(Some(0), Some(3));
    press(&mut app, Key::Down);
    press(&mut app, Key::Up);
    assert_eq!((app.dl_sel, app.res_sel), (Some(0), Some(3)));
}

#[test]
fn what_a_torrent_file_leads_to() {
    let t = || "x.torrent".to_string();
    assert_eq!(AddPlan::Uri(t()).begin(), AddState::Send(t(), None));
    assert_eq!(AddPlan::LocalTorrent(t()).begin(), AddState::Read(t()));
    assert_eq!(AddPlan::RemoteTorrent(t()).begin(), AddState::Get(t()));
    assert_eq!(after_read(t(), Some(vec![3])), AddState::Send(t(), Some(vec![3])));
    assert_eq!(after_read(t(), None), AddState::Get(t()));
    assert_eq!(after_get(t(), Fetched::Body(vec![1, 2])), AddState::Send(t(), Some(vec![1, 2])));
    assert_eq!(after_get(t(), Fetched::NoAnswer), AddState::Send(t(), None));
    assert_eq!(after_get(t(), Fetched::Broken("cut".to_string())), AddState::Fail("cut".to_string()));
}

#[test]
fn help_is_open_in_the_normal_mode_only() {
    let mut app = start();
    for c in "?as3l?9C1C?yq".chars() {
        press(&mut app, Key::Char(c));
        assert!(!app.show_help || app.mode == Mode::Normal);
        press(&mut app, Key::Esc);
    }
}

#[test]
fn refused_questions_send_nothing() {
    let aria2 = Aria2::new("u", None);
    for key in [Key::Esc, Key::Enter] {
        let mut app = start();
        press(&mut app, Key::Char('C'));
        let action = press(&mut app, key);
        assert_eq!(app.request_for(&aria2, &action), None);
    }
    let mut app = start();
    press(&mut app, Key::Char('C'));
    press(&mut app, Key::Char('y'));
    let action = press(&mut app, Key::Enter);
    assert_eq!(app.request_for(&aria2, &action), Some(aria2.purge()));
    assert_eq!(app.mode, Mode::Normal);
}

#[test]
fn the_last_report_about_each_thing_counts() {
    let mut app = start();
    app.drain(vec![
        BgMsg::Trackers(vec!["old".to_string()]),
        BgMsg::Stats { dl: 1, ul: 1, active: 1 },
        BgMsg::Trackers(vec!["new".to_string()]),
        BgMsg::Status("old".to_string()),
        BgMsg::Stats { dl: 2, ul: 3, active: 4 },
        BgMsg::Status("new".to_string()),
        BgMsg::Downloads(vec![]),
    ]);
    assert_eq!(app.trackers, ["new"]);
    assert_eq!(app.status, "new");
    assert_eq!((app.global_dl, app.global_ul, app.active_cnt), (2, 3, 4));
}
