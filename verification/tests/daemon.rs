use torfile::app::BgMsg;
use torfile::aria2::{added_gid, result_or_null, rpc_error_text, rpc_outcome, Aria2};
use torfile::background::{connect_step, downloads_message, fetch_finished, fetch_started, stats_message, stats_report, Connect};
use torfile::download::{collect_downloads, Download};
use torfile::json::Json;
use torfile::screen::Color;
use torfile::trackers::{answered_lists, merge_trackers, polled_urls, tracker_urls};

fn text(s: &str) -> Json {
    Json::Str(s.to_string())
}

fn object(fields: Vec<(&str, Json)>) -> Json {
    Json::Object(fields.into_iter().map(|(k, v)| (k.to_string(), v)).collect())
}

fn call(method: &str, params: Vec<Json>) -> Json {
    object(vec![
        ("jsonrpc", text("2.0")),
        ("id", text("1")),
        ("method", text(method)),
        ("params", Json::Array(params)),
    ])
}

fn keys() -> Json {
    Json::Array(
        [
            "gid", "status", "totalLength", "completedLength", "downloadSpeed", "uploadSpeed", "bittorrent", "files",
            "numSeeders", "connections", "errorMessage", "dir",
        ]
        .iter()
        .map(|k| text(k))
        .collect(),
    )
}

fn plain() -> Aria2 {
    Aria2::new("http://localhost:6800/jsonrpc", None)
}

#[test]
fn calls_of_the_daemon() {
    let a = plain();
    assert_eq!(a.url, "http://localhost:6800/jsonrpc");
    assert_eq!(Aria2::dl_keys(), keys());
    assert_eq!(a.active(), call("aria2.tellActive", vec![keys()]));
    assert_eq!(a.waiting(0, 50), call("aria2.tellWaiting", vec![Json::UInt(0), Json::UInt(50), keys()]));
    assert_eq!(
        a.stopped(-1, i64::MIN),
        call(
            "aria2.tellStopped",
            vec![Json::Number("-1".to_string()), Json::Number("-9223372036854775808".to_string()), keys()]
        )
    );
    assert_eq!(a.global_stat(), call("aria2.getGlobalStat", vec![]));
    assert_eq!(a.pause("g"), call("aria2.pause", vec![text("g")]));
    assert_eq!(a.unpause("g"), call("aria2.unpause", vec![text("g")]));
    assert_eq!(a.remove("g"), call("aria2.forceRemove", vec![text("g")]));
    assert_eq!(a.remove_result("g"), call("aria2.removeDownloadResult", vec![text("g")]));
    assert_eq!(a.purge(), call("aria2.purgeDownloadResult", vec![]));
    assert_eq!(a.set_global_opts(Json::Null), call("aria2.changeGlobalOption", vec![Json::Null]));
    assert_eq!(
        a.add_uri(&vec!["u".to_string()], object(vec![])),
        call("aria2.addUri", vec![Json::Array(vec![text("u")]), object(vec![])])
    );
}

#[test]
fn the_token_comes_first() {
    let a = Aria2::new("u", Some("secret".to_string()));
    assert_eq!(a.pause("g"), call("aria2.pause", vec![text("token:secret"), text("g")]));
    assert_eq!(a.purge(), call("aria2.purgeDownloadResult", vec![text("token:secret")]));
}

#[test]
fn torrents_are_sent_in_base64() {
    let cases: [(&[u8], &str); 6] = [
        (b"", ""),
        (b"f", "Zg=="),
        (b"fo", "Zm8="),
        (b"foo", "Zm9v"),
        (b"foobar", "Zm9vYmFy"),
        (&[0xfb, 0xff, 0xfe], "+//+"),
    ];
    for (data, b64) in cases {
        assert!(Aria2::torrent_fits(data));
        assert_eq!(
            plain().add_torrent(data, Json::Null),
            call("aria2.addTorrent", vec![text(b64), Json::Array(vec![]), Json::Null])
        );
    }
}

#[test]
fn answers() {
    assert_eq!(rpc_outcome(object(vec![("result", text("OK"))])), Ok(text("OK")));
    assert_eq!(rpc_outcome(object(vec![("result", text("OK")), ("error", Json::Null)])), Err(Json::Null));
    assert_eq!(rpc_outcome(object(vec![("error", text("bad"))])), Err(text("bad")));
    assert_eq!(rpc_outcome(object(vec![])), Ok(Json::Null));
    assert_eq!(rpc_outcome(text("x")), Ok(Json::Null));
    assert_eq!(rpc_error_text("{\"code\":1}"), "aria2: {\"code\":1}");
    assert_eq!(added_gid(&text("2089b05ecca3d829")), "2089b05ecca3d829");
    assert_eq!(added_gid(&Json::UInt(1)), "");
    assert_eq!(result_or_null(Ok(text("x"))), text("x"));
    assert_eq!(result_or_null(Err("gone".to_string())), Json::Null);
}

#[test]
fn a_torrent_is_reported() {
    let d = Download::from(&object(vec![
        ("gid", text("1")),
        ("status", text("active")),
        ("totalLength", text("1000")),
        ("completedLength", text("250")),
        ("downloadSpeed", text("10")),
        ("uploadSpeed", text("x")),
        ("numSeeders", text("4")),
        ("connections", text("4294967296")),
        ("errorMessage", text("e")),
        ("bittorrent", object(vec![("info", object(vec![("name", text("linux.iso"))]))])),
    ]));
    assert_eq!(
        d,
        Download {
            gid: "1".to_string(),
            name: "linux.iso".to_string(),
            status: "active".to_string(),
            dl_speed: 10,
            ul_speed: 0,
            total: 1000,
            done: 250,
            seeds: 4,
            conns: 0,
            error: "e".to_string(),
            is_torrent: true,
        }
    );
    assert_eq!(d.eta(), "01:15");
    assert_eq!(d.status_color(), Color::Green);
}

#[test]
fn names_of_downloads() {
    let named = |file: Json| Download::from(&object(vec![("files", Json::Array(vec![file]))])).name;
    assert_eq!(Download::from(&object(vec![("bittorrent", object(vec![]))])).name, "Fetching metadata…");
    assert_eq!(named(object(vec![("path", text("/tmp/a/b.iso"))])), "b.iso");
    assert_eq!(named(object(vec![("path", text("/"))])), "/");
    let uri = "u".repeat(70);
    let uris = Json::Array(vec![object(vec![("uri", text(&uri))])]);
    assert_eq!(named(object(vec![("uris", uris)])), "u".repeat(60));
    assert_eq!(named(object(vec![])), "Unknown");
    assert_eq!(Download::from(&Json::Null).name, "Unknown");
    assert_eq!(Download::from(&Json::Null).status, "unknown");
    assert!(!Download::from(&object(vec![("bittorrent", text("x"))])).is_torrent);
}

#[test]
fn times_and_colors() {
    let with = |status: &str, total: u64, done: u64, speed: u64| {
        Download::from(&object(vec![
            ("status", text(status)),
            ("totalLength", text(&total.to_string())),
            ("completedLength", text(&done.to_string())),
            ("downloadSpeed", text(&speed.to_string())),
        ]))
    };
    assert_eq!(with("active", 100, 0, 0).eta(), "--:--");
    assert_eq!(with("active", 0, 0, 5).eta(), "--:--");
    assert_eq!(with("active", 100, 200, 5).eta(), "00:00");
    assert_eq!(with("active", 3599, 0, 1).eta(), "59:59");
    assert_eq!(with("active", 3600, 0, 1).eta(), "1h00m");
    assert_eq!(with("active", 90_061, 0, 1).eta(), "25h01m");
    assert_eq!(with("active", 0, 0, 0).status_color(), Color::Green);
    assert_eq!(with("waiting", 0, 0, 0).status_color(), Color::Yellow);
    assert_eq!(with("paused", 0, 0, 0).status_color(), Color::Cyan);
    assert_eq!(with("error", 0, 0, 0).status_color(), Color::Red);
    assert_eq!(with("complete", 0, 0, 0).status_color(), Color::Blue);
    assert_eq!(with("removed", 0, 0, 0).status_color(), Color::Gray);
}

#[test]
fn reports_in_order() {
    let one = |gid: &str| object(vec![("gid", text(gid))]);
    let list = collect_downloads(
        &Json::Array(vec![one("a"), one("b")]),
        &Json::Null,
        &Json::Array(vec![one("c")]),
    );
    let gids: Vec<String> = list.into_iter().map(|d| d.gid).collect();
    assert_eq!(gids, ["a", "b", "c"]);
    let m = downloads_message(&Json::Array(vec![one("z")]), &Json::Null, &Json::Null);
    assert!(matches!(m, BgMsg::Downloads(v) if v.len() == 1 && v[0].gid == "z"));
}

#[test]
fn statistics() {
    let m = stats_message(&object(vec![
        ("downloadSpeed", text("7")),
        ("uploadSpeed", Json::UInt(8)),
        ("numActive", text("4294967298")),
    ]));
    assert_eq!(m, BgMsg::Stats { dl: 7, ul: 0, active: 2 });
}

#[test]
fn tracker_lists() {
    assert_eq!(tracker_urls().len(), 4);
    assert_eq!(polled_urls(), tracker_urls());
    assert_eq!(
        polled_urls()[3],
        "https://raw.githubusercontent.com/hezhijie0327/Trackerslist/main/trackerslist_tracker.txt"
    );
    let lists = vec!["udp://a\r\n\r\n udp://b \n".to_string(), "udp://b\nudp://c\n\nudp://a".to_string()];
    assert_eq!(merge_trackers(&lists), ["udp://a", "udp://b", "udp://c"]);
    assert_eq!(merge_trackers(&vec![]), Vec::<String>::new());
}

#[test]
fn tracker_messages() {
    assert_eq!(fetch_started(), BgMsg::Status("Fetching trackers…".to_string()));
    let (first, second) = fetch_finished(&vec!["x\ny\nx\n".to_string()]);
    assert_eq!(first, BgMsg::Trackers(vec!["x".to_string(), "y".to_string()]));
    assert_eq!(second, BgMsg::Status("✓ 2 trackers loaded".to_string()));
    let (none, message) = fetch_finished(&vec![]);
    assert_eq!(none, BgMsg::Trackers(vec![]));
    assert_eq!(message, BgMsg::Status("✓ 0 trackers loaded".to_string()));
}

#[test]
fn every_list_that_came_counts() {
    let replies = vec![Some("a\nb".to_string()), None, Some(" b \nc\n".to_string()), Some("d".to_string())];
    let lists = answered_lists(replies);
    assert_eq!(lists, ["a\nb", " b \nc\n", "d"]);
    assert_eq!(merge_trackers(&lists), ["a", "b", "c", "d"]);
    assert_eq!(answered_lists(vec![None, None]), Vec::<String>::new());
}

#[test]
fn failed_statistics_are_not_reported() {
    let report = || object(vec![("downloadSpeed", text("7"))]);
    assert_eq!(stats_report(Ok(report())), Some(BgMsg::Stats { dl: 7, ul: 0, active: 0 }));
    assert_eq!(stats_report(Ok(report())), Some(stats_message(&report())));
    assert_eq!(stats_report(Err("down".to_string())), None);
}

#[test]
fn the_daemon_is_asked_ten_times() {
    let mut tries = 0;
    while connect_step(tries, false) == Connect::Ask {
        tries += 1;
    }
    assert_eq!(tries, 10);
    assert_eq!(connect_step(10, false), Connect::GiveUp);
    assert_eq!(connect_step(10, true), Connect::Ready);
    assert_eq!(connect_step(1, true), Connect::Ready);
}
