use torfile::json::Json;
use torfile::search::{knaben_url, make_magnet, order_by_seeds, search_knaben, search_tpb, tpb_cat_label, tpb_url, Category, Engine, SearchResult};

fn text(s: &str) -> Json {
    Json::Str(s.to_string())
}

fn object(fields: Vec<(&str, Json)>) -> Json {
    Json::Object(fields.into_iter().map(|(k, v)| (k.to_string(), v)).collect())
}

fn names(v: &[&str]) -> Vec<String> {
    v.iter().map(|s| s.to_string()).collect()
}

fn result(name: &str, seeds: u32) -> SearchResult {
    SearchResult {
        name: name.to_string(),
        magnet: String::new(),
        size: String::new(),
        seeds,
        leeches: 0,
        category: String::new(),
        source: "TPB",
    }
}

#[test]
fn engines_toggle() {
    assert_eq!(Engine::Tpb.label(), "ThePirateBay");
    assert_eq!(Engine::Knaben.label(), "Knaben");
    assert_eq!(Engine::Tpb.toggle(), Engine::Knaben);
    assert_eq!(Engine::Tpb.toggle().toggle(), Engine::Tpb);
}

#[test]
fn categories_cycle() {
    let order = [Category::All, Category::Video, Category::Audio, Category::Software, Category::Games, Category::Books];
    for i in 0..6 {
        assert_eq!(order[i].next(), order[(i + 1) % 6]);
    }
    assert_eq!(order.map(|c| c.label()), ["All", "Video", "Audio", "Software", "Games", "Books"]);
    assert_eq!(order.map(|c| c.tpb()), ["0", "200", "100", "300", "400", "600"]);
    assert_eq!(order.map(|c| c.knaben()), ["", "video", "audio", "software", "games", "books"]);
}

#[test]
fn headings() {
    assert_eq!(tpb_cat_label(100), "?");
    assert_eq!(tpb_cat_label(101), "Audio");
    assert_eq!(tpb_cat_label(109), "Audio");
    assert_eq!(tpb_cat_label(110), "?");
    assert_eq!(tpb_cat_label(205), "Video");
    assert_eq!(tpb_cat_label(301), "Software");
    assert_eq!(tpb_cat_label(409), "Games");
    assert_eq!(tpb_cat_label(501), "Other");
    assert_eq!(tpb_cat_label(609), "Books");
    assert_eq!(tpb_cat_label(u32::MAX), "?");
}

#[test]
fn magnet_links() {
    assert_eq!(
        make_magnet("ABC", "a b&é", &names(&[])),
        "magnet:?xt=urn:btih:ABC&dn=a%20b%26%C3%A9&tr=udp://tracker.openbittorrent.com:6969"
    );
    assert_eq!(
        make_magnet("h", "n", &names(&["udp://t:1/a", "x~_-."])),
        "magnet:?xt=urn:btih:h&dn=n&tr=udp://tracker.openbittorrent.com:6969&tr=udp%3A%2F%2Ft%3A1%2Fa&tr=x~_-."
    );
    let seven = names(&["1", "2", "3", "4", "5", "6", "7"]);
    assert!(make_magnet("h", "n", &seven).ends_with("&tr=5&tr=6"));
}

#[test]
fn every_byte_is_encoded_as_urlencoding_does() {
    for u in 0..0x3000u32 {
        if let Some(c) = char::from_u32(u) {
            let q = format!("a{}b", c);
            assert_eq!(
                tpb_url(&q, Category::All),
                format!("https://apibay.org/q.php?q={}&cat=0", urlencoding::encode(&q))
            );
        }
    }
}

#[test]
fn addresses_of_searches() {
    assert_eq!(tpb_url("big buck", Category::Video), "https://apibay.org/q.php?q=big%20buck&cat=200");
    assert_eq!(
        knaben_url("big buck", Category::All),
        "https://knaben.eu/api/v1/search?q=big%20buck&size=60&from=0&orderBy=seeders&orderDirection=desc"
    );
    assert_eq!(
        knaben_url("x", Category::Books),
        "https://knaben.eu/api/v1/search?q=x&categories=books&size=60&from=0&orderBy=seeders&orderDirection=desc"
    );
}

#[test]
fn pirate_bay_entries() {
    let entry = object(vec![
        ("info_hash", text("F00")),
        ("name", text("Some name")),
        ("size", text("1610612736")),
        ("category", text("207")),
        ("seeders", text("12")),
        ("leechers", text("oops")),
    ]);
    let got = search_tpb(&vec![entry], &names(&["udp://t"]));
    assert_eq!(got.len(), 1);
    assert_eq!(got[0].name, "Some name");
    assert_eq!(got[0].magnet, make_magnet("F00", "Some name", &names(&["udp://t"])));
    assert_eq!(got[0].size, "1.5G");
    assert_eq!(got[0].seeds, 12);
    assert_eq!(got[0].leeches, 0);
    assert_eq!(got[0].category, "Video");
    assert_eq!(got[0].source, "TPB");
}

#[test]
fn pirate_bay_defaults() {
    let got = search_tpb(&vec![Json::Null, object(vec![("seeders", Json::UInt(3))])], &names(&[]));
    assert_eq!(got.len(), 2);
    assert_eq!(got[0].name, "?");
    assert_eq!(got[0].size, "-");
    assert_eq!(got[0].category, "?");
    assert_eq!(got[1].seeds, 0);
    assert_eq!(got[1].magnet, "magnet:?xt=urn:btih:&dn=%3F&tr=udp://tracker.openbittorrent.com:6969");
}

#[test]
fn pirate_bay_finds_nothing() {
    let none = object(vec![("info_hash", text("0000000000000000000000000000000000000000"))]);
    assert_eq!(search_tpb(&vec![none], &names(&[])).len(), 0);
}

#[test]
fn pirate_bay_shows_sixty() {
    let mut data: Vec<Json> = Vec::new();
    for i in 0..70u32 {
        data.push(object(vec![("name", text(&i.to_string()))]));
        data.push(object(vec![("info_hash", text("0000000000000000000000000000000000000000"))]));
    }
    let got = search_tpb(&data, &names(&[]));
    assert_eq!(got.len(), 60);
    assert_eq!(got[0].name, "0");
    assert_eq!(got[59].name, "59");
}

#[test]
fn knaben_hits() {
    let long = "n".repeat(100);
    let answer = object(vec![(
        "hits",
        Json::Array(vec![
            object(vec![
                ("info_hash", text("AA")),
                ("title", text(&long)),
                ("bytes", Json::UInt(2048)),
                ("seeders", Json::UInt(4_294_967_299)),
                ("leechers", Json::Number("-1".to_string())),
                ("category", text("Movies")),
            ]),
            object(vec![("title", text("no hash"))]),
            object(vec![("info_hash", text("BB"))]),
        ]),
    )]);
    let got = search_knaben(&answer, &names(&[]));
    assert_eq!(got.len(), 2);
    assert_eq!(got[0].name, "n".repeat(80));
    assert!(got[0].magnet.contains(&long));
    assert_eq!(got[0].size, "2K");
    assert_eq!(got[0].seeds, 3);
    assert_eq!(got[0].leeches, 0);
    assert_eq!(got[0].category, "Movies");
    assert_eq!(got[0].source, "Knaben");
    assert_eq!(got[1].name, "?");
    assert_eq!(got[1].category, "-");
}

#[test]
fn knaben_without_hits() {
    assert_eq!(search_knaben(&Json::Null, &names(&[])).len(), 0);
    assert_eq!(search_knaben(&object(vec![("hits", text("x"))]), &names(&[])).len(), 0);
}

#[test]
fn results_are_ordered_by_seeds() {
    let mut x: u32 = 12345;
    for n in 0..40u32 {
        let mut list: Vec<SearchResult> = Vec::new();
        let mut expected: Vec<(String, u32)> = Vec::new();
        for i in 0..n {
            x = x.wrapping_mul(1_664_525).wrapping_add(1_013_904_223);
            list.push(result(&i.to_string(), x % 7));
            expected.push((i.to_string(), x % 7));
        }
        expected.sort_by(|a, b| b.1.cmp(&a.1));
        let got: Vec<(String, u32)> = order_by_seeds(list).into_iter().map(|r| (r.name, r.seeds)).collect();
        assert_eq!(got, expected);
    }
}
