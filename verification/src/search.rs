//! Torrent search: the two engines, the category filter, and what their answers hold.

use crate::download::{number_field, reported_number, text_field};
use crate::json::{values, Json, JsonView};
use crate::outside::{percent_encoded, url_encode};
use crate::sizes::{fmt_b, size_text};
use crate::text::{clip, same, take_chars, texts};
use vstd::prelude::*;
use vstd::string::*;

verus! {

/// A search engine.
#[derive(Debug, Clone, Copy, PartialEq, Eq, Structural)]
pub enum Engine {
    Tpb,
    Knaben,
}

impl Engine {
    /// The name that the user sees.
    pub open spec fn name(self) -> Seq<char> {
        match self {
            Engine::Tpb => "ThePirateBay"@,
            Engine::Knaben => "Knaben"@,
        }
    }

    /// The other engine.
    pub open spec fn other(self) -> Engine {
        match self {
            Engine::Tpb => Engine::Knaben,
            Engine::Knaben => Engine::Tpb,
        }
    }

    /// The name that the user sees.
    pub fn label(&self) -> (s: &'static str)
        ensures
            s@ == self.name(),
    {
        match self {
            Engine::Tpb => "ThePirateBay",
            Engine::Knaben => "Knaben",
        }
    }

    /// The other engine.
    pub fn toggle(self) -> (e: Engine)
        ensures
            e == self.other(),
    {
        match self {
            Engine::Tpb => Engine::Knaben,
            Engine::Knaben => Engine::Tpb,
        }
    }
}

/// A category that a search is narrowed to.
#[derive(Debug, Clone, Copy, PartialEq, Eq, Structural)]
pub enum Category {
    All,
    Video,
    Audio,
    Software,
    Games,
    Books,
}

impl Category {
    /// The name that the user sees.
    pub open spec fn name(self) -> Seq<char> {
        match self {
            Category::All => "All"@,
            Category::Video => "Video"@,
            Category::Audio => "Audio"@,
            Category::Software => "Software"@,
            Category::Games => "Games"@,
            Category::Books => "Books"@,
        }
    }

    /// The number by which The Pirate Bay knows the category.
    pub open spec fn tpb_id(self) -> Seq<char> {
        match self {
            Category::All => "0"@,
            Category::Video => "200"@,
            Category::Audio => "100"@,
            Category::Software => "300"@,
            Category::Games => "400"@,
            Category::Books => "600"@,
        }
    }

    /// The word by which Knaben knows the category; no word stands for all of them.
    pub open spec fn knaben_word(self) -> Seq<char> {
        match self {
            Category::All => ""@,
            Category::Video => "video"@,
            Category::Audio => "audio"@,
            Category::Software => "software"@,
            Category::Games => "games"@,
            Category::Books => "books"@,
        }
    }

    /// The category that follows in the cycle of all six.
    pub open spec fn following(self) -> Category {
        match self {
            Category::All => Category::Video,
            Category::Video => Category::Audio,
            Category::Audio => Category::Software,
            Category::Software => Category::Games,
            Category::Games => Category::Books,
            Category::Books => Category::All,
        }
    }

    /// The category that follows `n` steps later.
    pub open spec fn later(self, n: nat) -> Category
        decreases n,
    {
        if n == 0 {
            self
        } else {
            self.later((n - 1) as nat).following()
        }
    }

    /// The name that the user sees.
    pub fn label(self) -> (s: &'static str)
        ensures
            s@ == self.name(),
    {
        match self {
            Category::All => "All",
            Category::Video => "Video",
            Category::Audio => "Audio",
            Category::Software => "Software",
            Category::Games => "Games",
            Category::Books => "Books",
        }
    }

    /// The number by which The Pirate Bay knows the category.
    pub fn tpb(self) -> (s: &'static str)
        ensures
            s@ == self.tpb_id(),
    {
        match self {
            Category::All => "0",
            Category::Video => "200",
            Category::Audio => "100",
            Category::Software => "300",
            Category::Games => "400",
            Category::Books => "600",
        }
    }

    /// The word by which Knaben knows the category; no word stands for all of them.
    pub fn knaben(self) -> (s: &'static str)
        ensures
            s@ == self.knaben_word(),
    {
        match self {
            Category::All => "",
            Category::Video => "video",
            Category::Audio => "audio",
            Category::Software => "software",
            Category::Games => "games",
            Category::Books => "books",
        }
    }

    /// The category that follows in the cycle of all six.
    pub fn next(self) -> (c: Category)
        ensures
            c == self.following(),
    {
        match self {
            Category::All => Category::Video,
            Category::Video => Category::Audio,
            Category::Audio => Category::Software,
            Category::Software => Category::Games,
            Category::Games => Category::Books,
            Category::Books => Category::All,
        }
    }
}

/// Toggling twice gives the first engine back, and toggling once never does.
pub proof fn law_engine_toggle(e: Engine)
    ensures
        e.other().other() == e,
        e.other() != e,
{
}

/// The category cycle has period six and passes every category: from any category, any
/// other is fewer than six steps away, and six steps lead back.
pub proof fn law_category_cycle(c: Category, d: Category)
    ensures
        c.later(6) == c,
        exists|n: nat| n < 6 && c.later(n) == d,
{
    reveal_with_fuel(Category::later, 7);
    assert(c.later(0) == d || c.later(1) == d || c.later(2) == d || c.later(3) == d || c.later(4)
        == d || c.later(5) == d);
}

/// The heading under which a category number of The Pirate Bay is shown.
pub open spec fn tpb_heading(id: int) -> Seq<char> {
    if 101 <= id <= 109 {
        "Audio"@
    } else if 201 <= id <= 209 {
        "Video"@
    } else if 301 <= id <= 309 {
        "Software"@
    } else if 401 <= id <= 409 {
        "Games"@
    } else if 501 <= id <= 509 {
        "Other"@
    } else if 601 <= id <= 609 {
        "Books"@
    } else {
        "?"@
    }
}

/// The heading under which a category number of The Pirate Bay is shown.
pub fn tpb_cat_label(id: u32) -> (s: &'static str)
    ensures
        s@ == tpb_heading(id as int),
{
    match id {
        101..=109 => "Audio",
        201..=209 => "Video",
        301..=309 => "Software",
        401..=409 => "Games",
        501..=509 => "Other",
        601..=609 => "Books",
        _ => "?",
    }
}

// ---------------------------------------------------------------------------
// Magnet links
// ---------------------------------------------------------------------------

/// The parameters of a magnet link for the first `n` trackers.
pub open spec fn tracker_params(trackers: Seq<Seq<char>>, n: nat) -> Seq<char>
    decreases n,
{
    if n == 0 {
        Seq::<char>::empty()
    } else {
        tracker_params(trackers, (n - 1) as nat) + "&tr="@ + percent_encoded(trackers[n - 1])
    }
}

/// The magnet link for a torrent: its hash, its name, one tracker that is always named,
/// and the first six of the known ones.
pub open spec fn magnet_link(
    info_hash: Seq<char>,
    name: Seq<char>,
    trackers: Seq<Seq<char>>,
) -> Seq<char> {
    let n: nat = if trackers.len() < 6 {
        trackers.len()
    } else {
        6
    };
    "magnet:?xt=urn:btih:"@ + info_hash + "&dn="@ + percent_encoded(name)
        + "&tr=udp://tracker.openbittorrent.com:6969"@ + tracker_params(trackers, n)
}

/// The magnet link for a torrent.
pub fn make_magnet(info_hash: &str, name: &str, trackers: &Vec<String>) -> (s: String)
    ensures
        s@ == magnet_link(info_hash@, name@, texts(trackers@)),
{
    let ghost all = texts(trackers@);
    let n: usize = if trackers.len() < 6 {
        trackers.len()
    } else {
        6
    };
    let mut extra = String::new();
    let mut i: usize = 0;
    while i < n
        invariant
            i <= n <= trackers@.len(),
            all == texts(trackers@),
            extra@ == tracker_params(all, i as nat),
        decreases n - i,
    {
        extra.append("&tr=");
        extra.append(url_encode(trackers[i].as_str()).as_str());
        i = i + 1;
    }
    let mut s = "magnet:?xt=urn:btih:".to_owned();
    s.append(info_hash);
    s.append("&dn=");
    s.append(url_encode(name).as_str());
    s.append("&tr=udp://tracker.openbittorrent.com:6969");
    s.append(extra.as_str());
    s
}

// ---------------------------------------------------------------------------
// Results
// ---------------------------------------------------------------------------

/// One torrent that a search found.
#[derive(Debug, PartialEq, Eq)]
pub struct SearchResult {
    pub name: String,
    pub magnet: String,
    pub size: String,
    pub seeds: u32,
    pub leeches: u32,
    pub category: String,
    pub source: &'static str,
}

/// What a search result says.
#[verifier::ext_equal]
pub struct ResultView {
    pub name: Seq<char>,
    pub magnet: Seq<char>,
    pub size: Seq<char>,
    pub seeds: u32,
    pub leeches: u32,
    pub category: Seq<char>,
    pub source: Seq<char>,
}

impl View for SearchResult {
    type V = ResultView;

    open spec fn view(&self) -> ResultView {
        ResultView {
            name: self.name@,
            magnet: self.magnet@,
            size: self.size@,
            seeds: self.seeds,
            leeches: self.leeches,
            category: self.category@,
            source: self.source@,
        }
    }
}

/// What a list of search results says.
pub open spec fn result_views(v: Seq<SearchResult>) -> Seq<ResultView> {
    v.map_values(|r: SearchResult| r@)
}

/// The address of a search on The Pirate Bay.
pub open spec fn tpb_address(q: Seq<char>, cat: Category) -> Seq<char> {
    "https://apibay.org/q.php?q="@ + percent_encoded(q) + "&cat="@ + cat.tpb_id()
}

/// The address of a search on Knaben, narrowed to a category unless all are searched.
pub open spec fn knaben_address(q: Seq<char>, cat: Category) -> Seq<char> {
    if cat.knaben_word().len() == 0 {
        "https://knaben.eu/api/v1/search?q="@ + percent_encoded(q)
            + "&size=60&from=0&orderBy=seeders&orderDirection=desc"@
    } else {
        "https://knaben.eu/api/v1/search?q="@ + percent_encoded(q) + "&categories="@
            + cat.knaben_word() + "&size=60&from=0&orderBy=seeders&orderDirection=desc"@
    }
}

/// Whether an entry of The Pirate Bay stands for a torrent: the hash of noughts is its
/// way to say that nothing was found.
pub open spec fn tpb_listed(v: JsonView) -> bool {
    v.field("info_hash"@).text_or(""@) != "0000000000000000000000000000000000000000"@
}

/// The result that an entry of The Pirate Bay stands for. All its numbers are strings.
pub open spec fn tpb_result(v: JsonView, trackers: Seq<Seq<char>>) -> ResultView {
    let name = v.field("name"@).text_or("?"@);
    ResultView {
        name: clip(name, 80),
        magnet: magnet_link(v.field("info_hash"@).text_or(""@), name, trackers),
        size: size_text(reported_number(v, "size"@, u64::MAX as nat)),
        seeds: reported_number(v, "seeders"@, u32::MAX as nat) as u32,
        leeches: reported_number(v, "leechers"@, u32::MAX as nat) as u32,
        category: tpb_heading(reported_number(v, "category"@, u32::MAX as nat) as int),
        source: "TPB"@,
    }
}

/// The results that an answer of The Pirate Bay lists: sixty at most.
pub open spec fn tpb_results(data: Seq<JsonView>, trackers: Seq<Seq<char>>) -> Seq<ResultView> {
    first_sixty(data.filter(|v: JsonView| tpb_listed(v))).map_values(
        |v: JsonView| tpb_result(v, trackers),
    )
}

/// The first sixty entries.
pub open spec fn first_sixty(data: Seq<JsonView>) -> Seq<JsonView> {
    if data.len() <= 60 {
        data
    } else {
        data.take(60)
    }
}

/// The lowest thirty-two bits of an unsigned integer.
pub open spec fn low_bits(n: u64) -> u32 {
    (n % 0x1_0000_0000) as u32
}

/// Whether a hit of Knaben can be downloaded: it has a hash.
pub open spec fn knaben_listed(v: JsonView) -> bool {
    v.field("info_hash"@).text() is Some
}

/// The result that a hit of Knaben stands for.
pub open spec fn knaben_result(v: JsonView, trackers: Seq<Seq<char>>) -> ResultView {
    let name = v.field("title"@).text_or("?"@);
    ResultView {
        name: clip(name, 80),
        magnet: magnet_link(v.field("info_hash"@).text_or(""@), name, trackers),
        size: size_text(v.field("bytes"@).uint_or_nought() as nat),
        seeds: low_bits(v.field("seeders"@).uint_or_nought()),
        leeches: low_bits(v.field("leechers"@).uint_or_nought()),
        category: v.field("category"@).text_or("-"@),
        source: "Knaben"@,
    }
}

/// The results that an answer of Knaben lists.
pub open spec fn knaben_results(answer: JsonView, trackers: Seq<Seq<char>>) -> Seq<ResultView> {
    answer.field("hits"@).items().filter(|v: JsonView| knaben_listed(v)).map_values(
        |v: JsonView| knaben_result(v, trackers),
    )
}

/// The address of a search on The Pirate Bay.
pub fn tpb_url(q: &str, cat: Category) -> (s: String)
    ensures
        s@ == tpb_address(q@, cat),
{
    let mut s = "https://apibay.org/q.php?q=".to_owned();
    s.append(url_encode(q).as_str());
    s.append("&cat=");
    s.append(cat.tpb());
    s
}

/// The address of a search on Knaben.
pub fn knaben_url(q: &str, cat: Category) -> (s: String)
    ensures
        s@ == knaben_address(q@, cat),
{
    let cat_param = cat.knaben();
    let mut s = "https://knaben.eu/api/v1/search?q=".to_owned();
    s.append(url_encode(q).as_str());
    if !cat_param.is_empty() {
        s.append("&categories=");
        s.append(cat_param);
    }
    s.append("&size=60&from=0&orderBy=seeders&orderDirection=desc");
    s
}

/// The result that an entry of The Pirate Bay stands for.
fn tpb_entry(v: &Json, trackers: &Vec<String>) -> (r: SearchResult)
    ensures
        r@ == tpb_result(v@, texts(trackers@)),
{
    let hash = text_field(v, "info_hash", "");
    let name = text_field(v, "name", "?");
    let bytes: u64 = number_field(v, "size", u64::MAX);
    let cat_id: u32 = number_field(v, "category", u32::MAX as u64) as u32;
    SearchResult {
        name: take_chars(name.as_str(), 80),
        magnet: make_magnet(hash.as_str(), name.as_str(), trackers),
        size: fmt_b(bytes),
        seeds: number_field(v, "seeders", u32::MAX as u64) as u32,
        leeches: number_field(v, "leechers", u32::MAX as u64) as u32,
        category: tpb_cat_label(cat_id).to_owned(),
        source: "TPB",
    }
}

/// The results that an answer of The Pirate Bay lists.
pub fn search_tpb(data: &Vec<Json>, trackers: &Vec<String>) -> (results: Vec<SearchResult>)
    ensures
        result_views(results@) == tpb_results(values(data@), texts(trackers@)),
{
    let ghost all = values(data@);
    let ghost listed = |v: JsonView| tpb_listed(v);
    let ghost make = |v: JsonView| tpb_result(v, texts(trackers@));
    let mut results: Vec<SearchResult> = Vec::new();
    proof {
        reveal(Seq::filter);
        assert(result_views(results@) =~= first_sixty(all.take(0).filter(listed)).map_values(make));
    }
    let mut i: usize = 0;
    while i < data.len()
        invariant
            i <= data@.len(),
            all == values(data@),
            listed == |v: JsonView| tpb_listed(v),
            make == |v: JsonView| tpb_result(v, texts(trackers@)),
            result_views(results@) == first_sixty(all.take(i as int).filter(listed)).map_values(
                make,
            ),
        decreases data@.len() - i,
    {
        let v = &data[i];
        let hash = text_field(v, "info_hash", "");
        let ghost before = results@;
        let ghost kept = all.take(i as int).filter(listed);
        proof {
            reveal(Seq::filter);
            assert(all.take(i + 1).drop_last() =~= all.take(i as int));
            assert(all.take(i + 1).last() == v@);
        }
        if results.len() < 60 && !same(hash.as_str(), "0000000000000000000000000000000000000000") {
            results.push(tpb_entry(v, trackers));
            proof {
                assert(result_views(results@) =~= result_views(before).push(make(v@)));
                assert(first_sixty(kept.push(v@)).map_values(make) =~= first_sixty(kept).map_values(
                    make,
                ).push(make(v@)));
            }
        } else {
            proof {
                assert(first_sixty(kept.push(v@)).len() == 60 ==> first_sixty(kept.push(v@))
                    =~= kept.push(v@).take(60));
                if kept.len() >= 60 {
                    assert(first_sixty(kept.push(v@)) =~= first_sixty(kept));
                }
            }
        }
        i = i + 1;
    }
    proof {
        assert(all.take(i as int) =~= all);
    }
    results
}

/// The result that a hit of Knaben stands for.
fn knaben_entry(v: &Json, trackers: &Vec<String>) -> (r: SearchResult)
    ensures
        r@ == knaben_result(v@, texts(trackers@)),
{
    let hash = text_field(v, "info_hash", "");
    let name = text_field(v, "title", "?");
    let bytes: u64 = v.uint_field("bytes");
    SearchResult {
        name: take_chars(name.as_str(), 80),
        magnet: make_magnet(hash.as_str(), name.as_str(), trackers),
        size: fmt_b(bytes),
        seeds: (v.uint_field("seeders") % 0x1_0000_0000) as u32,
        leeches: (v.uint_field("leechers") % 0x1_0000_0000) as u32,
        category: text_field(v, "category", "-"),
        source: "Knaben",
    }
}

/// The results that an answer of Knaben lists.
pub fn search_knaben(answer: &Json, trackers: &Vec<String>) -> (results: Vec<SearchResult>)
    ensures
        result_views(results@) == knaben_results(answer@, texts(trackers@)),
{
    let ghost all = answer@.field("hits"@).items();
    let ghost listed = |v: JsonView| knaben_listed(v);
    let ghost make = |v: JsonView| knaben_result(v, texts(trackers@));
    let mut results: Vec<SearchResult> = Vec::new();
    proof {
        reveal(Seq::filter);
        assert(result_views(results@) =~= all.take(0).filter(listed).map_values(make));
    }
    match answer.get("hits") {
        Some(Json::Array(hits)) => {
            let mut i: usize = 0;
            while i < hits.len()
                invariant
                    i <= hits@.len(),
                    all.len() == hits@.len(),
                    forall|j: int| #![trigger all[j]] 0 <= j < all.len() ==> all[j] == hits@[j]@,
                    listed == |v: JsonView| knaben_listed(v),
                    make == |v: JsonView| knaben_result(v, texts(trackers@)),
                    result_views(results@) == all.take(i as int).filter(listed).map_values(make),
                decreases hits@.len() - i,
            {
                let v = &hits[i];
                let ghost before = results@;
                let ghost kept = all.take(i as int).filter(listed);
                proof {
                    reveal(Seq::filter);
                    assert(all.take(i + 1).drop_last() =~= all.take(i as int));
                    assert(all.take(i + 1).last() == v@);
                }
                if v.str_field("info_hash").is_some() {
                    results.push(knaben_entry(v, trackers));
                    proof {
                        assert(result_views(results@) =~= result_views(before).push(make(v@)));
                        assert(kept.push(v@).map_values(make) =~= kept.map_values(make).push(
                            make(v@),
                        ));
                    }
                }
                i = i + 1;
            }
            proof {
                assert(all.take(i as int) =~= all);
            }
        },
        _ => {
            proof {
                assert(all.take(0) =~= all);
            }
        },
    }
    results
}

// ---------------------------------------------------------------------------
// Order
// ---------------------------------------------------------------------------

/// A result put behind all that have as many seeds or more, in a list that is ordered
/// by seeds.
pub open spec fn inserted(list: Seq<ResultView>, r: ResultView) -> Seq<ResultView>
    decreases list.len(),
{
    if list.len() == 0 || list.last().seeds >= r.seeds {
        list.push(r)
    } else {
        inserted(list.drop_last(), r).push(list.last())
    }
}

/// Results ordered by seeds, most first; results with as many seeds stay in their order.
pub open spec fn ordered(list: Seq<ResultView>) -> Seq<ResultView>
    decreases list.len(),
{
    if list.len() == 0 {
        list
    } else {
        inserted(ordered(list.drop_last()), list.last())
    }
}

/// Orders results by seeds, most first.
pub fn order_by_seeds(list: Vec<SearchResult>) -> (sorted: Vec<SearchResult>)
    ensures
        result_views(sorted@) == ordered(result_views(list@)),
{
    let ghost all = result_views(list@);
    let mut sorted: Vec<SearchResult> = Vec::new();
    proof {
        assert(result_views(sorted@) =~= ordered(all.take(0)));
    }
    for r in it: list
        invariant
            it.seq() == list@,
            all == result_views(list@),
            result_views(sorted@) == ordered(all.take(it.index() as int)),
    {
        let ghost i = it.index() as int;
        let ghost before = result_views(sorted@);
        proof {
            assert(all.take(i + 1).drop_last() =~= all.take(i));
            assert(all.take(i + 1).last() == r@);
            assert(before.take(before.len() as int) =~= before);
            assert(before.skip(before.len() as int) =~= Seq::<ResultView>::empty());
            assert(inserted(before, r@) =~= inserted(before, r@) + Seq::<ResultView>::empty());
        }
        let mut p: usize = sorted.len();
        while p > 0 && sorted[p - 1].seeds < r.seeds
            invariant
                p <= sorted@.len(),
                before == result_views(sorted@),
                inserted(before, r@) == inserted(before.take(p as int), r@) + before.skip(p as int),
            decreases p,
        {
            proof {
                assert(before.take(p as int).drop_last() =~= before.take(p - 1));
                assert(before.take(p as int).last() == sorted@[p - 1]@);
                assert(inserted(before.take(p - 1), r@).push(before[p - 1]) + before.skip(p as int)
                    =~= inserted(before.take(p - 1), r@) + before.skip(p - 1));
            }
            p = p - 1;
        }
        proof {
            if p > 0 {
                assert(before.take(p as int).last() == sorted@[p - 1]@);
            }
        }
        let ghost x = r@;
        sorted.insert(p, r);
        proof {
            assert(result_views(sorted@) =~= before.take(p as int).push(x) + before.skip(p as int));
        }
    }
    proof {
        assert(all.take(list@.len() as int) =~= all);
    }
    sorted
}

/// The results of a list that have just so many seeds, in their order.
pub open spec fn with_seeds(list: Seq<ResultView>, seeds: u32) -> Seq<ResultView> {
    list.filter(|r: ResultView| r.seeds == seeds)
}

/// Whether no result has more seeds than one before it.
pub open spec fn falls(list: Seq<ResultView>) -> bool {
    forall|i: int, j: int| 0 <= i <= j < list.len() ==> list[i].seeds >= list[j].seeds
}

/// Ordering keeps all results, puts those with the most seeds first, and keeps results
/// with as many seeds in the order in which they came.
pub proof fn law_ordered(list: Seq<ResultView>, seeds: u32)
    ensures
        ordered(list).len() == list.len(),
        falls(ordered(list)),
        with_seeds(ordered(list), seeds) == with_seeds(list, seeds),
    decreases list.len(),
{
    if list.len() > 0 {
        let before = ordered(list.drop_last());
        law_ordered(list.drop_last(), seeds);
        lemma_inserted(before, list.last(), seeds);
        assert(list.drop_last().push(list.last()) =~= list);
        lemma_with_seeds_push(before, list.last(), seeds);
        lemma_with_seeds_push(list.drop_last(), list.last(), seeds);
    }
}

proof fn lemma_with_seeds_push(list: Seq<ResultView>, r: ResultView, seeds: u32)
    ensures
        with_seeds(list.push(r), seeds) == if r.seeds == seeds {
            with_seeds(list, seeds).push(r)
        } else {
            with_seeds(list, seeds)
        },
{
    reveal(Seq::filter);
    assert(list.push(r).drop_last() =~= list);
}

proof fn lemma_inserted(list: Seq<ResultView>, r: ResultView, seeds: u32)
    requires
        falls(list),
    ensures
        inserted(list, r).len() == list.len() + 1,
        falls(inserted(list, r)),
        forall|i: int|
            0 <= i < inserted(list, r).len() ==> (#[trigger] inserted(list, r)[i]).seeds >= r.seeds
                || list.len() > 0 && inserted(list, r)[i].seeds >= list.last().seeds,
        with_seeds(inserted(list, r), seeds) == with_seeds(list.push(r), seeds),
    decreases list.len(),
{
    if list.len() > 0 && list.last().seeds < r.seeds {
        let front = list.drop_last();
        let last = list.last();
        assert(falls(front));
        lemma_inserted(front, r, seeds);
        let put = inserted(front, r);
        assert(inserted(list, r) == put.push(last));
        assert(list =~= front.push(last));
        lemma_with_seeds_push(put, last, seeds);
        lemma_with_seeds_push(front, r, seeds);
        lemma_with_seeds_push(front, last, seeds);
        lemma_with_seeds_push(list, r, seeds);
        assert forall|i: int| 0 <= i < put.len() implies (#[trigger] put[i]).seeds
            >= last.seeds by {
            if front.len() > 0 {
                assert(front.last() == list[list.len() - 2]);
            }
        }
    }
}

/// However much The Pirate Bay lists, no more than sixty results are shown; and none of
/// them stands for the entry by which it says that nothing was found.
pub proof fn law_tpb_results(data: Seq<JsonView>, trackers: Seq<Seq<char>>)
    ensures
        tpb_results(data, trackers).len() <= 60,
        (forall|i: int| 0 <= i < data.len() ==> !tpb_listed(#[trigger] data[i])) ==> tpb_results(
            data,
            trackers,
        ).len() == 0,
{
    let listed = |v: JsonView| tpb_listed(v);
    if forall|i: int| 0 <= i < data.len() ==> !tpb_listed(#[trigger] data[i]) {
        lemma_nothing_listed(data, listed);
    }
}

proof fn lemma_nothing_listed(data: Seq<JsonView>, listed: spec_fn(JsonView) -> bool)
    requires
        forall|i: int| 0 <= i < data.len() ==> !listed(#[trigger] data[i]),
    ensures
        data.filter(listed).len() == 0,
    decreases data.len(),
{
    reveal(Seq::filter);
    if data.len() > 0 {
        assert(!listed(data[data.len() - 1]));
        lemma_nothing_listed(data.drop_last(), listed);
    }
}

}
