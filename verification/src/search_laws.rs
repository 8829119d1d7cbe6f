//! What holds of searches: the addresses, the answers, and the links.

use crate::app::{add_plan, found, AppView, PlanView};
use crate::json::JsonView;
use crate::keys::search_address;
use crate::outside::percent_encoded;
use crate::report_laws::{lemma_read_as, read_as};
use crate::search::{falls, knaben_address, knaben_result, knaben_results, law_ordered, magnet_link, tpb_address, tpb_heading, tpb_result, tpb_results, tracker_params, Category, Engine, ResultView};
use crate::sizes::size_text;
use crate::text::{decimal, joined, occurs_at, occurs_in, spelled_number, trimmed};
use crate::text_laws::{law_clip, law_joined};
use crate::trackers::{law_merged, list_addresses, lists_tracker, loaded_text, merged};
use vstd::prelude::*;

verus! {

// ---------------------------------------------------------------------------
// Links and addresses
// ---------------------------------------------------------------------------

/// A magnet link names the hash, then the name, percent-encoded, then one tracker that is
/// always named; what follows depends on the trackers alone.
pub proof fn law_magnet_link(
    info_hash: Seq<char>,
    name: Seq<char>,
    trackers: Seq<Seq<char>>,
)
    ensures
        ("magnet:?xt=urn:btih:"@ + info_hash + "&dn="@ + percent_encoded(name)
            + "&tr=udp://tracker.openbittorrent.com:6969"@).is_prefix_of(
            magnet_link(info_hash, name, trackers),
        ),
        trackers.len() == 0 ==> magnet_link(info_hash, name, trackers) == "magnet:?xt=urn:btih:"@
            + info_hash + "&dn="@ + percent_encoded(name)
            + "&tr=udp://tracker.openbittorrent.com:6969"@,
{
    let front = "magnet:?xt=urn:btih:"@ + info_hash + "&dn="@ + percent_encoded(name)
        + "&tr=udp://tracker.openbittorrent.com:6969"@;
    let link = magnet_link(info_hash, name, trackers);
    assert(front =~= link.take(front.len() as int));
    if trackers.len() == 0 {
        assert(link =~= front);
    }
}

/// Each of the first six trackers adds a parameter to the link, percent-encoded; those
/// beyond make no difference.
pub proof fn law_magnet_trackers(
    info_hash: Seq<char>,
    name: Seq<char>,
    trackers: Seq<Seq<char>>,
    more: Seq<char>,
)
    ensures
        trackers.len() < 6 ==> magnet_link(info_hash, name, trackers.push(more)) == magnet_link(
            info_hash,
            name,
            trackers,
        ) + "&tr="@ + percent_encoded(more),
        trackers.len() >= 6 ==> magnet_link(info_hash, name, trackers.push(more)) == magnet_link(
            info_hash,
            name,
            trackers,
        ),
{
    let n: nat = if trackers.len() < 6 {
        trackers.len()
    } else {
        6
    };
    lemma_params_prefix(trackers, trackers.push(more), n);
    if trackers.len() < 6 {
        assert(magnet_link(info_hash, name, trackers.push(more)) =~= magnet_link(
            info_hash,
            name,
            trackers,
        ) + "&tr="@ + percent_encoded(more));
    }
}

proof fn lemma_params_prefix(a: Seq<Seq<char>>, b: Seq<Seq<char>>, n: nat)
    requires
        n <= a.len(),
        n <= b.len(),
        forall|i: int| 0 <= i < n ==> a[i] == b[i],
    ensures
        tracker_params(a, n) == tracker_params(b, n),
    decreases n,
{
    if n > 0 {
        lemma_params_prefix(a, b, (n - 1) as nat);
    }
}

/// A search asks the engine that is set, for the query, percent-encoded.
pub proof fn law_search_addresses(s: AppView, q: Seq<char>)
    ensures
        s.engine == Engine::Tpb ==> ("https://apibay.org/q.php?q="@ + percent_encoded(q)
            + "&cat="@).is_prefix_of(search_address(s, q)),
        s.engine == Engine::Knaben ==> ("https://knaben.eu/api/v1/search?q="@ + percent_encoded(
            q,
        )).is_prefix_of(search_address(s, q)),
        s.engine == Engine::Knaben
            ==> "&size=60&from=0&orderBy=seeders&orderDirection=desc"@.is_suffix_of(
            search_address(s, q),
        ),
{
    let a = search_address(s, q);
    let tpb = "https://apibay.org/q.php?q="@ + percent_encoded(q) + "&cat="@;
    let knaben = "https://knaben.eu/api/v1/search?q="@ + percent_encoded(q);
    let tail = "&size=60&from=0&orderBy=seeders&orderDirection=desc"@;
    match s.engine {
        Engine::Tpb => {
            assert(tpb =~= a.take(tpb.len() as int));
        },
        Engine::Knaben => {
            assert(knaben =~= a.take(knaben.len() as int));
            assert(tail =~= a.subrange(a.len() - tail.len(), a.len() as int));
        },
    }
}

/// The category filter on The Pirate Bay: the number at the end of the address says the
/// category, and all of them are nought.
pub proof fn law_tpb_categories(q: Seq<char>, c: Category)
    ensures
        tpb_address(q, c) == "https://apibay.org/q.php?q="@ + percent_encoded(q) + "&cat="@
            + decimal(
            match c {
                Category::All => 0,
                Category::Audio => 100,
                Category::Video => 200,
                Category::Software => 300,
                Category::Games => 400,
                Category::Books => 600,
            },
        ),
{
    reveal_strlit("0");
    reveal_strlit("100");
    reveal_strlit("200");
    reveal_strlit("300");
    reveal_strlit("400");
    reveal_strlit("600");
    reveal_with_fuel(decimal, 4);
    assert(decimal(0) =~= "0"@);
    assert(decimal(100) =~= "100"@);
    assert(decimal(200) =~= "200"@);
    assert(decimal(300) =~= "300"@);
    assert(decimal(400) =~= "400"@);
    assert(decimal(600) =~= "600"@);
}

/// A category filters what it says: on The Pirate Bay, the heading of every number that
/// belongs to the hundred that is asked for is the name of the category.
pub proof fn law_filter_and_headings_agree(c: Category, r: int)
    requires
        1 <= r <= 9,
        c != Category::All,
    ensures
        spelled_number(c.tpb_id()) is Some,
        tpb_heading(spelled_number(c.tpb_id())->0 + r) == c.name(),
{
    law_tpb_categories(Seq::<char>::empty(), c);
    reveal_strlit("100");
    reveal_strlit("200");
    reveal_strlit("300");
    reveal_strlit("400");
    reveal_strlit("600");
    reveal_with_fuel(decimal, 4);
    assert(decimal(100) =~= "100"@);
    assert(decimal(200) =~= "200"@);
    assert(decimal(300) =~= "300"@);
    assert(decimal(400) =~= "400"@);
    assert(decimal(600) =~= "600"@);
    crate::text::law_decimal_round_trip(100);
    crate::text::law_decimal_round_trip(200);
    crate::text::law_decimal_round_trip(300);
    crate::text::law_decimal_round_trip(400);
    crate::text::law_decimal_round_trip(600);
}

/// The headings of The Pirate Bay go by the hundred, and only the first nine numbers
/// behind it have one.
pub proof fn law_headings(id: int)
    requires
        id >= 0,
    ensures
        tpb_heading(id) == if 1 <= id % 100 <= 9 && id / 100 == 1 {
            "Audio"@
        } else if 1 <= id % 100 <= 9 && id / 100 == 2 {
            "Video"@
        } else if 1 <= id % 100 <= 9 && id / 100 == 3 {
            "Software"@
        } else if 1 <= id % 100 <= 9 && id / 100 == 4 {
            "Games"@
        } else if 1 <= id % 100 <= 9 && id / 100 == 5 {
            "Other"@
        } else if 1 <= id % 100 <= 9 && id / 100 == 6 {
            "Books"@
        } else {
            "?"@
        },
{
}

/// The category filter on Knaben: no filter for all of them, and otherwise a word of its
/// own for each.
pub proof fn law_knaben_categories(q: Seq<char>, c: Category, d: Category)
    ensures
        c == Category::All ==> knaben_address(q, c) == "https://knaben.eu/api/v1/search?q="@
            + percent_encoded(q) + "&size=60&from=0&orderBy=seeders&orderDirection=desc"@,
        c != Category::All ==> knaben_address(q, c) == "https://knaben.eu/api/v1/search?q="@
            + percent_encoded(q) + "&categories="@ + c.knaben_word()
            + "&size=60&from=0&orderBy=seeders&orderDirection=desc"@,
        c.knaben_word() == d.knaben_word() ==> c == d,
        c.name() == d.name() ==> c == d,
        c != Category::All ==> c.knaben_word().len() == c.name().len() && c.knaben_word().skip(1)
            == c.name().skip(1),
{
    reveal_strlit("");
    reveal_strlit("video");
    reveal_strlit("audio");
    reveal_strlit("software");
    reveal_strlit("games");
    reveal_strlit("books");
    reveal_strlit("All");
    reveal_strlit("Video");
    reveal_strlit("Audio");
    reveal_strlit("Software");
    reveal_strlit("Games");
    reveal_strlit("Books");
    assert(""@.len() == 0 && "video"@.len() == 5 && "audio"@.len() == 5 && "software"@.len() == 8
        && "games"@.len() == 5 && "books"@.len() == 5);
    assert("video"@[0] == 'v' && "audio"@[0] == 'a' && "games"@[0] == 'g' && "books"@[0] == 'b');
    assert("All"@.len() == 3 && "Video"@.len() == 5 && "Audio"@.len() == 5 && "Software"@.len()
        == 8 && "Games"@.len() == 5 && "Books"@.len() == 5);
    assert("Video"@[0] == 'V' && "Audio"@[0] == 'A' && "Games"@[0] == 'G' && "Books"@[0] == 'B');
    assert("video"@.skip(1) =~= "Video"@.skip(1));
    assert("audio"@.skip(1) =~= "Audio"@.skip(1));
    assert("software"@.skip(1) =~= "Software"@.skip(1));
    assert("games"@.skip(1) =~= "Games"@.skip(1));
    assert("books"@.skip(1) =~= "Books"@.skip(1));
}

// ---------------------------------------------------------------------------
// Answers
// ---------------------------------------------------------------------------

/// Whether an entry has the hash of forty noughts.
pub open spec fn all_noughts(v: JsonView) -> bool {
    v.field("info_hash"@) == JsonView::Str("0000000000000000000000000000000000000000"@)
}

/// An answer of The Pirate Bay of sixty entries at most, none of which has the hash of
/// noughts, gives a result for every entry, in the same order, and the link of each holds
/// the hash of its entry.
pub proof fn law_tpb_every_entry(data: Seq<JsonView>, trackers: Seq<Seq<char>>)
    requires
        data.len() <= 60,
        forall|i: int| 0 <= i < data.len() ==> !all_noughts(#[trigger] data[i]),
    ensures
        tpb_results(data, trackers).len() == data.len(),
        forall|i: int|
            0 <= i < data.len() ==> tpb_stands_for(
                #[trigger] tpb_results(data, trackers)[i],
                data[i],
                trackers,
            ),
{
    lemma_tpb_kept(data, trackers);
    lemma_all_kept(data);
}

/// Of any answer of The Pirate Bay just those entries are left out that have the hash of
/// noughts, and those beyond the first sixty others: the results stand, in order, for the
/// first sixty entries with another hash.
pub proof fn law_tpb_left_out(data: Seq<JsonView>, trackers: Seq<Seq<char>>)
    ensures
        ({
            let kept = data.filter(|v: JsonView| !all_noughts(v));
            let results = tpb_results(data, trackers);
            &&& results.len() == if kept.len() <= 60 {
                kept.len()
            } else {
                60
            }
            &&& forall|i: int|
                0 <= i < results.len() ==> tpb_stands_for(#[trigger] results[i], kept[i], trackers)
        }),
{
    lemma_tpb_kept(data, trackers);
}

/// Whether a result stands for an entry of The Pirate Bay: the link holds the hash and the
/// whole name; the name is shown up to eighty characters; the numbers are those that the
/// entry spells.
pub open spec fn tpb_stands_for(
    r: ResultView,
    v: JsonView,
    trackers: Seq<Seq<char>>,
) -> bool {
    let hash = v.field("info_hash"@).text_or(""@);
    let name = v.field("name"@).text_or("?"@);
    &&& ("magnet:?xt=urn:btih:"@ + hash + "&dn="@ + percent_encoded(name)).is_prefix_of(r.magnet)
    &&& r.magnet == magnet_link(hash, name, trackers)
    &&& r.name.is_prefix_of(name)
    &&& name.len() <= 80 ==> r.name == name
    &&& name.len() >= 80 ==> r.name.len() == 80
    &&& read_as(v, "seeders"@, u32::MAX as nat, r.seeds as nat)
    &&& read_as(v, "leechers"@, u32::MAX as nat, r.leeches as nat)
    &&& exists|n: nat|
        #[trigger] read_as(v, "size"@, u64::MAX as nat, n) && r.size == size_text(n)
    &&& exists|n: nat|
        #[trigger] read_as(v, "category"@, u32::MAX as nat, n) && r.category == tpb_heading(
            n as int,
        )
    &&& r.source == "TPB"@
}

proof fn lemma_tpb_stands_for(v: JsonView, trackers: Seq<Seq<char>>)
    ensures
        tpb_stands_for(tpb_result(v, trackers), v, trackers),
{
    let hash = v.field("info_hash"@).text_or(""@);
    let name = v.field("name"@).text_or("?"@);
    let r = tpb_result(v, trackers);
    lemma_read_as(v, "seeders"@, u32::MAX as nat);
    lemma_read_as(v, "leechers"@, u32::MAX as nat);
    lemma_read_as(v, "size"@, u64::MAX as nat);
    lemma_read_as(v, "category"@, u32::MAX as nat);
    law_clip(name, 80);
    let front = "magnet:?xt=urn:btih:"@ + hash + "&dn="@ + percent_encoded(name);
    assert(front =~= r.magnet.take(front.len() as int));
}

proof fn lemma_tpb_kept(data: Seq<JsonView>, trackers: Seq<Seq<char>>)
    ensures
        ({
            let kept = data.filter(|v: JsonView| !all_noughts(v));
            let results = tpb_results(data, trackers);
            &&& results.len() == if kept.len() <= 60 {
                kept.len()
            } else {
                60
            }
            &&& forall|i: int|
                0 <= i < results.len() ==> tpb_stands_for(#[trigger] results[i], kept[i], trackers)
        }),
{
    let listed = |v: JsonView| crate::search::tpb_listed(v);
    let other = |v: JsonView| !all_noughts(v);
    reveal_strlit("");
    reveal_strlit("0000000000000000000000000000000000000000");
    assert(""@.len() == 0 && "0000000000000000000000000000000000000000"@.len() == 40);
    assert forall|v: JsonView| #[trigger] listed(v) == other(v) by {}
    lemma_same_filter(data, listed, other);
    let kept = data.filter(other);
    let results = tpb_results(data, trackers);
    assert forall|i: int| 0 <= i < results.len() implies tpb_stands_for(
        #[trigger] results[i],
        kept[i],
        trackers,
    ) by {
        lemma_tpb_stands_for(kept[i], trackers);
    }
}

proof fn lemma_same_filter(
    data: Seq<JsonView>,
    p: spec_fn(JsonView) -> bool,
    q: spec_fn(JsonView) -> bool,
)
    requires
        forall|v: JsonView| #[trigger] p(v) == q(v),
    ensures
        data.filter(p) == data.filter(q),
    decreases data.len(),
{
    reveal(Seq::filter);
    if data.len() > 0 {
        lemma_same_filter(data.drop_last(), p, q);
        assert(p(data.last()) == q(data.last()));
    }
}

proof fn lemma_all_kept(data: Seq<JsonView>)
    requires
        forall|i: int| 0 <= i < data.len() ==> !all_noughts(#[trigger] data[i]),
    ensures
        data.filter(|v: JsonView| !all_noughts(v)) == data,
    decreases data.len(),
{
    reveal(Seq::filter);
    if data.len() > 0 {
        assert(!all_noughts(data[data.len() - 1]));
        lemma_all_kept(data.drop_last());
        assert(data.drop_last().push(data.last()) =~= data);
    } else {
        assert(data.filter(|v: JsonView| !all_noughts(v)) =~= data);
    }
}

/// Whether a result stands for a hit of Knaben: the link holds the hash and the whole
/// title; the title is shown up to eighty characters; the numbers are those of the hit, of
/// the counts the lowest thirty-two bits.
pub open spec fn knaben_stands_for(
    r: ResultView,
    v: JsonView,
    trackers: Seq<Seq<char>>,
) -> bool {
    let hash = v.field("info_hash"@)->Str_0;
    let name = v.field("title"@).text_or("?"@);
    &&& ("magnet:?xt=urn:btih:"@ + hash + "&dn="@ + percent_encoded(name)).is_prefix_of(r.magnet)
    &&& r.magnet == magnet_link(hash, name, trackers)
    &&& r.name.is_prefix_of(name)
    &&& name.len() <= 80 ==> r.name == name
    &&& name.len() >= 80 ==> r.name.len() == 80
    &&& r.size == size_text(v.field("bytes"@).uint_or_nought() as nat)
    &&& r.seeds as int == v.field("seeders"@).uint_or_nought() as int % 0x1_0000_0000
    &&& r.leeches as int == v.field("leechers"@).uint_or_nought() as int % 0x1_0000_0000
    &&& r.category == v.field("category"@).text_or("-"@)
    &&& r.source == "Knaben"@
}

/// The results of Knaben stand, in order, for the hits that have a hash, and for all of
/// them.
pub proof fn law_knaben_every_hit(answer: JsonView, trackers: Seq<Seq<char>>)
    ensures
        ({
            let kept = answer.field("hits"@).items().filter(
                |v: JsonView| v.field("info_hash"@) is Str,
            );
            let results = knaben_results(answer, trackers);
            &&& results.len() == kept.len()
            &&& forall|i: int|
                0 <= i < results.len() ==> knaben_stands_for(
                    #[trigger] results[i],
                    kept[i],
                    trackers,
                )
        }),
{
    let data = answer.field("hits"@).items();
    let listed = |v: JsonView| crate::search::knaben_listed(v);
    let hashed = |v: JsonView| v.field("info_hash"@) is Str;
    assert forall|v: JsonView| #[trigger] listed(v) == hashed(v) by {}
    lemma_same_filter(data, listed, hashed);
    let kept = data.filter(hashed);
    let results = knaben_results(answer, trackers);
    assert forall|i: int| 0 <= i < results.len() implies knaben_stands_for(
        #[trigger] results[i],
        kept[i],
        trackers,
    ) by {
        let v = kept[i];
        data.lemma_filter_pred(hashed, i);
        assert(hashed(v));
        let hash = v.field("info_hash"@)->Str_0;
        let name = v.field("title"@).text_or("?"@);
        law_clip(name, 80);
        let r = knaben_result(v, trackers);
        assert(results[i] == r);
        let front = "magnet:?xt=urn:btih:"@ + hash + "&dn="@ + percent_encoded(name);
        assert(front =~= r.magnet.take(front.len() as int));
    }
}

/// A search shows all the results that the answer gave, most seeds first, those with as
/// many seeds in the order of the answer; the message says how many they are; and nothing
/// else changes.
pub proof fn law_found(s: AppView, results: Seq<ResultView>, seeds: u32)
    ensures
        found(s, results).results.len() == results.len(),
        falls(found(s, results).results),
        found(s, results).results.filter(|r: ResultView| r.seeds == seeds) == results.filter(
            |r: ResultView| r.seeds == seeds,
        ),
        forall|i: int, j: int|
            0 <= i <= j < results.len() ==> found(s, results).results[i].seeds >= found(
                s,
                results,
            ).results[j].seeds,
        (decimal(results.len()) + " results"@).is_prefix_of(found(s, results).status),
        found(s, results) == (AppView {
            results: found(s, results).results,
            status: found(s, results).status,
            ..s
        }),
{
    law_ordered(results, seeds);
    reveal_strlit(" results");
    reveal_strlit(" results │ ↑↓ nav  Enter=DL  e=engine  Tab=category");
    let front = decimal(results.len()) + " results"@;
    assert(front =~= found(s, results).status.take(front.len() as int));
}

/// The names by which the two engines are shown tell them apart, and so does the mark of
/// their results.
pub proof fn law_engine_names(v: JsonView, trackers: Seq<Seq<char>>)
    ensures
        Engine::Tpb.name() == "ThePirateBay"@,
        Engine::Knaben.name() == "Knaben"@,
        tpb_result(v, trackers).source != knaben_result(v, trackers).source,
{
    reveal_strlit("TPB");
    reveal_strlit("Knaben");
    assert("TPB"@.len() == 3 && "Knaben"@.len() == 6);
}

// ---------------------------------------------------------------------------
// Adding
// ---------------------------------------------------------------------------

/// Whether a text holds a part without a gap.
pub open spec fn holds(t: Seq<char>, part: Seq<char>) -> bool {
    exists|i: int|
        0 <= i <= t.len() - part.len() && #[trigger] t.subrange(i, i + part.len()) == part
}

/// What the user names is added by its address, unless it names a torrent file: it ends in
/// `.torrent`, or holds `.torrent?` or `/torrent/`. A magnet link is added by its address
/// in any case. A torrent file is looked for on the disk if and only if the text ends in
/// `.torrent` and has no scheme. White space around it does not count.
pub proof fn law_plans(uri: Seq<char>)
    ensures
        ({
            let t = trimmed(uri);
            let torrent = ".torrent"@.is_suffix_of(t) || holds(t, ".torrent?"@) || holds(
                t,
                "/torrent/"@,
            );
            let magnet = "magnet:"@.is_prefix_of(t);
            &&& add_plan(uri) == PlanView::Uri(t) <==> magnet || !torrent
            &&& add_plan(uri) == PlanView::LocalTorrent(t) <==> !magnet && ".torrent"@.is_suffix_of(
                t,
            ) && !holds(t, "://"@)
            &&& add_plan(uri) == PlanView::RemoteTorrent(t) <==> !magnet && torrent && (
            !".torrent"@.is_suffix_of(t) || holds(t, "://"@))
        }),
{
    let t = trimmed(uri);
    lemma_holds(t, ".torrent?"@);
    lemma_holds(t, "/torrent/"@);
    lemma_holds(t, "://"@);
}

proof fn lemma_holds(t: Seq<char>, part: Seq<char>)
    ensures
        holds(t, part) == occurs_in(part, t),
{
    if holds(t, part) {
        let i = choose|i: int|
            0 <= i <= t.len() - part.len() && #[trigger] t.subrange(i, i + part.len()) == part;
        assert(occurs_at(part, t, i));
    }
    if occurs_in(part, t) {
        let i = choose|i: int| occurs_at(part, t, i);
        assert(t.subrange(i, i + part.len()) == part);
    }
}

// ---------------------------------------------------------------------------
// Trackers
// ---------------------------------------------------------------------------

/// The four tracker lists, each another.
pub proof fn law_tracker_lists()
    ensures
        list_addresses().len() == 4,
        list_addresses()[0]
            == "https://raw.githubusercontent.com/ngosang/trackerslist/master/trackers_best.txt"@,
        list_addresses()[1]
            == "https://raw.githubusercontent.com/ngosang/trackerslist/master/trackers_all_udp.txt"@,
        list_addresses()[2]
            == "https://raw.githubusercontent.com/XIU2/TrackersListCollection/master/best.txt"@,
        list_addresses()[3]
            == "https://raw.githubusercontent.com/hezhijie0327/Trackerslist/main/trackerslist_tracker.txt"@,
{
}

/// The message after a refresh spells how many trackers there are.
pub proof fn law_loaded(n: nat)
    ensures
        loaded_text(n) == "✓ "@ + decimal(n) + " trackers loaded"@,
        spelled_number(loaded_text(n).subrange(2, 2 + decimal(n).len() as int)) == Some(n),
{
    reveal_strlit("✓ ");
    crate::text::law_decimal_round_trip(n);
    assert(loaded_text(n).subrange(2, 2 + decimal(n).len() as int) =~= decimal(n));
}

/// A list gives the trackers that stand on its lines: whatever the lines are, each counts
/// without the white space around it, and only where something is left.
pub proof fn law_tracker_lines(lines: Seq<Seq<char>>, t: Seq<char>)
    requires
        lines.len() > 0,
        forall|i: int| 0 <= i < lines.len() ==> !(#[trigger] lines[i]).contains('\n'),
    ensures
        merged(seq![joined(lines, seq!['\n'])]).contains(t) <==> t.len() > 0 && exists|i: int|
            0 <= i < lines.len() && trimmed(#[trigger] lines[i]) == t,
{
    let list = joined(lines, seq!['\n']);
    let lists = seq![list];
    law_joined(lines, '\n');
    law_merged(lists);
    assert(merged(lists).contains(t) <==> t.len() > 0 && exists|i: int|
        0 <= i < lists.len() && lists_tracker(#[trigger] lists[i], t));
    assert(lists_tracker(list, t) <==> exists|i: int|
        0 <= i < lines.len() && trimmed(#[trigger] lines[i]) == t);
    if lists_tracker(list, t) {
        assert(lists_tracker(lists[0], t));
    }
}

}
