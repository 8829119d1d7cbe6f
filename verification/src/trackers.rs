//! The lists of public trackers.

use crate::text::{decimal, law_trim_idempotent, push_decimal, same, split, split_at_char, texts, trim, trimmed};
use vstd::prelude::*;
use vstd::string::*;

verus! {

/// The addresses of the known tracker lists.
pub open spec fn list_addresses() -> Seq<Seq<char>> {
    seq![
        "https://raw.githubusercontent.com/ngosang/trackerslist/master/trackers_best.txt"@,
        "https://raw.githubusercontent.com/ngosang/trackerslist/master/trackers_all_udp.txt"@,
        "https://raw.githubusercontent.com/XIU2/TrackersListCollection/master/best.txt"@,
        "https://raw.githubusercontent.com/hezhijie0327/Trackerslist/main/trackerslist_tracker.txt"@,
    ]
}

/// The trackers kept so far and one more line: the line counts without the white space
/// around it, and only when something is left of it that is not kept yet.
pub open spec fn with_line(kept: Seq<Seq<char>>, line: Seq<char>) -> Seq<Seq<char>> {
    let l = trimmed(line);
    if l.len() == 0 || kept.contains(l) {
        kept
    } else {
        kept.push(l)
    }
}

/// The trackers kept so far and some more lines, one after the other.
pub open spec fn with_lines(kept: Seq<Seq<char>>, lines: Seq<Seq<char>>) -> Seq<Seq<char>>
    decreases lines.len(),
{
    if lines.len() == 0 {
        kept
    } else {
        with_line(with_lines(kept, lines.drop_last()), lines.last())
    }
}

/// The trackers in some lists, each list one text with a tracker to the line: every
/// tracker once, at its first place.
pub open spec fn merged(lists: Seq<Seq<char>>) -> Seq<Seq<char>>
    decreases lists.len(),
{
    if lists.len() == 0 {
        Seq::<Seq<char>>::empty()
    } else {
        with_lines(merged(lists.drop_last()), split(lists.last(), '\n'))
    }
}

/// Whether a list has a line with this tracker.
pub open spec fn lists_tracker(list: Seq<char>, tracker: Seq<char>) -> bool {
    exists|i: int|
        0 <= i < split(list, '\n').len() && trimmed(#[trigger] split(list, '\n')[i]) == tracker
}

/// The addresses of the known tracker lists.
pub fn tracker_urls() -> (v: Vec<String>)
    ensures
        texts(v@) == list_addresses(),
{
    let mut v: Vec<String> = Vec::new();
    v.push(
        "https://raw.githubusercontent.com/ngosang/trackerslist/master/trackers_best.txt".to_owned(),
    );
    v.push(
        "https://raw.githubusercontent.com/ngosang/trackerslist/master/trackers_all_udp.txt".to_owned(),
    );
    v.push(
        "https://raw.githubusercontent.com/XIU2/TrackersListCollection/master/best.txt".to_owned(),
    );
    v.push(
        "https://raw.githubusercontent.com/hezhijie0327/Trackerslist/main/trackerslist_tracker.txt".to_owned(),
    );
    proof {
        assert(texts(v@) =~= list_addresses());
    }
    v
}

/// The addresses that a refresh asks, one after the other: all of them.
pub fn polled_urls() -> (v: Vec<String>)
    ensures
        texts(v@) == list_addresses(),
{
    tracker_urls()
}

/// What a list of replies says, `None` standing for one that failed.
pub open spec fn reply_texts(v: Seq<Option<String>>) -> Seq<Option<Seq<char>>> {
    v.map_values(
        |r: Option<String>|
            match r {
                Some(s) => Some(s@),
                None => None,
            },
    )
}

/// The lists that came, in the order in which they were asked for.
pub open spec fn answered(replies: Seq<Option<Seq<char>>>) -> Seq<Seq<char>>
    decreases replies.len(),
{
    if replies.len() == 0 {
        Seq::<Seq<char>>::empty()
    } else {
        match replies.last() {
            Some(list) => answered(replies.drop_last()).push(list),
            None => answered(replies.drop_last()),
        }
    }
}

/// The lists that came, in the order in which they were asked for.
pub fn answered_lists(replies: Vec<Option<String>>) -> (lists: Vec<String>)
    ensures
        texts(lists@) == answered(reply_texts(replies@)),
{
    let ghost all = reply_texts(replies@);
    let mut lists: Vec<String> = Vec::new();
    proof {
        assert(texts(lists@) =~= answered(all.take(0)));
    }
    for reply in it: replies
        invariant
            it.seq() == replies@,
            all == reply_texts(replies@),
            texts(lists@) == answered(all.take(it.index() as int)),
    {
        let ghost before = texts(lists@);
        proof {
            let i = it.index() as int;
            assert(all.take(i + 1).drop_last() =~= all.take(i));
        }
        match reply {
            Some(list) => {
                let ghost text = list@;
                lists.push(list);
                proof {
                    assert(texts(lists@) =~= before.push(text));
                }
            },
            None => {},
        }
    }
    proof {
        assert(all.take(replies@.len() as int) =~= all);
    }
    lists
}

/// Whether `list` holds `s`.
fn holds(list: &Vec<String>, s: &str) -> (r: bool)
    ensures
        r == texts(list@).contains(s@),
{
    let ghost all = texts(list@);
    let mut i: usize = 0;
    while i < list.len()
        invariant
            i <= list@.len(),
            all == texts(list@),
            forall|j: int| 0 <= j < i ==> all[j] != s@,
        decreases list@.len() - i,
    {
        if same(list[i].as_str(), s) {
            proof {
                assert(all[i as int] == s@);
            }
            return true;
        }
        i = i + 1;
    }
    false
}

/// Adds the trackers of one list to those kept so far.
fn keep_list(kept: &mut Vec<String>, list: &str)
    ensures
        texts(final(kept)@) == with_lines(texts(old(kept)@), split(list@, '\n')),
{
    let lines = split_at_char(list, '\n');
    let ghost all = texts(lines@);
    let mut i: usize = 0;
    while i < lines.len()
        invariant
            i <= lines@.len(),
            all == texts(lines@),
            texts(kept@) == with_lines(texts(old(kept)@), all.take(i as int)),
        decreases lines@.len() - i,
    {
        proof {
            assert(all.take(i + 1).drop_last() =~= all.take(i as int));
            assert(all.take(i + 1).last() == lines@[i as int]@);
        }
        let l = trim(lines[i].as_str());
        let ghost before = texts(kept@);
        if !l.as_str().is_empty() && !holds(kept, l.as_str()) {
            let ghost line = l@;
            kept.push(l);
            proof {
                assert(texts(kept@) =~= before.push(line));
            }
        }
        i = i + 1;
    }
    proof {
        assert(all.take(i as int) =~= all);
    }
}

/// The trackers in some lists: every tracker once.
pub fn merge_trackers(lists: &Vec<String>) -> (v: Vec<String>)
    ensures
        texts(v@) == merged(texts(lists@)),
{
    let ghost all = texts(lists@);
    let mut kept: Vec<String> = Vec::new();
    let mut i: usize = 0;
    proof {
        assert(texts(kept@) =~= Seq::<Seq<char>>::empty());
    }
    while i < lists.len()
        invariant
            i <= lists@.len(),
            all == texts(lists@),
            texts(kept@) == merged(all.take(i as int)),
        decreases lists@.len() - i,
    {
        proof {
            assert(all.take(i + 1).drop_last() =~= all.take(i as int));
            assert(all.take(i + 1).last() == lists@[i as int]@);
        }
        keep_list(&mut kept, lists[i].as_str());
        i = i + 1;
    }
    proof {
        assert(all.take(i as int) =~= all);
    }
    kept
}

/// The message after a refresh that found `n` trackers.
pub open spec fn loaded_text(n: nat) -> Seq<char> {
    "✓ "@ + decimal(n) + " trackers loaded"@
}

/// The message after a refresh that found `n` trackers.
pub fn loaded_message(n: usize) -> (s: String)
    ensures
        s@ == loaded_text(n as nat),
{
    let mut s = "✓ ".to_owned();
    push_decimal(&mut s, n as u64);
    s.append(" trackers loaded");
    s
}

proof fn lemma_with_lines(kept: Seq<Seq<char>>, lines: Seq<Seq<char>>)
    requires
        kept.no_duplicates(),
    ensures
        with_lines(kept, lines).no_duplicates(),
        forall|t: Seq<char>|
            #![trigger with_lines(kept, lines).contains(t)]
            with_lines(kept, lines).contains(t) <==> kept.contains(t) || (t.len() > 0 && exists|
                i: int,
            | 0 <= i < lines.len() && trimmed(#[trigger] lines[i]) == t),
    decreases lines.len(),
{
    if lines.len() > 0 {
        let init = lines.drop_last();
        let before = with_lines(kept, init);
        lemma_with_lines(kept, init);
        let l = trimmed(lines.last());
        let after = with_lines(kept, lines);
        assert forall|t: Seq<char>| #[trigger]
            after.contains(t) <==> before.contains(t) || (t == l && l.len() > 0) by {
            if l.len() > 0 && !before.contains(l) {
                if before.contains(t) {
                    let k = choose|k: int| 0 <= k < before.len() && before[k] == t;
                    assert(after[k] == t);
                }
                assert(after[before.len() as int] == l);
                if after.contains(t) {
                    let k = choose|k: int| 0 <= k < after.len() && after[k] == t;
                    if k < before.len() {
                        assert(before[k] == t);
                    }
                }
            }
        }
        assert forall|t: Seq<char>| #[trigger]
            with_lines(kept, lines).contains(t) <==> kept.contains(t) || (t.len() > 0 && exists|
                i: int,
            | 0 <= i < lines.len() && trimmed(#[trigger] lines[i]) == t) by {
            assert(before.contains(t) <==> kept.contains(t) || (t.len() > 0 && exists|i: int|
                0 <= i < init.len() && trimmed(#[trigger] init[i]) == t));
            if exists|i: int| 0 <= i < init.len() && trimmed(#[trigger] init[i]) == t {
                let i = choose|i: int| 0 <= i < init.len() && trimmed(#[trigger] init[i]) == t;
                assert(trimmed(lines[i]) == t);
            }
            if exists|i: int| 0 <= i < lines.len() && trimmed(#[trigger] lines[i]) == t {
                let i = choose|i: int| 0 <= i < lines.len() && trimmed(#[trigger] lines[i]) == t;
                if i < init.len() {
                    assert(trimmed(init[i]) == t);
                }
            }
            if t == l {
                assert(trimmed(lines[lines.len() - 1]) == t);
            }
        }
    }
}

/// Merged lists hold no tracker twice, none that is empty and none with white space
/// around it, and exactly the trackers that some list has a line with.
pub proof fn law_merged(lists: Seq<Seq<char>>)
    ensures
        merged(lists).no_duplicates(),
        forall|t: Seq<char>| #[trigger]
            merged(lists).contains(t) <==> t.len() > 0 && exists|i: int|
                0 <= i < lists.len() && lists_tracker(#[trigger] lists[i], t),
        forall|t: Seq<char>| #[trigger] merged(lists).contains(t) ==> trimmed(t) == t,
    decreases lists.len(),
{
    if lists.len() > 0 {
        let init = lists.drop_last();
        law_merged(init);
        lemma_with_lines(merged(init), split(lists.last(), '\n'));
        assert forall|t: Seq<char>| #[trigger]
            merged(lists).contains(t) <==> t.len() > 0 && exists|i: int|
                0 <= i < lists.len() && lists_tracker(#[trigger] lists[i], t) by {
            assert(merged(init).contains(t) <==> t.len() > 0 && exists|i: int|
                0 <= i < init.len() && lists_tracker(#[trigger] init[i], t));
            if exists|i: int| 0 <= i < init.len() && lists_tracker(#[trigger] init[i], t) {
                let i = choose|i: int| 0 <= i < init.len() && lists_tracker(#[trigger] init[i], t);
                assert(lists_tracker(lists[i], t));
            }
            if exists|i: int| 0 <= i < lists.len() && lists_tracker(#[trigger] lists[i], t) {
                let i = choose|i: int| 0 <= i < lists.len() && lists_tracker(#[trigger] lists[i], t);
                if i < init.len() {
                    assert(lists_tracker(init[i], t));
                }
            }
            if lists_tracker(lists.last(), t) {
                assert(lists_tracker(lists[lists.len() - 1], t));
            }
        }
    }
    assert forall|t: Seq<char>| #[trigger] merged(lists).contains(t) implies trimmed(t) == t by {
        let i = choose|i: int| 0 <= i < lists.len() && lists_tracker(#[trigger] lists[i], t);
        let lines = split(lists[i], '\n');
        let k = choose|k: int| 0 <= k < lines.len() && trimmed(#[trigger] lines[k]) == t;
        law_trim_idempotent(lines[k]);
    }
}

proof fn lemma_answered(replies: Seq<Option<Seq<char>>>, t: Seq<char>)
    ensures
        (exists|i: int|
            0 <= i < answered(replies).len() && lists_tracker(#[trigger] answered(replies)[i], t))
            <==> (exists|i: int|
            0 <= i < replies.len() && (#[trigger] replies[i]) is Some && lists_tracker(
                replies[i]->0,
                t,
            )),
    decreases replies.len(),
{
    if replies.len() > 0 {
        let init = replies.drop_last();
        lemma_answered(init, t);
        let (few, all) = (answered(init), answered(replies));
        if exists|i: int| 0 <= i < all.len() && lists_tracker(#[trigger] all[i], t) {
            let i = choose|i: int| 0 <= i < all.len() && lists_tracker(#[trigger] all[i], t);
            if i < few.len() {
                assert(lists_tracker(few[i], t));
                let k = choose|k: int|
                    0 <= k < init.len() && (#[trigger] init[k]) is Some && lists_tracker(
                        init[k]->0,
                        t,
                    );
                assert(replies[k] is Some);
            } else {
                assert(replies[replies.len() - 1] is Some);
            }
        }
        if exists|i: int|
            0 <= i < replies.len() && (#[trigger] replies[i]) is Some && lists_tracker(
                replies[i]->0,
                t,
            ) {
            let i = choose|i: int|
                0 <= i < replies.len() && (#[trigger] replies[i]) is Some && lists_tracker(
                    replies[i]->0,
                    t,
                );
            if i < init.len() {
                assert(init[i] is Some);
                let k = choose|k: int| 0 <= k < few.len() && lists_tracker(#[trigger] few[k], t);
                assert(all[k] == few[k]);
            } else {
                assert(all[few.len() as int] == replies[i]->0);
            }
        }
    }
}

/// A refresh gives exactly the trackers that some list that came has a line with,
/// whichever of the lists came: each once, none empty.
pub proof fn law_refresh(replies: Seq<Option<Seq<char>>>)
    ensures
        merged(answered(replies)).no_duplicates(),
        forall|t: Seq<char>| #[trigger]
            merged(answered(replies)).contains(t) <==> t.len() > 0 && exists|i: int|
                0 <= i < replies.len() && (#[trigger] replies[i]) is Some && lists_tracker(
                    replies[i]->0,
                    t,
                ),
{
    law_merged(answered(replies));
    assert forall|t: Seq<char>| #[trigger]
        merged(answered(replies)).contains(t) <==> t.len() > 0 && exists|i: int|
            0 <= i < replies.len() && (#[trigger] replies[i]) is Some && lists_tracker(
                replies[i]->0,
                t,
            ) by {
        lemma_answered(replies, t);
    }
}

}
