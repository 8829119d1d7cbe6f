//! What holds of texts, numbers in texts, and JSON values.

use crate::json::{lookup, JsonView};
use crate::text::{all_digits, base_name, clip, decimal, digits_value, is_digit, is_space, joined, last_component, lemma_decimal_digits, number_up_to, occurs_at, occurs_in, pad_left, repeated, spelled_number, split, trim_end, trim_start, trimmed, two_digits};
use vstd::prelude::*;

verus! {

/// A clipped text is the beginning of the text: all of it where it is short enough, and
/// of just the given length otherwise.
pub proof fn law_clip(s: Seq<char>, n: nat)
    ensures
        clip(s, n as int).is_prefix_of(s),
        s.len() <= n ==> clip(s, n as int) == s,
        s.len() >= n ==> clip(s, n as int).len() == n,
{
}

/// A text that is aligned to the right is the text behind blanks, and takes up the width
/// or, where it is longer, no more than itself.
pub proof fn law_pad_left(s: Seq<char>, width: nat)
    ensures
        s.is_suffix_of(pad_left(s, width as int)),
        s.len() <= width ==> pad_left(s, width as int).len() == width,
        s.len() >= width ==> pad_left(s, width as int) == s,
        forall|i: int|
            0 <= i < pad_left(s, width as int).len() - s.len() ==> #[trigger] pad_left(
                s,
                width as int,
            )[i] == ' ',
{
    let p = pad_left(s, width as int);
    assert(p.subrange(p.len() - s.len(), p.len() as int) =~= s);
    if s.len() >= width {
        assert(p =~= s);
    }
}

/// Copies of a character: so many, and all the same.
pub proof fn law_repeated(c: char, n: nat)
    ensures
        repeated(c, n as int).len() == n,
        forall|i: int| 0 <= i < n ==> #[trigger] repeated(c, n as int)[i] == c,
{
}

/// The ten digits.
pub proof fn law_digits(c: char)
    ensures
        is_digit(c) <==> c == '0' || c == '1' || c == '2' || c == '3' || c == '4' || c == '5' || c
            == '6' || c == '7' || c == '8' || c == '9',
{
}

/// One more digit counts ten times what was there, and itself.
pub proof fn law_digits_value(s: Seq<char>, c: char)
    requires
        is_digit(c),
    ensures
        digits_value(s.push(c)) == 10 * digits_value(s) + (c as u32 - '0' as u32),
        digits_value(Seq::<char>::empty()) == 0,
{
    assert(s.push(c).drop_last() =~= s);
}

/// A number is written without leading noughts.
pub proof fn law_decimal_starts(n: nat)
    ensures
        decimal(n).len() > 0,
        decimal(n)[0] == '0' ==> decimal(n) == seq!['0'] && n == 0,
    decreases n,
{
    if n >= 10 {
        law_decimal_starts(n / 10);
        assert(decimal(n)[0] == decimal(n / 10)[0]);
    }
}

/// A number in two digits at least reads back to itself, and takes two where it can.
pub proof fn law_two_digits(n: nat)
    ensures
        all_digits(two_digits(n)),
        digits_value(two_digits(n)) == n,
        two_digits(n).len() >= 2,
        n < 100 ==> two_digits(n).len() == 2,
{
    lemma_decimal_digits(n);
    let s = two_digits(n);
    if n < 10 {
        assert(s =~= seq!['0'].push(decimal(n)[0]));
        assert(decimal(n) =~= Seq::<char>::empty().push(decimal(n)[0]));
        law_digits_value(seq!['0'], decimal(n)[0]);
        law_digits_value(Seq::<char>::empty(), decimal(n)[0]);
        assert(seq!['0'] =~= Seq::<char>::empty().push('0'));
        law_digits_value(Seq::<char>::empty(), '0');
    } else {
        assert(decimal(n).len() == decimal(n / 10).len() + 1);
        lemma_decimal_digits(n / 10);
        if n < 100 {
            assert(decimal(n / 10).len() == 1);
        }
    }
}

/// What counts as a number: digits, at least one, after a plus sign or without one.
pub proof fn law_spelled_number(s: Seq<char>)
    ensures
        all_digits(s) ==> spelled_number(s) == Some(digits_value(s)),
        all_digits(s) ==> spelled_number(seq!['+'] + s) == Some(digits_value(s)),
        spelled_number(s) is Some ==> all_digits(s) || s.len() > 0 && s[0] == '+' && all_digits(
            s.skip(1),
        ),
{
    if s.len() > 0 {
        assert(s.drop_first() =~= s.skip(1));
        if all_digits(s) {
            assert(is_digit(s[0]));
        }
    }
    assert((seq!['+'] + s).drop_first() =~= s);
}

/// A bounded number is the number itself where it is within the bound, and none beyond.
pub proof fn law_number_up_to(n: nat, max: nat)
    ensures
        number_up_to(decimal(n), max) == if n <= max {
            Some(n)
        } else {
            None
        },
{
    crate::text::law_decimal_round_trip(n);
}

/// A trimmed text is the text between white space: white space before, white space behind,
/// and none at its own ends.
pub proof fn law_trimmed(s: Seq<char>) -> (around: (Seq<char>, Seq<char>))
    ensures
        s == around.0 + trimmed(s) + around.1,
        forall|i: int| 0 <= i < around.0.len() ==> is_space(#[trigger] around.0[i]),
        forall|i: int| 0 <= i < around.1.len() ==> is_space(#[trigger] around.1[i]),
        trimmed(s).len() > 0 ==> !is_space(trimmed(s)[0]) && !is_space(trimmed(s).last()),
{
    let before = lemma_trimmed_start(s);
    let behind = lemma_trimmed_end(trim_start(s));
    if trimmed(s).len() > 0 {
        assert(trim_start(s)[0] == trimmed(s)[0]);
    }
    assert(s =~= before + trimmed(s) + behind);
    (before, behind)
}

proof fn lemma_trimmed_start(s: Seq<char>) -> (before: Seq<char>)
    ensures
        s == before + trim_start(s),
        forall|i: int| 0 <= i < before.len() ==> is_space(#[trigger] before[i]),
        trim_start(s).len() > 0 ==> !is_space(trim_start(s)[0]),
    decreases s.len(),
{
    if s.len() > 0 && is_space(s[0]) {
        let rest = lemma_trimmed_start(s.drop_first());
        let before = seq![s[0]] + rest;
        let end = trim_start(s);
        assert(s.drop_first() == rest + end);
        assert(s =~= seq![s[0]] + s.drop_first());
        assert(before + end =~= seq![s[0]] + (rest + end));
        before
    } else {
        assert(s =~= Seq::<char>::empty() + s);
        Seq::<char>::empty()
    }
}

proof fn lemma_trimmed_end(s: Seq<char>) -> (behind: Seq<char>)
    ensures
        s == trim_end(s) + behind,
        forall|i: int| 0 <= i < behind.len() ==> is_space(#[trigger] behind[i]),
        trim_end(s).len() > 0 ==> !is_space(trim_end(s).last()),
    decreases s.len(),
{
    if s.len() > 0 && is_space(s.last()) {
        let rest = lemma_trimmed_end(s.drop_last());
        let behind = rest.push(s.last());
        let start = trim_end(s);
        assert(s.drop_last() == start + rest);
        assert(s =~= s.drop_last().push(s.last()));
        assert(start + behind =~= (start + rest).push(s.last()));
        behind
    } else {
        assert(s =~= s + Seq::<char>::empty());
        Seq::<char>::empty()
    }
}

/// A part occurs in a text if and only if the text is something, the part, and something.
pub proof fn law_occurs(part: Seq<char>, before: Seq<char>, behind: Seq<char>, s: Seq<char>)
    ensures
        occurs_in(part, before + part + behind),
        occurs_in(part, s) ==> exists|i: int|
            0 <= i <= s.len() - part.len() && #[trigger] s.subrange(i, i + part.len()) == part,
{
    let whole = before + part + behind;
    assert(whole.subrange(before.len() as int, (before.len() + part.len()) as int) =~= part);
    assert(occurs_at(part, whole, before.len() as int));
}

/// The pieces of a text, put together again with the separator between them, are the text;
/// no piece holds the separator.
pub proof fn law_split(s: Seq<char>, sep: char)
    ensures
        split(s, sep).len() > 0,
        joined(split(s, sep), seq![sep]) == s,
        forall|i: int| 0 <= i < split(s, sep).len() ==> !(#[trigger] split(s, sep)[i]).contains(sep),
    decreases s.len(),
{
    let parts = split(s, sep);
    if s.len() == 0 {
        assert(joined(parts, seq![sep]) =~= s);
    } else {
        let before = split(s.drop_last(), sep);
        law_split(s.drop_last(), sep);
        if s.last() == sep {
            assert(parts.drop_last() =~= before);
            assert(joined(parts, seq![sep]) =~= s);
        } else {
            let front = before.drop_last();
            let piece = before.last().push(s.last());
            assert(parts.drop_last() =~= front);
            assert(!before.last().contains(sep)) by {
                assert(before[before.len() - 1] == before.last());
            }
            assert(!piece.contains(sep)) by {
                if piece.contains(sep) {
                    let k = choose|k: int| 0 <= k < piece.len() && piece[k] == sep;
                    assert(before.last()[k] == sep);
                }
            }
            assert(parts.last() == piece);
            assert(s =~= s.drop_last().push(s.last()));
            if before.len() == 1 {
                assert(joined(parts, seq![sep]) == piece);
            } else {
                let start = joined(front, seq![sep]) + seq![sep];
                assert(joined(before, seq![sep]) == start + before.last());
                assert(joined(parts, seq![sep]) == start + piece);
                assert(start + piece =~= (start + before.last()).push(s.last()));
            }
        }
        assert forall|i: int| 0 <= i < parts.len() implies !(#[trigger] parts[i]).contains(sep) by {
            if i < parts.len() - 1 {
                assert(parts[i] == before[i]);
            }
        }
    }
}

/// What stands behind the last separator is the last piece.
proof fn lemma_last_piece(a: Seq<char>, b: Seq<char>, sep: char)
    requires
        !b.contains(sep),
    ensures
        split(a.push(sep) + b, sep).last() == b,
        split(a.push(sep) + b, sep).drop_last() == split(a, sep),
        split(b, sep) == seq![b],
    decreases b.len(),
{
    if b.len() == 0 {
        assert(a.push(sep) + b =~= a.push(sep));
        assert(a.push(sep).drop_last() =~= a);
        assert(split(a.push(sep), sep).last() =~= b);
        assert(split(a.push(sep), sep).drop_last() =~= split(a, sep));
        assert(split(b, sep) =~= seq![b]);
    } else {
        let c = b.drop_last();
        assert(b[b.len() - 1] != sep);
        assert(!c.contains(sep)) by {
            if c.contains(sep) {
                let k = choose|k: int| 0 <= k < c.len() && c[k] == sep;
                assert(b[k] == sep);
            }
        }
        lemma_last_piece(a, c, sep);
        assert((a.push(sep) + b).drop_last() =~= a.push(sep) + c);
        assert(c.push(b.last()) =~= b);
        let before = split(a.push(sep) + c, sep);
        let parts = split(a.push(sep) + b, sep);
        assert(parts =~= before.drop_last().push(b));
        assert(parts.drop_last() =~= split(a, sep));
        assert(split(b, sep) =~= seq![b]);
    }
}

/// Texts without the separator that are put together with it between them come apart into
/// the same texts.
pub proof fn law_joined(parts: Seq<Seq<char>>, sep: char)
    requires
        parts.len() > 0,
        forall|i: int| 0 <= i < parts.len() ==> !(#[trigger] parts[i]).contains(sep),
    ensures
        split(joined(parts, seq![sep]), sep) == parts,
    decreases parts.len(),
{
    let last = parts.last();
    assert(!parts[parts.len() - 1].contains(sep));
    if parts.len() == 1 {
        lemma_last_piece(Seq::<char>::empty(), last, sep);
        assert(parts =~= seq![last]);
    } else {
        let front = joined(parts.drop_last(), seq![sep]);
        law_joined(parts.drop_last(), sep);
        lemma_last_piece(front, last, sep);
        assert(front + seq![sep] + last =~= front.push(sep) + last);
        let got = split(front.push(sep) + last, sep);
        assert(got =~= got.drop_last().push(got.last())) by {
            law_split(front.push(sep) + last, sep);
        }
        assert(parts =~= parts.drop_last().push(last));
    }
}

/// The file name of a path is what stands behind its last slash, or the whole path where
/// it has none.
pub proof fn law_base_name(dir: Seq<char>, name: Seq<char>)
    requires
        !name.contains('/'),
        name.len() > 0,
        name != seq!['.'],
        name != seq!['.', '.'],
    ensures
        base_name(name) == Some(name),
        base_name(dir.push('/') + name) == Some(name),
        base_name(dir.push('/') + name + seq!['/']) == Some(name),
{
    reveal_strlit("");
    reveal_strlit(".");
    reveal_strlit("..");
    assert(""@ =~= Seq::<char>::empty());
    assert("."@ =~= seq!['.']);
    assert(".."@ =~= seq!['.', '.']);
    lemma_last_piece(dir, name, '/');
    assert(split(name, '/').last() == name);
    let path = dir.push('/') + name;
    law_split(path, '/');
    lemma_last_piece(path, Seq::<char>::empty(), '/');
    assert(path + seq!['/'] =~= path.push('/') + Seq::<char>::empty());
    law_split(path + seq!['/'], '/');
    let parts = split(path + seq!['/'], '/');
    assert(parts.last() == ""@);
    assert(last_component(parts) == last_component(parts.drop_last()));
}

/// The file name of a path, where it has one, is no empty text, holds no slash, and is
/// neither of the two names that stand for directories.
pub proof fn law_base_name_is_a_name(path: Seq<char>)
    ensures
        base_name(path) matches Some(name) ==> name.len() > 0 && !name.contains('/') && name
            != seq!['.'] && name != seq!['.', '.'],
{
    reveal_strlit("");
    reveal_strlit(".");
    reveal_strlit("..");
    assert(""@ =~= Seq::<char>::empty());
    assert("."@ =~= seq!['.']);
    assert(".."@ =~= seq!['.', '.']);
    law_split(path, '/');
    lemma_component_is_a_part(split(path, '/'));
    if let Some(name) = base_name(path) {
        if name.len() == 0 {
            assert(name =~= ""@);
        }
    }
}

proof fn lemma_component_is_a_part(parts: Seq<Seq<char>>)
    ensures
        last_component(parts) matches Some(name) ==> parts.contains(name) && name != ""@ && name
            != "."@ && name != ".."@,
    decreases parts.len(),
{
    if parts.len() > 0 {
        lemma_component_is_a_part(parts.drop_last());
        if let Some(name) = last_component(parts) {
            if parts.last() == name {
                assert(parts[parts.len() - 1] == name);
            } else {
                let k = choose|k: int|
                    0 <= k < parts.drop_last().len() && parts.drop_last()[k] == name;
                assert(parts[k] == name);
            }
        }
    }
}

// ---------------------------------------------------------------------------
// JSON
// ---------------------------------------------------------------------------

/// The value of a name is that of the first field with the name, and there is none only
/// where no field has it.
pub proof fn law_lookup(fields: Seq<(Seq<char>, JsonView)>, name: Seq<char>)
    ensures
        match lookup(fields, name) {
            Some(v) => exists|i: int|
                0 <= i < fields.len() && #[trigger] fields[i] == (name, v) && forall|j: int|
                    0 <= j < i ==> (#[trigger] fields[j]).0 != name,
            None => forall|j: int| 0 <= j < fields.len() ==> (#[trigger] fields[j]).0 != name,
        },
    decreases fields.len(),
{
    if fields.len() > 0 {
        let init = fields.drop_last();
        law_lookup(init, name);
        match lookup(init, name) {
            Some(v) => {
                let i = choose|i: int|
                    0 <= i < init.len() && #[trigger] init[i] == (name, v) && forall|j: int|
                        0 <= j < i ==> (#[trigger] init[j]).0 != name;
                assert(fields[i] == (name, v));
                assert forall|j: int| 0 <= j < i implies (#[trigger] fields[j]).0 != name by {
                    assert(init[j].0 != name);
                }
            },
            None => {
                assert forall|j: int| 0 <= j < init.len() implies (#[trigger] fields[j]).0
                    != name by {
                    assert(init[j].0 != name);
                }
                if fields.last().0 == name {
                    assert(fields[fields.len() - 1] == (name, fields.last().1));
                }
            },
        }
    }
}

/// A field whose name stands nowhere before is read as it was written, from an object; and
/// nothing is read from any other value.
pub proof fn law_field(fields: Seq<(Seq<char>, JsonView)>, i: int, v: JsonView, name: Seq<char>)
    requires
        0 <= i < fields.len(),
        forall|j: int| 0 <= j < i ==> (#[trigger] fields[j]).0 != fields[i].0,
    ensures
        JsonView::Object(fields).field(fields[i].0) == fields[i].1,
        !(v is Object) ==> v.field(name) == JsonView::Null,
{
    law_lookup(fields, fields[i].0);
    let wanted = fields[i].0;
    match lookup(fields, wanted) {
        Some(x) => {
            let k = choose|k: int|
                0 <= k < fields.len() && #[trigger] fields[k] == (wanted, x) && forall|j: int|
                    0 <= j < k ==> (#[trigger] fields[j]).0 != wanted;
            if k < i {
                assert(fields[k].0 != wanted);
            } else if i < k {
                assert(fields[i].0 != wanted);
            }
        },
        None => {
            assert(fields[i].0 != wanted);
        },
    }
}

/// Each JSON value is read as what it is, and as nothing else.
pub proof fn law_json_reads(s: Seq<char>, n: u64, items: Seq<JsonView>, i: int, v: JsonView)
    ensures
        JsonView::Str(s).text() == Some(s),
        JsonView::Str(s).text_or(v.text_or(s)) == s,
        JsonView::UInt(n).uint_or_nought() == n,
        JsonView::Array(items).items() == items,
        0 <= i < items.len() ==> JsonView::Array(items).item(i) == items[i],
        !(0 <= i < items.len()) ==> JsonView::Array(items).item(i) == JsonView::Null,
        !(v is Str) ==> v.text() is None && v.text_or(s) == s,
        !(v is UInt) ==> v.uint_or_nought() == 0,
        !(v is Array) ==> v.items().len() == 0 && v.item(i) == JsonView::Null,
{
}

}
