//! Text as the rest of the library builds and reads it.
//!
//! A text is modelled by the sequence of its characters. The spec functions of this
//! module say what each operation means on such sequences; the executable functions
//! of the same purpose are proved against them.

use vstd::prelude::*;
use vstd::string::*;
use vstd::utf8::*;

verus! {

// ---------------------------------------------------------------------------
// Trusted: three `String` methods that vstd leaves without a specification
// ---------------------------------------------------------------------------

/// `String::push` appends one character.
pub assume_specification[ String::push ](s: &mut String, c: char)
    ensures
        final(s)@ == old(s)@.push(c),
;

/// `String::pop` removes the last character and returns it; on an empty string it
/// returns `None` and changes nothing.
pub assume_specification[ String::pop ](s: &mut String) -> (last: Option<char>)
    ensures
        old(s)@.len() == 0 ==> last is None && final(s)@ == old(s)@,
        old(s)@.len() > 0 ==> last == Some(old(s)@.last()) && final(s)@ == old(s)@.drop_last(),
;

/// `String::clear` removes all characters.
pub assume_specification[ String::clear ](s: &mut String)
    ensures
        final(s)@ == Seq::<char>::empty(),
;

// ---------------------------------------------------------------------------
// Meaning
// ---------------------------------------------------------------------------

/// The first `n` characters of `s`, or all of it when it is shorter.
pub open spec fn clip(s: Seq<char>, n: int) -> Seq<char> {
    if s.len() <= n {
        s
    } else {
        s.take(n)
    }
}

/// `n` copies of `c`.
pub open spec fn repeated(c: char, n: int) -> Seq<char> {
    if n <= 0 {
        Seq::<char>::empty()
    } else {
        Seq::new(n as nat, |i: int| c)
    }
}

/// `s` right-aligned in a field of `width` characters; a longer text is kept whole.
pub open spec fn pad_left(s: Seq<char>, width: int) -> Seq<char> {
    repeated(' ', width - s.len()) + s
}

/// The decimal digit of value `d`, for `d` below ten.
pub open spec fn digit(d: int) -> char {
    (48 + d) as u8 as char
}

/// Whether `c` is one of `0` to `9`.
pub open spec fn is_digit(c: char) -> bool {
    '0' <= c && c <= '9'
}

/// `n` in decimal, without leading zeros.
pub open spec fn decimal(n: nat) -> Seq<char>
    decreases n,
{
    if n < 10 {
        seq![digit(n as int)]
    } else {
        decimal(n / 10).push(digit((n % 10) as int))
    }
}

/// `n` in decimal, with a leading zero when it has one digit only.
pub open spec fn two_digits(n: nat) -> Seq<char> {
    if n < 10 {
        seq!['0'] + decimal(n)
    } else {
        decimal(n)
    }
}

/// The number that a sequence of decimal digits denotes.
pub open spec fn digits_value(s: Seq<char>) -> nat
    decreases s.len(),
{
    if s.len() == 0 {
        0
    } else {
        digits_value(s.drop_last()) * 10 + (s.last() as u32 - 48) as nat
    }
}

/// Whether `s` holds decimal digits only, and at least one.
pub open spec fn all_digits(s: Seq<char>) -> bool {
    s.len() > 0 && forall|i: int| 0 <= i < s.len() ==> is_digit(#[trigger] s[i])
}

/// `s` without the `+` that it may begin with.
pub open spec fn without_plus(s: Seq<char>) -> Seq<char> {
    if s.len() > 0 && s[0] == '+' {
        s.drop_first()
    } else {
        s
    }
}

/// The unsigned number that `s` spells: at least one decimal digit and nothing else,
/// after an optional `+`.
pub open spec fn spelled_number(s: Seq<char>) -> Option<nat> {
    if all_digits(without_plus(s)) {
        Some(digits_value(without_plus(s)))
    } else {
        None
    }
}

/// The number that `s` spells, when it is at most `max`.
pub open spec fn number_up_to(s: Seq<char>, max: nat) -> Option<nat> {
    match spelled_number(s) {
        Some(n) => if n <= max {
            Some(n)
        } else {
            None
        },
        None => None,
    }
}

/// The characters with the Unicode property `White_Space`.
pub open spec fn is_space(c: char) -> bool {
    ||| '\u{9}' <= c && c <= '\u{d}'
    ||| c == '\u{20}'
    ||| c == '\u{85}'
    ||| c == '\u{a0}'
    ||| c == '\u{1680}'
    ||| '\u{2000}' <= c && c <= '\u{200a}'
    ||| c == '\u{2028}'
    ||| c == '\u{2029}'
    ||| c == '\u{202f}'
    ||| c == '\u{205f}'
    ||| c == '\u{3000}'
}

/// `s` without the white space that it begins with.
pub open spec fn trim_start(s: Seq<char>) -> Seq<char>
    decreases s.len(),
{
    if s.len() > 0 && is_space(s[0]) {
        trim_start(s.drop_first())
    } else {
        s
    }
}

/// `s` without the white space that it ends with.
pub open spec fn trim_end(s: Seq<char>) -> Seq<char>
    decreases s.len(),
{
    if s.len() > 0 && is_space(s.last()) {
        trim_end(s.drop_last())
    } else {
        s
    }
}

/// `s` without the white space around it.
pub open spec fn trimmed(s: Seq<char>) -> Seq<char> {
    trim_end(trim_start(s))
}

/// Whether `part` occurs in `s` without a gap.
pub open spec fn occurs_in(part: Seq<char>, s: Seq<char>) -> bool {
    exists|i: int| occurs_at(part, s, i)
}

/// Whether `part` occurs in `s` from position `i` on.
pub open spec fn occurs_at(part: Seq<char>, s: Seq<char>, i: int) -> bool {
    0 <= i && i + part.len() <= s.len() && s.subrange(i, i + part.len()) == part
}

/// The pieces of `s` between the occurrences of `sep`, in order; there is one piece
/// more than there are separators.
pub open spec fn split(s: Seq<char>, sep: char) -> Seq<Seq<char>>
    decreases s.len(),
{
    if s.len() == 0 {
        seq![Seq::<char>::empty()]
    } else {
        let before = split(s.drop_last(), sep);
        if s.last() == sep {
            before.push(Seq::<char>::empty())
        } else {
            before.drop_last().push(before.last().push(s.last()))
        }
    }
}

/// The last component of a path that is split at its slashes: empty components and `.`
/// do not count, and a path that ends in `..` has none.
pub open spec fn last_component(parts: Seq<Seq<char>>) -> Option<Seq<char>>
    decreases parts.len(),
{
    if parts.len() == 0 {
        None
    } else if parts.last() == ""@ || parts.last() == "."@ {
        last_component(parts.drop_last())
    } else if parts.last() == ".."@ {
        None
    } else {
        Some(parts.last())
    }
}

/// The file name at the end of a path, if it ends in one.
pub open spec fn base_name(path: Seq<char>) -> Option<Seq<char>> {
    last_component(split(path, '/'))
}

/// `parts` in order, with `sep` between neighbours.
pub open spec fn joined(parts: Seq<Seq<char>>, sep: Seq<char>) -> Seq<char>
    decreases parts.len(),
{
    if parts.len() == 0 {
        Seq::<char>::empty()
    } else if parts.len() == 1 {
        parts[0]
    } else {
        joined(parts.drop_last(), sep) + sep + parts.last()
    }
}

/// The contents of a vector of strings.
pub open spec fn texts(v: Seq<String>) -> Seq<Seq<char>> {
    v.map_values(|s: String| s@)
}

// ---------------------------------------------------------------------------
// Characters and comparison
// ---------------------------------------------------------------------------

/// The characters of `s`.
pub fn chars_of(s: &str) -> (chars: Vec<char>)
    ensures
        chars@ == s@,
{
    let mut chars: Vec<char> = Vec::new();
    for c in it: s.chars()
        invariant
            it.seq() == s@,
            chars@ == it.seq().take(it.index() as int),
    {
        chars.push(c);
    }
    chars
}

/// The text made of `chars[from..to]`.
pub fn text_of(chars: &Vec<char>, from: usize, to: usize) -> (s: String)
    requires
        from <= to <= chars@.len(),
    ensures
        s@ == chars@.subrange(from as int, to as int),
{
    let mut s = String::new();
    let mut i: usize = from;
    while i < to
        invariant
            from <= i <= to <= chars@.len(),
            s@ == chars@.subrange(from as int, i as int),
        decreases to - i,
    {
        s.push(chars[i]);
        i = i + 1;
    }
    s
}

/// Whether two texts are the same.
pub fn same(a: &str, b: &str) -> (r: bool)
    ensures
        r == (a@ == b@),
{
    broadcast use encode_utf8_decode_utf8;

    let x = a.as_bytes();
    let y = b.as_bytes();
    if x.len() != y.len() {
        return false;
    }
    let mut i: usize = 0;
    while i < x.len()
        invariant
            i <= x@.len(),
            x@.len() == y@.len(),
            x@ == encode_utf8(a@),
            y@ == encode_utf8(b@),
            forall|j: int| 0 <= j < i ==> x@[j] == y@[j],
        decreases x@.len() - i,
    {
        if x[i] != y[i] {
            return false;
        }
        i = i + 1;
    }
    proof {
        assert(x@ =~= y@);
        assert(decode_utf8(encode_utf8(a@)) == a@);
        assert(decode_utf8(encode_utf8(b@)) == b@);
    }
    true
}

/// The first `n` characters of `s`.
pub fn take_chars(s: &str, n: usize) -> (r: String)
    ensures
        r@ == clip(s@, n as int),
{
    let chars = chars_of(s);
    let to: usize = if chars.len() <= n {
        chars.len()
    } else {
        n
    };
    proof {
        assert(chars@.subrange(0, to as int) =~= clip(s@, n as int));
    }
    text_of(&chars, 0, to)
}

/// Whether `s` begins with `prefix`.
pub fn starts_with(s: &str, prefix: &str) -> (r: bool)
    ensures
        r == prefix@.is_prefix_of(s@),
{
    let a = chars_of(s);
    let b = chars_of(prefix);
    b.len() <= a.len() && matches_at(&a, &b, 0)
}

/// Whether `s` ends with `suffix`.
pub fn ends_with(s: &str, suffix: &str) -> (r: bool)
    ensures
        r == suffix@.is_suffix_of(s@),
{
    let a = chars_of(s);
    let b = chars_of(suffix);
    b.len() <= a.len() && matches_at(&a, &b, a.len() - b.len())
}

/// Whether `part` occurs in `s`.
pub fn contains(s: &str, part: &str) -> (r: bool)
    ensures
        r == occurs_in(part@, s@),
{
    let a = chars_of(s);
    let b = chars_of(part);
    if b.len() > a.len() {
        return false;
    }
    let last: usize = a.len() - b.len();
    let mut i: usize = 0;
    while i <= last
        invariant
            last == a@.len() - b@.len(),
            i <= last + 1,
            a@ == s@,
            b@ == part@,
            forall|j: int| 0 <= j < i ==> !occurs_at(b@, a@, j),
        decreases last + 1 - i,
    {
        if matches_at(&a, &b, i) {
            proof {
                assert(occurs_at(part@, s@, i as int));
            }
            return true;
        }
        if i == last {
            proof {
                assert forall|j: int| !occurs_at(part@, s@, j) by {
                    if 0 <= j < i {
                        assert(!occurs_at(b@, a@, j));
                    }
                }
            }
            return false;
        }
        i = i + 1;
    }
    false
}

fn matches_at(a: &Vec<char>, b: &Vec<char>, at: usize) -> (r: bool)
    requires
        at + b@.len() <= a@.len(),
    ensures
        r == (a@.subrange(at as int, at + b@.len()) == b@),
        r == occurs_at(b@, a@, at as int),
{
    let mut i: usize = 0;
    while i < b.len()
        invariant
            i <= b@.len(),
            at + b@.len() <= a@.len(),
            forall|j: int| 0 <= j < i ==> a@[at + j] == b@[j],
        decreases b@.len() - i,
    {
        assert(at + i < a.len());
        if a[at + i] != b[i] {
            proof {
                assert(a@.subrange(at as int, at + b@.len())[i as int] != b@[i as int]);
            }
            return false;
        }
        i = i + 1;
    }
    proof {
        assert(a@.subrange(at as int, at + b@.len()) =~= b@);
    }
    true
}

// ---------------------------------------------------------------------------
// White space
// ---------------------------------------------------------------------------

/// Whether `c` is white space.
pub fn is_whitespace(c: char) -> (r: bool)
    ensures
        r == is_space(c),
{
    ('\u{9}' <= c && c <= '\u{d}') || c == '\u{20}' || c == '\u{85}' || c == '\u{a0}' || c
        == '\u{1680}' || ('\u{2000}' <= c && c <= '\u{200a}') || c == '\u{2028}' || c == '\u{2029}'
        || c == '\u{202f}' || c == '\u{205f}' || c == '\u{3000}'
}

/// `s` without the white space around it.
pub fn trim(s: &str) -> (r: String)
    ensures
        r@ == trimmed(s@),
{
    let chars = chars_of(s);
    proof {
        assert(chars@.subrange(0, chars@.len() as int) =~= s@);
    }
    trim_range(&chars, 0, chars.len())
}

/// The text `chars[from..to]` without the white space around it.
pub fn trim_range(chars: &Vec<char>, from: usize, to: usize) -> (r: String)
    requires
        from <= to <= chars@.len(),
    ensures
        r@ == trimmed(chars@.subrange(from as int, to as int)),
{
    let ghost whole = chars@.subrange(from as int, to as int);
    let mut lo: usize = from;
    let mut hi: usize = to;
    while lo < hi && is_whitespace(chars[lo])
        invariant
            from <= lo <= hi,
            hi == to,
            to <= chars@.len(),
            trim_start(chars@.subrange(lo as int, hi as int)) == trim_start(
                chars@.subrange(from as int, to as int),
            ),
        decreases hi - lo,
    {
        proof {
            assert(chars@.subrange(lo as int, hi as int).drop_first() =~= chars@.subrange(
                lo + 1,
                hi as int,
            ));
        }
        lo = lo + 1;
    }
    let ghost middle = chars@.subrange(lo as int, hi as int);
    while lo < hi && is_whitespace(chars[hi - 1])
        invariant
            lo <= hi <= chars@.len(),
            trim_end(chars@.subrange(lo as int, hi as int)) == trim_end(middle),
        decreases hi - lo,
    {
        proof {
            assert(chars@.subrange(lo as int, hi as int).drop_last() =~= chars@.subrange(
                lo as int,
                hi - 1,
            ));
        }
        hi = hi - 1;
    }
    text_of(chars, lo, hi)
}

/// Trimming what is trimmed changes nothing.
pub proof fn law_trim_idempotent(s: Seq<char>)
    ensures
        trimmed(trimmed(s)) == trimmed(s),
{
    lemma_trim_start(s);
    lemma_trim_end(trim_start(s));
}

proof fn lemma_trim_start(s: Seq<char>)
    ensures
        trim_start(s).len() > 0 ==> !is_space(trim_start(s)[0]),
    decreases s.len(),
{
    if s.len() > 0 && is_space(s[0]) {
        lemma_trim_start(s.drop_first());
    }
}

proof fn lemma_trim_end(s: Seq<char>)
    ensures
        trim_end(s).len() > 0 ==> !is_space(trim_end(s).last()),
        trim_end(s).len() > 0 ==> trim_end(s)[0] == s[0],
    decreases s.len(),
{
    if s.len() > 0 && is_space(s.last()) {
        lemma_trim_end(s.drop_last());
    }
}

// ---------------------------------------------------------------------------
// Numbers
// ---------------------------------------------------------------------------

/// Appends `n` in decimal to `s`.
pub fn push_decimal(s: &mut String, n: u64)
    ensures
        final(s)@ == old(s)@ + decimal(n as nat),
    decreases n,
{
    if n < 10 {
        s.push((48 + n as u8) as char);
    } else {
        push_decimal(s, n / 10);
        s.push((48 + (n % 10) as u8) as char);
    }
}

/// `n` in decimal.
pub fn decimal_text(n: u64) -> (s: String)
    ensures
        s@ == decimal(n as nat),
{
    let mut s = String::new();
    push_decimal(&mut s, n);
    s
}

/// The number that `s` spells, when it is at most `max`.
pub fn parse_up_to(s: &str, max: u64) -> (r: Option<u64>)
    ensures
        r is Some <==> number_up_to(s@, max as nat) is Some,
        r is Some ==> r->0 as nat == number_up_to(s@, max as nat)->0,
{
    let chars = chars_of(s);
    let from: usize = if chars.len() > 0 && chars[0] == '+' {
        1
    } else {
        0
    };
    let ghost body = chars@.subrange(from as int, chars@.len() as int);
    proof {
        assert(body =~= without_plus(s@));
    }
    if from == chars.len() {
        return None;
    }
    let mut value: u64 = 0;
    let mut over = false;
    let mut i: usize = from;
    while i < chars.len()
        invariant
            from <= i <= chars@.len(),
            body == chars@.subrange(from as int, chars@.len() as int),
            forall|j: int| 0 <= j < i - from ==> is_digit(#[trigger] body[j]),
            over ==> digits_value(body.take(i - from)) > max,
            !over ==> value as nat == digits_value(body.take(i - from)) && value <= max,
            body == without_plus(s@),
        decreases chars@.len() - i,
    {
        let c = chars[i];
        if !(c >= '0' && c <= '9') {
            proof {
                assert(!is_digit(body[i - from]));
            }
            return None;
        }
        proof {
            assert(body.take(i + 1 - from).drop_last() =~= body.take(i - from));
            assert(body.take(i + 1 - from).last() == c);
        }
        let d: u64 = (c as u32 - 48) as u64;
        if !over {
            if value > max / 10 || d > max - value * 10 {
                over = true;
            } else {
                value = value * 10 + d;
            }
        }
        i = i + 1;
    }
    proof {
        assert(body.take(body.len() as int) =~= body);
    }
    if over {
        None
    } else {
        Some(value)
    }
}

/// Writing a number and reading it back gives the same number.
pub proof fn law_decimal_round_trip(n: nat)
    ensures
        spelled_number(decimal(n)) == Some(n),
{
    lemma_decimal_digits(n);
    let s = decimal(n);
    assert(is_digit(s[0]));
    assert(s[0] != '+');
}

pub proof fn lemma_decimal_digits(n: nat)
    ensures
        decimal(n).len() > 0,
        forall|i: int| 0 <= i < decimal(n).len() ==> is_digit(#[trigger] decimal(n)[i]),
        digits_value(decimal(n)) == n,
    decreases n,
{
    let s = decimal(n);
    if n < 10 {
        assert(s.drop_last() =~= Seq::<char>::empty());
        assert(digits_value(s.drop_last()) == 0);
    } else {
        lemma_decimal_digits(n / 10);
        assert(s.drop_last() =~= decimal(n / 10));
    }
}

/// Appends `n` in decimal to `s`, in two digits at least.
pub fn push_two_digits(s: &mut String, n: u64)
    ensures
        final(s)@ == old(s)@ + two_digits(n as nat),
{
    if n < 10 {
        s.push('0');
    }
    push_decimal(s, n);
    proof {
        assert(s@ =~= old(s)@ + two_digits(n as nat));
    }
}

// ---------------------------------------------------------------------------
// Building and taking apart
// ---------------------------------------------------------------------------

/// Appends `n` copies of `c` to `s`.
pub fn push_repeated(s: &mut String, c: char, n: usize)
    ensures
        final(s)@ == old(s)@ + repeated(c, n as int),
{
    let mut i: usize = 0;
    while i < n
        invariant
            i <= n,
            s@ == old(s)@ + repeated(c, i as int),
        decreases n - i,
    {
        s.push(c);
        proof {
            assert(s@ =~= old(s)@ + repeated(c, i + 1));
        }
        i = i + 1;
    }
}

/// `s` right-aligned in a field of `width` characters.
pub fn align_right(s: &str, width: usize) -> (r: String)
    ensures
        r@ == pad_left(s@, width as int),
{
    let n: usize = s.unicode_len();
    let mut r = String::new();
    if n < width {
        push_repeated(&mut r, ' ', width - n);
    }
    r.append(s);
    proof {
        assert(r@ =~= pad_left(s@, width as int));
    }
    r
}

/// The pieces of `s` between the occurrences of `sep`.
pub fn split_at_char(s: &str, sep: char) -> (parts: Vec<String>)
    ensures
        texts(parts@) == split(s@, sep),
{
    let chars = chars_of(s);
    let mut parts: Vec<String> = Vec::new();
    let mut piece = String::new();
    let mut i: usize = 0;
    while i < chars.len()
        invariant
            i <= chars@.len(),
            chars@ == s@,
            texts(parts@).push(piece@) == split(s@.take(i as int), sep),
        decreases chars@.len() - i,
    {
        let ghost before = texts(parts@);
        let ghost piece_before = piece@;
        proof {
            assert(s@.take(i + 1).drop_last() =~= s@.take(i as int));
            assert(before.push(piece_before).drop_last() =~= before);
        }
        if chars[i] == sep {
            parts.push(piece);
            piece = String::new();
            proof {
                assert(texts(parts@) =~= before.push(piece_before));
            }
        } else {
            piece.push(chars[i]);
        }
        i = i + 1;
    }
    let ghost before = texts(parts@);
    let ghost piece_before = piece@;
    parts.push(piece);
    proof {
        assert(s@.take(i as int) =~= s@);
        assert(texts(parts@) =~= before.push(piece_before));
    }
    parts
}

/// The file name at the end of a path, if it ends in one.
pub fn file_name(path: &str) -> (r: Option<String>)
    ensures
        r is Some <==> base_name(path@) is Some,
        r is Some ==> r->0@ == base_name(path@)->0,
{
    let parts = split_at_char(path, '/');
    let ghost all = texts(parts@);
    proof {
        assert(all.take(all.len() as int) =~= all);
    }
    let mut n: usize = parts.len();
    while n > 0
        invariant
            n <= parts@.len(),
            all == texts(parts@),
            base_name(path@) == last_component(all.take(n as int)),
            all == split(path@, '/'),
        decreases n,
    {
        let part = parts[n - 1].as_str();
        proof {
            assert(all.take(n as int).last() == part@);
            assert(all.take(n as int).drop_last() =~= all.take(n - 1));
        }
        if same(part, "") || same(part, ".") {
            n = n - 1;
        } else if same(part, "..") {
            return None;
        } else {
            return Some(part.to_owned());
        }
    }
    None
}

/// `parts` in order, with `sep` between neighbours.
pub fn join(parts: &Vec<String>, sep: &str) -> (s: String)
    ensures
        s@ == joined(texts(parts@), sep@),
{
    let ghost all = texts(parts@);
    let mut s = String::new();
    let mut i: usize = 0;
    while i < parts.len()
        invariant
            i <= parts@.len(),
            all == texts(parts@),
            s@ == joined(all.take(i as int), sep@),
        decreases parts@.len() - i,
    {
        proof {
            assert(all.take(i + 1).drop_last() =~= all.take(i as int));
            assert(all.take(i + 1).last() == parts@[i as int]@);
        }
        if i > 0 {
            s.append(sep);
        }
        s.append(parts[i].as_str());
        proof {
            assert(s@ =~= joined(all.take(i + 1), sep@));
        }
        i = i + 1;
    }
    proof {
        assert(all.take(i as int) =~= all);
    }
    s
}

}
