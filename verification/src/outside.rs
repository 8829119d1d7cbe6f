//! Trusted: the calls into outside crates, each behind a function whose contract is
//! taken on trust.

use crate::screen::{Area, Constraint, Direction};
use base64::engine::general_purpose::STANDARD;
use base64::Engine;
use vstd::prelude::*;
use vstd::utf8::*;

verus! {

// ---------------------------------------------------------------------------
// Percent-encoding
// ---------------------------------------------------------------------------

/// Whether a byte stands for itself in a percent-encoded text: letters, digits and
/// `-`, `.`, `_`, `~`.
pub open spec fn is_unreserved(b: u8) -> bool {
    ||| 48 <= b <= 57
    ||| 65 <= b <= 90
    ||| 97 <= b <= 122
    ||| b == 45
    ||| b == 46
    ||| b == 95
    ||| b == 126
}

/// The upper-case hexadecimal digit of value `d`, for `d` below sixteen.
pub open spec fn hex_digit(d: int) -> char {
    if d < 10 {
        (48 + d) as u8 as char
    } else {
        (55 + d) as u8 as char
    }
}

/// A byte as it is percent-encoded.
pub open spec fn escaped(b: u8) -> Seq<char> {
    if is_unreserved(b) {
        seq![b as char]
    } else {
        seq!['%', hex_digit(b as int / 16), hex_digit(b as int % 16)]
    }
}

/// Bytes as they are percent-encoded, one after the other.
pub open spec fn escaped_bytes(bytes: Seq<u8>) -> Seq<char>
    decreases bytes.len(),
{
    if bytes.len() == 0 {
        Seq::<char>::empty()
    } else {
        escaped_bytes(bytes.drop_last()) + escaped(bytes.last())
    }
}

/// A text as it is percent-encoded: byte by byte, in UTF-8.
pub open spec fn percent_encoded(s: Seq<char>) -> Seq<char> {
    escaped_bytes(encode_utf8(s))
}

/// `urlencoding::encode` percent-encodes every byte of the UTF-8 text except letters,
/// digits and `-`, `.`, `_`, `~`, with upper-case hexadecimal digits.
#[verifier::external_body]
pub(crate) fn url_encode(s: &str) -> (r: String)
    ensures
        r@ == percent_encoded(s@),
{
    urlencoding::encode(s).into_owned()
}

// ---------------------------------------------------------------------------
// Base64
// ---------------------------------------------------------------------------

/// The character of the standard base64 alphabet for a value below sixty-four.
pub open spec fn base64_char(v: int) -> char {
    if v < 26 {
        (65 + v) as u8 as char
    } else if v < 52 {
        (71 + v) as u8 as char
    } else if v < 62 {
        (v - 4) as u8 as char
    } else if v == 62 {
        '+'
    } else {
        '/'
    }
}

/// The byte at place `i`, nought beyond the end.
pub open spec fn byte_at(data: Seq<u8>, i: int) -> int {
    if i < data.len() {
        data[i] as int
    } else {
        0
    }
}

/// The six bits of `data` from bit `6 * i` on, most significant first.
pub open spec fn sextet(data: Seq<u8>, i: int) -> int {
    let k = 3 * (i / 4);
    if i % 4 == 0 {
        byte_at(data, k) / 4
    } else if i % 4 == 1 {
        (byte_at(data, k) % 4) * 16 + byte_at(data, k + 1) / 16
    } else if i % 4 == 2 {
        (byte_at(data, k + 1) % 16) * 4 + byte_at(data, k + 2) / 64
    } else {
        byte_at(data, k + 2) % 64
    }
}

/// `data` in base64 with the standard alphabet, padded with `=` to a multiple of four
/// characters.
pub open spec fn base64_text(data: Seq<u8>) -> Seq<char> {
    Seq::new(
        4 * ((data.len() + 2) / 3),
        |i: int|
            if 6 * i < 8 * data.len() {
                base64_char(sextet(data, i))
            } else {
                '='
            },
    )
}

/// `base64::Engine::encode` on `STANDARD` writes the bytes in the standard alphabet, with
/// padding. It panics when the length of the text exceeds what can be allocated.
#[verifier::external_body]
pub(crate) fn base64_encode(data: &[u8]) -> (r: String)
    requires
        4 * ((data@.len() + 2) / 3) <= isize::MAX,
    ensures
        r@ == base64_text(data@),
{
    STANDARD.encode(data)
}

// ---------------------------------------------------------------------------
// Upper case
// ---------------------------------------------------------------------------

/// A text in upper case, as Unicode maps it.
pub uninterp spec fn uppercase(s: Seq<char>) -> Seq<char>;

/// `str::to_uppercase` maps a text to upper case, whatever the locale.
#[verifier::external_body]
pub(crate) fn to_uppercase(s: &str) -> (r: String)
    ensures
        r@ == uppercase(s@),
{
    s.to_uppercase()
}

// ---------------------------------------------------------------------------
// List selection
// ---------------------------------------------------------------------------

/// `ratatui::widgets::ListState::select_next` selects the item after the selected one,
/// or the first where none is selected. It does not know the length of the list; drawing
/// the list corrects a selection beyond its end.
#[verifier::external_body]
pub(crate) fn select_next(selected: Option<usize>) -> (r: Option<usize>)
    ensures
        r == Some(
            match selected {
                None => 0usize,
                Some(i) => if i < usize::MAX {
                    (i + 1) as usize
                } else {
                    usize::MAX
                },
            },
        ),
{
    let mut state = ratatui::widgets::ListState::default().with_selected(selected);
    state.select_next();
    state.selected()
}

/// `ratatui::widgets::ListState::select_previous` selects the item before the selected
/// one, staying on the first; where none is selected it selects the greatest place,
/// which drawing the list corrects to its last item.
#[verifier::external_body]
pub(crate) fn select_previous(selected: Option<usize>) -> (r: Option<usize>)
    ensures
        r == Some(
            match selected {
                None => usize::MAX,
                Some(i) => if i > 0 {
                    (i - 1) as usize
                } else {
                    0usize
                },
            },
        ),
{
    let mut state = ratatui::widgets::ListState::default().with_selected(selected);
    state.select_previous();
    state.selected()
}

// ---------------------------------------------------------------------------
// Layout
// ---------------------------------------------------------------------------

/// Whether an area that is divided along a direction under some constraints may come out
/// in these parts.
pub uninterp spec fn may_divide(direction: Direction, constraints: Seq<Constraint>, area: Area, parts: Seq<Area>) -> bool;

/// Whether no part is longer than the length that its constraint gives, if it gives one.
pub open spec fn keeps_lengths(
    direction: Direction,
    constraints: Seq<Constraint>,
    parts: Seq<Area>,
) -> bool {
    forall|i: int|
        0 <= i < parts.len() && constraints[i] is Length ==> direction.length(#[trigger] parts[i])
            <= constraints[i]->Length_0
}

/// The length that a constraint asks for; of `Min`, the least length.
pub open spec fn asked(c: Constraint) -> int {
    match c {
        Constraint::Length(n) => n as int,
        Constraint::Min(n) => n as int,
        Constraint::Percentage(_) => 0,
    }
}

/// The length that constraints ask for together.
pub open spec fn asked_by_all(constraints: Seq<Constraint>) -> int
    decreases constraints.len(),
{
    if constraints.len() == 0 {
        0
    } else {
        asked_by_all(constraints.drop_last()) + asked(constraints.last())
    }
}

/// Whether constraints are lengths but for one, a least length, and ask for no more than
/// there is.
pub open spec fn fits(direction: Direction, constraints: Seq<Constraint>, area: Area) -> bool {
    &&& direction.start(area) + direction.length(area) <= u16::MAX
    &&& asked_by_all(constraints) <= direction.length(area)
    &&& exists|k: int|
        0 <= k < constraints.len() && (#[trigger] constraints[k]) is Min && forall|j: int|
            0 <= j < constraints.len() && j != k ==> (#[trigger] constraints[j]) is Length
}

/// Whether the parts of an area follow one another from its beginning, each as long as
/// asked for; what is left goes to the one part that has a least length.
pub open spec fn as_asked(
    direction: Direction,
    constraints: Seq<Constraint>,
    area: Area,
    parts: Seq<Area>,
) -> bool {
    let left = direction.length(area) - asked_by_all(constraints);
    &&& parts.len() > 0 ==> direction.start(parts[0]) == direction.start(area)
    &&& forall|i: int|
        0 < i < parts.len() ==> direction.start(#[trigger] parts[i]) == direction.start(
            parts[i - 1],
        ) + direction.length(parts[i - 1])
    &&& forall|i: int|
        0 <= i < parts.len() ==> direction.length(#[trigger] parts[i]) == asked(constraints[i])
            + if constraints[i] is Min {
            left
        } else {
            0
        }
}

/// `ratatui::layout::Layout::split` divides an area along one direction, one part for
/// each constraint; across that direction every part is as the area is, and along it every
/// part lies within the area. How long each part is, and where it begins, is found by a
/// solver that walks hash maps, and where the constraints leave it open it is
/// indeterminate. So `may_divide` does not name the outcome: it holds of every outcome
/// that there may be.
///
/// With three constraints at most, no part exceeds a length that is asked for: lengths
/// are stronger than all that lets a part grow, and the rest of the area goes into the
/// space behind the last part. Longer lists are left out: there a part can begin half-way
/// between two of the solver's steps, and rounding may add a cell. Where the constraints
/// are lengths and one least length, and fit, all of them are met, the parts leave no gap,
/// and the part with the least length takes the rest. Of other lists, how long a part is
/// and where it begins is left unsaid.
#[verifier::external_body]
pub(crate) fn split_area(direction: Direction, constraints: &Vec<Constraint>, area: Area) -> (r: Vec<Area>)
    ensures
        may_divide(direction, constraints@, area, r@),
        r@.len() == constraints@.len(),
        direction == Direction::Vertical ==> forall|i: int|
            0 <= i < r@.len() ==> (#[trigger] r@[i]).x == area.x && r@[i].width == area.width,
        direction == Direction::Horizontal ==> forall|i: int|
            0 <= i < r@.len() ==> (#[trigger] r@[i]).y == area.y && r@[i].height == area.height,
        direction == Direction::Vertical ==> forall|i: int|
            0 <= i < r@.len() ==> area.y <= (#[trigger] r@[i]).y && r@[i].y + r@[i].height <= area.y
                + area.height,
        direction == Direction::Horizontal ==> forall|i: int|
            0 <= i < r@.len() ==> area.x <= (#[trigger] r@[i]).x && r@[i].x + r@[i].width <= area.x
                + area.width,
        constraints@.len() <= 3 ==> keeps_lengths(direction, constraints@, r@),
        constraints@.len() <= 3 && fits(direction, constraints@, area) ==> as_asked(
            direction,
            constraints@,
            area,
            r@,
        ),
{
    let direction = match direction {
        Direction::Vertical => ratatui::layout::Direction::Vertical,
        Direction::Horizontal => ratatui::layout::Direction::Horizontal,
    };
    let limits = constraints.iter().map(|c| match *c {
        Constraint::Length(n) => ratatui::layout::Constraint::Length(n),
        Constraint::Min(n) => ratatui::layout::Constraint::Min(n),
        Constraint::Percentage(n) => ratatui::layout::Constraint::Percentage(n),
    });
    let whole = ratatui::layout::Rect { x: area.x, y: area.y, width: area.width, height: area.height };
    ratatui::layout::Layout::new(direction, limits).split(whole).iter().map(|r| Area { x: r.x, y: r.y, width: r.width, height: r.height }).collect()
}

}
