//! JSON values, as far as the library reads and writes them.

use crate::text::same;
use vstd::prelude::*;

verus! {

/// A JSON value. A number that is no unsigned integer of sixty-four bits is kept by its
/// text. The fields of an object are in the order in which they were written; a name
/// that occurs twice stands for its first value.
#[derive(Debug, PartialEq, Eq)]
pub enum Json {
    Null,
    Bool(bool),
    UInt(u64),
    Number(String),
    Str(String),
    Array(Vec<Json>),
    Object(Vec<(String, Json)>),
}

/// What a JSON value says.
pub enum JsonView {
    Null,
    Bool(bool),
    UInt(u64),
    Number(Seq<char>),
    Str(Seq<char>),
    Array(Seq<JsonView>),
    Object(Seq<(Seq<char>, JsonView)>),
}

impl Json {
    /// What the value says.
    pub open spec fn content(self) -> JsonView
        decreases self,
    {
        match self {
            Json::Null => JsonView::Null,
            Json::Bool(b) => JsonView::Bool(b),
            Json::UInt(n) => JsonView::UInt(n),
            Json::Number(s) => JsonView::Number(s@),
            Json::Str(s) => JsonView::Str(s@),
            Json::Array(items) => JsonView::Array(
                Seq::new(
                    items@.len(),
                    |i: int|
                        if 0 <= i < items@.len() {
                            items@[i].content()
                        } else {
                            JsonView::Null
                        },
                ),
            ),
            Json::Object(fields) => JsonView::Object(
                Seq::new(
                    fields@.len(),
                    |i: int|
                        if 0 <= i < fields@.len() {
                            (fields@[i].0@, fields@[i].1.content())
                        } else {
                            (Seq::<char>::empty(), JsonView::Null)
                        },
                ),
            ),
        }
    }
}

impl View for Json {
    type V = JsonView;

    open spec fn view(&self) -> JsonView {
        self.content()
    }
}

/// What a vector of JSON values says.
pub open spec fn values(v: Seq<Json>) -> Seq<JsonView> {
    v.map_values(|j: Json| j@)
}

/// The value of the first field with this name.
pub open spec fn lookup(fields: Seq<(Seq<char>, JsonView)>, name: Seq<char>) -> Option<JsonView>
    decreases fields.len(),
{
    if fields.len() == 0 {
        None
    } else {
        match lookup(fields.drop_last(), name) {
            Some(v) => Some(v),
            None => if fields.last().0 == name {
                Some(fields.last().1)
            } else {
                None
            },
        }
    }
}

impl JsonView {
    /// The field of an object with this name; `Null` where there is none.
    pub open spec fn field(self, name: Seq<char>) -> JsonView {
        match self {
            JsonView::Object(fields) => match lookup(fields, name) {
                Some(v) => v,
                None => JsonView::Null,
            },
            _ => JsonView::Null,
        }
    }

    /// The item of an array at this place; `Null` where there is none.
    pub open spec fn item(self, i: int) -> JsonView {
        match self {
            JsonView::Array(items) => if 0 <= i < items.len() {
                items[i]
            } else {
                JsonView::Null
            },
            _ => JsonView::Null,
        }
    }

    /// The text of a string.
    pub open spec fn text(self) -> Option<Seq<char>> {
        match self {
            JsonView::Str(s) => Some(s),
            _ => None,
        }
    }

    /// The text of a string, or `default` of any other value.
    pub open spec fn text_or(self, default: Seq<char>) -> Seq<char> {
        match self {
            JsonView::Str(s) => s,
            _ => default,
        }
    }

    /// The value of an unsigned integer, or nought of any other value.
    pub open spec fn uint_or_nought(self) -> u64 {
        match self {
            JsonView::UInt(n) => n,
            _ => 0,
        }
    }

    /// The items of an array; none of any other value.
    pub open spec fn items(self) -> Seq<JsonView> {
        match self {
            JsonView::Array(items) => items,
            _ => Seq::<JsonView>::empty(),
        }
    }
}

impl Json {
    /// A JSON string.
    pub fn string(s: String) -> (j: Json)
        ensures
            j@ == JsonView::Str(s@),
    {
        Json::Str(s)
    }

    /// The field of an object with this name.
    pub fn get(&self, name: &str) -> (r: Option<&Json>)
        ensures
            r is Some ==> r->0@ == self@.field(name@),
            r is Some <==> self@ is Object && lookup(self@->Object_0, name@) is Some,
    {
        match self {
            Json::Object(fields) => match place_of(fields, name) {
                Some(i) => Some(&fields[i].1),
                None => None,
            },
            _ => None,
        }
    }

    /// The item of an array at this place.
    pub fn at(&self, i: usize) -> (r: Option<&Json>)
        ensures
            r is Some ==> r->0@ == self@.item(i as int),
            r is Some <==> self@ is Array && i < self@->Array_0.len(),
    {
        match self {
            Json::Array(items) => if i < items.len() {
                Some(&items[i])
            } else {
                None
            },
            _ => None,
        }
    }

    /// The text of a string.
    pub fn as_str(&self) -> (r: Option<&str>)
        ensures
            r is Some <==> self@.text() is Some,
            r is Some ==> r->0@ == self@.text()->0,
    {
        match self {
            Json::Str(s) => Some(s.as_str()),
            _ => None,
        }
    }

    /// The text of the field with this name.
    pub fn str_field(&self, name: &str) -> (r: Option<&str>)
        ensures
            r is Some <==> self@.field(name@).text() is Some,
            r is Some ==> r->0@ == self@.field(name@).text()->0,
    {
        match self.get(name) {
            Some(j) => j.as_str(),
            None => None,
        }
    }

    /// The unsigned integer in the field with this name; nought where there is none.
    pub fn uint_field(&self, name: &str) -> (r: u64)
        ensures
            r == self@.field(name@).uint_or_nought(),
    {
        match self.get(name) {
            Some(Json::UInt(n)) => *n,
            _ => 0,
        }
    }
}

/// The place of the first field with this name.
pub(crate) fn place_of(fields: &Vec<(String, Json)>, name: &str) -> (r: Option<usize>)
    ensures
        ({
            let all = Json::Object(*fields)@->Object_0;
            &&& r is Some <==> lookup(all, name@) is Some
            &&& r is Some ==> r->0 < fields@.len() && lookup(all, name@) == Some(
                fields@[r->0 as int].1@,
            )
        }),
{
    let ghost all = Json::Object(*fields)@->Object_0;
    let mut found: Option<usize> = None;
    let mut i: usize = 0;
    while i < fields.len()
        invariant
            i <= fields@.len(),
            all == Json::Object(*fields)@->Object_0,
            all.len() == fields@.len(),
            forall|j: int|
                #![trigger all[j]]
                0 <= j < all.len() ==> all[j] == (fields@[j].0@, fields@[j].1@),
            found is Some <==> lookup(all.take(i as int), name@) is Some,
            found is Some ==> found->0 < i && lookup(all.take(i as int), name@) == Some(
                fields@[found->0 as int].1@,
            ),
        decreases fields@.len() - i,
    {
        proof {
            assert(all.take(i + 1).drop_last() =~= all.take(i as int));
            assert(all.take(i + 1).last() == all[i as int]);
        }
        let (key, _value) = &fields[i];
        if found.is_none() && same(key.as_str(), name) {
            found = Some(i);
        }
        i = i + 1;
    }
    proof {
        assert(all.take(i as int) =~= all);
    }
    found
}

}
