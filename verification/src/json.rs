//! JSON documents as plain values, read and written by `serde_json`.

use vstd::prelude::*;
use crate::assoc::{lemma_position_named_found, value_named};
use crate::text::views_of;

verus! {

broadcast use {vstd::std_specs::vec::group_vec_axioms, vstd::seq::group_seq_axioms};

/// `serde_json::Value`, of which the verifier sees nothing. It passes only
/// between the reader, the writer and the two conversions below.
#[verifier::external_type_specification]
#[verifier::external_body]
pub struct ExValue(serde_json::Value);

/// A JSON value.
///
/// A number is held as its decimal numeral, with an exponent where the
/// reader writes one, so that no precision is lost
/// and `Decimal::from_decimal` can read it. The members of an object are kept
/// in the order in which the reader hands them out.
#[derive(Debug, PartialEq, Eq)]
pub enum Json {
    Null,
    Bool(bool),
    Number(String),
    Text(String),
    Array(Vec<Json>),
    Object(Vec<(String, Json)>),
}

/// A JSON value as a mathematical value: texts as sequences of characters,
/// arrays and objects as sequences.
pub enum JsonView {
    Null,
    Bool(bool),
    Number(Seq<char>),
    Text(Seq<char>),
    Array(Seq<JsonView>),
    Object(Seq<(Seq<char>, JsonView)>),
}

/// A JSON value as a mathematical value.
pub open spec fn json_view(value: Json) -> JsonView
    decreases value,
{
    match value {
        Json::Null => JsonView::Null,
        Json::Bool(b) => JsonView::Bool(b),
        Json::Number(numeral) => JsonView::Number(numeral@),
        Json::Text(text) => JsonView::Text(text@),
        Json::Array(items) => JsonView::Array(
            Seq::new(
                items@.len(),
                |i: int|
                    if 0 <= i < items@.len() {
                        json_view(items@[i])
                    } else {
                        JsonView::Null
                    },
            ),
        ),
        Json::Object(members) => JsonView::Object(
            Seq::new(
                members@.len(),
                |i: int|
                    if 0 <= i < members@.len() {
                        member_view(members@[i])
                    } else {
                        (Seq::empty(), JsonView::Null)
                    },
            ),
        ),
    }
}

impl View for Json {
    type V = JsonView;

    open spec fn view(&self) -> JsonView {
        json_view(*self)
    }
}

/// A member of an object as a mathematical value.
pub open spec fn member_view(member: (String, Json)) -> (Seq<char>, JsonView)
    decreases member,
{
    (member.0@, json_view(member.1))
}

/// The values of a list as mathematical values.
pub open spec fn values_view(items: Seq<Json>) -> Seq<JsonView> {
    Seq::new(items.len(), |i: int| items[i]@)
}

/// The members of an object as mathematical values.
pub open spec fn members_view(members: Seq<(String, Json)>) -> Seq<(Seq<char>, JsonView)> {
    Seq::new(members.len(), |i: int| (members[i].0@, members[i].1@))
}

/// The view of an array is the views of its elements, and the view of an
/// object the views of its members.
pub proof fn lemma_view_of_parts(value: Json)
    ensures
        value matches Json::Array(items) ==> value@ == JsonView::Array(values_view(items@)),
        value matches Json::Object(members) ==> value@ == JsonView::Object(members_view(members@)),
{
    match value {
        Json::Array(items) => {
            assert(value@->Array_0 =~= values_view(items@));
        },
        Json::Object(members) => {
            reveal_with_fuel(json_view, 2);
            assert(value@->Object_0 =~= members_view(members@));
        },
        _ => {},
    }
}

/// The value that `serde_json::from_str` reads from `text`, or nothing where
/// it reports an error.
pub uninterp spec fn json_reading(text: Seq<char>) -> Option<JsonView>;

/// The indented text that `serde_json::to_string_pretty` writes for `value`,
/// or nothing where it reports an error.
pub uninterp spec fn json_pretty(value: JsonView) -> Option<Seq<char>>;

/// Moves a `serde_json::Value` into a `Json`, variant by variant; a number
/// becomes the numeral that its `Display` writes.
#[verifier::external_body]
fn json_of_value(v: serde_json::Value) -> Json {
    match v {
        serde_json::Value::Null => Json::Null,
        serde_json::Value::Bool(b) => Json::Bool(b),
        serde_json::Value::Number(n) => Json::Number(n.to_string()),
        serde_json::Value::String(s) => Json::Text(s),
        serde_json::Value::Array(a) => Json::Array(a.into_iter().map(json_of_value).collect()),
        serde_json::Value::Object(m) => Json::Object(
            m.into_iter().map(|(k, x)| (k, json_of_value(x))).collect(),
        ),
    }
}

/// Copies a `Json` into a `serde_json::Value`, variant by variant; a numeral
/// that `serde_json::Number::from_str` does not read becomes `null`.
#[verifier::external_body]
fn value_of_json(v: &Json) -> serde_json::Value {
    match v {
        Json::Null => serde_json::Value::Null,
        Json::Bool(b) => serde_json::Value::Bool(*b),
        Json::Number(t) => t.parse().map_or(serde_json::Value::Null, serde_json::Value::Number),
        Json::Text(s) => serde_json::Value::String(s.clone()),
        Json::Array(a) => serde_json::Value::Array(a.iter().map(value_of_json).collect()),
        Json::Object(m) => serde_json::Value::Object(
            m.iter().map(|(k, x)| (k.clone(), value_of_json(x))).collect(),
        ),
    }
}

/// Calls `serde_json::from_str` on `text`. The result is the value it reads,
/// which depends on `text` alone; an error becomes `None`.
#[verifier::external_body]
pub(crate) fn read_json(text: &str) -> (r: Option<Json>)
    ensures
        match r {
            Some(value) => json_reading(text@) == Some(value@),
            None => json_reading(text@) is None,
        },
{
    serde_json::from_str::<serde_json::Value>(text).ok().map(json_of_value)
}

/// Calls `serde_json::to_string_pretty` on `value`. The result is the text
/// it writes, which depends on `value` alone; an error becomes `None`.
#[verifier::external_body]
pub(crate) fn write_json_pretty(value: &Json) -> (r: Option<String>)
    ensures
        match r {
            Some(text) => json_pretty(value@) == Some(text@),
            None => json_pretty(value@) is None,
        },
{
    serde_json::to_string_pretty(&value_of_json(value)).ok()
}

/// What a list of values holds as texts: the text of each element that is a
/// string, and the empty text for any other element.
pub open spec fn texts_of(items: Seq<JsonView>) -> Seq<Seq<char>> {
    Seq::new(items.len(), |i: int| items[i].text_or_empty())
}

impl JsonView {
    /// The member of an object named `key`, the first where several have
    /// the name; nothing for a missing member and for a value that is no
    /// object.
    pub open spec fn member(self, key: Seq<char>) -> Option<JsonView> {
        match self {
            JsonView::Object(entries) => value_named(entries, key),
            _ => None,
        }
    }

    /// The element of an array at `index`; nothing past its end and for a
    /// value that is no array.
    pub open spec fn element(self, index: int) -> Option<JsonView> {
        match self {
            JsonView::Array(items) => if 0 <= index < items.len() {
                Some(items[index])
            } else {
                None
            },
            _ => None,
        }
    }

    /// The text of a string value.
    pub open spec fn text(self) -> Option<Seq<char>> {
        match self {
            JsonView::Text(s) => Some(s),
            _ => None,
        }
    }

    /// The text of a string value, and the empty text for any other value.
    pub open spec fn text_or_empty(self) -> Seq<char> {
        match self {
            JsonView::Text(s) => s,
            _ => Seq::empty(),
        }
    }

    /// The numeral of a number value.
    pub open spec fn numeral(self) -> Option<Seq<char>> {
        match self {
            JsonView::Number(s) => Some(s),
            _ => None,
        }
    }

    /// The elements of an array value.
    pub open spec fn items(self) -> Option<Seq<JsonView>> {
        match self {
            JsonView::Array(items) => Some(items),
            _ => None,
        }
    }
}

impl Json {
    /// Looks up the member named `key`.
    pub fn get(&self, key: &str) -> (r: Option<&Json>)
        ensures
            match r {
                Some(v) => self@.member(key@) == Some(v@),
                None => self@.member(key@) is None,
            },
    {
        match self {
            Json::Object(entries) => {
                let wanted = key.to_owned();
                let ghost views = members_view(entries@);
                proof {
                    lemma_view_of_parts(*self);
                }
                let mut i: usize = 0;
                while i < entries.len() && entries[i].0 != wanted
                    invariant
                        i <= entries.len(),
                        wanted@ == key@,
                        views == members_view(entries@),
                        forall|j: int| 0 <= j < i ==> (#[trigger] views[j]).0 != key@,
                    decreases entries.len() - i,
                {
                    i += 1;
                }
                proof {
                    lemma_position_named_found(views, key@, i as int);
                }
                if i < entries.len() {
                    Some(&entries[i].1)
                } else {
                    None
                }
            },
            _ => None,
        }
    }

    /// Looks up the element at `index`.
    pub fn at(&self, index: usize) -> (r: Option<&Json>)
        ensures
            match r {
                Some(v) => self@.element(index as int) == Some(v@),
                None => self@.element(index as int) is None,
            },
    {
        proof {
            lemma_view_of_parts(*self);
        }
        match self {
            Json::Array(items) => if index < items.len() {
                Some(&items[index])
            } else {
                None
            },
            _ => None,
        }
    }

    /// The text of a string value.
    pub fn as_text(&self) -> (r: Option<&String>)
        ensures
            match r {
                Some(s) => self@.text() == Some(s@),
                None => self@.text() is None,
            },
    {
        match self {
            Json::Text(s) => Some(s),
            _ => None,
        }
    }

    /// The numeral of a number value.
    pub fn as_numeral(&self) -> (r: Option<&String>)
        ensures
            match r {
                Some(s) => self@.numeral() == Some(s@),
                None => self@.numeral() is None,
            },
    {
        match self {
            Json::Number(s) => Some(s),
            _ => None,
        }
    }

    /// The elements of an array value.
    pub fn as_items(&self) -> (r: Option<&Vec<Json>>)
        ensures
            match r {
                Some(v) => self@.items() == Some(values_view(v@)),
                None => self@.items() is None,
            },
    {
        proof {
            lemma_view_of_parts(*self);
        }
        match self {
            Json::Array(items) => Some(items),
            _ => None,
        }
    }

    /// Reads a JSON document with `serde_json`.
    pub fn parse(text: &str) -> (r: Option<Json>)
        ensures
            match r {
                Some(value) => json_reading(text@) == Some(value@),
                None => json_reading(text@) is None,
            },
    {
        read_json(text)
    }

    /// Writes the value as indented JSON with `serde_json`.
    pub fn to_pretty(&self) -> (r: Option<String>)
        ensures
            match r {
                Some(text) => json_pretty(self@) == Some(text@),
                None => json_pretty(self@) is None,
            },
    {
        write_json_pretty(self)
    }
}

impl Clone for Json {
    fn clone(&self) -> (r: Self)
        ensures
            r@ == self@,
        decreases self,
    {
        proof {
            lemma_view_of_parts(*self);
        }
        match self {
            Json::Null => Json::Null,
            Json::Bool(b) => Json::Bool(*b),
            Json::Number(numeral) => Json::Number(numeral.clone()),
            Json::Text(text) => Json::Text(text.clone()),
            Json::Array(items) => {
                let mut copies: Vec<Json> = Vec::new();
                let mut i: usize = 0;
                while i < items.len()
                    invariant
                        i <= items@.len(),
                        *self == Json::Array(*items),
                        copies@.len() == i,
                        forall|j: int| 0 <= j < i ==> (#[trigger] copies@[j])@ == items@[j]@,
                    decreases items@.len() - i,
                {
                    proof {
                        assert(self->Array_0 == *items);
                        assert(decreases_to!(*self => self->Array_0));
                        assert(decreases_to!(*items => items@));
                        assert(decreases_to!(items@ => items@[i as int]));
                    }
                    copies.push(items[i].clone());
                    i += 1;
                }
                let copy = Json::Array(copies);
                proof {
                    lemma_view_of_parts(copy);
                    assert(values_view(copies@) =~= values_view(items@));
                }
                copy
            },
            Json::Object(members) => {
                let mut copies: Vec<(String, Json)> = Vec::new();
                let mut i: usize = 0;
                while i < members.len()
                    invariant
                        i <= members@.len(),
                        *self == Json::Object(*members),
                        copies@.len() == i,
                        forall|j: int|
                            0 <= j < i ==> (#[trigger] copies@[j]).0@ == members@[j].0@ && copies@[j].1@
                                == members@[j].1@,
                    decreases members@.len() - i,
                {
                    proof {
                        assert(self->Object_0 == *members);
                        assert(decreases_to!(*self => self->Object_0));
                        assert(decreases_to!(*members => members@));
                        assert(decreases_to!(members@ => members@[i as int]));
                        assert(decreases_to!(members@[i as int] => members@[i as int].1));
                    }
                    copies.push((members[i].0.clone(), members[i].1.clone()));
                    i += 1;
                }
                let copy = Json::Object(copies);
                proof {
                    lemma_view_of_parts(copy);
                    assert(members_view(copies@) =~= members_view(members@));
                }
                copy
            },
        }
    }
}

/// The texts of the elements of `items`, a string giving its text and any
/// other value the empty text.
pub fn collect_texts(items: &Vec<Json>) -> (r: Vec<String>)
    ensures
        views_of(r@) == texts_of(values_view(items@)),
{
    let mut out: Vec<String> = Vec::new();
    let mut i: usize = 0;
    while i < items.len()
        invariant
            i <= items.len(),
            out@.len() == i,
            forall|j: int| 0 <= j < i ==> (#[trigger] out@[j])@ == items@[j]@.text_or_empty(),
        decreases items.len() - i,
    {
        let s = match &items[i] {
            Json::Text(s) => s.clone(),
            _ => String::new(),
        };
        out.push(s);
        i += 1;
    }
    assert(views_of(out@) =~= texts_of(values_view(items@)));
    out
}

} // verus!
