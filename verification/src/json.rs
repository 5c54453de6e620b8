//! JSON documents as plain values, and the two calls that turn text into a
//! document and a document into text.

use crate::text::same_text;
use vstd::prelude::*;

verus! {

/// A JSON document held as plain values.
///
/// A number is kept when it is an integer that fits in 64 signed bits; any
/// other number is held as `Number(None)`. The members of an object are held
/// in a list; where a key stands more than once, its last member counts.
#[derive(Debug, PartialEq)]
pub enum Json {
    Null,
    Bool(bool),
    Number(Option<i64>),
    Text(String),
    Array(Vec<Json>),
    Object(Vec<(String, Json)>),
}

/// The mathematical model of a [`Json`] document. An object is a map from
/// its keys to its values.
pub enum JsonView {
    Null,
    Bool(bool),
    Number(Option<i64>),
    Text(Seq<char>),
    Array(Seq<JsonView>),
    Object(Map<Seq<char>, JsonView>),
}

impl View for Json {
    type V = JsonView;

    open spec fn view(&self) -> JsonView {
        view_of(*self)
    }
}

/// The model of a document.
pub open spec fn view_of(j: Json) -> JsonView
    decreases j,
{
    match j {
        Json::Null => JsonView::Null,
        Json::Bool(b) => JsonView::Bool(b),
        Json::Number(n) => JsonView::Number(n),
        Json::Text(s) => JsonView::Text(s@),
        Json::Array(items) => JsonView::Array(view_of_items(items@)),
        Json::Object(members) => JsonView::Object(view_of_members(members@)),
    }
}

/// The models of the items of an array, in order.
pub open spec fn view_of_items(items: Seq<Json>) -> Seq<JsonView>
    decreases items,
{
    if items.len() == 0 {
        Seq::empty()
    } else {
        view_of_items(items.drop_last()).push(view_of(items.last()))
    }
}

/// The map that a list of members stands for: each key with the model of
/// its value, a later member taking the place of an earlier one with the
/// same key.
pub open spec fn view_of_members(members: Seq<(String, Json)>) -> Map<Seq<char>, JsonView>
    decreases members,
{
    if members.len() == 0 {
        Map::empty()
    } else {
        view_of_members(members.drop_last()).insert(members.last().0@, view_of(members.last().1))
    }
}

/// The model of an array has one item for each item, which is that item's model.
pub proof fn lemma_view_of_items(items: Seq<Json>)
    ensures
        view_of_items(items).len() == items.len(),
        forall|k: int| 0 <= k < items.len() ==> (#[trigger] view_of_items(items)[k]) == items[k]@,
    decreases items.len(),
{
    if items.len() > 0 {
        lemma_view_of_items(items.drop_last());
    }
}

/// Where the last member with the key `key` stands in a list of members; -1
/// where the list has none.
pub open spec fn last_at(members: Seq<(String, Json)>, key: Seq<char>) -> int
    decreases members.len(),
{
    if members.len() == 0 {
        -1
    } else if members.last().0@ == key {
        members.len() - 1
    } else {
        last_at(members.drop_last(), key)
    }
}

/// A key is in the map of a list of members where the list has a member with
/// it, and its value is that of the last such member.
pub proof fn lemma_last_at(members: Seq<(String, Json)>, key: Seq<char>)
    ensures
        -1 <= last_at(members, key) < members.len(),
        last_at(members, key) >= 0 ==> members[last_at(members, key)].0@ == key,
        forall|i: int| last_at(members, key) < i < members.len() ==> (#[trigger] members[i]).0@ != key,
        view_of_members(members).contains_key(key) <==> last_at(members, key) >= 0,
        last_at(members, key) >= 0 ==> view_of_members(members)[key] == members[last_at(members, key)].1@,
    decreases members.len(),
{
    if members.len() > 0 {
        let rest = members.drop_last();
        lemma_last_at(rest, key);
        assert forall|i: int| last_at(members, key) < i < members.len() implies (#[trigger] members[i]).0@
            != key by {
            if i < rest.len() {
                assert(rest[i] == members[i]);
            }
        }
    }
}

/// The value under `key` in a map of members, if the key is there.
pub open spec fn lookup(members: Map<Seq<char>, JsonView>, key: Seq<char>) -> Option<JsonView> {
    if members.contains_key(key) {
        Some(members[key])
    } else {
        None
    }
}

impl JsonView {
    /// The member `key` of an object; `None` for a missing key and for a
    /// document that is no object.
    pub open spec fn member(self, key: Seq<char>) -> Option<JsonView> {
        match self {
            JsonView::Object(members) => lookup(members, key),
            _ => None,
        }
    }
}

impl Json {
    /// Whether the document is an object.
    pub fn is_object(&self) -> (r: bool)
        ensures
            r == (self@ is Object),
    {
        match self {
            Json::Object(_) => true,
            _ => false,
        }
    }

    /// Looks up the member `key` of an object.
    pub fn get(&self, key: &str) -> (r: Option<&Json>)
        ensures
            match r {
                Some(j) => self@.member(key@) == Some(j@),
                None => self@.member(key@) is None,
            },
    {
        match self {
            Json::Object(members) => {
                let mut i: usize = members.len();
                assert(members@.take(i as int) =~= members@);
                while i > 0
                    invariant
                        i <= members.len(),
                        self@ == JsonView::Object(view_of_members(members@)),
                        lookup(view_of_members(members@), key@) == lookup(
                            view_of_members(members@.take(i as int)),
                            key@,
                        ),
                    decreases i,
                {
                    let ghost upto = members@.take(i as int);
                    assert(upto.drop_last() =~= members@.take(i - 1));
                    assert(upto.last() == members@[i - 1]);
                    i -= 1;
                    if same_text(members[i].0.as_str(), key) {
                        return Some(&members[i].1);
                    }
                }
                None
            },
            _ => None,
        }
    }
}

/// The document that `serde_json` reads from a text; `None` where it reads
/// none.
pub uninterp spec fn parsed(text: Seq<char>) -> Option<JsonView>;

/// The text that `serde_json` writes for a document.
pub uninterp spec fn printed(doc: JsonView) -> Seq<char>;

/// `serde_json::Value`: what `serde_json` reads a text as and what it prints.
/// Nothing is known of what it holds.
#[verifier::external_type_specification]
#[verifier::external_body]
pub struct ExValue(serde_json::Value);

/// `serde_json::Error`. Nothing is known of what it holds.
#[verifier::external_type_specification]
#[verifier::external_body]
pub struct ExError(serde_json::Error);

/// Turns a `serde_json::Value` into a document, variant by variant. A number
/// goes through `serde_json::Number::as_i64`, which gives `None` for a number
/// that is no integer of 64 signed bits. The members of an object come in the
/// order in which its map hands them out. Nothing is claimed of the result.
#[verifier::external_body]
fn json_of_value(value: serde_json::Value) -> Json {
    match value {
        serde_json::Value::Null => Json::Null,
        serde_json::Value::Bool(b) => Json::Bool(b),
        serde_json::Value::Number(n) => Json::Number(n.as_i64()),
        serde_json::Value::String(s) => Json::Text(s),
        serde_json::Value::Array(items) => Json::Array(items.into_iter().map(json_of_value).collect()),
        serde_json::Value::Object(members) => Json::Object(
            members.into_iter().map(|(k, v)| (k, json_of_value(v))).collect(),
        ),
    }
}

/// Turns a document into a `serde_json::Value`, variant by variant. A number
/// goes through `serde_json::Value::from`, which gives `null` for `None`. The
/// members of an object go one after the other through
/// `serde_json::Map::insert`, which puts a value in the place of an earlier
/// one with the same key. Nothing is claimed of the result.
#[verifier::external_body]
fn value_of_json(doc: &Json) -> serde_json::Value {
    match doc {
        Json::Null => serde_json::Value::Null,
        Json::Bool(b) => serde_json::Value::Bool(*b),
        Json::Number(n) => serde_json::Value::from(*n),
        Json::Text(s) => serde_json::Value::String(s.clone()),
        Json::Array(items) => serde_json::Value::Array(items.iter().map(value_of_json).collect()),
        Json::Object(members) => {
            let mut map = serde_json::Map::new();
            for (k, v) in members {
                map.insert(k.clone(), value_of_json(v));
            }
            serde_json::Value::Object(map)
        },
    }
}

/// Calls `serde_json::from_str` for a `serde_json::Value`. The contract
/// claims only that the outcome depends on the text alone: it is the
/// document named [`parsed`], or an error where that is `None`.
#[verifier::external_body]
pub(crate) fn parse(text: &str) -> (r: Result<Json, serde_json::Error>)
    ensures
        match r {
            Ok(doc) => parsed(text@) == Some(doc@),
            Err(_) => parsed(text@) is None,
        },
{
    serde_json::from_str::<serde_json::Value>(text).map(json_of_value)
}

/// Calls `serde_json::to_string` on the document as a `serde_json::Value`.
/// The contract claims two things. The call gives a text: a `Value` holds
/// nothing that its writer refuses (its keys are texts, its numbers are
/// integers or `null`), and writing into memory does not fail. And the text
/// depends on the model of the document alone: it is the text named
/// [`printed`]. That rests on the map of `serde_json` keeping its keys sorted,
/// as it does without the feature `preserve_order`.
#[verifier::external_body]
pub(crate) fn print(doc: &Json) -> (r: Result<String, serde_json::Error>)
    ensures
        r is Ok,
        r->Ok_0@ == printed(doc@),
{
    serde_json::to_string(&value_of_json(doc))
}

} // verus!
