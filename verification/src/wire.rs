//! The mapping between typed values and JSON documents.
//!
//! Every type that travels over the wire implements [`Wire`]: two spec
//! functions say which document a value is written as and which value a
//! document is read as, and the executable functions are proved against them.

use crate::error::{CodecError, RevoltRsError};
use crate::json::{
    last_at, lemma_last_at, lemma_view_of_items, lookup, parse, parsed, print, printed, view_of_members, Json,
    JsonView,
};
use crate::text::same_text;
use vstd::prelude::*;

verus! {

/// The members of an object: its keys, each with its value.
pub type Members = Map<Seq<char>, JsonView>;

/// A type with a JSON form.
pub trait Wire: DeepView + Sized {
    /// The document that a value is written as.
    spec fn encode(v: <Self as DeepView>::V) -> JsonView;

    /// The value that a document is read as; `None` where the document does
    /// not have the shape of this type.
    spec fn decode(j: JsonView) -> Option<<Self as DeepView>::V>;

    /// Reading what was written gives the value back, and no value is written
    /// as `null`.
    proof fn lemma_decode_encode(v: <Self as DeepView>::V)
        ensures
            Self::decode(Self::encode(v)) == Some(v),
            !(Self::encode(v) is Null),
    ;

    /// Writes the value as a document.
    fn to_json(&self) -> (j: Json)
        ensures
            j@ == Self::encode(self.deep_view()),
    ;

    /// Reads a value from a document.
    fn from_json(j: &Json) -> (r: Option<Self>)
        ensures
            r.deep_view() == Self::decode(j@),
    ;
}

/// A required member: the member must be there and must read as a `T`.
pub open spec fn required<T: Wire>(j: JsonView, key: Seq<char>) -> Option<<T as DeepView>::V> {
    match j.member(key) {
        Some(x) => T::decode(x),
        None => None,
    }
}

/// A field that a document may leave out. A key that is not there, a member
/// that is `null` and a member with a value are three states, and each is
/// written as it was read.
#[derive(Debug, PartialEq)]
pub enum Field<T> {
    /// The document has no such key.
    Missing,
    /// The member is there and is `null`.
    Null,
    /// The member is there with a value.
    Present(T),
}

impl<T: DeepView> DeepView for Field<T> {
    type V = Field<<T as DeepView>::V>;

    open spec fn deep_view(&self) -> Field<<T as DeepView>::V> {
        match self {
            Field::Missing => Field::Missing,
            Field::Null => Field::Null,
            Field::Present(x) => Field::Present(x.deep_view()),
        }
    }
}

/// The field that an optional argument stands for: nothing given is a
/// missing field.
pub open spec fn field_of<V>(value: Option<V>) -> Field<V> {
    match value {
        Some(x) => Field::Present(x),
        None => Field::Missing,
    }
}

impl<T> Field<T> {
    /// The field that an optional argument stands for: nothing given is a
    /// missing field.
    pub fn from_option(value: Option<T>) -> (r: Field<T>)
        ensures
            r == field_of(value),
    {
        match value {
            Some(x) => Field::Present(x),
            None => Field::Missing,
        }
    }

    /// The value of the field, where it has one.
    pub fn value(&self) -> (r: Option<&T>)
        ensures
            match *self {
                Field::Present(x) => r == Some(&x),
                _ => r is None,
            },
    {
        match self {
            Field::Present(x) => Some(x),
            _ => None,
        }
    }

    /// Whether the document had no such key.
    pub fn is_missing(&self) -> (r: bool)
        ensures
            r == (*self is Missing),
    {
        match self {
            Field::Missing => true,
            _ => false,
        }
    }

    /// Whether the member was `null`.
    pub fn is_null(&self) -> (r: bool)
        ensures
            r == (*self is Null),
    {
        match self {
            Field::Null => true,
            _ => false,
        }
    }
}

/// An optional member: a key that is not there reads as the missing field, a
/// member that is `null` as the null field, and any other member must read as
/// a `T`.
pub open spec fn optional<T: Wire>(j: JsonView, key: Seq<char>) -> Option<Field<<T as DeepView>::V>> {
    match j.member(key) {
        Some(JsonView::Null) => Some(Field::Null),
        Some(x) => match T::decode(x) {
            Some(v) => Some(Field::Present(v)),
            None => None,
        },
        None => Some(Field::Missing),
    }
}

/// The members `m` with the member `key` set to the document of `v`.
#[verifier::opaque]
pub open spec fn with<T: Wire>(m: Members, key: Seq<char>, v: <T as DeepView>::V) -> Members {
    m.insert(key, T::encode(v))
}

/// The members `m`, with the member `key` set to what the field `v` is
/// written as. A missing field adds no member.
#[verifier::opaque]
pub open spec fn with_optional<T: Wire>(m: Members, key: Seq<char>, v: Field<<T as DeepView>::V>) -> Members {
    match written::<T>(v) {
        Some(doc) => m.insert(key, doc),
        None => m,
    }
}

/// What an optional field is written as: nothing where it is missing,
/// `null` where it is null, and else the document of its value.
pub open spec fn written<T: Wire>(v: Field<<T as DeepView>::V>) -> Option<JsonView> {
    match v {
        Field::Missing => None,
        Field::Null => Some(JsonView::Null),
        Field::Present(x) => Some(T::encode(x)),
    }
}

/// A required member that holds what a value was written as reads as that
/// value.
pub proof fn lemma_required_of_written<T: Wire>(j: JsonView, key: Seq<char>, v: <T as DeepView>::V)
    requires
        j.member(key) == Some(T::encode(v)),
    ensures
        required::<T>(j, key) == Some(v),
{
    T::lemma_decode_encode(v);
}

/// An optional member that holds what a field was written as reads as that
/// field: a member that is not there as the missing field, and `null` as the
/// null field.
pub proof fn lemma_optional_of_written<T: Wire>(j: JsonView, key: Seq<char>, v: Field<<T as DeepView>::V>)
    requires
        j.member(key) == written::<T>(v),
    ensures
        optional::<T>(j, key) == Some(v),
{
    match v {
        Field::Present(x) => {
            T::lemma_decode_encode(x);
        },
        _ => {},
    }
}

/// After a field was written, its key holds the field's document, and every
/// other key what it held before.
pub broadcast proof fn lemma_lookup_with<T: Wire>(m: Members, key: Seq<char>, v: <T as DeepView>::V, wanted: Seq<char>)
    ensures
        #[trigger] lookup(with::<T>(m, key, v), wanted) == if key == wanted {
            Some(T::encode(v))
        } else {
            lookup(m, wanted)
        },
{
    reveal(with);
}

/// After an optional field was written, its key holds what the field was
/// written as, unless the field is missing; its key then, and every other key,
/// hold what they held before.
pub broadcast proof fn lemma_lookup_with_optional<T: Wire>(
    m: Members,
    key: Seq<char>,
    v: Field<<T as DeepView>::V>,
    wanted: Seq<char>,
)
    ensures
        #[trigger] lookup(with_optional::<T>(m, key, v), wanted) == if key == wanted && !(v is Missing) {
            written::<T>(v)
        } else {
            lookup(m, wanted)
        },
{
    reveal(with_optional);
}

/// Reads the required member `key` of `j`.
pub fn read<T: Wire>(j: &Json, key: &str) -> (r: Option<T>)
    ensures
        r.deep_view() == required::<T>(j@, key@),
{
    match j.get(key) {
        Some(x) => T::from_json(x),
        None => None,
    }
}

/// Reads the optional member `key` of `j`.
pub fn read_optional<T: Wire>(j: &Json, key: &str) -> (r: Option<Field<T>>)
    ensures
        r.deep_view() == optional::<T>(j@, key@),
{
    match j.get(key) {
        Some(Json::Null) => Some(Field::Null),
        Some(x) => match T::from_json(x) {
            Some(v) => Some(Field::Present(v)),
            None => None,
        },
        None => Some(Field::Missing),
    }
}

/// Appends the member `key` with the value `value`.
pub fn put<T: Wire>(members: &mut Vec<(String, Json)>, key: &str, value: &T)
    ensures
        view_of_members(final(members)@) == with::<T>(view_of_members(old(members)@), key@, value.deep_view()),
{
    let ghost before = members@;
    members.push((key.to_owned(), value.to_json()));
    proof {
        reveal(with);
        assert(members@.drop_last() =~= before);
    }
}

/// Appends the member `key` with what the field `value` is written as: no
/// member where it is missing.
pub fn put_optional<T: Wire>(members: &mut Vec<(String, Json)>, key: &str, value: &Field<T>)
    ensures
        view_of_members(final(members)@) == with_optional::<T>(
            view_of_members(old(members)@),
            key@,
            value.deep_view(),
        ),
{
    proof {
        reveal(with);
        reveal(with_optional);
    }
    match value {
        Field::Present(x) => put::<T>(members, key, x),
        Field::Null => {
            let ghost before = members@;
            members.push((key.to_owned(), Json::Null));
            proof {
                assert(members@.drop_last() =~= before);
                assert(members@.last().1@ == JsonView::Null);
                assert(written::<T>(value.deep_view()) == Some(JsonView::Null));
            }
        },
        Field::Missing => {},
    }
}

impl Wire for String {
    open spec fn encode(v: Seq<char>) -> JsonView {
        JsonView::Text(v)
    }

    open spec fn decode(j: JsonView) -> Option<Seq<char>> {
        match j {
            JsonView::Text(s) => Some(s),
            _ => None,
        }
    }

    proof fn lemma_decode_encode(v: Seq<char>) {
    }

    fn to_json(&self) -> (j: Json) {
        Json::Text(self.clone())
    }

    fn from_json(j: &Json) -> (r: Option<String>) {
        match j {
            Json::Text(s) => Some(s.clone()),
            _ => None,
        }
    }
}

impl Wire for bool {
    open spec fn encode(v: bool) -> JsonView {
        JsonView::Bool(v)
    }

    open spec fn decode(j: JsonView) -> Option<bool> {
        match j {
            JsonView::Bool(b) => Some(b),
            _ => None,
        }
    }

    proof fn lemma_decode_encode(v: bool) {
    }

    fn to_json(&self) -> (j: Json) {
        Json::Bool(*self)
    }

    fn from_json(j: &Json) -> (r: Option<bool>) {
        match j {
            Json::Bool(b) => Some(*b),
            _ => None,
        }
    }
}

impl Wire for i32 {
    open spec fn encode(v: i32) -> JsonView {
        JsonView::Number(Some(v as i64))
    }

    /// An integer outside the 32-bit range, or a number that is no integer,
    /// is not read.
    open spec fn decode(j: JsonView) -> Option<i32> {
        match j {
            JsonView::Number(Some(n)) => if i32::MIN <= n <= i32::MAX {
                Some(n as i32)
            } else {
                None
            },
            _ => None,
        }
    }

    proof fn lemma_decode_encode(v: i32) {
    }

    fn to_json(&self) -> (j: Json) {
        Json::Number(Some(*self as i64))
    }

    fn from_json(j: &Json) -> (r: Option<i32>) {
        match j {
            Json::Number(Some(n)) => if -2147483648 <= *n && *n <= 2147483647 {
                Some(*n as i32)
            } else {
                None
            },
            _ => None,
        }
    }
}

impl<T: Wire> Wire for Vec<T> {
    /// A list is written as an array, item by item.
    open spec fn encode(v: Seq<<T as DeepView>::V>) -> JsonView {
        JsonView::Array(v.map_values(|x: <T as DeepView>::V| T::encode(x)))
    }

    /// An array is read item by item; one item that does not read as a `T`
    /// fails the whole list.
    open spec fn decode(j: JsonView) -> Option<Seq<<T as DeepView>::V>> {
        match j {
            JsonView::Array(items) => if forall|i: int| 0 <= i < items.len() ==> (#[trigger] T::decode(items[i])) is Some {
                Some(items.map_values(|x: JsonView| T::decode(x).unwrap()))
            } else {
                None
            },
            _ => None,
        }
    }

    proof fn lemma_decode_encode(v: Seq<<T as DeepView>::V>) {
        let items = v.map_values(|x: <T as DeepView>::V| T::encode(x));
        assert forall|i: int| 0 <= i < items.len() implies (#[trigger] T::decode(items[i])) == Some(v[i]) by {
            T::lemma_decode_encode(v[i]);
        }
        assert(items.map_values(|x: JsonView| T::decode(x).unwrap()) =~= v);
    }

    fn to_json(&self) -> (j: Json) {
        let mut out: Vec<Json> = Vec::new();
        let mut i: usize = 0;
        while i < self.len()
            invariant
                i <= self.len(),
                out@.len() == i,
                forall|k: int| 0 <= k < i ==> (#[trigger] out@[k])@ == T::encode(self@[k].deep_view()),
            decreases self.len() - i,
        {
            out.push(self[i].to_json());
            i += 1;
        }
        proof {
            lemma_view_of_items(out@);
            assert(crate::json::view_of_items(out@) =~= self.deep_view().map_values(
                |x: <T as DeepView>::V| T::encode(x),
            ));
        }
        Json::Array(out)
    }

    fn from_json(j: &Json) -> (r: Option<Vec<T>>) {
        match j {
            Json::Array(items) => {
                proof {
                    lemma_view_of_items(items@);
                }
                let mut out: Vec<T> = Vec::new();
                let mut i: usize = 0;
                while i < items.len()
                    invariant
                        i <= items.len(),
                        out@.len() == i,
                        j@ == JsonView::Array(crate::json::view_of_items(items@)),
                        crate::json::view_of_items(items@).len() == items@.len(),
                        forall|k: int| 0 <= k < items@.len() ==> (#[trigger] crate::json::view_of_items(items@)[k]) == items@[k]@,
                        forall|k: int| 0 <= k < i ==> T::decode(#[trigger] items@[k]@) == Some(out@[k].deep_view()),
                    decreases items.len() - i,
                {
                    match T::from_json(&items[i]) {
                        Some(x) => {
                            out.push(x);
                        },
                        None => {
                            assert(T::decode(crate::json::view_of_items(items@)[i as int]) is None);
                            return None;
                        },
                    }
                    i += 1;
                }
                proof {
                    let docs = crate::json::view_of_items(items@);
                    assert forall|k: int| 0 <= k < docs.len() implies (#[trigger] T::decode(docs[k])) is Some by {
                        assert(T::decode(items@[k]@) is Some);
                    }
                    assert(docs.map_values(|x: JsonView| T::decode(x).unwrap()) =~= out.deep_view());
                }
                Some(out)
            },
            _ => None,
        }
    }
}

impl Wire for (i32, i32) {
    /// A pair is written as an array of its two numbers.
    open spec fn encode(v: (i32, i32)) -> JsonView {
        JsonView::Array(seq![<i32 as Wire>::encode(v.0), <i32 as Wire>::encode(v.1)])
    }

    open spec fn decode(j: JsonView) -> Option<(i32, i32)> {
        match j {
            JsonView::Array(items) => if items.len() == 2 && <i32 as Wire>::decode(items[0]) is Some && <i32 as Wire>::decode(
                items[1],
            ) is Some {
                Some((<i32 as Wire>::decode(items[0]).unwrap(), <i32 as Wire>::decode(items[1]).unwrap()))
            } else {
                None
            },
            _ => None,
        }
    }

    proof fn lemma_decode_encode(v: (i32, i32)) {
    }

    fn to_json(&self) -> (j: Json) {
        let mut out: Vec<Json> = Vec::new();
        out.push(self.0.to_json());
        out.push(self.1.to_json());
        proof {
            lemma_view_of_items(out@);
            assert(crate::json::view_of_items(out@) =~= seq![
                <i32 as Wire>::encode(self.0),
                <i32 as Wire>::encode(self.1),
            ]);
        }
        Json::Array(out)
    }

    fn from_json(j: &Json) -> (r: Option<(i32, i32)>) {
        match j {
            Json::Array(items) => {
                proof {
                    lemma_view_of_items(items@);
                }
                if items.len() != 2 {
                    return None;
                }
                let first = <i32 as Wire>::from_json(&items[0]);
                let second = <i32 as Wire>::from_json(&items[1]);
                match (first, second) {
                    (Some(a), Some(b)) => Some((a, b)),
                    _ => None,
                }
            },
            _ => None,
        }
    }
}

/// The members of a JSON object whose keys are not fixed by the schema: a
/// map from each key to its value. The entries are held in a list; where a
/// key stands more than once, its last entry counts.
#[derive(Debug, PartialEq)]
pub struct Table<T> {
    pub entries: Vec<(String, T)>,
}

/// The map that a list of entries stands for: a later entry takes the place
/// of an earlier one with the same key.
pub open spec fn map_of<T: DeepView>(entries: Seq<(String, T)>) -> Map<Seq<char>, <T as DeepView>::V>
    decreases entries.len(),
{
    if entries.len() == 0 {
        Map::empty()
    } else {
        map_of(entries.drop_last()).insert(entries.last().0@, entries.last().1.deep_view())
    }
}

impl<T: DeepView> DeepView for Table<T> {
    type V = Map<Seq<char>, <T as DeepView>::V>;

    open spec fn deep_view(&self) -> Self::V {
        map_of(self.entries@)
    }
}

impl<T: DeepView> Table<T> {
    /// Looks up the value under `key`.
    pub fn get(&self, key: &str) -> (r: Option<&T>)
        ensures
            match r {
                Some(value) => self.deep_view().contains_key(key@) && self.deep_view()[key@]
                    == value.deep_view(),
                None => !self.deep_view().contains_key(key@),
            },
    {
        let mut i: usize = self.entries.len();
        assert(self.entries@.take(i as int) =~= self.entries@);
        while i > 0
            invariant
                i <= self.entries.len(),
                map_of(self.entries@).contains_key(key@) == map_of(self.entries@.take(i as int)).contains_key(
                    key@,
                ),
                map_of(self.entries@).contains_key(key@) ==> map_of(self.entries@)[key@] == map_of(
                    self.entries@.take(i as int),
                )[key@],
            decreases i,
        {
            let ghost upto = self.entries@.take(i as int);
            assert(upto.drop_last() =~= self.entries@.take(i - 1));
            assert(upto.last() == self.entries@[i - 1]);
            i -= 1;
            if same_text(self.entries[i].0.as_str(), key) {
                return Some(&self.entries[i].1);
            }
        }
        None
    }
}

impl<T: Wire> Wire for Table<T> {
    /// A table is written as an object with one member for each key.
    open spec fn encode(v: Map<Seq<char>, <T as DeepView>::V>) -> JsonView {
        JsonView::Object(v.map_values(|x: <T as DeepView>::V| T::encode(x)))
    }

    /// An object is read member by member; one value that does not read as a
    /// `T` fails the whole table.
    open spec fn decode(j: JsonView) -> Option<Map<Seq<char>, <T as DeepView>::V>> {
        match j {
            JsonView::Object(members) => if forall|k: Seq<char>| members.contains_key(k) ==> (#[trigger] T::decode(members[k])) is Some {
                Some(members.map_values(|x: JsonView| T::decode(x).unwrap()))
            } else {
                None
            },
            _ => None,
        }
    }

    proof fn lemma_decode_encode(v: Map<Seq<char>, <T as DeepView>::V>) {
        let members = v.map_values(|x: <T as DeepView>::V| T::encode(x));
        assert forall|k: Seq<char>| members.contains_key(k) implies (#[trigger] T::decode(members[k])) == Some(v[k]) by {
            T::lemma_decode_encode(v[k]);
        }
        assert(members.map_values(|x: JsonView| T::decode(x).unwrap()) =~= v);
    }

    fn to_json(&self) -> (j: Json) {
        let mut out: Vec<(String, Json)> = Vec::new();
        let mut i: usize = 0;
        while i < self.entries.len()
            invariant
                i <= self.entries.len(),
                view_of_members(out@) == map_of(self.entries@.take(i as int)).map_values(
                    |x: <T as DeepView>::V| T::encode(x),
                ),
            decreases self.entries.len() - i,
        {
            let ghost before = out@;
            let ghost upto = self.entries@.take(i + 1);
            out.push((self.entries[i].0.clone(), self.entries[i].1.to_json()));
            proof {
                assert(out@.drop_last() =~= before);
                assert(upto.drop_last() =~= self.entries@.take(i as int));
                assert(upto.last() == self.entries@[i as int]);
                assert(view_of_members(out@) =~= map_of(upto).map_values(|x: <T as DeepView>::V| T::encode(x)));
            }
            i += 1;
        }
        assert(self.entries@.take(i as int) =~= self.entries@);
        Json::Object(out)
    }

    fn from_json(j: &Json) -> (r: Option<Table<T>>) {
        match j {
            Json::Object(members) => {
                let ghost all = view_of_members(members@);
                let mut out: Vec<(String, T)> = Vec::new();
                let mut i: usize = 0;
                proof {
                    assert forall|k: Seq<char>| #[trigger] all.contains_key(k) implies last_at(members@, k) >= 0 by {
                        lemma_last_at(members@, k);
                    }
                }
                while i < members.len()
                    invariant
                        i <= members.len(),
                        all == view_of_members(members@),
                        j@ == JsonView::Object(all),
                        forall|k: Seq<char>| #[trigger] all.contains_key(k) ==> last_at(members@, k) >= 0,
                        forall|k: Seq<char>|
                            #[trigger] all.contains_key(k) && last_at(members@, k) < i ==> T::decode(all[k]) is Some,
                        map_of(out@) =~= Map::new(
                            |k: Seq<char>| all.contains_key(k) && last_at(members@, k) < i,
                            |k: Seq<char>| T::decode(all[k]).unwrap(),
                        ),
                    decreases members.len() - i,
                {
                    let ghost key = members@[i as int].0@;
                    proof {
                        lemma_last_at(members@, key);
                        assert forall|k: Seq<char>| k != key implies last_at(members@, k) != i by {
                            lemma_last_at(members@, k);
                        }
                    }
                    if last_with_its_key(members, i) {
                        match T::from_json(&members[i].1) {
                            Some(x) => {
                                let ghost before = out@;
                                out.push((members[i].0.clone(), x));
                                assert(out@.drop_last() =~= before);
                            },
                            None => {
                                assert(all.contains_key(key) && T::decode(all[key]) is None);
                                return None;
                            },
                        }
                    }
                    i += 1;
                }
                proof {
                    assert forall|k: Seq<char>| #[trigger] all.contains_key(k) implies last_at(members@, k) < i by {
                        lemma_last_at(members@, k);
                    }
                    assert(map_of(out@) =~= all.map_values(|x: JsonView| T::decode(x).unwrap()));
                }
                Some(Table { entries: out })
            },
            _ => None,
        }
    }
}

/// Whether no member after the one at `i` has its key.
fn last_with_its_key(members: &Vec<(String, Json)>, i: usize) -> (r: bool)
    requires
        i < members.len(),
    ensures
        r == (last_at(members@, members@[i as int].0@) == i),
{
    let ghost key = members@[i as int].0@;
    let mut k: usize = i + 1;
    while k < members.len()
        invariant
            i < k <= members.len(),
            key == members@[i as int].0@,
            forall|n: int| i < n < k ==> (#[trigger] members@[n]).0@ != key,
        decreases members.len() - k,
    {
        if same_text(members[k].0.as_str(), members[i].0.as_str()) {
            proof {
                lemma_last_at(members@, key);
                assert(members@[k as int].0@ == key);
            }
            return false;
        }
        k += 1;
    }
    proof {
        lemma_last_at(members@, key);
    }
    true
}

/// What a text is read as: the value of its document, or the error that
/// says whether the text or the shape of the document was at fault.
pub open spec fn decoded<T: Wire>(text: Seq<char>) -> Result<<T as DeepView>::V, RevoltRsError> {
    match parsed(text) {
        Some(doc) => match T::decode(doc) {
            Some(v) => Ok(v),
            None => Err(RevoltRsError::Serde { source: CodecError::Schema }),
        },
        None => Err(RevoltRsError::Serde { source: CodecError::Syntax }),
    }
}

/// Whether an outcome with a value is the outcome `wanted` with the model
/// of that value.
pub open spec fn gives<T: DeepView>(r: Result<T, RevoltRsError>, wanted: Result<<T as DeepView>::V, RevoltRsError>) -> bool {
    match r {
        Ok(x) => wanted == Ok::<<T as DeepView>::V, RevoltRsError>(x.deep_view()),
        Err(e) => wanted == Err::<<T as DeepView>::V, RevoltRsError>(e),
    }
}

/// Reads a value from what came back from parsing a text: a text that was
/// no JSON gives the error of syntax, a document of another shape the error
/// of schema.
pub fn read_document<T: Wire>(outcome: Result<Json, serde_json::Error>) -> (r: Result<T, RevoltRsError>)
    ensures
        match outcome {
            Ok(doc) => match T::decode(doc@) {
                Some(v) => r is Ok && r->Ok_0.deep_view() == v,
                None => r == Err::<T, RevoltRsError>(RevoltRsError::Serde { source: CodecError::Schema }),
            },
            Err(_) => r == Err::<T, RevoltRsError>(RevoltRsError::Serde { source: CodecError::Syntax }),
        },
{
    match outcome {
        Ok(doc) => match T::from_json(&doc) {
            Some(x) => Ok(x),
            None => Err(RevoltRsError::Serde { source: CodecError::Schema }),
        },
        Err(_) => Err(RevoltRsError::Serde { source: CodecError::Syntax }),
    }
}

/// Reads a value from a JSON text.
pub fn from_text<T: Wire>(text: &str) -> (r: Result<T, RevoltRsError>)
    ensures
        gives(r, decoded::<T>(text@)),
{
    read_document::<T>(parse(text))
}

/// Takes what came back from printing a document: the text, or the error of
/// encoding.
pub fn written_text(outcome: Result<String, serde_json::Error>) -> (r: Result<String, RevoltRsError>)
    ensures
        match outcome {
            Ok(text) => r == Ok::<String, RevoltRsError>(text),
            Err(_) => r == Err::<String, RevoltRsError>(RevoltRsError::Serde { source: CodecError::Encode }),
        },
{
    match outcome {
        Ok(text) => Ok(text),
        Err(_) => Err(RevoltRsError::Serde { source: CodecError::Encode }),
    }
}

/// Writes a value as a JSON text: the printed document of the value. It
/// never fails.
pub fn to_text<T: Wire>(value: &T) -> (r: Result<String, RevoltRsError>)
    ensures
        r is Ok,
        r->Ok_0@ == printed(T::encode(value.deep_view())),
{
    let doc = value.to_json();
    written_text(print(&doc))
}

} // verus!
