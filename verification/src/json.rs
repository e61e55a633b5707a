//! JSON documents as trees.
//!
//! Reading and writing the text of a document is the work of `serde_json`;
//! what a document means to this library is decided here, on the tree.

use vstd::prelude::*;
use crate::text::str_eq;

verus! {

/// A JSON document.
#[derive(Debug, PartialEq, Eq)]
pub enum Json {
    Null,
    Bool(bool),
    /// A number that is an integer of the signed 64-bit range.
    Int(i64),
    /// Any other number.
    Other,
    Str(String),
    Array(Vec<Json>),
    /// The members in the order of the document.
    Object(Vec<(String, Json)>),
}

/// The mathematical content of a [`Json`].
pub ghost enum JsonValue {
    Null,
    Bool(bool),
    Int(i64),
    Other,
    Str(Seq<char>),
    Array(Seq<JsonValue>),
    Object(Seq<(Seq<char>, JsonValue)>),
}

/// The content of `j`.
pub open spec fn json_value(j: Json) -> JsonValue
    decreases j,
{
    match j {
        Json::Null => JsonValue::Null,
        Json::Bool(b) => JsonValue::Bool(b),
        Json::Int(i) => JsonValue::Int(i),
        Json::Other => JsonValue::Other,
        Json::Str(s) => JsonValue::Str(s@),
        Json::Array(items) => JsonValue::Array(
            Seq::new(
                items@.len(),
                |i: int|
                    if 0 <= i < items@.len() {
                        json_value(items@[i])
                    } else {
                        JsonValue::Null
                    },
            ),
        ),
        Json::Object(members) => JsonValue::Object(
            Seq::new(
                members@.len(),
                |i: int|
                    if 0 <= i < members@.len() {
                        (members@[i].0@, json_value(members@[i].1))
                    } else {
                        (Seq::empty(), JsonValue::Null)
                    },
            ),
        ),
    }
}

impl View for Json {
    type V = JsonValue;

    open spec fn view(&self) -> JsonValue {
        json_value(*self)
    }
}

/// The contents of the items of an array.
pub open spec fn items_value(items: Seq<Json>) -> Seq<JsonValue> {
    Seq::new(items.len(), |i: int| items[i]@)
}

/// The contents of the members of an object.
pub open spec fn members_value(members: Seq<(String, Json)>) -> Seq<(Seq<char>, JsonValue)> {
    Seq::new(members.len(), |i: int| (members[i].0@, members[i].1@))
}

/// An array holds the contents of its items, and an object those of its
/// members.
pub proof fn lemma_json_value(j: Json)
    ensures
        j matches Json::Array(items) ==> j@ == JsonValue::Array(items_value(items@)),
        j matches Json::Object(members) ==> j@ == JsonValue::Object(members_value(members@)),
{
    match j {
        Json::Array(items) => {
            assert(j@->Array_0 =~= items_value(items@));
        },
        Json::Object(members) => {
            assert(j@->Object_0 =~= members_value(members@));
        },
        _ => {},
    }
}

/// The value of the first of `members` that is called `key`.
pub open spec fn member(members: Seq<(Seq<char>, JsonValue)>, key: Seq<char>) -> Option<JsonValue>
    decreases members.len(),
{
    if members.len() == 0 {
        None
    } else if members[0].0 == key {
        Some(members[0].1)
    } else {
        member(members.skip(1), key)
    }
}

/// No two of `members` have the same name.
pub open spec fn distinct_names(members: Seq<(Seq<char>, JsonValue)>) -> bool {
    forall|i: int, j: int|
        0 <= i < j < members.len() ==> (#[trigger] members[i]).0 != (#[trigger] members[j]).0
}

impl JsonValue {
    /// The member called `key`, where this is an object that has one.
    pub open spec fn get(self, key: Seq<char>) -> Option<JsonValue> {
        match self {
            JsonValue::Object(members) => member(members, key),
            _ => None,
        }
    }

    /// This document can be written as it is: it holds no number but
    /// integers of the signed 64-bit range, and no object holds two members
    /// of one name.
    pub open spec fn writable(self) -> bool
        decreases self,
    {
        match self {
            JsonValue::Other => false,
            JsonValue::Array(items) => forall|i: int|
                0 <= i < items.len() ==> (#[trigger] items[i]).writable(),
            JsonValue::Object(members) => distinct_names(members) && forall|i: int|
                0 <= i < members.len() ==> (#[trigger] members[i]).1.writable(),
            _ => true,
        }
    }
}

/// `serde_json::Value`, of which the verifier sees nothing.
#[verifier::external_type_specification]
#[verifier::external_body]
pub struct ExValue(serde_json::Value);

/// `serde_json::Error`, of which the verifier sees nothing.
#[verifier::external_type_specification]
#[verifier::external_body]
pub struct ExError(serde_json::Error);

/// The document that `serde_json::from_slice` reads from `text` into a
/// `serde_json::Value`; none where it reports an error.
pub uninterp spec fn json_document(text: Seq<u8>) -> Option<JsonValue>;

/// The text that `serde_json::to_vec` writes for a `serde_json::Value` that
/// holds `document`, where `document` is writable. Of a document that is
/// not writable this names nothing: two numbers that are no integers of the
/// signed 64-bit range have one content here and are written differently.
pub uninterp spec fn json_text(document: JsonValue) -> Seq<u8>;

/// What a `serde_json::Value` holds.
pub uninterp spec fn value_content(value: serde_json::Value) -> JsonValue;

/// Calls `serde_json::from_slice` for a `serde_json::Value`.
///
/// Trusted: the outcome depends on the text alone. Nothing is claimed of
/// which texts are documents.
#[verifier::external_body]
fn read_value(text: &[u8]) -> (r: Result<serde_json::Value, serde_json::Error>)
    ensures
        match r {
            Ok(value) => json_document(text@) == Some(value_content(value)),
            Err(_) => json_document(text@) is None,
        },
{
    serde_json::from_slice::<serde_json::Value>(text)
}

/// Calls `serde_json::to_vec` on a `serde_json::Value`.
///
/// Trusted: the text of a value that holds a writable document depends on
/// that document alone. Values that hold another number than an integer of
/// the signed 64-bit range are left out, because such numbers are written by
/// their value, which the content does not keep.
#[verifier::external_body]
fn write_value(value: &serde_json::Value) -> (text: Vec<u8>)
    requires
        value_content(*value).writable(),
    ensures
        text@ == json_text(value_content(*value)),
{
    serde_json::to_vec(value).unwrap_or_default()
}

/// Moves what a `serde_json::Value` holds into a [`Json`], variant by
/// variant; `serde_json::Number::as_i64` tells the integers of the signed
/// 64-bit range from the other numbers.
///
/// Trusted: the tree holds what the value held, the members of an object in
/// the value's order.
#[verifier::external_body]
fn json_of_value(value: serde_json::Value) -> (j: Json)
    ensures
        j@ == value_content(value),
{
    match value {
        serde_json::Value::Null => Json::Null,
        serde_json::Value::Bool(b) => Json::Bool(b),
        serde_json::Value::Number(n) => n.as_i64().map_or(Json::Other, Json::Int),
        serde_json::Value::String(s) => Json::Str(s),
        serde_json::Value::Array(a) => Json::Array(a.into_iter().map(json_of_value).collect()),
        serde_json::Value::Object(m) => Json::Object(
            m.into_iter().map(|(k, v)| (k, json_of_value(v))).collect(),
        ),
    }
}

/// Builds the `serde_json::Value` that holds what a [`Json`] holds, variant
/// by variant.
///
/// Trusted: the value holds what the tree holds, the members of an object
/// in the tree's order (the map of `serde_json` keeps the order in which
/// members are put into it). A `serde_json::Map` keeps one member of each
/// name, and no `serde_json::Number` is made here but from an `i64`, so
/// trees that are not writable are left out.
#[verifier::external_body]
fn value_of_json(j: &Json) -> (value: serde_json::Value)
    requires
        j@.writable(),
    ensures
        value_content(value) == j@,
{
    match j {
        Json::Null | Json::Other => serde_json::Value::Null,
        Json::Bool(b) => serde_json::Value::Bool(*b),
        Json::Int(i) => serde_json::Value::Number(serde_json::Number::from(*i)),
        Json::Str(s) => serde_json::Value::String(s.clone()),
        Json::Array(a) => serde_json::Value::Array(a.iter().map(value_of_json).collect()),
        Json::Object(m) => serde_json::Value::Object(
            m.iter().map(|(k, v)| (k.clone(), value_of_json(v))).collect(),
        ),
    }
}

impl Json {
    /// The object with the given members.
    pub fn object(members: Vec<(String, Json)>) -> (j: Json)
        ensures
            j@ == JsonValue::Object(members_value(members@)),
    {
        let j = Json::Object(members);
        proof {
            lemma_json_value(j);
        }
        j
    }

    /// The array with the given items.
    pub fn array(items: Vec<Json>) -> (j: Json)
        ensures
            j@ == JsonValue::Array(items_value(items@)),
    {
        let j = Json::Array(items);
        proof {
            lemma_json_value(j);
        }
        j
    }

    /// The text `s`, or `null` where there is none.
    pub fn text_or_null(s: &Option<String>) -> (j: Json)
        ensures
            j@ == match s {
                Some(t) => JsonValue::Str(t@),
                None => JsonValue::Null,
            },
    {
        match s {
            Some(t) => Json::Str(t.clone()),
            None => Json::Null,
        }
    }

    /// Reads a document; `None` where the text is not one.
    pub fn parse(text: &[u8]) -> (r: Option<Json>)
        ensures
            match r {
                Some(j) => json_document(text@) == Some(j@),
                None => json_document(text@) is None,
            },
    {
        match read_value(text) {
            Ok(value) => Some(json_of_value(value)),
            Err(_) => None,
        }
    }

    /// Writes a document.
    pub fn to_bytes(&self) -> (text: Vec<u8>)
        requires
            self@.writable(),
        ensures
            text@ == json_text(self@),
    {
        let value = value_of_json(self);
        write_value(&value)
    }

    /// The member called `key`, where this is an object that has one.
    pub fn get(&self, key: &str) -> (r: Option<&Json>)
        ensures
            match r {
                Some(j) => self@.get(key@) == Some(j@),
                None => self@.get(key@) is None,
            },
    {
        match self {
            Json::Object(members) => {
                let ghost all = self@->Object_0;
                let mut i: usize = 0;
                assert(all.skip(0) =~= all);
                while i < members.len()
                    invariant
                        i <= members.len(),
                        self@ == JsonValue::Object(all),
                        all.len() == members@.len(),
                        forall|k: int|
                            0 <= k < members@.len() ==> #[trigger] all[k] == (
                                members@[k].0@,
                                members@[k].1@,
                            ),
                        member(all, key@) == member(all.skip(i as int), key@),
                    decreases members.len() - i,
                {
                    let ghost rest = all.skip(i as int);
                    assert(rest[0] == all[i as int]);
                    if str_eq(members[i].0.as_str(), key) {
                        return Some(&members[i].1);
                    }
                    assert(rest.skip(1) =~= all.skip(i + 1));
                    i += 1;
                }
                None
            },
            _ => None,
        }
    }
}

/// Appends the member `name`: `value` to the members of an object.
pub fn push_member(members: &mut Vec<(String, Json)>, name: &str, value: Json)
    ensures
        members_value(final(members)@) == members_value(old(members)@).push((name@, value@)),
{
    members.push((name.to_owned(), value));
    assert(members_value(members@) =~= members_value(old(members)@).push((name@, value@)));
}

/// Where no two members have the same name, the name of each member finds
/// the value of that member.
pub proof fn lemma_member_of_distinct(members: Seq<(Seq<char>, JsonValue)>, i: int)
    requires
        distinct_names(members),
        0 <= i < members.len(),
    ensures
        member(members, members[i].0) == Some(members[i].1),
    decreases i,
{
    if i > 0 {
        let rest = members.skip(1);
        assert forall|a: int, b: int| 0 <= a < b < rest.len() implies (#[trigger] rest[a]).0 != (
        #[trigger] rest[b]).0 by {
            assert(rest[a] == members[a + 1]);
            assert(rest[b] == members[b + 1]);
        }
        assert(rest[i - 1] == members[i]);
        lemma_member_of_distinct(rest, i - 1);
        assert(members[0].0 != members[i].0);
    }
}

} // verus!
