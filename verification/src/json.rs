//! A JSON document as a tree of plain values, read with `serde_json`.

use crate::error::ReplyError;
use vstd::prelude::*;
use vstd::string::StringExecFns;

verus! {

/// The mathematical value of a JSON document.
pub enum JsonValue {
    Null,
    Bool(bool),
    /// A number, by its decimal text.
    Number(Seq<char>),
    Text(Seq<char>),
    Array(Seq<JsonValue>),
    /// The members of an object, each a key and its value.
    Object(Seq<(Seq<char>, JsonValue)>),
}

/// The value of the first member of `members` whose key is `key`.
pub open spec fn find_member(members: Seq<(Seq<char>, JsonValue)>, key: Seq<char>) -> Option<
    JsonValue,
>
    decreases members.len(),
{
    if members.len() == 0 {
        None
    } else if members[0].0 == key {
        Some(members[0].1)
    } else {
        find_member(members.drop_first(), key)
    }
}

impl JsonValue {
    /// The value under `key`, where this is an object that has such a member.
    pub open spec fn member(self, key: Seq<char>) -> Option<JsonValue> {
        match self {
            JsonValue::Object(members) => find_member(members, key),
            _ => None,
        }
    }

    /// The characters of this value, where it is a string.
    pub open spec fn text(self) -> Option<Seq<char>> {
        match self {
            JsonValue::Text(s) => Some(s),
            _ => None,
        }
    }

    /// The elements of this value, where it is an array.
    pub open spec fn items(self) -> Option<Seq<JsonValue>> {
        match self {
            JsonValue::Array(items) => Some(items),
            _ => None,
        }
    }

    /// The characters of the string under `key`, where this is an object
    /// whose member `key` is a string.
    pub open spec fn text_member(self, key: Seq<char>) -> Option<Seq<char>> {
        match self.member(key) {
            Some(value) => value.text(),
            None => None,
        }
    }

    /// The elements of the array under `key`, where this is an object whose
    /// member `key` is an array.
    pub open spec fn items_member(self, key: Seq<char>) -> Option<Seq<JsonValue>> {
        match self.member(key) {
            Some(value) => value.items(),
            None => None,
        }
    }
}

/// A JSON document.
#[derive(Debug, PartialEq, Eq)]
pub enum Json {
    Null,
    Bool(bool),
    /// A number, by its decimal text.
    Number(String),
    Text(String),
    Array(Vec<Json>),
    /// The members of an object, each a key and its value.
    Object(Vec<(String, Json)>),
}

/// The value of a document.
pub open spec fn value_of(doc: Json) -> JsonValue
    decreases doc,
{
    match doc {
        Json::Null => JsonValue::Null,
        Json::Bool(b) => JsonValue::Bool(b),
        Json::Number(n) => JsonValue::Number(n@),
        Json::Text(s) => JsonValue::Text(s@),
        Json::Array(items) => JsonValue::Array(
            Seq::new(
                items@.len(),
                |i: int|
                    if 0 <= i < items@.len() {
                        value_of(items@[i])
                    } else {
                        JsonValue::Null
                    },
            ),
        ),
        Json::Object(members) => JsonValue::Object(
            Seq::new(
                members@.len(),
                |i: int|
                    if 0 <= i < members@.len() {
                        (members@[i].0@, value_of(members@[i].1))
                    } else {
                        (Seq::empty(), JsonValue::Null)
                    },
            ),
        ),
    }
}

impl View for Json {
    type V = JsonValue;

    open spec fn view(&self) -> JsonValue {
        value_of(*self)
    }
}

/// `serde_json::Value`, as a type whose values are only handed on.
#[verifier::external_type_specification]
#[verifier::external_body]
pub struct ExValue(serde_json::Value);

/// `serde_json::Error`, as a type whose values are only handed on.
#[verifier::external_type_specification]
#[verifier::external_body]
pub struct ExError(serde_json::Error);

/// The document that `serde_json` reads from `bytes`, or `None` where it
/// rejects them.
pub uninterp spec fn json_parse(bytes: Seq<u8>) -> Option<JsonValue>;

/// The document that a `serde_json::Value` holds.
pub uninterp spec fn json_of_value(value: serde_json::Value) -> JsonValue;

/// Calls `serde_json::from_slice` for a `serde_json::Value`. Not proved: that
/// the outcome is a function of the bytes alone, named `json_parse`; nothing
/// is claimed about which bytes are accepted.
#[verifier::external_body]
fn value_from_slice(bytes: &[u8]) -> (r: Result<serde_json::Value, serde_json::Error>)
    ensures
        match r {
            Ok(value) => json_parse(bytes@) == Some(json_of_value(value)),
            Err(_) => json_parse(bytes@) is None,
        },
{
    serde_json::from_slice::<serde_json::Value>(bytes)
}

/// Moves a `serde_json::Value` into a `Json`, variant by variant: a number
/// by `serde_json::Number`'s `to_string`, an object's members in the order
/// in which `serde_json::Map` hands them out. Not proved: that the tree
/// built is the one named `json_of_value`.
#[verifier::external_body]
fn json_from_value(value: serde_json::Value) -> (r: Json)
    ensures
        r@ == json_of_value(value),
{
    match value {
        serde_json::Value::Null => Json::Null,
        serde_json::Value::Bool(b) => Json::Bool(b),
        serde_json::Value::Number(n) => Json::Number(n.to_string()),
        serde_json::Value::String(s) => Json::Text(s),
        serde_json::Value::Array(items) => Json::Array(
            items.into_iter().map(json_from_value).collect(),
        ),
        serde_json::Value::Object(members) => Json::Object(
            members.into_iter().map(|(k, v)| (k, json_from_value(v))).collect(),
        ),
    }
}

/// The JSON string literal that `serde_json` writes for `text`, or `None`
/// where it reports an error.
pub uninterp spec fn json_string_literal(text: Seq<char>) -> Option<Seq<char>>;

/// Calls `serde_json::to_string` on a string slice. Not proved: that the
/// outcome is a function of the characters alone, named
/// `json_string_literal`; nothing is claimed about success.
#[verifier::external_body]
fn string_to_json(text: &str) -> (r: Result<String, serde_json::Error>)
    ensures
        match r {
            Ok(literal) => json_string_literal(text@) == Some(literal@),
            Err(_) => json_string_literal(text@) is None,
        },
{
    serde_json::to_string::<str>(text)
}

/// The JSON string literal for `text`: in quotes, with what JSON cannot
/// hold as it is escaped.
pub fn string_literal(text: &str) -> (r: Option<String>)
    ensures
        match r {
            Some(literal) => json_string_literal(text@) == Some(literal@),
            None => json_string_literal(text@) is None,
        },
{
    match string_to_json(text) {
        Ok(literal) => Some(literal),
        Err(_) => None,
    }
}

impl Json {
    /// Reads a document from its bytes.
    pub fn parse(bytes: &[u8]) -> (r: Result<Json, ReplyError>)
        ensures
            match r {
                Ok(doc) => json_parse(bytes@) == Some(doc@),
                Err(e) => json_parse(bytes@) is None && e == ReplyError::Syntax,
            },
    {
        match value_from_slice(bytes) {
            Ok(value) => Ok(json_from_value(value)),
            Err(_) => Err(ReplyError::Syntax),
        }
    }

    /// The value under `key`, where this is an object that has such a member.
    pub fn member(&self, key: &str) -> (r: Option<&Json>)
        ensures
            match r {
                Some(value) => self@.member(key@) == Some(value@),
                None => self@.member(key@) is None,
            },
    {
        match self {
            Json::Object(members) => {
                let wanted = String::from_str(key);
                let ghost all = members_view(members@);
                assert(self@->Object_0 =~= all);
                assert(all.skip(0) == all);
                let mut i: usize = 0;
                while i < members.len()
                    invariant
                        i <= members.len(),
                        wanted@ == key@,
                        all == members_view(members@),
                        self@ == JsonValue::Object(all),
                        find_member(all, key@) == find_member(all.skip(i as int), key@),
                    decreases members.len() - i,
                {
                    assert(all.skip(i as int)[0] == all[i as int]);
                    if members[i].0 == wanted {
                        return Some(&members[i].1);
                    }
                    assert(all.skip(i as int).drop_first() == all.skip(i + 1));
                    i += 1;
                }
                None
            },
            _ => None,
        }
    }

    /// The string that this document is, where it is one.
    pub fn text(&self) -> (r: Option<&String>)
        ensures
            match r {
                Some(s) => self@.text() == Some(s@),
                None => self@.text() is None,
            },
    {
        match self {
            Json::Text(s) => Some(s),
            _ => None,
        }
    }

    /// The elements of this document, where it is an array.
    pub fn items(&self) -> (r: Option<&Vec<Json>>)
        ensures
            match r {
                Some(items) => self@.items() == Some(items_view(items@)),
                None => self@.items() is None,
            },
    {
        match self {
            Json::Array(items) => {
                assert(self@->Array_0 =~= items_view(items@));
                Some(items)
            },
            _ => None,
        }
    }

    /// The string under `key`, where this is an object whose member `key` is
    /// a string.
    pub fn text_member(&self, key: &str) -> (r: Option<&String>)
        ensures
            match r {
                Some(s) => self@.text_member(key@) == Some(s@),
                None => self@.text_member(key@) is None,
            },
    {
        match self.member(key) {
            Some(value) => value.text(),
            None => None,
        }
    }

    /// The elements of the array under `key`, where this is an object whose
    /// member `key` is an array.
    pub fn items_member(&self, key: &str) -> (r: Option<&Vec<Json>>)
        ensures
            match r {
                Some(items) => self@.items_member(key@) == Some(items_view(items@)),
                None => self@.items_member(key@) is None,
            },
    {
        match self.member(key) {
            Some(value) => value.items(),
            None => None,
        }
    }
}

/// The keys and values of a sequence of members.
pub open spec fn members_view(members: Seq<(String, Json)>) -> Seq<(Seq<char>, JsonValue)> {
    Seq::new(members.len(), |i: int| (members[i].0@, members[i].1@))
}

/// The values of a sequence of documents.
pub open spec fn items_view(items: Seq<Json>) -> Seq<JsonValue> {
    Seq::new(items.len(), |i: int| items[i]@)
}

} // verus!
