//! JSON documents as plain data: what the price sources answer with, once
//! parsed, in a form whose every part a contract can speak of.

use vstd::prelude::*;

verus! {

/// `serde_json::Value`, declared so that it can stand in a signature. What a
/// value of it holds is not seen here: it is turned into a `JsonValue` first.
#[verifier::external_type_specification]
#[verifier::external_body]
pub struct ExValue(serde_json::Value);

/// A JSON value. A number is held as the bit pattern of the double it reads
/// as; an object as its members in the order of their keys.
pub enum JsonValue {
    Null,
    Bool(bool),
    Number(Option<u64>),
    Text(String),
    Array(Vec<JsonValue>),
    Object(Vec<(String, JsonValue)>),
}

/// The document that `serde_json::from_slice` reads from a body of bytes, or
/// `None` where it refuses them. Nothing more is said of it here.
pub uninterp spec fn json_document(body: Seq<u8>) -> Option<JsonValue>;

/// The first member of `entries` under `key`.
pub open spec fn member_of(entries: Seq<(String, JsonValue)>, key: Seq<char>) -> Option<JsonValue>
    decreases entries.len(),
{
    if entries.len() == 0 {
        None
    } else if entries[0].0@ == key {
        Some(entries[0].1)
    } else {
        member_of(entries.skip(1), key)
    }
}

impl JsonValue {
    /// The element at `i`, where this is an array that long.
    pub open spec fn element(self, i: int) -> Option<JsonValue> {
        match self {
            JsonValue::Array(items) => if 0 <= i < items@.len() {
                Some(items@[i])
            } else {
                None
            },
            _ => None,
        }
    }

    /// The member under `key`, where this is an object that has one.
    pub open spec fn member(self, key: Seq<char>) -> Option<JsonValue> {
        match self {
            JsonValue::Object(entries) => member_of(entries@, key),
            _ => None,
        }
    }

    /// The bit pattern of the number, where this is one.
    pub open spec fn number(self) -> Option<u64> {
        match self {
            JsonValue::Number(bits) => bits,
            _ => None,
        }
    }

    /// The characters of the string, where this is one.
    pub open spec fn text(self) -> Option<Seq<char>> {
        match self {
            JsonValue::Text(s) => Some(s@),
            _ => None,
        }
    }

    pub fn get_index(&self, i: usize) -> (r: Option<&JsonValue>)
        ensures
            match r {
                Some(v) => self.element(i as int) == Some(*v),
                None => self.element(i as int) is None,
            },
    {
        match self {
            JsonValue::Array(items) => if i < items.len() {
                Some(&items[i])
            } else {
                None
            },
            _ => None,
        }
    }

    pub fn get(&self, key: &str) -> (r: Option<&JsonValue>)
        ensures
            match r {
                Some(v) => self.member(key@) == Some(*v),
                None => self.member(key@) is None,
            },
    {
        match self {
            JsonValue::Object(entries) => {
                let wanted = key.to_owned();
                let mut i: usize = 0;
                assert(entries@.skip(0) == entries@);
                while i < entries.len()
                    invariant
                        i <= entries.len(),
                        wanted@ == key@,
                        self.member(key@) == member_of(entries@, key@),
                        member_of(entries@, key@) == member_of(entries@.skip(i as int), key@),
                    decreases entries.len() - i,
                {
                    assert(entries@.skip(i as int)[0] == entries@[i as int]);
                    if entries[i].0 == wanted {
                        return Some(&entries[i].1);
                    }
                    assert(entries@.skip(i as int).skip(1) == entries@.skip(i + 1));
                    i += 1;
                }
                None
            },
            _ => None,
        }
    }

    pub fn as_number_bits(&self) -> (r: Option<u64>)
        ensures
            r == self.number(),
    {
        match self {
            JsonValue::Number(bits) => *bits,
            _ => None,
        }
    }

    pub fn as_str(&self) -> (r: Option<&str>)
        ensures
            match r {
                Some(s) => self.text() == Some(s@),
                None => self.text() is None,
            },
    {
        match self {
            JsonValue::Text(s) => Some(s.as_str()),
            _ => None,
        }
    }
}

/// Turns a value of `serde_json` into the library's own, part by part: each
/// variant into the variant of the same kind, a number through
/// `serde_json::Number::as_f64` and `f64::to_bits`, an object's members as
/// `serde_json::Map::iter` hands them out. Nothing is claimed of the result.
#[verifier::external_body]
fn model_of(value: &serde_json::Value) -> JsonValue {
    match value {
        serde_json::Value::Null => JsonValue::Null,
        serde_json::Value::Bool(b) => JsonValue::Bool(*b),
        serde_json::Value::Number(n) => JsonValue::Number(n.as_f64().map(|x| x.to_bits())),
        serde_json::Value::String(s) => JsonValue::Text(s.clone()),
        serde_json::Value::Array(a) => JsonValue::Array(a.iter().map(model_of).collect()),
        serde_json::Value::Object(m) => JsonValue::Object(
            m.iter().map(|(k, v)| (k.clone(), model_of(v))).collect(),
        ),
    }
}

/// Calls `serde_json::from_slice` for a `serde_json::Value`. The contract
/// claims only that the outcome is a function of the bytes: the same body
/// gives the same document, or the same failure, every time.
#[verifier::external_body]
pub(crate) fn parse_document(body: &[u8]) -> (r: Option<JsonValue>)
    ensures
        r == json_document(body@),
{
    serde_json::from_slice::<serde_json::Value>(body).ok().map(|v| model_of(&v))
}

} // verus!
