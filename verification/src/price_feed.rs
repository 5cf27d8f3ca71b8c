//! Readers of the price sources' answers: from the bytes of a response to the
//! value that the cache wants, or `None` where the answer has another shape.

use vstd::prelude::*;
use crate::json::{json_document, parse_document, JsonValue};

verus! {

/// The member of `value` under `key`, where there is a value and it has one.
pub open spec fn member_in(value: Option<JsonValue>, key: Seq<char>) -> Option<JsonValue> {
    match value {
        Some(v) => v.member(key),
        None => None,
    }
}

/// The first element of `value`, where there is a value and it has one.
pub open spec fn first_in(value: Option<JsonValue>) -> Option<JsonValue> {
    match value {
        Some(v) => v.element(0),
        None => None,
    }
}

/// The number that `value` is, where there is a value and it is one.
pub open spec fn number_in(value: Option<JsonValue>) -> Option<u64> {
    match value {
        Some(v) => v.number(),
        None => None,
    }
}

/// The string that `value` is, where there is a value and it is one.
pub open spec fn text_in(value: Option<JsonValue>) -> Option<Seq<char>> {
    match value {
        Some(v) => v.text(),
        None => None,
    }
}

/// The asset price in an oracle's answer: the number under `value` in the
/// first element of the array that the answer is.
pub open spec fn oracle_price(doc: JsonValue) -> Option<u64> {
    number_in(member_in(doc.element(0), "value"@))
}

/// The asset price in a stored oracle package: the number under `value` in the
/// first of its `dataPoints`.
pub open spec fn onchain_price(doc: JsonValue) -> Option<u64> {
    number_in(member_in(first_in(doc.member("dataPoints"@)), "value"@))
}

/// The id of the newest transaction in a gateway's answer to the query for
/// oracle packages: the string at `data.transactions.edges[0].node.id`.
pub open spec fn storage_hash(doc: JsonValue) -> Option<Seq<char>> {
    text_in(
        member_in(
            member_in(
                first_in(member_in(member_in(doc.member("data"@), "transactions"@), "edges"@)),
                "node"@,
            ),
            "id"@,
        ),
    )
}

/// The asset price in the body of an oracle's answer.
pub open spec fn price_in_body(body: Seq<u8>) -> Option<u64> {
    match json_document(body) {
        Some(doc) => oracle_price(doc),
        None => None,
    }
}

/// Whether an HTTP status says that the request succeeded.
pub open spec fn is_success_status(status: u16) -> bool {
    200 <= status <= 299
}

/// The asset price in an oracle's response: that in its body where the status
/// says success, none otherwise.
pub open spec fn price_in_response(status: u16, body: Seq<u8>) -> Option<u64> {
    if is_success_status(status) {
        price_in_body(body)
    } else {
        None
    }
}

/// The asset price in the body of a stored oracle package.
pub open spec fn onchain_price_in_body(body: Seq<u8>) -> Option<u64> {
    match json_document(body) {
        Some(doc) => onchain_price(doc),
        None => None,
    }
}

/// The id of the newest oracle package in the body of a gateway's answer.
pub open spec fn storage_hash_in_body(body: Seq<u8>) -> Option<Seq<char>> {
    match json_document(body) {
        Some(doc) => storage_hash(doc),
        None => None,
    }
}

fn get_in<'a>(value: Option<&'a JsonValue>, key: &str) -> (r: Option<&'a JsonValue>)
    ensures
        match r {
            Some(v) => value is Some && value.unwrap().member(key@) == Some(*v),
            None => value is None || value.unwrap().member(key@) is None,
        },
{
    match value {
        Some(v) => v.get(key),
        None => None,
    }
}

fn first_of<'a>(value: Option<&'a JsonValue>) -> (r: Option<&'a JsonValue>)
    ensures
        match r {
            Some(v) => value is Some && value.unwrap().element(0) == Some(*v),
            None => value is None || value.unwrap().element(0) is None,
        },
{
    match value {
        Some(v) => v.get_index(0),
        None => None,
    }
}

pub fn price_from_document(doc: &JsonValue) -> (r: Option<u64>)
    ensures
        r == oracle_price(*doc),
{
    match get_in(doc.get_index(0), "value") {
        Some(v) => v.as_number_bits(),
        None => None,
    }
}

pub fn onchain_price_from_document(doc: &JsonValue) -> (r: Option<u64>)
    ensures
        r == onchain_price(*doc),
{
    match get_in(first_of(doc.get("dataPoints")), "value") {
        Some(v) => v.as_number_bits(),
        None => None,
    }
}

pub fn storage_hash_from_document(doc: &JsonValue) -> (r: Option<String>)
    ensures
        match r {
            Some(id) => storage_hash(*doc) == Some(id@),
            None => storage_hash(*doc) is None,
        },
{
    let edges = get_in(get_in(doc.get("data"), "transactions"), "edges");
    match get_in(get_in(first_of(edges), "node"), "id") {
        Some(v) => match v.as_str() {
            Some(id) => Some(id.to_owned()),
            None => None,
        },
        None => None,
    }
}

/// The asset price in the body of an oracle's answer; `None` where the body is
/// no JSON text or holds no such number.
pub fn price_from_body(body: &[u8]) -> (r: Option<u64>)
    ensures
        r == price_in_body(body@),
{
    match parse_document(body) {
        Some(doc) => price_from_document(&doc),
        None => None,
    }
}

/// The asset price in an oracle's response, given its status and its body;
/// `None` for any status outside 200 to 299, whatever the body holds.
pub fn price_from_response(status: u16, body: &[u8]) -> (r: Option<u64>)
    ensures
        r == price_in_response(status, body@),
{
    if 200 <= status && status <= 299 {
        price_from_body(body)
    } else {
        None
    }
}

/// The asset price in the body of a stored oracle package.
pub fn onchain_price_from_body(body: &[u8]) -> (r: Option<u64>)
    ensures
        r == onchain_price_in_body(body@),
{
    match parse_document(body) {
        Some(doc) => onchain_price_from_document(&doc),
        None => None,
    }
}

/// The id of the newest oracle package in the body of a gateway's answer.
pub fn storage_hash_from_body(body: &[u8]) -> (r: Option<String>)
    ensures
        match r {
            Some(id) => storage_hash_in_body(body@) == Some(id@),
            None => storage_hash_in_body(body@) is None,
        },
{
    match parse_document(body) {
        Some(doc) => storage_hash_from_document(&doc),
        None => None,
    }
}

} // verus!
