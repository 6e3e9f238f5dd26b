//! Reading JSON documents with `serde_json`.

use vstd::prelude::*;

use crate::json::{Json, JsonNumber, JsonTree};

verus! {

/// `serde_json::Value`, a parsed document.
#[verifier::external_type_specification]
#[verifier::external_body]
pub struct ExValue(serde_json::Value);

/// `serde_json::Number`, a parsed number.
#[verifier::external_type_specification]
#[verifier::external_body]
pub struct ExNumber(serde_json::Number);

/// `serde_json::Error`, why a text is no document.
#[verifier::external_type_specification]
#[verifier::external_body]
pub struct ExError(serde_json::Error);

/// What a parsed document holds.
pub uninterp spec fn value_tree(value: serde_json::Value) -> JsonTree;

/// What a parsed number holds.
pub uninterp spec fn number_held(number: serde_json::Number) -> JsonNumber;

/// The document that a text is parsed as, if it is one.
pub uninterp spec fn parsed_text(text: Seq<char>) -> Option<JsonTree>;

/// The document that bytes are parsed as, if they are one.
pub uninterp spec fn parsed_bytes(bytes: Seq<u8>) -> Option<JsonTree>;

/// The outermost layer of a parsed document.
pub enum Layer {
    Null,
    Bool(bool),
    Number(serde_json::Number),
    Str(String),
    Array(Vec<serde_json::Value>),
    Object(Vec<(String, serde_json::Value)>),
}

/// What the document under a layer holds.
pub open spec fn layer_tree(layer: Layer) -> JsonTree {
    match layer {
        Layer::Null => JsonTree::Null,
        Layer::Bool(value) => JsonTree::Bool(value),
        Layer::Number(number) => JsonTree::Number(number_held(number)),
        Layer::Str(text) => JsonTree::Str(text@),
        Layer::Array(items) => JsonTree::Array(items@.map_values(|item: serde_json::Value| value_tree(item))),
        Layer::Object(members) => JsonTree::Object(
            members@.map_values(|m: (String, serde_json::Value)| (m.0@, value_tree(m.1))),
        ),
    }
}

/// No two of the members have one name.
pub open spec fn names_distinct(members: Seq<(String, serde_json::Value)>) -> bool {
    forall|i: int, j: int| 0 <= i < j < members.len() ==> (#[trigger] members[i]).0@ != (#[trigger] members[j]).0@
}

/// Parses a text: `serde_json::from_str` into a `serde_json::Value`. Whether it succeeds, and
/// what the document then holds, depends on the text alone.
#[verifier::external_body]
fn value_from_text(text: &str) -> (parsed: Result<serde_json::Value, serde_json::Error>)
    ensures
        match parsed {
            Ok(value) => parsed_text(text@) == Some(value_tree(value)),
            Err(_) => parsed_text(text@) is None,
        },
{
    serde_json::from_str(text)
}

/// Parses bytes: `serde_json::from_slice` into a `serde_json::Value`. Whether it succeeds, and
/// what the document then holds, depends on the bytes alone.
#[verifier::external_body]
fn value_from_bytes(bytes: &[u8]) -> (parsed: Result<serde_json::Value, serde_json::Error>)
    ensures
        match parsed {
            Ok(value) => parsed_bytes(bytes@) == Some(value_tree(value)),
            Err(_) => parsed_bytes(bytes@) is None,
        },
{
    serde_json::from_slice(bytes)
}

/// Takes the outermost layer off a `serde_json::Value`: its variants are the layer's, and
/// the map behind `Value::Object` has no name twice.
#[verifier::external_body]
fn open_value(value: serde_json::Value) -> (layer: Layer)
    ensures
        layer_tree(layer) == value_tree(value),
        layer matches Layer::Object(members) ==> names_distinct(members@),
{
    match value {
        serde_json::Value::Null => Layer::Null,
        serde_json::Value::Bool(value) => Layer::Bool(value),
        serde_json::Value::Number(number) => Layer::Number(number),
        serde_json::Value::String(text) => Layer::Str(text),
        serde_json::Value::Array(items) => Layer::Array(items),
        serde_json::Value::Object(members) => Layer::Object(members.into_iter().collect()),
    }
}

/// `serde_json::Number::as_u64`: the integer, where the number is one that is not negative.
#[verifier::external_body]
fn number_as_unsigned(number: &serde_json::Number) -> (n: Option<u64>)
    ensures
        n == match number_held(*number) {
            JsonNumber::PosInt(n) => Some(n),
            _ => None,
        },
{
    number.as_u64()
}

/// `serde_json::Number::as_i64`: the integer, where the number is one that fits.
#[verifier::external_body]
fn number_as_signed(number: &serde_json::Number) -> (n: Option<i64>)
    ensures
        n == match number_held(*number) {
            JsonNumber::PosInt(n) => if n <= i64::MAX {
                Some(n as i64)
            } else {
                None
            },
            JsonNumber::NegInt(n) => Some(n),
            JsonNumber::Float(_) => None,
        },
{
    number.as_i64()
}

/// `serde_json::Number::as_f64`, by its bits: those that the number holds, where it is no
/// integer, and in any case some.
#[verifier::external_body]
fn number_as_double(number: &serde_json::Number) -> (bits: Option<u64>)
    ensures
        bits is Some,
        number_held(*number) matches JsonNumber::Float(held) ==> bits == Some(held),
{
    number.as_f64().map(|n| n.to_bits())
}

/// The number that is held.
fn number_of(number: &serde_json::Number) -> (held: JsonNumber)
    ensures
        held == number_held(*number),
{
    match number_as_unsigned(number) {
        Some(n) => JsonNumber::PosInt(n),
        None => match number_as_signed(number) {
            Some(n) => JsonNumber::NegInt(n),
            None => {
                let bits = number_as_double(number);
                JsonNumber::Float(bits.unwrap())
            },
        },
    }
}

/// The document that a parsed value holds.
fn document_of(value: serde_json::Value) -> (json: Json)
    ensures
        json.tree() == value_tree(value),
        json.tree().well_formed(),
    decreases value_tree(value),
{
    let ghost whole = value_tree(value);
    let layer = open_value(value);
    let ghost held = layer_tree(layer);
    match layer {
        Layer::Null => Json::Null,
        Layer::Bool(value) => Json::Bool(value),
        Layer::Number(number) => Json::Number(number_of(&number)),
        Layer::Str(text) => Json::Str(text),
        Layer::Array(items) => {
            let ghost given = items@;
            let mut done: Vec<Json> = Vec::new();
            for item in it: items.into_iter()
                invariant
                    whole == value_tree(value),
                    it.seq() == given,
                    done@.len() == it.index(),
                    whole == JsonTree::Array(given.map_values(|item: serde_json::Value| value_tree(item))),
                    forall|j: int|
                        0 <= j < done@.len() ==> (#[trigger] done@[j]).tree() == value_tree(given[j])
                            && done@[j].tree().well_formed(),
            {
                proof {
                    let trees = given.map_values(|item: serde_json::Value| value_tree(item));
                    assert(trees[done@.len() as int] == value_tree(item));
                    assert(decreases_to!(whole => whole->Array_0));
                    assert(decreases_to!(trees => trees[done@.len() as int]));
                }
                done.push(document_of(item));
            }
            let json = Json::array(done);
            proof {
                assert(json.tree()->Array_0 =~= whole->Array_0);
            }
            json
        },
        Layer::Object(members) => {
            let ghost given = members@;
            let mut done: Vec<(String, Json)> = Vec::new();
            for pair in it: members.into_iter()
                invariant
                    whole == value_tree(value),
                    it.seq() == given,
                    done@.len() == it.index(),
                    whole == JsonTree::Object(
                        given.map_values(|m: (String, serde_json::Value)| (m.0@, value_tree(m.1))),
                    ),
                    forall|j: int|
                        0 <= j < done@.len() ==> (#[trigger] done@[j]).0@ == given[j].0@ && done@[j].1.tree()
                            == value_tree(given[j].1) && done@[j].1.tree().well_formed(),
            {
                proof {
                    let trees = given.map_values(|m: (String, serde_json::Value)| (m.0@, value_tree(m.1)));
                    let at = done@.len() as int;
                    assert(trees[at].1 == value_tree(pair.1));
                    assert(decreases_to!(whole => whole->Object_0));
                    assert(decreases_to!(trees => trees[at]));
                    assert(decreases_to!(trees[at] => trees[at].1));
                }
                let (name, inner) = pair;
                done.push((name, document_of(inner)));
            }
            let json = Json::object(done);
            proof {
                assert(json.tree()->Object_0 =~= whole->Object_0);
            }
            json
        },
    }
}

/// Parses a text.
pub fn parse_text(text: &str) -> (parsed: Result<Json, serde_json::Error>)
    ensures
        match parsed {
            Ok(json) => parsed_text(text@) == Some(json.tree()) && json.tree().well_formed(),
            Err(_) => parsed_text(text@) is None,
        },
{
    match value_from_text(text) {
        Ok(value) => Ok(document_of(value)),
        Err(error) => Err(error),
    }
}

/// Parses bytes; `None` where they are no JSON document.
pub fn parse_bytes(bytes: &[u8]) -> (parsed: Option<Json>)
    ensures
        match parsed {
            Some(json) => parsed_bytes(bytes@) == Some(json.tree()) && json.tree().well_formed(),
            None => parsed_bytes(bytes@) is None,
        },
{
    match value_from_bytes(bytes) {
        Ok(value) => Some(document_of(value)),
        Err(_) => None,
    }
}

} // verus!
