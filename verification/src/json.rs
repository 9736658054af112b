//! JSON documents, as `serde_json` reads, holds and writes them.
//!
//! A `serde_json::Value` is opaque to the verifier. What it holds is the tree [`Json`]; every
//! function below says over that tree what the function of `serde_json` behind it does.

use serde_json::Value;
use vstd::prelude::*;

verus! {

/// A JSON document.
pub enum Json {
    Null,
    Bool(bool),
    /// A number without fraction or exponent that fits an integer of sixty-four bits.
    Int(int),
    /// Any other number, by the bits of its binary64 value.
    Float(u64),
    Text(Seq<char>),
    List(Seq<Json>),
    Object(Map<Seq<char>, Json>),
}

/// `serde_json::Value`.
#[verifier::external_type_specification]
#[verifier::external_body]
pub struct ExValue(serde_json::Value);

/// `serde_json::Map`, the members of a JSON object.
#[verifier::external_type_specification]
#[verifier::external_body]
#[verifier::reject_recursive_types(K)]
#[verifier::reject_recursive_types(V)]
pub struct ExMap<K, V>(serde_json::Map<K, V>);

/// `serde_json::Error`.
#[verifier::external_type_specification]
#[verifier::external_body]
pub struct ExError(serde_json::Error);

/// What a JSON value holds.
pub uninterp spec fn json_tree(value: Value) -> Json;

/// What the members of a JSON object hold.
pub uninterp spec fn json_members(members: serde_json::Map<String, Value>) -> Map<
    Seq<char>,
    Json,
>;

/// The document that a text is read as, where it is JSON at all.
pub uninterp spec fn json_read(text: Seq<u8>) -> Option<Json>;

/// The text that a document is written as.
pub uninterp spec fn json_written(tree: Json) -> Seq<u8>;

/// No members at all.
pub open spec fn empty_object() -> Map<Seq<char>, Json> {
    Map::empty()
}

/// How deep a document may be nested and still be read.
pub const MAX_DEPTH: u8 = 127;

/// A document of at most `depth` levels in which every number is an integer. A fraction is left
/// out because it can come back from its text with another last bit.
pub open spec fn reads_back(tree: Json, depth: nat) -> bool
    decreases depth,
{
    match tree {
        Json::Float(_) => false,
        Json::List(items) => depth > 0 && forall|i: int|
            0 <= i < items.len() ==> reads_back(#[trigger] items[i], (depth - 1) as nat),
        Json::Object(members) => depth > 0 && forall|key: Seq<char>|
            members.dom().contains(key) ==> reads_back(
                #[trigger] members[key],
                (depth - 1) as nat,
            ),
        _ => true,
    }
}

/// `serde_json::from_slice` at the type `Value`: reads a whole text as one JSON document, and
/// fails where the text is not JSON. Which texts are JSON, and what they hold, is named and not
/// spelled out.
#[verifier::external_body]
pub(crate) fn read_value(text: &[u8]) -> (r: Result<Value, serde_json::Error>)
    ensures
        r is Ok <==> json_read(text@) is Some,
        r matches Ok(value) ==> json_read(text@) == Some(json_tree(value)),
{
    serde_json::from_slice(text)
}

/// `Value::as_object`: the members where the value is an object.
#[verifier::external_body]
pub(crate) fn object_members(value: &Value) -> (r: Option<&serde_json::Map<String, Value>>)
    ensures
        r is Some <==> json_tree(*value) is Object,
        r matches Some(members) ==> json_tree(*value) == Json::Object(json_members(*members)),
{
    value.as_object()
}

/// `Value::as_str`: the text where the value is a string.
#[verifier::external_body]
pub(crate) fn text_value(value: &Value) -> (r: Option<&str>)
    ensures
        r is Some <==> json_tree(*value) is Text,
        r matches Some(text) ==> json_tree(*value) == Json::Text(text@),
{
    value.as_str()
}

/// `Map::get`: the value under a key, where the key is present.
#[verifier::external_body]
pub(crate) fn member<'a>(members: &'a serde_json::Map<String, Value>, key: &str) -> (r: Option<
    &'a Value,
>)
    ensures
        r is Some <==> json_members(*members).dom().contains(key@),
        r matches Some(value) ==> json_tree(*value) == json_members(*members)[key@],
{
    members.get(key)
}

/// `Value::clone`: a value that holds the same.
#[verifier::external_body]
pub(crate) fn copy_value(value: &Value) -> (r: Value)
    ensures
        json_tree(r) == json_tree(*value),
{
    value.clone()
}

/// `Value::Null`.
#[verifier::external_body]
pub(crate) fn null_value() -> (r: Value)
    ensures
        json_tree(r) == Json::Null,
{
    Value::Null
}

/// `Value::from` an integer.
#[verifier::external_body]
pub(crate) fn int_value(n: i64) -> (r: Value)
    ensures
        json_tree(r) == Json::Int(n as int),
{
    Value::from(n)
}

/// `Value::String`.
#[verifier::external_body]
pub(crate) fn string_value(text: String) -> (r: Value)
    ensures
        json_tree(r) == Json::Text(text@),
{
    Value::String(text)
}

/// `Value::Array` of a single element.
#[verifier::external_body]
pub(crate) fn single_value(item: Value) -> (r: Value)
    ensures
        json_tree(r) == Json::List(seq![json_tree(item)]),
{
    Value::Array(vec![item])
}

/// `Value::Object`.
#[verifier::external_body]
pub(crate) fn object_value(members: serde_json::Map<String, Value>) -> (r: Value)
    ensures
        json_tree(r) == Json::Object(json_members(members)),
{
    Value::Object(members)
}

/// `Map::new`: no members.
#[verifier::external_body]
pub(crate) fn no_members() -> (r: serde_json::Map<String, Value>)
    ensures
        json_members(r) == empty_object(),
{
    serde_json::Map::new()
}

/// `Map::insert`: puts a value under a key, in place of what stood there.
#[verifier::external_body]
pub(crate) fn put_member(members: &mut serde_json::Map<String, Value>, key: String, value: Value)
    ensures
        json_members(*final(members)) == json_members(*old(members)).insert(
            key@,
            json_tree(value),
        ),
{
    members.insert(key, value);
}

/// `serde_json::to_vec` of a `Value`. Writing a `Value` into a vector never fails: a vector takes
/// every byte, and the keys of a `Map` are strings. The text depends on what the value holds
/// alone, because a `Map` is walked in the order of its keys. A document whose numbers are all
/// integers, and which is not nested too deep to be read, is read back from it.
#[verifier::external_body]
pub(crate) fn write_value(value: &Value) -> (r: Result<Vec<u8>, serde_json::Error>)
    ensures
        r is Ok,
        r matches Ok(text) ==> text@ == json_written(json_tree(*value)),
        r matches Ok(text) ==> reads_back(json_tree(*value), MAX_DEPTH as nat) ==> json_read(text@)
            == Some(json_tree(*value)),
{
    serde_json::to_vec(value)
}

/// The text of a value, or no bytes at all where it could not be written.
pub fn written(value: &Value) -> (r: Vec<u8>)
    ensures
        r@ == json_written(json_tree(*value)),
        reads_back(json_tree(*value), MAX_DEPTH as nat) ==> json_read(r@) == Some(
            json_tree(*value),
        ),
{
    match write_value(value) {
        Ok(text) => text,
        Err(_) => Vec::new(),
    }
}

/// What reads back: everything that is neither a fraction nor nested, and at one level more a list
/// of what reads back, and an object whose members read back.
pub proof fn law_what_reads_back(
    tree: Json,
    items: Seq<Json>,
    members: Map<Seq<char>, Json>,
    depth: nat,
)
    ensures
        tree is Null || tree is Bool || tree is Int || tree is Text ==> reads_back(tree, depth),
        tree is Float ==> !reads_back(tree, depth),
        reads_back(Json::List(items), depth + 1) <==> forall|i: int|
            0 <= i < items.len() ==> reads_back(#[trigger] items[i], depth),
        reads_back(Json::Object(members), depth + 1) <==> forall|key: Seq<char>|
            members.dom().contains(key) ==> reads_back(#[trigger] members[key], depth),
        !reads_back(Json::List(items), 0),
        !reads_back(Json::Object(members), 0),
        empty_object().dom() == Set::<Seq<char>>::empty(),
{
    reveal_with_fuel(reads_back, 2);
    let list = Json::List(items);
    let object = Json::Object(members);
    if reads_back(list, depth + 1) {
        assert forall|i: int| 0 <= i < items.len() implies reads_back(
            #[trigger] items[i],
            depth,
        ) by {
            assert(reads_back(list->List_0[i], (depth + 1 - 1) as nat));
        }
    }
    if forall|i: int| 0 <= i < items.len() ==> reads_back(#[trigger] items[i], depth) {
        assert forall|i: int| 0 <= i < items.len() implies reads_back(
            #[trigger] items[i],
            (depth + 1 - 1) as nat,
        ) by {
            assert(reads_back(items[i], depth));
        }
    }
    if reads_back(object, depth + 1) {
        assert forall|key: Seq<char>| members.dom().contains(key) implies reads_back(
            #[trigger] members[key],
            depth,
        ) by {
            assert(reads_back(object->Object_0[key], (depth + 1 - 1) as nat));
        }
    }
    if forall|key: Seq<char>|
        members.dom().contains(key) ==> reads_back(#[trigger] members[key], depth) {
        assert forall|key: Seq<char>| members.dom().contains(key) implies reads_back(
            #[trigger] members[key],
            (depth + 1 - 1) as nat,
        ) by {
            assert(reads_back(members[key], depth));
        }
    }
}

} // verus!
