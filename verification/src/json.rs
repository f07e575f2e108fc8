//! JSON documents, as `serde_json` holds them.
//!
//! A document is a `serde_json::Value`. Verus does not look inside one, so the
//! contracts of this crate speak of the tree that a document stands for, and
//! what is stated here of `serde_json`'s functions is believed, not proved.

use vstd::prelude::*;

verus! {

/// `serde_json::Value`: a JSON document.
#[verifier::external_type_specification]
#[verifier::external_body]
pub struct ExValue(serde_json::Value);

/// `serde_json::Error`: why a text is not a JSON document.
#[verifier::external_type_specification]
#[verifier::external_body]
pub struct ExError(serde_json::Error);

/// The tree that a JSON document stands for. This crate reads no number, so a
/// number's value is left out.
pub ghost enum JsonTree {
    Null,
    Bool(bool),
    Number,
    Text(Seq<char>),
    Array(Seq<JsonTree>),
    Object(Map<Seq<char>, JsonTree>),
}

/// The tree that `value` stands for: which variant of `serde_json::Value` it
/// is, with the characters of a string, the items of an array in their order,
/// and the members of an object by their keys.
pub uninterp spec fn json_tree(value: serde_json::Value) -> JsonTree;

/// Whether `tree` is an object with a member under `key`.
pub open spec fn has_member(tree: JsonTree, key: Seq<char>) -> bool {
    tree is Object && tree->Object_0.contains_key(key)
}

/// The member of the object `tree` under `key`.
pub open spec fn member_of(tree: JsonTree, key: Seq<char>) -> JsonTree
    recommends
        has_member(tree, key),
{
    tree->Object_0[key]
}

/// The tree of the document that `serde_json::from_str` reads from `text`, or
/// `None` where it reports an error.
pub uninterp spec fn json_parse(text: Seq<char>) -> Option<JsonTree>;

/// `serde_json::from_str`, at the type `serde_json::Value`: reads `text` as one
/// JSON document. What it returns depends on `text` alone; the contract gives
/// that a name and states no more.
#[verifier::external_body]
pub(crate) fn parse(text: &str) -> (parsed: Result<serde_json::Value, serde_json::Error>)
    ensures
        parsed is Ok <==> json_parse(text@) is Some,
        parsed matches Ok(value) ==> json_parse(text@) == Some(json_tree(value)),
{
    serde_json::from_str::<serde_json::Value>(text)
}

/// `serde_json::Value::get`, with a string as the index: the member of an
/// object under `key`. It is `None` where `value` is no object and where the
/// object has no such key.
#[verifier::external_body]
pub(crate) fn member<'a>(value: &'a serde_json::Value, key: &str) -> (found: Option<&'a serde_json::Value>)
    ensures
        found is Some <==> has_member(json_tree(*value), key@),
        found matches Some(inner) ==> json_tree(*inner) == member_of(json_tree(*value), key@),
{
    value.get(key)
}

/// `serde_json::Value::as_array`: the items of an array, and `None` for any
/// other document.
pub assume_specification<'a>[ serde_json::Value::as_array ](value: &'a serde_json::Value) -> (items: Option<&'a Vec<serde_json::Value>>)
    ensures
        items is Some <==> json_tree(*value) is Array,
        items matches Some(held) ==> held@.map_values(|item: serde_json::Value| json_tree(item))
            == json_tree(*value)->Array_0,
;

/// `serde_json::Value::as_str`: the characters of a string, and `None` for any
/// other document.
pub assume_specification<'a>[ serde_json::Value::as_str ](value: &'a serde_json::Value) -> (text: Option<&'a str>)
    ensures
        text is Some <==> json_tree(*value) is Text,
        text matches Some(held) ==> held@ == json_tree(*value)->Text_0,
;

} // verus!
