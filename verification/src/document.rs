//! The catalog document, as a mathematical tree of JSON values, and the
//! trusted boundary to serde_json, which does the actual parsing. Everything
//! that interprets the tree — checking the document's shape and building the
//! roster from it — is verified code in [`crate::loader`].

use vstd::prelude::*;

verus! {

/// A JSON value as a mathematical tree. Numbers carry no payload: the
/// catalog document never holds a meaningful number, and the loader rejects
/// any entry that is not made of objects, strings and lists of strings.
pub enum JsonTree {
    Null,
    Boolean(bool),
    Number,
    Text(Seq<char>),
    List(Seq<JsonTree>),
    Object(Seq<(Seq<char>, JsonTree)>),
}

#[verifier::external_type_specification]
#[verifier::external_body]
pub struct ExValue(serde_json::Value);

/// What serde_json parses the document text to, as a tree; nothing when the
/// text is not valid JSON. The parse result depends on the text alone.
pub uninterp spec fn parsed_doc(s: Seq<char>) -> Option<JsonTree>;

/// The tree held by a parsed serde_json value. Object members appear in
/// iteration order of `serde_json::Map`, which is backed by a `BTreeMap`:
/// sorted by key, keys unique.
pub uninterp spec fn json_model(v: serde_json::Value) -> JsonTree;

/// Relies on `serde_json::from_str::<Value>`: parses the document text and
/// fails exactly on text that is not valid JSON.
#[verifier::external_body]
pub(crate) fn parse_document(s: &str) -> (r: Option<serde_json::Value>)
    ensures
        match r {
            Some(v) => parsed_doc(s@) == Some(json_model(v)),
            None => parsed_doc(s@) is None,
        },
{
    serde_json::from_str::<serde_json::Value>(s).ok()
}

/// Relies on `serde_json::Value::as_object` and `serde_json::Map` iteration:
/// the members of a JSON object in iteration order — sorted by key and with
/// unique keys, since the map is backed by a `BTreeMap` — or nothing when
/// the value is not an object.
#[verifier::external_body]
pub(crate) fn object_members(v: &serde_json::Value) -> (r: Option<
    Vec<(String, serde_json::Value)>,
>)
    ensures
        match r {
            Some(ms) => {
                &&& json_model(*v) matches JsonTree::Object(fields)
                &&& ms@.len() == fields.len()
                &&& forall|i: int|
                    0 <= i < ms@.len() ==> (#[trigger] ms@[i]).0@ == fields[i].0 && json_model(
                        ms@[i].1,
                    ) == fields[i].1
                &&& forall|i: int, j: int|
                    0 <= i < j < fields.len() ==> fields[i].0 != fields[j].0
            },
            None => !(json_model(*v) is Object),
        },
{
    match v.as_object() {
        Some(m) => Some(m.iter().map(|p| (p.0.clone(), p.1.clone())).collect()),
        None => None,
    }
}

/// Relies on `serde_json::Value::as_str`: the text of a JSON string, or
/// nothing when the value is not a string.
#[verifier::external_body]
pub(crate) fn string_content(v: &serde_json::Value) -> (r: Option<String>)
    ensures
        match r {
            Some(t) => json_model(*v) == JsonTree::Text(t@),
            None => !(json_model(*v) is Text),
        },
{
    match v.as_str() {
        Some(s) => Some(s.to_string()),
        None => None,
    }
}

/// Relies on `serde_json::Value::as_array`: the items of a JSON array in
/// order, or nothing when the value is not an array.
#[verifier::external_body]
pub(crate) fn list_items(v: &serde_json::Value) -> (r: Option<Vec<serde_json::Value>>)
    ensures
        match r {
            Some(xs) => {
                &&& json_model(*v) matches JsonTree::List(items)
                &&& xs@.len() == items.len()
                &&& forall|i: int|
                    0 <= i < xs@.len() ==> json_model(#[trigger] xs@[i]) == items[i]
            },
            None => !(json_model(*v) is List),
        },
{
    match v.as_array() {
        Some(a) => Some(a.clone()),
        None => None,
    }
}

} // verus!
