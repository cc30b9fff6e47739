//! JSON documents as plain data, and the normalizer that turns a text payload
//! into a structured mapping.

use vstd::prelude::*;

verus! {

/// A JSON document as a mathematical term.
pub enum JsonTerm {
    Null,
    Bool(bool),
    /// A number, as the decimal text that denotes it.
    Number(Seq<char>),
    Text(Seq<char>),
    Array(Seq<JsonTerm>),
    /// A mapping, as its entries in key order.
    Object(Seq<(Seq<char>, JsonTerm)>),
}

/// A JSON document held as plain data.
#[derive(Debug, PartialEq, Eq)]
pub enum JsonValue {
    Null,
    Bool(bool),
    /// A number, kept as the decimal text that denotes it.
    Number(String),
    Text(String),
    Array(Vec<JsonValue>),
    /// A mapping, kept as its entries in key order.
    Object(Vec<(String, JsonValue)>),
}

impl View for JsonValue {
    type V = JsonTerm;

    open spec fn view(&self) -> JsonTerm
        decreases self,
    {
        match self {
            JsonValue::Null => JsonTerm::Null,
            JsonValue::Bool(b) => JsonTerm::Bool(*b),
            JsonValue::Number(n) => JsonTerm::Number(n@),
            JsonValue::Text(s) => JsonTerm::Text(s@),
            JsonValue::Array(items) => JsonTerm::Array(
                Seq::new(
                    items@.len(),
                    |i: int|
                        if 0 <= i < items@.len() {
                            items@[i]@
                        } else {
                            JsonTerm::Null
                        },
                ),
            ),
            JsonValue::Object(entries) => JsonTerm::Object(
                Seq::new(
                    entries@.len(),
                    |i: int|
                        if 0 <= i < entries@.len() {
                            (entries@[i].0@, entries@[i].1@)
                        } else {
                            (Seq::empty(), JsonTerm::Null)
                        },
                ),
            ),
        }
    }
}

/// Whether `a` and `b` both have `k` characters or more, and the same first `k`.
pub open spec fn agree_before(a: Seq<char>, b: Seq<char>, k: int) -> bool {
    0 <= k <= a.len() && k <= b.len() && forall|i: int| 0 <= i < k ==> a[i] == b[i]
}

/// Whether `a` comes before `b` in the order of keys: `a` is a proper prefix
/// of `b`, or has the lesser character where the two first differ.
pub open spec fn key_precedes(a: Seq<char>, b: Seq<char>) -> bool {
    exists|k: int|
        #[trigger] agree_before(a, b, k) && k < b.len() && (k < a.len() ==> (a[k] as u32) < (
        b[k] as u32))
}

/// Whether the keys of `entries` strictly ascend, so that no key occurs twice.
pub open spec fn keys_ascend(entries: Seq<(Seq<char>, JsonTerm)>) -> bool {
    forall|i: int, j: int|
        0 <= i < j < entries.len() ==> key_precedes(
            (#[trigger] entries[i]).0,
            (#[trigger] entries[j]).0,
        )
}

/// Whether every mapping inside `term`, at any depth, is in key order.
pub open spec fn well_formed(term: JsonTerm) -> bool
    decreases term,
{
    match term {
        JsonTerm::Array(items) => forall|i: int|
            0 <= i < items.len() ==> well_formed(#[trigger] items[i]),
        JsonTerm::Object(entries) => keys_ascend(entries) && forall|i: int|
            0 <= i < entries.len() ==> well_formed((#[trigger] entries[i]).1),
        _ => true,
    }
}

/// The mapping without entries.
pub open spec fn empty_mapping() -> JsonTerm {
    JsonTerm::Object(Seq::empty())
}

/// The structured mapping that a parsed payload stands for: the document
/// itself where it is a mapping, the empty mapping where the payload did not
/// parse or is a document of another shape.
pub open spec fn normalized(parsed: Option<JsonTerm>) -> JsonTerm {
    match parsed {
        Some(JsonTerm::Object(entries)) => JsonTerm::Object(entries),
        _ => empty_mapping(),
    }
}

/// The document that `serde_json` reads from `text`, `None` where it rejects
/// the text.
pub uninterp spec fn json_document(text: Seq<char>) -> Option<JsonTerm>;

/// The document that a value of `serde_json` holds.
pub uninterp spec fn held(document: serde_json::Value) -> JsonTerm;

/// `serde_json::Value`, opaque here: a value is only carried from the call
/// that reads it to the call that rewrites it as plain data.
#[verifier::external_type_specification]
#[verifier::external_body]
pub struct ExValue(serde_json::Value);

/// Calls `serde_json::from_str` for a `serde_json::Value`. What comes back
/// depends on the text alone: the value holds the named document, and there is
/// none where the text is rejected.
#[verifier::external_body]
fn read_document(text: &str) -> (read: Option<serde_json::Value>)
    ensures
        match read {
            Some(document) => json_document(text@) == Some(held(document)),
            None => json_document(text@) is None,
        },
{
    serde_json::from_str::<serde_json::Value>(text).ok()
}

/// Rewrites a value of `serde_json` as a `JsonValue`, variant by variant, so
/// that the result is the document that the value holds. A number becomes the
/// text that `serde_json` prints for it. The entries of a mapping are taken
/// as `serde_json::Map` hands them out: built without `preserve_order`, as it
/// is here, it keeps them in a `BTreeMap` by key, so they come in ascending
/// order of the keys, each key once.
#[verifier::external_body]
fn plain(document: serde_json::Value) -> (value: JsonValue)
    ensures
        value@ == held(document),
        well_formed(value@),
{
    match document {
        serde_json::Value::Null => JsonValue::Null,
        serde_json::Value::Bool(b) => JsonValue::Bool(b),
        serde_json::Value::Number(n) => JsonValue::Number(n.to_string()),
        serde_json::Value::String(s) => JsonValue::Text(s),
        serde_json::Value::Array(items) => JsonValue::Array(items.into_iter().map(plain).collect()),
        serde_json::Value::Object(entries) => JsonValue::Object(
            entries.into_iter().map(|(k, v)| (k, plain(v))).collect(),
        ),
    }
}

/// Reads `text` as a JSON document, `None` where it is none.
pub fn parse(text: &str) -> (parsed: Option<JsonValue>)
    ensures
        match parsed {
            Some(document) => json_document(text@) == Some(document@) && well_formed(document@),
            None => json_document(text@) is None,
        },
{
    match read_document(text) {
        Some(document) => Some(plain(document)),
        None => None,
    }
}

/// The term of a parsed payload, where there is one.
pub open spec fn term_of(parsed: Option<JsonValue>) -> Option<JsonTerm> {
    match parsed {
        Some(document) => Some(document@),
        None => None,
    }
}

/// Picks the structured mapping for a parsed payload: the document where it is
/// a mapping, the empty mapping where there is no document or it is of
/// another shape.
pub fn structured(parsed: Option<JsonValue>) -> (mapping: JsonValue)
    ensures
        mapping@ == normalized(term_of(parsed)),
        mapping@ is Object,
        (parsed matches Some(document) ==> well_formed(document@)) ==> well_formed(mapping@),
{
    match parsed {
        Some(JsonValue::Object(entries)) => JsonValue::Object(entries),
        _ => {
            let mapping = JsonValue::Object(Vec::new());
            assert(mapping@->Object_0 =~= Seq::empty());
            mapping
        },
    }
}

/// Turns a text payload into a structured mapping. Never fails: a payload that
/// does not parse, or that is no mapping, gives the empty mapping.
pub fn normalize(text: &str) -> (mapping: JsonValue)
    ensures
        mapping@ == normalized(json_document(text@)),
        mapping@ is Object,
        well_formed(mapping@),
        json_document(text@) is None ==> mapping@ == empty_mapping(),
{
    let parsed = parse(text);
    structured(parsed)
}

} // verus!
