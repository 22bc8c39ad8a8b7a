use vstd::prelude::*;

verus! {

use crate::errors::FlowError;

/// The mathematical content of a JSON document. A number is carried as its
/// canonical text, an object as a map from key to content (`serde_json`'s
/// default object representation is keyed by string and holds one entry per
/// key), an array as the sequence of its elements' contents.
pub enum JsonModel {
    Null,
    Bool(bool),
    Number(Seq<char>),
    Text(Seq<char>),
    Array(Seq<JsonModel>),
    Object(Map<Seq<char>, JsonModel>),
}

/// Whether `serde_json` accepts the text as a well-formed JSON document.
/// Acceptance depends on the text alone.
pub uninterp spec fn json_wellformed(s: Seq<char>) -> bool;

/// The content of the document that `serde_json` decodes from the text;
/// meaningful only where `json_wellformed` holds. The decoded document
/// depends on the text alone.
pub uninterp spec fn parsed_doc(s: Seq<char>) -> JsonModel;

/// The content held by a decoded `serde_json::Value`.
pub uninterp spec fn value_model(v: serde_json::Value) -> JsonModel;

/// The pretty-printed text that `serde_json` produces for a document with
/// the given content; it depends on that content alone.
pub uninterp spec fn pretty_of_doc(doc: JsonModel) -> Seq<char>;

/// The pretty-printed form of the document a well-formed text decodes to.
pub open spec fn pretty_of(s: Seq<char>) -> Seq<char> {
    pretty_of_doc(parsed_doc(s))
}

/// The content under a key of a JSON document: present exactly when the
/// document is an object holding that key.
pub open spec fn object_field(doc: JsonModel, key: Seq<char>) -> Option<JsonModel> {
    match doc {
        JsonModel::Object(m) => if m.contains_key(key) {
            Some(m[key])
        } else {
            None
        },
        _ => None,
    }
}

/// The transaction hash carried by one list entry: the text under its
/// `hash` key, present exactly when the entry is an object whose `hash`
/// field is a string.
pub open spec fn hash_of_entry(entry: JsonModel) -> Option<Seq<char>> {
    match object_field(entry, "hash"@) {
        Some(h) => match h {
            JsonModel::Text(t) => Some(t),
            _ => None,
        },
        None => None,
    }
}

/// The transaction hashes of an address-list document: the `hash` field of
/// every entry of its `result` array, in array order. A document without a
/// `result` array, or with an entry lacking a string `hash`, has none.
pub open spec fn hashes_of_doc(doc: JsonModel) -> Option<Seq<Seq<char>>> {
    match object_field(doc, "result"@) {
        Some(res) => match res {
            JsonModel::Array(entries) => {
                if forall|i: int|
                    0 <= i < entries.len() ==> (#[trigger] hash_of_entry(entries[i])) is Some {
                    Some(Seq::new(entries.len(), |i: int| hash_of_entry(entries[i]).unwrap()))
                } else {
                    None
                }
            },
            _ => None,
        },
        None => None,
    }
}

/// The transaction hashes decoded from a text: those of its document, if
/// the text is well-formed JSON and the document carries them.
pub open spec fn hashes_of(s: Seq<char>) -> Option<Seq<Seq<char>>> {
    if json_wellformed(s) {
        hashes_of_doc(parsed_doc(s))
    } else {
        None
    }
}

/// The contents of a sequence of decoded values, element by element.
pub open spec fn entry_models(items: Seq<serde_json::Value>) -> Seq<JsonModel> {
    items.map_values(|e: serde_json::Value| value_model(e))
}

#[verifier::external_type_specification]
#[verifier::external_body]
pub struct ExValue(serde_json::Value);

#[verifier::external_type_specification]
#[verifier::external_body]
pub struct ExJsonError(serde_json::Error);

/// Relies on `serde_json::from_str::<Value>`: it returns `Ok` exactly when
/// the input is a well-formed JSON document, and both acceptance and the
/// decoded document's content depend on the input text alone.
#[verifier::external_body]
pub(crate) fn parse_json(s: &str) -> (r: Result<serde_json::Value, serde_json::Error>)
    ensures
        r is Ok <==> json_wellformed(s@),
        r matches Ok(v) ==> value_model(v) == parsed_doc(s@),
{
    serde_json::from_str(s)
}

/// Relies on `serde_json::to_string_pretty`: for a `Value` it always
/// succeeds, since a `Value`'s maps are string-keyed and its `Serialize`
/// impl does not fail, and the pretty-printed text depends on the value's
/// content alone.
#[verifier::external_body]
pub(crate) fn to_pretty(v: &serde_json::Value) -> (r: Result<String, serde_json::Error>)
    ensures
        r is Ok,
        r matches Ok(p) ==> p@ == pretty_of_doc(value_model(*v)),
{
    serde_json::to_string_pretty(v)
}

/// Relies on `serde_json::Value::get`: on an object it looks the key up and
/// hands out the held value; on any other value, or a missing key, it
/// returns `None`.
#[verifier::external_body]
pub(crate) fn json_get<'a>(v: &'a serde_json::Value, key: &str) -> (r: Option<
    &'a serde_json::Value,
>)
    ensures
        r matches Some(w) ==> object_field(value_model(*v), key@) == Some(value_model(*w)),
        r is None <==> object_field(value_model(*v), key@) is None,
{
    v.get(key)
}

/// Relies on `serde_json::Value::as_array`: hands out the element vector
/// exactly when the value is a JSON array.
#[verifier::external_body]
pub(crate) fn json_as_array(v: &serde_json::Value) -> (r: Option<&Vec<serde_json::Value>>)
    ensures
        r matches Some(a) ==> value_model(*v) == JsonModel::Array(entry_models(a@)),
        r is None <==> !(value_model(*v) is Array),
{
    v.as_array()
}

/// Relies on `serde_json::Value::as_str`: hands out the text exactly when
/// the value is a JSON string.
#[verifier::external_body]
pub(crate) fn json_as_str<'a>(v: &'a serde_json::Value) -> (r: Option<&'a str>)
    ensures
        r matches Some(t) ==> value_model(*v) == JsonModel::Text(t@),
        r is None <==> !(value_model(*v) is Text),
{
    v.as_str()
}

/// The transaction hash carried by one decoded list entry, present exactly
/// when the entry is an object whose `hash` field is a string.
fn hash_of_item(item: &serde_json::Value) -> (r: Option<String>)
    ensures
        r matches Some(h) ==> hash_of_entry(value_model(*item)) == Some(h@),
        r is None <==> hash_of_entry(value_model(*item)) is None,
{
    match json_get(item, "hash") {
        Some(h) => match json_as_str(h) {
            Some(s) => Some(s.to_owned()),
            None => None,
        },
        None => None,
    }
}

/// The transaction hashes of the decoded list entries, one per entry and in
/// entry order; an entry without a string `hash` field is a decode error,
/// which is fatal for the whole list.
fn hashes_of_items(items: &Vec<serde_json::Value>) -> (r: Result<Vec<String>, FlowError>)
    ensures
        r matches Ok(hs) ==> {
            &&& hs@.len() == items@.len()
            &&& forall|i: int|
                0 <= i < items@.len() ==> (#[trigger] hash_of_entry(entry_models(items@)[i]))
                    == Some(hs@[i]@)
        },
        r is Err <==> exists|i: int|
            0 <= i < items@.len() && (#[trigger] hash_of_entry(entry_models(items@)[i])) is None,
        r is Err ==> r == Err::<Vec<String>, FlowError>(FlowError::DecodeError),
{
    let ghost es = entry_models(items@);
    let mut out: Vec<String> = Vec::new();
    let mut i: usize = 0;
    while i < items.len()
        invariant
            es == entry_models(items@),
            i <= items@.len(),
            out@.len() == i as int,
            forall|j: int| 0 <= j < i ==> (#[trigger] hash_of_entry(es[j])) == Some(out@[j]@),
        decreases items@.len() - i,
    {
        match hash_of_item(&items[i]) {
            Some(h) => out.push(h),
            None => {
                assert(hash_of_entry(es[i as int]) is None);
                return Err(FlowError::DecodeError);
            },
        }
        i = i + 1;
    }
    Ok(out)
}

/// The transaction hashes of a decoded address-list document: exactly what
/// `hashes_of_doc` gives for its content, with any shape it does not cover
/// reported as a decode error.
pub(crate) fn extract_hashes(root: &serde_json::Value) -> (r: Result<Vec<String>, FlowError>)
    ensures
        r matches Ok(hs) ==> hashes_of_doc(value_model(*root)) == Some(
            hs@.map_values(|h: String| h@),
        ),
        r is Err <==> hashes_of_doc(value_model(*root)) is None,
        r is Err ==> r == Err::<Vec<String>, FlowError>(FlowError::DecodeError),
{
    let result_field = match json_get(root, "result") {
        Some(v) => v,
        None => {
            return Err(FlowError::DecodeError);
        },
    };
    let items = match json_as_array(result_field) {
        Some(a) => a,
        None => {
            return Err(FlowError::DecodeError);
        },
    };
    match hashes_of_items(items) {
        Ok(hs) => {
            proof {
                let es = entry_models(items@);
                assert(hs@.map_values(|h: String| h@) =~= Seq::new(
                    es.len(),
                    |i: int| hash_of_entry(es[i]).unwrap(),
                ));
            }
            Ok(hs)
        },
        Err(e) => Err(e),
    }
}

} // verus!
