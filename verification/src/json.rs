//! JSON documents as the replies of the service hold them.
//!
//! The parser is the `serde_json` crate's. A parsed document is handed on as a
//! [`Json`] tree, and the functions here read members out of its objects.

use vstd::prelude::*;
use crate::error::DeserializeError;
use crate::error::DeserializeErrorView;
use crate::text::owned;
use crate::text::text_eq;
use crate::text::texts;

verus! {

/// A value of the `serde_json` crate: a parsed JSON document, or a part of one.
#[verifier::external_type_specification]
#[verifier::external_body]
pub struct ExJsonValue(serde_json::Value);

/// A JSON value.
///
/// A number keeps no value: no reply of the service is read by one. The
/// members of an object stand in a list, and a key is looked up from its
/// front.
#[derive(Debug, PartialEq, Eq)]
pub enum Json {
    Null,
    Bool(bool),
    Number,
    Text(String),
    Array(Vec<Json>),
    Object(Vec<(String, Json)>),
}

/// What `serde_json` parses a body to: a value, or its error where the body
/// is no JSON document.
pub uninterp spec fn parsed_value(body: Seq<u8>) -> Result<serde_json::Value, serde_json::Error>;

/// The tree that a value of `serde_json` holds.
pub uninterp spec fn value_tree(value: serde_json::Value) -> Json;

/// The document that a body holds, or the parser's error where it holds none.
pub open spec fn json_document(body: Seq<u8>) -> Result<Json, serde_json::Error> {
    match parsed_value(body) {
        Ok(value) => Ok(value_tree(value)),
        Err(cause) => Err(cause),
    }
}

/// Parses a body with `serde_json::from_slice`, into a `serde_json::Value`.
///
/// Trusted: the outcome depends on the bytes alone.
#[verifier::external_body]
fn value_from_slice(body: &[u8]) -> (parsed: Result<serde_json::Value, serde_json::Error>)
    ensures
        parsed == parsed_value(body@),
{
    serde_json::from_slice::<serde_json::Value>(body)
}

/// Moves a `serde_json::Value` into a [`Json`] tree, variant by variant; a
/// number leaves its value behind, and the members of an object come in the
/// order in which its map hands them out.
///
/// Trusted: the tree depends on the value alone.
#[verifier::external_body]
fn tree_of_value(value: serde_json::Value) -> (tree: Json)
    ensures
        tree == value_tree(value),
{
    match value {
        serde_json::Value::Null => Json::Null,
        serde_json::Value::Bool(flag) => Json::Bool(flag),
        serde_json::Value::Number(_) => Json::Number,
        serde_json::Value::String(text) => Json::Text(text),
        serde_json::Value::Array(items) => Json::Array(
            items.into_iter().map(tree_of_value).collect(),
        ),
        serde_json::Value::Object(members) => Json::Object(
            members.into_iter().map(|(key, member)| (key, tree_of_value(member))).collect(),
        ),
    }
}

/// Parses a body into the document it holds.
pub fn parse_json(body: &[u8]) -> (parsed: Result<Json, serde_json::Error>)
    ensures
        parsed == json_document(body@),
{
    match value_from_slice(body) {
        Ok(value) => Ok(tree_of_value(value)),
        Err(cause) => Err(cause),
    }
}

/// The value under `key` among the members of an object: that of the first
/// member with this key.
pub open spec fn member(entries: Seq<(String, Json)>, key: Seq<char>) -> Option<Json>
    decreases entries.len(),
{
    if entries.len() == 0 {
        None
    } else if entries[0].0@ == key {
        Some(entries[0].1)
    } else {
        member(entries.drop_first(), key)
    }
}

/// Looks up `key` among the members of an object.
pub fn get<'a>(entries: &'a Vec<(String, Json)>, key: &str) -> (found: Option<&'a Json>)
    ensures
        match found {
            Some(value) => member(entries@, key@) == Some(*value),
            None => member(entries@, key@).is_none(),
        },
{
    let mut i: usize = 0;
    assert(entries@.skip(0) == entries@);
    while i < entries.len()
        invariant
            i <= entries.len(),
            member(entries@, key@) == member(entries@.skip(i as int), key@),
        decreases entries.len() - i,
    {
        if text_eq(entries[i].0.as_str(), key) {
            assert(entries@.skip(i as int)[0] == entries@[i as int]);
            return Some(&entries[i].1);
        }
        assert(entries@.skip(i as int).drop_first() == entries@.skip(i as int + 1));
        i += 1;
    }
    None
}

/// The members of a document that is an object.
pub open spec fn members_of(document: Json) -> Result<Seq<(String, Json)>, DeserializeErrorView> {
    match document {
        Json::Object(entries) => Ok(entries@),
        _ => Err(DeserializeErrorView::NotAnObject),
    }
}

/// The members of `document`, which must be an object.
pub fn members<'a>(document: &'a Json) -> (found: Result<
    &'a Vec<(String, Json)>,
    DeserializeError,
>)
    ensures
        match found {
            Ok(entries) => members_of(*document) == Ok::<_, DeserializeErrorView>(entries@),
            Err(cause) => members_of(*document) == Err::<Seq<(String, Json)>, _>(cause@),
        },
{
    match document {
        Json::Object(entries) => Ok(entries),
        _ => Err(DeserializeError::NotAnObject),
    }
}

/// The text under a key that may be missing: none where the key is missing or
/// holds `null`, and an error where it holds anything but a text.
pub open spec fn optional_text_of(entries: Seq<(String, Json)>, key: Seq<char>) -> Result<
    Option<Seq<char>>,
    DeserializeErrorView,
> {
    match member(entries, key) {
        None => Ok(None),
        Some(Json::Null) => Ok(None),
        Some(Json::Text(text)) => Ok(Some(text@)),
        Some(_) => Err(DeserializeErrorView::InvalidType(key)),
    }
}

/// Reads the text under a key that may be missing.
pub fn optional_text(entries: &Vec<(String, Json)>, key: &str) -> (found: Result<
    Option<String>,
    DeserializeError,
>)
    ensures
        match found {
            Ok(Some(text)) => optional_text_of(entries@, key@) == Ok::<_, DeserializeErrorView>(
                Some(text@),
            ),
            Ok(None) => optional_text_of(entries@, key@) == Ok::<
                Option<Seq<char>>,
                DeserializeErrorView,
            >(None),
            Err(cause) => optional_text_of(entries@, key@) == Err::<Option<Seq<char>>, _>(cause@),
        },
{
    match get(entries, key) {
        None => Ok(None),
        Some(Json::Null) => Ok(None),
        Some(Json::Text(text)) => Ok(Some(text.clone())),
        Some(_) => Err(DeserializeError::InvalidType(owned(key))),
    }
}

/// The text under a key that must be there.
pub open spec fn required_text_of(entries: Seq<(String, Json)>, key: Seq<char>) -> Result<
    Seq<char>,
    DeserializeErrorView,
> {
    match member(entries, key) {
        None => Err(DeserializeErrorView::MissingField(key)),
        Some(Json::Text(text)) => Ok(text@),
        Some(_) => Err(DeserializeErrorView::InvalidType(key)),
    }
}

/// Reads the text under a key that must be there.
pub fn required_text(entries: &Vec<(String, Json)>, key: &str) -> (found: Result<
    String,
    DeserializeError,
>)
    ensures
        match found {
            Ok(text) => required_text_of(entries@, key@) == Ok::<_, DeserializeErrorView>(text@),
            Err(cause) => required_text_of(entries@, key@) == Err::<Seq<char>, _>(cause@),
        },
{
    match get(entries, key) {
        None => Err(DeserializeError::MissingField(owned(key))),
        Some(Json::Text(text)) => Ok(text.clone()),
        Some(_) => Err(DeserializeError::InvalidType(owned(key))),
    }
}

/// The members of the object under a key that may be missing.
pub open spec fn optional_object_of(entries: Seq<(String, Json)>, key: Seq<char>) -> Result<
    Option<Seq<(String, Json)>>,
    DeserializeErrorView,
> {
    match member(entries, key) {
        None => Ok(None),
        Some(Json::Null) => Ok(None),
        Some(Json::Object(inner)) => Ok(Some(inner@)),
        Some(_) => Err(DeserializeErrorView::InvalidType(key)),
    }
}

/// Reads the object under a key that may be missing.
pub fn optional_object<'a>(entries: &'a Vec<(String, Json)>, key: &str) -> (found: Result<
    Option<&'a Vec<(String, Json)>>,
    DeserializeError,
>)
    ensures
        match found {
            Ok(Some(inner)) => optional_object_of(entries@, key@) == Ok::<_, DeserializeErrorView>(
                Some(inner@),
            ),
            Ok(None) => optional_object_of(entries@, key@) == Ok::<
                Option<Seq<(String, Json)>>,
                DeserializeErrorView,
            >(None),
            Err(cause) => optional_object_of(entries@, key@) == Err::<
                Option<Seq<(String, Json)>>,
                _,
            >(cause@),
        },
{
    match get(entries, key) {
        None => Ok(None),
        Some(Json::Null) => Ok(None),
        Some(Json::Object(inner)) => Ok(Some(inner)),
        Some(_) => Err(DeserializeError::InvalidType(owned(key))),
    }
}

/// The members of the object under a key that must be there.
pub open spec fn required_object_of(entries: Seq<(String, Json)>, key: Seq<char>) -> Result<
    Seq<(String, Json)>,
    DeserializeErrorView,
> {
    match member(entries, key) {
        None => Err(DeserializeErrorView::MissingField(key)),
        Some(Json::Object(inner)) => Ok(inner@),
        Some(_) => Err(DeserializeErrorView::InvalidType(key)),
    }
}

/// Reads the object under a key that must be there.
pub fn required_object<'a>(entries: &'a Vec<(String, Json)>, key: &str) -> (found: Result<
    &'a Vec<(String, Json)>,
    DeserializeError,
>)
    ensures
        match found {
            Ok(inner) => required_object_of(entries@, key@) == Ok::<_, DeserializeErrorView>(
                inner@,
            ),
            Err(cause) => required_object_of(entries@, key@) == Err::<Seq<(String, Json)>, _>(
                cause@,
            ),
        },
{
    match get(entries, key) {
        None => Err(DeserializeError::MissingField(owned(key))),
        Some(Json::Object(inner)) => Ok(inner),
        Some(_) => Err(DeserializeError::InvalidType(owned(key))),
    }
}

/// The text of a value that is one, and of every other value the empty text.
pub open spec fn text_of(value: Json) -> Seq<char> {
    match value {
        Json::Text(text) => text@,
        _ => Seq::empty(),
    }
}

/// The texts under a key that may be missing: none where the key is missing or
/// holds `null`, the texts of the array that it holds otherwise, and an error
/// where it holds no array or the array holds anything but texts.
pub open spec fn optional_texts_of(entries: Seq<(String, Json)>, key: Seq<char>) -> Result<
    Option<Seq<Seq<char>>>,
    DeserializeErrorView,
> {
    match member(entries, key) {
        None => Ok(None),
        Some(Json::Null) => Ok(None),
        Some(Json::Array(items)) => if forall|i: int|
            0 <= i < items@.len() ==> #[trigger] items@[i] is Text {
            Ok(Some(Seq::new(items@.len(), |i: int| text_of(items@[i]))))
        } else {
            Err(DeserializeErrorView::InvalidType(key))
        },
        Some(_) => Err(DeserializeErrorView::InvalidType(key)),
    }
}

/// Reads the texts under a key that may be missing.
pub fn optional_texts(entries: &Vec<(String, Json)>, key: &str) -> (found: Result<
    Option<Vec<String>>,
    DeserializeError,
>)
    ensures
        match found {
            Ok(Some(list)) => optional_texts_of(entries@, key@) == Ok::<_, DeserializeErrorView>(
                Some(texts(list@)),
            ),
            Ok(None) => optional_texts_of(entries@, key@) == Ok::<
                Option<Seq<Seq<char>>>,
                DeserializeErrorView,
            >(None),
            Err(cause) => optional_texts_of(entries@, key@) == Err::<Option<Seq<Seq<char>>>, _>(
                cause@,
            ),
        },
{
    let items = match get(entries, key) {
        None => { return Ok(None); },
        Some(Json::Null) => { return Ok(None); },
        Some(Json::Array(items)) => items,
        Some(_) => { return Err(DeserializeError::InvalidType(owned(key))); },
    };
    let mut list: Vec<String> = Vec::new();
    let mut i: usize = 0;
    while i < items.len()
        invariant
            i <= items.len(),
            list@.len() == i,
            member(entries@, key@) == Some(Json::Array(*items)),
            forall|j: int| 0 <= j < i ==> #[trigger] items@[j] is Text,
            forall|j: int| 0 <= j < i ==> #[trigger] list@[j]@ == text_of(items@[j]),
        decreases items.len() - i,
    {
        match &items[i] {
            Json::Text(text) => {
                list.push(text.clone());
            },
            _ => {
                assert(!(items@[i as int] is Text));
                return Err(DeserializeError::InvalidType(owned(key)));
            },
        }
        i += 1;
    }
    assert(texts(list@) =~= Seq::new(items@.len(), |i: int| text_of(items@[i])));
    Ok(Some(list))
}

/// The values of the array under a key that may be missing.
pub open spec fn optional_array_of(entries: Seq<(String, Json)>, key: Seq<char>) -> Result<
    Option<Seq<Json>>,
    DeserializeErrorView,
> {
    match member(entries, key) {
        None => Ok(None),
        Some(Json::Null) => Ok(None),
        Some(Json::Array(items)) => Ok(Some(items@)),
        Some(_) => Err(DeserializeErrorView::InvalidType(key)),
    }
}

/// Reads the array under a key that may be missing.
pub fn optional_array<'a>(entries: &'a Vec<(String, Json)>, key: &str) -> (found: Result<
    Option<&'a Vec<Json>>,
    DeserializeError,
>)
    ensures
        match found {
            Ok(Some(items)) => optional_array_of(entries@, key@) == Ok::<_, DeserializeErrorView>(
                Some(items@),
            ),
            Ok(None) => optional_array_of(entries@, key@) == Ok::<
                Option<Seq<Json>>,
                DeserializeErrorView,
            >(None),
            Err(cause) => optional_array_of(entries@, key@) == Err::<Option<Seq<Json>>, _>(cause@),
        },
{
    match get(entries, key) {
        None => Ok(None),
        Some(Json::Null) => Ok(None),
        Some(Json::Array(items)) => Ok(Some(items)),
        Some(_) => Err(DeserializeError::InvalidType(owned(key))),
    }
}

} // verus!
