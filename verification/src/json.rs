//! JSON objects, built and written with `serde_json`.
//!
//! The library decides what a document holds; `serde_json` holds it and
//! writes it. What is believed of `serde_json` here is stated in the
//! contracts of the functions below and was not proved.

use vstd::prelude::*;
use crate::error::ShipcatError;
use crate::string_map::{lemma_pairs_push, pairs_to_map, Pair, StringMap};

verus! {

/// A JSON document as a mathematical value. The numbers are the integers
/// that the library writes.
pub enum JsonDoc {
    Null,
    Bool(bool),
    Number(int),
    Text(Seq<char>),
    List(Seq<JsonDoc>),
    Object(Map<Seq<char>, JsonDoc>),
}

#[verifier::external_type_specification]
#[verifier::external_body]
pub struct ExValue(serde_json::Value);

#[verifier::external_type_specification]
#[verifier::external_body]
#[verifier::reject_recursive_types(K)]
#[verifier::reject_recursive_types(V)]
pub struct ExMap<K, V>(serde_json::Map<K, V>);

#[verifier::external_type_specification]
#[verifier::external_body]
pub struct ExJsonError(serde_json::Error);

/// A JSON object of `serde_json`.
pub type JsonObject = serde_json::Map<String, serde_json::Value>;

/// An object without members.
pub open spec fn no_fields() -> Map<Seq<char>, JsonDoc> {
    Map::empty()
}

/// The members of a JSON object, by key.
pub uninterp spec fn object_fields(m: serde_json::Map<String, serde_json::Value>) -> Map<Seq<char>, JsonDoc>;

/// The bytes that `serde_json::to_vec` writes for an object with the given
/// members. An object of `serde_json` keeps its members in the order of
/// their keys, so that what it holds decides what is written.
pub uninterp spec fn json_text(fields: Map<Seq<char>, JsonDoc>) -> Seq<u8>;

/// `serde_json::Map::new`: the new object has no members.
#[verifier::external_body]
pub(crate) fn object_new() -> (m: JsonObject)
    ensures
        object_fields(m) == no_fields(),
{
    serde_json::Map::new()
}

/// `serde_json::Map::insert` with a `Value::String`: the object then holds
/// the text under the key, in place of what the key held, and its other
/// members as before.
#[verifier::external_body]
pub(crate) fn object_put_text(m: &mut JsonObject, key: &str, text: &str)
    ensures
        object_fields(*final(m)) == object_fields(*old(m)).insert(key@, JsonDoc::Text(text@)),
{
    m.insert(key.to_string(), serde_json::Value::String(text.to_string()));
}

/// `serde_json::Map::insert` with a `Value::Bool`: the object then holds
/// the flag under the key, in place of what the key held, and its other
/// members as before.
#[verifier::external_body]
pub(crate) fn object_put_bool(m: &mut JsonObject, key: &str, flag: bool)
    ensures
        object_fields(*final(m)) == object_fields(*old(m)).insert(key@, JsonDoc::Bool(flag)),
{
    m.insert(key.to_string(), serde_json::Value::Bool(flag));
}

/// `serde_json::Map::insert` with `Value::Null`: the object then holds null
/// under the key, in place of what the key held, and its other members as
/// before.
#[verifier::external_body]
pub(crate) fn object_put_null(m: &mut JsonObject, key: &str)
    ensures
        object_fields(*final(m)) == object_fields(*old(m)).insert(key@, JsonDoc::Null),
{
    m.insert(key.to_string(), serde_json::Value::Null);
}

/// `serde_json::Map::insert` with a `Value::Object`: the object then holds
/// the child, with the child's members, under the key, in place of what the
/// key held, and its other members as before.
#[verifier::external_body]
pub(crate) fn object_put_object(m: &mut JsonObject, key: &str, child: JsonObject)
    ensures
        object_fields(*final(m)) == object_fields(*old(m)).insert(key@, JsonDoc::Object(object_fields(child))),
{
    m.insert(key.to_string(), serde_json::Value::Object(child));
}

/// `serde_json::Map::insert` with a `Value::Number` made from a `u32`: the
/// object then holds the number under the key, in place of what the key
/// held, and its other members as before.
#[verifier::external_body]
pub(crate) fn object_put_number(m: &mut JsonObject, key: &str, number: u32)
    ensures
        object_fields(*final(m)) == object_fields(*old(m)).insert(key@, JsonDoc::Number(number as int)),
{
    m.insert(key.to_string(), serde_json::Value::Number(number.into()));
}

/// The objects of a list as documents, in order.
pub open spec fn objects_doc(items: Seq<JsonObject>) -> JsonDoc {
    JsonDoc::List(items.map_values(|item: JsonObject| JsonDoc::Object(object_fields(item))))
}

/// `serde_json::Map::insert` with a `Value::Array` of `Value::Object`s: the
/// object then holds the list of the given objects, in their order, under
/// the key, in place of what the key held, and its other members as before.
#[verifier::external_body]
pub(crate) fn object_put_list(m: &mut JsonObject, key: &str, items: Vec<JsonObject>)
    ensures
        object_fields(*final(m)) == object_fields(*old(m)).insert(key@, objects_doc(items@)),
{
    let list = items.into_iter().map(serde_json::Value::Object).collect();
    m.insert(key.to_string(), serde_json::Value::Array(list));
}

/// A list of texts as a document.
pub open spec fn text_list_doc(texts: Seq<Seq<char>>) -> JsonDoc {
    JsonDoc::List(texts.map_values(|text: Seq<char>| JsonDoc::Text(text)))
}

/// `serde_json::Map::insert` with a `Value::Array` of `Value::String`s: the
/// object then holds the list of the given texts, in their order, under the
/// key, in place of what the key held, and its other members as before.
#[verifier::external_body]
pub(crate) fn object_put_texts(m: &mut JsonObject, key: &str, texts: &Vec<String>)
    ensures
        object_fields(*final(m)) == object_fields(*old(m)).insert(key@, text_list_doc(texts.deep_view())),
{
    let list = texts.iter().cloned().map(serde_json::Value::String).collect();
    m.insert(key.to_string(), serde_json::Value::Array(list));
}

/// `serde_json::to_vec` on an object: it succeeds, and the bytes are those
/// that it writes for the object's members. The writer fails only where
/// writing to its sink fails or where a key is no text; here the sink is a
/// `Vec`, which takes whatever is written, and every key of an object is a
/// text.
#[verifier::external_body]
pub(crate) fn object_to_bytes(m: &JsonObject) -> (written: Result<Vec<u8>, serde_json::Error>)
    ensures
        written is Ok,
        written matches Ok(bytes) ==> bytes@ == json_text(object_fields(*m)),
{
    serde_json::to_vec(m)
}

/// The message of a `serde_json::Error`, as its `Display` gives it.
#[verifier::external_body]
pub(crate) fn json_error_text(e: &serde_json::Error) -> String {
    e.to_string()
}

/// What the writer's result means for the library: its bytes, or a failure
/// that carries the writer's message.
pub fn json_bytes(written: Result<Vec<u8>, serde_json::Error>) -> (bytes: Result<Vec<u8>, ShipcatError>)
    ensures
        match written {
            Ok(b) => bytes == Ok::<Vec<u8>, ShipcatError>(b),
            Err(_) => bytes matches Err(e) && e is Json,
        },
{
    match written {
        Ok(b) => Ok(b),
        Err(e) => Err(ShipcatError::Json(json_error_text(&e))),
    }
}

/// Writes a JSON object as the bytes of a JSON document. An object can
/// always be written.
pub fn write_json(object: &JsonObject) -> (written: Result<Vec<u8>, ShipcatError>)
    ensures
        written matches Ok(bytes) && bytes@ == json_text(object_fields(*object)),
{
    json_bytes(object_to_bytes(object))
}

/// `fields` with a text under `key`, when there is one.
pub open spec fn with_text(
    fields: Map<Seq<char>, JsonDoc>,
    key: Seq<char>,
    text: Option<Seq<char>>,
) -> Map<Seq<char>, JsonDoc> {
    match text {
        Some(t) => fields.insert(key, JsonDoc::Text(t)),
        None => fields,
    }
}

/// `fields` with a flag under `key`, when there is one.
pub open spec fn with_bool(
    fields: Map<Seq<char>, JsonDoc>,
    key: Seq<char>,
    flag: Option<bool>,
) -> Map<Seq<char>, JsonDoc> {
    match flag {
        Some(b) => fields.insert(key, JsonDoc::Bool(b)),
        None => fields,
    }
}

/// `fields` with a number under `key`, when there is one.
pub open spec fn with_number(
    fields: Map<Seq<char>, JsonDoc>,
    key: Seq<char>,
    number: Option<u32>,
) -> Map<Seq<char>, JsonDoc> {
    match number {
        Some(n) => fields.insert(key, JsonDoc::Number(n as int)),
        None => fields,
    }
}

/// `fields` with a list of texts under `key`, when there is one.
pub open spec fn with_texts(
    fields: Map<Seq<char>, JsonDoc>,
    key: Seq<char>,
    texts: Option<Seq<Seq<char>>>,
) -> Map<Seq<char>, JsonDoc> {
    match texts {
        Some(list) => fields.insert(key, text_list_doc(list)),
        None => fields,
    }
}

/// `fields` with a document under `key`, when there is one.
pub open spec fn with_doc(
    fields: Map<Seq<char>, JsonDoc>,
    key: Seq<char>,
    doc: Option<JsonDoc>,
) -> Map<Seq<char>, JsonDoc> {
    match doc {
        Some(d) => fields.insert(key, d),
        None => fields,
    }
}

/// A map of texts as the members of a JSON object.
pub open spec fn texts_doc(texts: Map<Seq<char>, Seq<char>>) -> Map<Seq<char>, JsonDoc> {
    Map::new(|key: Seq<char>| texts.contains_key(key), |key: Seq<char>| JsonDoc::Text(texts[key]))
}

/// The document that stands for a setting that a layer removes.
pub open spec fn removed_doc() -> JsonDoc {
    JsonDoc::Object(no_fields().insert("removed"@, JsonDoc::Bool(true)))
}

/// Puts a text under a key, when there is one.
pub fn put_opt_text(object: &mut JsonObject, key: &str, text: &Option<String>)
    ensures
        object_fields(*final(object)) == with_text(object_fields(*old(object)), key@, text.deep_view()),
{
    match text {
        Some(t) => object_put_text(object, key, t.as_str()),
        None => {},
    }
}

/// Puts a flag under a key, when there is one.
pub fn put_opt_bool(object: &mut JsonObject, key: &str, flag: &Option<bool>)
    ensures
        object_fields(*final(object)) == with_bool(object_fields(*old(object)), key@, *flag),
{
    match flag {
        Some(b) => object_put_bool(object, key, *b),
        None => {},
    }
}

/// Puts a number under a key, when there is one.
pub fn put_opt_number(object: &mut JsonObject, key: &str, number: &Option<u32>)
    ensures
        object_fields(*final(object)) == with_number(object_fields(*old(object)), key@, *number),
{
    match number {
        Some(n) => object_put_number(object, key, *n),
        None => {},
    }
}

/// Puts a list of texts under a key, when there is one.
pub fn put_opt_texts(object: &mut JsonObject, key: &str, texts: &Option<Vec<String>>)
    ensures
        object_fields(*final(object)) == with_texts(object_fields(*old(object)), key@, texts.deep_view()),
{
    match texts {
        Some(list) => object_put_texts(object, key, list),
        None => {},
    }
}

/// A map of texts as a JSON object.
pub fn texts_object(texts: &StringMap) -> (object: JsonObject)
    ensures
        object_fields(object) == texts_doc(texts@),
{
    let list = texts.entries();
    let ghost pairs = list.deep_view();
    let mut object = object_new();
    let mut i: usize = 0;
    assert(pairs.take(0) =~= Seq::<Pair>::empty());
    assert(object_fields(object) =~= texts_doc(pairs_to_map(pairs.take(0))));
    while i < list.len()
        invariant
            i <= list.len(),
            pairs == list.deep_view(),
            object_fields(object) =~= texts_doc(pairs_to_map(pairs.take(i as int))),
        decreases list.len() - i,
    {
        proof {
            assert(pairs.take(i + 1) =~= pairs.take(i as int).push(pairs[i as int]));
            lemma_pairs_push(pairs.take(i as int), pairs[i as int]);
        }
        object_put_text(&mut object, list[i].0.as_str(), list[i].1.as_str());
        i = i + 1;
    }
    assert(pairs.take(i as int) =~= pairs);
    object
}

/// The object that stands for a setting that a layer removes.
pub fn removed_object() -> (object: JsonObject)
    ensures
        JsonDoc::Object(object_fields(object)) == removed_doc(),
{
    let mut object = object_new();
    object_put_bool(&mut object, "removed", true);
    object
}

} // verus!
