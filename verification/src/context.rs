//! Template contexts, filled through `tera`.
//!
//! A context holds JSON documents by key. What is believed of `tera` here is
//! stated in the contracts of the functions below and was not proved.

use vstd::prelude::*;
use crate::json::{no_fields, object_fields, objects_doc, JsonDoc, JsonObject};

verus! {

#[verifier::external_type_specification]
#[verifier::external_body]
pub struct ExContext(tera::Context);

/// What a template context holds, by key.
pub uninterp spec fn context_fields(ctx: tera::Context) -> Map<Seq<char>, JsonDoc>;

/// `tera::Context::new`: the new context holds nothing.
#[verifier::external_body]
pub(crate) fn context_new() -> (ctx: tera::Context)
    ensures
        context_fields(ctx) == no_fields(),
{
    tera::Context::new()
}

/// `tera::Context::insert` with a text: the context then holds the text
/// under the key, in place of what the key held, and the rest as before.
#[verifier::external_body]
pub(crate) fn context_insert_text(ctx: &mut tera::Context, key: &str, text: &str)
    ensures
        context_fields(*final(ctx)) == context_fields(*old(ctx)).insert(key@, JsonDoc::Text(text@)),
{
    ctx.insert(key, text);
}

/// A text that may be missing, as a document: null when it is missing.
pub open spec fn opt_text_doc(text: Option<Seq<char>>) -> JsonDoc {
    match text {
        Some(t) => JsonDoc::Text(t),
        None => JsonDoc::Null,
    }
}

/// `tera::Context::insert` with an optional text: the context then holds
/// the text, or null when there is none, under the key, in place of what
/// the key held, and the rest as before.
#[verifier::external_body]
pub(crate) fn context_insert_opt_text(ctx: &mut tera::Context, key: &str, text: &Option<String>)
    ensures
        context_fields(*final(ctx)) == context_fields(*old(ctx)).insert(key@, opt_text_doc(text.deep_view())),
{
    ctx.insert(key, text);
}

/// `tera::Context::insert` with a JSON object: the context then holds the
/// object, with its members, under the key, in place of what the key held,
/// and the rest as before.
#[verifier::external_body]
pub(crate) fn context_insert_object(ctx: &mut tera::Context, key: &str, object: &JsonObject)
    ensures
        context_fields(*final(ctx)) == context_fields(*old(ctx)).insert(
            key@,
            JsonDoc::Object(object_fields(*object)),
        ),
{
    ctx.insert(key, object);
}

/// `tera::Context::insert` with a list of JSON objects: the context then
/// holds the list of the objects, in their order, under the key, in place
/// of what the key held, and the rest as before.
#[verifier::external_body]
pub(crate) fn context_insert_list(ctx: &mut tera::Context, key: &str, items: &Vec<JsonObject>)
    ensures
        context_fields(*final(ctx)) == context_fields(*old(ctx)).insert(key@, objects_doc(items@)),
{
    ctx.insert(key, items);
}

} // verus!
