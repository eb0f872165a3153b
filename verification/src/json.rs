//! The JSON documents that deliveries carry, and the schema they are held to.
//!
//! Parsing and schema validation are done by `serde_json` and `jsonschema`.
//! This module is the only place that calls them. Each call stands in a small
//! function whose contract is taken on trust; the contracts say no more than
//! that the result is determined by the arguments, and give that result a name.

use vstd::prelude::*;

verus! {

/// `serde_json::Value`: a JSON document. The verifier sees nothing inside
/// it; contracts speak of it through [`member`], [`string_of`] and
/// [`unsigned_of`].
#[verifier::external_type_specification]
#[verifier::external_body]
pub struct ExValue(serde_json::Value);

/// `serde_json::Error`: why a text is no JSON document. Carried, never read.
#[verifier::external_type_specification]
#[verifier::external_body]
pub struct ExJsonError(serde_json::Error);

/// `jsonschema::ValidationError`: why a schema document does not compile.
/// Carried, never read.
#[verifier::external_type_specification]
#[verifier::external_body]
pub struct ExValidationError<'a>(jsonschema::ValidationError<'a>);

/// A schema in the compiled form that `jsonschema` validates against.
///
/// It is built once and then only read. It holds a `jsonschema::Validator`,
/// a type that is generic over a trait of that crate and cannot be declared
/// to the verifier as it stands. The whole struct is therefore hidden from
/// the verifier: contracts speak of a schema through [`accepts`] alone.
#[verifier::external_body]
pub struct Schema {
    validator: jsonschema::Validator,
}

/// The document that `serde_json::from_str` reads from a text, or `None` where
/// the text is not one JSON document.
pub uninterp spec fn parsed(text: Seq<char>) -> Option<serde_json::Value>;

/// The member that a JSON object holds under a key: what `Value::get` returns
/// for a string index. `None` where the value is no object or has no such key.
pub uninterp spec fn member(value: serde_json::Value, key: Seq<char>) -> Option<serde_json::Value>;

/// The text of a JSON string: what `Value::as_str` returns. `None` for any
/// other kind of value.
pub uninterp spec fn string_of(value: serde_json::Value) -> Option<Seq<char>>;

/// The number that a JSON integer between zero and `u64::MAX` stands for: what
/// `Value::as_u64` returns. `None` for any other value.
pub uninterp spec fn unsigned_of(value: serde_json::Value) -> Option<u64>;

/// The schema that `jsonschema` compiles from a schema document, or `None`
/// where it turns the document down. With `assert_formats` unset, a `format`
/// keyword in the document describes a value and constrains none.
pub uninterp spec fn compiled(document: serde_json::Value, assert_formats: bool) -> Option<Schema>;

/// Whether a document conforms to a compiled schema: what
/// `Validator::is_valid` returns.
pub uninterp spec fn accepts(schema: Schema, instance: serde_json::Value) -> bool;

/// Calls `serde_json::from_str` to read one JSON document from `text`.
/// Trusted: the outcome is the one that `parsed` names for this text.
#[verifier::external_body]
pub(crate) fn parse(text: &str) -> (outcome: Result<serde_json::Value, serde_json::Error>)
    ensures
        match outcome {
            Ok(value) => parsed(text@) == Some(value),
            Err(_) => parsed(text@) is None,
        },
{
    serde_json::from_str::<serde_json::Value>(text)
}

/// Calls `Value::get` with a string index.
/// Trusted: the outcome is the one that `member` names.
#[verifier::external_body]
pub(crate) fn get<'a>(value: &'a serde_json::Value, key: &str) -> (found: Option<
    &'a serde_json::Value,
>)
    ensures
        match found {
            Some(inner) => member(*value, key@) == Some(*inner),
            None => member(*value, key@) is None,
        },
{
    value.get(key)
}

/// Calls `Value::as_str`.
/// Trusted: the outcome is the one that `string_of` names.
#[verifier::external_body]
pub(crate) fn as_str<'a>(value: &'a serde_json::Value) -> (found: Option<&'a str>)
    ensures
        match found {
            Some(s) => string_of(*value) == Some(s@),
            None => string_of(*value) is None,
        },
{
    value.as_str()
}

/// Calls `Value::as_u64`.
/// Trusted: the outcome is the one that `unsigned_of` names.
#[verifier::external_body]
pub(crate) fn as_u64(value: &serde_json::Value) -> (found: Option<u64>)
    ensures
        found == unsigned_of(*value),
{
    value.as_u64()
}

/// Calls `jsonschema::options`, sets whether formats are asserted, and
/// compiles the schema document with `ValidationOptions::build`. References
/// to other documents are never fetched: the crate is built without its
/// retrieval features, so such a document is turned down.
/// Trusted: the outcome is the one that `compiled` names.
#[verifier::external_body]
pub(crate) fn compile(document: &serde_json::Value, assert_formats: bool) -> (outcome: Result<
    Schema,
    jsonschema::ValidationError<'static>,
>)
    ensures
        match outcome {
            Ok(schema) => compiled(*document, assert_formats) == Some(schema),
            Err(_) => compiled(*document, assert_formats) is None,
        },
{
    match jsonschema::options().should_validate_formats(assert_formats).build(document) {
        Ok(validator) => Ok(Schema { validator }),
        Err(e) => Err(e),
    }
}

/// Calls `Validator::is_valid`.
/// Trusted: the outcome is the one that `accepts` names.
#[verifier::external_body]
pub(crate) fn is_valid(schema: &Schema, instance: &serde_json::Value) -> (valid: bool)
    ensures
        valid == accepts(*schema, *instance),
{
    schema.validator.is_valid(instance)
}

} // verus!
