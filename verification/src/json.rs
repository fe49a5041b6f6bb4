//! The JSON documents of `serde_json`, as far as this crate reads and writes
//! them.
//!
//! A `serde_json::Value` is opaque to the verifier. What the parser, the
//! accessors, the constructors and the writer used here return is given a
//! name each; every statement about a document in this crate is made over
//! those names.

use vstd::prelude::*;

verus! {

/// `serde_json::Value`, carried as an opaque value.
#[verifier::external_type_specification]
#[verifier::external_body]
pub struct ExValue(serde_json::Value);

/// `serde_json::Error`, carried as an opaque value.
#[verifier::external_type_specification]
#[verifier::external_body]
pub struct ExError(serde_json::Error);

/// The document that `serde_json::from_str` reads from a text, `None` where
/// it rejects the text.
pub uninterp spec fn parsed_document(text: Seq<char>) -> Option<serde_json::Value>;

/// The member that `Value::get` finds under a string key: `None` unless the
/// value is an object that holds the key.
pub uninterp spec fn member_of(value: serde_json::Value, key: Seq<char>) -> Option<
    serde_json::Value,
>;

/// The elements that `Value::as_array` gives: `None` unless the value is an
/// array.
pub uninterp spec fn elements_of(value: serde_json::Value) -> Option<Seq<serde_json::Value>>;

/// The characters that `Value::as_str` gives: `None` unless the value is a
/// string.
pub uninterp spec fn text_of(value: serde_json::Value) -> Option<Seq<char>>;

/// The string value that `Value::from` makes of a text.
pub uninterp spec fn string_of(text: Seq<char>) -> serde_json::Value;

/// The array value that `Value::from` makes of a vector of values.
pub uninterp spec fn array_of(items: Seq<serde_json::Value>) -> serde_json::Value;

/// The object value that `Value::from` makes of the map that is collected
/// from pairs of key and value, taken in their order.
pub uninterp spec fn object_of(members: Seq<(Seq<char>, serde_json::Value)>) -> serde_json::Value;

/// The compact JSON text that a value is written as by its `Display`.
pub uninterp spec fn rendered(value: serde_json::Value) -> Seq<char>;

/// The pairs of a vector of members, each key by its characters.
pub open spec fn members_view(members: Seq<(String, serde_json::Value)>) -> Seq<
    (Seq<char>, serde_json::Value),
> {
    members.map_values(|m: (String, serde_json::Value)| (m.0@, m.1))
}

/// Calls `serde_json::from_str` for a `Value`. Trusted: the outcome is the
/// one named by [`parsed_document`], a function of the text alone; an error
/// comes exactly where that is `None`.
#[verifier::external_body]
pub(crate) fn parse_document(text: &str) -> (r: Result<serde_json::Value, serde_json::Error>)
    ensures
        match r {
            Ok(document) => parsed_document(text@) == Some(document),
            Err(_) => parsed_document(text@).is_none(),
        },
{
    serde_json::from_str::<serde_json::Value>(text)
}

/// Calls `Value::get` with a string key. Trusted: the outcome is the one
/// named by [`member_of`].
#[verifier::external_body]
pub(crate) fn member<'a>(value: &'a serde_json::Value, key: &str) -> (r: Option<
    &'a serde_json::Value,
>)
    ensures
        match r {
            Some(found) => member_of(*value, key@) == Some(*found),
            None => member_of(*value, key@).is_none(),
        },
{
    value.get(key)
}

/// Calls `Value::as_array`. Trusted: the outcome is the one named by
/// [`elements_of`], the vector's items in their order.
#[verifier::external_body]
pub(crate) fn elements<'a>(value: &'a serde_json::Value) -> (r: Option<
    &'a Vec<serde_json::Value>,
>)
    ensures
        match r {
            Some(items) => elements_of(*value) == Some(items@),
            None => elements_of(*value).is_none(),
        },
{
    value.as_array()
}

/// Calls `Value::as_str`. Trusted: the outcome is the one named by
/// [`text_of`].
#[verifier::external_body]
pub(crate) fn text<'a>(value: &'a serde_json::Value) -> (r: Option<&'a str>)
    ensures
        match r {
            Some(characters) => text_of(*value) == Some(characters@),
            None => text_of(*value).is_none(),
        },
{
    value.as_str()
}

/// Calls `Value::from` on a string slice. Trusted: the value is the one named
/// by [`string_of`], a function of the characters alone.
#[verifier::external_body]
pub(crate) fn string_value(text: &str) -> (r: serde_json::Value)
    ensures
        r == string_of(text@),
{
    serde_json::Value::from(text)
}

/// Calls `Value::from` on a vector of values. Trusted: the value is the one
/// named by [`array_of`], a function of the items in their order.
#[verifier::external_body]
pub(crate) fn array_value(items: Vec<serde_json::Value>) -> (r: serde_json::Value)
    ensures
        r == array_of(items@),
{
    serde_json::Value::from(items)
}

/// Collects the pairs into a `serde_json::Map` and calls `Value::from` on it.
/// Trusted: the value is the one named by [`object_of`], a function of the
/// pairs in their order.
#[verifier::external_body]
pub(crate) fn object_value(members: Vec<(String, serde_json::Value)>) -> (r: serde_json::Value)
    ensures
        r == object_of(members_view(members@)),
{
    serde_json::Value::from(
        members.into_iter().collect::<serde_json::Map<String, serde_json::Value>>(),
    )
}

/// Calls `to_string` on a value, which writes it through its `Display`.
/// Trusted: the text is the one named by [`rendered`], a function of the
/// value alone.
#[verifier::external_body]
pub(crate) fn render(value: &serde_json::Value) -> (r: String)
    ensures
        r@ == rendered(*value),
{
    value.to_string()
}

} // verus!
