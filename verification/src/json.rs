//! The boundary to JSON: the fields that `serde_json` reads out of a
//! document, and the document that it prints for a list of fields.
//!
//! Nothing here is proved; the contracts name what `serde_json` returns.

use vstd::prelude::*;

verus! {

#[verifier::external_type_specification]
#[verifier::external_body]
pub struct ExJsonError(serde_json::Error);

/// The value of one field of a document.
#[derive(Clone, Debug, PartialEq, Eq)]
pub enum JsonValue {
    Text(String),
    Number(u64),
}

pub enum JsonValueView {
    Text(Seq<char>),
    Number(u64),
}

impl View for JsonValue {
    type V = JsonValueView;

    open spec fn view(&self) -> JsonValueView {
        match self {
            JsonValue::Text(s) => JsonValueView::Text(s@),
            JsonValue::Number(n) => JsonValueView::Number(*n),
        }
    }
}

/// One field of a document.
#[derive(Clone, Debug, PartialEq, Eq)]
pub struct JsonField {
    pub key: String,
    pub value: JsonValue,
}

pub struct JsonFieldView {
    pub key: Seq<char>,
    pub value: JsonValueView,
}

impl View for JsonField {
    type V = JsonFieldView;

    open spec fn view(&self) -> JsonFieldView {
        JsonFieldView { key: self.key@, value: self.value@ }
    }
}

/// The views of a vector of fields, in order.
pub open spec fn field_views(fields: Seq<JsonField>) -> Seq<JsonFieldView> {
    Seq::new(fields.len(), |i: int| fields[i]@)
}

/// The view of an optional string.
pub open spec fn text_view(text: Option<String>) -> Option<Seq<char>> {
    match text {
        Some(t) => Some(t@),
        None => None,
    }
}

/// Whether `serde_json` accepts `document` as one JSON value.
pub uninterp spec fn json_well_formed(document: Seq<char>) -> bool;

/// The string that `document` holds under `key`; `None` where the document
/// is no object, has no such key, or holds something else there.
pub uninterp spec fn json_text_at(document: Seq<char>, key: Seq<char>) -> Option<Seq<char>>;

/// The unsigned integer that `document` holds under `key`; `None` where the
/// document is no object, has no such key, or holds something else there.
pub uninterp spec fn json_number_at(document: Seq<char>, key: Seq<char>) -> Option<u64>;

/// The document that `serde_json` prints for the object with these fields.
pub uninterp spec fn json_object_text(fields: Seq<JsonFieldView>) -> Seq<char>;

/// `serde_json::from_str::<serde_json::Value>`, then `Value::as_str` on the
/// value under `key`: fails where the document is no JSON; the contract names
/// what is read.
#[verifier::external_body]
pub(crate) fn json_text_field(document: &str, key: &str) -> (r: Result<
    Option<String>,
    serde_json::Error,
>)
    ensures
        r is Ok <==> json_well_formed(document@),
        r matches Ok(text) ==> text_view(text) == json_text_at(document@, key@),
{
    let value = serde_json::from_str::<serde_json::Value>(document)?;
    Ok(value[key].as_str().map(String::from))
}

/// `serde_json::from_str::<serde_json::Value>`, then `Value::as_u64` on the
/// value under `key`: fails where the document is no JSON; the contract names
/// what is read.
#[verifier::external_body]
pub(crate) fn json_number_field(document: &str, key: &str) -> (r: Result<
    Option<u64>,
    serde_json::Error,
>)
    ensures
        r is Ok <==> json_well_formed(document@),
        r matches Ok(number) ==> number == json_number_at(document@, key@),
{
    let value = serde_json::from_str::<serde_json::Value>(document)?;
    Ok(value[key].as_u64())
}

/// `serde_json::Value::to_string` on the object with the given fields: the
/// contract names the document that is printed.
#[verifier::external_body]
pub(crate) fn json_object(fields: &Vec<JsonField>) -> (r: String)
    ensures
        r@ == json_object_text(field_views(fields@)),
{
    let mut object = serde_json::Map::new();
    for field in fields {
        let value = match &field.value {
            JsonValue::Text(text) => serde_json::Value::from(text.as_str()),
            JsonValue::Number(number) => serde_json::Value::from(*number),
        };
        object.insert(field.key.clone(), value);
    }
    serde_json::Value::Object(object).to_string()
}

} // verus!
