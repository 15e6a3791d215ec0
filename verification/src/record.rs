//! Manifest records and the documents that hold them.
//!
//! A record is a JSON object with up to three fields. `raw` holds source
//! text and is kept in the transport encoding; `name` and `code` are kept as
//! they are.

use crate::encoding::{decode_body, decoded, encode_body, encoded};
use crate::error::PipelineError;
use crate::json::{
    field_views, json_number_at, json_number_field, json_object, json_object_text, json_text_at,
    json_text_field, json_well_formed, text_view, JsonField, JsonFieldView, JsonValue,
    JsonValueView,
};
use vstd::prelude::*;
use vstd::string::StringExecFns;

verus! {

/// What a document of the manifest holds. The record of the interface has
/// only `raw`; the record of a command has all three.
#[derive(Clone, Debug, PartialEq, Eq)]
pub struct Record {
    pub name: Option<String>,
    pub code: Option<u64>,
    /// Source text, decoded.
    pub raw: Option<String>,
}

pub struct RecordView {
    pub name: Option<Seq<char>>,
    pub code: Option<u64>,
    pub raw: Option<Seq<char>>,
}

impl View for Record {
    type V = RecordView;

    open spec fn view(&self) -> RecordView {
        RecordView { name: text_view(self.name), code: self.code, raw: text_view(self.raw) }
    }
}

/// The record that a document holds; `None` where the document is no JSON or
/// its `raw` is a string that does not decode.
pub open spec fn record_of(document: Seq<char>) -> Option<RecordView> {
    if !json_well_formed(document) {
        None
    } else {
        let name = json_text_at(document, "name"@);
        let code = json_number_at(document, "code"@);
        match json_text_at(document, "raw"@) {
            None => Some(RecordView { name, code, raw: None }),
            Some(stored) => match decoded(stored) {
                None => None,
                Some(text) => Some(RecordView { name, code, raw: Some(text) }),
            },
        }
    }
}

/// The fields that a record is stored with: those that it has, `raw` encoded.
pub open spec fn fields_of(record: RecordView) -> Seq<JsonFieldView> {
    let name = match record.name {
        Some(name) => seq![JsonFieldView { key: "name"@, value: JsonValueView::Text(name) }],
        None => Seq::empty(),
    };
    let code = match record.code {
        Some(code) => seq![JsonFieldView { key: "code"@, value: JsonValueView::Number(code) }],
        None => Seq::empty(),
    };
    let raw = match record.raw {
        Some(raw) => seq![
            JsonFieldView { key: "raw"@, value: JsonValueView::Text(encoded(raw)) },
        ],
        None => Seq::empty(),
    };
    name + code + raw
}

/// The document that a record is stored as.
pub open spec fn document_of(record: RecordView) -> Seq<char> {
    json_object_text(fields_of(record))
}

/// Reads a record out of a document and decodes its `raw`.
///
/// Fails with `StorageIoError` where the document is no JSON, or where its
/// `raw` is a string that is no base64 of UTF-8.
pub fn get_json_value(document: &str) -> (r: Result<Record, PipelineError>)
    ensures
        match r {
            Ok(record) => record_of(document@) == Some(record@),
            Err(e) => record_of(document@) is None && e@ == crate::error::PipelineErrorView::StorageIoError,
        },
{
    let stored = match json_text_field(document, "raw") {
        Err(_) => {
            return Err(PipelineError::StorageIoError);
        },
        Ok(stored) => stored,
    };
    let name = match json_text_field(document, "name") {
        Err(_) => {
            return Err(PipelineError::StorageIoError);
        },
        Ok(name) => name,
    };
    let code = match json_number_field(document, "code") {
        Err(_) => {
            return Err(PipelineError::StorageIoError);
        },
        Ok(code) => code,
    };
    let raw = match stored {
        None => None,
        Some(stored) => match decode_body(stored.as_str()) {
            None => {
                return Err(PipelineError::StorageIoError);
            },
            Some(text) => Some(text),
        },
    };
    Ok(Record { name, code, raw })
}

/// Writes a record as a document, its `raw` encoded.
pub fn set_json_value(record: &Record) -> (document: String)
    ensures
        document@ == document_of(record@),
{
    let mut fields: Vec<JsonField> = Vec::new();
    match &record.name {
        Some(name) => {
            fields.push(
                JsonField { key: String::from_str("name"), value: JsonValue::Text(name.clone()) },
            );
        },
        None => {},
    }
    match record.code {
        Some(code) => {
            fields.push(JsonField { key: String::from_str("code"), value: JsonValue::Number(code) });
        },
        None => {},
    }
    match &record.raw {
        Some(raw) => {
            fields.push(
                JsonField {
                    key: String::from_str("raw"),
                    value: JsonValue::Text(encode_body(raw.as_str())),
                },
            );
        },
        None => {},
    }
    assert(field_views(fields@) =~= fields_of(record@));
    json_object(&fields)
}

} // verus!
