//! What other crates compute for this one: base64 and TOML are decoded, JSON
//! is decoded and encoded. Each call stands in a function of its own whose
//! contract is taken on trust; what a decoder gives for given bytes has a
//! name here, and everything that is done with the results is verified.

use crate::table::Datum;
use crate::table::DatumView;
use crate::table::Table;
use crate::table::TableView;
use std::collections::HashMap;
use vstd::prelude::*;
use vstd::utf8::encode_utf8;

verus! {

/// Why `base64::decode` refused its input.
#[verifier::external_type_specification]
#[verifier::external_body]
pub struct ExDecodeError(base64::DecodeError);

/// Why `toml::from_slice` refused its input.
#[verifier::external_type_specification]
#[verifier::external_body]
pub struct ExTomlError(toml::de::Error);

/// Why `serde_json` refused to read or write.
#[verifier::external_type_specification]
#[verifier::external_body]
pub struct ExJsonError(serde_json::Error);

/// A value as the `toml` crate holds it.
#[verifier::external_type_specification]
#[verifier::external_body]
pub struct ExTomlValue(toml::Value);

/// The bytes that standard base64 text stands for, where it is well formed.
pub uninterp spec fn base64_decoded(text: Seq<u8>) -> Option<Seq<u8>>;

/// The top-level table of a TOML document, its keys in the order in which
/// the `toml` crate yields them, where the bytes are such a document.
pub uninterp spec fn toml_document(bytes: Seq<u8>) -> Option<TableView>;

/// The object from text to text that JSON bytes stand for, where they are
/// such an object.
pub uninterp spec fn json_directory(bytes: Seq<u8>) -> Option<Map<Seq<char>, Seq<char>>>;

/// The plain data of a value of the `toml` crate: what `mirror_value` makes
/// of it.
pub uninterp spec fn toml_value(value: toml::Value) -> DatumView;

/// The plain data of entries whose values the `toml` crate holds.
pub open spec fn toml_entries(entries: Seq<(String, toml::Value)>) -> TableView {
    Seq::new(entries.len(), |i: int| (entries[i].0@, toml_value(entries[i].1)))
}

/// The longest text that `decode_base64` takes: beyond it the decoder's
/// size arithmetic leaves `usize`.
pub const BASE64_LIMIT: usize = usize::MAX / 4;

/// `base64::decode` with the standard alphabet: `Ok` with the decoded bytes
/// where the text is well formed, `Err` where it is not.
#[verifier::external_body]
pub(crate) fn decode_base64(text: &[u8]) -> (decoded: Result<Vec<u8>, base64::DecodeError>)
    requires
        text@.len() <= BASE64_LIMIT,
    ensures
        match decoded {
            Ok(bytes) => base64_decoded(text@) == Some(bytes@),
            Err(_) => base64_decoded(text@) is None,
        },
{
    base64::decode(text)
}

/// `toml::from_slice` for a `toml::value::Table`: `Ok` with the entries of
/// the top-level table, in the table's own order, where the bytes are a
/// document, `Err` where they are not.
///
/// The parser follows nested lists and inline tables by recursion, as
/// `mirror_value` does: like memory, the stack must have room for the
/// document.
#[verifier::external_body]
pub(crate) fn parse_toml(bytes: &[u8]) -> (parsed: Result<
    Vec<(String, toml::Value)>,
    toml::de::Error,
>)
    ensures
        match parsed {
            Ok(entries) => toml_document(bytes@) == Some(toml_entries(entries@)),
            Err(_) => toml_document(bytes@) is None,
        },
{
    toml::from_slice::<toml::value::Table>(bytes).map(|table| table.into_iter().collect())
}

/// Moves a `toml::Value` into a `Datum`, variant by variant and level by
/// level; a table's entries keep the table's order. The contract only gives
/// the outcome its name.
#[verifier::external_body]
pub(crate) fn mirror_value(value: toml::Value) -> (mirrored: Datum)
    ensures
        mirrored@ == toml_value(value),
{
    match value {
        toml::Value::String(s) => Datum::String(s),
        toml::Value::Integer(i) => Datum::Integer(i),
        toml::Value::Float(_) => Datum::Float,
        toml::Value::Boolean(b) => Datum::Boolean(b),
        toml::Value::Datetime(_) => Datum::Datetime,
        toml::Value::Array(items) => Datum::Array(items.into_iter().map(mirror_value).collect()),
        toml::Value::Table(table) => Datum::Table(
            Table { entries: table.into_iter().map(|(k, v)| (k, mirror_value(v))).collect() },
        ),
    }
}

/// `serde_json::from_slice` for a map from text to text: `Ok` with the map
/// where the bytes are a JSON object whose values are all text, `Err`
/// where they are not.
#[verifier::external_body]
pub(crate) fn decode_directory(bytes: &[u8]) -> (decoded: Result<
    HashMap<String, String>,
    serde_json::Error,
>)
    ensures
        match decoded {
            Ok(directory) => json_directory(bytes@) == Some(directory.deep_view()),
            Err(_) => json_directory(bytes@) is None,
        },
{
    serde_json::from_slice::<HashMap<String, String>>(bytes)
}

/// `serde_json::to_string` for a map from text to text: `Ok` with JSON text
/// that stands for the map. The order of the keys in the text is the map's
/// own, so the text itself has no name.
#[verifier::external_body]
pub(crate) fn encode_directory(directory: &HashMap<String, String>) -> (encoded: Result<
    String,
    serde_json::Error,
>)
    ensures
        encoded matches Ok(text) ==> json_directory(encode_utf8(text@)) == Some(
            directory.deep_view(),
        ),
{
    serde_json::to_string(directory)
}

/// The top-level table of a TOML document, or the parser's reason for
/// refusing the bytes.
pub fn parse_table(bytes: &[u8]) -> (parsed: Result<Table, toml::de::Error>)
    ensures
        match parsed {
            Ok(table) => toml_document(bytes@) == Some(table@),
            Err(_) => toml_document(bytes@) is None,
        },
{
    match parse_toml(bytes) {
        Err(e) => Err(e),
        Ok(raw) => {
            let ghost model = toml_entries(raw@);
            let mut entries: Vec<(String, Datum)> = Vec::new();
            for entry in it: raw.into_iter()
                invariant
                    it.seq() == raw@,
                    entries@.len() == it.index(),
                    forall|j: int|
                        0 <= j < entries@.len() ==> (entries@[j].0@, entries@[j].1@) == model[j],
                    model == toml_entries(raw@),
            {
                let (key, value) = entry;
                entries.push((key, mirror_value(value)));
            }
            let table = Table { entries };
            assert(table@ =~= model);
            Ok(table)
        },
    }
}

} // verus!
