//! Decompression, text-safe decoding and structured-text parsing.
use vstd::prelude::*;

verus! {

/// Why bytes or text could not be decoded. A truncated input may be worth
/// fetching again; corrupt input and a schema mismatch are not.
#[derive(Clone, Copy, Debug, PartialEq, Eq, Structural)]
pub enum CodecError {
    Truncated,
    Corrupt,
    SchemaMismatch,
}

/// A structured-text document as the library reads it. A number is held as
/// the text serde_json writes for the value it parsed (`1e2` becomes
/// `100.0`); an object keeps its members in the order the parser gives.
#[derive(Debug, PartialEq, Eq)]
pub enum Json {
    Null,
    Bool(bool),
    Number(String),
    Text(String),
    Array(Vec<Json>),
    Object(Vec<(String, Json)>),
}

/// serde_json::Value, declared so that a parsed value can be taken apart.
#[verifier::external_type_specification]
#[verifier::external_body]
pub struct ExValue(serde_json::Value);

/// What serde_json makes of `text`: a document, or the kind of its error.
pub uninterp spec fn parsed_json(text: Seq<char>) -> Result<Json, CodecError>;

/// What zstd makes of a compressed stream, if it is one.
pub uninterp spec fn zstd_decoded(compressed: Seq<u8>) -> Option<Seq<u8>>;

/// What standard base64 decoding makes of `text`, if it is valid.
pub uninterp spec fn base64_decoded(text: Seq<char>) -> Option<Seq<u8>>;

/// Moves a parsed serde_json value into the library's own document type,
/// variant for variant.
#[verifier::external_body]
fn json_from_value(v: serde_json::Value) -> Json {
    match v {
        serde_json::Value::Null => Json::Null,
        serde_json::Value::Bool(b) => Json::Bool(b),
        serde_json::Value::Number(n) => Json::Number(n.to_string()),
        serde_json::Value::String(s) => Json::Text(s),
        serde_json::Value::Array(a) => Json::Array(a.into_iter().map(json_from_value).collect()),
        serde_json::Value::Object(o) => Json::Object(
            o.into_iter().map(|(k, v)| (k, json_from_value(v))).collect(),
        ),
    }
}

/// Relies on serde_json::from_str to parse a document, and on
/// serde_json::Error::classify to tell an input that ended early from one
/// that is malformed.
#[verifier::external_body]
fn parse_json(text: &str) -> (r: Result<Json, CodecError>)
    ensures
        r == parsed_json(text@),
{
    match serde_json::from_str::<serde_json::Value>(text) {
        Ok(v) => Ok(json_from_value(v)),
        Err(e) => Err(
            match e.classify() {
                serde_json::error::Category::Eof => CodecError::Truncated,
                serde_json::error::Category::Data => CodecError::SchemaMismatch,
                _ => CodecError::Corrupt,
            },
        ),
    }
}

/// Relies on zstd::stream::decode_all to decompress a stream held in memory.
#[verifier::external_body]
fn zstd_decode(compressed: &[u8]) -> (r: Option<Vec<u8>>)
    ensures
        match r {
            Some(v) => zstd_decoded(compressed@) == Some(v@),
            None => zstd_decoded(compressed@) is None,
        },
{
    zstd::stream::decode_all(compressed).ok()
}

/// Relies on base64::decode (standard alphabet, padded) to decode text.
#[verifier::external_body]
fn base64_decode(text: &str) -> (r: Option<Vec<u8>>)
    ensures
        match r {
            Some(v) => base64_decoded(text@) == Some(v@),
            None => base64_decoded(text@) is None,
        },
{
    base64::decode(text).ok()
}

/// Parses a structured-text document.
pub fn decode_text(text: &str) -> (r: Result<Json, CodecError>)
    ensures
        r == parsed_json(text@),
{
    parse_json(text)
}

/// Decompresses a zstd stream; anything that is not one is corrupt.
pub fn decompress(compressed: &[u8]) -> (r: Result<Vec<u8>, CodecError>)
    ensures
        match zstd_decoded(compressed@) {
            Some(plain) => r is Ok && r->Ok_0@ == plain,
            None => r == Err::<Vec<u8>, CodecError>(CodecError::Corrupt),
        },
{
    match zstd_decode(compressed) {
        Some(v) => Ok(v),
        None => Err(CodecError::Corrupt),
    }
}

/// Decodes a text-safe (base64) body into the bytes it carries.
pub fn decode_inline(body: &str) -> (r: Result<Vec<u8>, CodecError>)
    ensures
        match base64_decoded(body@) {
            Some(bytes) => r is Ok && r->Ok_0@ == bytes,
            None => r == Err::<Vec<u8>, CodecError>(CodecError::Corrupt),
        },
{
    match base64_decode(body) {
        Some(v) => Ok(v),
        None => Err(CodecError::Corrupt),
    }
}

} // verus!
