use sqs_microservice::codec::{decode_inline, decode_text, decompress, CodecError, Json};
use sqs_microservice::dispatch::{fetch_and_decode, FetchError, ProcessError};

#[test]
fn decompress_round_trips_zstd() {
    let payload: Vec<u8> = (0..2000u32).map(|i| (i % 251) as u8).collect();
    let compressed = zstd::stream::encode_all(&payload[..], 3).unwrap();
    assert_ne!(compressed, payload);
    assert_eq!(decompress(&compressed).unwrap(), payload);
}

#[test]
fn decompress_round_trips_empty_payload() {
    let compressed = zstd::stream::encode_all(&b""[..], 3).unwrap();
    assert_eq!(decompress(&compressed).unwrap(), Vec::<u8>::new());
}

#[test]
fn decompress_rejects_garbage() {
    assert_eq!(decompress(b"not zstd at all"), Err(CodecError::Corrupt));
}

#[test]
fn text_round_trips_through_json() {
    let mut map = serde_json::Map::new();
    map.insert("a".to_string(), serde_json::Value::from(1));
    map.insert(
        "b".to_string(),
        serde_json::Value::Array(vec![serde_json::Value::Bool(true), serde_json::Value::Null]),
    );
    map.insert("c".to_string(), serde_json::Value::String("x".to_string()));
    let value = serde_json::Value::Object(map);
    let text = serde_json::to_string(&value).unwrap();
    let doc = decode_text(&text).unwrap();
    assert_eq!(
        doc,
        Json::Object(vec![
            ("a".to_string(), Json::Number("1".to_string())),
            ("b".to_string(), Json::Array(vec![Json::Bool(true), Json::Null])),
            ("c".to_string(), Json::Text("x".to_string())),
        ])
    );
}

#[test]
fn text_errors_are_distinguished() {
    assert_eq!(decode_text("{\"a\": [1, 2"), Err(CodecError::Truncated));
    assert_eq!(decode_text("{\"a\" 1}"), Err(CodecError::Corrupt));
}

#[test]
fn inline_body_decodes_base64() {
    let encoded = base64::encode(b"\x08\x96\x01payload");
    assert_eq!(decode_inline(&encoded).unwrap(), b"\x08\x96\x01payload".to_vec());
    assert_eq!(decode_inline("@@not base64@@"), Err(CodecError::Corrupt));
}

#[test]
fn fetch_and_decode_separates_failures() {
    let compressed = zstd::stream::encode_all(&b"hello"[..], 1).unwrap();
    assert_eq!(fetch_and_decode(Ok(compressed)).unwrap(), b"hello".to_vec());
    assert!(matches!(
        fetch_and_decode(Err(FetchError::NotFound)),
        Err(ProcessError::Fetch(FetchError::NotFound))
    ));
    assert!(matches!(
        fetch_and_decode(Err(FetchError::Unreadable)),
        Err(ProcessError::Fetch(FetchError::Unreadable))
    ));
    assert!(matches!(
        fetch_and_decode(Ok(b"garbage".to_vec())),
        Err(ProcessError::Codec(CodecError::Corrupt))
    ));
}
