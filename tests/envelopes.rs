use sqs_microservice::codec::CodecError;
use sqs_microservice::envelope::{
    events_from_s3_sns_sqs, events_from_s3_sqs, events_from_sns_sqs, locations_from_notification,
    BlobLocation, EnvelopeError,
};
use sqs_microservice::codec::Json;

fn direct(records: &[(&str, &str)]) -> String {
    let items: Vec<String> = records
        .iter()
        .map(|(b, k)| {
            format!(
                "{{\"eventName\":\"ObjectCreated:Put\",\"s3\":{{\"bucket\":{{\"name\":\"{}\"}},\"object\":{{\"key\":\"{}\",\"size\":10}}}}}}",
                b, k
            )
        })
        .collect();
    format!("{{\"Records\":[{}]}}", items.join(","))
}

fn wrapped(inner: &str) -> String {
    let message = serde_json::to_string(inner).unwrap();
    format!("{{\"Type\":\"Notification\",\"MessageId\":\"m1\",\"Message\":{}}}", message)
}

fn loc(b: &str, k: &str) -> BlobLocation {
    BlobLocation { bucket: b.to_string(), key: k.to_string() }
}

#[test]
fn direct_envelope_names_each_record() {
    let body = direct(&[("bucket-a", "key/1"), ("bucket-b", "key/2")]);
    assert_eq!(
        events_from_s3_sqs(&body).unwrap(),
        vec![loc("bucket-a", "key/1"), loc("bucket-b", "key/2")]
    );
}

#[test]
fn direct_envelope_with_no_records() {
    assert_eq!(events_from_s3_sqs("{\"Records\":[]}").unwrap(), vec![]);
}

#[test]
fn wrapped_envelope_matches_direct() {
    let inner = direct(&[("bucket-a", "key/1")]);
    let body = wrapped(&inner);
    let from_wrapped = locations_from_notification(&body).unwrap();
    assert_eq!(from_wrapped, events_from_s3_sqs(&inner).unwrap());
    assert_eq!(from_wrapped, vec![loc("bucket-a", "key/1")]);
    assert_eq!(events_from_s3_sns_sqs(&body).unwrap(), from_wrapped);
    assert_eq!(events_from_s3_sns_sqs(&inner).unwrap(), from_wrapped);
}

#[test]
fn record_without_key_is_a_shape_error() {
    let body = "{\"Records\":[{\"s3\":{\"bucket\":{\"name\":\"b\"},\"object\":{}}}]}";
    assert_eq!(events_from_s3_sqs(body), Err(EnvelopeError::Shape));
    assert_eq!(events_from_s3_sns_sqs(body), Err(EnvelopeError::Shape));
}

#[test]
fn malformed_bodies_are_decode_errors() {
    assert_eq!(
        locations_from_notification("{\"Message\": "),
        Err(EnvelopeError::Decode(CodecError::Truncated))
    );
    assert_eq!(
        locations_from_notification(&wrapped("{not json")),
        Err(EnvelopeError::Decode(CodecError::Corrupt))
    );
    assert_eq!(locations_from_notification("{\"Type\":\"x\"}"), Err(EnvelopeError::Shape));
    assert_eq!(locations_from_notification("{\"Message\": 3}"), Err(EnvelopeError::Shape));
}

#[test]
fn notification_document_is_unwrapped() {
    let body = wrapped("{\"k\":[1,\"v\"]}");
    assert_eq!(
        events_from_sns_sqs(&body).unwrap(),
        Json::Object(vec![(
            "k".to_string(),
            Json::Array(vec![Json::Number("1".to_string()), Json::Text("v".to_string())])
        )])
    );
    assert_eq!(events_from_sns_sqs("[]"), Err(EnvelopeError::Shape));
}

#[test]
fn storage_event_resolver_accepts_both_shapes() {
    let inner = direct(&[("b1", "k1"), ("b2", "k2")]);
    let expected = vec![loc("b1", "k1"), loc("b2", "k2")];
    assert_eq!(events_from_s3_sns_sqs(&inner).unwrap(), expected);
    assert_eq!(events_from_s3_sns_sqs(&wrapped(&inner)).unwrap(), expected);
    assert_eq!(locations_from_notification(&inner), Err(EnvelopeError::Shape));
    assert_eq!(events_from_s3_sns_sqs("{\"Type\":\"x\"}"), Err(EnvelopeError::Shape));
}
