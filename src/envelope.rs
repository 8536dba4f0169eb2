//! Unwrapping queue message bodies into the blob locations they name.
use vstd::prelude::*;
use crate::codec::{decode_text, parsed_json, CodecError, Json};

verus! {

/// Where a payload is stored: a bucket and a key in it.
#[derive(Debug, PartialEq, Eq)]
pub struct BlobLocation {
    pub bucket: String,
    pub key: String,
}

impl View for BlobLocation {
    type V = (Seq<char>, Seq<char>);

    open spec fn view(&self) -> (Seq<char>, Seq<char>) {
        (self.bucket@, self.key@)
    }
}

/// Why a message body named no payload.
#[derive(Clone, Copy, Debug, PartialEq, Eq, Structural)]
pub enum EnvelopeError {
    /// The body, or the document it wraps, is not a readable document.
    Decode(CodecError),
    /// The document lacks a field that its shape requires.
    Shape,
}

/// The value of the first member named `name`, in a list of members.
pub open spec fn member(members: Seq<(String, Json)>, name: Seq<char>) -> Option<Json>
    decreases members.len(),
{
    if members.len() == 0 {
        None
    } else if members[0].0@ == name {
        Some(members[0].1)
    } else {
        member(members.drop_first(), name)
    }
}

/// The field `name` of `doc`, when `doc` is an object that has it.
pub open spec fn field(doc: Option<Json>, name: Seq<char>) -> Option<Json> {
    match doc {
        Some(Json::Object(members)) => member(members@, name),
        _ => None,
    }
}

/// The characters of `doc`, when it is a string.
pub open spec fn text_of(doc: Option<Json>) -> Option<Seq<char>> {
    match doc {
        Some(Json::Text(s)) => Some(s@),
        _ => None,
    }
}

/// The location that a storage-event record names at `s3.bucket.name` and
/// `s3.object.key`.
pub open spec fn record_location(record: Json) -> Option<(Seq<char>, Seq<char>)> {
    let s3 = field(Some(record), "s3"@);
    match (text_of(field(field(s3, "bucket"@), "name"@)), text_of(field(field(s3, "object"@), "key"@))) {
        (Some(bucket), Some(key)) => Some((bucket, key)),
        _ => None,
    }
}

/// The locations of all records, in order, when every record names one.
pub open spec fn record_locations(records: Seq<Json>) -> Option<Seq<(Seq<char>, Seq<char>)>>
    decreases records.len(),
{
    if records.len() == 0 {
        Some(Seq::empty())
    } else {
        match (record_locations(records.drop_last()), record_location(records.last())) {
            (Some(front), Some(last)) => Some(front.push(last)),
            _ => None,
        }
    }
}

/// The locations of a direct storage-event document: one per entry of its
/// `Records` list.
pub open spec fn direct_locations(doc: Json) -> Option<Seq<(Seq<char>, Seq<char>)>> {
    match field(Some(doc), "Records"@) {
        Some(Json::Array(records)) => record_locations(records@),
        _ => None,
    }
}

/// The text that a notification document carries in its `Message` field.
pub open spec fn notification_text(doc: Json) -> Option<Seq<char>> {
    text_of(field(Some(doc), "Message"@))
}

/// The result of reading `text` as a direct storage-event document.
pub open spec fn direct_envelope(text: Seq<char>) -> Result<Seq<(Seq<char>, Seq<char>)>, EnvelopeError> {
    match parsed_json(text) {
        Err(e) => Err(EnvelopeError::Decode(e)),
        Ok(doc) => match direct_locations(doc) {
            Some(locations) => Ok(locations),
            None => Err(EnvelopeError::Shape),
        },
    }
}

/// The result of reading `text` as a notification that wraps a direct
/// storage-event document.
pub open spec fn wrapped_envelope(text: Seq<char>) -> Result<Seq<(Seq<char>, Seq<char>)>, EnvelopeError> {
    match parsed_json(text) {
        Err(e) => Err(EnvelopeError::Decode(e)),
        Ok(doc) => match notification_text(doc) {
            Some(inner) => direct_envelope(inner),
            None => Err(EnvelopeError::Shape),
        },
    }
}

/// The result of probing `text`: as a direct document first, and where its
/// shape is not that one, as a notification.
pub open spec fn probed_envelope(text: Seq<char>) -> Result<Seq<(Seq<char>, Seq<char>)>, EnvelopeError> {
    match parsed_json(text) {
        Err(e) => Err(EnvelopeError::Decode(e)),
        Ok(doc) => match direct_locations(doc) {
            Some(locations) => Ok(locations),
            None => match notification_text(doc) {
                Some(inner) => direct_envelope(inner),
                None => Err(EnvelopeError::Shape),
            },
        },
    }
}

pub open spec fn location_views(ls: Seq<BlobLocation>) -> Seq<(Seq<char>, Seq<char>)> {
    ls.map_values(|l: BlobLocation| l@)
}

/// The result of an envelope function, as views.
pub open spec fn result_views(r: Result<Vec<BlobLocation>, EnvelopeError>) -> Result<
    Seq<(Seq<char>, Seq<char>)>,
    EnvelopeError,
> {
    match r {
        Ok(ls) => Ok(location_views(ls@)),
        Err(e) => Err(e),
    }
}

/// The field `name` of `doc`, when `doc` is an object that has it.
pub fn get_field<'a>(doc: &'a Json, name: &str) -> (r: Option<&'a Json>)
    ensures
        match r {
            Some(v) => field(Some(*doc), name@) == Some(*v),
            None => field(Some(*doc), name@) is None,
        },
{
    match doc {
        Json::Object(members) => {
            let wanted = name.to_owned();
            let mut i: usize = 0;
            assert(members@.skip(0) =~= members@);
            while i < members.len()
                invariant
                    i <= members@.len(),
                    wanted@ == name@,
                    field(Some(*doc), name@) == member(members@, name@),
                    member(members@, name@) == member(members@.skip(i as int), name@),
                decreases members@.len() - i,
            {
                assert(members@.skip(i as int).drop_first() =~= members@.skip(i + 1));
                assert(members@.skip(i as int)[0] == members@[i as int]);
                if members[i].0 == wanted {
                    return Some(&members[i].1);
                }
                i = i + 1;
            }
            None
        },
        _ => None,
    }
}

fn get_text<'a>(doc: Option<&'a Json>) -> (r: Option<&'a String>)
    ensures
        match doc {
            Some(d) => text_of(Some(*d)) == (match r { Some(s) => Some(s@), None => None::<Seq<char>> }),
            None => r is None,
        },
{
    match doc {
        Some(Json::Text(s)) => Some(s),
        _ => None,
    }
}

fn get_nested<'a>(doc: Option<&'a Json>, name: &str) -> (r: Option<&'a Json>)
    ensures
        match doc {
            Some(d) => match r {
                Some(v) => field(Some(*d), name@) == Some(*v),
                None => field(Some(*d), name@) is None,
            },
            None => r is None,
        },
{
    match doc {
        Some(d) => get_field(d, name),
        None => None,
    }
}

/// The location that one storage-event record names.
pub fn location_of_record(record: &Json) -> (r: Option<BlobLocation>)
    ensures
        match r {
            Some(l) => record_location(*record) == Some(l@),
            None => record_location(*record) is None,
        },
{
    let s3 = get_field(record, "s3");
    let bucket = get_text(get_nested(get_nested(s3, "bucket"), "name"));
    let key = get_text(get_nested(get_nested(s3, "object"), "key"));
    match (bucket, key) {
        (Some(b), Some(k)) => Some(BlobLocation { bucket: b.clone(), key: k.clone() }),
        _ => None,
    }
}

/// The locations named by a parsed direct storage-event document.
pub fn locations_in_direct(doc: &Json) -> (r: Result<Vec<BlobLocation>, EnvelopeError>)
    ensures
        result_views(r) == (match direct_locations(*doc) {
            Some(ls) => Ok(ls),
            None => Err(EnvelopeError::Shape),
        }),
{
    let records = match get_field(doc, "Records") {
        Some(Json::Array(records)) => records,
        _ => return Err(EnvelopeError::Shape),
    };
    let mut out: Vec<BlobLocation> = Vec::new();
    let mut i: usize = 0;
    while i < records.len()
        invariant
            i <= records@.len(),
            direct_locations(*doc) == record_locations(records@),
            record_locations(records@.take(i as int)) == Some(location_views(out@)),
        decreases records@.len() - i,
    {
        assert(records@.take(i + 1).drop_last() =~= records@.take(i as int));
        match location_of_record(&records[i]) {
            Some(l) => {
                let ghost before = out@;
                let ghost lv = l@;
                out.push(l);
                assert(location_views(out@) =~= location_views(before).push(lv));
            },
            None => {
                assert(records@.take(i + 1).last() == records@[i as int]);
                proof {
                    lemma_prefix_fails(records@, i as int + 1);
                }
                return Err(EnvelopeError::Shape);
            },
        }
        i = i + 1;
    }
    assert(records@.take(records@.len() as int) =~= records@);
    Ok(out)
}

/// Once a prefix of the records names no location, the whole list does not.
proof fn lemma_prefix_fails(records: Seq<Json>, n: int)
    requires
        0 <= n <= records.len(),
        record_locations(records.take(n)) is None,
    ensures
        record_locations(records) is None,
    decreases records.len() - n,
{
    if n < records.len() {
        assert(records.take(n + 1).drop_last() =~= records.take(n));
        lemma_prefix_fails(records, n + 1);
    } else {
        assert(records.take(n) =~= records);
    }
}

/// The text that a parsed notification document wraps.
pub fn notification_message(doc: &Json) -> (r: Result<String, EnvelopeError>)
    ensures
        match notification_text(*doc) {
            Some(t) => r is Ok && r->Ok_0@ == t,
            None => r == Err::<String, EnvelopeError>(EnvelopeError::Shape),
        },
{
    match get_text(get_field(doc, "Message")) {
        Some(t) => Ok(t.clone()),
        None => Err(EnvelopeError::Shape),
    }
}

/// The locations named by a body that is a direct storage-event document.
pub fn events_from_s3_sqs(body: &str) -> (r: Result<Vec<BlobLocation>, EnvelopeError>)
    ensures
        result_views(r) == direct_envelope(body@),
{
    match decode_text(body) {
        Ok(doc) => locations_in_direct(&doc),
        Err(e) => Err(EnvelopeError::Decode(e)),
    }
}

/// The locations named by a body that is a notification wrapping a direct
/// storage-event document; a body of any other shape is refused.
pub fn locations_from_notification(body: &str) -> (r: Result<Vec<BlobLocation>, EnvelopeError>)
    ensures
        result_views(r) == wrapped_envelope(body@),
{
    match decode_text(body) {
        Ok(doc) => match notification_message(&doc) {
            Ok(inner) => events_from_s3_sqs(inner.as_str()),
            Err(e) => Err(e),
        },
        Err(e) => Err(EnvelopeError::Decode(e)),
    }
}

/// The document that a notification body wraps.
pub fn events_from_sns_sqs(body: &str) -> (r: Result<Json, EnvelopeError>)
    ensures
        match parsed_json(body@) {
            Err(e) => r == Err::<Json, EnvelopeError>(EnvelopeError::Decode(e)),
            Ok(doc) => match notification_text(doc) {
                None => r == Err::<Json, EnvelopeError>(EnvelopeError::Shape),
                Some(inner) => match parsed_json(inner) {
                    Ok(d) => r == Ok::<Json, EnvelopeError>(d),
                    Err(e) => r == Err::<Json, EnvelopeError>(EnvelopeError::Decode(e)),
                },
            },
        },
{
    match decode_text(body) {
        Ok(doc) => match notification_message(&doc) {
            Ok(inner) => match decode_text(inner.as_str()) {
                Ok(d) => Ok(d),
                Err(e) => Err(EnvelopeError::Decode(e)),
            },
            Err(e) => Err(e),
        },
        Err(e) => Err(EnvelopeError::Decode(e)),
    }
}

/// The locations named by a body of either storage-event shape: read as a
/// direct document, and where that shape does not fit, as a notification
/// wrapping one.
pub fn events_from_s3_sns_sqs(body: &str) -> (r: Result<Vec<BlobLocation>, EnvelopeError>)
    ensures
        result_views(r) == probed_envelope(body@),
{
    let doc = match decode_text(body) {
        Ok(doc) => doc,
        Err(e) => return Err(EnvelopeError::Decode(e)),
    };
    match locations_in_direct(&doc) {
        Ok(ls) => Ok(ls),
        Err(_) => match notification_message(&doc) {
            Ok(inner) => events_from_s3_sqs(inner.as_str()),
            Err(e) => Err(e),
        },
    }
}

/// A notification resolves to exactly the locations of the direct document
/// it wraps, whether it is read as a notification or probed.
pub proof fn lemma_wrapped_resolves_as_direct(body: Seq<char>, inner: Seq<char>)
    requires
        parsed_json(body) is Ok,
        notification_text(parsed_json(body)->Ok_0) == Some(inner),
        direct_locations(parsed_json(body)->Ok_0) is None,
    ensures
        wrapped_envelope(body) == direct_envelope(inner),
        probed_envelope(body) == direct_envelope(inner),
{
}

} // verus!
