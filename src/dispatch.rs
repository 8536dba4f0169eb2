//! What one unit of work decides for its message: how a fetched blob
//! becomes a payload, and which outcome its payloads' results settle on.
use vstd::prelude::*;
use crate::codec::{decompress, zstd_decoded, CodecError};
use crate::envelope::EnvelopeError;

verus! {

/// Why the blob store gave no bytes for a location.
#[derive(Clone, Copy, Debug, PartialEq, Eq, Structural)]
pub enum FetchError {
    NotFound,
    Unreadable,
}

/// Why one message could not be processed.
#[derive(Debug)]
pub enum ProcessError {
    Envelope(EnvelopeError),
    Fetch(FetchError),
    Codec(CodecError),
    /// The translator refused the payload.
    Translate(String),
    /// The sink refused the fragment.
    Sink(String),
    /// The unit of work stopped without reporting an outcome.
    Crashed,
    /// The message carries no acknowledgment token or no source.
    Unaddressed,
}

/// The result of processing one message.
#[derive(Debug)]
pub enum Outcome {
    Success { token: String, source: String },
    Failure { error: ProcessError },
}

/// The payload that a fetch yields: its bytes, decompressed.
pub open spec fn blob_payload(fetched: Result<Vec<u8>, FetchError>) -> Result<Seq<u8>, ProcessError> {
    match fetched {
        Err(e) => Err(ProcessError::Fetch(e)),
        Ok(bytes) => match zstd_decoded(bytes@) {
            Some(plain) => Ok(plain),
            None => Err(ProcessError::Codec(CodecError::Corrupt)),
        },
    }
}

/// Turns what the blob store returned into a payload. A blob that could not
/// be fetched stays apart from one that was fetched and is not decodable.
pub fn fetch_and_decode(fetched: Result<Vec<u8>, FetchError>) -> (r: Result<Vec<u8>, ProcessError>)
    ensures
        match blob_payload(fetched) {
            Ok(plain) => r is Ok && r->Ok_0@ == plain,
            Err(e) => r is Err && r->Err_0 == e,
        },
{
    match fetched {
        Err(e) => Err(ProcessError::Fetch(e)),
        Ok(bytes) => match decompress(bytes.as_slice()) {
            Ok(plain) => Ok(plain),
            Err(e) => Err(ProcessError::Codec(e)),
        },
    }
}

/// The first error among a message's payload results, in order.
pub open spec fn first_error(results: Seq<Result<(), ProcessError>>) -> Option<ProcessError>
    decreases results.len(),
{
    if results.len() == 0 {
        None
    } else {
        match results[0] {
            Err(e) => Some(e),
            Ok(()) => first_error(results.drop_first()),
        }
    }
}

/// Whether a message's next payload should be processed, given the results
/// of those before it: only while none of them failed.
pub fn keep_going(results: &Vec<Result<(), ProcessError>>) -> (r: bool)
    ensures
        r == (first_error(results@) is None),
{
    let mut i: usize = 0;
    assert(results@.skip(0) =~= results@);
    while i < results.len()
        invariant
            i <= results@.len(),
            first_error(results@) == first_error(results@.skip(i as int)),
        decreases results@.len() - i,
    {
        assert(results@.skip(i as int).drop_first() =~= results@.skip(i + 1));
        assert(results@.skip(i as int)[0] == results@[i as int]);
        if results[i].is_err() {
            return false;
        }
        i = i + 1;
    }
    true
}

/// The outcome of a message whose payloads gave `results`, in order:
/// success when every payload went through, else the first error.
pub fn settle(token: String, source: String, results: Vec<Result<(), ProcessError>>) -> (o: Outcome)
    ensures
        match first_error(results@) {
            None => o == (Outcome::Success { token, source }),
            Some(e) => o == (Outcome::Failure { error: e }),
        },
{
    let ghost all = results@;
    let mut rest = results;
    while rest.len() > 0
        invariant
            all == results@,
            first_error(all) == first_error(rest@),
        decreases rest@.len(),
    {
        let ghost before = rest@;
        let r = rest.remove(0);
        assert(rest@ =~= before.drop_first());
        match r {
            Err(e) => return Outcome::Failure { error: e },
            Ok(()) => {},
        }
    }
    Outcome::Success { token, source }
}

} // verus!
