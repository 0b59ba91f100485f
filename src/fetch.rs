//! The fetch side: checking what the journey planner sent back, and the
//! snapshot of the last response that was fetched and decoded.
use vstd::prelude::*;
use crate::trip::{ResponseView, TopLevelData};

verus! {

/// Seconds between two fetches; also the ticks the display shows one snapshot
/// for before it reads the snapshot again.
pub const SLEEP_SECONDS: u64 = 20;

/// Bytes of a response body that are read; what does not fit is cut off.
pub const RESPONSE_BUFFER_SIZE: usize = 2048;

/// Why a fetch gave no new response.
#[derive(Clone, Copy, Debug, PartialEq, Eq, Structural)]
pub enum FetchError {
    /// No connection, or the request or the response could not be sent or read.
    Transport,
    /// The server answered with a status other than success.
    Status(u16),
    /// The body is not a response of the expected shape, or was cut off.
    Decode,
}

/// `bytes` without the NUL padding at its end.
pub open spec fn trim_trailing_nul(bytes: Seq<u8>) -> Seq<u8>
    decreases bytes.len(),
{
    if bytes.len() > 0 && bytes.last() == 0 {
        trim_trailing_nul(bytes.drop_last())
    } else {
        bytes
    }
}

/// Whether an HTTP status is a success.
pub open spec fn is_success(status: u16) -> bool {
    200 <= status < 300
}

/// The body of a response read into `buffer`: refused unless the status is a
/// success, and without the NUL bytes that pad the buffer after the body.
pub fn response_body(status: u16, buffer: &[u8]) -> (r: Result<Vec<u8>, FetchError>)
    ensures
        is_success(status) ==> r is Ok && r->Ok_0@ == trim_trailing_nul(buffer@),
        !is_success(status) ==> r == Err::<Vec<u8>, FetchError>(FetchError::Status(status)),
{
    if status < 200 || status >= 300 {
        return Err(FetchError::Status(status));
    }
    let mut end: usize = buffer.len();
    assert(buffer@.subrange(0, end as int) =~= buffer@);
    while end > 0 && buffer[end - 1] == 0
        invariant
            end <= buffer@.len(),
            trim_trailing_nul(buffer@) == trim_trailing_nul(buffer@.subrange(0, end as int)),
        decreases end,
    {
        proof {
            assert(buffer@.subrange(0, end as int).drop_last() =~= buffer@.subrange(0, end - 1));
        }
        end -= 1;
    }
    let mut body: Vec<u8> = Vec::new();
    let mut i: usize = 0;
    while i < end
        invariant
            end <= buffer@.len(),
            i <= end,
            body@ == buffer@.subrange(0, i as int),
        decreases end - i,
    {
        body.push(buffer[i]);
        i += 1;
        assert(body@ =~= buffer@.subrange(0, i as int));
    }
    proof {
        let kept = buffer@.subrange(0, end as int);
        assert(end == 0 || kept.last() != 0);
        assert(trim_trailing_nul(kept) == kept);
    }
    Ok(body)
}

/// The response that a fetch gave, if it gave one.
pub open spec fn fetched(outcome: Result<TopLevelData, FetchError>) -> Option<ResponseView> {
    match outcome {
        Ok(d) => Some(d@),
        Err(_) => None,
    }
}

/// The snapshot after a fetch: the fetched response where there is one, else
/// the snapshot as it was.
pub open spec fn after_fetch(before: ResponseView, fetched: Option<ResponseView>) -> ResponseView {
    match fetched {
        Some(r) => r,
        None => before,
    }
}

/// The last response that was fetched and decoded. It always holds a whole
/// response: one is needed to make it, and each fetch replaces all of it.
#[derive(Debug)]
pub struct Snapshot {
    data: TopLevelData,
}

impl View for Snapshot {
    type V = ResponseView;

    closed spec fn view(&self) -> ResponseView {
        self.data@
    }
}

impl Snapshot {
    /// A snapshot of the first response.
    pub fn new(initial: TopLevelData) -> (r: Snapshot)
        ensures
            r@ == initial@,
    {
        Snapshot { data: initial }
    }

    /// A copy of the response, for a reader to work on after letting go.
    pub fn read(&self) -> (r: TopLevelData)
        ensures
            r@ == self@,
    {
        self.data.duplicate()
    }

    /// Takes in what a fetch gave: a response replaces the snapshot whole; a
    /// failure leaves it exactly as it was. Returns whether it was replaced.
    pub fn record_fetch(&mut self, outcome: Result<TopLevelData, FetchError>) -> (r: bool)
        ensures
            r == (outcome is Ok),
            final(self)@ == after_fetch(old(self)@, fetched(outcome)),
            outcome is Err ==> *final(self) == *old(self),
    {
        match outcome {
            Ok(data) => {
                self.data = data;
                true
            },
            Err(_) => false,
        }
    }
}

/// A reader sees one whole response, never parts of two: after a fetch the
/// snapshot is the response before it, or the fetched one, with both trip
/// queries from the same of the two.
pub proof fn lemma_snapshot_whole(before: ResponseView, fetched: Option<ResponseView>)
    ensures
        after_fetch(before, fetched) == before || fetched == Some(after_fetch(before, fetched)),
        ({
            let after = after_fetch(before, fetched);
            (after.trip1 == before.trip1 && after.trip2 == before.trip2) || (fetched is Some
                && after.trip1 == fetched->0.trip1 && after.trip2 == fetched->0.trip2)
        }),
{
}

/// A failed fetch leaves the snapshot exactly as it was.
pub proof fn lemma_failure_keeps_snapshot(before: ResponseView)
    ensures
        after_fetch(before, None) == before,
{
}

} // verus!
