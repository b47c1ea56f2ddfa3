//! Decoding a stream of records, one at a time, in arrival order.
//!
//! The first value that holds no record ends the stream: the decoder reports
//! it, with its position, and yields nothing after it.
use vstd::prelude::*;

use crate::json::JsonValue;
use crate::protocol::{decoded, DecodeErrorKind, LockfileContentsMessage};

verus! {

/// A value of the stream that holds no record, and where it stands (from 0).
#[derive(Clone, Copy, Debug, PartialEq, Eq, Structural)]
pub struct DecodeError {
    pub position: usize,
    pub kind: DecodeErrorKind,
}

/// The position of the first value from `i` on that holds no record.
pub open spec fn first_failure(values: Seq<JsonValue>, i: nat) -> Option<nat>
    decreases values.len() - i,
{
    if i >= values.len() {
        None
    } else if decoded(values[i as int]) is Err {
        Some(i)
    } else {
        first_failure(values, i + 1)
    }
}

/// A decoder over a stream of values.
pub struct MessageIter {
    pub input: Vec<JsonValue>,
    pub position: usize,
    pub stopped: bool,
}

impl LockfileContentsMessage {
    /// Creates a decoder over a stream of values, at its start.
    pub fn parse_stream(input: Vec<JsonValue>) -> (r: MessageIter)
        ensures
            r.input@ == input@,
            r.position == 0,
            !r.stopped,
    {
        MessageIter { input, position: 0, stopped: false }
    }
}

impl MessageIter {
    /// The next record, or the error of the value that holds none; nothing
    /// once the stream is used up or an error was reported.
    pub fn next(&mut self) -> (r: Option<Result<LockfileContentsMessage, DecodeError>>)
        ensures
            final(self).input@ == old(self).input@,
            old(self).stopped || old(self).position >= old(self).input@.len() ==> {
                &&& r is None
                &&& final(self).position == old(self).position
                &&& final(self).stopped == old(self).stopped
            },
            !old(self).stopped && old(self).position < old(self).input@.len() ==> {
                &&& final(self).position == old(self).position + 1
                &&& match decoded(old(self).input@[old(self).position as int]) {
                    Ok(m) => r == Some(Ok::<_, DecodeError>(m)) && !final(self).stopped,
                    Err(k) => r == Some(
                        Err::<LockfileContentsMessage, _>(
                            DecodeError { position: old(self).position, kind: k },
                        ),
                    ) && final(self).stopped,
                }
            },
    {
        if self.stopped || self.position >= self.input.len() {
            return None;
        }
        let at = self.position;
        let r = LockfileContentsMessage::from_json(&self.input[at]);
        self.position = at + 1;
        match r {
            Ok(m) => Some(Ok(m)),
            Err(kind) => {
                self.stopped = true;
                Some(Err(DecodeError { position: at, kind }))
            },
        }
    }
}

/// Decodes a whole stream: the records before the first value that holds
/// none, and that value's error if there is one.
pub fn decode_all(input: Vec<JsonValue>) -> (r: (Vec<LockfileContentsMessage>, Option<DecodeError>))
    ensures
        forall|i: int| 0 <= i < r.0@.len() ==> decoded(input@[i]) == Ok::<_, DecodeErrorKind>(r.0@[i]),
        match first_failure(input@, 0) {
            Some(k) => r.0@.len() == k && r.1 == Some(
                DecodeError { position: k as usize, kind: decoded(input@[k as int])->Err_0 },
            ),
            None => r.0@.len() == input@.len() && r.1 is None,
        },
{
    let ghost values = input@;
    let mut it = LockfileContentsMessage::parse_stream(input);
    let mut out: Vec<LockfileContentsMessage> = Vec::new();
    loop
        invariant
            it.input@ == values,
            values == input@,
            !it.stopped,
            it.position <= values.len(),
            out@.len() == it.position,
            forall|i: int| 0 <= i < out@.len() ==> decoded(values[i]) == Ok::<_, DecodeErrorKind>(out@[i]),
            first_failure(values, 0) == first_failure(values, it.position as nat),
        decreases values.len() - it.position,
    {
        let ghost at = it.position;
        match it.next() {
            None => {
                return (out, None);
            },
            Some(Ok(m)) => {
                out.push(m);
            },
            Some(Err(e)) => {
                return (out, Some(e));
            },
        }
        assert(at < values.len());
    }
}

/// With the first malformed value at position `k` (from 0), the stream yields
/// exactly the `k` records before it and then that value's error.
pub proof fn lemma_stops_at_first_malformed(values: Seq<JsonValue>, k: nat)
    requires
        k < values.len(),
        decoded(values[k as int]) is Err,
        forall|j: int| 0 <= j < k ==> #[trigger] decoded(values[j]) is Ok,
    ensures
        first_failure(values, 0) == Some(k),
{
    lemma_first_failure_from(values, 0, k);
}

proof fn lemma_first_failure_from(values: Seq<JsonValue>, i: nat, k: nat)
    requires
        i <= k < values.len(),
        decoded(values[k as int]) is Err,
        forall|j: int| 0 <= j < k ==> #[trigger] decoded(values[j]) is Ok,
    ensures
        first_failure(values, i) == Some(k),
    decreases k - i,
{
    if i < k {
        assert(decoded(values[i as int]) is Ok);
        lemma_first_failure_from(values, i + 1, k);
    }
}

} // verus!
