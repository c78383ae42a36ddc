//! The rule by which the webhook endpoint takes in a request.

use vstd::prelude::*;

verus! {

/// The address on which the endpoint listens.
pub const BIND_ADDRESS: &'static str = "0.0.0.0:8190";

/// The largest payload that is taken in, in bytes: 256 KiB.
pub const MAX_SIZE: usize = 262_144;

/// The total after a further chunk of the payload, where it stays within the limit.
pub open spec fn grown(received: int, chunk: int) -> Option<int> {
    if received + chunk > 262_144 {
        None
    } else {
        Some(received + chunk)
    }
}

/// Adds a chunk to what was received of a payload; nothing where the payload would
/// grow beyond the limit.
pub fn receive(received: usize, chunk: usize) -> (total: Option<usize>)
    ensures
        match total {
            Some(total) => grown(received as int, chunk as int) == Some(total as int),
            None => grown(received as int, chunk as int) is None,
        },
{
    if received > MAX_SIZE || chunk > MAX_SIZE - received {
        None
    } else {
        Some(received + chunk)
    }
}

/// Whether a request is accepted: it names its event in `X-Gitlab-Event`, and its
/// payload is within the limit.
pub fn accepts(has_event_header: bool, payload_len: usize) -> (accepted: bool)
    ensures
        accepted == (has_event_header && payload_len <= 262_144),
{
    has_event_header && payload_len <= MAX_SIZE
}

} // verus!
