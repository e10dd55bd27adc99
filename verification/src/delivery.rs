//! Delivery strategies for the server-sent event stream.

use vstd::prelude::*;

verus! {

/// How a handler pushes server-sent events to the client.
#[derive(Debug, Clone, Copy, PartialEq, Eq, Structural)]
pub enum DeliveryMode {
    /// Push each event as soon as it arrives.
    Live,
    /// Hold every event until the stream ends, then push them together
    /// (once the input token count has been corrected).
    Buffered,
}

} // verus!
