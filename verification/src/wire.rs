//! Frames carried on the streams between two nodes.

use vstd::prelude::*;

use crate::token::SignedToken;

verus! {

/// The first frame on a new stream: which service the stream is for.
#[derive(Debug, Clone)]
pub enum StreamOpen {
    /// A message stream on the channel of the given name.
    Msg { token: SignedToken, channel: String },
}

/// One message.
#[derive(Debug, Clone)]
pub struct MessageFrame {
    /// The sequence number that the sender assigned.
    pub seq: u64,
    /// Unix epoch milliseconds at the originator.
    pub ts_ms: u64,
    /// Opaque application bytes.
    pub payload: Vec<u8>,
}

/// The acknowledgement of a message.
#[derive(Debug, Clone)]
pub struct Ack {
    pub seq: u64,
}

} // verus!
