//! Protocol commands exchanged between peers for discovery.
//!
//! These are structural descriptors; wire encoding and decoding live with
//! the caller's transport layer.

use vstd::prelude::*;

verus! {

/// A command descriptor handed to the transport layer for transmission.
#[derive(Debug)]
pub enum ProtocolCommand {
    /// A discovery probe: the advertised target datagram size, a single-use
    /// token, and a random payload sized so the encoded datagram comes out
    /// near the target size.
    PMTUProbe { size: u16, token: u32, payload: Vec<u8> },
    /// The answer to a probe, echoing its advertised size and token.
    PMTUReply { size: u16, token: u32 },
}

} // verus!
