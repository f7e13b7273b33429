//! Protocol engine for a livestream room feed: binary packet framing,
//! nested decompression, operation dispatch, room-event decoding, and the
//! session state machine that drives handshake, heartbeat and polling.

use vstd::prelude::*;

pub mod codec;
pub mod depack;
pub mod dispatch;
pub mod json;
pub mod message;
pub mod session;

verus! {

/// Errors raised while handling one inbound frame. Each discards exactly one
/// frame or entry; none of them ends the session.
#[derive(Debug, Clone, PartialEq, Eq, Structural)]
pub enum PacketError {
    /// The buffer does not hold a well-formed frame, or a compressed
    /// sub-stream nests beyond one level.
    FrameError,
    /// A compressed body could not be decompressed.
    DecompressionError,
    /// A body that should carry a known value has the wrong shape.
    DeserializeError,
    /// The header's operation code is outside the known set.
    UnsupportedOperation,
}

} // verus!
