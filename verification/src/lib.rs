//! A small file-transfer protocol library for an unreliable datagram
//! transport: a binary packet codec, per-peer transfer sessions, a session
//! registry keyed by peer address, and the block-sequenced state machine
//! that drives uploads and downloads to completion.
use vstd::prelude::*;

pub mod codec;
pub mod machine;
pub mod registry;
pub mod session;

verus! {

/// The error taxonomy: every per-peer failure is one of these, and none of
/// them may bring the process down.
#[derive(Clone, Copy, Debug, PartialEq, Eq, Structural)]
pub enum TftpError {
    /// The datagram could not be decoded into a packet.
    MalformedPacket,
    /// The requested file does not exist in the byte store.
    FileNotFound,
    /// The byte store failed while reading or writing.
    FileIOError,
    /// A packet type that is invalid for the current session state arrived.
    UnexpectedMessage,
    /// An Ack or Data block number fell outside the expected window.
    BlockMismatch,
    /// The remote peer reported an error packet.
    PeerReportedError,
    /// The retry budget for the last unacknowledged packet ran out.
    RetriesExhausted,
}

} // verus!
