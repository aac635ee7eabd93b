//! The inbound message model: a decoded protocol message reduced to the
//! plain values the core logic reads. The transport layer decodes wire
//! frames into this closed set of variants before handing them in.

use vstd::prelude::*;

verus! {

/// A decoded inbound message from the remote peer.
#[derive(Debug, PartialEq, Eq)]
pub enum InboundMessage {
    /// A periodic liveness signal from the remote peer.
    Heartbeat,
    /// An acknowledgement of a previously sent command: the numeric code of
    /// the command it answers, and the peer's result code.
    CommandAck { command_code: u16, result_code: u8 },
    /// A free-form status report with its severity level.
    StatusText { severity: u8, text: String },
    /// Any other message, identified by its protocol message id.
    Other { message_id: u32 },
}

/// What one turn of the receiver pump's read loop observed on the link:
/// either a decoded message or a transport-level receive failure.
#[derive(Debug, PartialEq, Eq)]
pub enum RecvOutcome {
    /// A message was decoded successfully.
    Message(InboundMessage),
    /// The read failed; the diagnostic is forwarded, the link is kept.
    RecvError { detail: String },
}

} // verus!
