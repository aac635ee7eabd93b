//! The receiver pump's classification logic. The pump is a long-running
//! loop bound to one connection: it reads the next inbound message, decides
//! which outward channel the event belongs on, and whether the message must
//! also be delivered to an in-progress acknowledgement wait. The loop itself
//! runs outside this crate; each turn hands what it observed to [`pump_step`]
//! and routes the result.

use vstd::prelude::*;

use crate::messages::{InboundMessage, RecvOutcome};

verus! {

/// The outward channel an event is forwarded on.
#[derive(Debug, Clone, Copy, PartialEq, Eq, Structural)]
pub enum SinkChannel {
    /// Human-readable status events: heartbeats, acknowledgements, status
    /// text, and receive-error diagnostics.
    Log,
    /// Raw diagnostic events for messages outside the classified set.
    Debug,
}

/// What the pump does with one observed outcome.
#[derive(Debug, Clone, Copy, PartialEq, Eq, Structural)]
pub struct PumpStep {
    /// The channel the event is forwarded on.
    pub channel: SinkChannel,
    /// Whether the message must also be made available to a dispatcher
    /// blocked in its acknowledgement wait. Acknowledgements are logically
    /// broadcast: the log view and a live waiter both observe them.
    pub deliver_to_waiter: bool,
    /// Whether the pump keeps reading. Receive errors never stop the pump;
    /// it stops only when its connection is closed or replaced.
    pub keep_running: bool,
}

/// The classification rule: heartbeats, acknowledgements and status text are
/// log events; anything else is a debug event; a receive failure is a log
/// diagnostic. Only acknowledgements reach a waiting dispatcher.
pub open spec fn pump_step_spec(outcome: RecvOutcome) -> PumpStep {
    match outcome {
        RecvOutcome::Message(m) => (PumpStep {
            channel: if m is Other { SinkChannel::Debug } else { SinkChannel::Log },
            deliver_to_waiter: m is CommandAck,
            keep_running: true,
        }),
        RecvOutcome::RecvError { .. } => (PumpStep {
            channel: SinkChannel::Log,
            deliver_to_waiter: false,
            keep_running: true,
        }),
    }
}

/// Classify one observed outcome of the pump's read loop.
pub fn pump_step(outcome: &RecvOutcome) -> (s: PumpStep)
    ensures
        s == pump_step_spec(*outcome),
{
    match outcome {
        RecvOutcome::Message(m) => {
            let is_other = matches!(m, InboundMessage::Other { .. });
            let is_ack = matches!(m, InboundMessage::CommandAck { .. });
            PumpStep {
                channel: if is_other { SinkChannel::Debug } else { SinkChannel::Log },
                deliver_to_waiter: is_ack,
                keep_running: true,
            }
        }
        RecvOutcome::RecvError { .. } => PumpStep {
            channel: SinkChannel::Log,
            deliver_to_waiter: false,
            keep_running: true,
        },
    }
}

/// A receive error is forwarded as a diagnostic and never terminates the
/// pump: the remote link may recover, so the loop keeps reading.
pub proof fn lemma_recv_error_keeps_pump_alive(outcome: RecvOutcome)
    ensures
        pump_step_spec(outcome).keep_running,
{
}

/// Classify a batch of observed outcomes. Events are forwarded in exactly
/// the order their messages were received from the transport: the step at
/// each index classifies the outcome at the same index, with no reordering
/// and no loss.
pub fn classify_batch(outcomes: &Vec<RecvOutcome>) -> (steps: Vec<PumpStep>)
    ensures
        steps@.len() == outcomes@.len(),
        forall|i: int| 0 <= i < outcomes@.len() ==> steps@[i] == pump_step_spec(outcomes@[i]),
{
    let mut steps: Vec<PumpStep> = Vec::new();
    let mut i: usize = 0;
    while i < outcomes.len()
        invariant
            i <= outcomes@.len(),
            steps@.len() == i,
            forall|j: int| 0 <= j < i ==> steps@[j] == pump_step_spec(outcomes@[j]),
        decreases outcomes@.len() - i,
    {
        let s = pump_step(&outcomes[i]);
        steps.push(s);
        i = i + 1;
    }
    steps
}

} // verus!
