//! The command dispatcher: the per-request state machine that sends one
//! command and decides how the attempt ends.
//!
//! A request moves through the phases
//! `AwaitingHeartbeat -> SendInFlight -> AwaitingAck -> Finished`.
//! Resolution of the command code and the connection gate happen in
//! [`Dispatcher::start`], before any network interaction. The caller then
//! drives the machine with [`Dispatcher::step`], handing in what it observed
//! — an inbound message, the outcome of the requested write, or the mere
//! passage of time — together with the current time in milliseconds, and
//! performs whatever action the step returns.
//!
//! Policy decisions encoded here:
//! - The heartbeat gate is advisory: when no heartbeat arrives within its
//!   bound, the dispatcher proceeds to send anyway.
//! - Acknowledgements are correlated on the command code: an ack for a
//!   different command is ignored and the wait goes on, with its deadline
//!   unchanged.
//! - One attempt per request: the command is sent once, with the
//!   confirmation counter fixed at zero, and never resent on timeout.

use vstd::prelude::*;

use mavlink::dialects::common::MavCmd;

use crate::command_table::{cmd_for_code, known_code, get_command_from_id};
use crate::connection::ConnectionManager;
use crate::messages::InboundMessage;

verus! {

/// How long the advisory heartbeat gate waits before sending anyway.
pub const HEARTBEAT_WAIT_MS: u64 = 5000;

/// How long the dispatcher waits for a matching acknowledgement.
pub const ACK_WAIT_MS: u64 = 15000;

/// One command request: addressing, the external numeric command code, and
/// the seven protocol parameters carried as IEEE-754 bit patterns. The
/// transport layer converts them to wire floats unchanged, bit for bit.
#[derive(Debug, Clone, Copy, PartialEq, Eq, Structural)]
pub struct CommandRequest {
    pub target_system: u8,
    pub target_component: u8,
    pub command_code: u16,
    pub param1: u32,
    pub param2: u32,
    pub param3: u32,
    pub param4: u32,
    pub param5: u32,
    pub param6: u32,
    pub param7: u32,
}

/// The outbound command message, ready for the transport layer to encode:
/// the resolved typed command, the addressing and parameters of the request,
/// and the confirmation counter fixed at zero (first and only attempt).
#[derive(Debug, Clone, Copy)]
pub struct CommandLong {
    pub target_system: u8,
    pub target_component: u8,
    pub command: MavCmd,
    pub confirmation: u8,
    pub param1: u32,
    pub param2: u32,
    pub param3: u32,
    pub param4: u32,
    pub param5: u32,
    pub param6: u32,
    pub param7: u32,
}

/// The acknowledgement payload returned on success.
#[derive(Debug, Clone, Copy, PartialEq, Eq, Structural)]
pub struct AckPayload {
    /// The numeric code of the command this ack answers.
    pub command_code: u16,
    /// The peer's result code for the command.
    pub result_code: u8,
}

/// How a command request can fail.
#[derive(Debug, PartialEq, Eq)]
pub enum CommandError {
    /// No connection is open; nothing was attempted.
    NotConnected,
    /// The command code is outside the known set; nothing was sent.
    InvalidCommand,
    /// The write to the connection failed; the connection is left open.
    SendFailed { detail: String },
    /// No matching acknowledgement arrived within the bound; the connection
    /// is left open.
    AckTimeout,
}

/// The phase a request is in.
#[derive(Debug, Clone, Copy, PartialEq, Eq, Structural)]
pub enum Phase {
    /// Waiting for a liveness heartbeat, until one arrives or the advisory
    /// bound elapses.
    AwaitingHeartbeat,
    /// The send action has been handed to the caller; its outcome has not
    /// come back yet.
    SendInFlight,
    /// The command is on the wire; waiting for a matching acknowledgement.
    AwaitingAck,
    /// The request is over; the outcome has been returned.
    Finished,
}

/// What the caller observed and hands to the next step.
#[derive(Debug, PartialEq, Eq)]
pub enum DispatchEvent {
    /// An inbound message observed on the link.
    Inbound(InboundMessage),
    /// The outcome of the write the dispatcher asked for.
    SendResult { outcome: Result<(), String> },
    /// Nothing observed; time has passed.
    Tick,
}

/// What the caller must do after a step.
#[derive(Debug)]
pub enum DispatchAction {
    /// Nothing yet: keep observing and step again.
    Wait,
    /// Write this message to the connection and report the outcome with a
    /// `SendResult` event.
    Send(CommandLong),
    /// The request is over with this outcome.
    Finish(Result<AckPayload, CommandError>),
}

/// The state of one command request.
#[derive(Debug, Clone, Copy)]
pub struct Dispatcher {
    /// The request being dispatched.
    pub req: CommandRequest,
    /// The typed command the table resolved for `req.command_code`.
    pub command: MavCmd,
    /// When the advisory heartbeat gate gives up (milliseconds).
    pub wait_deadline: u64,
    /// When the acknowledgement wait gives up (milliseconds); set when the
    /// send completes.
    pub ack_deadline: u64,
    /// The phase the request is in.
    pub phase: Phase,
}

/// Addition on the millisecond timeline that cannot wrap: a deadline
/// saturates at the top of the range instead of overflowing.
pub open spec fn sat_add(a: u64, b: u64) -> u64 {
    if a + b > u64::MAX {
        u64::MAX
    } else {
        (a + b) as u64
    }
}

fn saturating_add_ms(a: u64, b: u64) -> (r: u64)
    ensures
        r == sat_add(a, b),
{
    if a <= u64::MAX - b {
        a + b
    } else {
        u64::MAX
    }
}

/// The message a dispatcher sends: the request's addressing and parameters,
/// the resolved command, confirmation fixed at zero.
pub open spec fn command_message_spec(d: Dispatcher) -> CommandLong {
    CommandLong {
        target_system: d.req.target_system,
        target_component: d.req.target_component,
        command: d.command,
        confirmation: 0,
        param1: d.req.param1,
        param2: d.req.param2,
        param3: d.req.param3,
        param4: d.req.param4,
        param5: d.req.param5,
        param6: d.req.param6,
        param7: d.req.param7,
    }
}

/// The acknowledgement in `event` that answers this dispatcher's command,
/// if the event carries one. An ack for any other command does not count.
pub open spec fn matching_ack(d: Dispatcher, event: DispatchEvent) -> Option<AckPayload> {
    match event {
        DispatchEvent::Inbound(InboundMessage::CommandAck { command_code, result_code }) => {
            if command_code == d.req.command_code {
                Some(AckPayload { command_code, result_code })
            } else {
                None
            }
        }
        _ => None,
    }
}

/// The transition rule of the state machine: from a state, the time, and an
/// observed event to the next state and the caller's action.
///
/// - In `AwaitingHeartbeat`, a heartbeat — or the liveness wait's deadline passing —
///   moves to `SendInFlight` and asks the caller to write the command; the
///   gate is advisory, never a precondition. Everything else waits.
/// - In `SendInFlight`, a successful write starts the acknowledgement wait,
///   with its deadline measured from the completion of the write; a failed
///   write ends the request with `SendFailed`.
/// - In `AwaitingAck`, an acknowledgement carrying this request's command
///   code ends the request successfully, even when it arrives together with
///   the deadline; otherwise the deadline passing ends it with `AckTimeout`;
///   any other message — status text, heartbeats, acks of other commands —
///   leaves the state, and the deadline, unchanged.
/// - A finished dispatcher stays finished and asks for nothing.
pub open spec fn step_spec(pre: Dispatcher, now_ms: u64, event: DispatchEvent) -> (Dispatcher, DispatchAction) {
    match pre.phase {
        Phase::AwaitingHeartbeat => {
            if event matches DispatchEvent::Inbound(InboundMessage::Heartbeat) || now_ms >= pre.wait_deadline {
                (
                    (Dispatcher { phase: Phase::SendInFlight, ..pre }),
                    DispatchAction::Send(command_message_spec(pre)),
                )
            } else {
                (pre, DispatchAction::Wait)
            }
        }
        Phase::SendInFlight => {
            match event {
                DispatchEvent::SendResult { outcome } => {
                    match outcome {
                        Ok(_) => (
                            (Dispatcher {
                                phase: Phase::AwaitingAck,
                                ack_deadline: sat_add(now_ms, ACK_WAIT_MS),
                                ..pre
                            }),
                            DispatchAction::Wait,
                        ),
                        Err(detail) => (
                            (Dispatcher { phase: Phase::Finished, ..pre }),
                            DispatchAction::Finish(Err(CommandError::SendFailed { detail })),
                        ),
                    }
                }
                _ => (pre, DispatchAction::Wait),
            }
        }
        Phase::AwaitingAck => {
            match matching_ack(pre, event) {
                Some(payload) => (
                    (Dispatcher { phase: Phase::Finished, ..pre }),
                    DispatchAction::Finish(Ok(payload)),
                ),
                None => {
                    if now_ms >= pre.ack_deadline {
                        (
                            (Dispatcher { phase: Phase::Finished, ..pre }),
                            DispatchAction::Finish(Err(CommandError::AckTimeout)),
                        )
                    } else {
                        (pre, DispatchAction::Wait)
                    }
                }
            }
        }
        Phase::Finished => (pre, DispatchAction::Wait),
    }
}

impl Dispatcher {
    /// Begin one command request, failing fast before any network
    /// interaction: with no connection open the request is `NotConnected`
    /// (no heartbeat wait, no send); with a command code outside the known
    /// set it is `InvalidCommand` (nothing reaches the wire). Otherwise the
    /// machine starts in the heartbeat gate, whose deadline is `now_ms`
    /// plus the advisory bound — or `now_ms` itself when the caller skips
    /// that wait, so the first step sends at once.
    pub fn start(mgr: &ConnectionManager, req: CommandRequest, wait_for_heartbeat: bool, now_ms: u64)
        -> (r: Result<Dispatcher, CommandError>)
        ensures
            mgr.target is None ==> r == Err::<Dispatcher, CommandError>(CommandError::NotConnected),
            mgr.target is Some && !known_code(req.command_code)
                ==> r == Err::<Dispatcher, CommandError>(CommandError::InvalidCommand),
            mgr.target is Some && known_code(req.command_code) ==> (r matches Ok(d) && {
                &&& d.req == req
                &&& cmd_for_code(req.command_code) == Some(d.command)
                &&& d.phase is AwaitingHeartbeat
                &&& d.wait_deadline == (if wait_for_heartbeat { sat_add(now_ms, HEARTBEAT_WAIT_MS) } else { now_ms })
                &&& d.ack_deadline == 0
            }),
    {
        if !mgr.is_connected() {
            return Err(CommandError::NotConnected);
        }
        match get_command_from_id(req.command_code) {
            None => Err(CommandError::InvalidCommand),
            Some(command) => {
                let wait_deadline = if wait_for_heartbeat {
                    saturating_add_ms(now_ms, HEARTBEAT_WAIT_MS)
                } else {
                    now_ms
                };
                Ok(Dispatcher {
                    req,
                    command,
                    wait_deadline,
                    ack_deadline: 0,
                    phase: Phase::AwaitingHeartbeat,
                })
            }
        }
    }

    /// The message this dispatcher sends.
    fn command_message(&self) -> (m: CommandLong)
        ensures
            m == command_message_spec(*self),
    {
        CommandLong {
            target_system: self.req.target_system,
            target_component: self.req.target_component,
            command: self.command,
            confirmation: 0,
            param1: self.req.param1,
            param2: self.req.param2,
            param3: self.req.param3,
            param4: self.req.param4,
            param5: self.req.param5,
            param6: self.req.param6,
            param7: self.req.param7,
        }
    }

    /// Advance the state machine by one observed event at time `now_ms`,
    /// exactly as [`step_spec`] describes.
    pub fn step(&mut self, now_ms: u64, event: DispatchEvent) -> (a: DispatchAction)
        ensures
            *final(self) == step_spec(*old(self), now_ms, event).0,
            a == step_spec(*old(self), now_ms, event).1,
    {
        match self.phase {
            Phase::AwaitingHeartbeat => {
                let heartbeat_seen = matches!(event, DispatchEvent::Inbound(InboundMessage::Heartbeat));
                if heartbeat_seen || now_ms >= self.wait_deadline {
                    self.phase = Phase::SendInFlight;
                    DispatchAction::Send(self.command_message())
                } else {
                    DispatchAction::Wait
                }
            }
            Phase::SendInFlight => {
                match event {
                    DispatchEvent::SendResult { outcome } => {
                        match outcome {
                            Ok(()) => {
                                self.ack_deadline = saturating_add_ms(now_ms, ACK_WAIT_MS);
                                self.phase = Phase::AwaitingAck;
                                DispatchAction::Wait
                            }
                            Err(detail) => {
                                self.phase = Phase::Finished;
                                DispatchAction::Finish(Err(CommandError::SendFailed { detail }))
                            }
                        }
                    }
                    _ => DispatchAction::Wait,
                }
            }
            Phase::AwaitingAck => {
                let mut matched: Option<AckPayload> = None;
                if let DispatchEvent::Inbound(InboundMessage::CommandAck { command_code, result_code }) = event {
                    if command_code == self.req.command_code {
                        matched = Some(AckPayload { command_code, result_code });
                    }
                }
                match matched {
                    Some(payload) => {
                        self.phase = Phase::Finished;
                        DispatchAction::Finish(Ok(payload))
                    }
                    None => {
                        if now_ms >= self.ack_deadline {
                            self.phase = Phase::Finished;
                            DispatchAction::Finish(Err(CommandError::AckTimeout))
                        } else {
                            DispatchAction::Wait
                        }
                    }
                }
            }
            Phase::Finished => DispatchAction::Wait,
        }
    }
}

/// Position of a phase in the request's life: phases only ever advance.
pub open spec fn phase_rank(p: Phase) -> int {
    match p {
        Phase::AwaitingHeartbeat => 0,
        Phase::SendInFlight => 1,
        Phase::AwaitingAck => 2,
        Phase::Finished => 3,
    }
}

/// One attempt per request: a step hands out a send only from the heartbeat
/// wait, leaves that wait the moment it does, and phases never move
/// backwards — so no run of the machine sends the command twice.
pub proof fn lemma_sends_at_most_once(pre: Dispatcher, now_ms: u64, event: DispatchEvent)
    ensures
        step_spec(pre, now_ms, event).1 is Send ==> pre.phase is AwaitingHeartbeat
            && step_spec(pre, now_ms, event).0.phase is SendInFlight,
        phase_rank(step_spec(pre, now_ms, event).0.phase) >= phase_rank(pre.phase),
{
}

/// Exact round trip through the command table: whatever message a step
/// hands out carries the very command the table resolves for the request's
/// code — no code is ever silently substituted — along with the request's
/// addressing and parameters unchanged, and the confirmation counter at
/// zero. The hypothesis on `pre.command` is what [`Dispatcher::start`]
/// establishes for every dispatcher it returns.
pub proof fn lemma_dispatched_command_matches_table(pre: Dispatcher, now_ms: u64, event: DispatchEvent)
    ensures
        cmd_for_code(pre.req.command_code) == Some(pre.command)
            ==> (step_spec(pre, now_ms, event).1 matches DispatchAction::Send(m) ==> {
            &&& cmd_for_code(pre.req.command_code) == Some(m.command)
            &&& m.confirmation == 0
            &&& m.target_system == pre.req.target_system
            &&& m.target_component == pre.req.target_component
            &&& m.param1 == pre.req.param1
            &&& m.param2 == pre.req.param2
            &&& m.param3 == pre.req.param3
            &&& m.param4 == pre.req.param4
            &&& m.param5 == pre.req.param5
            &&& m.param6 == pre.req.param6
            &&& m.param7 == pre.req.param7
        }),
{
}

/// Progress is immediate when the awaited signal arrives: a heartbeat ends
/// the liveness wait on the spot, however far its deadline still is — a
/// prompt peer never costs the full bound.
pub proof fn lemma_heartbeat_opens_the_wait_at_once(pre: Dispatcher, now_ms: u64)
    ensures
        pre.phase is AwaitingHeartbeat
            ==> step_spec(pre, now_ms, DispatchEvent::Inbound(InboundMessage::Heartbeat)).1 is Send,
{
}

/// The heartbeat gate is advisory, not a precondition: once its deadline
/// has passed, the very next step proceeds to send, whatever was — or was
/// not — observed.
pub proof fn lemma_heartbeat_absence_is_advisory(pre: Dispatcher, now_ms: u64, event: DispatchEvent)
    ensures
        pre.phase is AwaitingHeartbeat && now_ms >= pre.wait_deadline
            ==> step_spec(pre, now_ms, event).1 is Send,
{
}

/// During the acknowledgement wait, status text — and every other message
/// that is not an acknowledgement of this request's command — neither
/// satisfies the wait nor extends it: the state, deadline included, is left
/// exactly as it was, and the caller keeps waiting.
pub proof fn lemma_unrelated_traffic_leaves_ack_wait_unchanged(pre: Dispatcher, now_ms: u64, event: DispatchEvent)
    ensures
        (pre.phase is AwaitingAck && now_ms < pre.ack_deadline
            && matching_ack(pre, event) is None) ==> {
            &&& step_spec(pre, now_ms, event).0 == pre
            &&& step_spec(pre, now_ms, event).1 is Wait
        },
{
}

/// The acknowledgement wait is bounded exactly: with no matching ack in the
/// event, a step during the wait times out precisely when the deadline has
/// been reached — never before, and at the first opportunity after. The
/// deadline itself is the completion of the send plus the configured bound,
/// as the transition out of `SendInFlight` states.
pub proof fn lemma_ack_timeout_is_exact(pre: Dispatcher, now_ms: u64, event: DispatchEvent)
    ensures
        (pre.phase is AwaitingAck && matching_ack(pre, event) is None) ==> {
            &&& (now_ms >= pre.ack_deadline
                <==> step_spec(pre, now_ms, event).1
                    == DispatchAction::Finish(Err::<AckPayload, CommandError>(CommandError::AckTimeout)))
            &&& (now_ms < pre.ack_deadline ==> step_spec(pre, now_ms, event).1 is Wait)
        },
{
}

/// An acknowledgement that answers this request's command ends the wait at
/// once with that very payload: success carries the peer's result code
/// unaltered, and no timeout can race past a matching ack handed to the
/// same step.
pub proof fn lemma_matching_ack_succeeds(pre: Dispatcher, now_ms: u64, event: DispatchEvent)
    ensures
        pre.phase is AwaitingAck ==> (matching_ack(pre, event) matches Some(payload) ==> {
            &&& payload.command_code == pre.req.command_code
            &&& step_spec(pre, now_ms, event).1
                == DispatchAction::Finish(Ok::<AckPayload, CommandError>(payload))
            &&& step_spec(pre, now_ms, event).0.phase is Finished
        }),
{
}

/// How many write requests the machine hands out over a whole run: the
/// dispatcher is stepped once per entry of `events`, each entry being the
/// time of the observation and what was observed.
pub open spec fn sends_in_run(pre: Dispatcher, events: Seq<(u64, DispatchEvent)>) -> nat
    decreases events.len(),
{
    if events.len() == 0 {
        0
    } else {
        let stepped = step_spec(pre, events[0].0, events[0].1);
        (if stepped.1 is Send {
            1nat
        } else {
            0nat
        }) + sends_in_run(stepped.0, events.drop_first())
    }
}

/// Once the liveness wait is behind it, a dispatcher never asks for another
/// write, whatever it observes from then on.
pub proof fn lemma_no_send_past_the_heartbeat_phase(pre: Dispatcher, events: Seq<(u64, DispatchEvent)>)
    requires
        !(pre.phase is AwaitingHeartbeat),
    ensures
        sends_in_run(pre, events) == 0,
    decreases events.len(),
{
    if events.len() > 0 {
        lemma_sends_at_most_once(pre, events[0].0, events[0].1);
        lemma_no_send_past_the_heartbeat_phase(
            step_spec(pre, events[0].0, events[0].1).0,
            events.drop_first(),
        );
    }
}

/// One attempt per request, over any run whatsoever: however the machine is
/// stepped — whatever arrives, in whatever order, at whatever times — it
/// asks for the command to be written at most once. There is no resend on
/// timeout; the protocol's confirmation-increment retry convention is
/// deliberately not used.
pub proof fn lemma_whole_run_sends_at_most_once(pre: Dispatcher, events: Seq<(u64, DispatchEvent)>)
    ensures
        sends_in_run(pre, events) <= 1,
    decreases events.len(),
{
    if events.len() > 0 {
        let stepped = step_spec(pre, events[0].0, events[0].1);
        lemma_sends_at_most_once(pre, events[0].0, events[0].1);
        if stepped.1 is Send {
            lemma_no_send_past_the_heartbeat_phase(stepped.0, events.drop_first());
        } else {
            lemma_whole_run_sends_at_most_once(stepped.0, events.drop_first());
        }
    }
}

} // verus!
