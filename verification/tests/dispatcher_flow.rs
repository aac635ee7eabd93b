use mavcmd::connection::ConnectionManager;
use mavcmd::dispatcher::{
    AckPayload, CommandError, CommandRequest, DispatchAction, DispatchEvent, Dispatcher, Phase,
    ACK_WAIT_MS, HEARTBEAT_WAIT_MS,
};
use mavcmd::messages::InboundMessage;
use mavlink::dialects::common::MavCmd;

fn connected_manager() -> ConnectionManager {
    let mut mgr = ConnectionManager::new();
    mgr.record_open("udpin:0.0.0.0:14550".to_string(), Ok(())).unwrap();
    mgr
}

fn takeoff_request() -> CommandRequest {
    CommandRequest {
        target_system: 1,
        target_component: 1,
        command_code: 22,
        param1: 0f32.to_bits(),
        param2: 0f32.to_bits(),
        param3: 0f32.to_bits(),
        param4: 0f32.to_bits(),
        param5: 47.5f32.to_bits(),
        param6: 8.5f32.to_bits(),
        param7: 100.0f32.to_bits(),
    }
}

#[test]
fn no_connection_fails_fast() {
    let mgr = ConnectionManager::new();
    let r = Dispatcher::start(&mgr, takeoff_request(), true, 0);
    assert_eq!(r.err(), Some(CommandError::NotConnected));
}

#[test]
fn unknown_command_code_is_rejected_before_any_io() {
    let mgr = connected_manager();
    let mut req = takeoff_request();
    req.command_code = 9999;
    let r = Dispatcher::start(&mgr, req, true, 0);
    assert_eq!(r.err(), Some(CommandError::InvalidCommand));

    req.command_code = u16::MAX;
    let r = Dispatcher::start(&mgr, req, false, 0);
    assert_eq!(r.err(), Some(CommandError::InvalidCommand));
}

#[test]
fn dispatched_message_carries_the_tables_command() {
    let mgr = connected_manager();
    let req = takeoff_request();
    let mut d = Dispatcher::start(&mgr, req, true, 0).unwrap();
    let action = d.step(120, DispatchEvent::Inbound(InboundMessage::Heartbeat));
    match action {
        DispatchAction::Send(m) => {
            assert_eq!(m.command, MavCmd::MAV_CMD_NAV_TAKEOFF);
            assert_eq!(m.confirmation, 0);
            assert_eq!(m.target_system, 1);
            assert_eq!(m.target_component, 1);
            assert_eq!(f32::from_bits(m.param5), 47.5);
            assert_eq!(f32::from_bits(m.param7), 100.0);
        }
        other => panic!("expected a send, got {:?}", other),
    }
}

#[test]
fn prompt_heartbeat_and_ack_finish_without_waiting_out_the_bounds() {
    let mgr = connected_manager();
    let mut d = Dispatcher::start(&mgr, takeoff_request(), true, 0).unwrap();

    // heartbeat after 500 ms: the liveness wait ends at once, well before its bound
    let a1 = d.step(500, DispatchEvent::Inbound(InboundMessage::Heartbeat));
    assert!(matches!(a1, DispatchAction::Send(_)));

    // the write completes 100 ms later
    let a2 = d.step(600, DispatchEvent::SendResult { outcome: Ok(()) });
    assert!(matches!(a2, DispatchAction::Wait));

    // the matching ack arrives 400 ms after the send: immediate success,
    // total elapsed time is the latencies, not the timeout bounds
    let a3 = d.step(
        1000,
        DispatchEvent::Inbound(InboundMessage::CommandAck {
            command_code: 22,
            result_code: 0,
        }),
    );
    match a3 {
        DispatchAction::Finish(Ok(payload)) => {
            assert_eq!(
                payload,
                AckPayload {
                    command_code: 22,
                    result_code: 0
                }
            );
        }
        other => panic!("expected success, got {:?}", other),
    }
    assert_eq!(d.phase, Phase::Finished);
}

#[test]
fn absent_heartbeat_is_advisory_and_send_happens_at_the_bound() {
    let mgr = connected_manager();
    let mut d = Dispatcher::start(&mgr, takeoff_request(), true, 0).unwrap();

    // nothing arrives: before the bound the dispatcher keeps waiting
    assert!(matches!(d.step(1000, DispatchEvent::Tick), DispatchAction::Wait));
    assert!(matches!(
        d.step(HEARTBEAT_WAIT_MS - 1, DispatchEvent::Tick),
        DispatchAction::Wait
    ));

    // at the bound it proceeds to send anyway
    let a = d.step(HEARTBEAT_WAIT_MS, DispatchEvent::Tick);
    assert!(matches!(a, DispatchAction::Send(_)));
}

#[test]
fn skipping_the_heartbeat_gate_sends_immediately() {
    let mgr = connected_manager();
    let mut d = Dispatcher::start(&mgr, takeoff_request(), false, 7000).unwrap();
    let a = d.step(7000, DispatchEvent::Tick);
    assert!(matches!(a, DispatchAction::Send(_)));
}

#[test]
fn no_ack_times_out_exactly_at_the_bound_and_connection_stays_usable() {
    let mgr = connected_manager();
    let mut d = Dispatcher::start(&mgr, takeoff_request(), false, 0).unwrap();
    assert!(matches!(d.step(0, DispatchEvent::Tick), DispatchAction::Send(_)));
    assert!(matches!(
        d.step(100, DispatchEvent::SendResult { outcome: Ok(()) }),
        DispatchAction::Wait
    ));

    // the ack wait is measured from the completion of the send
    let deadline = 100 + ACK_WAIT_MS;
    assert!(matches!(d.step(deadline - 1, DispatchEvent::Tick), DispatchAction::Wait));
    let a = d.step(deadline, DispatchEvent::Tick);
    assert!(matches!(
        a,
        DispatchAction::Finish(Err(CommandError::AckTimeout))
    ));

    // the timeout never tears down the connection: a new request starts fine
    assert!(mgr.is_connected());
    assert!(Dispatcher::start(&mgr, takeoff_request(), true, deadline).is_ok());
}

#[test]
fn failed_write_ends_the_request_with_send_failed() {
    let mgr = connected_manager();
    let mut d = Dispatcher::start(&mgr, takeoff_request(), false, 0).unwrap();
    assert!(matches!(d.step(0, DispatchEvent::Tick), DispatchAction::Send(_)));
    let a = d.step(
        10,
        DispatchEvent::SendResult {
            outcome: Err("broken pipe".to_string()),
        },
    );
    match a {
        DispatchAction::Finish(Err(CommandError::SendFailed { detail })) => {
            assert_eq!(detail, "broken pipe");
        }
        other => panic!("expected a send failure, got {:?}", other),
    }
    // the connection itself is left open for later attempts
    assert!(mgr.is_connected());
}

#[test]
fn unrelated_traffic_neither_satisfies_nor_extends_the_ack_wait() {
    let mgr = connected_manager();
    let mut d = Dispatcher::start(&mgr, takeoff_request(), false, 0).unwrap();
    assert!(matches!(d.step(0, DispatchEvent::Tick), DispatchAction::Send(_)));
    assert!(matches!(
        d.step(0, DispatchEvent::SendResult { outcome: Ok(()) }),
        DispatchAction::Wait
    ));
    let deadline = ACK_WAIT_MS;

    // status text, heartbeats, unclassified messages, and acks of other
    // commands are all ignored by the wait
    assert!(matches!(
        d.step(
            1000,
            DispatchEvent::Inbound(InboundMessage::StatusText {
                severity: 6,
                text: "EKF ready".to_string(),
            })
        ),
        DispatchAction::Wait
    ));
    assert!(matches!(
        d.step(2000, DispatchEvent::Inbound(InboundMessage::Heartbeat)),
        DispatchAction::Wait
    ));
    assert!(matches!(
        d.step(3000, DispatchEvent::Inbound(InboundMessage::Other { message_id: 33 })),
        DispatchAction::Wait
    ));
    assert!(matches!(
        d.step(
            4000,
            DispatchEvent::Inbound(InboundMessage::CommandAck {
                command_code: 16,
                result_code: 0,
            })
        ),
        DispatchAction::Wait
    ));

    // none of that extended the deadline...
    assert_eq!(d.ack_deadline, deadline);

    // ...and the request's own ack still succeeds, with its payload
    let a = d.step(
        5000,
        DispatchEvent::Inbound(InboundMessage::CommandAck {
            command_code: 22,
            result_code: 4,
        }),
    );
    match a {
        DispatchAction::Finish(Ok(payload)) => {
            assert_eq!(payload.command_code, 22);
            assert_eq!(payload.result_code, 4);
        }
        other => panic!("expected success, got {:?}", other),
    }
}

#[test]
fn finished_dispatcher_stays_finished() {
    let mgr = connected_manager();
    let mut d = Dispatcher::start(&mgr, takeoff_request(), false, 0).unwrap();
    assert!(matches!(d.step(0, DispatchEvent::Tick), DispatchAction::Send(_)));
    d.step(
        0,
        DispatchEvent::SendResult {
            outcome: Err("broken pipe".to_string()),
        },
    );
    assert_eq!(d.phase, Phase::Finished);
    assert!(matches!(
        d.step(0, DispatchEvent::Inbound(InboundMessage::Heartbeat)),
        DispatchAction::Wait
    ));
}
