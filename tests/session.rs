use vigil::command::{Command, CommandResult, ControllerMessage, Device, DeviceState};
use vigil::controller::{Action, Controller, Frame, Phase, SyncMessage, CLIENT_TIMEOUT_MS, HEARTBEAT_INTERVAL_MS};
use vigil::node::{Dispatch, NodeManager};

fn session(now: u64) -> Controller {
    Controller::new(77, Some("10.0.0.5".to_string()), now).expect("address given")
}

#[test]
fn timing_constants() {
    assert_eq!(HEARTBEAT_INTERVAL_MS, 5000);
    assert_eq!(CLIENT_TIMEOUT_MS, 10000);
}

#[test]
fn session_without_address_is_refused() {
    match Controller::new(1, None, 0) {
        Err(e) => assert_eq!(e, "WebSocket connection without remote address"),
        Ok(_) => panic!("expected a refusal"),
    }
}

#[test]
fn new_session_is_connected() {
    let mut c = session(1000);
    assert_eq!(c.remote_addr(), "10.0.0.5");
    assert_eq!(c.phase(), Phase::Connected);
    assert_eq!(c.session_id(), 77);
    let id = c.started();
    assert_eq!(id, 77);
}

#[test]
fn ping_frame_is_answered_and_resets_heartbeat() {
    let mut c = session(0);
    match c.handle_frame(Frame::Ping(vec![1, 2]), 9000) {
        Action::SendPong(p) => assert_eq!(p, vec![1, 2]),
        _ => panic!("expected a pong"),
    }
    assert!(matches!(c.heartbeat(18000), Action::SendPing));
    assert!(matches!(c.heartbeat(19001), Action::Shutdown { send_close: false }));
}

#[test]
fn pong_frame_resets_heartbeat() {
    let mut c = session(0);
    assert!(matches!(c.handle_frame(Frame::Pong, 6000), Action::Nothing));
    assert!(matches!(c.heartbeat(16000), Action::SendPing));
}

#[test]
fn silent_peer_is_dropped_after_timeout() {
    let mut c = session(1000);
    assert!(matches!(c.heartbeat(6000), Action::SendPing));
    assert!(matches!(c.heartbeat(11000), Action::SendPing));
    assert!(matches!(c.heartbeat(11001), Action::Shutdown { send_close: false }));
    assert_eq!(c.phase(), Phase::Closing);
    assert!(matches!(c.heartbeat(16001), Action::Shutdown { send_close: false }));
}

#[test]
fn undecodable_text_gets_unsolicited_error() {
    let mut c = session(0);
    match c.handle_frame(Frame::Text(None), 10) {
        Action::Send(m) => {
            assert_eq!(m.id, None);
            match m.result {
                CommandResult::Error(e) => assert_eq!(e, "Internal processing error"),
                other => panic!("expected an error, got {:?}", other),
            }
        }
        _ => panic!("expected a message"),
    }
    assert_eq!(c.phase(), Phase::Connected);
}

#[test]
fn close_frame_shuts_down_without_close_reply() {
    let mut c = session(0);
    assert!(matches!(c.handle_frame(Frame::Close, 10), Action::Shutdown { send_close: false }));
    assert_eq!(c.phase(), Phase::Closing);
    assert!(matches!(c.handle_frame(Frame::Binary, 20), Action::Nothing));
    assert!(matches!(c.handle_frame(Frame::Text(None), 20), Action::Nothing));
}

#[test]
fn closing_session_still_answers_pings() {
    let mut c = session(0);
    c.handle_frame(Frame::Close, 10);
    match c.handle_frame(Frame::Ping(vec![9]), 4000) {
        Action::SendPong(p) => assert_eq!(p, vec![9]),
        _ => panic!("expected a pong"),
    }
    assert!(matches!(c.heartbeat(14000), Action::Nothing));
    assert!(matches!(c.heartbeat(14001), Action::Shutdown { send_close: false }));
    assert_eq!(c.phase(), Phase::Closing);
}

#[test]
fn transport_error_shuts_down_with_close() {
    let mut c = session(0);
    assert!(matches!(c.handle_frame(Frame::TransportError, 10), Action::Shutdown { send_close: true }));
    assert_eq!(c.phase(), Phase::Closing);
}

#[test]
fn binary_and_continuation_are_ignored() {
    let mut c = session(0);
    assert!(matches!(c.handle_frame(Frame::Binary, 10), Action::Nothing));
    assert!(matches!(c.handle_frame(Frame::Continuation, 10), Action::Nothing));
    assert!(matches!(c.handle_frame(Frame::Nop, 10), Action::Nothing));
    assert_eq!(c.phase(), Phase::Connected);
}

#[test]
fn dispatch_failure_names_request() {
    let c = session(0);
    let m = c.dispatch_failed("7".to_string(), "Mailbox has closed");
    assert_eq!(m.id, Some("7".to_string()));
    match m.result {
        CommandResult::Error(e) => assert_eq!(e, "internal server error: Mailbox has closed"),
        other => panic!("expected an error, got {:?}", other),
    }
}

#[test]
fn sync_is_sent_unsolicited() {
    let c = session(0);
    let d = Device { id: 3, device_num: 0, state: DeviceState::Paused };
    let m = c.handle_sync(SyncMessage { devices: vec![d] });
    assert_eq!(m.id, None);
    match m.result {
        CommandResult::Sync(v) => assert_eq!(v, vec![d]),
        other => panic!("expected a snapshot, got {:?}", other),
    }
}

#[test]
fn session_is_deregistered_once() {
    let mut c = session(0);
    c.started();
    assert!(c.stopped());
    assert_eq!(c.phase(), Phase::Terminated);
    assert!(!c.stopped());
}

#[test]
fn unstarted_session_needs_no_deregistration() {
    let mut c = session(0);
    assert!(!c.stopped());
}

#[test]
fn ping_then_unknown_start_scenario() {
    let mut manager: NodeManager<(), u128> = NodeManager::new();
    let sid = manager.claim_session_id(77).expect("no session yet");
    let mut c = Controller::new(sid, Some("10.0.0.5".to_string()), 0).expect("address given");
    let sid = c.started();
    manager.register_session(sid, sid);

    let ping = ControllerMessage { id: "1".to_string(), command: Command::Ping {} };
    let (id, command) = match c.handle_frame(Frame::Text(Some(ping)), 5) {
        Action::Forward(id, command) => (id, command),
        _ => panic!("expected a forward"),
    };
    let result = match manager.handle_command(command) {
        Dispatch::Reply(r) => r,
        _ => panic!("expected a reply"),
    };
    let m = c.reply(id, result);
    assert_eq!(m.id, Some("1".to_string()));
    assert!(matches!(m.result, CommandResult::Pong));

    let unknown: u128 = 0x9b2c1a3e4f5d6c7b8a9e0f1d2c3b4a59;
    let start = ControllerMessage { id: "2".to_string(), command: Command::Start { device_id: unknown } };
    let (id, command) = match c.handle_frame(Frame::Text(Some(start)), 6) {
        Action::Forward(id, command) => (id, command),
        _ => panic!("expected a forward"),
    };
    let result = match manager.handle_command(command) {
        Dispatch::Reply(r) => r,
        _ => panic!("expected a reply"),
    };
    let m = c.reply(id, result);
    assert_eq!(m.id, Some("2".to_string()));
    match m.result {
        CommandResult::Error(e) => {
            assert_eq!(e, "no node with id 9b2c1a3e-4f5d-6c7b-8a9e-0f1d2c3b4a59")
        }
        other => panic!("expected an error, got {:?}", other),
    }
}
