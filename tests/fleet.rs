use vigil::command::{Command, CommandResult, Device, DeviceState};
use vigil::node::{Dispatch, NodeManager, StartOutcome, WebsocketMessage, FLEET_SIZE};

const A: u128 = 0x0123456789abcdef0123456789abcdef;
const B: u128 = 0xfedcba9876543210fedcba9876543210;
const UNKNOWN: u128 = 0x2a;

fn fleet() -> NodeManager<&'static str, u32> {
    let mut m = NodeManager::new();
    assert!(m.add_node(A, 0, "node-a"));
    assert!(m.add_node(B, 1, "node-b"));
    m
}

fn snapshot(m: &NodeManager<&'static str, u32>) -> Vec<Device> {
    match m.sync_result() {
        CommandResult::Sync(d) => d,
        other => panic!("expected a snapshot, got {:?}", other),
    }
}

fn error_text(r: &CommandResult) -> String {
    match r {
        CommandResult::Error(e) => e.clone(),
        other => panic!("expected an error, got {:?}", other),
    }
}

#[test]
fn fleet_size_is_four() {
    assert_eq!(FLEET_SIZE, 4);
}

#[test]
fn new_devices_are_ready_in_insertion_order() {
    let m = fleet();
    let d = snapshot(&m);
    assert_eq!(d.len(), 2);
    assert_eq!(d[0], Device { id: A, device_num: 0, state: DeviceState::Ready });
    assert_eq!(d[1], Device { id: B, device_num: 1, state: DeviceState::Ready });
}

#[test]
fn add_node_refuses_a_known_id() {
    let mut m = fleet();
    assert!(!m.add_node(A, 7, "again"));
    assert_eq!(m.node(A), Some(&"node-a"));
    assert_eq!(snapshot(&m)[0].device_num, 0);
}

#[test]
fn ping_is_answered_with_pong() {
    let mut m = fleet();
    assert!(matches!(m.handle_command(Command::Ping {}), Dispatch::Reply(CommandResult::Pong)));
    let mut empty: NodeManager<(), ()> = NodeManager::new();
    assert!(matches!(empty.handle_command(Command::Ping {}), Dispatch::Reply(CommandResult::Pong)));
}

#[test]
fn start_of_unknown_device_names_it() {
    let mut m = fleet();
    let before = snapshot(&m);
    match m.handle_command(Command::Start { device_id: UNKNOWN }) {
        Dispatch::Reply(r) => {
            assert_eq!(error_text(&r), "no node with id 00000000-0000-0000-0000-00000000002a")
        }
        _ => panic!("expected a reply"),
    }
    assert_eq!(snapshot(&m), before);
}

#[test]
fn stop_of_unknown_device_names_it() {
    let mut m = fleet();
    let before = snapshot(&m);
    match m.handle_command(Command::Stop { device_id: UNKNOWN }) {
        Dispatch::Reply(r) => {
            assert_eq!(error_text(&r), "no node with id 00000000-0000-0000-0000-00000000002a")
        }
        _ => panic!("expected a reply"),
    }
    assert_eq!(snapshot(&m), before);
}

#[test]
fn confirmed_start_shows_playing_in_next_sync() {
    let mut m = fleet();
    assert!(matches!(m.handle_command(Command::Start { device_id: B }), Dispatch::AskStart(id) if id == B));
    assert_eq!(snapshot(&m)[1].state, DeviceState::Ready);
    let r = m.finish_start(B, StartOutcome::Started);
    assert!(matches!(r, CommandResult::Success));
    let d = snapshot(&m);
    assert_eq!(d[1], Device { id: B, device_num: 1, state: DeviceState::Playing });
    assert_eq!(d[0].state, DeviceState::Ready);
}

#[test]
fn failed_start_reports_detail_and_keeps_state() {
    let mut m = fleet();
    let r = m.finish_start(A, StartOutcome::Failed("Failed to start mixer".to_string()));
    assert_eq!(error_text(&r), "Failed to start mixer");
    assert_eq!(snapshot(&m)[0].state, DeviceState::Ready);
}

#[test]
fn unreachable_node_gives_internal_error() {
    let mut m = fleet();
    let r = m.finish_start(A, StartOutcome::Unreachable("Mailbox has closed".to_string()));
    assert_eq!(error_text(&r), "internal server error: Mailbox has closed");
    assert_eq!(snapshot(&m)[0].state, DeviceState::Ready);
}

#[test]
fn stop_marks_idle_then_termination_removes_device() {
    let mut m = fleet();
    m.finish_start(A, StartOutcome::Started);
    match m.handle_command(Command::Stop { device_id: A }) {
        Dispatch::StopThenReply(id, r) => {
            assert_eq!(id, A);
            assert!(matches!(r, CommandResult::Success));
        }
        _ => panic!("expected a stop"),
    }
    assert_eq!(snapshot(&m)[0].state, DeviceState::Null);
    assert!(m.node_terminated(A));
    assert_eq!(m.node(A), None);
    assert_eq!(snapshot(&m), vec![Device { id: B, device_num: 1, state: DeviceState::Ready }]);
    match m.handle_command(Command::Start { device_id: A }) {
        Dispatch::Reply(r) => {
            assert_eq!(error_text(&r), "no node with id 01234567-89ab-cdef-0123-456789abcdef")
        }
        _ => panic!("expected a reply"),
    }
}

#[test]
fn termination_of_unknown_node_is_harmless() {
    let mut m = fleet();
    assert!(!m.node_terminated(UNKNOWN));
    assert_eq!(snapshot(&m).len(), 2);
}

#[test]
fn node_ids_list_live_nodes() {
    let mut m = fleet();
    assert_eq!(m.node_ids(), vec![A, B]);
    m.node_terminated(A);
    assert_eq!(m.node_ids(), vec![B]);
}

#[test]
fn registering_a_session_twice_keeps_one_entry() {
    let mut m = fleet();
    m.register_session(9, 100);
    m.register_session(9, 101);
    assert_eq!(m.session_count(), 1);
    assert_eq!(m.session_ids(), vec![9]);
    assert_eq!(m.session(9), Some(&101));
}

#[test]
fn unregistering_an_absent_session_is_a_no_op() {
    let mut m = fleet();
    m.register_session(9, 100);
    assert!(!m.unregister_session(10));
    assert_eq!(m.session_ids(), vec![9]);
    assert!(m.unregister_session(9));
    assert_eq!(m.session_count(), 0);
}

#[test]
fn websocket_messages_register_and_unregister() {
    let mut m = fleet();
    m.handle_websocket(WebsocketMessage::Connection { id: 5, addr: 50 });
    m.handle_websocket(WebsocketMessage::Connection { id: 6, addr: 60 });
    assert_eq!(m.session_ids(), vec![5, 6]);
    m.handle_websocket(WebsocketMessage::Disconect { id: 5 });
    assert_eq!(m.session_ids(), vec![6]);
    m.handle_websocket(WebsocketMessage::Disconect { id: 5 });
    assert_eq!(m.session_ids(), vec![6]);
}

#[test]
fn failed_deliveries_are_pruned() {
    let mut m = fleet();
    for id in [1u128, 2, 3] {
        m.register_session(id, id as u32);
    }
    let recipients = m.session_ids();
    assert_eq!(recipients, vec![1, 2, 3]);
    m.prune_sessions(&recipients, &vec![true, false, true]);
    assert_eq!(m.session_ids(), vec![1, 3]);
    assert_eq!(m.session(2), None);
    let next = m.session_ids();
    m.prune_sessions(&next, &vec![true, true]);
    assert_eq!(m.session_ids(), vec![1, 3]);
}

#[test]
fn fresh_device_id_is_not_in_use() {
    let m = fleet();
    if let Some(id) = m.fresh_device_id() {
        assert!(id != A && id != B);
    }
}

#[test]
fn claim_device_id_refuses_a_known_id() {
    let m = fleet();
    assert_eq!(m.claim_device_id(A), None);
    assert_eq!(m.claim_device_id(B), None);
    assert_eq!(m.claim_device_id(UNKNOWN), Some(UNKNOWN));
}

#[test]
fn claim_session_id_refuses_a_registered_id() {
    let mut m = fleet();
    assert_eq!(m.claim_session_id(9), Some(9));
    m.register_session(9, 100);
    assert_eq!(m.claim_session_id(9), None);
    assert_eq!(m.claim_session_id(A), Some(A));
    if let Some(id) = m.fresh_session_id() {
        assert!(id != 9);
    }
}
