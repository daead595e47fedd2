use latency_reader::messages::encode_message;
use latency_reader::messages::NetworkMessage;
use latency_reader::session::Action;
use latency_reader::session::Role;
use latency_reader::session::Session;
use latency_reader::session::UiEvent;

fn wire(m: NetworkMessage) -> Vec<u8> {
    encode_message(&m)
}

#[test]
fn acceptor_binds_peer_on_first_connect_only() {
    let mut s = Session::new();
    s.set_acceptor();
    assert_eq!(s.peer, None);

    let acts = s.on_message(7, &wire(NetworkMessage::Connect), 100);
    assert_eq!(acts, vec![Action::ArmHeartbeat]);
    assert_eq!(s.peer, Some(7));
    assert!(s.linked);

    // A second Connect, from another endpoint or the same one, never
    // rebinds the peer link.
    let acts2 = s.on_message(8, &wire(NetworkMessage::Connect), 200);
    assert_eq!(acts2, vec![]);
    assert_eq!(s.peer, Some(7));

    let acts3 = s.on_message(7, &wire(NetworkMessage::Connect), 300);
    assert_eq!(acts3, vec![]);
    assert_eq!(s.peer, Some(7));
}

#[test]
fn initiator_greets_and_arms_heartbeat_when_connected() {
    let mut s = Session::new();
    s.set_initiator(5);
    assert_eq!(s.role, Role::Initiator);
    assert_eq!(s.peer, Some(5));
    assert!(!s.linked);

    let acts = s.on_connected();
    assert_eq!(
        acts,
        vec![
            Action::SendTo(5, NetworkMessage::Connect),
            Action::ArmHeartbeat
        ]
    );
    assert!(s.linked);
}

#[test]
fn heartbeat_round_trip_reports_the_injected_delay() {
    let mut s = Session::new();
    s.set_initiator(5);
    s.on_connected();

    let ticked = s.on_tick(1000);
    assert_eq!(
        ticked,
        vec![
            Action::SendTo(5, NetworkMessage::Ping),
            Action::ArmHeartbeat
        ]
    );
    assert_eq!(s.last_ping_ms, 1000);

    let acts = s.on_message(5, &wire(NetworkMessage::Pong), 1250);
    assert_eq!(acts, vec![Action::Emit(UiEvent::Rtt(250))]);
}

#[test]
fn ping_is_answered_with_pong_to_its_sender() {
    let mut s = Session::new();
    s.set_acceptor();
    let acts = s.on_message(9, &wire(NetworkMessage::Ping), 50);
    assert_eq!(acts, vec![Action::SendTo(9, NetworkMessage::Pong)]);
}

#[test]
fn timer_messages_surface_as_events() {
    let mut s = Session::new();
    s.set_acceptor();
    assert_eq!(
        s.on_message(3, &wire(NetworkMessage::StartTimer), 10),
        vec![Action::Emit(UiEvent::StartTimer)]
    );
    assert_eq!(
        s.on_message(3, &wire(NetworkMessage::ResetTimer), 20),
        vec![Action::Emit(UiEvent::ResetTimer)]
    );
    assert_eq!(s.on_message(3, &wire(NetworkMessage::StopTimer), 30), vec![]);
}

#[test]
fn undecodable_datagram_is_dropped_without_effect() {
    let mut s = Session::new();
    s.set_acceptor();
    let before_peer = s.peer;
    assert_eq!(s.on_message(4, &[0xff, 0x01], 10), vec![]);
    assert_eq!(s.on_message(4, &[], 10), vec![]);
    assert_eq!(s.peer, before_peer);
}

#[test]
fn send_is_a_no_op_without_a_peer_link() {
    let mut s = Session::new();
    s.set_acceptor();
    assert!(s.outbound(&NetworkMessage::StartTimer).is_none());

    s.on_message(7, &wire(NetworkMessage::Connect), 0);
    let (endpoint, bytes) = s.outbound(&NetworkMessage::StartTimer).unwrap();
    assert_eq!(endpoint, 7);
    assert_eq!(bytes, wire(NetworkMessage::StartTimer));
}

#[test]
fn heartbeat_tick_is_silent_before_the_link_exists() {
    let mut s = Session::new();
    s.set_acceptor();
    assert_eq!(s.on_tick(500), vec![]);
    assert_eq!(s.last_ping_ms, 0);
}

#[test]
fn disconnect_stops_the_session() {
    let mut s = Session::new();
    s.set_initiator(5);
    s.on_connected();
    let acts = s.on_disconnected();
    assert_eq!(acts, vec![Action::Stop]);
    assert!(s.stopped);
    assert_eq!(s.on_message(5, &wire(NetworkMessage::Ping), 10), vec![]);
    assert_eq!(s.on_tick(10), vec![]);
}
