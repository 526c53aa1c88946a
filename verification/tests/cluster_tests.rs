use agent_cluster::bus::{Ack, OverflowPolicy};
use agent_cluster::cluster::{Host, Role};
use agent_cluster::message::{BusError, Event, RuntimeError, Task};
use agent_cluster::session::{SessionEvent, SessionSignal, SessionState};

fn host() -> Host {
    Host::new("cluster_host".to_string(), "localhost:9000".to_string(), "cluster-cookie".to_string(), 4, OverflowPolicy::Reject)
}

fn task(id: u64, prompt: &str) -> Task {
    Task::new(id, prompt.to_string(), 1_700_000_000)
}

#[test]
fn right_cookie_is_admitted() {
    let mut h = host();
    assert_eq!(h.handshake(1, "doctor", "cluster-cookie"), Ok(()));
    assert!(h.is_peer(1));
    assert_eq!(h.peers(), vec![1]);
}

#[test]
fn wrong_cookie_is_rejected_and_never_listed() {
    let mut h = host();
    assert_eq!(h.handshake(1, "doctor", "cluster-cookie"), Ok(()));
    assert_eq!(h.handshake(2, "intruder", "wrong"), Err(BusError::AuthRejected));
    assert_eq!(h.handshake(2, "intruder", ""), Err(BusError::AuthRejected));
    assert_eq!(h.handshake(2, "intruder", "cluster-cookie "), Err(BusError::AuthRejected));
    assert!(!h.is_peer(2));
    assert_eq!(h.peers(), vec![1]);
}

#[test]
fn rejected_client_receives_no_events() {
    let mut h = host();
    assert!(h.handshake(1, "camera", "cluster-cookie").is_ok());
    assert!(h.handshake(2, "intruder", "guess").is_err());
    assert!(!h.peer_subscribe(2, "camera_response"));
    let relay = h.publish(Some(1), "camera_response", &task(1, "### Camera Analysis Result\nok"));
    assert_eq!(relay.unwrap().forward_to, Vec::<u64>::new());
    assert_eq!(
        h.publish(Some(2), "camera_response", &task(2, "x")).unwrap_err(),
        BusError::AuthRejected
    );
}

#[test]
fn relay_reaches_both_subscribers_in_connection_order() {
    let mut h = host();
    assert!(h.handshake(10, "camera", "cluster-cookie").is_ok());
    assert!(h.handshake(30, "doctor_b", "cluster-cookie").is_ok());
    assert!(h.handshake(20, "doctor_a", "cluster-cookie").is_ok());
    assert!(h.peer_subscribe(20, "camera_response"));
    assert!(h.peer_subscribe(30, "camera_response"));
    let first = h.publish(Some(10), "camera_response", &task(1, "one")).unwrap();
    let second = h.publish(Some(10), "camera_response", &task(2, "two")).unwrap();
    assert_eq!(first.forward_to, vec![30, 20]);
    assert_eq!(second.forward_to, vec![30, 20]);
    assert_eq!(first.ack, Ack::Delivered { copies: 0 });
}

#[test]
fn sender_is_not_relayed_to_itself() {
    let mut h = host();
    assert!(h.handshake(1, "a", "cluster-cookie").is_ok());
    assert!(h.handshake(2, "b", "cluster-cookie").is_ok());
    h.peer_subscribe(1, "t");
    h.peer_subscribe(2, "t");
    h.peer_subscribe(2, "t");
    assert_eq!(h.publish(Some(1), "t", &task(1, "x")).unwrap().forward_to, vec![2]);
    assert_eq!(h.publish(Some(2), "t", &task(2, "x")).unwrap().forward_to, vec![1]);
    assert_eq!(h.publish(None, "t", &task(3, "x")).unwrap().forward_to, vec![1, 2]);
    assert_eq!(h.publish(None, "other", &task(4, "x")).unwrap().forward_to, Vec::<u64>::new());
}

#[test]
fn host_serves_its_own_subscribers() {
    let mut h = host();
    assert!(h.handshake(1, "a", "cluster-cookie").is_ok());
    h.subscribe("t", 77);
    let relay = h.publish(Some(1), "t", &task(9, "for the host")).unwrap();
    assert_eq!(relay.ack, Ack::Delivered { copies: 1 });
    match h.next_event(77) {
        Some(Event::NewTask { task }) => {
            assert_eq!(task.id, 9);
            assert_eq!(task.prompt, "for the host");
        }
        _ => panic!("the host's subscriber should have the task"),
    }
    assert!(h.next_event(77).is_none());
}

#[test]
fn overloaded_host_bus_forwards_nothing() {
    let mut h = Host::new("h".to_string(), "a".to_string(), "c".to_string(), 1, OverflowPolicy::Reject);
    assert!(h.handshake(1, "a", "c").is_ok());
    assert!(h.handshake(2, "b", "c").is_ok());
    h.peer_subscribe(2, "t");
    h.subscribe("t", 5);
    assert_eq!(h.publish(Some(1), "t", &task(1, "x")).unwrap().forward_to, vec![2]);
    assert_eq!(h.publish(Some(1), "t", &task(2, "x")).unwrap_err(), BusError::SubscriberOverloaded);
}

#[test]
fn deferred_publish_forwards_nothing() {
    let mut h = Host::new("h".to_string(), "a".to_string(), "c".to_string(), 0, OverflowPolicy::Wait);
    assert!(h.handshake(1, "a", "c").is_ok());
    h.peer_subscribe(1, "t");
    h.subscribe("t", 5);
    let relay = h.publish(None, "t", &task(1, "x")).unwrap();
    assert_eq!(relay.ack, Ack::Deferred);
    assert!(relay.forward_to.is_empty());
}

#[test]
fn disconnect_forgets_the_peer() {
    let mut h = host();
    assert!(h.handshake(1, "a", "cluster-cookie").is_ok());
    assert!(h.handshake(2, "b", "cluster-cookie").is_ok());
    h.peer_subscribe(1, "t");
    h.peer_subscribe(2, "t");
    assert!(h.disconnect(1));
    assert!(!h.disconnect(1));
    assert_eq!(h.peers(), vec![2]);
    assert_eq!(h.publish(None, "t", &task(1, "x")).unwrap().forward_to, vec![2]);
    assert!(h.handshake(1, "a", "cluster-cookie").is_ok());
    assert_eq!(h.publish(None, "t", &task(2, "x")).unwrap().forward_to, vec![2]);
}

#[test]
fn second_handshake_changes_nothing() {
    let mut h = host();
    assert!(h.handshake(1, "a", "cluster-cookie").is_ok());
    h.peer_subscribe(1, "t");
    assert!(h.handshake(1, "a", "cluster-cookie").is_ok());
    assert_eq!(h.peers(), vec![1]);
    assert_eq!(h.publish(None, "t", &task(1, "x")).unwrap().forward_to, vec![1]);
}

#[test]
fn session_runs_through_its_life() {
    let mut s = SessionState::start();
    assert_eq!(s, SessionState::Connecting);
    for (event, expected) in [
        (SessionEvent::Connected, SessionState::Handshaking),
        (SessionEvent::HandshakeAccepted, SessionState::Active),
        (SessionEvent::ShutdownRequested, SessionState::Draining),
        (SessionEvent::Drained, SessionState::Closed),
    ] {
        let step = s.step(event);
        assert_eq!(step.signal, SessionSignal::Quiet);
        assert_eq!(step.next, expected);
        s = step.next;
    }
    assert!(s.is_closed());
}

#[test]
fn rejected_handshake_closes_with_auth_rejected() {
    let step = SessionState::Handshaking.step(SessionEvent::HandshakeRejected);
    assert_eq!(step.next, SessionState::Closed);
    assert_eq!(step.signal, SessionSignal::Rejected(BusError::AuthRejected));
}

#[test]
fn disconnect_while_active_is_peer_lost() {
    let step = SessionState::Active.step(SessionEvent::Disconnected);
    assert_eq!(step.next, SessionState::Closed);
    assert_eq!(step.signal, SessionSignal::Failed(RuntimeError::PeerLost));
}

#[test]
fn disconnect_elsewhere_is_quiet() {
    for s in [SessionState::Connecting, SessionState::Handshaking, SessionState::Draining, SessionState::Closed] {
        let step = s.step(SessionEvent::Disconnected);
        assert_eq!(step.next, SessionState::Closed);
        assert_eq!(step.signal, SessionSignal::Quiet);
    }
}

#[test]
fn closed_session_never_reopens() {
    for e in [
        SessionEvent::Connected,
        SessionEvent::HandshakeAccepted,
        SessionEvent::HandshakeRejected,
        SessionEvent::ShutdownRequested,
        SessionEvent::Drained,
        SessionEvent::Disconnected,
    ] {
        let step = SessionState::Closed.step(e);
        assert_eq!(step.next, SessionState::Closed);
        assert_eq!(step.signal, SessionSignal::Quiet);
    }
}

#[test]
fn unexpected_events_leave_the_state() {
    assert_eq!(SessionState::Connecting.step(SessionEvent::HandshakeAccepted).next, SessionState::Connecting);
    assert_eq!(SessionState::Active.step(SessionEvent::Connected).next, SessionState::Active);
    assert_eq!(SessionState::Active.step(SessionEvent::Drained).next, SessionState::Active);
    assert_eq!(SessionState::Draining.step(SessionEvent::ShutdownRequested).next, SessionState::Draining);
    assert!(SessionState::Active.carries_traffic());
    assert!(!SessionState::Draining.carries_traffic());
    assert!(!SessionState::Handshaking.carries_traffic());
}

#[test]
fn host_keeps_its_own_record_and_the_names_of_its_peers() {
    let mut h = host();
    let node = h.node();
    assert_eq!(node.identity, "cluster_host");
    assert_eq!(node.role, Role::Host);
    assert_eq!(node.address, "localhost:9000");
    assert_eq!(node.cookie, "cluster-cookie");
    assert!(h.handshake(4, "doctor", "cluster-cookie").is_ok());
    assert!(h.handshake(5, "intruder", "nope").is_err());
    assert_eq!(h.peer_name(4), Some("doctor".to_string()));
    assert_eq!(h.peer_name(5), None);
    assert!(h.handshake(4, "renamed", "cluster-cookie").is_ok());
    assert_eq!(h.peer_name(4), Some("doctor".to_string()));
    h.disconnect(4);
    assert_eq!(h.peer_name(4), None);
}

#[test]
fn host_agent_can_shut_down() {
    let mut h = host();
    h.subscribe("t", 5);
    h.subscribe("t", 6);
    assert_eq!(h.publish(None, "t", &task(1, "x")).unwrap().ack, Ack::Delivered { copies: 2 });
    h.detach(5);
    assert!(h.next_event(5).is_none());
    assert_eq!(h.publish(None, "t", &task(2, "y")).unwrap().ack, Ack::Delivered { copies: 1 });
    assert!(h.next_event(6).is_some());
}
