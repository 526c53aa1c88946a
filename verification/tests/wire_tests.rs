use agent_cluster::bus::{Ack, OverflowPolicy};
use agent_cluster::client::Client;
use agent_cluster::cluster::{Host, HostAction};
use agent_cluster::message::{BusError, Event, Task};
use agent_cluster::session::{SessionEvent, SessionSignal, SessionState};
use agent_cluster::wire::{decode, encode, payload_length, Frame, WireError};

fn task(id: u64, prompt: &str) -> Task {
    Task::new(id, prompt.to_string(), 1_700_000_000)
}

fn same(a: &Frame, b: &Frame) -> bool {
    match (a, b) {
        (
            Frame::Handshake { node_name: n1, cookie: c1 },
            Frame::Handshake { node_name: n2, cookie: c2 },
        ) => n1 == n2 && c1 == c2,
        (Frame::Subscribe { topic: t1 }, Frame::Subscribe { topic: t2 }) => t1 == t2,
        (Frame::Publish { topic: t1, task: a }, Frame::Publish { topic: t2, task: b })
        | (Frame::Event { topic: t1, task: a }, Frame::Event { topic: t2, task: b }) => {
            t1 == t2 && a.id == b.id && a.prompt == b.prompt && a.created_at == b.created_at
        }
        _ => false,
    }
}

#[test]
fn subscribe_frame_bytes_are_exact() {
    let bytes = encode(&Frame::Subscribe { topic: "ab".to_string() }).unwrap();
    assert_eq!(bytes, vec![7, 0, 0, 0, 2, 2, 0, 0, 0, b'a', b'b']);
}

#[test]
fn handshake_frame_bytes_are_exact() {
    let bytes = encode(&Frame::Handshake { node_name: "n".to_string(), cookie: "é".to_string() }).unwrap();
    assert_eq!(bytes, vec![12, 0, 0, 0, 1, 1, 0, 0, 0, b'n', 2, 0, 0, 0, 0xC3, 0xA9]);
}

#[test]
fn publish_frame_bytes_are_exact() {
    let t = Task::new(0x0102, "hi".to_string(), 3);
    let bytes = encode(&Frame::Publish { topic: "t".to_string(), task: t }).unwrap();
    let mut expected = vec![28, 0, 0, 0, 3, 1, 0, 0, 0, b't'];
    expected.extend_from_slice(&[2, 1, 0, 0, 0, 0, 0, 0]);
    expected.extend_from_slice(&[3, 0, 0, 0, 0, 0, 0, 0]);
    expected.extend_from_slice(&[2, 0, 0, 0, b'h', b'i']);
    assert_eq!(bytes, expected);
    assert_eq!(payload_length(&bytes[0..4]), Some(28));
    assert_eq!(payload_length(&bytes[0..3]), None);
}

#[test]
fn every_kind_of_frame_round_trips() {
    let frames = vec![
        Frame::Handshake { node_name: "doctor".to_string(), cookie: "cluster-cookie".to_string() },
        Frame::Handshake { node_name: String::new(), cookie: String::new() },
        Frame::Subscribe { topic: "camera_response".to_string() },
        Frame::Publish { topic: "analysis_agent".to_string(), task: task(u64::MAX, "ünïcödé ✓ text") },
        Frame::Event { topic: "t".to_string(), task: task(0, "") },
    ];
    for f in &frames {
        let bytes = encode(f).unwrap();
        let back = decode(&bytes).unwrap();
        assert!(same(f, &back), "{:?} came back as {:?}", f, back);
    }
}

#[test]
fn event_and_publish_differ_only_in_kind() {
    let a = encode(&Frame::Publish { topic: "t".to_string(), task: task(1, "x") }).unwrap();
    let b = encode(&Frame::Event { topic: "t".to_string(), task: task(1, "x") }).unwrap();
    assert_eq!(a[4], 3);
    assert_eq!(b[4], 4);
    assert_eq!(a[5..], b[5..]);
    assert!(matches!(decode(&b), Ok(Frame::Event { .. })));
}

#[test]
fn bad_bytes_are_refused_with_the_right_error() {
    assert_eq!(decode(&[]).unwrap_err(), WireError::Truncated);
    assert_eq!(decode(&[1, 0, 0]).unwrap_err(), WireError::Truncated);
    assert_eq!(decode(&[0, 0, 0, 0]).unwrap_err(), WireError::Truncated);
    assert_eq!(decode(&[5, 0, 0, 0, 2]).unwrap_err(), WireError::Truncated);
    assert_eq!(decode(&[1, 0, 0, 0, 2, 9]).unwrap_err(), WireError::TrailingBytes);
    assert_eq!(decode(&[1, 0, 0, 0, 0]).unwrap_err(), WireError::UnknownKind);
    assert_eq!(decode(&[1, 0, 0, 0, 5]).unwrap_err(), WireError::UnknownKind);
    assert_eq!(decode(&[1, 0, 0, 0, 2]).unwrap_err(), WireError::Malformed);
    assert_eq!(decode(&[6, 0, 0, 0, 2, 2, 0, 0, 0, b'a']).unwrap_err(), WireError::Malformed);
    assert_eq!(decode(&[7, 0, 0, 0, 2, 1, 0, 0, 0, b'a', b'b']).unwrap_err(), WireError::Malformed);
    assert_eq!(decode(&[6, 0, 0, 0, 2, 1, 0, 0, 0, 0xFF]).unwrap_err(), WireError::Malformed);
    assert_eq!(decode(&[6, 0, 0, 0, 3, 1, 0, 0, 0, b't']).unwrap_err(), WireError::Malformed);
}

fn client(name: &str) -> Client {
    Client::new(name.to_string(), "cluster-cookie".to_string(), 4, OverflowPolicy::Reject)
}

fn over_the_wire(frame: &Frame) -> Frame {
    decode(&encode(frame).unwrap()).unwrap()
}

fn join(host: &mut Host, peer: u64, c: &mut Client) {
    let step = c.session_event(SessionEvent::Connected);
    assert_eq!(step.send.len(), 1);
    assert!(matches!(host.receive(peer, over_the_wire(&step.send[0])), HostAction::Accept));
    let step = c.handshake_answer(&over_the_wire(&host.greeting()));
    assert_eq!(step.signal, SessionSignal::Quiet);
    for f in &step.send {
        assert!(matches!(host.receive(peer, over_the_wire(f)), HostAction::Noted));
    }
    assert_eq!(c.session(), SessionState::Active);
}

#[test]
fn publish_from_camera_reaches_both_doctors_in_order() {
    let mut host = Host::new("cluster_host".to_string(), "localhost:9000".to_string(), "cluster-cookie".to_string(), 8, OverflowPolicy::Reject);
    let mut camera = client("camera");
    let mut first = client("doctor_one");
    let mut second = client("doctor_two");
    assert!(first.subscribe("camera_response", 1).is_none());
    join(&mut host, 10, &mut camera);
    join(&mut host, 11, &mut first);
    join(&mut host, 12, &mut second);
    let tell = second.subscribe("camera_response", 2).unwrap();
    assert!(matches!(host.receive(12, over_the_wire(&tell)), HostAction::Noted));
    assert!(second.subscribe("camera_response", 3).is_none());

    for (i, text) in ["### one", "### two", "### three"].iter().enumerate() {
        let out = camera.publish("camera_response", &task(i as u64, text)).unwrap();
        assert_eq!(out.ack, Ack::Delivered { copies: 0 });
        match host.receive(10, over_the_wire(&out.forward.unwrap())) {
            HostAction::Forward { to, frame } => {
                assert_eq!(to, vec![11, 12]);
                let frame = over_the_wire(&frame);
                assert_eq!(first.receive(&frame), Ok(Ack::Delivered { copies: 1 }));
                assert_eq!(second.receive(&frame), Ok(Ack::Delivered { copies: 2 }));
            }
            other => panic!("expected a forward, got {:?}", other),
        }
    }
    for agent in [1u64, 2, 3] {
        let c = if agent == 1 { &mut first } else { &mut second };
        for text in ["### one", "### two", "### three"] {
            match c.next_event(agent) {
                Some(Event::NewTask { task }) => assert_eq!(task.prompt, text),
                _ => panic!("agent {} should see {}", agent, text),
            }
        }
        assert!(c.next_event(agent).is_none());
    }
    assert!(camera.next_event(1).is_none());
}

#[test]
fn client_with_wrong_cookie_gets_nothing() {
    let mut host = Host::new("h".to_string(), "a".to_string(), "cluster-cookie".to_string(), 8, OverflowPolicy::Reject);
    let mut good = client("good");
    join(&mut host, 1, &mut good);
    let mut bad = Client::new("bad".to_string(), "guess".to_string(), 4, OverflowPolicy::Reject);
    bad.subscribe("t", 9);
    let step = bad.session_event(SessionEvent::Connected);
    match host.receive(2, over_the_wire(&step.send[0])) {
        HostAction::Reject { error } => assert_eq!(error, BusError::AuthRejected),
        other => panic!("expected a rejection, got {:?}", other),
    }
    let step = bad.session_event(SessionEvent::HandshakeRejected);
    assert_eq!(step.signal, SessionSignal::Rejected(BusError::AuthRejected));
    assert!(step.send.is_empty());
    assert_eq!(bad.session(), SessionState::Closed);
    assert!(matches!(
        host.receive(2, Frame::Subscribe { topic: "t".to_string() }),
        HostAction::Reject { error: BusError::AuthRejected }
    ));
    assert_eq!(host.peers(), vec![1]);
    let out = good.publish("t", &task(1, "x")).unwrap();
    match host.receive(1, out.forward.unwrap()) {
        HostAction::Forward { to, .. } => assert!(to.is_empty()),
        other => panic!("expected a forward, got {:?}", other),
    }
    assert!(matches!(
        host.receive(2, Frame::Publish { topic: "t".to_string(), task: task(2, "y") }),
        HostAction::Reject { error: BusError::AuthRejected }
    ));
}

#[test]
fn client_forwards_only_while_active() {
    let mut c = client("c");
    c.subscribe("t", 1);
    let out = c.publish("t", &task(1, "early")).unwrap();
    assert_eq!(out.ack, Ack::Delivered { copies: 1 });
    assert!(out.forward.is_none());
    c.session_event(SessionEvent::Connected);
    c.session_event(SessionEvent::HandshakeAccepted);
    let out = c.publish("t", &task(2, "now")).unwrap();
    match out.forward {
        Some(Frame::Publish { topic, task }) => {
            assert_eq!(topic, "t");
            assert_eq!(task.id, 2);
            assert_eq!(task.prompt, "now");
        }
        other => panic!("expected a publish frame, got {:?}", other),
    }
    let step = c.session_event(SessionEvent::Disconnected);
    assert_eq!(step.signal, SessionSignal::Failed(agent_cluster::message::RuntimeError::PeerLost));
    assert!(c.publish("t", &task(3, "late")).unwrap().forward.is_none());
    c.detach(1);
    assert!(c.next_event(1).is_none());
}

#[test]
fn client_tells_host_all_subscriptions_on_acceptance() {
    let mut c = client("c");
    c.subscribe("a", 1);
    c.subscribe("b", 1);
    c.subscribe("a", 2);
    let step = c.session_event(SessionEvent::Connected);
    match &step.send[0] {
        Frame::Handshake { node_name, cookie } => {
            assert_eq!(node_name, "c");
            assert_eq!(cookie, "cluster-cookie");
        }
        other => panic!("expected a handshake, got {:?}", other),
    }
    let step = c.session_event(SessionEvent::HandshakeAccepted);
    let topics: Vec<String> = step
        .send
        .iter()
        .map(|f| match f {
            Frame::Subscribe { topic } => topic.clone(),
            other => panic!("expected a subscription, got {:?}", other),
        })
        .collect();
    assert_eq!(topics, vec!["a", "b"]);
    assert!(c.receive(&Frame::Subscribe { topic: "x".to_string() }).is_ok());
}

#[test]
fn host_greets_with_its_name_and_the_cookie() {
    let host = Host::new("cluster_host".to_string(), "localhost:9000".to_string(), "cluster-cookie".to_string(), 1, OverflowPolicy::Reject);
    match host.greeting() {
        Frame::Handshake { node_name, cookie } => {
            assert_eq!(node_name, "cluster_host");
            assert_eq!(cookie, "cluster-cookie");
        }
        other => panic!("expected a handshake, got {:?}", other),
    }
}

#[test]
fn client_checks_the_hosts_cookie() {
    let mut c = client("c");
    c.session_event(SessionEvent::Connected);
    let step = c.handshake_answer(&Frame::Subscribe { topic: "t".to_string() });
    assert_eq!(step.signal, SessionSignal::Quiet);
    assert_eq!(c.session(), SessionState::Handshaking);
    let step = c.handshake_answer(&Frame::Handshake {
        node_name: "impostor".to_string(),
        cookie: "other".to_string(),
    });
    assert_eq!(step.signal, SessionSignal::Rejected(BusError::AuthRejected));
    assert_eq!(c.session(), SessionState::Closed);
}
