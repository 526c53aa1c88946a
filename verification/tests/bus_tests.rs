use agent_cluster::bus::{Ack, Bus, OverflowPolicy};
use agent_cluster::message::{BusError, Event, Task};
use agent_cluster::registry::TopicRegistry;

fn task(id: u64, prompt: &str) -> Task {
    Task::new(id, prompt.to_string(), 1_700_000_000 + id)
}

fn prompt_of(event: Option<Event>) -> String {
    match event {
        Some(Event::NewTask { task }) => task.prompt,
        other => panic!("expected a new task, got {}", other.is_some()),
    }
}

#[test]
fn registry_subscribe_is_idempotent() {
    let mut r = TopicRegistry::new();
    r.subscribe("user_messages", 1);
    r.subscribe("user_messages", 1);
    r.subscribe("user_messages", 2);
    assert_eq!(r.subscribers_of("user_messages"), vec![1, 2]);
    assert!(r.is_subscribed("user_messages", 1));
    assert!(!r.is_subscribed("user_messages", 3));
}

#[test]
fn registry_unknown_topic_has_no_subscribers() {
    let r = TopicRegistry::new();
    assert!(r.subscribers_of("nowhere").is_empty());
    assert!(!r.is_known("nowhere"));
}

#[test]
fn registry_unsubscribe_removes_only_that_agent() {
    let mut r = TopicRegistry::new();
    r.subscribe("t", 1);
    r.subscribe("t", 2);
    r.subscribe("t", 3);
    r.unsubscribe("t", 2);
    assert_eq!(r.subscribers_of("t"), vec![1, 3]);
    r.unsubscribe("t", 9);
    r.unsubscribe("other", 1);
    assert_eq!(r.subscribers_of("t"), vec![1, 3]);
    assert!(r.is_known("t"));
    assert!(!r.is_known("other"));
}

#[test]
fn registry_topic_stays_known_without_subscribers() {
    let mut r = TopicRegistry::new();
    r.subscribe("t", 1);
    r.unsubscribe("t", 1);
    assert!(r.is_known("t"));
    assert!(r.subscribers_of("t").is_empty());
    r.declare("u");
    assert!(r.is_known("u"));
}

#[test]
fn registry_release_leaves_every_topic() {
    let mut r = TopicRegistry::new();
    r.subscribe("a", 1);
    r.subscribe("a", 2);
    r.subscribe("b", 2);
    r.subscribe("c", 3);
    r.release(2);
    assert_eq!(r.subscribers_of("a"), vec![1]);
    assert!(r.subscribers_of("b").is_empty());
    assert_eq!(r.subscribers_of("c"), vec![3]);
}

#[test]
fn sole_subscriber_receives_exactly_one_event() {
    let mut bus = Bus::new(4, OverflowPolicy::Reject);
    bus.subscribe("analysis_agent", 7);
    bus.subscribe("camera_requests", 8);
    let r = bus.publish("analysis_agent", &task(1, "check the ECG"));
    assert_eq!(r, Ok(Ack::Delivered { copies: 1 }));
    assert_eq!(bus.pending(7), 1);
    assert_eq!(bus.pending(8), 0);
    assert_eq!(prompt_of(bus.next_event(7)), "check the ECG");
    assert!(bus.next_event(7).is_none());
    assert!(bus.next_event(8).is_none());
}

#[test]
fn publish_without_subscribers_succeeds() {
    let mut bus = Bus::new(1, OverflowPolicy::Reject);
    assert_eq!(bus.publish("nobody", &task(1, "x")), Ok(Ack::Delivered { copies: 0 }));
    assert!(bus.subscribers_of("nobody").is_empty());
}

#[test]
fn stream_keeps_publish_order() {
    let mut bus = Bus::new(8, OverflowPolicy::Reject);
    bus.subscribe("t", 1);
    for (i, p) in ["one", "two", "three", "four"].iter().enumerate() {
        assert!(bus.publish("t", &task(i as u64, p)).is_ok());
    }
    assert_eq!(prompt_of(bus.next_event(1)), "one");
    assert_eq!(prompt_of(bus.next_event(1)), "two");
    assert_eq!(prompt_of(bus.next_event(1)), "three");
    assert_eq!(prompt_of(bus.next_event(1)), "four");
    assert!(bus.next_event(1).is_none());
}

#[test]
fn every_subscriber_gets_its_own_copy() {
    let mut bus = Bus::new(2, OverflowPolicy::Reject);
    bus.subscribe("camera_response", 1);
    bus.subscribe("camera_response", 2);
    assert_eq!(
        bus.publish("camera_response", &task(5, "### Camera Analysis Result\nok")),
        Ok(Ack::Delivered { copies: 2 })
    );
    match (bus.next_event(1), bus.next_event(2)) {
        (Some(Event::NewTask { task: a }), Some(Event::NewTask { task: b })) => {
            assert_eq!(a.id, 5);
            assert_eq!(b.id, 5);
            assert_eq!(a.prompt, b.prompt);
            assert_eq!(a.created_at, b.created_at);
        }
        _ => panic!("both subscribers should have one event"),
    }
}

#[test]
fn overload_on_the_publish_after_the_bound() {
    let n: usize = 3;
    let mut bus = Bus::new(n, OverflowPolicy::Reject);
    bus.subscribe("t", 1);
    for i in 0..n {
        assert_eq!(bus.publish("t", &task(i as u64, "x")), Ok(Ack::Delivered { copies: 1 }));
    }
    assert_eq!(bus.publish("t", &task(99, "x")), Err(BusError::SubscriberOverloaded));
    assert_eq!(bus.pending(1), n);
    assert!(bus.next_event(1).is_some());
    assert_eq!(bus.publish("t", &task(100, "y")), Ok(Ack::Delivered { copies: 1 }));
}

#[test]
fn overload_delivers_to_nobody() {
    let mut bus = Bus::new(1, OverflowPolicy::Reject);
    bus.subscribe("t", 1);
    bus.subscribe("u", 1);
    bus.subscribe("t", 2);
    assert!(bus.publish("u", &task(1, "fills 1")).is_ok());
    assert_eq!(bus.publish("t", &task(2, "x")), Err(BusError::SubscriberOverloaded));
    assert_eq!(bus.pending(2), 0);
    assert_eq!(bus.pending(1), 1);
}

#[test]
fn wait_policy_defers_instead_of_failing() {
    let mut bus = Bus::new(1, OverflowPolicy::Wait);
    bus.subscribe("t", 1);
    assert_eq!(bus.publish("t", &task(1, "a")), Ok(Ack::Delivered { copies: 1 }));
    assert_eq!(bus.publish("t", &task(2, "b")), Ok(Ack::Deferred));
    assert_eq!(bus.pending(1), 1);
    assert_eq!(bus.capacity(), 1);
    assert_eq!(bus.policy(), OverflowPolicy::Wait);
}

#[test]
fn zero_capacity_rejects_every_delivery() {
    let mut bus = Bus::new(0, OverflowPolicy::Reject);
    bus.subscribe("t", 1);
    assert_eq!(bus.publish("t", &task(1, "a")), Err(BusError::SubscriberOverloaded));
    assert_eq!(bus.publish("empty", &task(1, "a")), Ok(Ack::Delivered { copies: 0 }));
}

#[test]
fn publisher_outside_the_topic_gets_nothing_back() {
    let mut bus = Bus::new(4, OverflowPolicy::Reject);
    bus.subscribe("analysis_agent", 2);
    bus.subscribe("analysis_response", 1);
    assert!(bus.publish("analysis_agent", &task(1, "### looks like a result")).is_ok());
    assert_eq!(bus.pending(1), 0);
    assert_eq!(bus.pending(2), 1);
}

#[test]
fn unsubscribe_stops_delivery_and_keeps_the_stream() {
    let mut bus = Bus::new(4, OverflowPolicy::Reject);
    bus.subscribe("t", 1);
    assert!(bus.publish("t", &task(1, "a")).is_ok());
    bus.unsubscribe("t", 1);
    assert_eq!(bus.publish("t", &task(2, "b")), Ok(Ack::Delivered { copies: 0 }));
    assert_eq!(bus.pending(1), 1);
}

#[test]
fn detach_releases_subscriptions_and_stream() {
    let mut bus = Bus::new(4, OverflowPolicy::Reject);
    bus.subscribe("t", 1);
    bus.subscribe("t", 2);
    assert!(bus.publish("t", &task(1, "a")).is_ok());
    bus.detach(1);
    assert_eq!(bus.subscribers_of("t"), vec![2]);
    assert_eq!(bus.pending(1), 0);
    assert!(bus.next_event(1).is_none());
    assert_eq!(bus.pending(2), 1);
}

#[test]
fn derived_task_has_new_identity() {
    let t = task(1, "question");
    assert!(t.derive(1, "same identity".to_string(), 5).is_none());
    let d = t.derive(2, "answer".to_string(), 5).unwrap();
    assert_eq!(t.id, 1);
    assert_eq!(t.prompt, "question");
    assert_eq!(d.id, 2);
    assert_eq!(d.prompt, "answer");
    assert_eq!(d.created_at, 5);
    let c = t.duplicate();
    assert_eq!(c.id, t.id);
    assert_eq!(c.prompt, t.prompt);
}
