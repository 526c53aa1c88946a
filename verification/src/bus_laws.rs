//! What holds of every bus: who receives a published task, in which order, and when a
//! publish is refused.

use crate::bus::{announcements, Ack, BusState, OverflowPolicy};
use crate::message::{AgentId, BusError, EventView, TaskView};
use vstd::prelude::*;

verus! {

/// A publish keeps the bus sound and changes neither who subscribes to what nor who
/// has a stream.
pub proof fn lemma_publish_keeps(s: BusState, topic: Seq<char>, task: TaskView)
    requires
        s.wf(),
    ensures
        s.publish(topic, task).wf(),
        s.publish(topic, task).capacity == s.capacity,
        s.publish(topic, task).policy == s.policy,
        s.publish(topic, task).streams.dom() =~= s.streams.dom(),
        forall|t: Seq<char>| s.publish(topic, task).subscribers(t) == s.subscribers(t),
{
    let after = s.publish(topic, task);
    assert forall|t: Seq<char>| after.subscribers(t) == s.subscribers(t) by {}
    assert forall|t: Seq<char>| #[trigger] after.subscribers(t).no_duplicates() by {
        assert(s.subscribers(t).no_duplicates());
    }
    assert forall|a: AgentId| #[trigger] after.stream(a).len() <= after.capacity by {
        assert(s.stream(a).len() <= s.capacity);
        if s.has_room(topic) && s.subscribers(topic).contains(a) {
            assert(s.stream(a).len() < s.capacity);
        }
    }
    assert forall|t: Seq<char>, a: AgentId| #[trigger]
        after.subscribers(t).contains(a) implies after.streams.dom().contains(a) by {
        assert(s.subscribers(t).contains(a));
    }
}

/// Where an agent is the only subscriber of a topic and has room, a publish on the
/// topic puts exactly one `NewTask` event with that task at the end of its stream, and
/// the stream of every other agent stays as it was.
pub proof fn law_sole_subscriber_receives_once(
    s: BusState,
    topic: Seq<char>,
    task: TaskView,
    agent: AgentId,
)
    requires
        s.wf(),
        s.subscribers(topic) == seq![agent],
        s.stream(agent).len() < s.capacity,
    ensures
        s.publish_result(topic) == Ok::<Ack, BusError>(Ack::Delivered { copies: 1 }),
        s.publish(topic, task).stream(agent) == s.stream(agent).push(
            EventView::NewTask { task },
        ),
        forall|other: AgentId|
            other != agent ==> s.publish(topic, task).stream(other) == s.stream(other),
{
    assert(seq![agent].contains(agent)) by {
        assert(seq![agent][0] == agent);
    }
    assert(s.streams.dom().contains(agent));
    assert(s.has_room(topic));
    assert forall|other: AgentId| other != agent implies s.publish(topic, task).stream(other)
        == s.stream(other) by {
        assert(!seq![agent].contains(other));
    }
}

/// A publish reaches the subscribers of its topic and nobody else: each of them gets
/// one event more, or, where one of them has no room, none of them does.
pub proof fn law_publish_reaches_subscribers_only(
    s: BusState,
    topic: Seq<char>,
    task: TaskView,
    agent: AgentId,
)
    requires
        s.wf(),
    ensures
        s.publish(topic, task).stream(agent) == if s.has_room(topic) && s.subscribers(
            topic,
        ).contains(agent) {
            s.stream(agent).push(EventView::NewTask { task })
        } else {
            s.stream(agent)
        },
{
    if s.subscribers(topic).contains(agent) {
        assert(s.streams.dom().contains(agent));
    }
}

/// An agent that does not subscribe to the topic it publishes on never finds its own
/// publish on its stream, whatever the text of the task.
pub proof fn law_no_delivery_without_subscription(
    s: BusState,
    topic: Seq<char>,
    task: TaskView,
    agent: AgentId,
)
    requires
        s.wf(),
        !s.subscribers(topic).contains(agent),
    ensures
        s.publish(topic, task).stream(agent) == s.stream(agent),
{
}

/// The same of any number of publishes on that topic.
pub proof fn law_no_delivery_without_subscription_ever(
    s: BusState,
    topic: Seq<char>,
    tasks: Seq<TaskView>,
    agent: AgentId,
)
    requires
        s.wf(),
        !s.subscribers(topic).contains(agent),
    ensures
        s.publish_all(topic, tasks).wf(),
        s.publish_all(topic, tasks).stream(agent) == s.stream(agent),
        forall|t: Seq<char>| s.publish_all(topic, tasks).subscribers(t) == s.subscribers(t),
    decreases tasks.len(),
{
    if tasks.len() > 0 {
        law_no_delivery_without_subscription_ever(s, topic, tasks.drop_last(), agent);
        let before = s.publish_all(topic, tasks.drop_last());
        lemma_publish_keeps(before, topic, tasks.last());
    }
}

/// Tasks published one after the other on one topic stand on a subscriber's stream in
/// the order of the publishes, behind what waited there: the stream grows by the events
/// of the first `n` tasks, and `n` falls short of all only where a stream has filled up.
pub proof fn law_stream_keeps_publish_order(
    s: BusState,
    topic: Seq<char>,
    tasks: Seq<TaskView>,
    agent: AgentId,
) -> (n: int)
    requires
        s.wf(),
        s.subscribers(topic).contains(agent),
    ensures
        0 <= n <= tasks.len(),
        s.publish_all(topic, tasks).wf(),
        forall|t: Seq<char>| s.publish_all(topic, tasks).subscribers(t) == s.subscribers(t),
        s.publish_all(topic, tasks).capacity == s.capacity,
        s.publish_all(topic, tasks).policy == s.policy,
        s.publish_all(topic, tasks).stream(agent) == s.stream(agent) + announcements(
            tasks.take(n),
        ),
        n == tasks.len() || !s.publish_all(topic, tasks).has_room(topic),
        forall|other: AgentId|
            s.subscribers(topic).contains(other) ==> s.publish_all(topic, tasks).stream(
                other,
            ).len() == s.stream(other).len() + n,
    decreases tasks.len(),
{
    if tasks.len() == 0 {
        assert(s.stream(agent) + announcements(tasks.take(0)) =~= s.stream(agent));
        0
    } else {
        let head = tasks.drop_last();
        let m = law_stream_keeps_publish_order(s, topic, head, agent);
        let before = s.publish_all(topic, head);
        lemma_publish_keeps(before, topic, tasks.last());
        let after = before.publish(topic, tasks.last());
        assert(before.streams.dom().contains(agent));
        if before.has_room(topic) {
            assert(m == head.len());
            assert(head.take(m) =~= head);
            assert(tasks.take(m + 1) =~= tasks);
            assert(announcements(tasks) =~= announcements(head).push(
                EventView::NewTask { task: tasks.last() },
            ));
            assert(after.stream(agent) =~= s.stream(agent) + announcements(tasks.take(m + 1)));
            assert forall|other: AgentId| s.subscribers(topic).contains(other) implies after.stream(
                other,
            ).len() == s.stream(other).len() + m + 1 by {
                assert(before.subscribers(topic).contains(other));
                assert(before.streams.dom().contains(other));
            }
            m + 1
        } else {
            assert(tasks.take(m) =~= head.take(m));
            assert(!after.has_room(topic)) by {
                let full = choose|a: AgentId| #[trigger]
                    before.subscribers(topic).contains(a) && !(before.stream(a).len()
                        < before.capacity);
                assert(after.subscribers(topic).contains(full));
            }
            m
        }
    }
}

/// Where every subscriber of the topic has room for all the tasks, all of them arrive,
/// in the order of the publishes.
pub proof fn law_all_arrive_in_order(
    s: BusState,
    topic: Seq<char>,
    tasks: Seq<TaskView>,
    agent: AgentId,
)
    requires
        s.wf(),
        s.subscribers(topic).contains(agent),
        forall|a: AgentId| #[trigger]
            s.subscribers(topic).contains(a) ==> s.stream(a).len() + tasks.len() <= s.capacity,
    ensures
        s.publish_all(topic, tasks).stream(agent) == s.stream(agent) + announcements(tasks),
    decreases tasks.len(),
{
    if tasks.len() == 0 {
        assert(s.stream(agent) + announcements(tasks) =~= s.stream(agent));
    } else {
        let head = tasks.drop_last();
        law_all_arrive_in_order(s, topic, head, agent);
        let n = law_stream_keeps_publish_order(s, topic, head, agent);
        let before = s.publish_all(topic, head);
        assert(before.has_room(topic)) by {
            assert forall|a: AgentId| #[trigger]
                before.subscribers(topic).contains(a) implies before.stream(a).len()
                < before.capacity by {
                assert(s.subscribers(topic).contains(a));
            }
        }
        assert(before.streams.dom().contains(agent));
        assert(announcements(tasks) =~= announcements(head).push(
            EventView::NewTask { task: tasks.last() },
        ));
        assert(before.publish(topic, tasks.last()).stream(agent) =~= s.stream(agent)
            + announcements(tasks));
    }
}

/// A publish fails if and only if the policy is to reject and a subscriber of the
/// topic has a full stream; the error is then `SubscriberOverloaded`, and no stream
/// changes.
pub proof fn law_publish_fails_only_when_full(s: BusState, topic: Seq<char>, task: TaskView)
    requires
        s.wf(),
    ensures
        s.publish_result(topic) is Err <==> s.policy == OverflowPolicy::Reject && exists|
            a: AgentId,
        | #[trigger]
            s.subscribers(topic).contains(a) && s.stream(a).len() == s.capacity,
        s.publish_result(topic) is Err ==> s.publish_result(topic) == Err::<Ack, BusError>(
            BusError::SubscriberOverloaded,
        ) && s.publish(topic, task).streams == s.streams,
        s.subscribers(topic).len() == 0 ==> s.publish_result(topic) == Ok::<Ack, BusError>(
            Ack::Delivered { copies: 0 },
        ),
{
    if !s.has_room(topic) {
        let full = choose|a: AgentId| #[trigger]
            s.subscribers(topic).contains(a) && !(s.stream(a).len() < s.capacity);
        assert(s.stream(full).len() <= s.capacity);
    }
    if exists|a: AgentId| #[trigger]
        s.subscribers(topic).contains(a) && s.stream(a).len() == s.capacity {
        let a = choose|a: AgentId| #[trigger]
            s.subscribers(topic).contains(a) && s.stream(a).len() == s.capacity;
        assert(!s.has_room(topic));
    }
}

/// With streams bounded to `capacity` and a subscriber that takes nothing off its empty
/// stream, the publishes numbered 1 to `capacity` are delivered and the next one is
/// refused: after `tasks`, one more publish has room exactly where fewer than
/// `capacity` tasks went before.
pub proof fn law_overload_exactly_past_the_bound(
    s: BusState,
    topic: Seq<char>,
    tasks: Seq<TaskView>,
    agent: AgentId,
)
    requires
        s.wf(),
        s.subscribers(topic) == seq![agent],
        s.stream(agent).len() == 0,
        tasks.len() <= s.capacity,
    ensures
        s.publish_all(topic, tasks).stream(agent) == announcements(tasks),
        s.publish_all(topic, tasks).has_room(topic) <==> tasks.len() < s.capacity,
        s.policy == OverflowPolicy::Reject ==> (s.publish_all(topic, tasks).publish_result(
            topic,
        ) == Err::<Ack, BusError>(BusError::SubscriberOverloaded) <==> tasks.len()
            == s.capacity),
{
    assert(seq![agent].contains(agent)) by {
        assert(seq![agent][0] == agent);
    }
    assert forall|a: AgentId| #[trigger]
        s.subscribers(topic).contains(a) implies s.stream(a).len() + tasks.len()
        <= s.capacity by {
        assert(a == agent);
    }
    law_all_arrive_in_order(s, topic, tasks, agent);
    let n = law_stream_keeps_publish_order(s, topic, tasks, agent);
    let after = s.publish_all(topic, tasks);
    assert(s.stream(agent) + announcements(tasks) =~= announcements(tasks));
    assert(after.subscribers(topic).contains(agent));
    assert(after.stream(agent).len() == tasks.len());
    if tasks.len() < s.capacity {
        assert forall|a: AgentId| #[trigger]
            after.subscribers(topic).contains(a) implies after.stream(a).len()
            < after.capacity by {
            assert(a == agent);
        }
    }
}

} // verus!
