//! The publish/subscribe bus of one node: every task published on a topic goes, as one
//! `NewTask` event, onto the bounded stream of each agent that subscribes to the topic.

use crate::message::{AgentId, BusError, Event, EventView, Task, TaskView};
use crate::registry::{with_agent, without_agent, TopicRegistry};
use vstd::prelude::*;

verus! {

/// What a publish does when a subscriber's stream is full.
#[derive(Clone, Copy, Debug, PartialEq, Eq, Structural)]
pub enum OverflowPolicy {
    /// The publish fails with `SubscriberOverloaded`.
    Reject,
    /// The publish is put off: the caller waits for the stream to drain and publishes again.
    Wait,
}

/// How a publish that did not fail ended.
#[derive(Clone, Copy, Debug, PartialEq, Eq, Structural)]
pub enum Ack {
    /// Every subscriber got its copy; `copies` is their number.
    Delivered { copies: usize },
    /// A stream was full and nobody got a copy; the caller is to publish again later.
    Deferred,
}

/// The state of a bus as plain values.
pub struct BusState {
    /// The known topics, each with its subscribers in the order in which they subscribed.
    pub topics: Map<Seq<char>, Seq<AgentId>>,
    /// The events waiting on each agent's stream, oldest first.
    pub streams: Map<AgentId, Seq<EventView>>,
    /// The bound on the length of every stream.
    pub capacity: nat,
    /// What a publish does at a full stream.
    pub policy: OverflowPolicy,
}

impl BusState {
    /// The subscribers of a topic; none for an unknown topic.
    pub open spec fn subscribers(self, topic: Seq<char>) -> Seq<AgentId> {
        if self.topics.dom().contains(topic) {
            self.topics[topic]
        } else {
            Seq::empty()
        }
    }

    /// The events waiting for an agent; none for an agent without a stream.
    pub open spec fn stream(self, agent: AgentId) -> Seq<EventView> {
        if self.streams.dom().contains(agent) {
            self.streams[agent]
        } else {
            Seq::empty()
        }
    }

    /// Nobody subscribes twice to a topic, every subscriber has a stream, and no stream
    /// is longer than the bound.
    pub open spec fn wf(self) -> bool {
        &&& forall|t: Seq<char>| #[trigger] self.subscribers(t).no_duplicates()
        &&& forall|t: Seq<char>, a: AgentId| #[trigger]
            self.subscribers(t).contains(a) ==> self.streams.dom().contains(a)
        &&& forall|a: AgentId| #[trigger] self.stream(a).len() <= self.capacity
    }

    /// Every subscriber of the topic has room for one more event.
    pub open spec fn has_room(self, topic: Seq<char>) -> bool {
        forall|a: AgentId| #[trigger]
            self.subscribers(topic).contains(a) ==> self.stream(a).len() < self.capacity
    }

    /// The topic is known from now on; its subscribers stay.
    pub open spec fn declare(self, topic: Seq<char>) -> BusState {
        BusState { topics: self.topics.insert(topic, self.subscribers(topic)), ..self }
    }

    /// One `NewTask` event at the end of the stream of each subscriber of the topic.
    pub open spec fn deliver(self, topic: Seq<char>, task: TaskView) -> BusState {
        BusState {
            streams: Map::new(
                |a: AgentId| self.streams.dom().contains(a),
                |a: AgentId|
                    if self.subscribers(topic).contains(a) {
                        self.streams[a].push(EventView::NewTask { task })
                    } else {
                        self.streams[a]
                    },
            ),
            ..self
        }
    }

    /// The bus after a publish.
    pub open spec fn publish(self, topic: Seq<char>, task: TaskView) -> BusState {
        if self.has_room(topic) {
            self.declare(topic).deliver(topic, task)
        } else {
            self.declare(topic)
        }
    }

    /// What a publish returns.
    pub open spec fn publish_result(self, topic: Seq<char>) -> Result<Ack, BusError> {
        if self.has_room(topic) {
            Ok(Ack::Delivered { copies: self.subscribers(topic).len() as usize })
        } else if self.policy == OverflowPolicy::Reject {
            Err(BusError::SubscriberOverloaded)
        } else {
            Ok(Ack::Deferred)
        }
    }

    /// The bus after `agent` has subscribed to `topic`; a new agent gets an empty stream.
    pub open spec fn subscribe(self, topic: Seq<char>, agent: AgentId) -> BusState {
        BusState {
            topics: self.topics.insert(topic, with_agent(self.subscribers(topic), agent)),
            streams: if self.streams.dom().contains(agent) {
                self.streams
            } else {
                self.streams.insert(agent, Seq::empty())
            },
            ..self
        }
    }

    /// The bus after `agent` has left `topic`; its stream stays.
    pub open spec fn unsubscribe(self, topic: Seq<char>, agent: AgentId) -> BusState {
        if self.topics.dom().contains(topic) {
            BusState {
                topics: self.topics.insert(topic, without_agent(self.subscribers(topic), agent)),
                ..self
            }
        } else {
            self
        }
    }

    /// The bus after `agent` has shut down: it subscribes to nothing and has no stream.
    pub open spec fn detach(self, agent: AgentId) -> BusState {
        BusState {
            topics: Map::new(
                |t: Seq<char>| self.topics.dom().contains(t),
                |t: Seq<char>| without_agent(self.topics[t], agent),
            ),
            streams: self.streams.remove(agent),
            ..self
        }
    }

    /// The bus after `agent` has taken the oldest event off its stream.
    pub open spec fn take(self, agent: AgentId) -> BusState {
        if self.stream(agent).len() > 0 {
            BusState { streams: self.streams.insert(agent, self.streams[agent].drop_first()), ..self }
        } else {
            self
        }
    }

    /// The oldest event waiting for `agent`, if any.
    pub open spec fn front(self, agent: AgentId) -> Option<EventView> {
        if self.stream(agent).len() > 0 {
            Some(self.stream(agent)[0])
        } else {
            None
        }
    }

    /// The bus after the tasks have been published on the topic one after the other.
    pub open spec fn publish_all(self, topic: Seq<char>, tasks: Seq<TaskView>) -> BusState
        decreases tasks.len(),
    {
        if tasks.len() == 0 {
            self
        } else {
            self.publish_all(topic, tasks.drop_last()).publish(topic, tasks.last())
        }
    }
}

/// The events of a stream as plain values.
pub open spec fn events_view(queue: Seq<Event>) -> Seq<EventView> {
    queue.map_values(|e: Event| e@)
}

/// The stream of one agent.
struct Mailbox {
    agent: AgentId,
    queue: Vec<Event>,
}

/// The bus of one node.
pub struct Bus {
    registry: TopicRegistry,
    boxes: Vec<Mailbox>,
    capacity: usize,
    policy: OverflowPolicy,
}

impl View for Bus {
    type V = BusState;

    closed spec fn view(&self) -> BusState {
        BusState {
            topics: Map::new(
                |t: Seq<char>| self.registry.knows(t),
                |t: Seq<char>| self.registry.subscribers(t),
            ),
            streams: Map::new(
                |a: AgentId| self.has_box(a),
                |a: AgentId| events_view(self.boxes@[self.box_of(a)].queue@),
            ),
            capacity: self.capacity as nat,
            policy: self.policy,
        }
    }
}

impl Bus {
    /// The agent has a stream.
    closed spec fn has_box(&self, agent: AgentId) -> bool {
        exists|i: int| 0 <= i < self.boxes@.len() && (#[trigger] self.boxes@[i]).agent == agent
    }

    /// Where the agent's stream stands.
    closed spec fn box_of(&self, agent: AgentId) -> int {
        choose|i: int| 0 <= i < self.boxes@.len() && (#[trigger] self.boxes@[i]).agent == agent
    }

    /// The registry is sound, no agent has two streams, no stream is over the bound and
    /// every subscriber has a stream.
    pub closed spec fn wf(&self) -> bool {
        &&& self.registry.wf()
        &&& forall|i: int, j: int|
            0 <= i < j < self.boxes@.len() ==> (#[trigger] self.boxes@[i]).agent != (
            #[trigger] self.boxes@[j]).agent
        &&& forall|i: int|
            0 <= i < self.boxes@.len() ==> (#[trigger] self.boxes@[i]).queue@.len()
                <= self.capacity
        &&& forall|t: Seq<char>, a: AgentId| #[trigger]
            self.registry.subscribers(t).contains(a) ==> self.has_box(a)
    }

    /// The stream at `i` is the one that the view shows for its agent.
    proof fn lemma_box(&self, i: int)
        requires
            forall|i: int, j: int|
                0 <= i < j < self.boxes@.len() ==> (#[trigger] self.boxes@[i]).agent != (
                #[trigger] self.boxes@[j]).agent,
            0 <= i < self.boxes@.len(),
        ensures
            self.has_box(self.boxes@[i].agent),
            self.box_of(self.boxes@[i].agent) == i,
            self@.stream(self.boxes@[i].agent) == events_view(self.boxes@[i].queue@),
    {
        let a = self.boxes@[i].agent;
        let j = choose|j: int| 0 <= j < self.boxes@.len() && (#[trigger] self.boxes@[j]).agent == a;
        assert(j == i);
    }

    /// The view of a sound bus is sound.
    pub proof fn lemma_view_wf(&self)
        requires
            self.wf(),
        ensures
            self@.wf(),
    {
        let v = self@;
        assert forall|t: Seq<char>| #[trigger] v.subscribers(t).no_duplicates() by {
            self.registry.lemma_subscribers_distinct(t);
        }
        assert forall|a: AgentId| #[trigger] v.stream(a).len() <= v.capacity by {
            if self.has_box(a) {
                let i = self.box_of(a);
                self.lemma_box(i);
            }
        }
        assert forall|t: Seq<char>, a: AgentId| #[trigger]
            v.subscribers(t).contains(a) implies v.streams.dom().contains(a) by {
            self.registry.lemma_subscribers_distinct(t);
            assert(self.registry.subscribers(t).contains(a));
        }
    }

    /// A bus without topics and streams.
    pub fn new(capacity: usize, policy: OverflowPolicy) -> (bus: Bus)
        ensures
            bus.wf(),
            bus@ == (BusState {
                topics: Map::empty(),
                streams: Map::empty(),
                capacity: capacity as nat,
                policy,
            }),
    {
        let bus = Bus { registry: TopicRegistry::new(), boxes: Vec::new(), capacity, policy };
        proof {
            assert(bus@.topics =~= Map::empty());
            assert(bus@.streams =~= Map::empty());
            assert forall|t: Seq<char>, a: AgentId| #[trigger]
                bus.registry.subscribers(t).contains(a) implies bus.has_box(a) by {
                assert(bus.registry.subscribers(t) == Seq::<AgentId>::empty());
            }
        }
        bus
    }

    /// The bound on the length of every stream.
    pub fn capacity(&self) -> (c: usize)
        ensures
            c == self@.capacity,
    {
        self.capacity
    }

    /// What a publish does at a full stream.
    pub fn policy(&self) -> (p: OverflowPolicy)
        ensures
            p == self@.policy,
    {
        self.policy
    }

    /// Where the agent's stream stands, if it has one.
    fn find_box(&self, agent: AgentId) -> (at: Option<usize>)
        ensures
            at is Some == self.has_box(agent),
            at matches Some(i) ==> i < self.boxes@.len() && self.boxes@[i as int].agent == agent,
    {
        let mut i: usize = 0;
        while i < self.boxes.len()
            invariant
                i <= self.boxes@.len(),
                forall|j: int| 0 <= j < i ==> (#[trigger] self.boxes@[j]).agent != agent,
            decreases self.boxes@.len() - i,
        {
            if self.boxes[i].agent == agent {
                return Some(i);
            }
            i += 1;
        }
        None
    }

    /// Two buses whose streams belong to the same agents in the same order show the
    /// same agents, each at the same place.
    proof fn lemma_same_agents(before: &Bus, after: &Bus)
        requires
            forall|i: int, j: int|
                0 <= i < j < before.boxes@.len() ==> (#[trigger] before.boxes@[i]).agent != (
                #[trigger] before.boxes@[j]).agent,
            after.boxes@.len() == before.boxes@.len(),
            forall|i: int|
                0 <= i < before.boxes@.len() ==> (#[trigger] after.boxes@[i]).agent
                    == before.boxes@[i].agent,
        ensures
            forall|a: AgentId| after.has_box(a) == before.has_box(a),
            forall|a: AgentId| before.has_box(a) ==> after.box_of(a) == before.box_of(a),
            forall|i: int, j: int|
                0 <= i < j < after.boxes@.len() ==> (#[trigger] after.boxes@[i]).agent != (
                #[trigger] after.boxes@[j]).agent,
    {
        assert forall|i: int, j: int| 0 <= i < j < after.boxes@.len() implies (
        #[trigger] after.boxes@[i]).agent != (#[trigger] after.boxes@[j]).agent by {
            assert(before.boxes@[i].agent != before.boxes@[j].agent);
        }
        assert forall|a: AgentId| after.has_box(a) == before.has_box(a) by {
            if before.has_box(a) {
                let i = before.box_of(a);
                assert(after.boxes@[i].agent == a);
            }
            if after.has_box(a) {
                let i = after.box_of(a);
                assert(before.boxes@[i].agent == a);
            }
        }
        assert forall|a: AgentId| before.has_box(a) implies after.box_of(a) == before.box_of(
            a,
        ) by {
            let i = before.box_of(a);
            assert(after.boxes@[i].agent == a);
            after.lemma_box(i);
        }
    }

    /// The agent subscribes to the topic. A second time changes nothing; an agent new to
    /// the bus gets an empty stream.
    pub fn subscribe(&mut self, topic: &str, agent: AgentId)
        requires
            old(self).wf(),
        ensures
            final(self).wf(),
            final(self)@ == old(self)@.subscribe(topic@, agent),
    {
        let ghost before = *self;
        proof {
            before.registry.lemma_subscribers_distinct(topic@);
        }
        self.registry.subscribe(topic, agent);
        let ghost mid = *self;
        if self.find_box(agent).is_none() {
            self.boxes.push(Mailbox { agent, queue: Vec::new() });
            proof {
                let n = before.boxes@.len() as int;
                assert(self.boxes@[n].agent == agent);
                assert forall|i: int, j: int| 0 <= i < j < self.boxes@.len() implies (
                #[trigger] self.boxes@[i]).agent != (#[trigger] self.boxes@[j]).agent by {
                    if j == n {
                        assert(before.boxes@[i].agent != agent);
                    } else {
                        assert(before.boxes@[i].agent != before.boxes@[j].agent);
                    }
                }
                assert forall|a: AgentId| self.has_box(a) == (before.has_box(a) || a
                    == agent) by {
                    if before.has_box(a) {
                        let i = before.box_of(a);
                        assert(self.boxes@[i].agent == a);
                    }
                    if self.has_box(a) {
                        let i = self.box_of(a);
                        if i < n {
                            assert(before.boxes@[i].agent == a);
                        }
                    }
                }
                assert forall|a: AgentId| before.has_box(a) implies events_view(
                    self.boxes@[self.box_of(a)].queue@,
                ) == events_view(before.boxes@[before.box_of(a)].queue@) by {
                    let i = before.box_of(a);
                    assert(self.boxes@[i] == before.boxes@[i]);
                    self.lemma_box(i);
                }
                self.lemma_box(n);
                assert(events_view(self.boxes@[n].queue@) =~= Seq::<EventView>::empty());
            }
        }
        proof {
            assert forall|t: Seq<char>, a: AgentId| #[trigger]
                self.registry.subscribers(t).contains(a) implies self.has_box(a) by {
                if t == topic@ {
                    if a != agent {
                        assert(before.registry.subscribers(t).contains(a));
                    }
                } else {
                    assert(before.registry.subscribers(t).contains(a));
                }
            }
            assert(self@.topics =~= before@.subscribe(topic@, agent).topics);
            assert(self@.streams =~= before@.subscribe(topic@, agent).streams);
        }
    }

    /// The agent leaves the topic; its stream and what waits on it stay.
    pub fn unsubscribe(&mut self, topic: &str, agent: AgentId)
        requires
            old(self).wf(),
        ensures
            final(self).wf(),
            final(self)@ == old(self)@.unsubscribe(topic@, agent),
    {
        let ghost before = *self;
        proof {
            before.registry.lemma_subscribers_distinct(topic@);
        }
        self.registry.unsubscribe(topic, agent);
        proof {
            Self::lemma_same_agents(&before, self);
            assert forall|t: Seq<char>, a: AgentId| #[trigger]
                self.registry.subscribers(t).contains(a) implies self.has_box(a) by {
                if t == topic@ {
                    let list = before.registry.subscribers(t);
                    if list.contains(agent) {
                        crate::registry::lemma_remove_distinct(list, list.index_of(agent));
                    }
                    assert(list.contains(a));
                } else {
                    assert(before.registry.subscribers(t).contains(a));
                }
            }
            assert(self@.topics =~= before@.unsubscribe(topic@, agent).topics);
            assert(self@.streams =~= before@.unsubscribe(topic@, agent).streams);
        }
    }

    /// Whether every agent of `list` has room for one more event.
    fn room_for(&self, list: &Vec<AgentId>) -> (room: bool)
        requires
            self.wf(),
        ensures
            room == forall|a: AgentId| #[trigger]
                list@.contains(a) ==> self@.stream(a).len() < self@.capacity,
    {
        let mut k: usize = 0;
        while k < list.len()
            invariant
                self.wf(),
                k <= list@.len(),
                forall|j: int|
                    0 <= j < k ==> self@.stream(#[trigger] list@[j]).len() < self@.capacity,
            decreases list@.len() - k,
        {
            let n = self.pending(list[k]);
            if n >= self.capacity {
                assert(list@.contains(list@[k as int]));
                return false;
            }
            k += 1;
        }
        true
    }

    /// Publishes the task on the topic: one `NewTask` event goes to the end of the stream
    /// of every subscriber, or, where one of them has no room, to nobody. A topic without
    /// subscribers takes any publish. Fails only under the policy `Reject`, and only
    /// where a subscriber has no room.
    pub fn publish(&mut self, topic: &str, task: &Task) -> (result: Result<Ack, BusError>)
        requires
            old(self).wf(),
        ensures
            final(self).wf(),
            final(self)@ == old(self)@.publish(topic@, task@),
            result == old(self)@.publish_result(topic@),
    {
        let ghost start = *self;
        self.registry.declare(topic);
        let ghost mid = *self;
        proof {
            Self::lemma_same_agents(&start, self);
            start.registry.lemma_subscribers_distinct(topic@);
            assert(mid@.topics =~= start@.declare(topic@).topics);
            assert(mid@.streams =~= start@.streams);
            assert(mid@ == start@.declare(topic@));
            mid.lemma_view_wf();
        }
        let list = self.subscribers_of(topic);
        if !self.room_for(&list) {
            return match self.policy {
                OverflowPolicy::Reject => Err(BusError::SubscriberOverloaded),
                OverflowPolicy::Wait => Ok(Ack::Deferred),
            };
        }
        let ghost event = EventView::NewTask { task: task@ };
        let mut k: usize = 0;
        while k < list.len()
            invariant
                mid.wf(),
                k <= list@.len(),
                list@ == mid@.subscribers(topic@),
                list@.no_duplicates(),
                forall|a: AgentId| #[trigger]
                    list@.contains(a) ==> mid@.stream(a).len() < mid@.capacity,
                forall|a: AgentId| list@.contains(a) ==> mid.has_box(a),
                event == (EventView::NewTask { task: task@ }),
                self.registry == mid.registry,
                self.capacity == mid.capacity,
                self.policy == mid.policy,
                self.boxes@.len() == mid.boxes@.len(),
                forall|i: int|
                    0 <= i < mid.boxes@.len() ==> (#[trigger] self.boxes@[i]).agent
                        == mid.boxes@[i].agent,
                forall|i: int|
                    0 <= i < mid.boxes@.len() ==> events_view((#[trigger] self.boxes@[i]).queue@)
                        == if list@.take(k as int).contains(mid.boxes@[i].agent) {
                        events_view(mid.boxes@[i].queue@).push(event)
                    } else {
                        events_view(mid.boxes@[i].queue@)
                    },
            decreases list@.len() - k,
        {
            let agent = list[k];
            let ghost step = *self;
            proof {
                assert(list@.contains(agent));
                Self::lemma_same_agents(&mid, self);
            }
            match self.find_box(agent) {
                Some(i) => {
                    let copy = Event::NewTask { task: task.duplicate() };
                    self.boxes[i].queue.push(copy);
                    proof {
                        let done = list@.take(k as int);
                        let next = list@.take(k + 1);
                        assert(!done.contains(agent)) by {
                            if done.contains(agent) {
                                let j = choose|j: int| 0 <= j < done.len() && done[j] == agent;
                                assert(list@[j] == list@[k as int]);
                            }
                        }
                        assert(next =~= done.push(agent));
                        assert(events_view(self.boxes@[i as int].queue@) =~= events_view(
                            step.boxes@[i as int].queue@,
                        ).push(event));
                        assert forall|x: int| 0 <= x < mid.boxes@.len() implies events_view(
                            (#[trigger] self.boxes@[x]).queue@,
                        ) == if next.contains(mid.boxes@[x].agent) {
                            events_view(mid.boxes@[x].queue@).push(event)
                        } else {
                            events_view(mid.boxes@[x].queue@)
                        } by {
                            let who = mid.boxes@[x].agent;
                            if x == i {
                                assert(next[k as int] == agent);
                            } else {
                                assert(self.boxes@[x] == step.boxes@[x]);
                                assert(step.boxes@[x].agent != step.boxes@[i as int].agent);
                                if next.contains(who) {
                                    let j = choose|j: int| 0 <= j < next.len() && next[j] == who;
                                    assert(done[j] == who);
                                }
                                if done.contains(who) {
                                    let j = choose|j: int| 0 <= j < done.len() && done[j] == who;
                                    assert(next[j] == who);
                                }
                            }
                        }
                    }
                },
                None => {},
            }
            k += 1;
        }
        proof {
            assert(list@.take(list@.len() as int) =~= list@);
            Self::lemma_same_agents(&mid, self);
            let goal = mid@.deliver(topic@, task@);
            assert forall|a: AgentId| self.has_box(a) implies #[trigger] self@.streams[a]
                == goal.streams[a] by {
                let i = mid.box_of(a);
                mid.lemma_box(i);
                self.lemma_box(i);
            }
            assert(self@.streams =~= goal.streams);
            assert(self@.topics =~= goal.topics);
            assert forall|i: int| 0 <= i < self.boxes@.len() implies (
            #[trigger] self.boxes@[i]).queue@.len() <= self.capacity by {
                let a = mid.boxes@[i].agent;
                mid.lemma_box(i);
                assert(events_view(self.boxes@[i].queue@).len() == self.boxes@[i].queue@.len());
                assert(events_view(mid.boxes@[i].queue@).len() == mid.boxes@[i].queue@.len());
            }
            assert(start@.has_room(topic@));
        }
        Ok(Ack::Delivered { copies: list.len() })
    }

    /// Takes the oldest event off the agent's stream; `None` where nothing waits.
    pub fn next_event(&mut self, agent: AgentId) -> (event: Option<Event>)
        requires
            old(self).wf(),
        ensures
            final(self).wf(),
            final(self)@ == old(self)@.take(agent),
            match event {
                Some(e) => old(self)@.front(agent) == Some(e@),
                None => old(self)@.front(agent) is None,
            },
    {
        let ghost before = *self;
        match self.find_box(agent) {
            Some(i) => {
                proof {
                    before.lemma_box(i as int);
                }
                if self.boxes[i].queue.len() == 0 {
                    return None;
                }
                let e = self.boxes[i].queue.remove(0);
                proof {
                    Self::lemma_same_agents(&before, self);
                    self.lemma_box(i as int);
                    assert(events_view(self.boxes@[i as int].queue@) =~= events_view(
                        before.boxes@[i as int].queue@,
                    ).drop_first());
                    assert forall|a: AgentId| self.has_box(a) && a != agent implies #[trigger]
                        self@.streams[a] == before@.streams[a] by {
                        let j = before.box_of(a);
                        assert(self.boxes@[j] == before.boxes@[j]);
                    }
                    assert(self@.streams =~= before@.take(agent).streams);
                    assert(self@.topics =~= before@.topics);
                }
                Some(e)
            },
            None => None,
        }
    }

    /// The agent shuts down: it leaves every topic, and its stream goes with what waits on it.
    pub fn detach(&mut self, agent: AgentId)
        requires
            old(self).wf(),
        ensures
            final(self).wf(),
            final(self)@ == old(self)@.detach(agent),
    {
        let ghost before = *self;
        self.registry.release(agent);
        let ghost mid = *self;
        proof {
            Self::lemma_same_agents(&before, self);
        }
        match self.find_box(agent) {
            Some(i) => {
                self.boxes.remove(i);
                proof {
                    let n = mid.boxes@.len() as int;
                    assert forall|x: int, y: int| 0 <= x < y < self.boxes@.len() implies (
                    #[trigger] self.boxes@[x]).agent != (#[trigger] self.boxes@[y]).agent by {
                        let px = if x < i { x } else { x + 1 };
                        let py = if y < i { y } else { y + 1 };
                        assert(self.boxes@[x] == mid.boxes@[px]);
                        assert(self.boxes@[y] == mid.boxes@[py]);
                        assert(mid.boxes@[px].agent != mid.boxes@[py].agent);
                    }
                    assert forall|a: AgentId| self.has_box(a) == (mid.has_box(a) && a
                        != agent) by {
                        if mid.has_box(a) && a != agent {
                            let j = mid.box_of(a);
                            if j < i {
                                assert(self.boxes@[j].agent == a);
                            } else {
                                assert(self.boxes@[j - 1].agent == a);
                            }
                        }
                        if self.has_box(a) {
                            let j = self.box_of(a);
                            let pj = if j < i { j } else { j + 1 };
                            assert(self.boxes@[j] == mid.boxes@[pj]);
                            assert(mid.boxes@[pj].agent == a);
                            assert(mid.boxes@[pj].agent != mid.boxes@[i as int].agent);
                        }
                    }
                    assert forall|a: AgentId| self.has_box(a) implies #[trigger] self@.streams[a]
                        == before@.streams[a] by {
                        let j = self.box_of(a);
                        let pj = if j < i { j } else { j + 1 };
                        assert(self.boxes@[j] == mid.boxes@[pj]);
                        mid.lemma_box(pj);
                        assert(mid.boxes@[pj] == before.boxes@[pj]) by {
                            assert(mid.boxes == before.boxes);
                        }
                        before.lemma_box(pj);
                    }
                    assert forall|x: int| 0 <= x < self.boxes@.len() implies (
                    #[trigger] self.boxes@[x]).queue@.len() <= self.capacity by {
                        let px = if x < i { x } else { x + 1 };
                        assert(self.boxes@[x] == mid.boxes@[px]);
                    }
                }
            },
            None => {},
        }
        proof {
            assert forall|t: Seq<char>, a: AgentId| #[trigger]
                self.registry.subscribers(t).contains(a) implies self.has_box(a) by {
                let list = before.registry.subscribers(t);
                before.registry.lemma_subscribers_distinct(t);
                if list.contains(agent) {
                    crate::registry::lemma_remove_distinct(list, list.index_of(agent));
                }
                assert(list.contains(a));
                assert(a != agent);
            }
            assert(self@.topics =~= before@.detach(agent).topics);
            assert(self@.streams =~= before@.detach(agent).streams);
        }
    }

    /// The subscribers of the topic, in the order in which they subscribed.
    pub fn subscribers_of(&self, topic: &str) -> (list: Vec<AgentId>)
        requires
            self.wf(),
        ensures
            list@ == self@.subscribers(topic@),
    {
        proof {
            self.registry.lemma_subscribers_distinct(topic@);
        }
        self.registry.subscribers_of(topic)
    }

    /// How many events wait for the agent.
    pub fn pending(&self, agent: AgentId) -> (n: usize)
        requires
            self.wf(),
        ensures
            n == self@.stream(agent).len(),
    {
        match self.find_box(agent) {
            Some(i) => {
                proof {
                    self.lemma_box(i as int);
                }
                self.boxes[i].queue.len()
            },
            None => 0,
        }
    }
}

/// The tasks as the events that announce them.
pub open spec fn announcements(tasks: Seq<TaskView>) -> Seq<EventView> {
    tasks.map_values(|task: TaskView| EventView::NewTask { task })
}

} // verus!
