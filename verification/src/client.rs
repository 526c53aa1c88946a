//! A client of the cluster: one connection to the host, and a bus of its own that is
//! fed by local publishes and by the events the host relays.

use crate::agents::texts;
use crate::bus::{Ack, Bus, BusState, OverflowPolicy};
use crate::message::{AgentId, BusError, Event, Task};
use crate::session::{next_state, signal_of, SessionEvent, SessionSignal, SessionState};
use crate::text::same_text;
use crate::wire::{Frame, FrameView};
use vstd::prelude::*;

verus! {

/// The frames of a list as plain values.
pub open spec fn frames_view(frames: Seq<Frame>) -> Seq<FrameView> {
    frames.map_values(|f: Frame| f@)
}

/// One `Subscribe` frame for each topic, in their order.
pub open spec fn subscribe_frames(topics: Seq<Seq<char>>) -> Seq<FrameView> {
    topics.map_values(|t: Seq<char>| FrameView::Subscribe { topic: t })
}

/// What a step of the client's session asks for.
#[derive(Debug, Clone)]
pub struct ClientStep {
    /// What to tell the owner.
    pub signal: SessionSignal,
    /// The frames to write to the host, in this order.
    pub send: Vec<Frame>,
}

/// What a publish at a client led to.
#[derive(Debug, Clone)]
pub struct ClientPublish {
    /// How the client's own subscribers were served.
    pub ack: Ack,
    /// The frame to write to the host, where the publish is to be relayed.
    pub forward: Option<Frame>,
}

/// A client as plain values.
pub struct ClientState {
    pub name: Seq<char>,
    pub cookie: Seq<char>,
    pub session: SessionState,
    /// The topics the client's agents subscribe to, in the order of their first
    /// subscription.
    pub topics: Seq<Seq<char>>,
    pub bus: BusState,
}

impl ClientState {
    /// The client after an event of its session.
    pub open spec fn session_event(self, event: SessionEvent) -> ClientState {
        ClientState { session: next_state(self.session, event), ..self }
    }

    /// The frames to write after an event of the session: the handshake once the
    /// connection stands, and every subscription made so far once the host has
    /// accepted the handshake.
    pub open spec fn frames_after(self, event: SessionEvent) -> Seq<FrameView> {
        if self.session == SessionState::Connecting && event == SessionEvent::Connected {
            seq![FrameView::Handshake { node_name: self.name, cookie: self.cookie }]
        } else if self.session == SessionState::Handshaking && event
            == SessionEvent::HandshakeAccepted {
            subscribe_frames(self.topics)
        } else {
            Seq::empty()
        }
    }

    /// What the host's answer to the handshake means for the session: a handshake that
    /// carries the client's own cookie accepts it, one with another cookie rejects it,
    /// and any other frame means nothing.
    pub open spec fn answer_event(self, frame: FrameView) -> Option<SessionEvent> {
        match frame {
            FrameView::Handshake { cookie, .. } => if cookie == self.cookie {
                Some(SessionEvent::HandshakeAccepted)
            } else {
                Some(SessionEvent::HandshakeRejected)
            },
            _ => None,
        }
    }

    /// The client after an agent has subscribed to a topic.
    pub open spec fn subscribe(self, topic: Seq<char>, agent: AgentId) -> ClientState {
        ClientState {
            topics: if self.topics.contains(topic) {
                self.topics
            } else {
                self.topics.push(topic)
            },
            bus: self.bus.subscribe(topic, agent),
            ..self
        }
    }

    /// Whether that subscription is to be told to the host now: the session is active
    /// and the topic is new.
    pub open spec fn tells_host(self, topic: Seq<char>) -> bool {
        self.session == SessionState::Active && !self.topics.contains(topic)
    }

    /// Whether a publish on the topic is to be relayed: the session is active and the
    /// client's own subscribers were served.
    pub open spec fn relays(self, topic: Seq<char>) -> bool {
        self.session == SessionState::Active && self.bus.has_room(topic)
    }

    /// The client after a frame from the host: an event is published on the client's
    /// bus, anything else changes nothing.
    pub open spec fn receive(self, frame: FrameView) -> ClientState {
        match frame {
            FrameView::Event { topic, task } => ClientState {
                bus: self.bus.publish(topic, task),
                ..self
            },
            _ => self,
        }
    }

    /// What taking that frame returns.
    pub open spec fn receive_result(self, frame: FrameView) -> Result<Ack, BusError> {
        match frame {
            FrameView::Event { topic, .. } => self.bus.publish_result(topic),
            _ => Ok(Ack::Delivered { copies: 0 }),
        }
    }
}

/// Whether the topic stands in the list.
fn knows_topic(list: &Vec<String>, topic: &str) -> (found: bool)
    ensures
        found == texts(list@).contains(topic@),
{
    let mut k: usize = 0;
    while k < list.len()
        invariant
            k <= list@.len(),
            forall|j: int| 0 <= j < k ==> texts(list@)[j] != topic@,
        decreases list@.len() - k,
    {
        if same_text(list[k].as_str(), topic) {
            assert(texts(list@)[k as int] == topic@);
            return true;
        }
        k += 1;
    }
    false
}

/// A client of the cluster.
pub struct Client {
    name: String,
    cookie: String,
    session: SessionState,
    topics: Vec<String>,
    bus: Bus,
}

impl View for Client {
    type V = ClientState;

    closed spec fn view(&self) -> ClientState {
        ClientState {
            name: self.name@,
            cookie: self.cookie@,
            session: self.session,
            topics: texts(self.topics@),
            bus: self.bus@,
        }
    }
}

impl Client {
    /// The bus is sound.
    pub closed spec fn wf(&self) -> bool {
        self.bus.wf()
    }

    /// A client that has not connected yet, with an empty bus.
    pub fn new(name: String, cookie: String, capacity: usize, policy: OverflowPolicy) -> (client:
        Client)
        ensures
            client.wf(),
            client@ == (ClientState {
                name: name@,
                cookie: cookie@,
                session: SessionState::Connecting,
                topics: Seq::empty(),
                bus: BusState {
                    topics: Map::empty(),
                    streams: Map::empty(),
                    capacity: capacity as nat,
                    policy,
                },
            }),
    {
        let client = Client {
            name,
            cookie,
            session: SessionState::Connecting,
            topics: Vec::new(),
            bus: Bus::new(capacity, policy),
        };
        assert(client@.topics =~= Seq::empty());
        client
    }

    /// Where the session stands.
    pub fn session(&self) -> (s: SessionState)
        ensures
            s == self@.session,
    {
        self.session
    }

    /// Takes an event of the session and says what to report and what to write.
    pub fn session_event(&mut self, event: SessionEvent) -> (step: ClientStep)
        requires
            old(self).wf(),
        ensures
            final(self).wf(),
            final(self)@ == old(self)@.session_event(event),
            step.signal == signal_of(old(self)@.session, event),
            frames_view(step.send@) == old(self)@.frames_after(event),
    {
        let before = self.session;
        let out = self.session.step(event);
        self.session = out.next;
        let mut send: Vec<Frame> = Vec::new();
        match (before, event) {
            (SessionState::Connecting, SessionEvent::Connected) => {
                send.push(
                    Frame::Handshake { node_name: self.name.clone(), cookie: self.cookie.clone() },
                );
                assert(frames_view(send@) =~= seq![
                    FrameView::Handshake { node_name: self.name@, cookie: self.cookie@ },
                ]);
            },
            (SessionState::Handshaking, SessionEvent::HandshakeAccepted) => {
                let mut k: usize = 0;
                while k < self.topics.len()
                    invariant
                        k <= self.topics@.len(),
                        frames_view(send@) == subscribe_frames(
                            texts(self.topics@).subrange(0, k as int),
                        ),
                    decreases self.topics@.len() - k,
                {
                    let ghost sent = send@;
                    send.push(Frame::Subscribe { topic: self.topics[k].clone() });
                    proof {
                        let all = texts(self.topics@);
                        assert(all.subrange(0, k + 1) =~= all.subrange(0, k as int).push(
                            all[k as int],
                        ));
                        assert(frames_view(send@) =~= frames_view(sent).push(
                            FrameView::Subscribe { topic: all[k as int] },
                        ));
                        assert(subscribe_frames(all.subrange(0, k + 1)) =~= subscribe_frames(
                            all.subrange(0, k as int),
                        ).push(FrameView::Subscribe { topic: all[k as int] }));
                    }
                    k += 1;
                }
                proof {
                    let all = texts(self.topics@);
                    assert(all.subrange(0, all.len() as int) =~= all);
                }
            },
            _ => {
                assert(frames_view(send@) =~= Seq::empty());
            },
        }
        ClientStep { signal: out.signal, send }
    }

    /// Takes the host's answer to the handshake. A handshake frame is an event of the
    /// session, as `answer_event` says; any other frame changes nothing and asks for
    /// nothing.
    pub fn handshake_answer(&mut self, frame: &Frame) -> (step: ClientStep)
        requires
            old(self).wf(),
        ensures
            final(self).wf(),
            match old(self)@.answer_event(frame@) {
                Some(event) => final(self)@ == old(self)@.session_event(event) && step.signal
                    == signal_of(old(self)@.session, event) && frames_view(step.send@) == old(
                    self,
                )@.frames_after(event),
                None => final(self)@ == old(self)@ && step.signal == SessionSignal::Quiet
                    && step.send@.len() == 0,
            },
    {
        match frame {
            Frame::Handshake { cookie, .. } => {
                if same_text(cookie.as_str(), self.cookie.as_str()) {
                    self.session_event(SessionEvent::HandshakeAccepted)
                } else {
                    self.session_event(SessionEvent::HandshakeRejected)
                }
            },
            _ => ClientStep { signal: SessionSignal::Quiet, send: Vec::new() },
        }
    }

    /// An agent of the client subscribes to a topic. Where the session is active and
    /// the topic is new to the client, the result is the frame that tells the host.
    pub fn subscribe(&mut self, topic: &str, agent: AgentId) -> (tell: Option<Frame>)
        requires
            old(self).wf(),
        ensures
            final(self).wf(),
            final(self)@ == old(self)@.subscribe(topic@, agent),
            match tell {
                Some(frame) => old(self)@.tells_host(topic@) && frame@ == (FrameView::Subscribe {
                    topic: topic@,
                }),
                None => !old(self)@.tells_host(topic@),
            },
    {
        self.bus.subscribe(topic, agent);
        if knows_topic(&self.topics, topic) {
            None
        } else {
            let ghost before = self.topics@;
            self.topics.push(topic.to_owned());
            assert(texts(self.topics@) =~= texts(before).push(topic@));
            match self.session {
                SessionState::Active => Some(Frame::Subscribe { topic: topic.to_owned() }),
                _ => None,
            }
        }
    }

    /// Publishes a task: the client's own subscribers are served as on any bus, and
    /// where they were and the session is active, the result holds the frame that has
    /// the host relay the publish.
    pub fn publish(&mut self, topic: &str, task: &Task) -> (result: Result<
        ClientPublish,
        BusError,
    >)
        requires
            old(self).wf(),
        ensures
            final(self).wf(),
            final(self)@ == (ClientState {
                bus: old(self)@.bus.publish(topic@, task@),
                ..old(self)@
            }),
            match result {
                Ok(out) => Ok::<Ack, BusError>(out.ack) == old(self)@.bus.publish_result(topic@)
                    && match out.forward {
                    Some(frame) => old(self)@.relays(topic@) && frame@ == (FrameView::Publish {
                        topic: topic@,
                        task: task@,
                    }),
                    None => !old(self)@.relays(topic@),
                },
                Err(e) => old(self)@.bus.publish_result(topic@) == Err::<Ack, BusError>(e),
            },
    {
        match self.bus.publish(topic, task) {
            Ok(Ack::Delivered { copies }) => {
                let forward = match self.session {
                    SessionState::Active => Some(
                        Frame::Publish { topic: topic.to_owned(), task: task.duplicate() },
                    ),
                    _ => None,
                };
                Ok(ClientPublish { ack: Ack::Delivered { copies }, forward })
            },
            Ok(Ack::Deferred) => Ok(ClientPublish { ack: Ack::Deferred, forward: None }),
            Err(e) => Err(e),
        }
    }

    /// Takes a frame from the host. An event is published on the client's own bus; any
    /// other frame is dropped.
    pub fn receive(&mut self, frame: &Frame) -> (result: Result<Ack, BusError>)
        requires
            old(self).wf(),
        ensures
            final(self).wf(),
            final(self)@ == old(self)@.receive(frame@),
            result == old(self)@.receive_result(frame@),
    {
        match frame {
            Frame::Event { topic, task } => self.bus.publish(topic.as_str(), task),
            _ => Ok(Ack::Delivered { copies: 0 }),
        }
    }

    /// Takes the oldest event off the stream of an agent of the client.
    pub fn next_event(&mut self, agent: AgentId) -> (event: Option<Event>)
        requires
            old(self).wf(),
        ensures
            final(self).wf(),
            final(self)@ == (ClientState { bus: old(self)@.bus.take(agent), ..old(self)@ }),
            match event {
                Some(e) => old(self)@.bus.front(agent) == Some(e@),
                None => old(self)@.bus.front(agent) is None,
            },
    {
        self.bus.next_event(agent)
    }

    /// An agent of the client shuts down: it leaves every topic and its stream goes.
    pub fn detach(&mut self, agent: AgentId)
        requires
            old(self).wf(),
        ensures
            final(self).wf(),
            final(self)@ == (ClientState { bus: old(self)@.bus.detach(agent), ..old(self)@ }),
    {
        self.bus.detach(agent)
    }
}

} // verus!
