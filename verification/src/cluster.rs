//! The host of a cluster: it admits clients by their cookie, keeps what each of them
//! subscribes to, serves its own subscribers, and says to whom a publish is relayed.

use crate::bus::{Ack, Bus, BusState, OverflowPolicy};
use crate::message::{AgentId, BusError, Event, Task, TaskView};
use crate::text::same_text;
use crate::wire::{Frame, FrameView};
use vstd::prelude::*;

verus! {

/// The identity of one connection to the host.
pub type PeerId = u64;

/// The part a node plays.
#[derive(Clone, Copy, Debug, PartialEq, Eq, Structural)]
pub enum Role {
    Host,
    Client,
}

/// What is known of a node of the cluster.
#[derive(Debug, Clone)]
pub struct ClusterNode {
    pub identity: String,
    pub role: Role,
    pub address: String,
    /// The secret that every member of the cluster shares.
    pub cookie: String,
}

/// A node of the cluster as plain values.
pub struct ClusterNodeView {
    pub identity: Seq<char>,
    pub role: Role,
    pub address: Seq<char>,
    pub cookie: Seq<char>,
}

impl View for ClusterNode {
    type V = ClusterNodeView;

    open spec fn view(&self) -> ClusterNodeView {
        ClusterNodeView {
            identity: self.identity@,
            role: self.role,
            address: self.address@,
            cookie: self.cookie@,
        }
    }
}

/// What a publish at the host led to.
#[derive(Debug, Clone)]
pub struct Relay {
    /// How the host's own subscribers were served.
    pub ack: Ack,
    /// The peers to which the publish is to be written, in the order in which they
    /// connected.
    pub forward_to: Vec<PeerId>,
}

/// What the host does about a frame.
#[derive(Debug, Clone)]
pub enum HostAction {
    /// The handshake is accepted: the session is active.
    Accept,
    /// The frame is refused; after a handshake the connection is to be closed.
    Reject { error: BusError },
    /// The frame is taken in; nothing is to be written.
    Noted,
    /// The frame is to be written to these peers, in this order.
    Forward { to: Vec<PeerId>, frame: Frame },
}

/// A host action as plain values.
pub enum HostActionView {
    Accept,
    Reject { error: BusError },
    Noted,
    Forward { to: Seq<PeerId>, frame: FrameView },
}

impl View for HostAction {
    type V = HostActionView;

    open spec fn view(&self) -> HostActionView {
        match self {
            HostAction::Accept => HostActionView::Accept,
            HostAction::Reject { error } => HostActionView::Reject { error: *error },
            HostAction::Noted => HostActionView::Noted,
            HostAction::Forward { to, frame } => HostActionView::Forward {
                to: to@,
                frame: frame@,
            },
        }
    }
}

/// The host as plain values.
pub struct HostState {
    /// The name under which the host answers a handshake.
    pub name: Seq<char>,
    /// The address the host listens on.
    pub address: Seq<char>,
    /// The cluster's secret.
    pub cookie: Seq<char>,
    /// The admitted peers, in the order in which they connected.
    pub peers: Seq<PeerId>,
    /// The name that each admitted peer gave at its handshake.
    pub names: Map<PeerId, Seq<char>>,
    /// The topics that each admitted peer has said it subscribes to.
    pub declared: Map<PeerId, Set<Seq<char>>>,
    /// The host's own bus.
    pub bus: BusState,
}

impl HostState {
    /// No peer is listed twice, each has its declared topics, and the bus is sound.
    pub open spec fn wf(self) -> bool {
        &&& self.peers.no_duplicates()
        &&& forall|p: PeerId| self.peers.contains(p) <==> self.declared.dom().contains(p)
        &&& forall|p: PeerId| self.peers.contains(p) <==> self.names.dom().contains(p)
        &&& self.bus.wf()
    }

    /// The host after a peer has presented a cookie: admitted where the cookie is the
    /// cluster's, unchanged otherwise.
    pub open spec fn handshake(self, peer: PeerId, name: Seq<char>, cookie: Seq<char>) -> HostState {
        if cookie == self.cookie && !self.peers.contains(peer) {
            HostState {
                peers: self.peers.push(peer),
                names: self.names.insert(peer, name),
                declared: self.declared.insert(peer, Set::empty()),
                ..self
            }
        } else {
            self
        }
    }

    /// What the handshake returns.
    pub open spec fn handshake_result(self, cookie: Seq<char>) -> Result<(), BusError> {
        if cookie == self.cookie {
            Ok(())
        } else {
            Err(BusError::AuthRejected)
        }
    }

    /// The host after an admitted peer has said that it subscribes to a topic; what others
    /// say changes nothing.
    pub open spec fn declare(self, peer: PeerId, topic: Seq<char>) -> HostState {
        if self.peers.contains(peer) {
            HostState {
                declared: self.declared.insert(peer, self.declared[peer].insert(topic)),
                ..self
            }
        } else {
            self
        }
    }

    /// The peer is admitted and has said that it subscribes to the topic.
    pub open spec fn peer_subscribes(self, peer: PeerId, topic: Seq<char>) -> bool {
        self.declared.dom().contains(peer) && self.declared[peer].contains(topic)
    }

    /// The admitted peers that subscribe to the topic, but for the sender, in the order
    /// in which they connected.
    pub open spec fn relay_targets(self, from: Option<PeerId>, topic: Seq<char>) -> Seq<PeerId> {
        self.peers.filter(self.takes_relay(from, topic))
    }

    /// Whether a peer is to get a publish on `topic` that came from `from`: it is not
    /// the sender and it subscribes to the topic.
    pub open spec fn takes_relay(self, from: Option<PeerId>, topic: Seq<char>) -> spec_fn(
        PeerId,
    ) -> bool {
        |p: PeerId| from != Some(p) && self.peer_subscribes(p, topic)
    }

    /// The sender is the host itself or an admitted peer.
    pub open spec fn admits(self, from: Option<PeerId>) -> bool {
        match from {
            Some(p) => self.peers.contains(p),
            None => true,
        }
    }

    /// The host after a publish that came from `from` (`None`: from the host itself).
    pub open spec fn publish(
        self,
        from: Option<PeerId>,
        topic: Seq<char>,
        task: TaskView,
    ) -> HostState {
        if self.admits(from) {
            HostState { bus: self.bus.publish(topic, task), ..self }
        } else {
            self
        }
    }

    /// The peers to which that publish is to be written: none unless the host's own
    /// subscribers were served.
    pub open spec fn forwarded(self, from: Option<PeerId>, topic: Seq<char>) -> Seq<PeerId> {
        if self.admits(from) && self.bus.has_room(topic) {
            self.relay_targets(from, topic)
        } else {
            Seq::empty()
        }
    }

    /// Whether that publish fails, and with which error.
    pub open spec fn publish_error(self, from: Option<PeerId>, topic: Seq<char>) -> Option<
        BusError,
    > {
        if !self.admits(from) {
            Some(BusError::AuthRejected)
        } else {
            match self.bus.publish_result(topic) {
                Ok(_) => None,
                Err(e) => Some(e),
            }
        }
    }

    /// The host after a frame has come over the connection of `peer`.
    pub open spec fn receive(self, peer: PeerId, frame: FrameView) -> HostState {
        match frame {
            FrameView::Handshake { node_name, cookie } => self.handshake(peer, node_name, cookie),
            FrameView::Subscribe { topic } => self.declare(peer, topic),
            FrameView::Publish { topic, task } => self.publish(Some(peer), topic, task),
            FrameView::Event { .. } => self,
        }
    }

    /// What the host does about a frame that has come over the connection of `peer`.
    pub open spec fn answer(self, peer: PeerId, frame: FrameView) -> HostActionView {
        match frame {
            FrameView::Handshake { cookie, .. } => match self.handshake_result(cookie) {
                Ok(_) => HostActionView::Accept,
                Err(error) => HostActionView::Reject { error },
            },
            FrameView::Subscribe { topic } => if self.peers.contains(peer) {
                HostActionView::Noted
            } else {
                HostActionView::Reject { error: BusError::AuthRejected }
            },
            FrameView::Publish { topic, task } => match self.publish_error(Some(peer), topic) {
                Some(error) => HostActionView::Reject { error },
                None => HostActionView::Forward {
                    to: self.forwarded(Some(peer), topic),
                    frame: FrameView::Event { topic, task },
                },
            },
            FrameView::Event { .. } => HostActionView::Noted,
        }
    }

    /// The host after the connection of a peer has ended.
    pub open spec fn disconnect(self, peer: PeerId) -> HostState {
        if self.peers.contains(peer) {
            HostState {
                peers: self.peers.remove(self.peers.index_of(peer)),
                names: self.names.remove(peer),
                declared: self.declared.remove(peer),
                ..self
            }
        } else {
            self
        }
    }
}

/// The topics of a list, as a set.
pub open spec fn topic_set(topics: Seq<String>) -> Set<Seq<char>> {
    Set::new(|t: Seq<char>| exists|k: int| 0 <= k < topics.len() && (#[trigger] topics[k])@ == t)
}

/// Whether the topic stands in the list.
fn has_topic(topics: &Vec<String>, topic: &str) -> (found: bool)
    ensures
        found == topic_set(topics@).contains(topic@),
{
    let mut k: usize = 0;
    while k < topics.len()
        invariant
            k <= topics@.len(),
            forall|j: int| 0 <= j < k ==> (#[trigger] topics@[j])@ != topic@,
        decreases topics@.len() - k,
    {
        if same_text(topics[k].as_str(), topic) {
            return true;
        }
        k += 1;
    }
    false
}

/// One admitted peer.
struct PeerRecord {
    id: PeerId,
    name: String,
    topics: Vec<String>,
}

/// The host of a cluster.
pub struct Host {
    name: String,
    address: String,
    cookie: String,
    peers: Vec<PeerRecord>,
    bus: Bus,
}

impl View for Host {
    type V = HostState;

    closed spec fn view(&self) -> HostState {
        HostState {
            name: self.name@,
            address: self.address@,
            cookie: self.cookie@,
            peers: self.ids(),
            names: Map::new(
                |p: PeerId| self.ids().contains(p),
                |p: PeerId| self.peers@[self.ids().index_of(p)].name@,
            ),
            declared: Map::new(
                |p: PeerId| self.ids().contains(p),
                |p: PeerId| topic_set(self.peers@[self.ids().index_of(p)].topics@),
            ),
            bus: self.bus@,
        }
    }
}

impl Host {
    /// The admitted peers, in the order in which they connected.
    closed spec fn ids(&self) -> Seq<PeerId> {
        self.peers@.map_values(|p: PeerRecord| p.id)
    }

    /// No peer is listed twice and the bus is sound.
    pub closed spec fn wf(&self) -> bool {
        &&& self.ids().no_duplicates()
        &&& self.bus.wf()
    }

    /// The view of a sound host is sound.
    pub proof fn lemma_view_wf(&self)
        requires
            self.wf(),
        ensures
            self@.wf(),
    {
        self.bus.lemma_view_wf();
    }

    /// The record at `i` is the one that the view reads for its peer.
    proof fn lemma_slot(&self, i: int)
        requires
            self.ids().no_duplicates(),
            0 <= i < self.peers@.len(),
        ensures
            self.ids()[i] == self.peers@[i].id,
            self.ids().contains(self.peers@[i].id),
            self.ids().index_of(self.peers@[i].id) == i,
            self@.declared[self.peers@[i].id] == topic_set(self.peers@[i].topics@),
            self@.names[self.peers@[i].id] == self.peers@[i].name@,
    {
        let p = self.peers@[i].id;
        assert(self.ids()[i] == p);
        let j = self.ids().index_of(p);
        assert(self.ids()[j] == p);
    }

    /// A host without peers, with an empty bus.
    pub fn new(
        name: String,
        address: String,
        cookie: String,
        capacity: usize,
        policy: OverflowPolicy,
    ) -> (host: Host)
        ensures
            host.wf(),
            host@ == (HostState {
                name: name@,
                address: address@,
                cookie: cookie@,
                peers: Seq::empty(),
                names: Map::empty(),
                declared: Map::empty(),
                bus: BusState {
                    topics: Map::empty(),
                    streams: Map::empty(),
                    capacity: capacity as nat,
                    policy,
                },
            }),
    {
        let host = Host {
            name,
            address,
            cookie,
            peers: Vec::new(),
            bus: Bus::new(capacity, policy),
        };
        proof {
            assert(host.ids() =~= Seq::empty());
            assert(host@.declared =~= Map::empty());
            assert(host@.names =~= Map::empty());
        }
        host
    }

    /// The frame with which the host answers a handshake that it accepts: its own name
    /// and the cluster's secret.
    pub fn greeting(&self) -> (frame: Frame)
        ensures
            frame@ == (FrameView::Handshake { node_name: self@.name, cookie: self@.cookie }),
    {
        Frame::Handshake { node_name: self.name.clone(), cookie: self.cookie.clone() }
    }

    /// The host's own record.
    pub fn node(&self) -> (node: ClusterNode)
        ensures
            node@ == (ClusterNodeView {
                identity: self@.name,
                role: Role::Host,
                address: self@.address,
                cookie: self@.cookie,
            }),
    {
        ClusterNode {
            identity: self.name.clone(),
            role: Role::Host,
            address: self.address.clone(),
            cookie: self.cookie.clone(),
        }
    }

    /// The name that an admitted peer gave at its handshake; `None` for anyone else.
    pub fn peer_name(&self, peer: PeerId) -> (name: Option<String>)
        requires
            self.wf(),
        ensures
            match name {
                Some(n) => self@.peers.contains(peer) && self@.names[peer] == n@,
                None => !self@.peers.contains(peer),
            },
    {
        match self.find_peer(peer) {
            Some(i) => {
                proof {
                    self.lemma_slot(i as int);
                }
                Some(self.peers[i].name.clone())
            },
            None => None,
        }
    }

    /// Where the peer stands, if it is admitted.
    fn find_peer(&self, peer: PeerId) -> (at: Option<usize>)
        requires
            self.wf(),
        ensures
            at is Some == self@.peers.contains(peer),
            at matches Some(i) ==> i < self.peers@.len() && self.peers@[i as int].id == peer,
    {
        let mut i: usize = 0;
        while i < self.peers.len()
            invariant
                self.wf(),
                i <= self.peers@.len(),
                forall|j: int| 0 <= j < i ==> (#[trigger] self.peers@[j]).id != peer,
            decreases self.peers@.len() - i,
        {
            if self.peers[i].id == peer {
                proof {
                    self.lemma_slot(i as int);
                }
                return Some(i);
            }
            i += 1;
        }
        proof {
            if self.ids().contains(peer) {
                let j = self.ids().index_of(peer);
                assert(self.peers@[j].id == self.ids()[j]);
            }
        }
        None
    }

    /// Whether the peer is admitted.
    pub fn is_peer(&self, peer: PeerId) -> (yes: bool)
        requires
            self.wf(),
        ensures
            yes == self@.peers.contains(peer),
    {
        self.find_peer(peer).is_some()
    }

    /// The admitted peers, in the order in which they connected.
    pub fn peers(&self) -> (list: Vec<PeerId>)
        requires
            self.wf(),
        ensures
            list@ == self@.peers,
    {
        let mut list: Vec<PeerId> = Vec::new();
        let mut i: usize = 0;
        while i < self.peers.len()
            invariant
                i <= self.peers@.len(),
                list@ == self.ids().take(i as int),
            decreases self.peers@.len() - i,
        {
            list.push(self.peers[i].id);
            assert(self.ids().take(i + 1) =~= self.ids().take(i as int).push(
                self.peers@[i as int].id,
            ));
            i += 1;
        }
        assert(self.ids().take(self.peers@.len() as int) =~= self.ids());
        list
    }

    /// Takes the handshake of a connection: the peer is admitted if and only if the
    /// cookie it presents is the cluster's; otherwise the host stays as it was and the
    /// connection is to be closed.
    pub fn handshake(&mut self, peer: PeerId, node_name: &str, cookie: &str) -> (result: Result<
        (),
        BusError,
    >)
        requires
            old(self).wf(),
        ensures
            final(self).wf(),
            final(self)@ == old(self)@.handshake(peer, node_name@, cookie@),
            result == old(self)@.handshake_result(cookie@),
    {
        if !same_text(self.cookie.as_str(), cookie) {
            return Err(BusError::AuthRejected);
        }
        if self.find_peer(peer).is_none() {
            let ghost before = *self;
            self.peers.push(PeerRecord { id: peer, name: node_name.to_owned(), topics: Vec::new() });
            proof {
                let n = before.peers@.len() as int;
                assert(self.ids() =~= before.ids().push(peer));
                assert(self.ids().no_duplicates());
                assert forall|p: PeerId| self.ids().contains(p) implies #[trigger]
                    self@.declared[p] == before@.handshake(peer, node_name@, cookie@).declared[p]
                    && self@.names[p] == before@.handshake(peer, node_name@, cookie@).names[p] by {
                    let j = self.ids().index_of(p);
                    assert(self.ids()[j] == p);
                    self.lemma_slot(j);
                    if j < n {
                        assert(self.peers@[j] == before.peers@[j]);
                        before.lemma_slot(j);
                        assert(before.ids()[j] == p);
                    } else {
                        assert(topic_set(self.peers@[n].topics@) =~= Set::<Seq<char>>::empty());
                    }
                }
                assert forall|p: PeerId| self.ids().contains(p) == (before.ids().contains(p)
                    || p == peer) by {
                    if before.ids().contains(p) {
                        let j = before.ids().index_of(p);
                        assert(self.ids()[j] == p);
                    }
                    if p == peer {
                        assert(self.ids()[n] == p);
                    }
                }
                assert(self@.declared =~= before@.handshake(peer, node_name@, cookie@).declared);
                assert(self@.names =~= before@.handshake(peer, node_name@, cookie@).names);
            }
        }
        Ok(())
    }

    /// Records that an admitted peer subscribes to a topic. What a peer says that was
    /// not admitted is dropped; the result says whether the peer is admitted.
    pub fn peer_subscribe(&mut self, peer: PeerId, topic: &str) -> (admitted: bool)
        requires
            old(self).wf(),
        ensures
            final(self).wf(),
            final(self)@ == old(self)@.declare(peer, topic@),
            admitted == old(self)@.peers.contains(peer),
    {
        let ghost before = *self;
        match self.find_peer(peer) {
            Some(i) => {
                proof {
                    before.lemma_slot(i as int);
                }
                if !has_topic(&self.peers[i].topics, topic) {
                    self.peers[i].topics.push(topic.to_owned());
                }
                proof {
                    assert(self.ids() =~= before.ids());
                    let was = before.peers@[i as int].topics@;
                    let now = self.peers@[i as int].topics@;
                    assert(topic_set(now) =~= topic_set(was).insert(topic@)) by {
                        assert forall|t: Seq<char>| topic_set(now).contains(t) == topic_set(
                            was,
                        ).insert(topic@).contains(t) by {
                            if topic_set(was).contains(t) {
                                let k = choose|k: int|
                                    0 <= k < was.len() && (#[trigger] was[k])@ == t;
                                assert(now[k]@ == t);
                            }
                            if t == topic@ && !topic_set(was).contains(t) {
                                assert(now[was.len() as int]@ == t);
                            }
                            if topic_set(now).contains(t) {
                                let k = choose|k: int|
                                    0 <= k < now.len() && (#[trigger] now[k])@ == t;
                                if k < was.len() {
                                    assert(was[k]@ == t);
                                }
                            }
                        }
                    }
                    assert forall|p: PeerId| self.ids().contains(p) implies #[trigger]
                        self@.declared[p] == before@.declare(peer, topic@).declared[p]
                        && self@.names[p] == before@.names[p] by {
                        let j = self.ids().index_of(p);
                        self.lemma_slot(j);
                        before.lemma_slot(j);
                        if j != i {
                            assert(self.peers@[j] == before.peers@[j]);
                        }
                    }
                    assert(self@.declared =~= before@.declare(peer, topic@).declared);
                    assert(self@.names =~= before@.names);
                }
                true
            },
            None => false,
        }
    }

    /// The peers that take a publish on `topic` that came from `from`.
    fn targets(&self, from: Option<PeerId>, topic: &str) -> (list: Vec<PeerId>)
        requires
            self.wf(),
        ensures
            list@ == self@.relay_targets(from, topic@),
    {
        let ghost pred = self@.takes_relay(from, topic@);
        let mut list: Vec<PeerId> = Vec::new();
        let mut i: usize = 0;
        while i < self.peers.len()
            invariant
                self.wf(),
                pred == self@.takes_relay(from, topic@),
                i <= self.peers@.len(),
                list@ == self.ids().take(i as int).filter(pred),
            decreases self.peers@.len() - i,
        {
            let id = self.peers[i].id;
            let is_sender = match from {
                Some(f) => f == id,
                None => false,
            };
            let subscribed = has_topic(&self.peers[i].topics, topic);
            proof {
                self.lemma_slot(i as int);
                let next = self.ids().take(i + 1);
                assert(next =~= self.ids().take(i as int).push(id));
                assert(pred(id) == (!is_sender && subscribed));
                self.ids().take(i as int).lemma_filter_push(id, pred);
            }
            if !is_sender && subscribed {
                list.push(id);
            }
            i += 1;
        }
        assert(self.ids().take(self.peers@.len() as int) =~= self.ids());
        list
    }

    /// Takes a publish that came over the connection of `from`, or from the host itself
    /// where `from` is `None`. It is applied to the host's own bus as a local publish
    /// would be, and, where the bus delivered it, the result names the other admitted
    /// peers that subscribe to the topic. A sender that was not admitted is refused with
    /// `AuthRejected`, and nothing changes.
    pub fn publish(&mut self, from: Option<PeerId>, topic: &str, task: &Task) -> (result: Result<
        Relay,
        BusError,
    >)
        requires
            old(self).wf(),
        ensures
            final(self).wf(),
            final(self)@ == old(self)@.publish(from, topic@, task@),
            match result {
                Ok(relay) => old(self)@.publish_error(from, topic@) is None && Ok::<Ack, BusError>(
                    relay.ack,
                ) == old(self)@.bus.publish_result(topic@) && relay.forward_to@ == old(
                    self,
                )@.forwarded(from, topic@),
                Err(e) => old(self)@.publish_error(from, topic@) == Some(e),
            },
    {
        let admitted = match from {
            Some(p) => self.find_peer(p).is_some(),
            None => true,
        };
        if !admitted {
            return Err(BusError::AuthRejected);
        }
        let ghost before = *self;
        let outcome = self.bus.publish(topic, task);
        proof {
            assert(self.ids() == before.ids());
            assert(self@.declared =~= before@.declared);
            assert(self@.names =~= before@.names);
        }
        match outcome {
            Ok(Ack::Delivered { copies }) => {
                let forward_to = self.targets(from, topic);
                proof {
                    assert(self@.takes_relay(from, topic@) == before@.takes_relay(from, topic@));
                }
                Ok(Relay { ack: Ack::Delivered { copies }, forward_to })
            },
            Ok(Ack::Deferred) => Ok(Relay { ack: Ack::Deferred, forward_to: Vec::new() }),
            Err(e) => Err(e),
        }
    }

    /// Takes a frame that has come over the connection of `peer` and says what to do
    /// about it. A handshake admits the peer or is refused; a subscription is recorded;
    /// a publish is applied to the host's bus and handed on as an event to the peers
    /// that subscribe to its topic. Whatever comes from a peer that is not admitted is
    /// refused with `AuthRejected`.
    pub fn receive(&mut self, peer: PeerId, frame: Frame) -> (action: HostAction)
        requires
            old(self).wf(),
        ensures
            final(self).wf(),
            final(self)@ == old(self)@.receive(peer, frame@),
            action@ == old(self)@.answer(peer, frame@),
    {
        match frame {
            Frame::Handshake { node_name, cookie } => {
                match self.handshake(peer, node_name.as_str(), cookie.as_str()) {
                    Ok(_) => HostAction::Accept,
                    Err(error) => HostAction::Reject { error },
                }
            },
            Frame::Subscribe { topic } => {
                if self.peer_subscribe(peer, topic.as_str()) {
                    HostAction::Noted
                } else {
                    HostAction::Reject { error: BusError::AuthRejected }
                }
            },
            Frame::Publish { topic, task } => {
                match self.publish(Some(peer), topic.as_str(), &task) {
                    Ok(relay) => HostAction::Forward {
                        to: relay.forward_to,
                        frame: Frame::Event { topic, task },
                    },
                    Err(error) => HostAction::Reject { error },
                }
            },
            Frame::Event { .. } => HostAction::Noted,
        }
    }

    /// Ends the connection of a peer: it is no longer admitted and what it declared is
    /// forgotten. The result says whether it was admitted.
    pub fn disconnect(&mut self, peer: PeerId) -> (was_admitted: bool)
        requires
            old(self).wf(),
        ensures
            final(self).wf(),
            final(self)@ == old(self)@.disconnect(peer),
            was_admitted == old(self)@.peers.contains(peer),
    {
        let ghost before = *self;
        match self.find_peer(peer) {
            Some(i) => {
                proof {
                    before.lemma_slot(i as int);
                }
                self.peers.remove(i);
                proof {
                    assert(self.ids() =~= before.ids().remove(i as int));
                    crate::registry::lemma_remove_distinct(before.ids(), i as int);
                    assert forall|p: PeerId| self.ids().contains(p) implies #[trigger]
                        self@.declared[p] == before@.declared[p] && self@.names[p]
                        == before@.names[p] by {
                        let j = self.ids().index_of(p);
                        self.lemma_slot(j);
                        let pj = if j < i { j } else { j + 1 };
                        assert(self.peers@[j] == before.peers@[pj]);
                        before.lemma_slot(pj);
                    }
                    assert(self@.declared =~= before@.disconnect(peer).declared);
                    assert(self@.names =~= before@.disconnect(peer).names);
                }
                true
            },
            None => false,
        }
    }

    /// An agent of the host itself subscribes to a topic.
    pub fn subscribe(&mut self, topic: &str, agent: AgentId)
        requires
            old(self).wf(),
        ensures
            final(self).wf(),
            final(self)@ == (HostState {
                bus: old(self)@.bus.subscribe(topic@, agent),
                ..old(self)@
            }),
    {
        let ghost before = *self;
        self.bus.subscribe(topic, agent);
        proof {
            assert(self.ids() == before.ids());
            assert(self@.declared =~= before@.declared);
            assert(self@.names =~= before@.names);
        }
    }

    /// An agent of the host itself shuts down: it leaves every topic and its stream goes.
    pub fn detach(&mut self, agent: AgentId)
        requires
            old(self).wf(),
        ensures
            final(self).wf(),
            final(self)@ == (HostState { bus: old(self)@.bus.detach(agent), ..old(self)@ }),
    {
        let ghost before = *self;
        self.bus.detach(agent);
        proof {
            assert(self.ids() == before.ids());
            assert(self@.declared =~= before@.declared);
            assert(self@.names =~= before@.names);
        }
    }

    /// Takes the oldest event off the stream of an agent of the host itself.
    pub fn next_event(&mut self, agent: AgentId) -> (event: Option<Event>)
        requires
            old(self).wf(),
        ensures
            final(self).wf(),
            final(self)@ == (HostState { bus: old(self)@.bus.take(agent), ..old(self)@ }),
            match event {
                Some(e) => old(self)@.bus.front(agent) == Some(e@),
                None => old(self)@.bus.front(agent) is None,
            },
    {
        let ghost before = *self;
        let event = self.bus.next_event(agent);
        proof {
            assert(self.ids() == before.ids());
            assert(self@.declared =~= before@.declared);
            assert(self@.names =~= before@.names);
        }
        event
    }
}

} // verus!
