//! What holds of every host: who is admitted and to whom a publish is relayed.

use crate::cluster::{HostState, PeerId};
use crate::message::{BusError, TaskView};
use vstd::prelude::*;

verus! {

/// What is kept of a sequence without duplicates has no duplicates and stands in the
/// order of the sequence.
pub proof fn lemma_filter_keeps_order(s: Seq<PeerId>, pred: spec_fn(PeerId) -> bool)
    requires
        s.no_duplicates(),
    ensures
        s.filter(pred).no_duplicates(),
        forall|p: PeerId| s.filter(pred).contains(p) <==> s.contains(p) && pred(p),
        forall|i: int, j: int|
            0 <= i < j < s.filter(pred).len() ==> s.index_of(#[trigger] s.filter(pred)[i])
                < s.index_of(#[trigger] s.filter(pred)[j]),
    decreases s.len(),
{
    reveal(Seq::filter);
    let f = s.filter(pred);
    if s.len() > 0 {
        let rest = s.drop_last();
        let last = s.last();
        let g = rest.filter(pred);
        assert(rest.no_duplicates());
        lemma_filter_keeps_order(rest, pred);
        assert(!rest.contains(last)) by {
            if rest.contains(last) {
                let k = choose|k: int| 0 <= k < rest.len() && rest[k] == last;
                assert(s[k] == s[s.len() - 1]);
            }
        }
        assert forall|p: PeerId| rest.contains(p) implies s.contains(p) && s.index_of(p)
            == rest.index_of(p) by {
            let k = rest.index_of(p);
            assert(rest[k] == p);
            assert(s[k] == p);
            let m = s.index_of(p);
            assert(s[m] == p);
        }
        assert(s.contains(last)) by {
            assert(s[s.len() - 1] == last);
        }
        assert(s.index_of(last) == s.len() - 1) by {
            let m = s.index_of(last);
            assert(s[m] == last);
        }
        assert forall|p: PeerId| s.contains(p) implies rest.contains(p) || p == last by {
            let k = choose|k: int| 0 <= k < s.len() && s[k] == p;
            if k < s.len() - 1 {
                assert(rest[k] == p);
            }
        }
        assert forall|p: PeerId| f.contains(p) <==> s.contains(p) && pred(p) by {
            if f.contains(p) {
                let k = choose|k: int| 0 <= k < f.len() && f[k] == p;
                if k < g.len() {
                    assert(g[k] == p);
                    assert(g.contains(p));
                }
            }
            if s.contains(p) && pred(p) {
                if p == last {
                    assert(f[f.len() - 1] == p);
                } else {
                    assert(g.contains(p));
                    let k = choose|k: int| 0 <= k < g.len() && g[k] == p;
                    assert(f[k] == p);
                }
            }
        }
        assert forall|i: int, j: int| 0 <= i < j < f.len() implies f[i] != f[j] && s.index_of(
            #[trigger] f[i],
        ) < s.index_of(#[trigger] f[j]) by {
            assert(g[i] == f[i]);
            assert(g.contains(g[i]));
            assert(rest.contains(f[i]));
            assert(rest[rest.index_of(f[i])] == f[i]);
            if j < g.len() {
                assert(g[j] == f[j]);
                assert(g.contains(g[j]));
                assert(rest.contains(f[j]));
            } else {
                assert(f[j] == last);
            }
        }
    }
}

/// A publish is relayed to exactly the admitted peers that subscribe to its topic and
/// did not send it: to each of them once, and in the order in which they connected.
pub proof fn law_relay_without_loss_or_duplication(
    s: HostState,
    from: Option<PeerId>,
    topic: Seq<char>,
)
    requires
        s.wf(),
    ensures
        s.relay_targets(from, topic).no_duplicates(),
        forall|p: PeerId|
            s.relay_targets(from, topic).contains(p) <==> s.peers.contains(p) && from != Some(p)
                && s.peer_subscribes(p, topic),
        forall|i: int, j: int|
            0 <= i < j < s.relay_targets(from, topic).len() ==> s.peers.index_of(
                #[trigger] s.relay_targets(from, topic)[i],
            ) < s.peers.index_of(#[trigger] s.relay_targets(from, topic)[j]),
{
    lemma_filter_keeps_order(s.peers, s.takes_relay(from, topic));
}

/// One thing that happens at a host.
pub enum HostOp {
    /// A connection presents a cookie.
    Handshake { peer: PeerId, name: Seq<char>, cookie: Seq<char> },
    /// A connection says that it subscribes to a topic.
    Declare { peer: PeerId, topic: Seq<char> },
    /// A publish arrives, from a connection or from the host itself.
    Publish { from: Option<PeerId>, topic: Seq<char>, task: TaskView },
    /// A connection ends.
    Disconnect { peer: PeerId },
}

/// The host after one thing has happened.
pub open spec fn apply(s: HostState, op: HostOp) -> HostState {
    match op {
        HostOp::Handshake { peer, name, cookie } => s.handshake(peer, name, cookie),
        HostOp::Declare { peer, topic } => s.declare(peer, topic),
        HostOp::Publish { from, topic, task } => s.publish(from, topic, task),
        HostOp::Disconnect { peer } => s.disconnect(peer),
    }
}

/// The host after a run of things has happened.
pub open spec fn apply_all(s: HostState, ops: Seq<HostOp>) -> HostState
    decreases ops.len(),
{
    if ops.len() == 0 {
        s
    } else {
        apply(apply_all(s, ops.drop_last()), ops.last())
    }
}

/// Whatever `peer` presents in `ops`, it is never the cookie.
pub open spec fn never_presents(ops: Seq<HostOp>, peer: PeerId, cookie: Seq<char>) -> bool {
    forall|i: int|
        0 <= i < ops.len() ==> match #[trigger] ops[i] {
            HostOp::Handshake { peer: p, cookie: c, .. } => p == peer ==> c != cookie,
            _ => true,
        }
}

/// Each thing that happens leaves a sound host sound, with the cookie it had.
pub proof fn lemma_apply_keeps(s: HostState, op: HostOp)
    requires
        s.wf(),
    ensures
        apply(s, op).wf(),
        apply(s, op).cookie == s.cookie,
{
    let after = apply(s, op);
    match op {
        HostOp::Handshake { peer, name, cookie } => {
            if cookie == s.cookie && !s.peers.contains(peer) {
                let n = s.peers.len() as int;
                assert forall|i: int, j: int| 0 <= i < j < after.peers.len() implies after.peers[i]
                    != after.peers[j] by {
                    assert(after.peers[i] == s.peers[i]);
                    assert(s.peers.contains(s.peers[i]));
                    if j < n {
                        assert(after.peers[j] == s.peers[j]);
                    }
                }
                assert forall|p: PeerId| after.peers.contains(p) <==> s.peers.contains(p) || p
                    == peer by {
                    if s.peers.contains(p) {
                        let k = s.peers.index_of(p);
                        assert(s.peers[k] == p);
                        assert(after.peers[k] == p);
                    }
                    if p == peer {
                        assert(after.peers[n] == p);
                    }
                    if after.peers.contains(p) {
                        let k = choose|k: int| 0 <= k < after.peers.len() && after.peers[k] == p;
                        if k < n {
                            assert(s.peers[k] == p);
                        }
                    }
                }
                assert forall|p: PeerId| after.peers.contains(p) <==> after.declared.dom().contains(
                    p,
                ) by {
                    assert(s.peers.contains(p) <==> s.declared.dom().contains(p));
                }
                assert forall|p: PeerId| after.peers.contains(p) <==> after.names.dom().contains(
                    p,
                ) by {
                    assert(s.peers.contains(p) <==> s.names.dom().contains(p));
                }
            }
        },
        HostOp::Declare { peer, topic } => {
            assert forall|p: PeerId| after.peers.contains(p) <==> after.declared.dom().contains(
                p,
            ) by {
                assert(s.peers.contains(p) <==> s.declared.dom().contains(p));
            }
        },
        HostOp::Publish { from, topic, task } => {
            if s.admits(from) {
                crate::bus_laws::lemma_publish_keeps(s.bus, topic, task);
            }
        },
        HostOp::Disconnect { peer } => {
            if s.peers.contains(peer) {
                let k = s.peers.index_of(peer);
                assert(s.peers[k] == peer);
                crate::registry::lemma_remove_distinct(s.peers, k);
                assert forall|p: PeerId| after.peers.contains(p) <==> s.peers.contains(p) && p
                    != peer by {
                    if p != peer {
                        assert(s.peers.remove(k).contains(p) == s.peers.contains(p));
                    }
                }
                assert forall|p: PeerId| after.peers.contains(p) <==> after.declared.dom().contains(
                    p,
                ) by {
                    assert(s.peers.contains(p) <==> s.declared.dom().contains(p));
                }
                assert forall|p: PeerId| after.peers.contains(p) <==> after.names.dom().contains(
                    p,
                ) by {
                    assert(s.peers.contains(p) <==> s.names.dom().contains(p));
                }
            }
        },
    }
}

/// A peer that presents a wrong cookie is refused with `AuthRejected`, and the host
/// stays exactly as it was.
pub proof fn law_wrong_cookie_is_rejected(
    s: HostState,
    peer: PeerId,
    name: Seq<char>,
    cookie: Seq<char>,
)
    requires
        cookie != s.cookie,
    ensures
        s.handshake_result(cookie) == Err::<(), BusError>(BusError::AuthRejected),
        s.handshake(peer, name, cookie) == s,
{
}

/// A peer that never presents the cluster's cookie is never among the admitted peers,
/// and no publish is ever relayed to it, whatever else happens at the host.
pub proof fn law_wrong_cookie_never_admitted(s: HostState, ops: Seq<HostOp>, peer: PeerId)
    requires
        s.wf(),
        !s.peers.contains(peer),
        never_presents(ops, peer, s.cookie),
    ensures
        apply_all(s, ops).wf(),
        apply_all(s, ops).cookie == s.cookie,
        !apply_all(s, ops).peers.contains(peer),
        forall|from: Option<PeerId>, topic: Seq<char>|
            !(#[trigger] apply_all(s, ops).relay_targets(from, topic)).contains(peer),
        forall|from: Option<PeerId>, topic: Seq<char>|
            !(#[trigger] apply_all(s, ops).forwarded(from, topic)).contains(peer),
    decreases ops.len(),
{
    let after = apply_all(s, ops);
    if ops.len() > 0 {
        let head = ops.drop_last();
        assert(never_presents(head, peer, s.cookie)) by {
            assert forall|i: int| 0 <= i < head.len() implies match #[trigger] head[i] {
                HostOp::Handshake { peer: p, cookie: c, .. } => p == peer ==> c != s.cookie,
                _ => true,
            } by {
                assert(head[i] == ops[i]);
            }
        }
        law_wrong_cookie_never_admitted(s, head, peer);
        let before = apply_all(s, head);
        lemma_apply_keeps(before, ops.last());
        let op = ops[ops.len() - 1];
        match op {
            HostOp::Handshake { peer: p, cookie: c, .. } => {
                if c == before.cookie && !before.peers.contains(p) {
                    assert(p != peer);
                    if after.peers.contains(peer) {
                        let k = choose|k: int| 0 <= k < after.peers.len() && after.peers[k] == peer;
                        if k < before.peers.len() {
                            assert(before.peers[k] == peer);
                        }
                    }
                }
            },
            HostOp::Declare { peer: p, topic } => {},
            HostOp::Publish { from, topic, task } => {},
            HostOp::Disconnect { peer: p } => {
                if before.peers.contains(p) {
                    let k = before.peers.index_of(p);
                    assert(before.peers[k] == p);
                    crate::registry::lemma_remove_distinct(before.peers, k);
                }
            },
        }
    }
    assert forall|from: Option<PeerId>, topic: Seq<char>|
        !(#[trigger] after.relay_targets(from, topic)).contains(peer) by {
        lemma_filter_keeps_order(after.peers, after.takes_relay(from, topic));
    }
}

} // verus!
