//! The topic registry: which agents subscribe to which topic.

use crate::message::AgentId;
use crate::text::same_text;
use vstd::prelude::*;

verus! {

/// One topic and its subscribers, in the order in which they subscribed.
struct TopicEntry {
    name: String,
    subscribers: Vec<AgentId>,
}

/// Topics by name, each with its subscribers. A topic, once known, stays.
pub struct TopicRegistry {
    topics: Vec<TopicEntry>,
}

/// `s` without `agent`, where `s` holds nobody twice.
pub open spec fn without_agent(s: Seq<AgentId>, agent: AgentId) -> Seq<AgentId> {
    if s.contains(agent) {
        s.remove(s.index_of(agent))
    } else {
        s
    }
}

/// `s` with `agent` at its end, unless it is there already.
pub open spec fn with_agent(s: Seq<AgentId>, agent: AgentId) -> Seq<AgentId> {
    if s.contains(agent) {
        s
    } else {
        s.push(agent)
    }
}

impl TopicRegistry {
    /// No topic is listed twice and no subscriber twice under one topic.
    pub closed spec fn wf(&self) -> bool {
        &&& forall|i: int, j: int|
            0 <= i < j < self.topics@.len() ==> (#[trigger] self.topics@[i]).name@ != (
            #[trigger] self.topics@[j]).name@
        &&& forall|i: int| 0 <= i < self.topics@.len() ==> (#[trigger] self.topics@[i]).subscribers@.no_duplicates()
    }

    /// The topic has been subscribed to or published on.
    pub closed spec fn knows(&self, topic: Seq<char>) -> bool {
        exists|i: int| 0 <= i < self.topics@.len() && (#[trigger] self.topics@[i]).name@ == topic
    }

    /// The subscribers of a topic in the order in which they subscribed; empty for an
    /// unknown topic.
    pub closed spec fn subscribers(&self, topic: Seq<char>) -> Seq<AgentId> {
        if self.knows(topic) {
            let i = choose|i: int|
                0 <= i < self.topics@.len() && (#[trigger] self.topics@[i]).name@ == topic;
            self.topics@[i].subscribers@
        } else {
            Seq::empty()
        }
    }

    /// The agent subscribes to the topic.
    pub open spec fn subscribed(&self, topic: Seq<char>, agent: AgentId) -> bool {
        self.subscribers(topic).contains(agent)
    }

    /// The entry at `i` is the one that `subscribers` reads for its name.
    proof fn lemma_entry(&self, i: int)
        requires
            self.wf(),
            0 <= i < self.topics@.len(),
        ensures
            self.knows(self.topics@[i].name@),
            self.subscribers(self.topics@[i].name@) == self.topics@[i].subscribers@,
    {
        let topic = self.topics@[i].name@;
        let j = choose|j: int|
            0 <= j < self.topics@.len() && (#[trigger] self.topics@[j]).name@ == topic;
        assert(j == i);
    }

    /// Nobody subscribes twice, and an unknown topic has no subscribers.
    pub proof fn lemma_subscribers_distinct(&self, topic: Seq<char>)
        requires
            self.wf(),
        ensures
            self.subscribers(topic).no_duplicates(),
            !self.knows(topic) ==> self.subscribers(topic) == Seq::<AgentId>::empty(),
    {
        if self.knows(topic) {
            let i = choose|i: int|
                0 <= i < self.topics@.len() && (#[trigger] self.topics@[i]).name@ == topic;
            self.lemma_entry(i);
        }
    }

    /// A registry that knows no topic.
    pub fn new() -> (r: TopicRegistry)
        ensures
            r.wf(),
            forall|topic: Seq<char>| !r.knows(topic),
            forall|topic: Seq<char>| r.subscribers(topic) == Seq::<AgentId>::empty(),
    {
        TopicRegistry { topics: Vec::new() }
    }

    /// Where the topic stands, if it is known.
    fn find(&self, topic: &str) -> (at: Option<usize>)
        requires
            self.wf(),
        ensures
            at matches Some(i) ==> i < self.topics@.len() && self.topics@[i as int].name@
                == topic@,
            at is Some == self.knows(topic@),
    {
        let mut i: usize = 0;
        while i < self.topics.len()
            invariant
                i <= self.topics@.len(),
                forall|j: int| 0 <= j < i ==> (#[trigger] self.topics@[j]).name@ != topic@,
            decreases self.topics@.len() - i,
        {
            if same_text(self.topics[i].name.as_str(), topic) {
                return Some(i);
            }
            i += 1;
        }
        None
    }

    /// Whether the topic is known.
    pub fn is_known(&self, topic: &str) -> (known: bool)
        requires
            self.wf(),
        ensures
            known == self.knows(topic@),
    {
        self.find(topic).is_some()
    }

    /// Makes the topic known, with no subscriber, unless it is known already.
    pub fn declare(&mut self, topic: &str)
        requires
            old(self).wf(),
        ensures
            final(self).wf(),
            final(self).knows(topic@),
            forall|t: Seq<char>| t != topic@ ==> final(self).knows(t) == old(self).knows(t),
            forall|t: Seq<char>| final(self).subscribers(t) == old(self).subscribers(t),
    {
        if self.find(topic).is_none() {
            let ghost before = *self;
            self.topics.push(TopicEntry { name: topic.to_owned(), subscribers: Vec::new() });
            proof {
                let n = before.topics@.len() as int;
                assert(self.topics@[n].name@ == topic@);
                assert(self.wf());
                assert forall|t: Seq<char>| t != topic@ implies self.knows(t) == before.knows(
                    t,
                ) by {
                    if before.knows(t) {
                        let j = choose|j: int|
                            0 <= j < before.topics@.len() && (#[trigger] before.topics@[j]).name@
                                == t;
                        assert(self.topics@[j].name@ == t);
                    }
                    if self.knows(t) {
                        let j = choose|j: int|
                            0 <= j < self.topics@.len() && (#[trigger] self.topics@[j]).name@
                                == t;
                        assert(before.topics@[j].name@ == t);
                    }
                }
                assert forall|t: Seq<char>| self.subscribers(t) == before.subscribers(t) by {
                    if t == topic@ {
                        self.lemma_entry(n);
                    } else if before.knows(t) {
                        let j = choose|j: int|
                            0 <= j < before.topics@.len() && (#[trigger] before.topics@[j]).name@
                                == t;
                        before.lemma_entry(j);
                        assert(self.topics@[j] == before.topics@[j]);
                        self.lemma_entry(j);
                    }
                }
            }
        }
    }

    /// What follows when one entry's subscribers change and nothing else does.
    proof fn lemma_update(before: &TopicRegistry, after: &TopicRegistry, i: int)
        requires
            before.wf(),
            0 <= i < before.topics@.len(),
            after.topics@.len() == before.topics@.len(),
            forall|j: int|
                0 <= j < before.topics@.len() ==> (#[trigger] after.topics@[j]).name@
                    == before.topics@[j].name@,
            forall|j: int|
                0 <= j < before.topics@.len() && j != i ==> (
                #[trigger] after.topics@[j]).subscribers@ == before.topics@[j].subscribers@,
            after.topics@[i].subscribers@.no_duplicates(),
        ensures
            after.wf(),
            forall|t: Seq<char>| after.knows(t) == before.knows(t),
            forall|t: Seq<char>|
                t != before.topics@[i].name@ ==> after.subscribers(t) == before.subscribers(t),
            after.subscribers(before.topics@[i].name@) == after.topics@[i].subscribers@,
    {
        assert forall|a: int, b: int| 0 <= a < b < after.topics@.len() implies (
        #[trigger] after.topics@[a]).name@ != (#[trigger] after.topics@[b]).name@ by {
            assert(before.topics@[a].name@ != before.topics@[b].name@);
        }
        assert forall|j: int| 0 <= j < after.topics@.len() implies (
        #[trigger] after.topics@[j]).subscribers@.no_duplicates() by {
            if j != i {
                assert(before.topics@[j].subscribers@.no_duplicates());
            }
        }
        assert(after.wf());
        assert forall|t: Seq<char>| after.knows(t) == before.knows(t) by {
            if before.knows(t) {
                let j = choose|j: int|
                    0 <= j < before.topics@.len() && (#[trigger] before.topics@[j]).name@ == t;
                assert(after.topics@[j].name@ == t);
            }
            if after.knows(t) {
                let j = choose|j: int|
                    0 <= j < after.topics@.len() && (#[trigger] after.topics@[j]).name@ == t;
                assert(before.topics@[j].name@ == t);
            }
        }
        assert forall|t: Seq<char>| t != before.topics@[i].name@ implies after.subscribers(t)
            == before.subscribers(t) by {
            if before.knows(t) {
                let j = choose|j: int|
                    0 <= j < before.topics@.len() && (#[trigger] before.topics@[j]).name@ == t;
                before.lemma_entry(j);
                assert(after.topics@[j].name@ == t);
                after.lemma_entry(j);
            }
        }
        after.lemma_entry(i);
    }

    /// Records that the agent subscribes to the topic. A second time changes nothing.
    pub fn subscribe(&mut self, topic: &str, agent: AgentId)
        requires
            old(self).wf(),
        ensures
            final(self).wf(),
            final(self).knows(topic@),
            final(self).subscribers(topic@) == with_agent(old(self).subscribers(topic@), agent),
            forall|t: Seq<char>| t != topic@ ==> final(self).knows(t) == old(self).knows(t),
            forall|t: Seq<char>|
                t != topic@ ==> final(self).subscribers(t) == old(self).subscribers(t),
    {
        self.declare(topic);
        let ghost before = *self;
        match self.find(topic) {
            Some(i) => {
                proof {
                    before.lemma_entry(i as int);
                }
                if position_of(&self.topics[i].subscribers, agent).is_none() {
                    self.topics[i].subscribers.push(agent);
                    proof {
                        let list = before.topics@[i as int].subscribers@;
                        assert(self.topics@[i as int].subscribers@ == list.push(agent));
                        assert(list.push(agent).no_duplicates());
                        Self::lemma_update(&before, self, i as int);
                    }
                }
            },
            None => {},
        }
    }

    /// Records that the agent no longer subscribes to the topic. Nothing changes where it
    /// did not subscribe.
    pub fn unsubscribe(&mut self, topic: &str, agent: AgentId)
        requires
            old(self).wf(),
        ensures
            final(self).wf(),
            final(self).subscribers(topic@) == without_agent(
                old(self).subscribers(topic@),
                agent,
            ),
            !final(self).subscribed(topic@, agent),
            forall|t: Seq<char>| final(self).knows(t) == old(self).knows(t),
            forall|t: Seq<char>|
                t != topic@ ==> final(self).subscribers(t) == old(self).subscribers(t),
    {
        let ghost before = *self;
        proof {
            before.lemma_subscribers_distinct(topic@);
        }
        match self.find(topic) {
            Some(i) => {
                proof {
                    before.lemma_entry(i as int);
                }
                match position_of(&self.topics[i].subscribers, agent) {
                    Some(k) => {
                        self.topics[i].subscribers.remove(k);
                        proof {
                            let list = before.topics@[i as int].subscribers@;
                            lemma_remove_distinct(list, k as int);
                            Self::lemma_update(&before, self, i as int);
                        }
                    },
                    None => {},
                }
            },
            None => {},
        }
    }

    /// Takes the agent out of every topic: what its shutdown owes the registry.
    pub fn release(&mut self, agent: AgentId)
        requires
            old(self).wf(),
        ensures
            final(self).wf(),
            forall|t: Seq<char>| final(self).knows(t) == old(self).knows(t),
            forall|t: Seq<char>|
                final(self).subscribers(t) == without_agent(old(self).subscribers(t), agent),
            forall|t: Seq<char>| !final(self).subscribed(t, agent),
    {
        let ghost before = *self;
        let mut i: usize = 0;
        while i < self.topics.len()
            invariant
                before.wf(),
                self.wf(),
                i <= self.topics@.len(),
                self.topics@.len() == before.topics@.len(),
                forall|j: int|
                    0 <= j < before.topics@.len() ==> (#[trigger] self.topics@[j]).name@
                        == before.topics@[j].name@,
                forall|j: int|
                    0 <= j < i ==> (#[trigger] self.topics@[j]).subscribers@ == without_agent(
                        before.topics@[j].subscribers@,
                        agent,
                    ),
                forall|j: int|
                    i <= j < before.topics@.len() ==> (#[trigger] self.topics@[j]).subscribers@
                        == before.topics@[j].subscribers@,
            decreases self.topics@.len() - i,
        {
            let ghost step = *self;
            match position_of(&self.topics[i].subscribers, agent) {
                Some(k) => {
                    self.topics[i].subscribers.remove(k);
                    proof {
                        let list = step.topics@[i as int].subscribers@;
                        lemma_remove_distinct(list, k as int);
                        Self::lemma_update(&step, self, i as int);
                    }
                },
                None => {},
            }
            i += 1;
        }
        proof {
            assert forall|t: Seq<char>| self.knows(t) == before.knows(t) by {
                if before.knows(t) {
                    let j = choose|j: int|
                        0 <= j < before.topics@.len() && (#[trigger] before.topics@[j]).name@
                            == t;
                    assert(self.topics@[j].name@ == t);
                }
                if self.knows(t) {
                    let j = choose|j: int|
                        0 <= j < self.topics@.len() && (#[trigger] self.topics@[j]).name@ == t;
                    assert(before.topics@[j].name@ == t);
                }
            }
            assert forall|t: Seq<char>| self.subscribers(t) == without_agent(
                before.subscribers(t),
                agent,
            ) && !self.subscribed(t, agent) by {
                if before.knows(t) {
                    let j = choose|j: int|
                        0 <= j < before.topics@.len() && (#[trigger] before.topics@[j]).name@
                            == t;
                    before.lemma_entry(j);
                    assert(self.topics@[j].name@ == t);
                    self.lemma_entry(j);
                    let list = before.topics@[j].subscribers@;
                    if list.contains(agent) {
                        lemma_remove_distinct(list, list.index_of(agent));
                    }
                }
            }
        }
    }

    /// The subscribers of the topic, in the order in which they subscribed: a snapshot.
    pub fn subscribers_of(&self, topic: &str) -> (list: Vec<AgentId>)
        requires
            self.wf(),
        ensures
            list@ == self.subscribers(topic@),
    {
        match self.find(topic) {
            Some(i) => {
                proof {
                    self.lemma_entry(i as int);
                }
                self.topics[i].subscribers.clone()
            },
            None => Vec::new(),
        }
    }

    /// Whether the agent subscribes to the topic.
    pub fn is_subscribed(&self, topic: &str, agent: AgentId) -> (yes: bool)
        requires
            self.wf(),
        ensures
            yes == self.subscribed(topic@, agent),
    {
        let list = self.subscribers_of(topic);
        position_of(&list, agent).is_some()
    }
}

/// Taking the one occurrence of a value out of a sequence without duplicates leaves
/// a sequence without duplicates that no longer holds the value.
pub proof fn lemma_remove_distinct(s: Seq<AgentId>, k: int)
    requires
        s.no_duplicates(),
        0 <= k < s.len(),
    ensures
        s.index_of(s[k]) == k,
        s.remove(k) == without_agent(s, s[k]),
        s.remove(k).no_duplicates(),
        !s.remove(k).contains(s[k]),
        forall|a: AgentId| a != s[k] ==> s.remove(k).contains(a) == s.contains(a),
{
    let r = s.remove(k);
    assert(s.contains(s[k]));
    assert forall|a: AgentId| a != s[k] implies r.contains(a) == s.contains(a) by {
        if s.contains(a) {
            let j = choose|j: int| 0 <= j < s.len() && s[j] == a;
            if j < k {
                assert(r[j] == a);
            } else {
                assert(r[j - 1] == a);
            }
        }
        if r.contains(a) {
            let j = choose|j: int| 0 <= j < r.len() && r[j] == a;
            if j < k {
                assert(s[j] == a);
            } else {
                assert(s[j + 1] == a);
            }
        }
    }
    if r.contains(s[k]) {
        let j = choose|j: int| 0 <= j < r.len() && r[j] == s[k];
        if j < k {
            assert(s[j] == s[k]);
        } else {
            assert(s[j + 1] == s[k]);
        }
    }
}

/// The first place at which `agent` stands in `list`.
pub fn position_of(list: &Vec<AgentId>, agent: AgentId) -> (at: Option<usize>)
    ensures
        at is Some == list@.contains(agent),
        at matches Some(i) ==> i < list@.len() && list@[i as int] == agent,
{
    let mut i: usize = 0;
    while i < list.len()
        invariant
            i <= list@.len(),
            forall|j: int| 0 <= j < i ==> list@[j] != agent,
        decreases list@.len() - i,
    {
        if list[i] == agent {
            return Some(i);
        }
        i += 1;
    }
    None
}

} // verus!
