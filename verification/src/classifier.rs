//! The loop guard: decides from a message's text alone whether it is a fresh
//! request or the finished output of another agent.

use crate::text::{contains_chars, has_prefix, has_substring, matches_at, to_chars};
use vstd::prelude::*;
use vstd::string::*;

verus! {

/// Where an inbound message is routed.
#[derive(Clone, Copy, Debug, PartialEq, Eq, Structural)]
pub enum RoutingDecision {
    /// Fresh input: the agent may reason over it and use tools.
    UserQuery,
    /// Output that an agent has already produced: it is forwarded, never handed to tools.
    AgentResult,
}

/// The markers by which finished output is recognised.
pub struct Classifier {
    /// A message that begins with this heading is finished output.
    pub heading: String,
    /// A message that contains any of these phrases is finished output.
    pub phrases: Vec<String>,
}

/// The heading that opens every report.
pub open spec fn report_heading() -> Seq<char> {
    "### "@
}

/// The phrases that only a finished analysis carries.
pub open spec fn report_phrases() -> Seq<Seq<char>> {
    seq![
        "Analysis Report"@,
        "Key Insights"@,
        "Strategic Recommendations"@,
        "Executive Summary"@,
        "RESEARCH DATA FOR ANALYSIS"@,
    ]
}

/// `prompt` begins with `heading` or contains one of `phrases`.
pub open spec fn carries_marker(
    heading: Seq<char>,
    phrases: Seq<Seq<char>>,
    prompt: Seq<char>,
) -> bool {
    has_prefix(prompt, heading) || exists|i: int|
        0 <= i < phrases.len() && has_substring(prompt, #[trigger] phrases[i])
}

/// The decision for `prompt` under the given markers.
pub open spec fn routing(
    heading: Seq<char>,
    phrases: Seq<Seq<char>>,
    prompt: Seq<char>,
) -> RoutingDecision {
    if carries_marker(heading, phrases, prompt) {
        RoutingDecision::AgentResult
    } else {
        RoutingDecision::UserQuery
    }
}

/// The decision for `prompt` under the standard markers.
pub open spec fn standard_routing(prompt: Seq<char>) -> RoutingDecision {
    routing(report_heading(), report_phrases(), prompt)
}

impl Classifier {
    /// The phrases as character sequences.
    pub open spec fn phrase_texts(&self) -> Seq<Seq<char>> {
        Seq::new(self.phrases@.len(), |i: int| self.phrases@[i]@)
    }

    /// The decision this classifier takes for `prompt`.
    pub open spec fn decision(&self, prompt: Seq<char>) -> RoutingDecision {
        routing(self.heading@, self.phrase_texts(), prompt)
    }

    /// A classifier with the given heading and phrases.
    pub fn new(heading: String, phrases: Vec<String>) -> (c: Classifier)
        ensures
            c.heading == heading,
            c.phrases == phrases,
    {
        Classifier { heading, phrases }
    }

    /// The classifier with the standard heading and phrases.
    pub fn standard() -> (c: Classifier)
        ensures
            c.heading@ == report_heading(),
            c.phrase_texts() == report_phrases(),
    {
        let mut phrases: Vec<String> = Vec::new();
        phrases.push(String::from_str("Analysis Report"));
        phrases.push(String::from_str("Key Insights"));
        phrases.push(String::from_str("Strategic Recommendations"));
        phrases.push(String::from_str("Executive Summary"));
        phrases.push(String::from_str("RESEARCH DATA FOR ANALYSIS"));
        let c = Classifier { heading: String::from_str("### "), phrases };
        assert(c.phrase_texts() =~= report_phrases());
        c
    }

    /// Classifies one message. Never fails; text without a marker is a user query.
    pub fn classify(&self, prompt: &str) -> (d: RoutingDecision)
        ensures
            d == self.decision(prompt@),
    {
        let hay = to_chars(prompt);
        let heading = to_chars(self.heading.as_str());
        if matches_at(&hay, &heading, 0) {
            return RoutingDecision::AgentResult;
        }
        let mut i: usize = 0;
        while i < self.phrases.len()
            invariant
                i <= self.phrases.len(),
                hay@ == prompt@,
                forall|j: int| 0 <= j < i ==> !has_substring(prompt@, #[trigger] self.phrase_texts()[j]),
            decreases self.phrases.len() - i,
        {
            let phrase = to_chars(self.phrases[i].as_str());
            assert(phrase@ == self.phrase_texts()[i as int]);
            if contains_chars(&hay, &phrase) {
                return RoutingDecision::AgentResult;
            }
            i += 1;
        }
        RoutingDecision::UserQuery
    }
}

/// Classifies one message under the standard markers.
pub fn classify(prompt: &str) -> (d: RoutingDecision)
    ensures
        d == standard_routing(prompt@),
{
    let c = Classifier::standard();
    c.classify(prompt)
}

/// A message that begins with the configured heading is always an agent's result.
pub proof fn law_heading_marks_agent_result(
    heading: Seq<char>,
    phrases: Seq<Seq<char>>,
    prompt: Seq<char>,
)
    requires
        has_prefix(prompt, heading),
    ensures
        routing(heading, phrases, prompt) == RoutingDecision::AgentResult,
{
}

/// Text that carries no marker is a user query, and only such text is.
pub proof fn law_unmarked_is_user_query(
    heading: Seq<char>,
    phrases: Seq<Seq<char>>,
    prompt: Seq<char>,
)
    ensures
        routing(heading, phrases, prompt) == RoutingDecision::UserQuery <==> !carries_marker(
            heading,
            phrases,
            prompt,
        ),
{
}

/// The decision depends on the markers and the text alone: equal inputs, equal decisions.
pub proof fn law_classification_is_a_function(
    heading_a: Seq<char>,
    phrases_a: Seq<Seq<char>>,
    prompt_a: Seq<char>,
    heading_b: Seq<char>,
    phrases_b: Seq<Seq<char>>,
    prompt_b: Seq<char>,
)
    requires
        heading_a =~= heading_b,
        phrases_a =~~= phrases_b,
        prompt_a =~= prompt_b,
    ensures
        routing(heading_a, phrases_a, prompt_a) == routing(heading_b, phrases_b, prompt_b),
{
}

} // verus!
