//! Reading the outcome of a task out of its JSON text.

use crate::text::text_of;
use vstd::prelude::*;

verus! {

/// The `response` of the reasoning output that a JSON text holds; `None` where the
/// text is no such output.
pub uninterp spec fn react_response_in(json: Seq<char>) -> Option<Seq<char>>;

/// The string that a JSON text holds; `None` where the text is no JSON string.
pub uninterp spec fn json_string_in(json: Seq<char>) -> Option<Seq<char>>;

/// Calls `serde_json::from_str` for autoagents' `ReActAgentOutput` and hands out the
/// `response` field of what it gives. Nothing is proved of it: the contract only names
/// the result, which depends on the text alone.
#[verifier::external_body]
pub(crate) fn parse_react_response(json: &str) -> (response: Option<String>)
    ensures
        match response {
            Some(r) => react_response_in(json@) == Some(r@),
            None => react_response_in(json@) is None,
        },
{
    serde_json::from_str::<autoagents::core::agent::prebuilt::executor::ReActAgentOutput>(json)
        .ok()
        .map(|output| output.response)
}

/// Calls `serde_json::from_str` for a `String`. Nothing is proved of it: the contract
/// only names the result, which depends on the text alone.
#[verifier::external_body]
pub(crate) fn parse_json_string(json: &str) -> (text: Option<String>)
    ensures
        match text {
            Some(t) => json_string_in(json@) == Some(t@),
            None => json_string_in(json@) is None,
        },
{
    serde_json::from_str::<String>(json).ok()
}

/// What of a completed task is shown to the operator, given what the two readings of
/// its outcome gave: the response of a reasoning output always; a plain string unless
/// the agent is the analysis agent; otherwise nothing.
pub open spec fn reply_of(
    react: Option<Seq<char>>,
    plain: Option<Seq<char>>,
    is_analysis_agent: bool,
) -> Option<Seq<char>> {
    match react {
        Some(response) => Some(response),
        None => match plain {
            Some(text) => if is_analysis_agent {
                None
            } else {
                Some(text)
            },
            None => None,
        },
    }
}

/// What of a completed task is shown to the operator, given what the two readings of
/// its outcome gave.
pub fn completion_reply(react: Option<String>, plain: Option<String>, is_analysis_agent: bool) -> (reply:
    Option<String>)
    ensures
        match reply {
            Some(r) => reply_of(
                text_of(react),
                text_of(plain),
                is_analysis_agent,
            ) == Some(r@),
            None => reply_of(
                text_of(react),
                text_of(plain),
                is_analysis_agent,
            ) is None,
        },
{
    match react {
        Some(response) => Some(response),
        None => match plain {
            Some(text) => if is_analysis_agent {
                None
            } else {
                Some(text)
            },
            None => None,
        },
    }
}

/// What of a completed task with this outcome is shown to the operator.
pub fn reply_to_outcome(outcome: &str, is_analysis_agent: bool) -> (reply: Option<String>)
    ensures
        match reply {
            Some(r) => reply_of(
                react_response_in(outcome@),
                json_string_in(outcome@),
                is_analysis_agent,
            ) == Some(r@),
            None => reply_of(
                react_response_in(outcome@),
                json_string_in(outcome@),
                is_analysis_agent,
            ) is None,
        },
{
    let react = parse_react_response(outcome);
    let plain = match react {
        Some(_) => None,
        None => parse_json_string(outcome),
    };
    completion_reply(react, plain, is_analysis_agent)
}

} // verus!
