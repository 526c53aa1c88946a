//! What becomes of each event that an agent's client sees: shown to the operator, left
//! to the agent, or only noted.

use crate::classifier::{classify, standard_routing, RoutingDecision};
use crate::json::{json_string_in, react_response_in, reply_of, reply_to_outcome};
use crate::message::{Event, EventView};
use crate::text::text_of;
use vstd::prelude::*;

verus! {

/// Where an event goes.
#[derive(Debug, Clone)]
pub enum EventRoute {
    /// The text is shown to the operator.
    ToOperator { text: String },
    /// The event is a fresh request: the agent works on it.
    ToAgent,
    /// The event is noted and goes nowhere.
    Logged,
}

/// An event's route as plain values.
pub enum EventRouteView {
    ToOperator { text: Seq<char> },
    ToAgent,
    Logged,
}

impl View for EventRoute {
    type V = EventRouteView;

    open spec fn view(&self) -> EventRouteView {
        match self {
            EventRoute::ToOperator { text } => EventRouteView::ToOperator { text: text@ },
            EventRoute::ToAgent => EventRouteView::ToAgent,
            EventRoute::Logged => EventRouteView::Logged,
        }
    }
}

/// Where a new task goes: the analysis agent's client shows nothing; any other client
/// shows a task that is an agent's result and leaves every other task to the agent.
pub open spec fn task_route(prompt: Seq<char>, is_analysis_agent: bool) -> EventRouteView {
    if is_analysis_agent {
        EventRouteView::Logged
    } else if standard_routing(prompt) == RoutingDecision::AgentResult {
        EventRouteView::ToOperator { text: prompt }
    } else {
        EventRouteView::ToAgent
    }
}

/// Where a completed task goes, given what of its outcome is to be shown.
pub open spec fn completion_route(reply: Option<Seq<char>>) -> EventRouteView {
    match reply {
        Some(text) => EventRouteView::ToOperator { text },
        None => EventRouteView::Logged,
    }
}

/// Where an event goes.
pub open spec fn route_of(event: EventView, is_analysis_agent: bool) -> EventRouteView {
    match event {
        EventView::NewTask { task } => task_route(task.prompt, is_analysis_agent),
        EventView::TaskComplete { result } => completion_route(
            reply_of(react_response_in(result), json_string_in(result), is_analysis_agent),
        ),
        _ => EventRouteView::Logged,
    }
}

/// Where a new task of this text goes.
pub fn route_task(prompt: String, is_analysis_agent: bool) -> (route: EventRoute)
    ensures
        route@ == task_route(prompt@, is_analysis_agent),
{
    if is_analysis_agent {
        EventRoute::Logged
    } else {
        match classify(prompt.as_str()) {
            RoutingDecision::AgentResult => EventRoute::ToOperator { text: prompt },
            RoutingDecision::UserQuery => EventRoute::ToAgent,
        }
    }
}

/// Where a completed task goes, given what of its outcome is to be shown.
pub fn route_completion(reply: Option<String>) -> (route: EventRoute)
    ensures
        route@ == completion_route(text_of(reply)),
{
    match reply {
        Some(text) => EventRoute::ToOperator { text },
        None => EventRoute::Logged,
    }
}

/// Decides where an event goes. A new task that is an agent's result is shown to the
/// operator as it is and never handed to the agent again; a completed task is shown by
/// what its outcome holds; a tool call and every other event is only noted.
pub fn handle_event(event: Event, is_analysis_agent: bool) -> (route: EventRoute)
    ensures
        route@ == route_of(event@, is_analysis_agent),
{
    match event {
        Event::NewTask { task } => route_task(task.prompt, is_analysis_agent),
        Event::TaskComplete { result } => {
            let reply = reply_to_outcome(result.as_str(), is_analysis_agent);
            route_completion(reply)
        },
        Event::ToolCallRequested { .. } => EventRoute::Logged,
        Event::Other { .. } => EventRoute::Logged,
    }
}

/// A task that is an agent's result never goes back to an agent, whichever client sees it.
pub proof fn law_results_never_reach_an_agent(prompt: Seq<char>, is_analysis_agent: bool)
    requires
        standard_routing(prompt) == RoutingDecision::AgentResult,
    ensures
        task_route(prompt, is_analysis_agent) != EventRouteView::ToAgent,
{
}

} // verus!
