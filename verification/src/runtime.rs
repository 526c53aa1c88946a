//! The runtime that drives one agent: it waits for an event, lets the agent execute
//! one task to its end, and hands out the outcome.

use crate::classifier::{routing, Classifier, RoutingDecision};
use crate::message::{Event, EventView, Task, TaskView};
use crate::text::text_of;
use vstd::prelude::*;

verus! {

/// Where the runtime of an agent stands.
#[derive(Clone, Copy, Debug, PartialEq, Eq, Structural)]
pub enum RuntimeState {
    /// Between two tasks.
    Idle,
    /// Blocked on the event stream.
    AwaitingEvent,
    /// The agent works on one task.
    Executing,
    /// Shut down. Nothing follows.
    Stopped,
}

/// What the runtime is told.
pub enum RuntimeInput {
    /// The runtime may look for work.
    Wake,
    /// The event stream gave an event.
    Arrived { event: Event },
    /// The agent has finished its task with this result.
    Completed { result: String },
    /// The agent's execution failed with this error.
    Failed { error: String },
    /// An orderly end is asked for.
    Shutdown,
}

/// A runtime input as plain values.
pub enum RuntimeInputView {
    Wake,
    Arrived { event: EventView },
    Completed { result: Seq<char> },
    Failed { error: Seq<char> },
    Shutdown,
}

impl View for RuntimeInput {
    type V = RuntimeInputView;

    open spec fn view(&self) -> RuntimeInputView {
        match self {
            RuntimeInput::Wake => RuntimeInputView::Wake,
            RuntimeInput::Arrived { event } => RuntimeInputView::Arrived { event: event@ },
            RuntimeInput::Completed { result } => RuntimeInputView::Completed { result: result@ },
            RuntimeInput::Failed { error } => RuntimeInputView::Failed { error: error@ },
            RuntimeInput::Shutdown => RuntimeInputView::Shutdown,
        }
    }
}

/// What the program around the runtime is to do next.
#[derive(Debug, Clone)]
pub enum RuntimeAction {
    /// Nothing.
    Nothing,
    /// Block on the event stream and hand the next event in as `Arrived`.
    AwaitEvent,
    /// Let the agent execute the task, tools allowed, and hand the outcome in.
    Execute { task: Task },
    /// The task is another agent's finished output: hand its text on as it is, call no
    /// tool and no agent, then wake the runtime.
    Forward { text: String },
    /// Put a `TaskComplete` event with this result on the runtime's own stream, publish
    /// the result on the output topic where one is given, then wake the runtime.
    Complete { result: String, publish_to: Option<String> },
    /// Note the event; then await the next one.
    Note { event: Event },
    /// Take no more events, drain and close the connection, release the subscriptions.
    Release,
}

/// A runtime action as plain values.
pub enum RuntimeActionView {
    Nothing,
    AwaitEvent,
    Execute { task: TaskView },
    Forward { text: Seq<char> },
    Complete { result: Seq<char>, publish_to: Option<Seq<char>> },
    Note { event: EventView },
    Release,
}

impl View for RuntimeAction {
    type V = RuntimeActionView;

    open spec fn view(&self) -> RuntimeActionView {
        match self {
            RuntimeAction::Nothing => RuntimeActionView::Nothing,
            RuntimeAction::AwaitEvent => RuntimeActionView::AwaitEvent,
            RuntimeAction::Execute { task } => RuntimeActionView::Execute { task: task@ },
            RuntimeAction::Forward { text } => RuntimeActionView::Forward { text: text@ },
            RuntimeAction::Complete { result, publish_to } => RuntimeActionView::Complete {
                result: result@,
                publish_to: text_of(*publish_to),
            },
            RuntimeAction::Note { event } => RuntimeActionView::Note { event: event@ },
            RuntimeAction::Release => RuntimeActionView::Release,
        }
    }
}

/// What opens the result that stands for a failed execution.
pub open spec fn failure_prefix() -> Seq<char> {
    "AI analysis failed: "@
}

/// The result that stands for an execution that failed with `error`.
pub open spec fn failure_text(error: Seq<char>) -> Seq<char> {
    failure_prefix() + error
}

/// The result that stands for an execution that failed with `error`.
pub fn failure_result(error: &str) -> (text: String)
    ensures
        text@ == failure_text(error@),
{
    let mut text = String::from_str("AI analysis failed: ");
    text.append(error);
    text
}

/// A failure of the reasoning service.
#[derive(Debug, Clone)]
pub struct ReasoningError {
    /// What the service said.
    pub message: String,
}

impl ReasoningError {
    /// The result that the failure is turned into: the agent answers with it instead of
    /// failing.
    pub fn into_result(self) -> (text: String)
        ensures
            text@ == failure_text(self.message@),
    {
        failure_result(self.message.as_str())
    }
}

/// The runtime as plain values.
pub struct RuntimeModel {
    pub state: RuntimeState,
    /// A shutdown was asked for while a task was executing.
    pub stop_requested: bool,
    /// Where final results are published, if anywhere.
    pub output_topic: Option<Seq<char>>,
    /// The heading and the phrases of the loop guard.
    pub heading: Seq<char>,
    pub phrases: Seq<Seq<char>>,
}

impl RuntimeModel {
    /// The state in which an execution leaves the runtime.
    pub open spec fn after_execution(self) -> RuntimeState {
        if self.stop_requested {
            RuntimeState::Stopped
        } else {
            RuntimeState::Idle
        }
    }

    /// The runtime after the input.
    pub open spec fn next(self, input: RuntimeInputView) -> RuntimeModel {
        match (self.state, input) {
            (RuntimeState::Stopped, _) => self,
            (RuntimeState::Executing, RuntimeInputView::Shutdown) => RuntimeModel {
                stop_requested: true,
                ..self
            },
            (_, RuntimeInputView::Shutdown) => RuntimeModel { state: RuntimeState::Stopped, ..self },
            (RuntimeState::Idle, RuntimeInputView::Wake) => RuntimeModel {
                state: RuntimeState::AwaitingEvent,
                ..self
            },
            (
                RuntimeState::AwaitingEvent,
                RuntimeInputView::Arrived { event: EventView::NewTask { task } },
            ) => if routing(self.heading, self.phrases, task.prompt)
                == RoutingDecision::AgentResult {
                RuntimeModel { state: RuntimeState::Idle, ..self }
            } else {
                RuntimeModel { state: RuntimeState::Executing, ..self }
            },
            (RuntimeState::Executing, RuntimeInputView::Completed { .. }) => RuntimeModel {
                state: self.after_execution(),
                ..self
            },
            (RuntimeState::Executing, RuntimeInputView::Failed { .. }) => RuntimeModel {
                state: self.after_execution(),
                ..self
            },
            _ => self,
        }
    }

    /// What is to be done after the input.
    pub open spec fn action(self, input: RuntimeInputView) -> RuntimeActionView {
        match (self.state, input) {
            (RuntimeState::Stopped, _) => RuntimeActionView::Nothing,
            (RuntimeState::Executing, RuntimeInputView::Shutdown) => RuntimeActionView::Nothing,
            (_, RuntimeInputView::Shutdown) => RuntimeActionView::Release,
            (RuntimeState::Idle, RuntimeInputView::Wake) => RuntimeActionView::AwaitEvent,
            (RuntimeState::AwaitingEvent, RuntimeInputView::Arrived { event }) => match event {
                EventView::NewTask { task } => if routing(self.heading, self.phrases, task.prompt)
                    == RoutingDecision::AgentResult {
                    RuntimeActionView::Forward { text: task.prompt }
                } else {
                    RuntimeActionView::Execute { task }
                },
                _ => RuntimeActionView::Note { event },
            },
            (RuntimeState::Executing, RuntimeInputView::Completed { result }) => {
                RuntimeActionView::Complete { result, publish_to: self.output_topic }
            },
            (RuntimeState::Executing, RuntimeInputView::Failed { error }) => {
                RuntimeActionView::Complete {
                    result: failure_text(error),
                    publish_to: self.output_topic,
                }
            },
            _ => RuntimeActionView::Nothing,
        }
    }
}

/// The runtime of one agent.
pub struct AgentRuntime {
    state: RuntimeState,
    stop_requested: bool,
    output_topic: Option<String>,
    guard: Classifier,
}

impl View for AgentRuntime {
    type V = RuntimeModel;

    closed spec fn view(&self) -> RuntimeModel {
        RuntimeModel {
            state: self.state,
            stop_requested: self.stop_requested,
            output_topic: text_of(self.output_topic),
            heading: self.guard.heading@,
            phrases: self.guard.phrase_texts(),
        }
    }
}

/// A copy of an optional topic.
fn copy_topic(topic: &Option<String>) -> (copy: Option<String>)
    ensures
        text_of(copy) == text_of(*topic),
{
    match topic {
        Some(t) => Some(t.clone()),
        None => None,
    }
}

impl AgentRuntime {
    /// An idle runtime that publishes final results on `output_topic`, where one is
    /// given, and tells results from requests with `guard`.
    pub fn new(output_topic: Option<String>, guard: Classifier) -> (rt: AgentRuntime)
        ensures
            rt@ == (RuntimeModel {
                state: RuntimeState::Idle,
                stop_requested: false,
                output_topic: text_of(output_topic),
                heading: guard.heading@,
                phrases: guard.phrase_texts(),
            }),
    {
        AgentRuntime { state: RuntimeState::Idle, stop_requested: false, output_topic, guard }
    }

    /// Where the runtime stands.
    pub fn state(&self) -> (s: RuntimeState)
        ensures
            s == self@.state,
    {
        self.state
    }

    /// Takes one input and says what is to be done next. A task whose text the loop
    /// guard takes for an agent's result is never executed: it is forwarded.
    pub fn handle(&mut self, input: RuntimeInput) -> (action: RuntimeAction)
        ensures
            final(self)@ == old(self)@.next(input@),
            action@ == old(self)@.action(input@),
    {
        match self.state {
            RuntimeState::Stopped => RuntimeAction::Nothing,
            RuntimeState::Idle => match input {
                RuntimeInput::Shutdown => {
                    self.state = RuntimeState::Stopped;
                    RuntimeAction::Release
                },
                RuntimeInput::Wake => {
                    self.state = RuntimeState::AwaitingEvent;
                    RuntimeAction::AwaitEvent
                },
                _ => RuntimeAction::Nothing,
            },
            RuntimeState::AwaitingEvent => match input {
                RuntimeInput::Shutdown => {
                    self.state = RuntimeState::Stopped;
                    RuntimeAction::Release
                },
                RuntimeInput::Arrived { event } => match event {
                    Event::NewTask { task } => {
                        match self.guard.classify(task.prompt.as_str()) {
                            RoutingDecision::AgentResult => {
                                self.state = RuntimeState::Idle;
                                RuntimeAction::Forward { text: task.prompt }
                            },
                            RoutingDecision::UserQuery => {
                                self.state = RuntimeState::Executing;
                                RuntimeAction::Execute { task }
                            },
                        }
                    },
                    other => RuntimeAction::Note { event: other },
                },
                _ => RuntimeAction::Nothing,
            },
            RuntimeState::Executing => match input {
                RuntimeInput::Shutdown => {
                    self.stop_requested = true;
                    RuntimeAction::Nothing
                },
                RuntimeInput::Completed { result } => {
                    self.state = if self.stop_requested {
                        RuntimeState::Stopped
                    } else {
                        RuntimeState::Idle
                    };
                    RuntimeAction::Complete { result, publish_to: copy_topic(&self.output_topic) }
                },
                RuntimeInput::Failed { error } => {
                    self.state = if self.stop_requested {
                        RuntimeState::Stopped
                    } else {
                        RuntimeState::Idle
                    };
                    RuntimeAction::Complete {
                        result: failure_result(error.as_str()),
                        publish_to: copy_topic(&self.output_topic),
                    }
                },
                _ => RuntimeAction::Nothing,
            },
        }
    }
}

/// A stopped runtime stays stopped and asks for nothing.
pub proof fn law_stopped_is_final(m: RuntimeModel, input: RuntimeInputView)
    requires
        m.state == RuntimeState::Stopped,
    ensures
        m.next(input) == m,
        m.action(input) == RuntimeActionView::Nothing,
{
}

/// A task that the loop guard takes for an agent's result is never executed, whoever
/// the agent is: its text is forwarded as it is.
pub proof fn law_agent_result_is_never_executed(m: RuntimeModel, task: TaskView)
    requires
        routing(m.heading, m.phrases, task.prompt) == RoutingDecision::AgentResult,
    ensures
        !(m.action(
            RuntimeInputView::Arrived { event: EventView::NewTask { task } },
        ) is Execute),
        m.next(
            RuntimeInputView::Arrived { event: EventView::NewTask { task } },
        ).state != RuntimeState::Executing || m.state == RuntimeState::Executing,
        m.state == RuntimeState::AwaitingEvent ==> m.action(
            RuntimeInputView::Arrived { event: EventView::NewTask { task } },
        ) == (RuntimeActionView::Forward { text: task.prompt }),
{
}

/// An execution is never cut short: while a task executes, a shutdown changes neither
/// the state nor what is to be done, and takes effect when the task has ended.
pub proof fn law_shutdown_waits_for_the_task(m: RuntimeModel, result: Seq<char>)
    requires
        m.state == RuntimeState::Executing,
    ensures
        m.next(RuntimeInputView::Shutdown).state == RuntimeState::Executing,
        m.action(RuntimeInputView::Shutdown) == RuntimeActionView::Nothing,
        m.next(RuntimeInputView::Shutdown).next(RuntimeInputView::Completed { result }).state
            == RuntimeState::Stopped,
        m.next(RuntimeInputView::Shutdown).action(RuntimeInputView::Completed { result }) == (
        RuntimeActionView::Complete { result, publish_to: m.output_topic }),
{
}

/// Every execution ends in exactly one completion, a failed one too: its result is the
/// failure text, and it goes where results go.
pub proof fn law_failure_becomes_a_result(m: RuntimeModel, error: Seq<char>)
    requires
        m.state == RuntimeState::Executing,
    ensures
        m.action(RuntimeInputView::Failed { error }) == (RuntimeActionView::Complete {
            result: failure_text(error),
            publish_to: m.output_topic,
        }),
        m.next(RuntimeInputView::Failed { error }).state != RuntimeState::Executing,
{
}

} // verus!
