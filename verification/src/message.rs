//! The values carried over the bus: tasks, events and the errors of the bus and the runtime.

use vstd::prelude::*;

verus! {

/// The identity of an agent: whoever owns one event stream.
pub type AgentId = u64;

/// One unit of work or result, carried on a topic. Never changed once made.
#[derive(Debug, Clone)]
pub struct Task {
    /// Unique among the tasks of one publisher.
    pub id: u64,
    /// The text payload.
    pub prompt: String,
    /// When the task was made, in seconds since the epoch.
    pub created_at: u64,
}

/// What a task is, as plain values.
pub struct TaskView {
    pub id: u64,
    pub prompt: Seq<char>,
    pub created_at: u64,
}

impl View for Task {
    type V = TaskView;

    open spec fn view(&self) -> TaskView {
        TaskView { id: self.id, prompt: self.prompt@, created_at: self.created_at }
    }
}

impl Task {
    /// A task with the given identity, payload and time of creation.
    pub fn new(id: u64, prompt: String, created_at: u64) -> (t: Task)
        ensures
            t@ == (TaskView { id, prompt: prompt@, created_at }),
    {
        Task { id, prompt, created_at }
    }

    /// A task under a new identity that carries another payload: the way to publish
    /// again. `None` where `id` is the identity of `self`.
    pub fn derive(&self, id: u64, prompt: String, created_at: u64) -> (t: Option<Task>)
        ensures
            t is Some == (id != self.id),
            t matches Some(task) ==> task@ == (TaskView { id, prompt: prompt@, created_at }),
    {
        if id == self.id {
            None
        } else {
            Some(Task { id, prompt, created_at })
        }
    }

    /// A copy for one more subscriber.
    pub fn duplicate(&self) -> (t: Task)
        ensures
            t@ == self@,
    {
        Task { id: self.id, prompt: self.prompt.clone(), created_at: self.created_at }
    }
}

/// A notification of the runtime that carries no work.
#[derive(Clone, Copy, Debug, PartialEq, Eq, Structural)]
pub enum Notice {
    /// A task has begun to execute.
    TaskStarted,
    /// A task has failed.
    TaskError,
    /// A turn of a reasoning loop has begun.
    TurnStarted,
    /// A turn of a reasoning loop has ended.
    TurnCompleted,
}

/// What arrives on an agent's event stream.
#[derive(Debug, Clone)]
pub enum Event {
    /// A task was published on a topic the agent subscribes to.
    NewTask { task: Task },
    /// An agent asks for a tool to be run.
    ToolCallRequested { tool_name: String, arguments: String },
    /// An agent has finished a task; `result` is its outcome as JSON text.
    TaskComplete { result: String },
    /// Any other notification.
    Other { notice: Notice },
}

/// What an event is, as plain values.
pub enum EventView {
    NewTask { task: TaskView },
    ToolCallRequested { tool_name: Seq<char>, arguments: Seq<char> },
    TaskComplete { result: Seq<char> },
    Other { notice: Notice },
}

impl View for Event {
    type V = EventView;

    open spec fn view(&self) -> EventView {
        match self {
            Event::NewTask { task } => EventView::NewTask { task: task@ },
            Event::ToolCallRequested { tool_name, arguments } => EventView::ToolCallRequested {
                tool_name: tool_name@,
                arguments: arguments@,
            },
            Event::TaskComplete { result } => EventView::TaskComplete { result: result@ },
            Event::Other { notice } => EventView::Other { notice: *notice },
        }
    }
}

/// Why the bus or a session refused.
#[derive(Clone, Copy, Debug, PartialEq, Eq, Structural)]
pub enum BusError {
    /// The cookie presented at the handshake is not the cluster's.
    AuthRejected,
    /// A subscriber's stream is full; the publish may be tried again.
    SubscriberOverloaded,
}

/// Why a session or an execution ended badly.
#[derive(Clone, Copy, Debug, PartialEq, Eq, Structural)]
pub enum RuntimeError {
    /// The peer went away while the session was active.
    PeerLost,
}

} // verus!
