//! The reasoning loop of a tool-augmented agent: turn by turn it either calls a tool or
//! gives its final text, and it always ends with one result.

use crate::runtime::{failure_result, failure_text};
use vstd::prelude::*;

verus! {

/// How many turns a reasoning loop gets where nothing else is configured.
pub const DEFAULT_MAX_TURNS: usize = 10;

/// What one call of the reasoning service gave.
pub enum TurnOutcome {
    /// The final text.
    Final { text: String },
    /// A tool is to be called; `interim` is what the service said along with it.
    ToolCall { tool_name: String, arguments: String, interim: String },
    /// The call failed.
    Failed { error: String },
}

/// A turn's outcome as plain values.
pub enum TurnOutcomeView {
    Final { text: Seq<char> },
    ToolCall { tool_name: Seq<char>, arguments: Seq<char>, interim: Seq<char> },
    Failed { error: Seq<char> },
}

impl View for TurnOutcome {
    type V = TurnOutcomeView;

    open spec fn view(&self) -> TurnOutcomeView {
        match self {
            TurnOutcome::Final { text } => TurnOutcomeView::Final { text: text@ },
            TurnOutcome::ToolCall { tool_name, arguments, interim } => TurnOutcomeView::ToolCall {
                tool_name: tool_name@,
                arguments: arguments@,
                interim: interim@,
            },
            TurnOutcome::Failed { error } => TurnOutcomeView::Failed { error: error@ },
        }
    }
}

/// What is to be done after a turn.
#[derive(Debug, Clone)]
pub enum LoopAction {
    /// Call the tool, then ask the reasoning service again.
    CallTool { tool_name: String, arguments: String },
    /// The loop has ended with this result.
    Finish { result: String },
}

/// A loop action as plain values.
pub enum LoopActionView {
    CallTool { tool_name: Seq<char>, arguments: Seq<char> },
    Finish { result: Seq<char> },
}

impl View for LoopAction {
    type V = LoopActionView;

    open spec fn view(&self) -> LoopActionView {
        match self {
            LoopAction::CallTool { tool_name, arguments } => LoopActionView::CallTool {
                tool_name: tool_name@,
                arguments: arguments@,
            },
            LoopAction::Finish { result } => LoopActionView::Finish { result: result@ },
        }
    }
}

/// A reasoning loop as plain values.
pub struct LoopModel {
    /// The turns the loop may take.
    pub max_turns: nat,
    /// The turns taken so far.
    pub turns_taken: nat,
    /// What the loop gives where its turns run out: the last text it has.
    pub best_effort: Seq<char>,
    /// The loop has given its result.
    pub finished: bool,
}

impl LoopModel {
    /// A loop that has taken no turn.
    pub open spec fn start(max_turns: nat) -> LoopModel {
        LoopModel { max_turns, turns_taken: 0, best_effort: Seq::empty(), finished: false }
    }

    /// No more turn may be taken.
    pub open spec fn spent(self) -> bool {
        self.finished || self.turns_taken >= self.max_turns
    }

    /// The loop after a turn with this outcome.
    pub open spec fn next(self, outcome: TurnOutcomeView) -> LoopModel {
        if self.spent() {
            LoopModel { finished: true, ..self }
        } else {
            match outcome {
                TurnOutcomeView::Final { text } => LoopModel {
                    turns_taken: self.turns_taken + 1,
                    best_effort: text,
                    finished: true,
                    ..self
                },
                TurnOutcomeView::Failed { error } => LoopModel {
                    turns_taken: self.turns_taken + 1,
                    best_effort: failure_text(error),
                    finished: true,
                    ..self
                },
                TurnOutcomeView::ToolCall { interim, .. } => LoopModel {
                    turns_taken: self.turns_taken + 1,
                    best_effort: interim,
                    finished: self.turns_taken + 1 >= self.max_turns,
                    ..self
                },
            }
        }
    }

    /// What is to be done after a turn with this outcome.
    pub open spec fn action(self, outcome: TurnOutcomeView) -> LoopActionView {
        if self.spent() {
            LoopActionView::Finish { result: self.best_effort }
        } else {
            match outcome {
                TurnOutcomeView::Final { text } => LoopActionView::Finish { result: text },
                TurnOutcomeView::Failed { error } => LoopActionView::Finish {
                    result: failure_text(error),
                },
                TurnOutcomeView::ToolCall { tool_name, arguments, interim } => if self.turns_taken
                    + 1 >= self.max_turns {
                    LoopActionView::Finish { result: interim }
                } else {
                    LoopActionView::CallTool { tool_name, arguments }
                },
            }
        }
    }

    /// The loop after the outcomes, one turn each.
    pub open spec fn run(self, outcomes: Seq<TurnOutcomeView>) -> LoopModel
        decreases outcomes.len(),
    {
        if outcomes.len() == 0 {
            self
        } else {
            self.run(outcomes.drop_last()).next(outcomes.last())
        }
    }
}

/// The reasoning loop of one execution.
pub struct ReasoningLoop {
    max_turns: usize,
    turns_taken: usize,
    best_effort: String,
    finished: bool,
}

impl View for ReasoningLoop {
    type V = LoopModel;

    closed spec fn view(&self) -> LoopModel {
        LoopModel {
            max_turns: self.max_turns as nat,
            turns_taken: self.turns_taken as nat,
            best_effort: self.best_effort@,
            finished: self.finished,
        }
    }
}

impl ReasoningLoop {
    /// A loop that may take `max_turns` turns and has taken none.
    pub fn new(max_turns: usize) -> (l: ReasoningLoop)
        ensures
            l@ == LoopModel::start(max_turns as nat),
    {
        ReasoningLoop { max_turns, turns_taken: 0, best_effort: String::new(), finished: false }
    }

    /// Whether the reasoning service may be asked once more.
    pub fn may_ask(&self) -> (yes: bool)
        ensures
            yes == !self@.spent(),
    {
        !self.finished && self.turns_taken < self.max_turns
    }

    /// Takes the outcome of one turn. The loop ends with the final text as soon as there
    /// is one; with the failure text where the service failed; and, where the last
    /// turn it may take asks for a tool again, with the text it has. A loop that has
    /// ended gives that result again.
    pub fn turn(&mut self, outcome: TurnOutcome) -> (action: LoopAction)
        ensures
            final(self)@ == old(self)@.next(outcome@),
            action@ == old(self)@.action(outcome@),
    {
        if self.finished || self.turns_taken >= self.max_turns {
            self.finished = true;
            return LoopAction::Finish { result: self.best_effort.clone() };
        }
        self.turns_taken = self.turns_taken + 1;
        match outcome {
            TurnOutcome::Final { text } => {
                self.finished = true;
                self.best_effort = text.clone();
                LoopAction::Finish { result: text }
            },
            TurnOutcome::Failed { error } => {
                self.finished = true;
                let text = failure_result(error.as_str());
                self.best_effort = text.clone();
                LoopAction::Finish { result: text }
            },
            TurnOutcome::ToolCall { tool_name, arguments, interim } => {
                self.best_effort = interim.clone();
                if self.turns_taken >= self.max_turns {
                    self.finished = true;
                    LoopAction::Finish { result: interim }
                } else {
                    LoopAction::CallTool { tool_name, arguments }
                }
            },
        }
    }
}

/// A loop never takes more turns than it may, and once it has taken them all it has
/// ended: after as many outcomes as it has turns, at the latest, there is a result.
pub proof fn law_loop_ends_within_its_turns(max_turns: nat, outcomes: Seq<TurnOutcomeView>)
    ensures
        LoopModel::start(max_turns).run(outcomes).max_turns == max_turns,
        LoopModel::start(max_turns).run(outcomes).turns_taken <= max_turns,
        LoopModel::start(max_turns).run(outcomes).turns_taken <= outcomes.len(),
        outcomes.len() > 0 && outcomes.len() >= max_turns ==> LoopModel::start(max_turns).run(
            outcomes,
        ).finished,
        !LoopModel::start(max_turns).run(outcomes).finished ==> LoopModel::start(
            max_turns,
        ).run(outcomes).turns_taken == outcomes.len(),
    decreases outcomes.len(),
{
    if outcomes.len() > 0 {
        law_loop_ends_within_its_turns(max_turns, outcomes.drop_last());
    }
}

/// A loop that has turns left ends at once with the final text, when it is given one.
pub proof fn law_final_text_ends_the_loop(m: LoopModel, text: Seq<char>)
    requires
        !m.spent(),
    ensures
        m.action(TurnOutcomeView::Final { text }) == (LoopActionView::Finish { result: text }),
        m.next(TurnOutcomeView::Final { text }).finished,
{
}

/// A loop that has ended calls no tool, whatever it is given, and gives the result it
/// ended with.
pub proof fn law_ended_loop_calls_no_tool(m: LoopModel, outcome: TurnOutcomeView)
    requires
        m.finished,
    ensures
        m.action(outcome) == (LoopActionView::Finish { result: m.best_effort }),
        m.next(outcome) == m,
{
}

/// The turn that uses up the last of the turns calls no tool: the loop gives the text
/// it has instead of failing.
pub proof fn law_last_turn_gives_best_effort(
    m: LoopModel,
    tool_name: Seq<char>,
    arguments: Seq<char>,
    interim: Seq<char>,
)
    requires
        !m.spent(),
        m.turns_taken + 1 == m.max_turns,
    ensures
        m.action(TurnOutcomeView::ToolCall { tool_name, arguments, interim }) == (
        LoopActionView::Finish { result: interim }),
        m.next(TurnOutcomeView::ToolCall { tool_name, arguments, interim }).finished,
{
}

} // verus!
