//! The three agents of the cluster: what each subscribes to, where it publishes, and
//! what it decides at each step of a task. Calling the reasoning service, the camera
//! programs and the bus is left to the program around them.

use crate::text::same_text;
use crate::tools::{Publication, PublicationView, Tool};
use vstd::prelude::*;
use vstd::string::*;

verus! {

/// The secret that the members of the cluster share.
pub open spec fn cluster_cookie() -> Seq<char> {
    "cluster-cookie"@
}

/// The secret that the members of the cluster share.
pub fn cookie() -> (c: String)
    ensures
        c@ == cluster_cookie(),
{
    String::from_str("cluster-cookie")
}

/// The outcome of a task: what to publish, and the one result.
#[derive(Debug, Clone)]
pub struct Decision {
    /// What is to be published before the result is handed out, in this order.
    pub publishes: Vec<Publication>,
    /// The result of the task.
    pub result: String,
}

/// A decision as plain values.
pub struct DecisionView {
    pub publishes: Seq<PublicationView>,
    pub result: Seq<char>,
}

impl View for Decision {
    type V = DecisionView;

    open spec fn view(&self) -> DecisionView {
        DecisionView {
            publishes: self.publishes@.map_values(|p: Publication| p@),
            result: self.result@,
        }
    }
}

/// A decision that publishes nothing.
fn quiet_decision(result: String) -> (d: Decision)
    ensures
        d@ == (DecisionView { publishes: Seq::empty(), result: result@ }),
{
    let d = Decision { publishes: Vec::new(), result };
    assert(d@.publishes =~= Seq::empty());
    d
}

/// A decision that publishes one task.
fn publishing_decision(topic: &str, prompt: String, result: String) -> (d: Decision)
    ensures
        d@ == (DecisionView {
            publishes: seq![PublicationView { topic: topic@, prompt: prompt@ }],
            result: result@,
        }),
{
    let mut publishes: Vec<Publication> = Vec::new();
    publishes.push(Publication { topic: topic.to_owned(), prompt });
    let d = Decision { publishes, result };
    assert(d@.publishes =~= seq![PublicationView { topic: topic@, prompt: prompt@ }]);
    d
}

/// What an agent of the cluster is set up with.
#[derive(Debug, Clone)]
pub struct AgentProfile {
    /// The name under which the agent's client joins the cluster.
    pub client_name: String,
    /// The topics the agent subscribes to.
    pub subscriptions: Vec<String>,
    /// The topics the agent publishes on.
    pub outputs: Vec<String>,
    /// How many messages the agent remembers.
    pub memory_window: usize,
}

/// The texts of a list of strings.
pub open spec fn texts(list: Seq<String>) -> Seq<Seq<char>> {
    list.map_values(|s: String| s@)
}

impl AgentProfile {
    /// The agent publishes on no topic that it subscribes to.
    pub open spec fn loop_free(&self) -> bool {
        forall|i: int, j: int|
            0 <= i < self.subscriptions@.len() && 0 <= j < self.outputs@.len() ==> (
            #[trigger] self.subscriptions@[i])@ != (#[trigger] self.outputs@[j])@
    }

    /// Whether the agent publishes on no topic that it subscribes to.
    pub fn is_loop_free(&self) -> (yes: bool)
        ensures
            yes == self.loop_free(),
    {
        let mut i: usize = 0;
        while i < self.subscriptions.len()
            invariant
                i <= self.subscriptions@.len(),
                forall|a: int, b: int|
                    0 <= a < i && 0 <= b < self.outputs@.len() ==> (
                    #[trigger] self.subscriptions@[a])@ != (#[trigger] self.outputs@[b])@,
            decreases self.subscriptions@.len() - i,
        {
            let mut j: usize = 0;
            while j < self.outputs.len()
                invariant
                    i < self.subscriptions@.len(),
                    j <= self.outputs@.len(),
                    forall|b: int|
                        0 <= b < j ==> self.subscriptions@[i as int]@ != (
                        #[trigger] self.outputs@[b])@,
                decreases self.outputs@.len() - j,
            {
                if same_text(self.subscriptions[i].as_str(), self.outputs[j].as_str()) {
                    return false;
                }
                j += 1;
            }
            i += 1;
        }
        true
    }
}

/// The doctor agent: it reasons over the operator's messages, with tools.
#[derive(Clone)]
pub struct DoctorAgent {}

/// The analysis agent: it turns a query into an analysis report.
pub struct AnalysisAgent {}

/// The camera agent: it captures an image and has it analysed.
#[derive(Clone)]
pub struct CameraAgent {}

impl DoctorAgent {
    /// The doctor listens to the operator and to the results of the other two agents,
    /// and publishes only through its tools, on their topics.
    pub fn profile(&self) -> (p: AgentProfile)
        ensures
            p.client_name@ == "doctor_client"@,
            texts(p.subscriptions@) == seq![
                "user_messages"@,
                "analysis_response"@,
                "camera_response"@,
            ],
            texts(p.outputs@) == seq!["analysis_agent"@, "camera_requests"@],
            p.memory_window == 50,
            p.loop_free(),
    {
        let mut subscriptions: Vec<String> = Vec::new();
        subscriptions.push(String::from_str("user_messages"));
        subscriptions.push(String::from_str("analysis_response"));
        subscriptions.push(String::from_str("camera_response"));
        let mut outputs: Vec<String> = Vec::new();
        outputs.push(String::from_str("analysis_agent"));
        outputs.push(String::from_str("camera_requests"));
        let p = AgentProfile {
            client_name: String::from_str("doctor_client"),
            subscriptions,
            outputs,
            memory_window: 50,
        };
        proof {
            reveal_strlit("user_messages");
            reveal_strlit("analysis_response");
            reveal_strlit("camera_response");
            reveal_strlit("analysis_agent");
            reveal_strlit("camera_requests");
            assert(texts(p.subscriptions@) =~= seq![
                "user_messages"@,
                "analysis_response"@,
                "camera_response"@,
            ]);
            assert(texts(p.outputs@) =~= seq!["analysis_agent"@, "camera_requests"@]);
            assert("user_messages"@.len() == 13);
            assert("analysis_response"@.len() == 17);
            assert("camera_response"@.len() == 15);
            assert("analysis_agent"@.len() == 14);
            assert("camera_requests"@[14] == 's');
            assert("camera_response"@[14] == 'e');
        }
        p
    }

    /// The tools the doctor may call.
    pub fn tools(&self) -> (list: Vec<Tool>)
        ensures
            list@ == seq![Tool::EcgAnalysis, Tool::CameraAnalysis],
    {
        let mut list: Vec<Tool> = Vec::new();
        list.push(Tool::EcgAnalysis);
        list.push(Tool::CameraAnalysis);
        list
    }
}

/// What the analysis agent is to do with a task.
#[derive(Debug, Clone)]
pub enum AnalysisStep {
    /// The task is done without any call.
    Done { decision: Decision },
    /// The reasoning service is to be asked, with this system text and this request.
    Ask { system: String, user: String },
}

/// An analysis step as plain values.
pub enum AnalysisStepView {
    Done { decision: DecisionView },
    Ask { system: Seq<char>, user: Seq<char> },
}

impl View for AnalysisStep {
    type V = AnalysisStepView;

    open spec fn view(&self) -> AnalysisStepView {
        match self {
            AnalysisStep::Done { decision } => AnalysisStepView::Done { decision: decision@ },
            AnalysisStep::Ask { system, user } => AnalysisStepView::Ask {
                system: system@,
                user: user@,
            },
        }
    }
}

/// The text that asks the analysis agent to test itself.
pub open spec fn self_test_prompt() -> Seq<char> {
    "SELF_TEST"@
}

/// The result of a self-test.
pub open spec fn self_test_result() -> Seq<char> {
    "Self-test completed successfully"@
}

/// What follows the agent's description in the system text of an analysis.
pub open spec fn analysis_context() -> Seq<char> {
    " - > ECG Data Context: Add ECG"@
}

/// What follows the query in the request for an analysis.
pub open spec fn analysis_instructions() -> Seq<char> {
    "\n\nBased on this research data, provide:\n1. Key insights and patterns identified\n2. Strategic recommendations\n3. Risk assessment and opportunities\n4. Actionable next steps\n5. Executive summary of findings\n\nProvide a comprehensive analysis report."@
}

/// What the analysis agent does with a task of this text.
pub open spec fn analysis_begin(prompt: Seq<char>, description: Seq<char>) -> AnalysisStepView {
    if prompt == self_test_prompt() {
        AnalysisStepView::Done {
            decision: DecisionView { publishes: Seq::empty(), result: self_test_result() },
        }
    } else {
        AnalysisStepView::Ask {
            system: description + analysis_context(),
            user: prompt + analysis_instructions(),
        }
    }
}

impl AnalysisAgent {
    /// The analysis agent listens on its own topic and publishes its reports on another.
    pub fn profile(&self) -> (p: AgentProfile)
        ensures
            p.client_name@ == "analysis_client"@,
            texts(p.subscriptions@) == seq!["analysis_agent"@],
            texts(p.outputs@) == seq!["analysis_response"@],
            p.memory_window == 10,
            p.loop_free(),
    {
        let mut subscriptions: Vec<String> = Vec::new();
        subscriptions.push(String::from_str("analysis_agent"));
        let mut outputs: Vec<String> = Vec::new();
        outputs.push(String::from_str("analysis_response"));
        let p = AgentProfile {
            client_name: String::from_str("analysis_client"),
            subscriptions,
            outputs,
            memory_window: 10,
        };
        proof {
            reveal_strlit("analysis_agent");
            reveal_strlit("analysis_response");
            assert(texts(p.subscriptions@) =~= seq!["analysis_agent"@]);
            assert(texts(p.outputs@) =~= seq!["analysis_response"@]);
            assert("analysis_agent"@.len() == 14);
            assert("analysis_response"@.len() == 17);
        }
        p
    }

    /// The turns an execution may take.
    pub fn max_turns(&self) -> (n: usize)
        ensures
            n == 10,
    {
        10
    }

    /// Takes a task in. A self-test is answered at once, with a fixed result and
    /// without any call; for anything else the reasoning service is to be asked.
    pub fn begin(&self, prompt: &str, description: &str) -> (step: AnalysisStep)
        ensures
            step@ == analysis_begin(prompt@, description@),
    {
        if same_text(prompt, "SELF_TEST") {
            AnalysisStep::Done {
                decision: quiet_decision(String::from_str("Self-test completed successfully")),
            }
        } else {
            let mut system = description.to_owned();
            system.append(" - > ECG Data Context: Add ECG");
            let mut user = prompt.to_owned();
            user.append(
                "\n\nBased on this research data, provide:\n1. Key insights and patterns identified\n2. Strategic recommendations\n3. Risk assessment and opportunities\n4. Actionable next steps\n5. Executive summary of findings\n\nProvide a comprehensive analysis report.",
            );
            AnalysisStep::Ask { system, user }
        }
    }

    /// Takes the answer of the reasoning service: the report is published on
    /// `analysis_response` and is the result. A failed call is an error of the execution.
    pub fn finish(&self, response: Result<String, String>) -> (outcome: Result<Decision, String>)
        ensures
            match (response, outcome) {
                (Ok(report), Ok(decision)) => decision@ == (DecisionView {
                    publishes: seq![
                        PublicationView { topic: "analysis_response"@, prompt: report@ },
                    ],
                    result: report@,
                }),
                (Err(e), Err(f)) => f == e,
                _ => false,
            },
    {
        match response {
            Ok(report) => {
                let copy = report.clone();
                Ok(publishing_decision("analysis_response", copy, report))
            },
            Err(e) => Err(e),
        }
    }
}

} // verus!
