//! The tools of the doctor agent. A tool call is a publish on the topic of the agent
//! that does the work, answered at once by an acknowledgement.

use crate::text::same_text;
use vstd::prelude::*;
use vstd::string::*;

verus! {

/// What the ECG analysis tool is called with.
#[derive(Debug)]
pub struct PublishTopicToAnalysisArgs {
    /// The query to submit to the analysis agent.
    pub query: String,
}

/// What the camera analysis tool is called with.
#[derive(Debug)]
pub struct CameraAnalysisArgs {
    /// The request for the camera image.
    pub query: String,
}

/// One task to be published on one topic.
#[derive(Debug, Clone)]
pub struct Publication {
    pub topic: String,
    pub prompt: String,
}

/// A publication as plain values.
pub struct PublicationView {
    pub topic: Seq<char>,
    pub prompt: Seq<char>,
}

impl View for Publication {
    type V = PublicationView;

    open spec fn view(&self) -> PublicationView {
        PublicationView { topic: self.topic@, prompt: self.prompt@ }
    }
}

/// A tool of the doctor agent.
#[derive(Clone, Copy, Debug, PartialEq, Eq, Structural)]
pub enum Tool {
    /// Asks the analysis agent for an ECG analysis.
    EcgAnalysis,
    /// Asks the camera agent to capture and analyse an image.
    CameraAnalysis,
}

/// The name under which a tool is called.
pub open spec fn tool_name(tool: Tool) -> Seq<char> {
    match tool {
        Tool::EcgAnalysis => "ecg_analysis_tool"@,
        Tool::CameraAnalysis => "camera_analysis"@,
    }
}

/// The topic on which a tool publishes.
pub open spec fn tool_topic(tool: Tool) -> Seq<char> {
    match tool {
        Tool::EcgAnalysis => "analysis_agent"@,
        Tool::CameraAnalysis => "camera_requests"@,
    }
}

/// What a tool answers once its request is published.
pub open spec fn tool_acknowledgement(tool: Tool, query: Seq<char>) -> Seq<char> {
    match tool {
        Tool::EcgAnalysis => "Analysis request submitted: '"@ + query
            + "'. The analysis will be processed shortly."@,
        Tool::CameraAnalysis => "Camera analysis request submitted: "@ + query,
    }
}

/// The tool of that name, if there is one.
pub open spec fn tool_named(name: Seq<char>) -> Option<Tool> {
    if name == tool_name(Tool::EcgAnalysis) {
        Some(Tool::EcgAnalysis)
    } else if name == tool_name(Tool::CameraAnalysis) {
        Some(Tool::CameraAnalysis)
    } else {
        None
    }
}

impl Tool {
    /// The tool of that name, if there is one.
    pub fn by_name(name: &str) -> (tool: Option<Tool>)
        ensures
            tool == tool_named(name@),
    {
        if same_text(name, "ecg_analysis_tool") {
            Some(Tool::EcgAnalysis)
        } else if same_text(name, "camera_analysis") {
            Some(Tool::CameraAnalysis)
        } else {
            None
        }
    }

    /// The name under which the tool is called.
    pub fn name(self) -> (name: String)
        ensures
            name@ == tool_name(self),
    {
        match self {
            Tool::EcgAnalysis => String::from_str("ecg_analysis_tool"),
            Tool::CameraAnalysis => String::from_str("camera_analysis"),
        }
    }

    /// The topic on which the tool publishes.
    pub fn topic(self) -> (topic: String)
        ensures
            topic@ == tool_topic(self),
    {
        match self {
            Tool::EcgAnalysis => String::from_str("analysis_agent"),
            Tool::CameraAnalysis => String::from_str("camera_requests"),
        }
    }

    /// What the tool publishes for a query: the query itself, on the tool's topic.
    pub fn request(self, query: &str) -> (publication: Publication)
        ensures
            publication@ == (PublicationView { topic: tool_topic(self), prompt: query@ }),
    {
        Publication { topic: self.topic(), prompt: query.to_owned() }
    }

    /// What the tool answers once its request is published.
    pub fn acknowledgement(self, query: &str) -> (text: String)
        ensures
            text@ == tool_acknowledgement(self, query@),
    {
        match self {
            Tool::EcgAnalysis => {
                let mut text = String::from_str("Analysis request submitted: '");
                text.append(query);
                text.append("'. The analysis will be processed shortly.");
                text
            },
            Tool::CameraAnalysis => {
                let mut text = String::from_str("Camera analysis request submitted: ");
                text.append(query);
                text
            },
        }
    }

    /// The milliseconds to wait after the publish, so that the request is on its way
    /// before the tool answers.
    pub fn settle_millis(self) -> (millis: u64)
        ensures
            millis == match self {
                Tool::EcgAnalysis => 500u64,
                Tool::CameraAnalysis => 0u64,
            },
    {
        match self {
            Tool::EcgAnalysis => 500,
            Tool::CameraAnalysis => 0,
        }
    }

    /// What the tool call gives, given how its publish went: the acknowledgement after
    /// a publish that succeeded, the publish's error otherwise.
    pub fn outcome(self, query: &str, published: Result<(), String>) -> (result: Result<
        String,
        String,
    >)
        ensures
            match (published, result) {
                (Ok(_), Ok(text)) => text@ == tool_acknowledgement(self, query@),
                (Err(e), Err(f)) => f == e,
                _ => false,
            },
    {
        match published {
            Ok(_) => Ok(self.acknowledgement(query)),
            Err(e) => Err(e),
        }
    }
}

impl PublishTopicToAnalysisArgs {
    /// The tool these arguments are for.
    pub fn tool(&self) -> (tool: Tool)
        ensures
            tool == Tool::EcgAnalysis,
    {
        Tool::EcgAnalysis
    }

    /// What the tool publishes for them.
    pub fn request(&self) -> (publication: Publication)
        ensures
            publication@ == (PublicationView {
                topic: tool_topic(Tool::EcgAnalysis),
                prompt: self.query@,
            }),
    {
        Tool::EcgAnalysis.request(self.query.as_str())
    }
}

impl CameraAnalysisArgs {
    /// The tool these arguments are for.
    pub fn tool(&self) -> (tool: Tool)
        ensures
            tool == Tool::CameraAnalysis,
    {
        Tool::CameraAnalysis
    }

    /// What the tool publishes for them.
    pub fn request(&self) -> (publication: Publication)
        ensures
            publication@ == (PublicationView {
                topic: tool_topic(Tool::CameraAnalysis),
                prompt: self.query@,
            }),
    {
        Tool::CameraAnalysis.request(self.query.as_str())
    }
}

} // verus!
