//! The camera agent's task, step by step: capture an image with one of two programs,
//! load it, have it analysed, publish what came of it.

use crate::agents::{texts, AgentProfile, CameraAgent, Decision, DecisionView};
use crate::runtime::{failure_result, failure_text};
use crate::text::{decimal, decimal_text};
use crate::tools::{Publication, PublicationView};
use vstd::prelude::*;
use vstd::string::*;

verus! {

/// A program that captures one image from the camera.
#[derive(Clone, Copy, Debug, PartialEq, Eq, Structural)]
pub enum CaptureProgram {
    /// Tried first.
    ImageSnap,
    /// Tried where the first one fails.
    Ffmpeg,
}

/// Why no image could be analysed.
#[derive(Clone, Copy, Debug, PartialEq, Eq, Structural)]
pub enum CaptureError {
    /// Neither program left an image.
    NoImage,
    /// The image could not be read.
    Unreadable,
}

/// Where the camera agent's task stands.
#[derive(Clone, Copy, Debug, PartialEq, Eq, Structural)]
pub enum CameraState {
    Start,
    /// The first program runs.
    TryingImageSnap,
    /// The second program runs.
    TryingFfmpeg,
    /// The image is being loaded.
    Loading,
    /// The reasoning service looks at the image.
    Analysing,
    Finished,
}

/// What the camera agent is told.
pub enum CameraInput {
    /// The task begins; `directory_exists` says whether the image directory is there.
    Begin { directory_exists: bool },
    /// A capture program has ended; `succeeded` says whether it ran well and left the
    /// image where it was told to.
    Captured { succeeded: bool },
    /// The image was read, or could not be.
    Loaded { succeeded: bool },
    /// The reasoning service has answered, or failed.
    Analysed { response: Result<String, String> },
}

/// A camera input as plain values.
pub enum CameraInputView {
    Begin { directory_exists: bool },
    Captured { succeeded: bool },
    Loaded { succeeded: bool },
    Analysed { response: Result<Seq<char>, Seq<char>> },
}

impl View for CameraInput {
    type V = CameraInputView;

    open spec fn view(&self) -> CameraInputView {
        match self {
            CameraInput::Begin { directory_exists } => CameraInputView::Begin {
                directory_exists: *directory_exists,
            },
            CameraInput::Captured { succeeded } => CameraInputView::Captured {
                succeeded: *succeeded,
            },
            CameraInput::Loaded { succeeded } => CameraInputView::Loaded { succeeded: *succeeded },
            CameraInput::Analysed { response } => CameraInputView::Analysed {
                response: match response {
                    Ok(text) => Ok(text@),
                    Err(error) => Err(error@),
                },
            },
        }
    }
}

/// What the program around the camera agent is to do next.
#[derive(Debug, Clone)]
pub enum CameraAction {
    /// Nothing: the input did not fit the state.
    Nothing,
    /// Make the image directory where `create_directory` says so, then run the program
    /// with the arguments and hand in `Captured`.
    Capture { create_directory: bool, program: CaptureProgram, arguments: Vec<String> },
    /// Read the image at the path and hand in `Loaded`.
    Load { path: String },
    /// Ask the reasoning service with the system text, the request and the image, and
    /// hand in `Analysed`.
    Analyse { system: String, user: String },
    /// The task has ended.
    Finish { decision: Decision },
}

/// A camera action as plain values.
pub enum CameraActionView {
    Nothing,
    Capture { create_directory: bool, program: CaptureProgram, arguments: Seq<Seq<char>> },
    Load { path: Seq<char> },
    Analyse { system: Seq<char>, user: Seq<char> },
    Finish { decision: DecisionView },
}

impl View for CameraAction {
    type V = CameraActionView;

    open spec fn view(&self) -> CameraActionView {
        match self {
            CameraAction::Nothing => CameraActionView::Nothing,
            CameraAction::Capture { create_directory, program, arguments } => {
                CameraActionView::Capture {
                    create_directory: *create_directory,
                    program: *program,
                    arguments: texts(arguments@),
                }
            },
            CameraAction::Load { path } => CameraActionView::Load { path: path@ },
            CameraAction::Analyse { system, user } => CameraActionView::Analyse {
                system: system@,
                user: user@,
            },
            CameraAction::Finish { decision } => CameraActionView::Finish { decision: decision@ },
        }
    }
}

/// The directory that holds the captured images.
pub open spec fn images_directory() -> Seq<char> {
    "captured_images"@
}

/// Where the image captured at `timestamp` is kept.
pub open spec fn image_path_text(timestamp: nat) -> Seq<char> {
    "captured_images/medical_image_"@ + decimal_text(timestamp) + ".jpg"@
}

/// The name by which a capture program is started.
pub open spec fn program_name(program: CaptureProgram) -> Seq<char> {
    match program {
        CaptureProgram::ImageSnap => "imagesnap"@,
        CaptureProgram::Ffmpeg => "ffmpeg"@,
    }
}

/// The arguments with which a capture program writes one image to `path`.
pub open spec fn capture_arguments(program: CaptureProgram, path: Seq<char>) -> Seq<Seq<char>> {
    match program {
        CaptureProgram::ImageSnap => seq!["-q"@, path],
        CaptureProgram::Ffmpeg => seq![
            "-f"@,
            "avfoundation"@,
            "-video_size"@,
            "640x480"@,
            "-framerate"@,
            "30"@,
            "-i"@,
            "0"@,
            "-vframes"@,
            "1"@,
            "-y"@,
            path,
        ],
    }
}

/// The result of a task whose capture failed with both programs.
pub open spec fn capture_failed_text() -> Seq<char> {
    "Camera capture failed - no image analysis available"@
}

/// The result of a task whose image could not be read.
pub open spec fn unreadable_text() -> Seq<char> {
    "Image file could not be read"@
}

/// The result that a capture error is turned into.
pub open spec fn capture_error_text(error: CaptureError) -> Seq<char> {
    match error {
        CaptureError::NoImage => capture_failed_text(),
        CaptureError::Unreadable => unreadable_text(),
    }
}

/// The system text of an image analysis.
pub open spec fn camera_system_text() -> Seq<char> {
    "You are a medical camera analysis agent. Analyze the provided image and respond with detailed medical assessment. Focus on any medical devices, conditions, or relevant visual information."@
}

/// The request of an image analysis for a query.
pub open spec fn camera_request_text(query: Seq<char>) -> Seq<char> {
    "Please analyze this medical image and respond to this query: "@ + query
        + ". Provide detailed findings."@
}

/// The topic on which the camera agent publishes.
pub open spec fn camera_topic() -> Seq<char> {
    "camera_response"@
}

/// What an analysis leads to: the findings are the result and are published under a
/// report heading; a failure is told in the same two ways.
pub open spec fn analysed_decision(response: Result<Seq<char>, Seq<char>>) -> DecisionView {
    match response {
        Ok(findings) => DecisionView {
            publishes: seq![
                PublicationView {
                    topic: camera_topic(),
                    prompt: "### Camera Analysis Result\n"@ + findings,
                },
            ],
            result: findings,
        },
        Err(error) => DecisionView {
            publishes: seq![
                PublicationView {
                    topic: camera_topic(),
                    prompt: "### Camera Analysis Error\n"@ + failure_text(error),
                },
            ],
            result: failure_text(error),
        },
    }
}

/// One task of the camera agent as plain values.
pub struct CameraModel {
    pub state: CameraState,
    pub query: Seq<char>,
    pub path: Seq<char>,
}

impl CameraModel {
    /// The task after the input. An input that does not fit the state changes nothing.
    pub open spec fn next(self, input: CameraInputView) -> CameraModel {
        let state = match (self.state, input) {
            (CameraState::Start, CameraInputView::Begin { .. }) => CameraState::TryingImageSnap,
            (CameraState::TryingImageSnap, CameraInputView::Captured { succeeded }) => if succeeded {
                CameraState::Loading
            } else {
                CameraState::TryingFfmpeg
            },
            (CameraState::TryingFfmpeg, CameraInputView::Captured { succeeded }) => if succeeded {
                CameraState::Loading
            } else {
                CameraState::Finished
            },
            (CameraState::Loading, CameraInputView::Loaded { succeeded }) => if succeeded {
                CameraState::Analysing
            } else {
                CameraState::Finished
            },
            (CameraState::Analysing, CameraInputView::Analysed { .. }) => CameraState::Finished,
            _ => self.state,
        };
        CameraModel { state, ..self }
    }

    /// What is to be done after the input.
    pub open spec fn action(self, input: CameraInputView) -> CameraActionView {
        match (self.state, input) {
            (CameraState::Start, CameraInputView::Begin { directory_exists }) => {
                CameraActionView::Capture {
                    create_directory: !directory_exists,
                    program: CaptureProgram::ImageSnap,
                    arguments: capture_arguments(CaptureProgram::ImageSnap, self.path),
                }
            },
            (CameraState::TryingImageSnap, CameraInputView::Captured { succeeded }) => if succeeded {
                CameraActionView::Load { path: self.path }
            } else {
                CameraActionView::Capture {
                    create_directory: false,
                    program: CaptureProgram::Ffmpeg,
                    arguments: capture_arguments(CaptureProgram::Ffmpeg, self.path),
                }
            },
            (CameraState::TryingFfmpeg, CameraInputView::Captured { succeeded }) => if succeeded {
                CameraActionView::Load { path: self.path }
            } else {
                CameraActionView::Finish {
                    decision: DecisionView {
                        publishes: Seq::empty(),
                        result: capture_failed_text(),
                    },
                }
            },
            (CameraState::Loading, CameraInputView::Loaded { succeeded }) => if succeeded {
                CameraActionView::Analyse {
                    system: camera_system_text(),
                    user: camera_request_text(self.query),
                }
            } else {
                CameraActionView::Finish {
                    decision: DecisionView { publishes: Seq::empty(), result: unreadable_text() },
                }
            },
            (CameraState::Analysing, CameraInputView::Analysed { response }) => {
                CameraActionView::Finish { decision: analysed_decision(response) }
            },
            _ => CameraActionView::Nothing,
        }
    }
}

/// One task of the camera agent.
pub struct CameraRun {
    state: CameraState,
    query: String,
    path: String,
}

impl View for CameraRun {
    type V = CameraModel;

    closed spec fn view(&self) -> CameraModel {
        CameraModel { state: self.state, query: self.query@, path: self.path@ }
    }
}

/// Where the image captured at `timestamp`, in seconds since the epoch, is kept.
pub fn image_path(timestamp: u64) -> (path: String)
    ensures
        path@ == image_path_text(timestamp as nat),
{
    let mut path = String::from_str("captured_images/medical_image_");
    let digits = decimal(timestamp);
    path.append(digits.as_str());
    path.append(".jpg");
    path
}

/// The name by which a capture program is started.
pub fn program_file(which: CaptureProgram) -> (name: String)
    ensures
        name@ == program_name(which),
{
    match which {
        CaptureProgram::ImageSnap => String::from_str("imagesnap"),
        CaptureProgram::Ffmpeg => String::from_str("ffmpeg"),
    }
}

/// The directory that holds the captured images.
pub fn directory() -> (name: String)
    ensures
        name@ == images_directory(),
{
    String::from_str("captured_images")
}

/// The arguments with which a capture program writes one image to `path`.
pub fn arguments_for(which: CaptureProgram, path: &str) -> (arguments: Vec<String>)
    ensures
        texts(arguments@) == capture_arguments(which, path@),
{
    let mut arguments: Vec<String> = Vec::new();
    match which {
        CaptureProgram::ImageSnap => {
            arguments.push(String::from_str("-q"));
        },
        CaptureProgram::Ffmpeg => {
            arguments.push(String::from_str("-f"));
            arguments.push(String::from_str("avfoundation"));
            arguments.push(String::from_str("-video_size"));
            arguments.push(String::from_str("640x480"));
            arguments.push(String::from_str("-framerate"));
            arguments.push(String::from_str("30"));
            arguments.push(String::from_str("-i"));
            arguments.push(String::from_str("0"));
            arguments.push(String::from_str("-vframes"));
            arguments.push(String::from_str("1"));
            arguments.push(String::from_str("-y"));
        },
    }
    arguments.push(path.to_owned());
    assert(texts(arguments@) =~= capture_arguments(which, path@));
    arguments
}

impl CaptureError {
    /// The result that the error is turned into: a task of the camera agent never
    /// fails, it says what went wrong.
    pub fn describe(self) -> (text: String)
        ensures
            text@ == capture_error_text(self),
    {
        match self {
            CaptureError::NoImage => String::from_str(
                "Camera capture failed - no image analysis available",
            ),
            CaptureError::Unreadable => String::from_str("Image file could not be read"),
        }
    }

    /// The decision that ends a task with the error: nothing is published.
    pub fn decision(self) -> (decision: Decision)
        ensures
            decision@ == (DecisionView {
                publishes: Seq::empty(),
                result: capture_error_text(self),
            }),
    {
        let decision = Decision { publishes: Vec::new(), result: self.describe() };
        assert(decision@.publishes =~= Seq::empty());
        decision
    }
}

/// What an analysis leads to.
fn decide(response: Result<String, String>) -> (decision: Decision)
    ensures
        decision@ == analysed_decision(
            match response {
                Ok(text) => Ok(text@),
                Err(error) => Err(error@),
            },
        ),
{
    let (heading, result) = match response {
        Ok(findings) => (String::from_str("### Camera Analysis Result\n"), findings),
        Err(error) => (
            String::from_str("### Camera Analysis Error\n"),
            failure_result(error.as_str()),
        ),
    };
    let mut prompt = heading;
    prompt.append(result.as_str());
    let mut publishes: Vec<Publication> = Vec::new();
    publishes.push(Publication { topic: String::from_str("camera_response"), prompt });
    let decision = Decision { publishes, result };
    assert(decision@.publishes =~= analysed_decision(
        match response {
            Ok(text) => Ok(text@),
            Err(error) => Err(error@),
        },
    ).publishes);
    decision
}

impl CameraAgent {
    /// The camera agent listens for requests and publishes its findings on another topic.
    pub fn profile(&self) -> (p: AgentProfile)
        ensures
            p.client_name@ == "camera_client"@,
            texts(p.subscriptions@) == seq!["camera_requests"@],
            texts(p.outputs@) == seq!["camera_response"@],
            p.memory_window == 10,
            p.loop_free(),
    {
        let mut subscriptions: Vec<String> = Vec::new();
        subscriptions.push(String::from_str("camera_requests"));
        let mut outputs: Vec<String> = Vec::new();
        outputs.push(String::from_str("camera_response"));
        let p = AgentProfile {
            client_name: String::from_str("camera_client"),
            subscriptions,
            outputs,
            memory_window: 10,
        };
        proof {
            reveal_strlit("camera_requests");
            reveal_strlit("camera_response");
            assert(texts(p.subscriptions@) =~= seq!["camera_requests"@]);
            assert(texts(p.outputs@) =~= seq!["camera_response"@]);
            assert("camera_requests"@[14] == 's');
            assert("camera_response"@[14] == 'e');
        }
        p
    }

    /// Takes a task in: the query, and the time in seconds since the epoch, which names
    /// the image.
    pub fn start(&self, query: String, timestamp: u64) -> (run: CameraRun)
        ensures
            run@ == (CameraModel {
                state: CameraState::Start,
                query: query@,
                path: image_path_text(timestamp as nat),
            }),
    {
        CameraRun { state: CameraState::Start, query, path: image_path(timestamp) }
    }
}

impl CameraRun {
    /// Where the task stands.
    pub fn state(&self) -> (s: CameraState)
        ensures
            s == self@.state,
    {
        self.state
    }

    /// Takes one input and says what is to be done next.
    pub fn step(&mut self, input: CameraInput) -> (action: CameraAction)
        ensures
            final(self)@ == old(self)@.next(input@),
            action@ == old(self)@.action(input@),
    {
        match self.state {
            CameraState::Start => match input {
                CameraInput::Begin { directory_exists } => {
                    self.state = CameraState::TryingImageSnap;
                    CameraAction::Capture {
                        create_directory: !directory_exists,
                        program: CaptureProgram::ImageSnap,
                        arguments: arguments_for(CaptureProgram::ImageSnap, self.path.as_str()),
                    }
                },
                _ => CameraAction::Nothing,
            },
            CameraState::TryingImageSnap => match input {
                CameraInput::Captured { succeeded } => {
                    if succeeded {
                        self.state = CameraState::Loading;
                        CameraAction::Load { path: self.path.clone() }
                    } else {
                        self.state = CameraState::TryingFfmpeg;
                        CameraAction::Capture {
                            create_directory: false,
                            program: CaptureProgram::Ffmpeg,
                            arguments: arguments_for(CaptureProgram::Ffmpeg, self.path.as_str()),
                        }
                    }
                },
                _ => CameraAction::Nothing,
            },
            CameraState::TryingFfmpeg => match input {
                CameraInput::Captured { succeeded } => {
                    if succeeded {
                        self.state = CameraState::Loading;
                        CameraAction::Load { path: self.path.clone() }
                    } else {
                        self.state = CameraState::Finished;
                        CameraAction::Finish { decision: CaptureError::NoImage.decision() }
                    }
                },
                _ => CameraAction::Nothing,
            },
            CameraState::Loading => match input {
                CameraInput::Loaded { succeeded } => {
                    if succeeded {
                        self.state = CameraState::Analysing;
                        let mut user = String::from_str(
                            "Please analyze this medical image and respond to this query: ",
                        );
                        user.append(self.query.as_str());
                        user.append(". Provide detailed findings.");
                        CameraAction::Analyse {
                            system: String::from_str(
                                "You are a medical camera analysis agent. Analyze the provided image and respond with detailed medical assessment. Focus on any medical devices, conditions, or relevant visual information.",
                            ),
                            user,
                        }
                    } else {
                        self.state = CameraState::Finished;
                        CameraAction::Finish { decision: CaptureError::Unreadable.decision() }
                    }
                },
                _ => CameraAction::Nothing,
            },
            CameraState::Analysing => match input {
                CameraInput::Analysed { response } => {
                    self.state = CameraState::Finished;
                    CameraAction::Finish { decision: decide(response) }
                },
                _ => CameraAction::Nothing,
            },
            CameraState::Finished => CameraAction::Nothing,
        }
    }
}

/// A task of the camera agent publishes something exactly where it ends through an
/// analysis; the input that ends it leaves it finished; and a finished task does
/// nothing more.
pub proof fn law_camera_publishes_only_after_analysis(m: CameraModel, input: CameraInputView)
    ensures
        m.action(input) matches CameraActionView::Finish { decision } ==> (decision.publishes.len()
            > 0 <==> m.state == CameraState::Analysing),
        m.action(input) matches CameraActionView::Finish { decision } ==> m.next(input).state
            == CameraState::Finished,
        m.state == CameraState::Finished ==> m.action(input) == CameraActionView::Nothing
            && m.next(input) == m,
{
}

} // verus!
