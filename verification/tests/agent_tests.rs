use agent_cluster::agents::{cookie, AgentProfile, AnalysisAgent, AnalysisStep, CameraAgent, DoctorAgent};
use agent_cluster::camera::{
    arguments_for, directory, image_path, program_file, CameraAction, CameraInput, CameraState,
    CaptureError, CaptureProgram,
};
use agent_cluster::runtime::ReasoningError;
use agent_cluster::cluster::Role;
use agent_cluster::config::RunMode;
use agent_cluster::events::{handle_event, EventRoute};
use agent_cluster::message::{Event, Notice, Task};
use agent_cluster::text::decimal;
use agent_cluster::tools::{CameraAnalysisArgs, PublishTopicToAnalysisArgs, Tool};

#[test]
fn self_test_short_circuits() {
    match (AnalysisAgent {}).begin("SELF_TEST", "You are an analysis agent.") {
        AnalysisStep::Done { decision } => {
            assert_eq!(decision.result, "Self-test completed successfully");
            assert!(decision.publishes.is_empty());
        }
        other => panic!("no call is to be made, got {:?}", other),
    }
}

#[test]
fn self_test_must_match_exactly() {
    assert!(matches!(AnalysisAgent {}.begin("SELF_TEST ", "d"), AnalysisStep::Ask { .. }));
    assert!(matches!(AnalysisAgent {}.begin("self_test", "d"), AnalysisStep::Ask { .. }));
}

#[test]
fn analysis_request_text() {
    match (AnalysisAgent {}).begin("heart rate 120", "You are an analysis agent.") {
        AnalysisStep::Ask { system, user } => {
            assert_eq!(system, "You are an analysis agent. - > ECG Data Context: Add ECG");
            assert_eq!(
                user,
                "heart rate 120\n\nBased on this research data, provide:\n1. Key insights and patterns identified\n2. Strategic recommendations\n3. Risk assessment and opportunities\n4. Actionable next steps\n5. Executive summary of findings\n\nProvide a comprehensive analysis report."
            );
        }
        other => panic!("expected a request, got {:?}", other),
    }
}

#[test]
fn analysis_report_is_published_and_returned() {
    let d = (AnalysisAgent {}).finish(Ok("report".to_string())).unwrap();
    assert_eq!(d.result, "report");
    assert_eq!(d.publishes.len(), 1);
    assert_eq!(d.publishes[0].topic, "analysis_response");
    assert_eq!(d.publishes[0].prompt, "report");
    assert_eq!(AnalysisAgent {}.finish(Err("down".to_string())).unwrap_err(), "down");
    assert_eq!(AnalysisAgent {}.max_turns(), 10);
}

fn check_profile(p: &AgentProfile, name: &str, subs: &[&str], outs: &[&str], window: usize) {
    assert_eq!(p.client_name, name);
    assert_eq!(p.subscriptions, subs);
    assert_eq!(p.outputs, outs);
    assert_eq!(p.memory_window, window);
    assert!(p.is_loop_free());
}

#[test]
fn profiles_of_the_three_agents() {
    check_profile(
        &(DoctorAgent {}).profile(),
        "doctor_client",
        &["user_messages", "analysis_response", "camera_response"],
        &["analysis_agent", "camera_requests"],
        50,
    );
    check_profile(&(AnalysisAgent {}).profile(), "analysis_client", &["analysis_agent"], &["analysis_response"], 10);
    check_profile(&(CameraAgent {}).profile(), "camera_client", &["camera_requests"], &["camera_response"], 10);
    assert_eq!(cookie(), "cluster-cookie");
    assert_eq!(DoctorAgent {}.tools(), vec![Tool::EcgAnalysis, Tool::CameraAnalysis]);
}

#[test]
fn overlapping_profile_is_not_loop_free() {
    let p = AgentProfile {
        client_name: "x".to_string(),
        subscriptions: vec!["a".to_string(), "b".to_string()],
        outputs: vec!["c".to_string(), "b".to_string()],
        memory_window: 1,
    };
    assert!(!p.is_loop_free());
}

#[test]
fn tools_by_name() {
    assert_eq!(Tool::by_name("ecg_analysis_tool"), Some(Tool::EcgAnalysis));
    assert_eq!(Tool::by_name("camera_analysis"), Some(Tool::CameraAnalysis));
    assert_eq!(Tool::by_name("camera"), None);
    assert_eq!(Tool::EcgAnalysis.name(), "ecg_analysis_tool");
    assert_eq!(Tool::CameraAnalysis.name(), "camera_analysis");
    assert_eq!(Tool::EcgAnalysis.topic(), "analysis_agent");
    assert_eq!(Tool::CameraAnalysis.topic(), "camera_requests");
    assert_eq!(Tool::EcgAnalysis.settle_millis(), 500);
    assert_eq!(Tool::CameraAnalysis.settle_millis(), 0);
}

#[test]
fn tool_requests_and_acknowledgements() {
    let ecg = PublishTopicToAnalysisArgs { query: "check ST segment".to_string() };
    let r = ecg.request();
    assert_eq!(r.topic, "analysis_agent");
    assert_eq!(r.prompt, "check ST segment");
    assert_eq!(
        ecg.tool().acknowledgement(&ecg.query),
        "Analysis request submitted: 'check ST segment'. The analysis will be processed shortly."
    );
    let cam = CameraAnalysisArgs { query: "is the drip running?".to_string() };
    let r = cam.request();
    assert_eq!(r.topic, "camera_requests");
    assert_eq!(r.prompt, "is the drip running?");
    assert_eq!(
        cam.tool().outcome(&cam.query, Ok(())),
        Ok("Camera analysis request submitted: is the drip running?".to_string())
    );
    assert_eq!(
        cam.tool().outcome(&cam.query, Err("bus closed".to_string())),
        Err("bus closed".to_string())
    );
}

#[test]
fn decimal_agrees_with_std() {
    for n in [0u64, 1, 9, 10, 11, 99, 100, 1234567890, 1_700_000_000, u64::MAX] {
        assert_eq!(decimal(n), n.to_string());
    }
}

#[test]
fn image_path_and_capture_commands() {
    assert_eq!(image_path(1700000123), "captured_images/medical_image_1700000123.jpg");
    assert_eq!(image_path(0), "captured_images/medical_image_0.jpg");
    assert_eq!(directory(), "captured_images");
    assert_eq!(program_file(CaptureProgram::ImageSnap), "imagesnap");
    assert_eq!(program_file(CaptureProgram::Ffmpeg), "ffmpeg");
    assert_eq!(arguments_for(CaptureProgram::ImageSnap, "p.jpg"), vec!["-q", "p.jpg"]);
    assert_eq!(
        arguments_for(CaptureProgram::Ffmpeg, "p.jpg"),
        vec![
            "-f", "avfoundation", "-video_size", "640x480", "-framerate", "30", "-i", "0",
            "-vframes", "1", "-y", "p.jpg"
        ]
    );
}

#[test]
fn camera_task_with_first_program() {
    let mut run = (CameraAgent {}).start("any bleeding?".to_string(), 42);
    assert_eq!(run.state(), CameraState::Start);
    match run.step(CameraInput::Begin { directory_exists: false }) {
        CameraAction::Capture { create_directory, program, arguments } => {
            assert!(create_directory);
            assert_eq!(program, CaptureProgram::ImageSnap);
            assert_eq!(arguments, vec!["-q", "captured_images/medical_image_42.jpg"]);
        }
        other => panic!("expected capture, got {:?}", other),
    }
    match run.step(CameraInput::Captured { succeeded: true }) {
        CameraAction::Load { path } => assert_eq!(path, "captured_images/medical_image_42.jpg"),
        other => panic!("expected load, got {:?}", other),
    }
    match run.step(CameraInput::Loaded { succeeded: true }) {
        CameraAction::Analyse { system, user } => {
            assert_eq!(system, "You are a medical camera analysis agent. Analyze the provided image and respond with detailed medical assessment. Focus on any medical devices, conditions, or relevant visual information.");
            assert_eq!(user, "Please analyze this medical image and respond to this query: any bleeding?. Provide detailed findings.");
        }
        other => panic!("expected analyse, got {:?}", other),
    }
    assert_eq!(run.state(), CameraState::Analysing);
    match run.step(CameraInput::Analysed { response: Ok("none visible".to_string()) }) {
        CameraAction::Finish { decision } => {
            assert_eq!(decision.result, "none visible");
            assert_eq!(decision.publishes.len(), 1);
            assert_eq!(decision.publishes[0].topic, "camera_response");
            assert_eq!(decision.publishes[0].prompt, "### Camera Analysis Result\nnone visible");
        }
        other => panic!("expected finish, got {:?}", other),
    }
    assert_eq!(run.state(), CameraState::Finished);
    assert!(matches!(run.step(CameraInput::Begin { directory_exists: true }), CameraAction::Nothing));
}

#[test]
fn camera_falls_back_to_second_program_then_gives_up() {
    let mut run = (CameraAgent {}).start("q".to_string(), 7);
    match run.step(CameraInput::Begin { directory_exists: true }) {
        CameraAction::Capture { create_directory, .. } => assert!(!create_directory),
        other => panic!("expected capture, got {:?}", other),
    }
    match run.step(CameraInput::Captured { succeeded: false }) {
        CameraAction::Capture { create_directory, program, arguments } => {
            assert!(!create_directory);
            assert_eq!(program, CaptureProgram::Ffmpeg);
            assert_eq!(arguments.len(), 12);
            assert_eq!(arguments[11], "captured_images/medical_image_7.jpg");
        }
        other => panic!("expected capture, got {:?}", other),
    }
    match run.step(CameraInput::Captured { succeeded: false }) {
        CameraAction::Finish { decision } => {
            assert_eq!(decision.result, "Camera capture failed - no image analysis available");
            assert!(decision.publishes.is_empty());
        }
        other => panic!("expected finish, got {:?}", other),
    }
}

#[test]
fn camera_unreadable_image_and_failed_analysis() {
    let mut run = (CameraAgent {}).start("q".to_string(), 7);
    run.step(CameraInput::Begin { directory_exists: true });
    run.step(CameraInput::Captured { succeeded: false });
    assert!(matches!(run.step(CameraInput::Captured { succeeded: true }), CameraAction::Load { .. }));
    match run.step(CameraInput::Loaded { succeeded: false }) {
        CameraAction::Finish { decision } => {
            assert_eq!(decision.result, "Image file could not be read");
            assert!(decision.publishes.is_empty());
        }
        other => panic!("expected finish, got {:?}", other),
    }
    let mut run = (CameraAgent {}).start("q".to_string(), 7);
    run.step(CameraInput::Begin { directory_exists: true });
    run.step(CameraInput::Captured { succeeded: true });
    assert!(matches!(run.step(CameraInput::Captured { succeeded: true }), CameraAction::Nothing));
    run.step(CameraInput::Loaded { succeeded: true });
    match run.step(CameraInput::Analysed { response: Err("quota".to_string()) }) {
        CameraAction::Finish { decision } => {
            assert_eq!(decision.result, "AI analysis failed: quota");
            assert_eq!(decision.publishes[0].topic, "camera_response");
            assert_eq!(decision.publishes[0].prompt, "### Camera Analysis Error\nAI analysis failed: quota");
        }
        other => panic!("expected finish, got {:?}", other),
    }
}

fn new_task(prompt: &str) -> Event {
    Event::NewTask { task: Task::new(1, prompt.to_string(), 0) }
}

#[test]
fn events_are_routed() {
    match handle_event(new_task("### Camera Analysis Result\nok"), false) {
        EventRoute::ToOperator { text } => assert_eq!(text, "### Camera Analysis Result\nok"),
        other => panic!("expected operator, got {:?}", other),
    }
    assert!(matches!(handle_event(new_task("what now?"), false), EventRoute::ToAgent));
    assert!(matches!(handle_event(new_task("### result"), true), EventRoute::Logged));
    assert!(matches!(handle_event(new_task("what now?"), true), EventRoute::Logged));
    let tool = Event::ToolCallRequested { tool_name: "t".to_string(), arguments: "{}".to_string() };
    assert!(matches!(handle_event(tool, false), EventRoute::Logged));
    assert!(matches!(handle_event(Event::Other { notice: Notice::TaskStarted }, false), EventRoute::Logged));
    let done = Event::TaskComplete { result: "\"fine\"".to_string() };
    match handle_event(done.clone(), false) {
        EventRoute::ToOperator { text } => assert_eq!(text, "fine"),
        other => panic!("expected operator, got {:?}", other),
    }
    assert!(matches!(handle_event(done, true), EventRoute::Logged));
    let react = Event::TaskComplete {
        result: "{\"response\":\"r\",\"tool_calls\":[],\"done\":true}".to_string(),
    };
    match handle_event(react, true) {
        EventRoute::ToOperator { text } => assert_eq!(text, "r"),
        other => panic!("expected operator, got {:?}", other),
    }
    assert!(matches!(
        handle_event(Event::TaskComplete { result: "17".to_string() }, false),
        EventRoute::Logged
    ));
}

#[test]
fn run_mode_defaults() {
    match RunMode::default_host() {
        RunMode::Host { port, name, host } => {
            assert_eq!((port, name.as_str(), host.as_str()), (9000, "cluster_host", "localhost"));
        }
        other => panic!("{:?}", other),
    }
    match RunMode::default_doctor() {
        RunMode::Doctor { port, host_addr, name, host } => {
            assert_eq!(port, 9001);
            assert_eq!(host_addr, "localhost:9000");
            assert_eq!(name, "doctor");
            assert_eq!(host, "localhost");
        }
        other => panic!("{:?}", other),
    }
    match RunMode::default_analysis() {
        RunMode::Analysis { port, host_addr, name, host } => {
            assert_eq!(port, 9002);
            assert_eq!(host_addr, "localhost:9000");
            assert_eq!(name, "analysis");
            assert_eq!(host, "localhost");
        }
        other => panic!("{:?}", other),
    }
    assert_eq!(RunMode::default_host().role(), Role::Host);
    assert_eq!(RunMode::default_doctor().role(), Role::Client);
    assert!(RunMode::default_doctor().has_window());
    assert!(!RunMode::default_analysis().has_window());
    assert_eq!(RunMode::default_analysis().port(), 9002);
}

#[test]
fn errors_become_result_texts() {
    assert_eq!(CaptureError::NoImage.describe(), "Camera capture failed - no image analysis available");
    assert_eq!(CaptureError::Unreadable.describe(), "Image file could not be read");
    let d = CaptureError::Unreadable.decision();
    assert!(d.publishes.is_empty());
    assert_eq!(d.result, "Image file could not be read");
    assert_eq!(
        ReasoningError { message: "rate limited".to_string() }.into_result(),
        "AI analysis failed: rate limited"
    );
}
