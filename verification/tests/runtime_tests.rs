use agent_cluster::classifier::Classifier;
use agent_cluster::executor::{LoopAction, ReasoningLoop, TurnOutcome, DEFAULT_MAX_TURNS};
use agent_cluster::message::{Event, Notice, Task};
use agent_cluster::runtime::{failure_result, AgentRuntime, RuntimeAction, RuntimeInput, RuntimeState};

fn runtime(output: Option<&str>) -> AgentRuntime {
    AgentRuntime::new(output.map(|s| s.to_string()), Classifier::standard())
}

fn new_task(prompt: &str) -> RuntimeInput {
    RuntimeInput::Arrived { event: Event::NewTask { task: Task::new(1, prompt.to_string(), 0) } }
}

#[test]
fn runtime_cycle_for_a_user_query() {
    let mut rt = runtime(Some("analysis_response"));
    assert_eq!(rt.state(), RuntimeState::Idle);
    assert!(matches!(rt.handle(RuntimeInput::Wake), RuntimeAction::AwaitEvent));
    assert_eq!(rt.state(), RuntimeState::AwaitingEvent);
    match rt.handle(new_task("how is the patient?")) {
        RuntimeAction::Execute { task } => assert_eq!(task.prompt, "how is the patient?"),
        other => panic!("expected execute, got {:?}", other),
    }
    assert_eq!(rt.state(), RuntimeState::Executing);
    match rt.handle(RuntimeInput::Completed { result: "stable".to_string() }) {
        RuntimeAction::Complete { result, publish_to } => {
            assert_eq!(result, "stable");
            assert_eq!(publish_to, Some("analysis_response".to_string()));
        }
        other => panic!("expected complete, got {:?}", other),
    }
    assert_eq!(rt.state(), RuntimeState::Idle);
}

#[test]
fn agent_result_is_forwarded_not_executed() {
    let mut rt = runtime(None);
    rt.handle(RuntimeInput::Wake);
    match rt.handle(new_task("### Camera Analysis Result\nclear")) {
        RuntimeAction::Forward { text } => assert_eq!(text, "### Camera Analysis Result\nclear"),
        other => panic!("expected forward, got {:?}", other),
    }
    assert_eq!(rt.state(), RuntimeState::Idle);
}

#[test]
fn failure_becomes_a_completed_result() {
    let mut rt = runtime(None);
    rt.handle(RuntimeInput::Wake);
    rt.handle(new_task("q"));
    match rt.handle(RuntimeInput::Failed { error: "timeout".to_string() }) {
        RuntimeAction::Complete { result, publish_to } => {
            assert_eq!(result, "AI analysis failed: timeout");
            assert_eq!(publish_to, None);
        }
        other => panic!("expected complete, got {:?}", other),
    }
    assert_eq!(rt.state(), RuntimeState::Idle);
    assert_eq!(failure_result("x"), "AI analysis failed: x");
}

#[test]
fn shutdown_waits_for_the_running_task() {
    let mut rt = runtime(Some("out"));
    rt.handle(RuntimeInput::Wake);
    rt.handle(new_task("q"));
    assert!(matches!(rt.handle(RuntimeInput::Shutdown), RuntimeAction::Nothing));
    assert_eq!(rt.state(), RuntimeState::Executing);
    assert!(matches!(
        rt.handle(RuntimeInput::Completed { result: "r".to_string() }),
        RuntimeAction::Complete { .. }
    ));
    assert_eq!(rt.state(), RuntimeState::Stopped);
    assert!(matches!(rt.handle(RuntimeInput::Wake), RuntimeAction::Nothing));
    assert_eq!(rt.state(), RuntimeState::Stopped);
}

#[test]
fn shutdown_while_waiting_releases_at_once() {
    let mut rt = runtime(None);
    rt.handle(RuntimeInput::Wake);
    assert!(matches!(rt.handle(RuntimeInput::Shutdown), RuntimeAction::Release));
    assert_eq!(rt.state(), RuntimeState::Stopped);
    let mut idle = runtime(None);
    assert!(matches!(idle.handle(RuntimeInput::Shutdown), RuntimeAction::Release));
    assert!(matches!(idle.handle(new_task("q")), RuntimeAction::Nothing));
}

#[test]
fn other_events_are_noted() {
    let mut rt = runtime(None);
    rt.handle(RuntimeInput::Wake);
    let tool = Event::ToolCallRequested {
        tool_name: "camera_analysis".to_string(),
        arguments: "{}".to_string(),
    };
    assert!(matches!(
        rt.handle(RuntimeInput::Arrived { event: tool }),
        RuntimeAction::Note { event: Event::ToolCallRequested { .. } }
    ));
    assert!(matches!(
        rt.handle(RuntimeInput::Arrived { event: Event::Other { notice: Notice::TurnStarted } }),
        RuntimeAction::Note { .. }
    ));
    assert_eq!(rt.state(), RuntimeState::AwaitingEvent);
    assert!(matches!(rt.handle(RuntimeInput::Completed { result: "x".to_string() }), RuntimeAction::Nothing));
}

fn tool_call(interim: &str) -> TurnOutcome {
    TurnOutcome::ToolCall {
        tool_name: "ecg_analysis_tool".to_string(),
        arguments: "{\"query\":\"q\"}".to_string(),
        interim: interim.to_string(),
    }
}

#[test]
fn loop_ends_early_on_final_text() {
    let mut l = ReasoningLoop::new(DEFAULT_MAX_TURNS);
    assert_eq!(DEFAULT_MAX_TURNS, 10);
    assert!(l.may_ask());
    assert!(matches!(l.turn(tool_call("thinking")), LoopAction::CallTool { .. }));
    match l.turn(TurnOutcome::Final { text: "answer".to_string() }) {
        LoopAction::Finish { result } => assert_eq!(result, "answer"),
        other => panic!("expected finish, got {:?}", other),
    }
    assert!(!l.may_ask());
    match l.turn(tool_call("late")) {
        LoopAction::Finish { result } => assert_eq!(result, "answer"),
        other => panic!("expected finish, got {:?}", other),
    }
}

#[test]
fn loop_gives_best_effort_when_turns_run_out() {
    let mut l = ReasoningLoop::new(3);
    assert!(matches!(l.turn(tool_call("one")), LoopAction::CallTool { .. }));
    assert!(matches!(l.turn(tool_call("two")), LoopAction::CallTool { .. }));
    match l.turn(tool_call("three")) {
        LoopAction::Finish { result } => assert_eq!(result, "three"),
        other => panic!("expected finish, got {:?}", other),
    }
    assert!(!l.may_ask());
}

#[test]
fn loop_without_turns_finishes_at_once() {
    let mut l = ReasoningLoop::new(0);
    assert!(!l.may_ask());
    match l.turn(TurnOutcome::Final { text: "ignored".to_string() }) {
        LoopAction::Finish { result } => assert_eq!(result, ""),
        other => panic!("expected finish, got {:?}", other),
    }
}

#[test]
fn loop_turns_a_failure_into_a_result() {
    let mut l = ReasoningLoop::new(5);
    match l.turn(TurnOutcome::Failed { error: "no route".to_string() }) {
        LoopAction::Finish { result } => assert_eq!(result, "AI analysis failed: no route"),
        other => panic!("expected finish, got {:?}", other),
    }
}
