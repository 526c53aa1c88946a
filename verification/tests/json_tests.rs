use agent_cluster::json::{completion_reply, reply_to_outcome};

#[test]
fn react_output_response_is_shown() {
    let outcome = r#"{"response":"Sinus rhythm, no action needed.","tool_calls":[],"done":true}"#;
    assert_eq!(
        reply_to_outcome(outcome, false),
        Some("Sinus rhythm, no action needed.".to_string())
    );
}

#[test]
fn react_output_is_shown_for_the_analysis_agent_too() {
    let outcome = r#"{"response":"done","tool_calls":[],"done":true}"#;
    assert_eq!(reply_to_outcome(outcome, true), Some("done".to_string()));
}

#[test]
fn react_output_with_tool_calls_is_read() {
    let outcome = r#"{"response":"asked the camera","tool_calls":[{"tool_name":"camera_analysis","success":true,"arguments":{"query":"look"},"result":"Camera analysis request submitted: look"}],"done":true}"#;
    assert_eq!(reply_to_outcome(outcome, false), Some("asked the camera".to_string()));
}

#[test]
fn plain_string_is_shown_unless_analysis_agent() {
    let outcome = r#""Self-test completed successfully""#;
    assert_eq!(
        reply_to_outcome(outcome, false),
        Some("Self-test completed successfully".to_string())
    );
    assert_eq!(reply_to_outcome(outcome, true), None);
}

#[test]
fn json_escapes_are_decoded() {
    let outcome = r#""line one\nline \"two\" é""#;
    let reply = reply_to_outcome(outcome, false);
    assert_eq!(reply, Some("line one\nline \"two\" é".to_string()));
    assert_ne!(reply, Some(outcome.to_string()));
}

#[test]
fn other_json_is_not_shown() {
    for outcome in ["42", "null", "[\"a\"]", "{\"response\":\"x\"}", "{\"other\":1}", "not json", ""] {
        assert_eq!(reply_to_outcome(outcome, false), None, "{}", outcome);
        assert_eq!(reply_to_outcome(outcome, true), None, "{}", outcome);
    }
}

#[test]
fn completion_reply_prefers_the_react_reading() {
    assert_eq!(
        completion_reply(Some("a".to_string()), Some("b".to_string()), false),
        Some("a".to_string())
    );
    assert_eq!(completion_reply(Some("a".to_string()), None, true), Some("a".to_string()));
    assert_eq!(completion_reply(None, Some("b".to_string()), false), Some("b".to_string()));
    assert_eq!(completion_reply(None, Some("b".to_string()), true), None);
    assert_eq!(completion_reply(None, None, false), None);
}
