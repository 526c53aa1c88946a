use agent_cluster::bridge::{parse_user_command, send_command, user_messages_topic, POLL_INTERVAL_SECS};
use agent_cluster::gui::{ChatApp, Command, Message};

fn lines(app: &ChatApp) -> Vec<(String, bool)> {
    let mut out = Vec::new();
    let mut i = 0;
    while let Some(m) = app.line(i) {
        out.push((m.content.clone(), m.is_user));
        i += 1;
    }
    assert_eq!(i, app.len());
    out
}

#[test]
fn window_opens_with_the_greeting() {
    let app = ChatApp::new();
    assert_eq!(app.title(), "LiquidOS - AI Medical Assistant");
    assert_eq!(app.input_value(), "");
    assert_eq!(
        lines(&app),
        vec![(
            "Hello! I'm your ECG analysis assistant. I can help you analyze ECG data and provide medical recommendations. How can I assist you today?".to_string(),
            false
        )]
    );
}

#[test]
fn typing_changes_only_the_input() {
    let mut app = ChatApp::new();
    let c = app.update(Message::InputChanged("hel".to_string()));
    assert!(matches!(c, Command::Idle));
    assert_eq!(app.input_value(), "hel");
    assert_eq!(app.len(), 1);
}

#[test]
fn send_adds_the_line_and_clears_the_input() {
    let mut app = ChatApp::new();
    app.update(Message::InputChanged("  is the rhythm normal? ".to_string()));
    let c = app.update(Message::SendMessage);
    match c {
        Command::Send { command } => assert_eq!(command, "SEND:  is the rhythm normal? "),
        other => panic!("expected a send, got {:?}", other),
    }
    assert_eq!(app.input_value(), "");
    assert_eq!(lines(&app)[1], ("  is the rhythm normal? ".to_string(), true));
}

#[test]
fn blank_input_is_not_sent() {
    for blank in ["", "   ", "\t\n", "\u{3000}"] {
        let mut app = ChatApp::new();
        app.update(Message::InputChanged(blank.to_string()));
        let c = app.update(Message::SendMessage);
        assert!(matches!(c, Command::Idle));
        assert_eq!(app.input_value(), blank);
        assert_eq!(app.len(), 1);
    }
}

#[test]
fn response_is_shown_as_an_agent_line() {
    let mut app = ChatApp::new();
    app.update(Message::InputChanged("draft".to_string()));
    let c = app.update(Message::ReceivedDoctorResponse("All good.".to_string()));
    assert!(matches!(c, Command::Idle));
    assert_eq!(lines(&app)[1], ("All good.".to_string(), false));
    assert_eq!(app.input_value(), "draft");
}

#[test]
fn tick_asks_for_a_poll_and_changes_nothing() {
    let mut app = ChatApp::new();
    let c = app.update(Message::Tick);
    match c {
        Command::Poll { after_secs } => {
            assert_eq!(after_secs, 1);
            assert_eq!(after_secs, POLL_INTERVAL_SECS);
        }
        other => panic!("expected a poll, got {:?}", other),
    }
    assert_eq!(app.len(), 1);
}

#[test]
fn command_round_trip() {
    for text in ["", "hello", "SEND:nested", "ünïcode ✓", " spaced "] {
        assert_eq!(parse_user_command(&send_command(text)), Some(text.to_string()));
    }
}

#[test]
fn other_commands_are_skipped() {
    assert_eq!(parse_user_command("hello"), None);
    assert_eq!(parse_user_command("send:lower"), None);
    assert_eq!(parse_user_command(" SEND:x"), None);
    assert_eq!(parse_user_command("SEND"), None);
    assert_eq!(parse_user_command("SEND:"), Some(String::new()));
}

#[test]
fn operator_messages_go_to_user_messages() {
    assert_eq!(user_messages_topic(), "user_messages");
}
