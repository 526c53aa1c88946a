//! The chat window's state and how it changes with each message. Drawing it and
//! moving texts over channels is left to the program around it.

use crate::bridge::{send_command, send_command_text};
use crate::text::{is_blank, is_blank_text};
use vstd::prelude::*;
use vstd::string::*;

verus! {

/// What the window reacts to.
#[derive(Debug, Clone)]
pub enum Message {
    /// The input field now holds this text.
    InputChanged(String),
    /// The operator pressed send.
    SendMessage,
    /// The doctor agent answered.
    ReceivedDoctorResponse(String),
    /// It is time to look for answers.
    Tick,
}

/// One line of the conversation.
#[derive(Debug, Clone)]
pub struct ChatMessage {
    pub content: String,
    /// Whether the operator wrote it; otherwise an agent did.
    pub is_user: bool,
}

/// One line of the conversation as plain values.
pub struct ChatLine {
    pub content: Seq<char>,
    pub is_user: bool,
}

impl View for ChatMessage {
    type V = ChatLine;

    open spec fn view(&self) -> ChatLine {
        ChatLine { content: self.content@, is_user: self.is_user }
    }
}

/// What the program around the window is to do after an update.
#[derive(Debug, Clone)]
pub enum Command {
    /// Nothing.
    Idle,
    /// Hand `command` to the doctor agent, then look for answers at once.
    Send { command: String },
    /// Take every answer that waits, hand each to the window as
    /// `ReceivedDoctorResponse`, and tick again after `after_secs` seconds.
    Poll { after_secs: u64 },
}

/// A command as plain values.
pub enum CommandView {
    Idle,
    Send { command: Seq<char> },
    Poll { after_secs: u64 },
}

impl View for Command {
    type V = CommandView;

    open spec fn view(&self) -> CommandView {
        match self {
            Command::Idle => CommandView::Idle,
            Command::Send { command } => CommandView::Send { command: command@ },
            Command::Poll { after_secs } => CommandView::Poll { after_secs: *after_secs },
        }
    }
}

/// The window: the conversation so far and what stands in the input field.
pub struct ChatApp {
    messages: Vec<ChatMessage>,
    input_value: String,
}

/// The window as plain values.
pub struct ChatState {
    pub lines: Seq<ChatLine>,
    pub input: Seq<char>,
}

/// The line with which the assistant opens the conversation.
pub open spec fn greeting() -> Seq<char> {
    "Hello! I'm your ECG analysis assistant. I can help you analyze ECG data and provide medical recommendations. How can I assist you today?"@
}

/// The window's title.
pub open spec fn window_title() -> Seq<char> {
    "LiquidOS - AI Medical Assistant"@
}

/// The lines of a conversation as plain values.
pub open spec fn lines_view(messages: Seq<ChatMessage>) -> Seq<ChatLine> {
    messages.map_values(|m: ChatMessage| m@)
}

impl ChatState {
    /// The window after the message.
    pub open spec fn update(self, message: MessageView) -> ChatState {
        match message {
            MessageView::InputChanged(value) => ChatState { input: value, ..self },
            MessageView::SendMessage => if is_blank_text(self.input) {
                self
            } else {
                ChatState {
                    lines: self.lines.push(ChatLine { content: self.input, is_user: true }),
                    input: Seq::empty(),
                }
            },
            MessageView::ReceivedDoctorResponse(text) => ChatState {
                lines: self.lines.push(ChatLine { content: text, is_user: false }),
                ..self
            },
            MessageView::Tick => self,
        }
    }

    /// What is to be done after the message.
    pub open spec fn command(self, message: MessageView) -> CommandView {
        match message {
            MessageView::InputChanged(_) => CommandView::Idle,
            MessageView::SendMessage => if is_blank_text(self.input) {
                CommandView::Idle
            } else {
                CommandView::Send { command: send_command_text(self.input) }
            },
            MessageView::ReceivedDoctorResponse(_) => CommandView::Idle,
            MessageView::Tick => CommandView::Poll { after_secs: 1 },
        }
    }
}

/// A message as plain values.
pub enum MessageView {
    InputChanged(Seq<char>),
    SendMessage,
    ReceivedDoctorResponse(Seq<char>),
    Tick,
}

impl View for Message {
    type V = MessageView;

    open spec fn view(&self) -> MessageView {
        match self {
            Message::InputChanged(value) => MessageView::InputChanged(value@),
            Message::SendMessage => MessageView::SendMessage,
            Message::ReceivedDoctorResponse(text) => MessageView::ReceivedDoctorResponse(text@),
            Message::Tick => MessageView::Tick,
        }
    }
}

impl View for ChatApp {
    type V = ChatState;

    closed spec fn view(&self) -> ChatState {
        ChatState { lines: lines_view(self.messages@), input: self.input_value@ }
    }
}

impl ChatApp {
    /// A window that shows the greeting and has an empty input field.
    pub fn new() -> (app: ChatApp)
        ensures
            app@ == (ChatState {
                lines: seq![ChatLine { content: greeting(), is_user: false }],
                input: Seq::empty(),
            }),
    {
        let mut messages: Vec<ChatMessage> = Vec::new();
        messages.push(
            ChatMessage {
                content: String::from_str(
                    "Hello! I'm your ECG analysis assistant. I can help you analyze ECG data and provide medical recommendations. How can I assist you today?",
                ),
                is_user: false,
            },
        );
        let app = ChatApp { messages, input_value: String::new() };
        assert(app@.lines =~= seq![ChatLine { content: greeting(), is_user: false }]);
        app
    }

    /// The window's title.
    pub fn title(&self) -> (t: String)
        ensures
            t@ == window_title(),
    {
        String::from_str("LiquidOS - AI Medical Assistant")
    }

    /// Takes one message in and says what is to be done next.
    pub fn update(&mut self, message: Message) -> (command: Command)
        ensures
            final(self)@ == old(self)@.update(message@),
            command@ == old(self)@.command(message@),
    {
        match message {
            Message::InputChanged(value) => {
                self.input_value = value;
                Command::Idle
            },
            Message::SendMessage => {
                if is_blank(self.input_value.as_str()) {
                    Command::Idle
                } else {
                    let content = self.input_value.clone();
                    let command = send_command(content.as_str());
                    let ghost before = self.messages@;
                    self.messages.push(ChatMessage { content, is_user: true });
                    self.input_value = String::new();
                    assert(lines_view(self.messages@) =~= lines_view(before).push(
                        ChatLine { content: old(self).input_value@, is_user: true },
                    ));
                    Command::Send { command }
                }
            },
            Message::ReceivedDoctorResponse(response) => {
                let ghost before = self.messages@;
                let ghost text = response@;
                self.messages.push(ChatMessage { content: response, is_user: false });
                assert(lines_view(self.messages@) =~= lines_view(before).push(
                    ChatLine { content: text, is_user: false },
                ));
                Command::Idle
            },
            Message::Tick => Command::Poll { after_secs: 1 },
        }
    }

    /// How many lines the conversation has.
    pub fn len(&self) -> (n: usize)
        ensures
            n == self@.lines.len(),
    {
        self.messages.len()
    }

    /// The line at `index`, oldest first; `None` past the end.
    pub fn line(&self, index: usize) -> (line: Option<&ChatMessage>)
        ensures
            match line {
                Some(m) => index < self@.lines.len() && m@ == self@.lines[index as int],
                None => index >= self@.lines.len(),
            },
    {
        if index < self.messages.len() {
            Some(&self.messages[index])
        } else {
            None
        }
    }

    /// What stands in the input field.
    pub fn input_value(&self) -> (text: &str)
        ensures
            text@ == self@.input,
    {
        self.input_value.as_str()
    }
}

} // verus!
