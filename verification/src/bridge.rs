//! The bridge to the operator's window: commands in, result texts out.

use crate::text::{has_prefix, strip_prefix};
use vstd::prelude::*;
use vstd::string::*;

verus! {

/// What opens a command that asks for its text to be published.
pub open spec fn send_prefix() -> Seq<char> {
    "SEND:"@
}

/// The topic on which the operator's messages are published.
pub open spec fn input_topic() -> Seq<char> {
    "user_messages"@
}

/// The seconds between two polls for results.
pub const POLL_INTERVAL_SECS: u64 = 1;

/// The command that asks for `text` to be published.
pub open spec fn send_command_text(text: Seq<char>) -> Seq<char> {
    send_prefix() + text
}

/// The text that a command asks to publish; `None` for anything that is no send command.
pub open spec fn command_payload(command: Seq<char>) -> Option<Seq<char>> {
    if has_prefix(command, send_prefix()) {
        Some(command.skip(send_prefix().len() as int))
    } else {
        None
    }
}

/// The command that asks for `text` to be published.
pub fn send_command(text: &str) -> (command: String)
    ensures
        command@ == send_command_text(text@),
{
    let mut command = String::from_str("SEND:");
    command.append(text);
    command
}

/// Reads a command from the window: the text to publish on the input topic, or `None`
/// where the command is no send command and is to be skipped.
pub fn parse_user_command(command: &str) -> (text: Option<String>)
    ensures
        match text {
            Some(t) => command_payload(command@) == Some(t@),
            None => command_payload(command@) is None,
        },
{
    strip_prefix(command, "SEND:")
}

/// The topic on which the operator's messages are published.
pub fn user_messages_topic() -> (topic: String)
    ensures
        topic@ == input_topic(),
{
    String::from_str("user_messages")
}

/// Every text comes back out of the command made for it.
pub proof fn law_command_round_trip(text: Seq<char>)
    ensures
        command_payload(send_command_text(text)) == Some(text),
{
    let command = send_prefix() + text;
    assert(command.subrange(0, send_prefix().len() as int) =~= send_prefix());
    assert(command.skip(send_prefix().len() as int) =~= text);
}

} // verus!
