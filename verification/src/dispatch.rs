//! Routing of incoming events: slash-command invocations by name, and
//! emoji reactions toward the attachment relay.
//!
//! The dispatcher holds no state.  The event loop asks it where an event
//! goes and which follow-up text to send once a flow has run.

use vstd::prelude::*;
use vstd::string::StringExecFns;

verus! {

/// Where a slash-command invocation is routed.
#[derive(Clone, Copy, Debug, PartialEq, Eq, Structural)]
pub enum CommandRoute {
    /// The registered selection command: run the selection flow.
    Select,
    /// Any other command name: answer with the not-implemented reply.
    NotImplemented,
}

/// The route of a command name: exactly the registered name reaches the
/// selection flow.
pub open spec fn spec_route_command(name: Seq<char>) -> CommandRoute {
    if name == "select"@ {
        CommandRoute::Select
    } else {
        CommandRoute::NotImplemented
    }
}

/// Routes a command invocation by its name.
pub fn route_command(name: &String) -> (r: CommandRoute)
    ensures
        r == spec_route_command(name@),
{
    let sel = String::from_str("select");
    if *name == sel {
        CommandRoute::Select
    } else {
        CommandRoute::NotImplemented
    }
}

/// The follow-up sent when the selection flow has run: a fixed
/// acknowledgment on success, the error's text after a fixed heading on
/// failure.
pub open spec fn spec_command_ack(succeeded: bool, error_text: Seq<char>) -> Seq<char> {
    if succeeded {
        "Select command executed successfully."@
    } else {
        "Error executing select command: "@ + error_text
    }
}

/// Builds the follow-up message for a finished selection flow.
pub fn command_ack(succeeded: bool, error_text: &String) -> (r: String)
    ensures
        r@ == spec_command_ack(succeeded, error_text@),
{
    if succeeded {
        String::from_str("Select command executed successfully.")
    } else {
        let mut s = String::from_str("Error executing select command: ");
        s.append(error_text.as_str());
        s
    }
}

/// The reply to a command name that is not implemented.
pub fn not_implemented_text() -> (r: String)
    ensures
        r@ == "Command not implemented yet."@,
{
    String::from_str("Command not implemented yet.")
}

/// The one emoji that triggers the attachment relay: the paperclip.
pub open spec fn relay_emoji_spec() -> Seq<char> {
    "\u{1F4CE}"@
}

/// The relay-triggering emoji, as sent by the platform.
pub fn relay_emoji() -> (r: String)
    ensures
        r@ == relay_emoji_spec(),
{
    String::from_str("\u{1F4CE}")
}

/// Where a reaction event is routed.
#[derive(Clone, Copy, Debug, PartialEq, Eq, Structural)]
pub enum ReactionRoute {
    /// The relay emoji: fetch the message's attachments and reply.
    Relay,
    /// Any other emoji: log and ignore.
    Ignore,
}

/// The route of a reaction: exactly the relay emoji reaches the relay.
pub open spec fn spec_route_reaction(emoji: Seq<char>) -> ReactionRoute {
    if emoji == relay_emoji_spec() {
        ReactionRoute::Relay
    } else {
        ReactionRoute::Ignore
    }
}

/// Routes a reaction event by its emoji.
pub fn route_reaction(emoji: &String) -> (r: ReactionRoute)
    ensures
        r == spec_route_reaction(emoji@),
{
    let relay = relay_emoji();
    if *emoji == relay {
        ReactionRoute::Relay
    } else {
        ReactionRoute::Ignore
    }
}

/// Law: a reaction whose emoji is not the relay emoji is always routed
/// to the ignore path, never to the relay.
pub proof fn lemma_unrecognized_emoji_ignored(emoji: Seq<char>)
    requires
        emoji != relay_emoji_spec(),
    ensures
        spec_route_reaction(emoji) == ReactionRoute::Ignore,
{
}

} // verus!
