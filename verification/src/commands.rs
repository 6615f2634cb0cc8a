//! The command surface that the chat transport exposes: each inbound
//! text is either one of the slash commands — plain, or addressed to the
//! bot by its handle — or an ordinary turn.
use crate::text::str_eq;
use vstd::prelude::*;
use vstd::string::StringExecFns;

verus! {

/// What an inbound text asks for.
#[derive(Clone, Copy, Debug, PartialEq, Eq, Structural)]
pub enum Command {
    /// Begin a conversation in this chat.
    Begin,
    /// End this chat's conversation.
    End,
    /// Open the settings dialog.
    Settings,
    /// Clear the conversation history.
    Reset,
    /// No command: an ordinary conversation turn.
    Plain,
}

/// Whether `text` is the command `word`, bare or addressed to the bot
/// as `word@handle`.
pub open spec fn spec_is_command(text: Seq<char>, word: Seq<char>, handle: Seq<char>) -> bool {
    text == word || text == word + "@"@ + handle
}

fn is_command(text: &str, word: &str, handle: &str) -> (r: bool)
    ensures
        r == spec_is_command(text@, word@, handle@),
{
    if str_eq(text, word) {
        return true;
    }
    let mut full = word.to_owned();
    full.append("@");
    full.append(handle);
    str_eq(text, full.as_str())
}

/// The command that an inbound text stands for.
pub open spec fn spec_parse_command(text: Seq<char>, handle: Seq<char>) -> Command {
    if spec_is_command(text, "/begin"@, handle) {
        Command::Begin
    } else if spec_is_command(text, "/end"@, handle) {
        Command::End
    } else if spec_is_command(text, "/settings"@, handle) {
        Command::Settings
    } else if spec_is_command(text, "/reset"@, handle) {
        Command::Reset
    } else {
        Command::Plain
    }
}

/// Decodes an inbound text into the command it stands for; `handle` is
/// the bot's own name, so commands addressed to it are recognized too.
pub fn parse_command(text: &str, handle: &str) -> (r: Command)
    ensures
        r == spec_parse_command(text@, handle@),
{
    if is_command(text, "/begin", handle) {
        Command::Begin
    } else if is_command(text, "/end", handle) {
        Command::End
    } else if is_command(text, "/settings", handle) {
        Command::Settings
    } else if is_command(text, "/reset", handle) {
        Command::Reset
    } else {
        Command::Plain
    }
}

} // verus!
