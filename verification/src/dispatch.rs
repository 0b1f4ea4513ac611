//! Which room messages are commands, and how commands are counted.

use vstd::prelude::*;

use crate::text::{split_on, split_string, starts_with, str_starts_with};

verus! {

/// Whether a message is a command for the bot: someone else sent it and it
/// begins with `!dapnet`.
pub open spec fn is_command(sender: Seq<char>, me: Seq<char>, body: Seq<char>) -> bool {
    sender != me && starts_with(body, "!dapnet"@)
}

/// The words of a command message, cut at each space, for the command-line
/// parser; `None` when the message is not a command for the bot.
pub fn command_words(sender: &String, me: &String, body: &str) -> (r: Option<Vec<String>>)
    ensures
        is_command(sender@, me@, body@) ==> (r matches Some(w) && w.deep_view() == split_on(
            body@,
            ' ',
        )),
        !is_command(sender@, me@, body@) ==> r is None,
{
    if *sender != *me && str_starts_with(body, "!dapnet") {
        Some(split_string(body, ' '))
    } else {
        None
    }
}

/// The bot's top-level commands.
#[derive(Clone, Copy, Debug, PartialEq, Eq)]
pub enum Command {
    BotOperators,
    TxCheck,
    List,
    Get,
    Stats,
    Send,
    SendNews,
}

/// The kinds of command that are counted in the metrics.
#[derive(Clone, Copy, Debug, PartialEq, Eq)]
pub enum CommandKind {
    List,
    Get,
    Stats,
    Send,
    SendNews,
}

/// The metric kind a command is counted under; the two that only read the
/// configuration are not counted.
pub open spec fn spec_command_kind(c: Command) -> Option<CommandKind> {
    match c {
        Command::BotOperators => None,
        Command::TxCheck => None,
        Command::List => Some(CommandKind::List),
        Command::Get => Some(CommandKind::Get),
        Command::Stats => Some(CommandKind::Stats),
        Command::Send => Some(CommandKind::Send),
        Command::SendNews => Some(CommandKind::SendNews),
    }
}

/// The metric kind a command is counted under, if it is counted.
pub fn command_kind(c: Command) -> (r: Option<CommandKind>)
    ensures
        r == spec_command_kind(c),
{
    match c {
        Command::BotOperators => None,
        Command::TxCheck => None,
        Command::List => Some(CommandKind::List),
        Command::Get => Some(CommandKind::Get),
        Command::Stats => Some(CommandKind::Stats),
        Command::Send => Some(CommandKind::Send),
        Command::SendNews => Some(CommandKind::SendNews),
    }
}

/// The labels a command request is counted under: who sent it and its kind.
#[derive(Clone, Debug)]
pub struct CommandLables {
    pub sender: String,
    pub kind: CommandKind,
}

impl CommandLables {
    /// The labels for a request of kind `kind` from `sender`.
    pub fn new(sender: &String, kind: CommandKind) -> (r: Self)
        ensures
            r.sender@ == sender@,
            r.kind == kind,
    {
        CommandLables { sender: sender.clone(), kind }
    }
}

} // verus!
