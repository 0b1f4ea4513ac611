//! Why a command fails, and the replies the bot sends.

use vstd::prelude::*;

use crate::callsign::{callsign_display, Callsign};
use crate::text::{format_i64, signed_decimal};

verus! {

/// Why a command could not be carried out.
#[derive(Clone, Debug)]
pub enum BotError {
    /// The sender asked for a callsign that is not theirs.
    CallsignNotPermitted { sender: String, callsign: Callsign },
    /// The sender is configured but has no callsign.
    NoConfiguredCallsigns { sender: String },
    /// The sender is not a configured user.
    NotConfiguredUser { sender: String },
    /// A page was requested without any recipient.
    NoRecipients,
    /// DAPNET knows no rubric of this name.
    RubricNotFound { rubric: String },
    /// The sender owns no DAPNET account that owns the rubric.
    RubricNotPermitted { sender: String, rubric: String },
    /// A news item number outside 1 to 10 was asked for.
    InvalidNewsNumber { number: i8 },
    /// DAPNET returned no statistics.
    StatisticsUnavailable,
    /// DAPNET returned no rubric list.
    RubricsUnavailable,
    /// DAPNET returned no transmitter group list.
    TransmitterGroupsUnavailable,
}

/// A `BotError` with its texts as sequences of characters.
pub enum BotErrorView {
    CallsignNotPermitted { sender: Seq<char>, callsign: Seq<char> },
    NoConfiguredCallsigns { sender: Seq<char> },
    NotConfiguredUser { sender: Seq<char> },
    NoRecipients,
    RubricNotFound { rubric: Seq<char> },
    RubricNotPermitted { sender: Seq<char>, rubric: Seq<char> },
    InvalidNewsNumber { number: int },
    StatisticsUnavailable,
    RubricsUnavailable,
    TransmitterGroupsUnavailable,
}

impl View for BotError {
    type V = BotErrorView;

    open spec fn view(&self) -> BotErrorView {
        match self {
            BotError::CallsignNotPermitted { sender, callsign } => BotErrorView::CallsignNotPermitted {
                sender: sender@,
                callsign: callsign@,
            },
            BotError::NoConfiguredCallsigns { sender } => BotErrorView::NoConfiguredCallsigns {
                sender: sender@,
            },
            BotError::NotConfiguredUser { sender } => BotErrorView::NotConfiguredUser {
                sender: sender@,
            },
            BotError::NoRecipients => BotErrorView::NoRecipients,
            BotError::RubricNotFound { rubric } => BotErrorView::RubricNotFound { rubric: rubric@ },
            BotError::RubricNotPermitted { sender, rubric } => BotErrorView::RubricNotPermitted {
                sender: sender@,
                rubric: rubric@,
            },
            BotError::InvalidNewsNumber { number } => BotErrorView::InvalidNewsNumber {
                number: *number as int,
            },
            BotError::StatisticsUnavailable => BotErrorView::StatisticsUnavailable,
            BotError::RubricsUnavailable => BotErrorView::RubricsUnavailable,
            BotError::TransmitterGroupsUnavailable => BotErrorView::TransmitterGroupsUnavailable,
        }
    }
}

/// The text that explains an error to the sender.
pub open spec fn error_text(e: BotErrorView) -> Seq<char> {
    match e {
        BotErrorView::CallsignNotPermitted { sender, callsign } => sender
            + " is not permitted to use callsign "@ + callsign_display(callsign),
        BotErrorView::NoConfiguredCallsigns { sender } => sender + " has no configured callsigns"@,
        BotErrorView::NotConfiguredUser { sender } => sender + " is not a configured user"@,
        BotErrorView::NoRecipients => "At least one recipient must be specified"@,
        BotErrorView::RubricNotFound { rubric } => "Could not find rubric with name \""@ + rubric
            + "\""@,
        BotErrorView::RubricNotPermitted { sender, rubric } => "User "@ + sender
            + " is not permitted to send to rubric "@ + rubric,
        BotErrorView::InvalidNewsNumber { number } => "News item number "@ + signed_decimal(number)
            + " is out of range (1-10)"@,
        BotErrorView::StatisticsUnavailable => "Failed to query statistics"@,
        BotErrorView::RubricsUnavailable => "Failed to query rubrics"@,
        BotErrorView::TransmitterGroupsUnavailable => "Failed to query transmitter groups"@,
    }
}

impl BotError {
    /// The text that explains the error to the sender.
    pub fn message(&self) -> (r: String)
        ensures
            r@ == error_text(self@),
    {
        match self {
            BotError::CallsignNotPermitted { sender, callsign } => {
                let mut r = sender.clone();
                r.append(" is not permitted to use callsign ");
                r.append(callsign.to_display_string().as_str());
                r
            },
            BotError::NoConfiguredCallsigns { sender } => {
                let mut r = sender.clone();
                r.append(" has no configured callsigns");
                r
            },
            BotError::NotConfiguredUser { sender } => {
                let mut r = sender.clone();
                r.append(" is not a configured user");
                r
            },
            BotError::NoRecipients => String::from_str("At least one recipient must be specified"),
            BotError::RubricNotFound { rubric } => {
                let mut r = String::from_str("Could not find rubric with name \"");
                r.append(rubric.as_str());
                r.append("\"");
                r
            },
            BotError::RubricNotPermitted { sender, rubric } => {
                let mut r = String::from_str("User ");
                r.append(sender.as_str());
                r.append(" is not permitted to send to rubric ");
                r.append(rubric.as_str());
                r
            },
            BotError::InvalidNewsNumber { number } => {
                let mut r = String::from_str("News item number ");
                r.append(format_i64(*number as i64).as_str());
                r.append(" is out of range (1-10)");
                r
            },
            BotError::StatisticsUnavailable => String::from_str("Failed to query statistics"),
            BotError::RubricsUnavailable => String::from_str("Failed to query rubrics"),
            BotError::TransmitterGroupsUnavailable => String::from_str(
                "Failed to query transmitter groups",
            ),
        }
    }
}

/// A message the bot posts back to the room: Markdown or plain text.
#[derive(Clone, Debug)]
pub enum Reply {
    Markdown(String),
    Plain(String),
}

impl Reply {
    /// Whether the reply is to be rendered as Markdown.
    pub open spec fn is_markdown(&self) -> bool {
        self is Markdown
    }

    /// The text of the reply.
    pub open spec fn text(&self) -> Seq<char> {
        match self {
            Reply::Markdown(t) => t@,
            Reply::Plain(t) => t@,
        }
    }

    /// Whether the reply is Markdown with text `t`.
    pub open spec fn is_markdown_text(&self, t: Seq<char>) -> bool {
        self.is_markdown() && self.text() == t
    }

    /// Whether the reply is plain text `t`.
    pub open spec fn is_plain_text(&self, t: Seq<char>) -> bool {
        !self.is_markdown() && self.text() == t
    }
}

/// The text of the reply to a command that failed with `error`.
pub open spec fn failure_reply_text(error: Seq<char>) -> Seq<char> {
    "**Sad bot is sad :c**\n```\n"@ + error + "\n```"@
}

/// The text of the reply to a command line that could not be parsed.
pub open spec fn usage_reply_text(error: Seq<char>) -> Seq<char> {
    "```\n"@ + error + "\n```"@
}

/// The Markdown reply to a command that failed with the message `error`.
pub fn failure_reply(error: &str) -> (r: Reply)
    ensures
        r.is_markdown_text(failure_reply_text(error@)),
{
    let mut t = String::from_str("**Sad bot is sad :c**\n```\n");
    t.append(error);
    t.append("\n```");
    Reply::Markdown(t)
}

/// The Markdown reply to a command line that could not be parsed, quoting
/// the parser's message `error`.
pub fn usage_reply(error: &str) -> (r: Reply)
    ensures
        r.is_markdown_text(usage_reply_text(error@)),
{
    let mut t = String::from_str("```\n");
    t.append(error);
    t.append("\n```");
    Reply::Markdown(t)
}

} // verus!
