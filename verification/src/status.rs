//! Replies that need only the configuration: who runs the bot, and whether a
//! sender may transmit.

use vstd::prelude::*;

use crate::callsign::{callsign_display, callsign_displays, display_all, Callsign};
use crate::config::{Config, User};
use crate::error::Reply;
use crate::permission::transmit_callsign;
use crate::text::{join, join_strings, starts_with};

verus! {

/// One line of the operator list: the operator's Matrix IDs and callsigns.
pub open spec fn operator_line(u: User) -> Seq<char> {
    "- "@ + join(u.matrix_ids.deep_view(), ","@) + " ("@ + join(
        callsign_displays(u.callsigns.deep_view()),
        ","@,
    ) + ")"@
}

/// The text listing the operators of the bot, one line each.
pub open spec fn operators_text(operators: Seq<User>) -> Seq<char> {
    "This bot is managed by:\n"@ + join(operators.map_values(|u: User| operator_line(u)), "\n"@)
}

fn format_operator(u: &User) -> (r: String)
    ensures
        r@ == operator_line(*u),
{
    let mut r = String::from_str("- ");
    r.append(join_strings(&u.matrix_ids, ",").as_str());
    r.append(" (");
    r.append(join_strings(&display_all(&u.callsigns), ",").as_str());
    r.append(")");
    r
}

/// The Markdown reply naming the operators of the bot.
pub fn operators_reply(config: &Config) -> (r: Reply)
    ensures
        r.is_markdown_text(operators_text(config.operators@)),
{
    let ops = &config.operators;
    let ghost lines = ops@.map_values(|u: User| operator_line(u));
    let n = ops.len();
    let mut formatted: Vec<String> = Vec::new();
    let mut i: usize = 0;
    while i < n
        invariant
            n == ops@.len(),
            lines == ops@.map_values(|u: User| operator_line(u)),
            i <= n,
            formatted.deep_view() =~= lines.take(i as int),
        decreases n - i,
    {
        let ghost before = formatted.deep_view();
        let line = format_operator(&ops[i]);
        formatted.push(line);
        assert(formatted.deep_view() =~= before.push(lines[i as int]));
        i = i + 1;
        assert(formatted.deep_view() =~= lines.take(i as int));
    }
    assert(lines.take(n as int) =~= lines);
    let mut t = String::from_str("This bot is managed by:\n");
    t.append(join_strings(&formatted, "\n").as_str());
    Reply::Markdown(t)
}

/// The text telling a sender the callsigns of the user record they matched.
pub open spec fn tx_allowed_text(sender: Seq<char>, user: User) -> Seq<char> {
    "Congrats "@ + sender + ", you are configured to transmit using the following callsigns: "@
        + join(callsign_displays(user.callsigns.deep_view()), ", "@)
}

/// The text telling a sender they may not transmit with `callsign`.
pub open spec fn tx_refused_text(sender: Seq<char>, callsign: Seq<char>) -> Seq<char> {
    "Sorry "@ + sender + ", you are not configured to transmit with callsign "@ + callsign_display(
        callsign,
    ) + "."@
}

/// The text telling a sender the bot does not know them.
pub open spec fn tx_unknown_text(sender: Seq<char>) -> Seq<char> {
    "Sorry "@ + sender
        + ", I'm afraid I do not know you, if you hold an ameatur radio license speak to an operator of this bot to be allowed to transmit."@
}

/// The text telling a configured sender that they have no callsign to transmit with.
pub open spec fn tx_no_callsign_text(sender: Seq<char>) -> Seq<char> {
    "Sorry "@ + sender + ", you have no callsigns configured to transmit with."@
}

/// The answer to "may I transmit?": with a callsign, whether a configured user
/// with the sender's Matrix ID holds it; without one, whether the first
/// configured user with the sender's Matrix ID has a callsign (the first of
/// which would be used). A positive answer lists the matched user's callsigns.
pub open spec fn tx_check_text(config: Config, sender: Seq<char>, callsign: Option<Seq<char>>) -> Seq<
    char,
> {
    match callsign {
        Some(c) => match config.transmitter_index(sender, c) {
            Some(i) => tx_allowed_text(sender, config.users@[i]),
            None => tx_refused_text(sender, c),
        },
        None => match config.user_index(sender) {
            Some(i) => if config.users@[i].callsigns@.len() > 0 {
                tx_allowed_text(sender, config.users@[i])
            } else {
                tx_no_callsign_text(sender)
            },
            None => tx_unknown_text(sender),
        },
    }
}

fn tx_allowed_message(sender: &String, user: &User) -> (r: String)
    ensures
        r@ == tx_allowed_text(sender@, *user),
{
    let mut t = String::from_str("Congrats ");
    t.append(sender.as_str());
    t.append(", you are configured to transmit using the following callsigns: ");
    t.append(join_strings(&display_all(&user.callsigns), ", ").as_str());
    t
}

/// The Markdown reply telling `sender` whether they may transmit, with
/// `callsign` when one is given.
pub fn tx_check_reply(sender: &String, config: &Config, callsign: &Option<Callsign>) -> (r: Reply)
    ensures
        r.is_markdown_text(tx_check_text(*config, sender@, callsign.deep_view())),
{
    let t = match callsign {
        Some(c) => match config.check_user_can_transmit(sender, c) {
            Some(user) => tx_allowed_message(sender, user),
            None => {
                let mut t = String::from_str("Sorry ");
                t.append(sender.as_str());
                t.append(", you are not configured to transmit with callsign ");
                t.append(c.to_display_string().as_str());
                t.append(".");
                t
            },
        },
        None => match config.get_user(sender) {
            Some(user) => if user.callsigns.len() > 0 {
                tx_allowed_message(sender, user)
            } else {
                let mut t = String::from_str("Sorry ");
                t.append(sender.as_str());
                t.append(", you have no callsigns configured to transmit with.");
                t
            },
            None => {
                let mut t = String::from_str("Sorry ");
                t.append(sender.as_str());
                t.append(
                    ", I'm afraid I do not know you, if you hold an ameatur radio license speak to an operator of this bot to be allowed to transmit.",
                );
                t
            },
        },
    };
    Reply::Markdown(t)
}

/// Whether the answer to "may I transmit?" is yes.
pub open spec fn tx_check_approves(config: Config, sender: Seq<char>, callsign: Option<Seq<char>>) -> bool {
    starts_with(tx_check_text(config, sender, callsign), "Congrats "@)
}

proof fn lemma_answer_openings(sender: Seq<char>, rest: Seq<char>, user: User)
    ensures
        starts_with(tx_allowed_text(sender, user), "Congrats "@),
        !starts_with("Sorry "@ + rest, "Congrats "@),
{
    reveal_strlit("Congrats ");
    reveal_strlit("Sorry ");
    let allowed = tx_allowed_text(sender, user);
    assert(allowed.subrange(0, 9) =~= "Congrats "@);
    let refused = "Sorry "@ + rest;
    assert(refused[0] == 'S');
    if starts_with(refused, "Congrats "@) {
        assert(refused.subrange(0, 9)[0] == "Congrats "@[0]);
    }
}

/// Asked about a callsign, the bot says yes exactly when it would let the
/// sender page or publish with that callsign.
pub proof fn lemma_tx_check_agrees_with_permission(config: Config, sender: Seq<char>, callsign: Seq<char>)
    ensures
        tx_check_approves(config, sender, Some(callsign)) <==> transmit_callsign(
            config,
            sender,
            Some(callsign),
        ) is Ok,
{
    match config.transmitter_index(sender, callsign) {
        Some(i) => {
            lemma_answer_openings(sender, Seq::empty(), config.users@[i]);
        },
        None => {
            let rest = sender + ", you are not configured to transmit with callsign "@
                + callsign_display(callsign) + "."@;
            lemma_answer_openings(sender, rest, config.users@[0]);
            assert(tx_refused_text(sender, callsign) =~= "Sorry "@ + rest);
        },
    }
}

/// Asked without a callsign, the bot says yes exactly when it would let the
/// sender page or publish with their default callsign.
pub proof fn lemma_tx_check_without_callsign(config: Config, sender: Seq<char>)
    ensures
        tx_check_approves(config, sender, None) <==> transmit_callsign(config, sender, None) is Ok,
{
    match config.user_index(sender) {
        Some(i) => {
            if config.users@[i].callsigns@.len() > 0 {
                lemma_answer_openings(sender, Seq::empty(), config.users@[i]);
            } else {
                let rest = sender + ", you have no callsigns configured to transmit with."@;
                lemma_answer_openings(sender, rest, config.users@[i]);
                assert(tx_no_callsign_text(sender) =~= "Sorry "@ + rest);
            }
        },
        None => {
            let rest = sender
                + ", I'm afraid I do not know you, if you hold an ameatur radio license speak to an operator of this bot to be allowed to transmit."@;
            lemma_answer_openings(sender, rest, config.users@[0]);
            assert(tx_unknown_text(sender) =~= "Sorry "@ + rest);
        },
    }
}

} // verus!
