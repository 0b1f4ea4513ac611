//! Pages to callsigns and news to rubrics: what is sent, and when it may be.

use vstd::prelude::*;

use crate::callsign::{callsign_display, Callsign};
use crate::config::Config;
use crate::error::{BotError, BotErrorView, Reply};
use crate::lookup::RubricInfo;
use crate::permission::{
    check_user_can_send_to_rubric, get_transmit_callsign, is_licensed, lemma_granted_callsign_is_licensed,
    owns_rubric, transmit_callsign,
};
use crate::text::{
    copy_strings, format_i64, join, join_strings, lemma_join_layout, signed_decimal, word_offset,
};

verus! {

/// A page ready to hand to DAPNET.
#[derive(Clone, Debug)]
pub struct PageRequest {
    /// The text that pagers show.
    pub text: String,
    /// The recipients' callsigns, in lowercase.
    pub recipients: Vec<String>,
    /// The transmitter groups that broadcast the page.
    pub transmitter_groups: Vec<String>,
    /// Whether the page goes out with high priority.
    pub emergency: bool,
}

/// A news item ready to hand to DAPNET.
#[derive(Clone, Debug)]
pub struct NewsRequest {
    /// The rubric that the item is published to.
    pub rubric: String,
    /// The text of the item.
    pub text: String,
    /// The item's slot in the rubric (1 to 10 on Skyper pagers).
    pub number: i8,
}

/// The text that goes out: the transmitting callsign as displayed, a colon,
/// and the words of the message separated by single spaces.
pub open spec fn signed_text(callsign: Seq<char>, words: Seq<Seq<char>>) -> Seq<char> {
    callsign_display(callsign) + ": "@ + join(words, " "@)
}

/// The sent text is the displayed callsign, `": "`, then every word of the
/// message in full and in order with one space between neighbours: with `n`
/// words its length is the callsign's plus 2 plus the words' lengths plus
/// `n - 1`, word `i` stands at `word_offset(i)` after the `": "`, a space
/// follows each word but the last, and the text ends with the last word.
pub proof fn lemma_signed_text_layout(callsign: Seq<char>, words: Seq<Seq<char>>)
    ensures
        ({
            let t = signed_text(callsign, words);
            let d = callsign_display(callsign);
            &&& t.subrange(0, d.len() as int) == d
            &&& t.subrange(d.len() as int, d.len() + 2int) == seq![':', ' ']
            &&& words.len() == 0 ==> t.len() == d.len() + 2
            &&& words.len() > 0 ==> t.len() == d.len() + 2 + word_offset(words, 1, words.len() - 1)
                + words.last().len()
            &&& words.len() > 0 ==> t.subrange(t.len() - words.last().len(), t.len() as int)
                == words.last()
            &&& forall|i: int|
                0 <= i < words.len() ==> t.subrange(
                    d.len() + 2 + #[trigger] word_offset(words, 1, i),
                    d.len() + 2 + word_offset(words, 1, i) + words[i].len(),
                ) == words[i]
            &&& forall|i: int|
                0 <= i < words.len() - 1 ==> t[d.len() + 2 + #[trigger] word_offset(words, 1, i)
                    + words[i].len()] == ' '
        }),
{
    reveal_strlit(": ");
    reveal_strlit(" ");
    let t = signed_text(callsign, words);
    let d = callsign_display(callsign);
    let j = join(words, " "@);
    let h = d + ": "@;
    assert(t == h + j);
    assert(": "@ =~= seq![':', ' ']);
    assert(t.subrange(0, d.len() as int) =~= d);
    assert(t.subrange(d.len() as int, d.len() + 2int) =~= seq![':', ' ']);
    if words.len() == 0 {
        assert(j.len() == 0);
    } else {
        lemma_join_layout(words, " "@);
        let n = words.len() as int;
        assert(" "@.len() == 1);
        assert(j.subrange(word_offset(words, 1, n - 1), word_offset(words, 1, n - 1)
            + words[n - 1].len()) == words[n - 1]);
        assert(t.subrange(t.len() - words.last().len(), t.len() as int) =~= j.subrange(
            word_offset(words, 1, n - 1),
            word_offset(words, 1, n - 1) + words[n - 1].len(),
        ));
        assert forall|i: int| 0 <= i < words.len() implies t.subrange(
            d.len() + 2 + #[trigger] word_offset(words, 1, i),
            d.len() + 2 + word_offset(words, 1, i) + words[i].len(),
        ) == words[i] by {
            assert(j.subrange(word_offset(words, 1, i), word_offset(words, 1, i) + words[i].len())
                == words[i]);
            assert(t.subrange(
                d.len() + 2 + word_offset(words, 1, i),
                d.len() + 2 + word_offset(words, 1, i) + words[i].len(),
            ) =~= j.subrange(word_offset(words, 1, i), word_offset(words, 1, i) + words[i].len()));
        }
        assert forall|i: int| 0 <= i < words.len() - 1 implies t[d.len() + 2
            + #[trigger] word_offset(words, 1, i) + words[i].len()] == ' ' by {
            let a = word_offset(words, 1, i) + words[i].len();
            assert(j.subrange(a, word_offset(words, 1, i + 1)) == " "@);
            assert(word_offset(words, 1, i + 1) == a + 1);
            assert(j.subrange(a, a + 1)[0] == ' ');
            assert(t[d.len() + 2 + a] == j[a]);
        }
    }
}

fn signed_message(callsign: &Callsign, words: &Vec<String>) -> (r: String)
    ensures
        r@ == signed_text(callsign@, words.deep_view()),
{
    let mut r = callsign.to_display_string();
    r.append(": ");
    r.append(join_strings(words, " ").as_str());
    r
}

/// The lowercase texts of `callsigns`, in order.
pub fn lowercase_texts(callsigns: &Vec<Callsign>) -> (r: Vec<String>)
    ensures
        r.deep_view() == callsigns.deep_view(),
{
    let n = callsigns.len();
    let mut r: Vec<String> = Vec::new();
    let mut i: usize = 0;
    while i < n
        invariant
            n == callsigns.len(),
            i <= n,
            r.deep_view() =~= callsigns.deep_view().take(i as int),
        decreases n - i,
    {
        let ghost before = r.deep_view();
        let s = callsigns[i].lower().to_owned();
        r.push(s);
        assert(r.deep_view() =~= before.push(callsigns[i as int]@));
        i = i + 1;
        assert(r.deep_view() =~= callsigns.deep_view().take(i as int));
    }
    assert(callsigns.deep_view().take(n as int) =~= callsigns.deep_view());
    r
}

/// The callsign a page from `sender` to `recipient_count` recipients goes out
/// under, or why it does not go out: first the sender must be granted a
/// callsign, then there must be a recipient.
pub open spec fn page_callsign(
    config: Config,
    sender: Seq<char>,
    from: Option<Seq<char>>,
    recipient_count: nat,
) -> Result<Seq<char>, BotErrorView> {
    match transmit_callsign(config, sender, from) {
        Err(e) => Err(e),
        Ok(c) => if recipient_count == 0 {
            Err(BotErrorView::NoRecipients)
        } else {
            Ok(c)
        },
    }
}

/// A page goes out only to at least one recipient, and only under a callsign
/// that a configured user with the sender's Matrix ID holds: the one asked
/// for, when one was.
pub proof fn lemma_pages_only_under_licensed_callsigns(
    config: Config,
    sender: Seq<char>,
    from: Option<Seq<char>>,
    recipient_count: nat,
    callsign: Seq<char>,
)
    requires
        page_callsign(config, sender, from, recipient_count) == Ok::<Seq<char>, BotErrorView>(
            callsign,
        ),
    ensures
        recipient_count > 0,
        is_licensed(config, sender, callsign),
        from matches Some(f) ==> f == callsign,
{
    lemma_granted_callsign_is_licensed(config, sender, from, callsign);
}

/// News is published only with an item number from 1 to 10, only by a sender
/// who was granted a callsign and whose first configured user record owns a
/// DAPNET account among the rubric's owners; the item is signed with the
/// granted callsign.
pub proof fn lemma_news_only_from_rubric_owners(
    config: Config,
    sender: Seq<char>,
    from: Option<Seq<char>>,
    callsign: Seq<char>,
    rubric_name: Seq<char>,
    rubric: Option<RubricInfo>,
    number: int,
    words: Seq<Seq<char>>,
)
    requires
        transmit_callsign(config, sender, from) == Ok::<Seq<char>, BotErrorView>(callsign),
        news_outcome(config, sender, callsign, rubric_name, rubric, number, words) is Ok,
    ensures
        1 <= number <= 10,
        is_licensed(config, sender, callsign),
        config.user_index(sender) is Some,
        rubric is Some,
        owns_rubric(config.users@[config.user_index(sender)->0], rubric->0.owners.deep_view()),
        news_outcome(config, sender, callsign, rubric_name, rubric, number, words)->Ok_0.1 == signed_text(
            callsign,
            words,
        ),
{
    lemma_granted_callsign_is_licensed(config, sender, from, callsign);
    crate::permission::lemma_granted_sender_is_configured(config, sender, from);
}

/// Builds the page that `sender` asks for: `message` from the callsign that
/// `sender` may use (`from`, or their default one) to `recipients` via the
/// transmitter groups `via`. Fails when the sender may not transmit, then
/// when there is no recipient.
pub fn prepare_page(
    sender: &String,
    config: &Config,
    from: &Option<Callsign>,
    recipients: &Vec<Callsign>,
    via: &Vec<String>,
    emergency: bool,
    message: &Vec<String>,
) -> (r: Result<PageRequest, BotError>)
    ensures
        match page_callsign(*config, sender@, from.deep_view(), recipients@.len()) {
            Err(e) => r matches Err(x) && x@ == e,
            Ok(c) => r matches Ok(p) && {
                &&& p.text@ == signed_text(c, message.deep_view())
                &&& p.recipients.deep_view() == recipients.deep_view()
                &&& p.transmitter_groups.deep_view() == via.deep_view()
                &&& p.emergency == emergency
            },
        },
{
    let callsign = get_transmit_callsign(sender, config, from)?;
    if recipients.len() == 0 {
        return Err(BotError::NoRecipients);
    }
    Ok(
        PageRequest {
            text: signed_message(callsign, message),
            recipients: lowercase_texts(recipients),
            transmitter_groups: copy_strings(via),
            emergency,
        },
    )
}

/// The text of the reply once a page has gone out.
pub open spec fn page_sent_text(sender: Seq<char>) -> Seq<char> {
    sender + ", your message has been sent!"@
}

/// The Markdown reply once a page has gone out.
pub fn page_sent_reply(sender: &String) -> (r: Reply)
    ensures
        r.is_markdown_text(page_sent_text(sender@)),
{
    let mut t = sender.clone();
    t.append(", your message has been sent!");
    Reply::Markdown(t)
}

/// What publishing news to a looked-up rubric gives: an error when DAPNET
/// knows no such rubric, then when the sender owns it under none of their
/// DAPNET accounts, then when the item number is outside 1 to 10; else the
/// item signed with `callsign`.
pub open spec fn news_outcome(
    config: Config,
    sender: Seq<char>,
    callsign: Seq<char>,
    rubric_name: Seq<char>,
    rubric: Option<RubricInfo>,
    number: int,
    words: Seq<Seq<char>>,
) -> Result<(Seq<char>, Seq<char>), BotErrorView> {
    match rubric {
        None => Err(BotErrorView::RubricNotFound { rubric: rubric_name }),
        Some(rb) => if !owns_rubric(
            config.users@[config.user_index(sender)->0],
            rb.owners.deep_view(),
        ) {
            Err(BotErrorView::RubricNotPermitted { sender, rubric: rb.name@ })
        } else if !(1 <= number <= 10) {
            Err(BotErrorView::InvalidNewsNumber { number })
        } else {
            Ok((rb.name@, signed_text(callsign, words)))
        },
    }
}

/// Publishing news to a rubric DAPNET did not find fails with "not found".
/// To a found rubric it succeeds exactly when some DAPNET account of the
/// sender's first configured user record is one of the rubric's owners and
/// the item number lies from 1 to 10, and then it publishes to that rubric
/// the signed text.
pub proof fn lemma_news_outcome_decision(
    config: Config,
    sender: Seq<char>,
    callsign: Seq<char>,
    rubric_name: Seq<char>,
    rubric: Option<RubricInfo>,
    number: int,
    words: Seq<Seq<char>>,
)
    requires
        config.user_index(sender) is Some,
    ensures
        rubric is None ==> news_outcome(config, sender, callsign, rubric_name, rubric, number, words)
            == Err::<(Seq<char>, Seq<char>), BotErrorView>(
            BotErrorView::RubricNotFound { rubric: rubric_name },
        ),
        rubric matches Some(rb) ==> ({
            let user = config.users@[config.user_index(sender)->0];
            let outcome = news_outcome(config, sender, callsign, rubric_name, rubric, number, words);
            &&& outcome is Ok <==> ((exists|a: int, b: int|
                0 <= a < user.dapnet_usernames@.len() && 0 <= b < rb.owners@.len()
                    && #[trigger] user.dapnet_usernames@[a]@ == #[trigger] rb.owners@[b]@)
                && 1 <= number <= 10)
            &&& outcome is Ok ==> outcome->Ok_0 == (rb.name@, signed_text(callsign, words))
        }),
{
    if let Some(rb) = rubric {
        let user = config.users@[config.user_index(sender)->0];
        let names = user.dapnet_usernames.deep_view();
        let owners = rb.owners.deep_view();
        if owns_rubric(user, owners) {
            let name = choose|name: Seq<char>| names.contains(name) && owners.contains(name);
            let a = choose|a: int| 0 <= a < names.len() && names[a] == name;
            let b = choose|b: int| 0 <= b < owners.len() && owners[b] == name;
            assert(user.dapnet_usernames@[a]@ == rb.owners@[b]@);
        }
        if exists|a: int, b: int|
            0 <= a < user.dapnet_usernames@.len() && 0 <= b < rb.owners@.len()
                && #[trigger] user.dapnet_usernames@[a]@ == #[trigger] rb.owners@[b]@ {
            let (a, b) = choose|a: int, b: int|
                0 <= a < user.dapnet_usernames@.len() && 0 <= b < rb.owners@.len()
                    && #[trigger] user.dapnet_usernames@[a]@ == #[trigger] rb.owners@[b]@;
            assert(names[a] == user.dapnet_usernames@[a]@);
            assert(owners[b] == rb.owners@[b]@);
            assert(names.contains(names[a]));
            assert(owners.contains(names[a]));
        }
    }
}

/// Builds the news item that `sender` publishes with `callsign` to the rubric
/// DAPNET returned for `rubric_name` (`None` when it knows no such rubric),
/// in slot `number`, which must lie from 1 to 10; it is checked last.
/// The sender must be a configured user; a callsign granted by
/// `get_transmit_callsign` makes them one.
pub fn prepare_news(
    sender: &String,
    config: &Config,
    callsign: &Callsign,
    rubric_name: &String,
    rubric: Option<&RubricInfo>,
    number: i8,
    message: &Vec<String>,
) -> (r: Result<NewsRequest, BotError>)
    requires
        config.user_index(sender@) is Some,
    ensures
        match news_outcome(
            *config,
            sender@,
            callsign@,
            rubric_name@,
            match rubric {
                Some(rb) => Some(*rb),
                None => None,
            },
            number as int,
            message.deep_view(),
        ) {
            Err(e) => r matches Err(x) && x@ == e,
            Ok((name, text)) => r matches Ok(n) && n.rubric@ == name && n.text@ == text && n.number
                == number,
        },
{
    let rb = match rubric {
        Some(rb) => rb,
        None => {
            return Err(BotError::RubricNotFound { rubric: rubric_name.clone() });
        },
    };
    check_user_can_send_to_rubric(sender, config, rb)?;
    if number < 1 || number > 10 {
        return Err(BotError::InvalidNewsNumber { number });
    }
    Ok(NewsRequest { rubric: rb.name.clone(), text: signed_message(callsign, message), number })
}

/// The text of the reply once a news item has gone out.
pub open spec fn news_sent_text(sender: Seq<char>, rubric: Seq<char>, number: int) -> Seq<char> {
    sender + ", your news item has been sent to rubric "@ + rubric + " ("@ + signed_decimal(number)
        + ")!"@
}

/// The Markdown reply once a news item has gone out to `rubric`.
pub fn news_sent_reply(sender: &String, rubric: &RubricInfo) -> (r: Reply)
    ensures
        r.is_markdown_text(news_sent_text(sender@, rubric.name@, rubric.number as int)),
{
    let mut t = sender.clone();
    t.append(", your news item has been sent to rubric ");
    t.append(rubric.name.as_str());
    t.append(" (");
    t.append(format_i64(rubric.number).as_str());
    t.append(")!");
    Reply::Markdown(t)
}

} // verus!
