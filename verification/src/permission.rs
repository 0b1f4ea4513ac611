//! Who may transmit with which callsign, and who may publish to a rubric.

use vstd::prelude::*;

use crate::callsign::Callsign;
use crate::config::{
    Config, User, first_where, is_first_where, lemma_first_where, user_can_transmit, user_has_id,
};
use crate::error::{BotError, BotErrorView};
use crate::lookup::RubricInfo;
use crate::text::{ascii_lower, ascii_upper, contains_string, lemma_ascii_case_mapping};
use vstd::utf8::is_ascii_chars;

verus! {

/// The callsign a sender transmits with, or why they may not transmit.
/// A requested callsign must belong to a configured user with the sender's
/// Matrix ID; without a request, the sender's first configured user's first
/// callsign is used.
pub open spec fn transmit_callsign(
    config: Config,
    sender: Seq<char>,
    requested: Option<Seq<char>>,
) -> Result<Seq<char>, BotErrorView> {
    match requested {
        Some(c) => if config.transmitter_index(sender, c) is Some {
            Ok(c)
        } else {
            Err(BotErrorView::CallsignNotPermitted { sender, callsign: c })
        },
        None => match config.user_index(sender) {
            Some(i) => if config.users@[i].callsigns@.len() > 0 {
                Ok(config.users@[i].callsigns@[0]@)
            } else {
                Err(BotErrorView::NoConfiguredCallsigns { sender })
            },
            None => Err(BotErrorView::NotConfiguredUser { sender }),
        },
    }
}

/// The callsign that `sender` transmits with: `requested` when it is theirs,
/// else their default callsign.
pub fn get_transmit_callsign<'a>(
    sender: &String,
    config: &'a Config,
    requested: &'a Option<Callsign>,
) -> (r: Result<&'a Callsign, BotError>)
    ensures
        match r {
            Ok(c) => transmit_callsign(*config, sender@, requested.deep_view()) == Ok::<
                Seq<char>,
                BotErrorView,
            >(c@),
            Err(e) => transmit_callsign(*config, sender@, requested.deep_view()) == Err::<
                Seq<char>,
                BotErrorView,
            >(e@),
        },
{
    match requested {
        Some(callsign) => match config.check_user_can_transmit(sender, callsign) {
            Some(_) => Ok(callsign),
            None => Err(
                BotError::CallsignNotPermitted { sender: sender.clone(), callsign: callsign.duplicate() },
            ),
        },
        None => match config.get_user(sender) {
            Some(user) => match user.get_default_callsign() {
                Some(callsign) => Ok(callsign),
                None => Err(BotError::NoConfiguredCallsigns { sender: sender.clone() }),
            },
            None => Err(BotError::NotConfiguredUser { sender: sender.clone() }),
        },
    }
}

/// Whether a user owns a DAPNET account that is among `owners`.
pub open spec fn owns_rubric(user: User, owners: Seq<Seq<char>>) -> bool {
    exists|name: Seq<char>| user.dapnet_usernames.deep_view().contains(name) && owners.contains(name)
}

/// Checks that the first configured user with Matrix ID `sender` owns a DAPNET
/// account that owns the rubric.
pub fn check_user_can_send_to_rubric(
    sender: &String,
    config: &Config,
    rubric: &RubricInfo,
) -> (r: Result<(), BotError>)
    requires
        config.user_index(sender@) is Some,
    ensures
        r is Ok <==> owns_rubric(config.users@[config.user_index(sender@)->0], rubric.owners.deep_view()),
        r matches Err(e) ==> e@ == (BotErrorView::RubricNotPermitted {
            sender: sender@,
            rubric: rubric.name@,
        }),
{
    let user = match config.get_user(sender) {
        Some(u) => u,
        None => {
            return Err(BotError::NotConfiguredUser { sender: sender.clone() });
        },
    };
    let ghost names = user.dapnet_usernames.deep_view();
    let ghost owners = rubric.owners.deep_view();
    let n = user.dapnet_usernames.len();
    let mut i: usize = 0;
    while i < n
        invariant
            n == user.dapnet_usernames.len(),
            names == user.dapnet_usernames.deep_view(),
            owners == rubric.owners.deep_view(),
            config.user_index(sender@) is Some,
            *user == config.users@[config.user_index(sender@)->0],
            i <= n,
            forall|j: int| 0 <= j < i ==> !owners.contains(#[trigger] names[j]),
        decreases n - i,
    {
        if contains_string(&rubric.owners, &user.dapnet_usernames[i]) {
            proof {
                let name = names[i as int];
                assert(names.contains(name));
                assert(owners.contains(name));
                assert(*user == config.users@[config.user_index(sender@)->0]);
                assert(owns_rubric(*user, owners));
            }
            return Ok(());
        }
        i = i + 1;
    }
    assert forall|name: Seq<char>| names.contains(name) implies !owners.contains(name) by {
        let j = choose|j: int| 0 <= j < names.len() && names[j] == name;
        assert(!owners.contains(names[j]));
    }
    Err(BotError::RubricNotPermitted { sender: sender.clone(), rubric: rubric.name.clone() })
}

/// For a callsign written in ASCII, the case it is written in makes no
/// difference to who may transmit with it nor to the callsign granted.
pub proof fn lemma_ascii_callsign_case_ignored(config: Config, sender: Seq<char>, text: Seq<char>)
    requires
        is_ascii_chars(text),
    ensures
        config.transmitter_index(sender, ascii_lower(ascii_upper(text))) == config.transmitter_index(
            sender,
            ascii_lower(text),
        ),
        transmit_callsign(config, sender, Some(ascii_lower(ascii_upper(text)))) == transmit_callsign(
            config,
            sender,
            Some(ascii_lower(text)),
        ),
{
    lemma_ascii_case_mapping(text);
}

/// Whether a configured user with Matrix ID `sender` holds `callsign`.
pub open spec fn is_licensed(config: Config, sender: Seq<char>, callsign: Seq<char>) -> bool {
    exists|i: int|
        0 <= i < config.users@.len() && (#[trigger] config.users@[i]).has_matrix_id(sender)
            && config.users@[i].has_callsign(callsign)
}

/// A callsign granted to a sender is one that a configured user with the
/// sender's Matrix ID holds.
pub proof fn lemma_granted_callsign_is_licensed(
    config: Config,
    sender: Seq<char>,
    requested: Option<Seq<char>>,
    callsign: Seq<char>,
)
    requires
        transmit_callsign(config, sender, requested) == Ok::<Seq<char>, BotErrorView>(callsign),
    ensures
        is_licensed(config, sender, callsign),
        requested matches Some(c) ==> c == callsign,
{
    match requested {
        Some(c) => {
            let i = config.transmitter_index(sender, c)->0;
            let p = user_can_transmit(sender, c);
            assert(is_first_where(config.users@, p, i));
            assert(p(config.users@[i]));
        },
        None => {
            let i = config.user_index(sender)->0;
            let p = user_has_id(sender);
            assert(is_first_where(config.users@, p, i));
            assert(p(config.users@[i]));
            assert(config.users@[i].callsigns.deep_view()[0] == callsign);
        },
    }
}

/// A sender granted a callsign is a configured user, so the rubric check can
/// look them up.
pub proof fn lemma_granted_sender_is_configured(
    config: Config,
    sender: Seq<char>,
    requested: Option<Seq<char>>,
)
    requires
        transmit_callsign(config, sender, requested) is Ok,
    ensures
        config.user_index(sender) is Some,
{
    let callsign = transmit_callsign(config, sender, requested)->Ok_0;
    lemma_granted_callsign_is_licensed(config, sender, requested, callsign);
    let i = choose|i: int|
        0 <= i < config.users@.len() && (#[trigger] config.users@[i]).has_matrix_id(sender)
            && config.users@[i].has_callsign(callsign);
    let p = user_has_id(sender);
    assert(p(config.users@[i]));
    crate::config::lemma_first_where_exists(config.users@, p, i);
}

} // verus!
