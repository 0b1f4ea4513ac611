use matrix_dapnet_bot::callsign::Callsign;
use matrix_dapnet_bot::config::{Config, User};
use matrix_dapnet_bot::error::{failure_reply, usage_reply, BotError, Reply};
use matrix_dapnet_bot::permission::get_transmit_callsign;
use matrix_dapnet_bot::lookup::RubricInfo;
use matrix_dapnet_bot::send::{news_sent_reply, page_sent_reply, prepare_news, prepare_page};
use matrix_dapnet_bot::status::{operators_reply, tx_check_reply};

fn s(x: &str) -> String {
    x.to_string()
}

fn words(x: &[&str]) -> Vec<String> {
    x.iter().map(|w| s(w)).collect()
}

fn user(ids: &[&str], callsigns: &[&str], dapnet: &[&str]) -> User {
    User {
        matrix_ids: ids.iter().map(|i| s(i)).collect(),
        callsigns: callsigns.iter().map(|c| Callsign::new(c)).collect(),
        dapnet_usernames: dapnet.iter().map(|d| s(d)).collect(),
    }
}

fn config() -> Config {
    Config {
        operators: vec![
            user(&["@op:example.org", "@op:other.org"], &["M0OPR", "2E0OPR"], &["op"]),
            user(&["@op2:example.org"], &[], &[]),
        ],
        users: vec![
            user(&["@alice:example.org"], &["M0ABC", "2E0ABC"], &["alice"]),
            user(&["@carol:example.org"], &[], &[]),
        ],
    }
}

fn markdown(r: &Reply) -> &str {
    match r {
        Reply::Markdown(t) => t,
        Reply::Plain(t) => panic!("plain reply {}", t),
    }
}

#[test]
fn page_is_signed_and_addressed_in_lowercase() {
    let c = config();
    let page = prepare_page(
        &s("@alice:example.org"),
        &c,
        &None,
        &vec![Callsign::new("G4BOB"), Callsign::new("M0XyZ")],
        &words(&["all"]),
        false,
        &words(&["hello", "there", "world"]),
    )
    .unwrap();
    assert_eq!(page.text, "M0ABC: hello there world");
    assert_eq!(page.recipients, words(&["g4bob", "m0xyz"]));
    assert_eq!(page.transmitter_groups, words(&["all"]));
    assert!(!page.emergency);
}

#[test]
fn page_with_requested_callsign_and_emergency() {
    let c = config();
    let page = prepare_page(
        &s("@alice:example.org"),
        &c,
        &Some(Callsign::new("2e0abc")),
        &vec![Callsign::new("G4BOB")],
        &words(&["uk-all", "dl-all"]),
        true,
        &words(&[]),
    )
    .unwrap();
    assert_eq!(page.text, "2E0ABC: ");
    assert_eq!(page.transmitter_groups, words(&["uk-all", "dl-all"]));
    assert!(page.emergency);
}

#[test]
fn page_needs_a_recipient() {
    let c = config();
    let e = prepare_page(&s("@alice:example.org"), &c, &None, &vec![], &words(&["all"]), false, &words(&["hi"]))
        .unwrap_err();
    assert!(matches!(e, BotError::NoRecipients));
    assert_eq!(e.message(), "At least one recipient must be specified");
}

#[test]
fn page_permission_is_checked_before_recipients() {
    let c = config();
    let e = prepare_page(&s("@eve:example.org"), &c, &None, &vec![], &words(&["all"]), false, &words(&["hi"]))
        .unwrap_err();
    assert_eq!(e.message(), "@eve:example.org is not a configured user");
    let e = prepare_page(
        &s("@alice:example.org"),
        &c,
        &Some(Callsign::new("M0OPR")),
        &vec![Callsign::new("G4BOB")],
        &words(&["all"]),
        false,
        &words(&["hi"]),
    )
    .unwrap_err();
    assert_eq!(e.message(), "@alice:example.org is not permitted to use callsign M0OPR");
}

#[test]
fn page_sent_reply_names_the_sender() {
    let r = page_sent_reply(&s("@alice:example.org"));
    assert_eq!(markdown(&r), "@alice:example.org, your message has been sent!");
}

fn rubric(owners: &[&str]) -> RubricInfo {
    RubricInfo {
        name: s("weather"),
        label: s("Weather"),
        number: 12,
        transmitter_groups: words(&["all"]),
        owners: words(owners),
    }
}

#[test]
fn news_is_published_by_rubric_owners() {
    let c = config();
    let sender = s("@alice:example.org");
    let callsign = get_transmit_callsign(&sender, &c, &None).unwrap();
    let rb = rubric(&["x", "alice"]);
    let news = prepare_news(&sender, &c, callsign, &s("weather"), Some(&rb), 3, &words(&["rain", "later"]))
        .unwrap();
    assert_eq!(news.rubric, "weather");
    assert_eq!(news.text, "M0ABC: rain later");
    assert_eq!(news.number, 3);
    let r = news_sent_reply(&sender, &rb);
    assert_eq!(markdown(&r), "@alice:example.org, your news item has been sent to rubric weather (12)!");
}

#[test]
fn news_to_unknown_or_foreign_rubric_fails() {
    let c = config();
    let sender = s("@alice:example.org");
    let callsign = Callsign::new("m0abc");
    let e = prepare_news(&sender, &c, &callsign, &s("nope"), None, 1, &words(&["x"])).unwrap_err();
    assert_eq!(e.message(), "Could not find rubric with name \"nope\"");
    let rb = rubric(&["bob"]);
    let e = prepare_news(&sender, &c, &callsign, &s("weather"), Some(&rb), 1, &words(&["x"])).unwrap_err();
    assert_eq!(e.message(), "User @alice:example.org is not permitted to send to rubric weather");
}

#[test]
fn news_number_must_be_from_one_to_ten() {
    let c = config();
    let sender = s("@alice:example.org");
    let callsign = Callsign::new("m0abc");
    let rb = rubric(&["alice"]);
    for bad in [0i8, 11, -1, i8::MIN, i8::MAX] {
        let e = prepare_news(&sender, &c, &callsign, &s("weather"), Some(&rb), bad, &words(&["x"]))
            .unwrap_err();
        assert!(matches!(e, BotError::InvalidNewsNumber { number } if number == bad));
        assert_eq!(e.message(), format!("News item number {} is out of range (1-10)", bad));
    }
    // The number is checked after the rubric and the permission.
    let e = prepare_news(&sender, &c, &callsign, &s("nope"), None, 0, &words(&["x"])).unwrap_err();
    assert_eq!(e.message(), "Could not find rubric with name \"nope\"");
    let foreign = rubric(&["bob"]);
    let e = prepare_news(&sender, &c, &callsign, &s("weather"), Some(&foreign), 11, &words(&["x"]))
        .unwrap_err();
    assert_eq!(e.message(), "User @alice:example.org is not permitted to send to rubric weather");
    for good in [1i8, 10] {
        let news = prepare_news(&sender, &c, &callsign, &s("weather"), Some(&rb), good, &words(&["x"]))
            .unwrap();
        assert_eq!(news.number, good);
    }
}

#[test]
fn operators_are_listed_one_per_line() {
    let r = operators_reply(&config());
    assert_eq!(
        markdown(&r),
        "This bot is managed by:\n- @op:example.org,@op:other.org (M0OPR,2E0OPR)\n- @op2:example.org ()"
    );
    let empty = Config { operators: vec![], users: vec![] };
    assert_eq!(markdown(&operators_reply(&empty)), "This bot is managed by:\n");
}

#[test]
fn tx_check_answers() {
    let c = config();
    let alice = s("@alice:example.org");
    let yes = "Congrats @alice:example.org, you are configured to transmit using the following callsigns: M0ABC, 2E0ABC";
    assert_eq!(markdown(&tx_check_reply(&alice, &c, &Some(Callsign::new("2e0abc")))), yes);
    assert_eq!(markdown(&tx_check_reply(&alice, &c, &None)), yes);
    assert_eq!(
        markdown(&tx_check_reply(&alice, &c, &Some(Callsign::new("g4bob")))),
        "Sorry @alice:example.org, you are not configured to transmit with callsign G4BOB."
    );
    assert_eq!(
        markdown(&tx_check_reply(&s("@eve:x"), &c, &None)),
        "Sorry @eve:x, I'm afraid I do not know you, if you hold an ameatur radio license speak to an operator of this bot to be allowed to transmit."
    );
    // A configured user without callsigns is told no, as they cannot transmit.
    let carol = s("@carol:example.org");
    assert_eq!(
        markdown(&tx_check_reply(&carol, &c, &None)),
        "Sorry @carol:example.org, you have no callsigns configured to transmit with."
    );
    assert!(get_transmit_callsign(&carol, &c, &None).is_err());
}

#[test]
fn tx_check_agrees_with_page_permission() {
    let c = config();
    for sender in ["@alice:example.org", "@carol:example.org", "@eve:x"] {
        let mut requests = vec![None];
        for cs in ["M0ABC", "2E0ABC", "G4BOB"] {
            requests.push(Some(Callsign::new(cs)));
        }
        for req in requests {
            let approved = markdown(&tx_check_reply(&s(sender), &c, &req)).starts_with("Congrats ");
            assert_eq!(approved, get_transmit_callsign(&s(sender), &c, &req).is_ok());
        }
    }
}

#[test]
fn failure_and_usage_replies_quote_the_error() {
    assert_eq!(markdown(&failure_reply("boom")), "**Sad bot is sad :c**\n```\nboom\n```");
    assert_eq!(markdown(&usage_reply("bad args")), "```\nbad args\n```");
}
