use matrix_dapnet_bot::callsign::Callsign;
use matrix_dapnet_bot::config::{Config, TransmitCheckError, User};
use matrix_dapnet_bot::error::BotError;
use matrix_dapnet_bot::lookup::RubricInfo;
use matrix_dapnet_bot::permission::{check_user_can_send_to_rubric, get_transmit_callsign};

fn s(x: &str) -> String {
    x.to_string()
}

fn user(ids: &[&str], callsigns: &[&str], dapnet: &[&str]) -> User {
    User {
        matrix_ids: ids.iter().map(|i| s(i)).collect(),
        callsigns: callsigns.iter().map(|c| Callsign::new(c)).collect(),
        dapnet_usernames: dapnet.iter().map(|d| s(d)).collect(),
    }
}

fn rubric(name: &str, owners: &[&str]) -> RubricInfo {
    RubricInfo {
        name: s(name),
        label: s("label"),
        number: 1,
        transmitter_groups: vec![],
        owners: owners.iter().map(|o| s(o)).collect(),
    }
}

fn config() -> Config {
    Config {
        operators: vec![user(&["@op:example.org"], &["M0OPR"], &["op"])],
        users: vec![
            user(&["@alice:example.org", "@alice:other.org"], &["M0ABC", "2E0ABC"], &["alice"]),
            user(&["@bob:example.org"], &["G4BOB"], &["bob", "bobby"]),
            user(&["@carol:example.org"], &[], &[]),
            user(&["@alice:example.org"], &["M0XYZ"], &["alice2"]),
        ],
    }
}

#[test]
fn callsign_is_stored_lowercase_and_shown_uppercase() {
    let c = Callsign::new("M0AbC");
    assert_eq!(c.lower(), "m0abc");
    assert_eq!(c.to_display_string(), "M0ABC");
    assert_eq!(c, Callsign::new("m0abc"));
    assert!(c.same(&Callsign::new("M0ABC")));
    assert!(!c.same(&Callsign::new("M0ABD")));
    let parsed: Callsign = "G4bob".parse().unwrap();
    assert_eq!(parsed.lower(), "g4bob");
    assert_eq!(c.duplicate(), c);
}

#[test]
fn ascii_callsigns_rebuild_and_ignore_case() {
    let c = Callsign::new("2e0AbC");
    assert_eq!(Callsign::new(c.lower()), c);
    assert_eq!(Callsign::new("2E0ABC"), c);
    let cfg = config();
    let id = s("@alice:example.org");
    let lower = cfg.check_user_can_transmit(&id, &Callsign::new("m0xyz")).unwrap();
    let upper = cfg.check_user_can_transmit(&id, &Callsign::new("M0XYZ")).unwrap();
    assert_eq!(lower.dapnet_usernames, upper.dapnet_usernames);
}

#[test]
fn check_can_transmit_checks_callsign_first() {
    let u = user(&["@a:x"], &["M0ABC"], &[]);
    assert!(u.check_can_transmit(&s("@a:x"), &Callsign::new("m0abc")).is_ok());
    match u.check_can_transmit(&s("@b:x"), &Callsign::new("G4BOB")) {
        Err(TransmitCheckError::UnknownCallsign { callsign }) => {
            assert_eq!(callsign.lower(), "g4bob")
        }
        other => panic!("unexpected {:?}", other),
    }
    let e = u.check_can_transmit(&s("@b:x"), &Callsign::new("M0ABC")).unwrap_err();
    match &e {
        TransmitCheckError::UnknownMatrixId { matrix_id } => assert_eq!(matrix_id, "@b:x"),
        other => panic!("unexpected {:?}", other),
    }
    assert_eq!(e.message(), "Matrix user ID \"@b:x\" unknown to this user");
    let e = u.check_can_transmit(&s("@a:x"), &Callsign::new("g4bob")).unwrap_err();
    assert_eq!(e.message(), "Callsign \"G4BOB\" unknown to this user");
}

#[test]
fn default_callsign_is_the_first() {
    let c = config();
    assert_eq!(c.users[0].get_default_callsign().unwrap().lower(), "m0abc");
    assert!(c.users[2].get_default_callsign().is_none());
}

#[test]
fn get_user_finds_the_first_user_with_the_id() {
    let c = config();
    let u = c.get_user(&s("@alice:example.org")).unwrap();
    assert_eq!(u.dapnet_usernames, vec![s("alice")]);
    let u = c.get_user(&s("@alice:other.org")).unwrap();
    assert_eq!(u.dapnet_usernames, vec![s("alice")]);
    assert!(c.get_user(&s("@dave:example.org")).is_none());
}

#[test]
fn check_user_can_transmit_finds_the_licensed_user() {
    let c = config();
    let u = c.check_user_can_transmit(&s("@alice:example.org"), &Callsign::new("m0xyz")).unwrap();
    assert_eq!(u.dapnet_usernames, vec![s("alice2")]);
    let u = c.check_user_can_transmit(&s("@alice:example.org"), &Callsign::new("2e0abc")).unwrap();
    assert_eq!(u.dapnet_usernames, vec![s("alice")]);
    assert!(c.check_user_can_transmit(&s("@bob:example.org"), &Callsign::new("M0ABC")).is_none());
    assert!(c.check_user_can_transmit(&s("@op:example.org"), &Callsign::new("M0OPR")).is_none());
}

#[test]
fn transmit_callsign_requested_and_permitted() {
    let c = config();
    let req = Some(Callsign::new("2E0ABC"));
    let got = get_transmit_callsign(&s("@alice:other.org"), &c, &req).unwrap();
    assert_eq!(got.lower(), "2e0abc");
}

#[test]
fn transmit_callsign_requested_but_not_permitted() {
    let c = config();
    let req = Some(Callsign::new("g4bob"));
    let e = get_transmit_callsign(&s("@alice:example.org"), &c, &req).unwrap_err();
    assert_eq!(e.message(), "@alice:example.org is not permitted to use callsign G4BOB");
}

#[test]
fn transmit_callsign_defaults_to_first_callsign() {
    let c = config();
    let got = get_transmit_callsign(&s("@alice:example.org"), &c, &None).unwrap();
    assert_eq!(got.lower(), "m0abc");
    let got = get_transmit_callsign(&s("@bob:example.org"), &c, &None).unwrap();
    assert_eq!(got.to_display_string(), "G4BOB");
}

#[test]
fn transmit_callsign_without_callsigns_or_user() {
    let c = config();
    let e = get_transmit_callsign(&s("@carol:example.org"), &c, &None).unwrap_err();
    assert!(matches!(e, BotError::NoConfiguredCallsigns { .. }));
    assert_eq!(e.message(), "@carol:example.org has no configured callsigns");
    let e = get_transmit_callsign(&s("@dave:example.org"), &c, &None).unwrap_err();
    assert_eq!(e.message(), "@dave:example.org is not a configured user");
    let e = get_transmit_callsign(&s("@dave:example.org"), &c, &Some(Callsign::new("M0ABC")))
        .unwrap_err();
    assert_eq!(e.message(), "@dave:example.org is not permitted to use callsign M0ABC");
}

#[test]
fn rubric_permission_needs_a_shared_dapnet_account() {
    let c = config();
    let news = rubric("news", &["someone", "bobby"]);
    assert!(check_user_can_send_to_rubric(&s("@bob:example.org"), &c, &news).is_ok());
    let e = check_user_can_send_to_rubric(&s("@alice:example.org"), &c, &news).unwrap_err();
    assert_eq!(e.message(), "User @alice:example.org is not permitted to send to rubric news");
    // Only the first user record with the Matrix ID counts.
    let r = rubric("r", &["alice2"]);
    assert!(check_user_can_send_to_rubric(&s("@alice:example.org"), &c, &r).is_err());
    assert!(check_user_can_send_to_rubric(&s("@carol:example.org"), &c, &rubric("r", &[])).is_err());
}
