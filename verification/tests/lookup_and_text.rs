use matrix_dapnet_bot::dispatch::{command_kind, command_words, Command, CommandKind, CommandLables};
use matrix_dapnet_bot::error::{BotError, Reply};
use matrix_dapnet_bot::lookup::{
    callsign_reply, node_reply, rubric_list_reply, rubric_reply, statistics_reply, transmitter_group_list_reply,
    transmitter_group_reply, transmitter_reply, AntennaType, CallsignInfo, ConnectionInfo, NewsItem, NodeInfo,
    NodeStatus, RubricInfo, StatisticsInfo, TransmitterGroupInfo, TransmitterInfo, TransmitterStatus, TransmitterUsage,
};
use matrix_dapnet_bot::text::{format_i64, format_u64, join_strings, split_string, str_starts_with};

fn s(x: &str) -> String {
    x.to_string()
}

fn words(x: &[&str]) -> Vec<String> {
    x.iter().map(|w| s(w)).collect()
}

fn markdown(r: &Reply) -> String {
    match r {
        Reply::Markdown(t) => t.clone(),
        Reply::Plain(t) => panic!("plain reply {}", t),
    }
}

fn plain(r: &Reply) -> String {
    match r {
        Reply::Plain(t) => t.clone(),
        Reply::Markdown(t) => panic!("markdown reply {}", t),
    }
}

#[test]
fn numbers_are_written_in_decimal() {
    assert_eq!(format_u64(0), "0");
    assert_eq!(format_u64(1234567890), "1234567890");
    assert_eq!(format_u64(u64::MAX), u64::MAX.to_string());
    assert_eq!(format_i64(-42), "-42");
    assert_eq!(format_i64(i64::MIN), i64::MIN.to_string());
    assert_eq!(format_i64(7), "7");
}

#[test]
fn join_and_split() {
    assert_eq!(join_strings(&words(&[]), ", "), "");
    assert_eq!(join_strings(&words(&["a"]), ", "), "a");
    assert_eq!(join_strings(&words(&["a", "b", "c"]), ", "), "a, b, c");
    assert_eq!(split_string("a b", ' '), words(&["a", "b"]));
    assert_eq!(split_string("", ' '), words(&[""]));
    assert_eq!(split_string(" a  b ", ' '), words(&["", "a", "", "b", ""]));
    assert_eq!(split_string("grüße an alle", ' '), words(&["grüße", "an", "alle"]));
    assert!(str_starts_with("!dapnet send", "!dapnet"));
    assert!(!str_starts_with("!dap", "!dapnet"));
    assert!(!str_starts_with("?dapnet", "!dapnet"));
}

#[test]
fn command_words_only_for_commands_from_others() {
    let me = s("@bot:x");
    let w = command_words(&s("@a:x"), &me, "!dapnet send -r M0ABC hi").unwrap();
    assert_eq!(w, words(&["!dapnet", "send", "-r", "M0ABC", "hi"]));
    assert!(command_words(&me, &me, "!dapnet stats").is_none());
    assert!(command_words(&s("@a:x"), &me, "hello !dapnet").is_none());
}

#[test]
fn command_kinds_and_labels() {
    assert_eq!(command_kind(Command::BotOperators), None);
    assert_eq!(command_kind(Command::TxCheck), None);
    assert_eq!(command_kind(Command::SendNews), Some(CommandKind::SendNews));
    assert_eq!(command_kind(Command::List), Some(CommandKind::List));
    let l = CommandLables::new(&s("@a:x"), CommandKind::Stats);
    assert_eq!(l.sender, "@a:x");
    assert_eq!(l.kind, CommandKind::Stats);
}

#[test]
fn callsign_lookup() {
    let info = CallsignInfo { name: s("m0abc"), description: s("Alice") };
    assert_eq!(markdown(&callsign_reply("m0abc", Some(&info))), "**Callsign** m0abc<br>Alice");
    assert_eq!(plain(&callsign_reply("zz", None)), "Callsign \"zz\" not found.");
}

#[test]
fn node_lookup() {
    let mut n = NodeInfo {
        name: s("db0abc"),
        version: s("1.2"),
        status: NodeStatus::Suspended,
        longitude: s("-1.5"),
        latitude: s("52.1"),
        owners: words(&["a", "b"]),
        connection: Some(ConnectionInfo { ip: s("10.0.0.1"), port: 43434 }),
    };
    assert_eq!(
        markdown(&node_reply("db0abc", Some(&n))),
        "**Node** db0abc<br>Status: Suspended<br>Version: 1.2<br>Owner(s): a, b<br>Position: 52.1, -1.5<br>Connection: 10.0.0.1:43434<br>"
    );
    n.connection = None;
    n.status = NodeStatus::Online;
    assert!(markdown(&node_reply("db0abc", Some(&n))).contains("Status: Online<br>"));
    assert!(markdown(&node_reply("db0abc", Some(&n))).ends_with("Connection: none<br>"));
    assert_eq!(plain(&node_reply("x", None)), "Node \"x\" not found.");
}

#[test]
fn transmitter_group_lookup() {
    let g = TransmitterGroupInfo {
        name: s("uk-all"),
        description: s("All of the UK"),
        transmitters: words(&["t1", "t2"]),
        owners: words(&["o"]),
    };
    assert_eq!(
        markdown(&transmitter_group_reply("uk-all", Some(&g))),
        "**Transmitter Group**: uk-all<br>Description: All of the UK<br>Owner(s): o<br>Transmitter(s): t1, t2<br>"
    );
    assert_eq!(plain(&transmitter_group_reply("q", None)), "Transmitter Group \"q\" not found.");
}

#[test]
fn transmitter_lookup() {
    let t = TransmitterInfo {
        name: s("db0xyz"),
        owners: words(&["o1", "o2"]),
        usage: TransmitterUsage::Widerange,
        timeslots: s("0123"),
        status: TransmitterStatus::Online,
        call_count: 99,
        last_update: s("2024-01-02T03:04:05Z"),
        last_connected: Some(s("2024-01-03T00:00:00Z")),
        connected_since: None,
        device_type: None,
        device_version: Some(s("v2")),
        power: s("5"),
        antenna_height_above_ground: -3,
        antenna_type: AntennaType::Omnidirectional,
        antenna_direction: s("0"),
        antenna_gain: s("2.5"),
        latitude: s("51.5"),
        longitude: s("-0.1"),
    };
    assert_eq!(
        markdown(&transmitter_reply("db0xyz", Some(&t))),
        "**Transmitter** db0xyz<br>Owner(s): o1, o2<br>Usage: Widerange<br>Timeslots: 0123<br>Status:<br>- Online<br>- Calls: 99<br>- Last update: 2024-01-02T03:04:05Z<br>- Last connected: Some(2024-01-03T00:00:00Z)<br>- Connected since: None<br>Device:<br>- Type: (unknown)<br>- Version: v2<br>- Tx power: 5W<br>Antenna:<br>- Height above ground: -3m<br>- Type: Omnidirectional<br>- Direction: 0<br>- Gain: 2.5dBi<br>[Location](https://www.openstreetmap.org/#map=18/51.5/-0.1)"
    );
    assert_eq!(plain(&transmitter_reply("q", None)), "Transmitter \"q\" not found.");
}

#[test]
fn rubric_lookup_with_and_without_news() {
    let rb = RubricInfo {
        name: s("weather"),
        label: s("Wx"),
        number: 4,
        transmitter_groups: words(&["all", "uk"]),
        owners: words(&["alice"]),
    };
    let news = vec![
        NewsItem { number: Some(1), text: s("sunny"), timestamp: Some(s("noon")), sender: Some(s("alice")) },
        NewsItem { number: None, text: s("rain"), timestamp: None, sender: None },
    ];
    assert_eq!(
        markdown(&rubric_reply("weather", Some(&rb), Some(&news))),
        "**Rubric** weather<br>RIC: 4<br>Label: Wx<br>Owner(s): alice<br>Transmitter group(s): all, uk<br>News:\n- (1) sunny @ noon by alice\n- rain"
    );
    assert_eq!(
        markdown(&rubric_reply("weather", Some(&rb), None)),
        "**Rubric** weather<br>RIC: 4<br>Label: Wx<br>Owner(s): alice<br>Transmitter group(s): all, uk<br>News:\n(failed to query news)"
    );
    assert_eq!(plain(&rubric_reply("nope", None, None)), "Rubric \"nope\" not found.");
}

#[test]
fn lists_and_statistics() {
    let names = words(&["a", "b"]);
    assert_eq!(markdown(&rubric_list_reply(Some(&names)).unwrap()), "**Rubrics**: a, b");
    assert_eq!(
        markdown(&transmitter_group_list_reply(Some(&names)).unwrap()),
        "**Transmitter Groups**: a, b"
    );
    let e = rubric_list_reply(None).unwrap_err();
    assert!(matches!(e, BotError::RubricsUnavailable));
    assert_eq!(e.message(), "Failed to query rubrics");
    assert_eq!(
        transmitter_group_list_reply(None).unwrap_err().message(),
        "Failed to query transmitter groups"
    );
    let st = StatisticsInfo {
        users: 10,
        callsigns: 20,
        calls: 30,
        calls_total: 300,
        nodes_online: 4,
        nodes_total: 5,
        transmitters_online: 6,
        transmitters_total: 7,
        rubrics: 8,
        news: 9,
        news_total: 90,
    };
    assert_eq!(
        markdown(&statistics_reply(Some(&st)).unwrap()),
        "**Statistics**<br>Calls: 30<br>Callsigns: 20<br>News: 9<br>Rubrics: 8<br>Transmitters online: 6/7<br>Nodes online: 4/5<br>Users: 10"
    );
    assert_eq!(statistics_reply(None).unwrap_err().message(), "Failed to query statistics");
}
