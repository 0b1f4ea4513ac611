//! Replies to lookups of DAPNET resources: callsigns, nodes, rubrics,
//! transmitters, transmitter groups, lists of them, and network statistics.

use vstd::prelude::*;

use crate::error::{BotError, BotErrorView, Reply};
use crate::text::{format_i64, format_u64, join, join_strings, decimal, signed_decimal};

verus! {

/// The text `"<kind> \"<name>\" not found."` of a failed lookup.
pub open spec fn not_found_text(kind: Seq<char>, name: Seq<char>) -> Seq<char> {
    kind + " \""@ + name + "\" not found."@
}

fn not_found_reply(kind: &str, name: &str) -> (r: Reply)
    ensures
        r.is_plain_text(not_found_text(kind@, name@)),
{
    let mut t = String::from_str(kind);
    t.append(" \"");
    t.append(name);
    t.append("\" not found.");
    Reply::Plain(t)
}

/// An optional value as `{:?}` writes it, given how its content is written.
pub open spec fn debug_option(o: Option<Seq<char>>) -> Seq<char> {
    match o {
        Some(s) => "Some("@ + s + ")"@,
        None => "None"@,
    }
}

fn format_debug_option(o: &Option<String>) -> (r: String)
    ensures
        r@ == debug_option(o.deep_view()),
{
    match o {
        Some(s) => {
            let mut r = String::from_str("Some(");
            r.append(s.as_str());
            r.append(")");
            r
        },
        None => String::from_str("None"),
    }
}

/// What DAPNET tells of a callsign.
#[derive(Clone, Debug)]
pub struct CallsignInfo {
    pub name: String,
    pub description: String,
}

/// The text describing a callsign.
pub open spec fn callsign_text(c: CallsignInfo) -> Seq<char> {
    "**Callsign** "@ + c.name@ + "<br>"@ + c.description@
}

/// The reply to a callsign lookup for `query`: its description, or plain
/// "not found" when DAPNET knows no such callsign.
pub fn callsign_reply(query: &str, found: Option<&CallsignInfo>) -> (r: Reply)
    ensures
        match found {
            Some(c) => r.is_markdown_text(callsign_text(*c)),
            None => r.is_plain_text(not_found_text("Callsign"@, query@)),
        },
{
    match found {
        Some(c) => {
            let mut t = String::from_str("**Callsign** ");
            t.append(c.name.as_str());
            t.append("<br>");
            t.append(c.description.as_str());
            Reply::Markdown(t)
        },
        None => not_found_reply("Callsign", query),
    }
}

/// The state of a DAPNET node.
#[derive(Clone, Copy, Debug, PartialEq, Eq)]
pub enum NodeStatus {
    Online,
    Suspended,
    Error,
}

/// The name of a node state as `{:?}` writes it.
pub open spec fn node_status_name(s: NodeStatus) -> Seq<char> {
    match s {
        NodeStatus::Online => "Online"@,
        NodeStatus::Suspended => "Suspended"@,
        NodeStatus::Error => "Error"@,
    }
}

/// Each node state is shown by its own name, and no two states share one.
pub proof fn lemma_node_status_names(a: NodeStatus, b: NodeStatus)
    ensures
        node_status_name(NodeStatus::Online) == "Online"@,
        node_status_name(NodeStatus::Suspended) == "Suspended"@,
        node_status_name(NodeStatus::Error) == "Error"@,
        node_status_name(a) == node_status_name(b) ==> a == b,
{
    reveal_strlit("Online");
    reveal_strlit("Suspended");
    reveal_strlit("Error");
    if node_status_name(a) == node_status_name(b) {
        assert(node_status_name(a).len() == node_status_name(b).len());
    }
}

fn node_status_str(s: NodeStatus) -> (r: &'static str)
    ensures
        r@ == node_status_name(s),
{
    match s {
        NodeStatus::Online => "Online",
        NodeStatus::Suspended => "Suspended",
        NodeStatus::Error => "Error",
    }
}

/// The network address a node or transmitter connects from.
#[derive(Clone, Debug)]
pub struct ConnectionInfo {
    /// The IP address, as written by its `Display`.
    pub ip: String,
    pub port: u64,
}

/// An address as `ip:port`.
pub open spec fn connection_text(c: ConnectionInfo) -> Seq<char> {
    c.ip@ + ":"@ + decimal(c.port as nat)
}

/// What DAPNET tells of a node.
#[derive(Clone, Debug)]
pub struct NodeInfo {
    pub name: String,
    pub version: String,
    pub status: NodeStatus,
    pub longitude: String,
    pub latitude: String,
    pub owners: Vec<String>,
    pub connection: Option<ConnectionInfo>,
}

/// The text describing a node.
pub open spec fn node_text(n: NodeInfo) -> Seq<char> {
    "**Node** "@ + n.name@ + "<br>Status: "@ + node_status_name(n.status) + "<br>Version: "@
        + n.version@ + "<br>Owner(s): "@ + join(n.owners.deep_view(), ", "@) + "<br>Position: "@
        + n.latitude@ + ", "@ + n.longitude@ + "<br>Connection: "@ + match n.connection {
        Some(c) => connection_text(c),
        None => "none"@,
    } + "<br>"@
}

/// The reply to a node lookup for `query`.
pub fn node_reply(query: &str, found: Option<&NodeInfo>) -> (r: Reply)
    ensures
        match found {
            Some(n) => r.is_markdown_text(node_text(*n)),
            None => r.is_plain_text(not_found_text("Node"@, query@)),
        },
{
    match found {
        Some(n) => {
            let connection = match &n.connection {
                Some(c) => {
                    let mut s = c.ip.clone();
                    s.append(":");
                    s.append(format_u64(c.port).as_str());
                    s
                },
                None => String::from_str("none"),
            };
            let mut t = String::from_str("**Node** ");
            t.append(n.name.as_str());
            t.append("<br>Status: ");
            t.append(node_status_str(n.status));
            t.append("<br>Version: ");
            t.append(n.version.as_str());
            t.append("<br>Owner(s): ");
            t.append(join_strings(&n.owners, ", ").as_str());
            t.append("<br>Position: ");
            t.append(n.latitude.as_str());
            t.append(", ");
            t.append(n.longitude.as_str());
            t.append("<br>Connection: ");
            t.append(connection.as_str());
            t.append("<br>");
            Reply::Markdown(t)
        },
        None => not_found_reply("Node", query),
    }
}

/// What DAPNET tells of a transmitter group.
#[derive(Clone, Debug)]
pub struct TransmitterGroupInfo {
    pub name: String,
    pub description: String,
    pub transmitters: Vec<String>,
    pub owners: Vec<String>,
}

/// The text describing a transmitter group.
pub open spec fn transmitter_group_text(g: TransmitterGroupInfo) -> Seq<char> {
    "**Transmitter Group**: "@ + g.name@ + "<br>Description: "@ + g.description@
        + "<br>Owner(s): "@ + join(g.owners.deep_view(), ", "@) + "<br>Transmitter(s): "@ + join(
        g.transmitters.deep_view(),
        ", "@,
    ) + "<br>"@
}

/// The reply to a transmitter group lookup for `query`.
pub fn transmitter_group_reply(query: &str, found: Option<&TransmitterGroupInfo>) -> (r: Reply)
    ensures
        match found {
            Some(g) => r.is_markdown_text(transmitter_group_text(*g)),
            None => r.is_plain_text(not_found_text("Transmitter Group"@, query@)),
        },
{
    match found {
        Some(g) => {
            let mut t = String::from_str("**Transmitter Group**: ");
            t.append(g.name.as_str());
            t.append("<br>Description: ");
            t.append(g.description.as_str());
            t.append("<br>Owner(s): ");
            t.append(join_strings(&g.owners, ", ").as_str());
            t.append("<br>Transmitter(s): ");
            t.append(join_strings(&g.transmitters, ", ").as_str());
            t.append("<br>");
            Reply::Markdown(t)
        },
        None => not_found_reply("Transmitter Group", query),
    }
}

/// How a transmitter is used.
#[derive(Clone, Copy, Debug, PartialEq, Eq)]
pub enum TransmitterUsage {
    Personal,
    Widerange,
}

/// The kind of a transmitter's antenna.
#[derive(Clone, Copy, Debug, PartialEq, Eq)]
pub enum AntennaType {
    Omnidirectional,
    Directional,
}

/// The state of a transmitter.
#[derive(Clone, Copy, Debug, PartialEq, Eq)]
pub enum TransmitterStatus {
    Offline,
    Online,
    Error,
}

/// The name of a transmitter usage as `{:?}` writes it.
pub open spec fn usage_name(u: TransmitterUsage) -> Seq<char> {
    match u {
        TransmitterUsage::Personal => "Personal"@,
        TransmitterUsage::Widerange => "Widerange"@,
    }
}

/// The name of an antenna kind as `{:?}` writes it.
pub open spec fn antenna_type_name(a: AntennaType) -> Seq<char> {
    match a {
        AntennaType::Omnidirectional => "Omnidirectional"@,
        AntennaType::Directional => "Directional"@,
    }
}

/// The name of a transmitter state as `{:?}` writes it.
pub open spec fn transmitter_status_name(s: TransmitterStatus) -> Seq<char> {
    match s {
        TransmitterStatus::Offline => "Offline"@,
        TransmitterStatus::Online => "Online"@,
        TransmitterStatus::Error => "Error"@,
    }
}

/// Each transmitter state, usage and antenna kind is shown by its own name,
/// and no two values of one of them share a name.
pub proof fn lemma_transmitter_names(
    s1: TransmitterStatus,
    s2: TransmitterStatus,
    u1: TransmitterUsage,
    u2: TransmitterUsage,
    a1: AntennaType,
    a2: AntennaType,
)
    ensures
        transmitter_status_name(TransmitterStatus::Offline) == "Offline"@,
        transmitter_status_name(TransmitterStatus::Online) == "Online"@,
        transmitter_status_name(TransmitterStatus::Error) == "Error"@,
        transmitter_status_name(s1) == transmitter_status_name(s2) ==> s1 == s2,
        usage_name(TransmitterUsage::Personal) == "Personal"@,
        usage_name(TransmitterUsage::Widerange) == "Widerange"@,
        usage_name(u1) == usage_name(u2) ==> u1 == u2,
        antenna_type_name(AntennaType::Omnidirectional) == "Omnidirectional"@,
        antenna_type_name(AntennaType::Directional) == "Directional"@,
        antenna_type_name(a1) == antenna_type_name(a2) ==> a1 == a2,
{
    reveal_strlit("Offline");
    reveal_strlit("Online");
    reveal_strlit("Error");
    reveal_strlit("Personal");
    reveal_strlit("Widerange");
    reveal_strlit("Omnidirectional");
    reveal_strlit("Directional");
    if transmitter_status_name(s1) == transmitter_status_name(s2) {
        assert(transmitter_status_name(s1).len() == transmitter_status_name(s2).len());
    }
    if usage_name(u1) == usage_name(u2) {
        assert(usage_name(u1).len() == usage_name(u2).len());
    }
    if antenna_type_name(a1) == antenna_type_name(a2) {
        assert(antenna_type_name(a1).len() == antenna_type_name(a2).len());
    }
}

fn usage_str(u: TransmitterUsage) -> (r: &'static str)
    ensures
        r@ == usage_name(u),
{
    match u {
        TransmitterUsage::Personal => "Personal",
        TransmitterUsage::Widerange => "Widerange",
    }
}

fn antenna_type_str(a: AntennaType) -> (r: &'static str)
    ensures
        r@ == antenna_type_name(a),
{
    match a {
        AntennaType::Omnidirectional => "Omnidirectional",
        AntennaType::Directional => "Directional",
    }
}

fn transmitter_status_str(s: TransmitterStatus) -> (r: &'static str)
    ensures
        r@ == transmitter_status_name(s),
{
    match s {
        TransmitterStatus::Offline => "Offline",
        TransmitterStatus::Online => "Online",
        TransmitterStatus::Error => "Error",
    }
}

/// What DAPNET tells of a transmitter. Times and the antenna's direction and
/// gain arrive already written out (times as `{:?}` writes them).
#[derive(Clone, Debug)]
pub struct TransmitterInfo {
    pub name: String,
    pub owners: Vec<String>,
    pub usage: TransmitterUsage,
    pub timeslots: String,
    pub status: TransmitterStatus,
    pub call_count: u64,
    pub last_update: String,
    pub last_connected: Option<String>,
    pub connected_since: Option<String>,
    pub device_type: Option<String>,
    pub device_version: Option<String>,
    pub power: String,
    pub antenna_height_above_ground: i64,
    pub antenna_type: AntennaType,
    pub antenna_direction: String,
    pub antenna_gain: String,
    pub latitude: String,
    pub longitude: String,
}

/// An optional device detail, or `(unknown)`.
pub open spec fn or_unknown(o: Option<Seq<char>>) -> Seq<char> {
    match o {
        Some(s) => s,
        None => "(unknown)"@,
    }
}

fn format_or_unknown(o: &Option<String>) -> (r: String)
    ensures
        r@ == or_unknown(o.deep_view()),
{
    match o {
        Some(s) => s.clone(),
        None => String::from_str("(unknown)"),
    }
}

/// The text describing a transmitter.
pub open spec fn transmitter_text(x: TransmitterInfo) -> Seq<char> {
    "**Transmitter** "@ + x.name@ + "<br>Owner(s): "@ + join(x.owners.deep_view(), ", "@)
        + "<br>Usage: "@ + usage_name(x.usage) + "<br>Timeslots: "@ + x.timeslots@
        + "<br>Status:<br>- "@ + transmitter_status_name(x.status) + "<br>- Calls: "@ + decimal(
        x.call_count as nat,
    ) + "<br>- Last update: "@ + x.last_update@ + "<br>- Last connected: "@ + debug_option(
        x.last_connected.deep_view(),
    ) + "<br>- Connected since: "@ + debug_option(x.connected_since.deep_view())
        + "<br>Device:<br>- Type: "@ + or_unknown(x.device_type.deep_view()) + "<br>- Version: "@
        + or_unknown(x.device_version.deep_view()) + "<br>- Tx power: "@ + x.power@
        + "W<br>Antenna:<br>- Height above ground: "@ + signed_decimal(
        x.antenna_height_above_ground as int,
    ) + "m<br>- Type: "@ + antenna_type_name(x.antenna_type) + "<br>- Direction: "@
        + x.antenna_direction@ + "<br>- Gain: "@ + x.antenna_gain@
        + "dBi<br>[Location](https://www.openstreetmap.org/#map=18/"@ + x.latitude@ + "/"@
        + x.longitude@ + ")"@
}

/// The reply to a transmitter lookup for `query`.
pub fn transmitter_reply(query: &str, found: Option<&TransmitterInfo>) -> (r: Reply)
    ensures
        match found {
            Some(x) => r.is_markdown_text(transmitter_text(*x)),
            None => r.is_plain_text(not_found_text("Transmitter"@, query@)),
        },
{
    match found {
        Some(x) => {
            let mut t = String::from_str("**Transmitter** ");
            t.append(x.name.as_str());
            t.append("<br>Owner(s): ");
            t.append(join_strings(&x.owners, ", ").as_str());
            t.append("<br>Usage: ");
            t.append(usage_str(x.usage));
            t.append("<br>Timeslots: ");
            t.append(x.timeslots.as_str());
            t.append("<br>Status:<br>- ");
            t.append(transmitter_status_str(x.status));
            t.append("<br>- Calls: ");
            t.append(format_u64(x.call_count).as_str());
            t.append("<br>- Last update: ");
            t.append(x.last_update.as_str());
            t.append("<br>- Last connected: ");
            t.append(format_debug_option(&x.last_connected).as_str());
            t.append("<br>- Connected since: ");
            t.append(format_debug_option(&x.connected_since).as_str());
            t.append("<br>Device:<br>- Type: ");
            t.append(format_or_unknown(&x.device_type).as_str());
            t.append("<br>- Version: ");
            t.append(format_or_unknown(&x.device_version).as_str());
            t.append("<br>- Tx power: ");
            t.append(x.power.as_str());
            t.append("W<br>Antenna:<br>- Height above ground: ");
            t.append(format_i64(x.antenna_height_above_ground).as_str());
            t.append("m<br>- Type: ");
            t.append(antenna_type_str(x.antenna_type));
            t.append("<br>- Direction: ");
            t.append(x.antenna_direction.as_str());
            t.append("<br>- Gain: ");
            t.append(x.antenna_gain.as_str());
            t.append("dBi<br>[Location](https://www.openstreetmap.org/#map=18/");
            t.append(x.latitude.as_str());
            t.append("/");
            t.append(x.longitude.as_str());
            t.append(")");
            Reply::Markdown(t)
        },
        None => not_found_reply("Transmitter", query),
    }
}

/// What DAPNET tells of a rubric.
#[derive(Clone, Debug)]
pub struct RubricInfo {
    pub name: String,
    pub label: String,
    pub number: i64,
    pub transmitter_groups: Vec<String>,
    pub owners: Vec<String>,
}

/// A news item of a rubric. Its time arrives already written out.
#[derive(Clone, Debug)]
pub struct NewsItem {
    pub number: Option<i8>,
    pub text: String,
    pub timestamp: Option<String>,
    pub sender: Option<String>,
}

/// One line of a rubric's news: number, text, time and author where known.
pub open spec fn news_line(n: NewsItem) -> Seq<char> {
    "-"@ + match n.number {
        Some(k) => " ("@ + signed_decimal(k as int) + ")"@,
        None => Seq::<char>::empty(),
    } + " "@ + n.text@ + match n.timestamp {
        Some(t) => " @ "@ + t@,
        None => Seq::<char>::empty(),
    } + match n.sender {
        Some(s) => " by "@ + s@,
        None => Seq::<char>::empty(),
    }
}

/// How a news line is made up, part by part, each part depending on its own
/// field alone: an item with nothing but text reads `"- " + text`; a number
/// `k` goes in front of the text as `" (k)"`; a time `t` goes after the text as
/// `" @ t"`; and an author `s` is added at the very end as `" by s"`, whatever
/// the number and time are.
pub proof fn lemma_news_line_parts(n: NewsItem, k: i8, t: String, s: String)
    ensures
        news_line(NewsItem { number: None, text: n.text, timestamp: None, sender: None })
            == "- "@ + n.text@,
        news_line(NewsItem { number: Some(k), text: n.text, timestamp: None, sender: None })
            == "- ("@ + signed_decimal(k as int) + ") "@ + n.text@,
        news_line(NewsItem { number: n.number, text: n.text, timestamp: Some(t), sender: None })
            == news_line(NewsItem { number: n.number, text: n.text, timestamp: None, sender: None })
            + " @ "@ + t@,
        news_line(NewsItem { number: n.number, text: n.text, timestamp: n.timestamp, sender: Some(s) })
            == news_line(
            NewsItem { number: n.number, text: n.text, timestamp: n.timestamp, sender: None },
        ) + " by "@ + s@,
{
    reveal_strlit("-");
    reveal_strlit(" ");
    reveal_strlit("- ");
    reveal_strlit(" (");
    reveal_strlit("- (");
    reveal_strlit(")");
    reveal_strlit(") ");
    assert(news_line(NewsItem { number: None, text: n.text, timestamp: None, sender: None })
        =~= "- "@ + n.text@);
    assert(news_line(NewsItem { number: Some(k), text: n.text, timestamp: None, sender: None })
        =~= "- ("@ + signed_decimal(k as int) + ") "@ + n.text@);
    assert(news_line(NewsItem { number: n.number, text: n.text, timestamp: Some(t), sender: None })
        =~= news_line(NewsItem { number: n.number, text: n.text, timestamp: None, sender: None })
        + " @ "@ + t@);
    assert(news_line(
        NewsItem { number: n.number, text: n.text, timestamp: n.timestamp, sender: Some(s) },
    ) =~= news_line(
        NewsItem { number: n.number, text: n.text, timestamp: n.timestamp, sender: None },
    ) + " by "@ + s@);
}

fn format_news_line(n: &NewsItem) -> (r: String)
    ensures
        r@ == news_line(*n),
{
    let mut t = String::from_str("-");
    match n.number {
        Some(k) => {
            t.append(" (");
            t.append(format_i64(k as i64).as_str());
            t.append(")");
        },
        None => {
            assert(t@ =~= t@ + Seq::<char>::empty());
        },
    }
    t.append(" ");
    t.append(n.text.as_str());
    match &n.timestamp {
        Some(s) => {
            t.append(" @ ");
            t.append(s.as_str());
        },
        None => {
            assert(t@ =~= t@ + Seq::<char>::empty());
        },
    }
    match &n.sender {
        Some(s) => {
            t.append(" by ");
            t.append(s.as_str());
        },
        None => {
            assert(t@ =~= t@ + Seq::<char>::empty());
        },
    }
    t
}

/// The news section of a rubric: its items one per line, or a note that
/// DAPNET could not be asked for them (`None`).
pub open spec fn news_section(news: Option<Seq<NewsItem>>) -> Seq<char> {
    match news {
        Some(items) => join(items.map_values(|n: NewsItem| news_line(n)), "\n"@),
        None => "(failed to query news)"@,
    }
}

/// The text describing a rubric and its news.
pub open spec fn rubric_text(rb: RubricInfo, news: Option<Seq<NewsItem>>) -> Seq<char> {
    "**Rubric** "@ + rb.name@ + "<br>RIC: "@ + signed_decimal(rb.number as int) + "<br>Label: "@
        + rb.label@ + "<br>Owner(s): "@ + join(rb.owners.deep_view(), ", "@)
        + "<br>Transmitter group(s): "@ + join(rb.transmitter_groups.deep_view(), ", "@)
        + "<br>News:\n"@ + news_section(news)
}

fn format_news_section(news: Option<&Vec<NewsItem>>) -> (r: String)
    ensures
        r@ == news_section(
            match news {
                Some(v) => Some(v@),
                None => None,
            },
        ),
{
    match news {
        Some(items) => {
            let ghost lines = items@.map_values(|n: NewsItem| news_line(n));
            let k = items.len();
            let mut formatted: Vec<String> = Vec::new();
            let mut i: usize = 0;
            while i < k
                invariant
                    k == items@.len(),
                    lines == items@.map_values(|n: NewsItem| news_line(n)),
                    i <= k,
                    formatted.deep_view() =~= lines.take(i as int),
                decreases k - i,
            {
                let ghost before = formatted.deep_view();
                let line = format_news_line(&items[i]);
                formatted.push(line);
                assert(formatted.deep_view() =~= before.push(lines[i as int]));
                i = i + 1;
                assert(formatted.deep_view() =~= lines.take(i as int));
            }
            assert(lines.take(k as int) =~= lines);
            join_strings(&formatted, "\n")
        },
        None => String::from_str("(failed to query news)"),
    }
}

/// The reply to a rubric lookup for `query`, with the rubric's news when
/// DAPNET returned them.
pub fn rubric_reply(
    query: &str,
    found: Option<&RubricInfo>,
    news: Option<&Vec<NewsItem>>,
) -> (r: Reply)
    ensures
        match found {
            Some(rb) => r.is_markdown_text(
                rubric_text(
                    *rb,
                    match news {
                        Some(v) => Some(v@),
                        None => None,
                    },
                ),
            ),
            None => r.is_plain_text(not_found_text("Rubric"@, query@)),
        },
{
    match found {
        Some(rb) => {
            let mut t = String::from_str("**Rubric** ");
            t.append(rb.name.as_str());
            t.append("<br>RIC: ");
            t.append(format_i64(rb.number).as_str());
            t.append("<br>Label: ");
            t.append(rb.label.as_str());
            t.append("<br>Owner(s): ");
            t.append(join_strings(&rb.owners, ", ").as_str());
            t.append("<br>Transmitter group(s): ");
            t.append(join_strings(&rb.transmitter_groups, ", ").as_str());
            t.append("<br>News:\n");
            t.append(format_news_section(news).as_str());
            Reply::Markdown(t)
        },
        None => not_found_reply("Rubric", query),
    }
}

/// The text listing resource names under a heading.
pub open spec fn list_text(heading: Seq<char>, names: Seq<Seq<char>>) -> Seq<char> {
    heading + join(names, ", "@)
}

/// The reply listing the rubrics DAPNET returned, or the error when it
/// returned none.
pub fn rubric_list_reply(names: Option<&Vec<String>>) -> (r: Result<Reply, BotError>)
    ensures
        match names {
            Some(v) => r matches Ok(x) && x.is_markdown_text(
                list_text("**Rubrics**: "@, v.deep_view()),
            ),
            None => r matches Err(e) && e@ == BotErrorView::RubricsUnavailable,
        },
{
    match names {
        Some(v) => {
            let mut t = String::from_str("**Rubrics**: ");
            t.append(join_strings(v, ", ").as_str());
            Ok(Reply::Markdown(t))
        },
        None => Err(BotError::RubricsUnavailable),
    }
}

/// The reply listing the transmitter groups DAPNET returned, or the error
/// when it returned none.
pub fn transmitter_group_list_reply(names: Option<&Vec<String>>) -> (r: Result<Reply, BotError>)
    ensures
        match names {
            Some(v) => r matches Ok(x) && x.is_markdown_text(
                list_text("**Transmitter Groups**: "@, v.deep_view()),
            ),
            None => r matches Err(e) && e@ == BotErrorView::TransmitterGroupsUnavailable,
        },
{
    match names {
        Some(v) => {
            let mut t = String::from_str("**Transmitter Groups**: ");
            t.append(join_strings(v, ", ").as_str());
            Ok(Reply::Markdown(t))
        },
        None => Err(BotError::TransmitterGroupsUnavailable),
    }
}

/// Network statistics as DAPNET reports them.
#[derive(Clone, Copy, Debug)]
pub struct StatisticsInfo {
    pub users: i64,
    pub callsigns: i64,
    pub calls: i64,
    pub calls_total: i64,
    pub nodes_online: i64,
    pub nodes_total: i64,
    pub transmitters_online: i64,
    pub transmitters_total: i64,
    pub rubrics: i64,
    pub news: i64,
    pub news_total: i64,
}

/// The text summarising network statistics.
pub open spec fn statistics_text(s: StatisticsInfo) -> Seq<char> {
    "**Statistics**<br>Calls: "@ + signed_decimal(s.calls as int) + "<br>Callsigns: "@
        + signed_decimal(s.callsigns as int) + "<br>News: "@ + signed_decimal(s.news as int)
        + "<br>Rubrics: "@ + signed_decimal(s.rubrics as int) + "<br>Transmitters online: "@
        + signed_decimal(s.transmitters_online as int) + "/"@ + signed_decimal(
        s.transmitters_total as int,
    ) + "<br>Nodes online: "@ + signed_decimal(s.nodes_online as int) + "/"@ + signed_decimal(
        s.nodes_total as int,
    ) + "<br>Users: "@ + signed_decimal(s.users as int)
}

/// The reply summarising the statistics DAPNET returned, or the error when it
/// returned none.
pub fn statistics_reply(stats: Option<&StatisticsInfo>) -> (r: Result<Reply, BotError>)
    ensures
        match stats {
            Some(s) => r matches Ok(x) && x.is_markdown_text(statistics_text(*s)),
            None => r matches Err(e) && e@ == BotErrorView::StatisticsUnavailable,
        },
{
    match stats {
        Some(s) => {
            let mut t = String::from_str("**Statistics**<br>Calls: ");
            t.append(format_i64(s.calls).as_str());
            t.append("<br>Callsigns: ");
            t.append(format_i64(s.callsigns).as_str());
            t.append("<br>News: ");
            t.append(format_i64(s.news).as_str());
            t.append("<br>Rubrics: ");
            t.append(format_i64(s.rubrics).as_str());
            t.append("<br>Transmitters online: ");
            t.append(format_i64(s.transmitters_online).as_str());
            t.append("/");
            t.append(format_i64(s.transmitters_total).as_str());
            t.append("<br>Nodes online: ");
            t.append(format_i64(s.nodes_online).as_str());
            t.append("/");
            t.append(format_i64(s.nodes_total).as_str());
            t.append("<br>Users: ");
            t.append(format_i64(s.users).as_str());
            Ok(Reply::Markdown(t))
        },
        None => Err(BotError::StatisticsUnavailable),
    }
}

} // verus!
