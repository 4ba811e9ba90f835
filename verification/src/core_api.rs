//! Talking to the core: what is asked, what is sent, and what an answer means.
use crate::json;
use crate::json::Json;
use vstd::prelude::*;
use vstd::string::*;

verus! {

/// The address of the core's control interface.
pub const CORE_API: &'static str = "http://127.0.0.1:9090";

/// How long a request to the core may take, in seconds.
pub const CORE_TIMEOUT_SECS: u64 = 3;

/// The proxy that the core offers; the delay is measured through it.
pub const PROBE_PROXY: &'static str = "http://127.0.0.1:7890";

/// The page that is fetched to measure the delay.
pub const PROBE_URL: &'static str = "https://cp.cloudflare.com/generate_204";

/// How long that page may take, in milliseconds.
pub const PROBE_TIMEOUT_MS: u64 = 5000;

/// The group of the core whose current choice names the mode in the tooltip.
pub const MODE_GROUP: &'static str = "总体模式";

/// How often the tooltip is brought up to date by itself, in seconds.
pub const TOOLTIP_PERIOD_SECS: u64 = 30;

/// The address of the core's configuration.
pub fn configs_url() -> (url: String)
    ensures
        url@ == CORE_API@ + "/configs"@,
{
    String::from_str(CORE_API).concat("/configs")
}

/// The address of the core's proxy groups.
pub fn proxies_url() -> (url: String)
    ensures
        url@ == CORE_API@ + "/proxies"@,
{
    String::from_str(CORE_API).concat("/proxies")
}

/// What came of a request to the core.
pub enum CoreReply {
    /// No answer: the request could not be made, or it failed or timed out.
    Unreachable,
    /// An answer with this status; its body, unless that could not be read.
    Answer { status: u16, body: Option<Vec<u8>> },
}

/// Whether an HTTP status reports success.
pub open spec fn is_success(status: u16) -> bool {
    200 <= status < 300
}

/// The document that a reply carries: the body of a successful answer, if it is JSON.
pub open spec fn document_of(reply: CoreReply) -> Option<Json> {
    match reply {
        CoreReply::Answer { status, body: Some(body) } => if is_success(status) {
            json::json_parsed(body@)
        } else {
            None
        },
        _ => None,
    }
}

/// Whether the core's configuration has TUN switched on: `tun.enable` is `true`.
pub open spec fn tun_is_on(config: Json) -> bool {
    config.member("tun"@) matches Some(tun) && tun.member("enable"@) == Some(Json::Bool(true))
}

/// The document that a reply carries, as `serde_json` holds it.
fn read_document(reply: &CoreReply) -> (doc: Option<serde_json::Value>)
    ensures
        match doc {
            Some(value) => document_of(*reply) == Some(json::json_of(value)),
            None => document_of(*reply) is None,
        },
{
    match reply {
        CoreReply::Answer { status, body: Some(body) } => {
            if 200 <= *status && *status < 300 {
                match json::parse_json(body.as_slice()) {
                    Ok(value) => Some(value),
                    Err(_) => None,
                }
            } else {
                None
            }
        },
        _ => None,
    }
}

/// Whether a configuration document has TUN switched on. A member that is missing, or is not what
/// it should be, counts as off.
pub fn tun_flag(config: &serde_json::Value) -> (on: bool)
    ensures
        on == tun_is_on(json::json_of(*config)),
{
    match json::json_member(config, "tun") {
        Some(tun) => match json::json_member(tun, "enable") {
            Some(enable) => flag_or_off(json::json_bool(enable)),
            None => false,
        },
        None => false,
    }
}

/// A flag that was read; one that is no boolean counts as off.
pub fn flag_or_off(flag: Option<bool>) -> (on: bool)
    ensures
        on == (flag == Some(true)),
{
    match flag {
        Some(value) => value,
        None => false,
    }
}

/// Whether TUN is on, from the core's reply to a request for its configuration. No answer, a
/// status other than success, and a body that is not JSON count as off.
pub fn tun_enabled(reply: &CoreReply) -> (on: bool)
    ensures
        on == (document_of(*reply) matches Some(config) && tun_is_on(config)),
{
    match read_document(reply) {
        Some(config) => tun_flag(&config),
        None => false,
    }
}

/// The document that asks the core to switch TUN on or off.
pub open spec fn tun_request(enabled: bool) -> Json {
    Json::Object(map!["tun"@ => Json::Object(map!["enable"@ => Json::Bool(enabled)])])
}

/// The body that asks the core to switch TUN on or off. It reads as a configuration in which TUN
/// is in that state.
pub fn set_tun(enabled: bool) -> (body: Vec<u8>)
    ensures
        body@ == json::json_text(tun_request(enabled)),
        json::json_parsed(body@) == Some(tun_request(enabled)),
{
    let inner: serde_json::Value = json::new_object("enable", json::new_bool(enabled));
    let request: serde_json::Value = json::new_object("tun", inner);
    assert(json::json_of(request) == tun_request(enabled));
    assert(tun_request(enabled).is_flag_table());
    match json::write_json(&request) {
        Ok(body) => body,
        Err(_) => Vec::new(),
    }
}

/// The choice that the mode group stands at: `proxies.总体模式.now`, where that is a string.
pub open spec fn group_choice(groups: Json) -> Option<Seq<char>> {
    match groups.member("proxies"@) {
        Some(all) => match all.member(MODE_GROUP@) {
            Some(group) => match group.member("now"@) {
                Some(Json::Text(name)) => Some(name),
                _ => None,
            },
            None => None,
        },
        None => None,
    }
}

/// The name that the mode group gives the mode, in a document of proxy groups.
pub fn group_now(groups: &serde_json::Value) -> (name: Option<String>)
    ensures
        match name {
            Some(text) => group_choice(json::json_of(*groups)) == Some(text@),
            None => group_choice(json::json_of(*groups)) is None,
        },
{
    match json::json_member(groups, "proxies") {
        Some(all) => match json::json_member(all, MODE_GROUP) {
            Some(group) => match json::json_member(group, "now") {
                Some(now) => match json::json_str(now) {
                    Some(name) => Some(String::from_str(name)),
                    None => None,
                },
                None => None,
            },
            None => None,
        },
        None => None,
    }
}

/// The name that a reply gives the mode, where there is one.
pub open spec fn mode_title_of(reply: CoreReply) -> Option<Seq<char>> {
    match document_of(reply) {
        Some(groups) => group_choice(groups),
        None => None,
    }
}

/// The name of the mode, from the core's reply to a request for its proxy groups.
pub fn mode_title(reply: &CoreReply) -> (name: Option<String>)
    ensures
        match name {
            Some(text) => mode_title_of(*reply) == Some(text@),
            None => mode_title_of(*reply) is None,
        },
{
    match read_document(reply) {
        Some(groups) => group_now(&groups),
        None => None,
    }
}

/// The decimal digits of `n`.
pub open spec fn decimal(n: nat) -> Seq<char>
    decreases n,
{
    if n < 10 {
        seq![digit_char(n)]
    } else {
        decimal(n / 10).push(digit_char(n % 10))
    }
}

/// The digit for `d`, which is below ten.
pub open spec fn digit_char(d: nat) -> char {
    ('0' as u32 + d) as char
}

fn digit_text(d: u64) -> (text: &'static str)
    requires
        d < 10,
    ensures
        text@ == seq![digit_char(d as nat)],
{
    proof {
        reveal_strlit("0");
        reveal_strlit("1");
        reveal_strlit("2");
        reveal_strlit("3");
        reveal_strlit("4");
        reveal_strlit("5");
        reveal_strlit("6");
        reveal_strlit("7");
        reveal_strlit("8");
        reveal_strlit("9");
    }
    match d {
        0 => "0",
        1 => "1",
        2 => "2",
        3 => "3",
        4 => "4",
        5 => "5",
        6 => "6",
        7 => "7",
        8 => "8",
        _ => "9",
    }
}

/// `n` in decimal digits.
fn decimal_text(n: u64) -> (text: String)
    ensures
        text@ == decimal(n as nat),
    decreases n,
{
    if n < 10 {
        String::from_str(digit_text(n))
    } else {
        let text: String = decimal_text(n / 10).concat(digit_text(n % 10));
        assert(text@ =~= decimal((n / 10) as nat).push(digit_char((n % 10) as nat)));
        text
    }
}

/// How a delay reads: `123ms`, or `FALSE` where the page did not come in time.
pub open spec fn delay_text_of(delay_ms: Option<u64>) -> Seq<char> {
    match delay_ms {
        Some(ms) => if ms <= PROBE_TIMEOUT_MS {
            decimal(ms as nat) + "ms"@
        } else {
            "FALSE"@
        },
        None => "FALSE"@,
    }
}

/// The tooltip that names the mode and the delay that was measured for it.
pub fn delay_tooltip(name: &str, delay_ms: Option<u64>) -> (text: String)
    ensures
        text@ == name@ + " "@ + delay_text_of(delay_ms),
{
    let start: String = String::from_str(name).concat(" ");
    match delay_ms {
        Some(ms) => if ms <= PROBE_TIMEOUT_MS {
            let text: String = start.concat(decimal_text(ms).as_str()).concat("ms");
            assert(text@ =~= name@ + " "@ + delay_text_of(delay_ms));
            text
        } else {
            start.concat("FALSE")
        },
        None => start.concat("FALSE"),
    }
}

} // verus!
