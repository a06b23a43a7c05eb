//! The grammar of endpoint descriptors: `tcp://host:port` or bare
//! `host:port`; `serial:///path?baud=N&timeout_ms=N` or a bare path;
//! `ws://host:port/path` or `wss://...`.

use vstd::prelude::*;
use vstd::string::StringExecFns;
use crate::error::CoreError;
use crate::serial::{SerialOptions, DEFAULT_BAUD, DEFAULT_TIMEOUT_MS};
use crate::text::{
    begins_with, chars_of, find, parse_u32, parse_u64, parsed_u32, parsed_u64, position, string_of,
};

verus! {

/// What an endpoint descriptor leads to.
#[derive(Debug, Clone)]
pub enum Endpoint {
    /// A WebSocket, by its URL.
    WebSocket(String),
    /// A TCP peer, by its socket address.
    Tcp(String),
    /// A serial port, by its path and options.
    Serial { path: String, options: SerialOptions },
}

/// Mathematical value of an [`Endpoint`].
pub enum Target {
    WebSocket(Seq<char>),
    Tcp(Seq<char>),
    Serial {
        path: Seq<char>,
        baud: u32,
        timeout_ms: u64,
        parity: Option<Seq<char>>,
        flow_control: Option<Seq<char>>,
    },
}

/// The text of an optional setting.
pub open spec fn setting_text(setting: Option<String>) -> Option<Seq<char>> {
    match setting {
        Some(text) => Some(text@),
        None => None,
    }
}

impl View for Endpoint {
    type V = Target;

    open spec fn view(&self) -> Target {
        match self {
            Endpoint::WebSocket(url) => Target::WebSocket(url@),
            Endpoint::Tcp(address) => Target::Tcp(address@),
            Endpoint::Serial { path, options } => Target::Serial {
                path: path@,
                baud: options.baud,
                timeout_ms: options.timeout_ms,
                parity: setting_text(options.parity),
                flow_control: setting_text(options.flow_control),
            },
        }
    }
}

/// The parts of a URL that the grammar reads.
#[derive(Debug, Clone)]
pub struct Locator {
    pub path: String,
    /// The pairs of the query, decoded, in their order.
    pub query: Vec<(String, String)>,
}

/// Whether `Url::parse` of the `url` crate accepts the text.
pub uninterp spec fn url_parses(text: Seq<char>) -> bool;

/// The path, as `Url::path` returns it, of the URL that the text parses to.
pub uninterp spec fn url_path(text: Seq<char>) -> Seq<char>;

/// The decoded pairs, as `Url::query_pairs` yields them, of the URL that
/// the text parses to.
pub uninterp spec fn url_query(text: Seq<char>) -> Seq<(Seq<char>, Seq<char>)>;

/// The texts of a sequence of pairs.
pub open spec fn pair_texts(pairs: Seq<(String, String)>) -> Seq<(Seq<char>, Seq<char>)> {
    Seq::new(pairs.len(), |i: int| (pairs[i].0@, pairs[i].1@))
}

/// Calls `Url::parse` of the `url` crate and copies out the path
/// (`Url::path`) and the decoded query pairs (`Url::query_pairs`) of the
/// result. Trusted: the outcome is the one that [`url_parses`],
/// [`url_path`] and [`url_query`] name; nothing is claimed of what they are.
#[verifier::external_body]
pub(crate) fn parse_url(text: &str) -> (locator: Option<Locator>)
    ensures
        locator is Some == url_parses(text@),
        locator matches Some(found) ==> found.path@ == url_path(text@),
        locator matches Some(found) ==> pair_texts(found.query@) == url_query(text@),
{
    match url::Url::parse(text) {
        Ok(parsed) => Some(
            Locator {
                path: parsed.path().to_string(),
                query: parsed.query_pairs().map(
                    |(key, value)| (key.into_owned(), value.into_owned()),
                ).collect(),
            },
        ),
        Err(_) => None,
    }
}

/// Whether `mark` occurs in `text`.
pub open spec fn has(text: Seq<char>, mark: char) -> bool {
    position(text, mark) < text.len()
}

/// `text` without the `tcp://` prefixes that it begins with. (That the
/// prefix is not empty is what lets the definition come to an end.)
pub open spec fn without_tcp_scheme(text: Seq<char>) -> Seq<char>
    decreases text.len(),
{
    if "tcp://"@.is_prefix_of(text) && "tcp://"@.len() > 0 {
        without_tcp_scheme(text.skip("tcp://"@.len() as int))
    } else {
        text
    }
}

/// The serial settings after one pair of a query: `baud` and `timeout_ms`
/// set the rate and the timeout where their value is a number of the right
/// size; every other pair, and a value that is no such number, changes
/// nothing.
pub open spec fn after_setting(
    settings: (u32, u64),
    key: Seq<char>,
    baud: Option<u32>,
    timeout_ms: Option<u64>,
) -> (u32, u64) {
    if key == "baud"@ {
        match baud {
            Some(rate) => (rate, settings.1),
            None => settings,
        }
    } else if key == "timeout_ms"@ {
        match timeout_ms {
            Some(timeout) => (settings.0, timeout),
            None => settings,
        }
    } else {
        settings
    }
}

/// The serial settings after the pairs of a query, applied in order to the
/// defaults.
pub open spec fn settings_of(pairs: Seq<(Seq<char>, Seq<char>)>) -> (u32, u64)
    decreases pairs.len(),
{
    if pairs.len() == 0 {
        (DEFAULT_BAUD, DEFAULT_TIMEOUT_MS)
    } else {
        after_setting(
            settings_of(pairs.drop_last()),
            pairs.last().0,
            parsed_u32(pairs.last().1),
            parsed_u64(pairs.last().1),
        )
    }
}

/// The name of the device in the path of a URL: the path without the one
/// slash that it may begin with. That slash parts the path from what stands
/// before it in the URL and is no part of the name, so that `serial:///COM3`
/// names `COM3`. A path of the file system is written with its own slash
/// behind it, as in `serial:////dev/ttyUSB0`, or bare.
pub open spec fn device_path(url_path: Seq<char>) -> Seq<char> {
    if url_path.len() > 0 && url_path[0] == '/' {
        url_path.skip(1)
    } else {
        url_path
    }
}

/// The serial endpoint that a URL with this path and this query names. No
/// descriptor sets parity or flow control.
pub open spec fn serial_target(path: Seq<char>, query: Seq<(Seq<char>, Seq<char>)>) -> Target {
    Target::Serial {
        path: device_path(path),
        baud: settings_of(query).0,
        timeout_ms: settings_of(query).1,
        parity: None,
        flow_control: None,
    }
}

/// The text that is parsed for a serial endpoint: the descriptor itself
/// where it is a URL, else the descriptor behind `serial://`.
pub open spec fn serial_url(endpoint: Seq<char>) -> Seq<char> {
    if url_parses(endpoint) {
        endpoint
    } else {
        "serial://"@ + endpoint
    }
}

/// Whether a serial descriptor is read as a URL: it begins with `serial://`
/// or carries a query.
pub open spec fn reads_as_url(endpoint: Seq<char>) -> bool {
    "serial://"@.is_prefix_of(endpoint) || has(endpoint, '?')
}

/// The kinds of channel.
pub enum Kind {
    WebSocket,
    Tcp,
    Serial,
}

/// The kind of channel that a descriptor names: a `ws://` or `wss://` URL is
/// a WebSocket; `tcp://` is TCP; `serial://` and an absolute path are
/// serial; of the rest, what holds a colon is a bare `host:port`, hence TCP,
/// and anything else a serial path.
pub open spec fn kind_of(endpoint: Seq<char>) -> Kind {
    if "ws://"@.is_prefix_of(endpoint) || "wss://"@.is_prefix_of(endpoint) {
        Kind::WebSocket
    } else if "tcp://"@.is_prefix_of(endpoint) {
        Kind::Tcp
    } else if "serial://"@.is_prefix_of(endpoint) || "/"@.is_prefix_of(endpoint) {
        Kind::Serial
    } else if has(endpoint, ':') {
        Kind::Tcp
    } else {
        Kind::Serial
    }
}

/// What a descriptor leads to, or nothing where it reads as a URL and is
/// none.
pub open spec fn resolved(endpoint: Seq<char>) -> Option<Target> {
    match kind_of(endpoint) {
        Kind::WebSocket => Some(Target::WebSocket(endpoint)),
        Kind::Tcp => Some(Target::Tcp(without_tcp_scheme(endpoint))),
        Kind::Serial => if !reads_as_url(endpoint) {
            Some(
                Target::Serial {
                    path: endpoint,
                    baud: DEFAULT_BAUD,
                    timeout_ms: DEFAULT_TIMEOUT_MS,
                    parity: None,
                    flow_control: None,
                },
            )
        } else if url_parses(serial_url(endpoint)) {
            Some(
                serial_target(url_path(serial_url(endpoint)), url_query(serial_url(endpoint))),
            )
        } else {
            None
        },
    }
}

/// The error that refuses a descriptor.
pub open spec fn refuses(error: CoreError) -> bool {
    error matches CoreError::Config(detail) && detail@ == "not a serial endpoint"@
}

/// Whether two texts are the same.
pub fn same_text(left: &str, right: &str) -> (same: bool)
    ensures
        same == (left@ == right@),
{
    let left = chars_of(left);
    let right = chars_of(right);
    let same = left.len() == right.len() && begins_with(&left, &right);
    proof {
        if same {
            assert(left@.subrange(0, right@.len() as int) =~= left@);
        }
    }
    same
}

/// Applies one pair of a query to the serial settings, given the numbers
/// that its value reads as.
pub fn apply_setting(
    settings: (u32, u64),
    key: &str,
    baud: Option<u32>,
    timeout_ms: Option<u64>,
) -> (updated: (u32, u64))
    ensures
        updated == after_setting(settings, key@, baud, timeout_ms),
{
    if same_text(key, "baud") {
        match baud {
            Some(rate) => (rate, settings.1),
            None => settings,
        }
    } else if same_text(key, "timeout_ms") {
        match timeout_ms {
            Some(timeout) => (settings.0, timeout),
            None => settings,
        }
    } else {
        settings
    }
}

/// The serial endpoint that the parts of a URL name: the path without its
/// leading slash, and the settings that the query makes of the defaults.
pub fn serial_endpoint(locator: &Locator) -> (endpoint: Endpoint)
    ensures
        endpoint@ == serial_target(locator.path@, pair_texts(locator.query@)),
{
    let path = chars_of(locator.path.as_str());
    let from: usize = if path.len() > 0 && path[0] == '/' {
        1
    } else {
        0
    };
    let device = string_of(&path, from, path.len());
    proof {
        assert(path@.subrange(from as int, path@.len() as int) =~= device_path(path@));
    }
    let ghost pairs = pair_texts(locator.query@);
    let mut settings: (u32, u64) = (DEFAULT_BAUD, DEFAULT_TIMEOUT_MS);
    let mut at: usize = 0;
    proof {
        assert(pairs.take(0) =~= Seq::<(Seq<char>, Seq<char>)>::empty());
    }
    while at < locator.query.len()
        invariant
            at <= locator.query@.len(),
            pairs == pair_texts(locator.query@),
            settings == settings_of(pairs.take(at as int)),
        decreases locator.query@.len() - at,
    {
        let key = locator.query[at].0.as_str();
        let value = locator.query[at].1.as_str();
        proof {
            assert(pairs.take(at + 1).drop_last() =~= pairs.take(at as int));
            assert(pairs.take(at + 1).last() == pairs[at as int]);
        }
        settings = apply_setting(settings, key, parse_u32(value), parse_u64(value));
        at += 1;
    }
    proof {
        assert(pairs.take(pairs.len() as int) =~= pairs);
    }
    Endpoint::Serial { path: device, options: SerialOptions::new(settings.0, settings.1) }
}

/// The address of a TCP descriptor: the descriptor without the `tcp://`
/// prefixes that it begins with.
pub fn tcp_address(endpoint: &Vec<char>) -> (address: String)
    ensures
        address@ == without_tcp_scheme(endpoint@),
{
    let scheme = chars_of("tcp://");
    proof {
        reveal_strlit("tcp://");
    }
    let mut rest = string_of(endpoint, 0, endpoint.len());
    let mut rest_chars = chars_of(rest.as_str());
    proof {
        assert(endpoint@.subrange(0, endpoint@.len() as int) =~= endpoint@);
    }
    while begins_with(&rest_chars, &scheme)
        invariant
            scheme@ == "tcp://"@,
            scheme@.len() == 6,
            rest@ == rest_chars@,
            without_tcp_scheme(endpoint@) == without_tcp_scheme(rest_chars@),
        decreases rest_chars@.len(),
    {
        rest = string_of(&rest_chars, scheme.len(), rest_chars.len());
        proof {
            assert(rest_chars@.subrange(6, rest_chars@.len() as int) =~= rest_chars@.skip(6));
        }
        rest_chars = chars_of(rest.as_str());
    }
    rest
}

/// Resolves an endpoint descriptor. Fails with `Config` where the
/// descriptor reads as a URL and is none.
pub fn resolve(endpoint: &str) -> (outcome: Result<Endpoint, CoreError>)
    ensures
        match outcome {
            Ok(found) => resolved(endpoint@) == Some(found@),
            Err(error) => resolved(endpoint@) is None && refuses(error),
        },
{
    let chars = chars_of(endpoint);
    let ws = chars_of("ws://");
    let wss = chars_of("wss://");
    let tcp = chars_of("tcp://");
    let serial = chars_of("serial://");
    let slash = chars_of("/");
    if begins_with(&chars, &ws) || begins_with(&chars, &wss) {
        return Ok(Endpoint::WebSocket(String::from_str(endpoint)));
    }
    if begins_with(&chars, &tcp) {
        return Ok(Endpoint::Tcp(tcp_address(&chars)));
    }
    let serial_scheme = begins_with(&chars, &serial);
    if !serial_scheme && !begins_with(&chars, &slash) && find(&chars, ':') < chars.len() {
        proof {
            reveal_strlit("tcp://");
        }
        return Ok(Endpoint::Tcp(String::from_str(endpoint)));
    }
    if !serial_scheme && find(&chars, '?') >= chars.len() {
        return Ok(
            Endpoint::Serial {
                path: String::from_str(endpoint),
                options: SerialOptions::new(DEFAULT_BAUD, DEFAULT_TIMEOUT_MS),
            },
        );
    }
    match parse_url(endpoint) {
        Some(locator) => Ok(serial_endpoint(&locator)),
        None => {
            let behind_scheme = String::from_str("serial://").concat(endpoint);
            match parse_url(behind_scheme.as_str()) {
                Some(locator) => Ok(serial_endpoint(&locator)),
                None => Err(CoreError::Config(String::from_str("not a serial endpoint"))),
            }
        },
    }
}

} // verus!
