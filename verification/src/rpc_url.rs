//! Classification of RPC endpoint URLs into HTTP and WebSocket transports.
use vstd::prelude::*;
use crate::parse::str_equal;
use crate::text::chars_of;

verus! {

/// What `reqwest::Url::parse` gives for `input`: the URL's scheme and its
/// serialization, or the text of the parse error.
pub uninterp spec fn url_parse(input: Seq<char>) -> Result<(Seq<char>, Seq<char>), Seq<char>>;

/// The parts of a parsed URL that the node's logic reads.
pub struct ParsedUrl {
    /// The scheme, as the URL parser reports it (lower case, no `:`).
    pub scheme: String,
    /// The normalized URL text.
    pub serialization: String,
}

/// Parses `input` with `reqwest::Url::parse` (the `url` crate's WHATWG URL
/// parser). The contract claims only that the outcome is the one named
/// `url_parse(input)`: the scheme and serialization of the parsed URL, or the
/// display text of the parse error. The parser itself is not restated.
#[verifier::external_body]
pub(crate) fn parse_url(input: &str) -> (r: Result<ParsedUrl, String>)
    ensures
        match r {
            Ok(u) => url_parse(input@) == Ok::<(Seq<char>, Seq<char>), Seq<char>>((u.scheme@, u.serialization@)),
            Err(e) => url_parse(input@) == Err::<(Seq<char>, Seq<char>), Seq<char>>(e@),
        },
{
    match reqwest::Url::parse(input) {
        Ok(url) => Ok(ParsedUrl { scheme: url.scheme().to_string(), serialization: url.as_str().to_string() }),
        Err(error) => Err(error.to_string()),
    }
}

/// Whether `c` is white space in the sense of `char::is_whitespace`
/// (the Unicode `White_Space` property).
pub open spec fn is_whitespace(c: char) -> bool {
    ||| c == '\t' || c == '\n' || c == '\u{0B}' || c == '\u{0C}' || c == '\r' || c == ' '
    ||| c == '\u{85}' || c == '\u{A0}' || c == '\u{1680}'
    ||| ('\u{2000}' <= c && c <= '\u{200A}')
    ||| c == '\u{2028}' || c == '\u{2029}' || c == '\u{202F}' || c == '\u{205F}' || c == '\u{3000}'
}

/// `s` holds nothing but white space (so `s.trim()` is empty).
pub open spec fn is_blank(s: Seq<char>) -> bool {
    forall|i: int| 0 <= i < s.len() ==> is_whitespace(#[trigger] s[i])
}

fn whitespace(c: char) -> (r: bool)
    ensures
        r == is_whitespace(c),
{
    c == '\t' || c == '\n' || c == '\u{0B}' || c == '\u{0C}' || c == '\r' || c == ' '
        || c == '\u{85}' || c == '\u{A0}' || c == '\u{1680}'
        || ('\u{2000}' <= c && c <= '\u{200A}')
        || c == '\u{2028}' || c == '\u{2029}' || c == '\u{202F}' || c == '\u{205F}' || c == '\u{3000}'
}

/// Whether `s.trim().is_empty()`.
pub fn blank(s: &str) -> (r: bool)
    ensures
        r == is_blank(s@),
{
    let cs = chars_of(s);
    let mut i: usize = 0;
    while i < cs.len()
        invariant
            i <= cs@.len(),
            cs@ == s@,
            forall|j: int| 0 <= j < i ==> is_whitespace(#[trigger] cs@[j]),
        decreases cs@.len() - i,
    {
        if !whitespace(cs[i]) {
            return false;
        }
        i = i + 1;
    }
    true
}

pub open spec fn is_http_scheme(scheme: Seq<char>) -> bool {
    scheme == "http"@ || scheme == "https"@
}

pub open spec fn is_ws_scheme(scheme: Seq<char>) -> bool {
    scheme == "ws"@ || scheme == "wss"@
}

pub fn http_scheme(scheme: &str) -> (r: bool)
    ensures
        r == is_http_scheme(scheme@),
{
    str_equal(scheme, "http") || str_equal(scheme, "https")
}

pub fn ws_scheme(scheme: &str) -> (r: bool)
    ensures
        r == is_ws_scheme(scheme@),
{
    str_equal(scheme, "ws") || str_equal(scheme, "wss")
}

/// How a node talks to an RPC endpoint; each variant holds the normalized URL.
#[derive(Debug)]
pub enum RpcTransport {
    Http(String),
    WebSocket(String),
}

/// Why an RPC URL was refused; `source` names the setting it came from.
#[derive(Debug)]
pub enum RpcUrlError {
    Empty { source: String },
    Invalid { source: String, detail: String },
    UnsupportedScheme { source: String, scheme: String },
}

impl RpcUrlError {
    pub open spec fn message_spec(&self) -> Seq<char> {
        match self {
            RpcUrlError::Empty { source } => source@ + " must not be empty"@,
            RpcUrlError::Invalid { source, detail } => source@ + " must be a valid URL: "@ + detail@,
            RpcUrlError::UnsupportedScheme { source, scheme } =>
                source@ + " must use the http, https, ws or wss scheme, got '"@ + scheme@ + "'"@,
        }
    }

    /// The error's text.
    pub fn message(&self) -> (r: String)
        ensures
            r@ == self.message_spec(),
    {
        match self {
            RpcUrlError::Empty { source } => {
                let mut m = source.clone();
                m.append(" must not be empty");
                proof { reveal_strlit(" must not be empty"); }
                m
            },
            RpcUrlError::Invalid { source, detail } => {
                let mut m = source.clone();
                m.append(" must be a valid URL: ");
                m.append(detail.as_str());
                proof { reveal_strlit(" must be a valid URL: "); }
                m
            },
            RpcUrlError::UnsupportedScheme { source, scheme } => {
                let mut m = source.clone();
                m.append(" must use the http, https, ws or wss scheme, got '");
                m.append(scheme.as_str());
                m.append("'");
                proof {
                    reveal_strlit(" must use the http, https, ws or wss scheme, got '");
                    reveal_strlit("'");
                }
                m
            },
        }
    }
}

/// A parse outcome as plain values: the scheme and serialization, or the
/// error text.
pub open spec fn parsed_view(parsed: Result<ParsedUrl, String>) -> Result<(Seq<char>, Seq<char>), Seq<char>> {
    match parsed {
        Ok(u) => Ok((u.scheme@, u.serialization@)),
        Err(e) => Err(e@),
    }
}

/// The transport for a parsed URL, as the variant's kind (`true` for
/// WebSocket) and the normalized URL; `None` for a URL that did not parse or
/// has another scheme.
pub open spec fn transport_of(parsed: Result<(Seq<char>, Seq<char>), Seq<char>>) -> Option<(bool, Seq<char>)> {
    match parsed {
        Ok((scheme, serialization)) =>
            if is_http_scheme(scheme) {
                Some((false, serialization))
            } else if is_ws_scheme(scheme) {
                Some((true, serialization))
            } else {
                None
            },
        Err(_) => None,
    }
}

/// The transport `parse_rpc_transport` picks for `url`, as the variant's
/// kind (`true` for WebSocket) and the normalized URL.
pub open spec fn rpc_transport_spec(url: Seq<char>) -> Option<(bool, Seq<char>)> {
    if is_blank(url) {
        None
    } else {
        transport_of(url_parse(url))
    }
}

/// Decides the transport for a URL that went through the parser: HTTP for
/// `http`/`https`, WebSocket for `ws`/`wss`; a URL that did not parse, and one
/// with any other scheme, are refused, with `source` naming the setting.
pub fn transport_from_parsed(source: &str, parsed: Result<ParsedUrl, String>) -> (r: Result<RpcTransport, RpcUrlError>)
    ensures
        match parsed {
            Err(d) => r matches Err(RpcUrlError::Invalid { source: s, detail }) && s@ == source@ && detail@ == d@,
            Ok(u) => if is_http_scheme(u.scheme@) {
                r matches Ok(RpcTransport::Http(v)) && v@ == u.serialization@
            } else if is_ws_scheme(u.scheme@) {
                r matches Ok(RpcTransport::WebSocket(v)) && v@ == u.serialization@
            } else {
                r matches Err(RpcUrlError::UnsupportedScheme { source: s, scheme }) && s@ == source@
                    && scheme@ == u.scheme@
            },
        },
{
    match parsed {
        Err(detail) => Err(RpcUrlError::Invalid { source: String::from_str(source), detail }),
        Ok(parsed) => {
            if http_scheme(parsed.scheme.as_str()) {
                Ok(RpcTransport::Http(parsed.serialization))
            } else if ws_scheme(parsed.scheme.as_str()) {
                Ok(RpcTransport::WebSocket(parsed.serialization))
            } else {
                Err(RpcUrlError::UnsupportedScheme { source: String::from_str(source), scheme: parsed.scheme })
            }
        },
    }
}

/// Decides how to reach the RPC endpoint `url`: HTTP for `http`/`https`,
/// WebSocket for `ws`/`wss`. A blank URL, one that does not parse, and one
/// with any other scheme are refused; `source` names the setting in the
/// error.
pub fn parse_rpc_transport(source: &str, url: &str) -> (r: Result<RpcTransport, RpcUrlError>)
    ensures
        match r {
            Ok(RpcTransport::Http(u)) => rpc_transport_spec(url@) == Some((false, u@)),
            Ok(RpcTransport::WebSocket(u)) => rpc_transport_spec(url@) == Some((true, u@)),
            Err(RpcUrlError::Empty { source: s }) => s@ == source@ && is_blank(url@),
            Err(RpcUrlError::Invalid { source: s, detail }) => s@ == source@ && !is_blank(url@)
                && url_parse(url@) == Err::<(Seq<char>, Seq<char>), Seq<char>>(detail@),
            Err(RpcUrlError::UnsupportedScheme { source: s, scheme }) => s@ == source@ && !is_blank(url@)
                && url_parse(url@) is Ok && url_parse(url@)->Ok_0.0 == scheme@
                && !is_http_scheme(scheme@) && !is_ws_scheme(scheme@),
        },
        r is Ok <==> rpc_transport_spec(url@) is Some,
{
    if blank(url) {
        return Err(RpcUrlError::Empty { source: String::from_str(source) });
    }
    transport_from_parsed(source, parse_url(url))
}

} // verus!
