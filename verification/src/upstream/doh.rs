//! DNS over HTTPS.

use crate::net::{parsed_ip, read_ip, socket_addr, IpAddr, SocketAddr};
use crate::text::{opt_text, same};
use crate::upstream::endpoint::{default_bootstrap_resolvers, default_resolvers, Endpoint, EndpointView};
use crate::upstream::error::{UpstreamResolveError, UpstreamResolveErrorView};
use crate::upstream::message::{first_question, message_head, question_result, Question};
use crate::upstream::runtime::OutboundRouting;
use base64::Engine;
use vstd::prelude::*;

verus! {

/// How long an answer may take, in seconds.
pub const DOH_TIMEOUT_SECS: u64 = 10;

/// The port of servers whose URL names none.
pub const DOH_DEFAULT_PORT: u16 = 443;

/// Credentials for a server.
#[derive(Debug)]
pub enum ZoneSourceAuth {
    Bearer(String),
    Basic { username: String, password: String },
}

// ---- URLs ----

/// The parts of a URL.
#[derive(Debug)]
pub struct UrlParts {
    pub scheme: String,
    pub host: Option<String>,
    /// The port that the URL names, unless it is the default of its scheme.
    pub port: Option<u16>,
    pub path: String,
}

/// The parts of a URL, with their texts.
pub struct UrlPartsView {
    pub scheme: Seq<char>,
    pub host: Option<Seq<char>>,
    pub port: Option<u16>,
    pub path: Seq<char>,
}

impl View for UrlParts {
    type V = UrlPartsView;

    open spec fn view(&self) -> UrlPartsView {
        UrlPartsView {
            scheme: self.scheme@,
            host: opt_text(self.host),
            port: self.port,
            path: self.path@,
        }
    }
}

/// The parts of a URL or the error, with their texts.
pub open spec fn url_result(r: Result<UrlParts, String>) -> Result<UrlPartsView, Seq<char>> {
    match r {
        Ok(u) => Ok(u@),
        Err(m) => Err(m@),
    }
}

/// What `url::Url::parse` makes of a text; the error is its text.
pub uninterp spec fn parsed_url(text: Seq<char>) -> Result<UrlPartsView, Seq<char>>;

/// `url::Url::parse`: the parts of the URL that a text is, or the text of the error. How
/// URLs are written is not stated.
#[verifier::external_body]
fn read_url(text: &str) -> (r: Result<UrlParts, String>)
    ensures
        url_result(r) == parsed_url(text@),
{
    match url::Url::parse(text) {
        Ok(u) => Ok(
            UrlParts {
                scheme: u.scheme().to_owned(),
                host: u.host_str().map(|h| h.to_owned()),
                port: u.port(),
                path: u.path().to_owned(),
            },
        ),
        Err(e) => Err(e.to_string()),
    }
}

/// Where a server is and what it is asked for.
#[derive(Debug)]
pub struct DohTarget {
    pub endpoint: Endpoint,
    pub server_name: String,
    pub path: String,
}

/// A `DohTarget` with its texts.
pub struct DohTargetView {
    pub endpoint: EndpointView,
    pub server_name: Seq<char>,
    pub path: Seq<char>,
}

impl View for DohTarget {
    type V = DohTargetView;

    open spec fn view(&self) -> DohTargetView {
        DohTargetView {
            endpoint: self.endpoint@,
            server_name: self.server_name@,
            path: self.path@,
        }
    }
}

/// What a URL names, given its parts and the address that its host is. The path of servers
/// whose URL names none is `/dns-query`.
pub open spec fn doh_target(
    url: Seq<char>,
    parts: Result<UrlPartsView, Seq<char>>,
    address: Option<IpAddr>,
) -> Result<DohTargetView, Seq<char>> {
    match parts {
        Err(m) => Err("invalid DoH URL '"@ + url + "': "@ + m),
        Ok(u) => if u.scheme != "https"@ {
            Err("DoH URL must use https scheme, got '"@ + u.scheme + "'"@)
        } else {
            match u.host {
                None => Err("DoH URL missing host"@),
                Some(host) => {
                    let port = match u.port {
                        Some(p) => p,
                        None => DOH_DEFAULT_PORT,
                    };
                    Ok(
                        DohTargetView {
                            endpoint: match address {
                                Some(ip) => EndpointView::Static(socket_addr(ip, port)),
                                None => EndpointView::Hostname { host, port },
                            },
                            server_name: host,
                            path: if u.path.len() == 0 || u.path == "/"@ {
                                "/dns-query"@
                            } else {
                                u.path
                            },
                        },
                    )
                },
            }
        },
    }
}

/// The address that the host of a URL is, given the parts of the URL.
pub open spec fn host_address(parts: Result<UrlPartsView, Seq<char>>) -> Option<IpAddr> {
    match parts {
        Ok(u) => match u.host {
            Some(host) => parsed_ip(host),
            None => None,
        },
        Err(_) => None,
    }
}

/// What a URL names.
pub open spec fn named_target(url: Seq<char>) -> Result<DohTargetView, Seq<char>> {
    doh_target(url, parsed_url(url), host_address(parsed_url(url)))
}

/// What a URL names, given its parts and the address that its host is.
pub fn target_of_url(
    url: &str,
    parts: Result<UrlParts, String>,
    address: Option<IpAddr>,
) -> (r: Result<DohTarget, UpstreamResolveError>)
    ensures
        match (doh_target(url@, url_result(parts), address), r) {
            (Ok(v), Ok(t)) => t@ == v,
            (Err(m), Err(e)) => e@ == UpstreamResolveErrorView::Protocol(m),
            _ => false,
        },
{
    let u = match parts {
        Ok(u) => u,
        Err(text) => {
            let mut m = "invalid DoH URL '".to_owned();
            m.push_str(url);
            m.push_str("': ");
            m.push_str(text.as_str());
            return Err(UpstreamResolveError::Protocol(m));
        },
    };
    if !same(u.scheme.as_str(), "https") {
        let mut m = "DoH URL must use https scheme, got '".to_owned();
        m.push_str(u.scheme.as_str());
        m.push_str("'");
        return Err(UpstreamResolveError::Protocol(m));
    }
    let host = match u.host {
        Some(h) => h,
        None => return Err(UpstreamResolveError::Protocol("DoH URL missing host".to_owned())),
    };
    let port: u16 = match u.port {
        Some(p) => p,
        None => DOH_DEFAULT_PORT,
    };
    let path = if u.path.as_str().is_empty() || same(u.path.as_str(), "/") {
        "/dns-query".to_owned()
    } else {
        u.path
    };
    let endpoint = match address {
        Some(ip) => Endpoint::Static(SocketAddr::new(ip, port)),
        None => Endpoint::Hostname { host: host.clone(), port },
    };
    Ok(DohTarget { endpoint, server_name: host, path })
}

/// What a URL names.
pub fn parse_doh_url(url: &str) -> (r: Result<DohTarget, UpstreamResolveError>)
    ensures
        match (named_target(url@), r) {
            (Ok(v), Ok(t)) => t@ == v,
            (Err(m), Err(e)) => e@ == UpstreamResolveErrorView::Protocol(m),
            _ => false,
        },
{
    let parts = read_url(url);
    let address = match &parts {
        Ok(u) => match &u.host {
            Some(host) => read_ip(host.as_str()),
            None => None,
        },
        Err(_) => None,
    };
    target_of_url(url, parts, address)
}

// ---- credentials ----

/// What base64 makes of the bytes of a text, in the standard alphabet with padding.
pub uninterp spec fn base64_text(text: Seq<char>) -> Seq<char>;

/// Whether a character can stand in the value of a header: none of the control
/// characters of ASCII can, but the tab.
pub open spec fn is_header_char(c: char) -> bool {
    c >= ' ' && c != '\x7f' || c == '\t'
}

/// Whether a text can be the value of a header.
pub open spec fn is_header_text(s: Seq<char>) -> bool {
    forall|i: int| 0 <= i < s.len() ==> is_header_char(#[trigger] s[i])
}

/// `STANDARD.encode` of base64: the text that stands for the bytes of `text`. It is made
/// of characters that can stand in a header; which ones is not stated.
#[verifier::external_body]
fn encode_base64(text: &str) -> (r: String)
    ensures
        r@ == base64_text(text@),
        is_header_text(r@),
{
    base64::engine::general_purpose::STANDARD.encode(text)
}

/// `http::header::HeaderValue::from_str`: whether a text can be the value of a header.
/// It can exactly where it holds no control character of ASCII but tabs; bytes beyond
/// ASCII are let through. The error says the same of every other text.
#[verifier::external_body]
fn check_header(text: &str) -> (r: Result<(), String>)
    ensures
        match r {
            Ok(_) => is_header_text(text@),
            Err(m) => !is_header_text(text@) && m@ == "failed to parse header value"@,
        },
{
    http::header::HeaderValue::from_str(text).map(|_| ()).map_err(|e| e.to_string())
}

/// The value of the header that carries credentials.
pub open spec fn auth_value(auth: ZoneSourceAuth) -> Seq<char> {
    match auth {
        ZoneSourceAuth::Bearer(token) => "Bearer "@ + token@,
        ZoneSourceAuth::Basic { username, password } => "Basic "@ + base64_text(
            username@ + ":"@ + password@,
        ),
    }
}

/// The value of the header that carries credentials; it fails where a header cannot hold
/// it.
pub fn build_auth_headers(auth: &ZoneSourceAuth) -> (r: Result<String, UpstreamResolveError>)
    ensures
        match r {
            Ok(v) => is_header_text(auth_value(*auth)) && v@ == auth_value(*auth),
            Err(e) => !is_header_text(auth_value(*auth)) && e@ == UpstreamResolveErrorView::Protocol(
                "invalid auth header value: "@ + "failed to parse header value"@,
            ),
        },
        *auth is Basic ==> r is Ok,
{
    let value = match auth {
        ZoneSourceAuth::Bearer(token) => {
            let mut v = "Bearer ".to_owned();
            v.push_str(token.as_str());
            v
        },
        ZoneSourceAuth::Basic { username, password } => {
            let mut pair = username.clone();
            pair.push_str(":");
            pair.push_str(password.as_str());
            let mut v = "Basic ".to_owned();
            let encoded = encode_base64(pair.as_str());
            proof {
                reveal_strlit("Basic ");
            }
            v.push_str(encoded.as_str());
            assert forall|i: int| 0 <= i < v@.len() implies is_header_char(#[trigger] v@[i]) by {
                if i >= 6 {
                    assert(v@[i] == encoded@[i - 6]);
                }
            }
            v
        },
    };
    match check_header(value.as_str()) {
        Ok(_) => Ok(value),
        Err(text) => {
            let mut m = "invalid auth header value: ".to_owned();
            m.push_str(text.as_str());
            Err(UpstreamResolveError::Protocol(m))
        },
    }
}

// ---- clients ----

/// A client for servers that speak DNS over HTTPS.
#[derive(Debug)]
pub struct DnsHttpsClient {
    pub target: DohTarget,
    /// The servers that are asked for the address of the host.
    pub bootstrap_resolvers: Vec<SocketAddr>,
    /// The value of the `Authorization` header of every request.
    pub auth_headers: Option<String>,
    pub routing: OutboundRouting,
}

/// What a URL and credentials make: what the URL names and the value of the header.
pub open spec fn doh_client(
    target: Result<DohTargetView, Seq<char>>,
    auth: Option<ZoneSourceAuth>,
) -> Result<(DohTargetView, Option<Seq<char>>), Seq<char>> {
    match (target, auth) {
        (Err(m), _) => Err(m),
        (Ok(t), None) => Ok((t, None)),
        (Ok(t), Some(a)) => if is_header_text(auth_value(a)) {
            Ok((t, Some(auth_value(a))))
        } else {
            Err("invalid auth header value: "@ + "failed to parse header value"@)
        },
    }
}

impl DnsHttpsClient {
    /// Parse an `https://…` URL and return a ready-to-use client.
    ///
    /// Returns an error if the URL scheme is not `https`, the host is missing, or the
    /// auth value would produce an invalid HTTP header.
    pub fn new(url: String, auth: Option<ZoneSourceAuth>) -> (r: Result<
        DnsHttpsClient,
        UpstreamResolveError,
    >)
        ensures
            match (doh_client(named_target(url@), auth), r) {
                (Ok((t, h)), Ok(c)) => c.target@ == t && opt_text(c.auth_headers) == h
                    && c.bootstrap_resolvers@ == default_resolvers() && c.routing.unset(),
                (Err(m), Err(e)) => e@ == UpstreamResolveErrorView::Protocol(m),
                _ => false,
            },
    {
        let target = match parse_doh_url(url.as_str()) {
            Ok(t) => t,
            Err(e) => return Err(e),
        };
        let auth_headers = match auth {
            None => None,
            Some(a) => match build_auth_headers(&a) {
                Ok(v) => Some(v),
                Err(e) => return Err(e),
            },
        };
        Ok(
            DnsHttpsClient {
                target,
                bootstrap_resolvers: default_bootstrap_resolvers(),
                auth_headers,
                routing: OutboundRouting::new(None, None),
            },
        )
    }

    /// The client with other servers to ask for the address of the host; an empty list
    /// changes nothing.
    pub fn with_bootstrap_resolvers(self, resolvers: Vec<SocketAddr>) -> (r: DnsHttpsClient)
        ensures
            r.bootstrap_resolvers@ == crate::upstream::endpoint::asked_resolvers(
                self.bootstrap_resolvers@,
                resolvers@,
            ),
            r == if resolvers@.len() == 0 {
                self
            } else {
                DnsHttpsClient { bootstrap_resolvers: resolvers, ..self }
            },
    {
        if resolvers.len() == 0 {
            return self;
        }
        DnsHttpsClient {
            target: self.target,
            bootstrap_resolvers: resolvers,
            auth_headers: self.auth_headers,
            routing: self.routing,
        }
    }

    /// The client with a routing.
    pub fn with_routing(self, routing: OutboundRouting) -> (r: DnsHttpsClient)
        ensures
            r == (DnsHttpsClient { routing, ..self }),
    {
        DnsHttpsClient {
            target: self.target,
            bootstrap_resolvers: self.bootstrap_resolvers,
            auth_headers: self.auth_headers,
            routing,
        }
    }

    /// The first question of a query.
    pub fn extract_question(query: &[u8]) -> (r: Result<Question, UpstreamResolveError>)
        ensures
            question_result(r) == first_question(message_head(query@)),
    {
        crate::upstream::message::extract_question(query)
    }
}

/// Only a URL with the scheme `https` names a server.
pub proof fn law_only_https_is_accepted(
    url: Seq<char>,
    parts: Result<UrlPartsView, Seq<char>>,
    address: Option<IpAddr>,
)
    ensures
        doh_target(url, parts, address) matches Ok(t) ==> (parts matches Ok(u) && u.scheme == "https"@ && u.host
            == Some(t.server_name) && t.path.len() > 0),
{
    reveal_strlit("/dns-query");
}

/// A URL that names a server says everything about it: its host, which the certificate has
/// to hold, its port, or else that of HTTPS, and its path, or else `/dns-query`. A host that
/// is an address is not looked up.
pub proof fn law_urls_say_where_the_server_is(
    url: Seq<char>,
    u: UrlPartsView,
    address: Option<IpAddr>,
)
    ensures
        match doh_target(url, Ok(u), address) {
            Ok(t) => {
                let port = match t.endpoint {
                    EndpointView::Static(a) => a.port,
                    EndpointView::Hostname { port, .. } => port,
                };
                &&& u.scheme == "https"@
                &&& u.host == Some(t.server_name)
                &&& u.port matches Some(p) ==> port == p
                &&& u.port is None ==> port == 443
                &&& match address {
                    Some(ip) => t.endpoint matches EndpointView::Static(a) && a.ip == ip,
                    None => t.endpoint matches EndpointView::Hostname { host, .. } && Some(host)
                        == u.host,
                }
                &&& u.path == Seq::<char>::empty() || u.path == "/"@ ==> t.path == "/dns-query"@
                &&& u.path.len() > 0 && u.path != "/"@ ==> t.path == u.path
            },
            Err(_) => u.scheme != "https"@ || u.host is None,
        },
        u.scheme == "https"@ && u.host is Some ==> doh_target(url, Ok(u), address) is Ok,
{
}

/// Credentials go into the header as they are: a token behind `Bearer`, a user and a
/// password, with a colon between them, behind `Basic` in base64.
pub proof fn law_credentials_are_sent(token: String, username: String, password: String)
    ensures
        auth_value(ZoneSourceAuth::Bearer(token)) == "Bearer "@ + token@,
        auth_value(ZoneSourceAuth::Basic { username, password }) == "Basic "@ + base64_text(
            username@ + ":"@ + password@,
        ),
{
}

/// A client sends credentials exactly where some are configured, and is not made where a
/// header cannot hold them or the URL names no server.
pub proof fn law_clients_send_what_is_configured(
    target: Result<DohTargetView, Seq<char>>,
    auth: Option<ZoneSourceAuth>,
)
    ensures
        match doh_client(target, auth) {
            Ok((t, header)) => {
                &&& target == Ok::<DohTargetView, Seq<char>>(t)
                &&& match auth {
                    Some(a) => header == Some(auth_value(a)) && is_header_text(auth_value(a)),
                    None => header is None,
                }
            },
            Err(m) => {
                ||| target == Err::<DohTargetView, Seq<char>>(m)
                ||| auth matches Some(a) && !is_header_text(auth_value(a))
            },
        },
        target is Ok && auth is None ==> doh_client(target, auth) is Ok,
        target is Ok && (auth matches Some(a) && is_header_text(auth_value(a))) ==> doh_client(
            target,
            auth,
        ) is Ok,
{
}

/// A header can hold every printable character of ASCII and tabs, but no line break and no
/// other control character.
pub proof fn law_headers_hold_no_line_break(s: Seq<char>)
    ensures
        is_header_text(s) ==> !s.contains('\n') && !s.contains('\r') && !s.contains('\0'),
        (forall|i: int| 0 <= i < s.len() ==> ' ' <= #[trigger] s[i] <= '~') ==> is_header_text(s),
{
    if forall|i: int| 0 <= i < s.len() ==> ' ' <= #[trigger] s[i] <= '~' {
        assert forall|i: int| 0 <= i < s.len() implies is_header_char(#[trigger] s[i]) by {}
    }
    if is_header_text(s) {
        assert forall|i: int| 0 <= i < s.len() implies s[i] != '\n' && s[i] != '\r' && s[i] != '\0' by {
            assert(is_header_char(s[i]));
        }
    }
}

/// A URL that names no server is an error that tells why: it cannot be read, it is not one of
/// HTTPS, or it lacks a host. The host is an address where it can be read as one.
pub proof fn law_bad_urls_are_told(url: Seq<char>, u: UrlPartsView, address: Option<IpAddr>, m: Seq<char>)
    ensures
        doh_target(url, Err(m), address) == Err::<DohTargetView, Seq<char>>(
            "invalid DoH URL '"@ + url + "': "@ + m,
        ),
        u.scheme != "https"@ ==> doh_target(url, Ok(u), address) == Err::<DohTargetView, Seq<char>>(
            "DoH URL must use https scheme, got '"@ + u.scheme + "'"@,
        ),
        u.scheme == "https"@ && u.host is None ==> doh_target(url, Ok(u), address) == Err::<
            DohTargetView,
            Seq<char>,
        >("DoH URL missing host"@),
        u.scheme == "https"@ && u.host is Some ==> doh_target(url, Ok(u), address) is Ok,
        u.host matches Some(host) ==> host_address(Ok(u)) == parsed_ip(host),
        u.host is None ==> host_address(Ok(u)) is None,
        host_address(Err(m)) is None,
{
}

} // verus!
