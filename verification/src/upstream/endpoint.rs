//! Addresses of upstream servers that are reached over an encrypted transport.

use crate::net::{
    parsed_ip, parsed_socket_addr, port_error, read_ip, read_port, read_socket_addr, show_ip, shown_ip,
    socket_addr, IpAddr, SocketAddr,
};
use crate::text::{
    after_prefix, byte_len, chars_of, law_text_is_parted_at_the_separator, opt_str, parsed_number, split, split_on, strip_prefix,
    strip_trailing_dots, texts, trim, trimmed, without_trailing_dots,
};
use crate::upstream::error::{UpstreamResolveError, UpstreamResolveErrorView};
use vstd::prelude::*;
use vstd::utf8::encode_utf8;

verus! {

/// How a server is reached.
#[derive(Clone, Copy, Debug, PartialEq, Eq, Structural)]
pub enum Transport {
    /// DNS over TLS.
    Dot,
    /// DNS over QUIC.
    Doq,
    /// DNS over HTTPS.
    Doh,
}

impl Transport {
    /// The name of the transport in messages.
    pub open spec fn name(self) -> Seq<char> {
        match self {
            Transport::Dot => "DoT"@,
            Transport::Doq => "DoQ"@,
            Transport::Doh => "DoH"@,
        }
    }

    /// The prefix by which addresses can name the transport.
    pub open spec fn prefix(self) -> Seq<char> {
        match self {
            Transport::Dot => "tls://"@,
            Transport::Doq => "quic://"@,
            Transport::Doh => "https://"@,
        }
    }

    /// The port of servers whose address names none.
    pub open spec fn port(self) -> u16 {
        match self {
            Transport::Dot => 853,
            Transport::Doq => 8853,
            Transport::Doh => 443,
        }
    }

    /// The name of the transport in messages.
    pub fn label(self) -> (r: &'static str)
        ensures
            r@ == self.name(),
    {
        match self {
            Transport::Dot => "DoT",
            Transport::Doq => "DoQ",
            Transport::Doh => "DoH",
        }
    }

    /// The prefix by which addresses can name the transport.
    pub fn scheme(self) -> (r: &'static str)
        ensures
            r@ == self.prefix(),
    {
        match self {
            Transport::Dot => "tls://",
            Transport::Doq => "quic://",
            Transport::Doh => "https://",
        }
    }

    /// The port of servers whose address names none.
    pub fn default_port(self) -> (r: u16)
        ensures
            r == self.port(),
    {
        match self {
            Transport::Dot => 853,
            Transport::Doq => 8853,
            Transport::Doh => 443,
        }
    }
}

/// What kept a connection from coming about.
#[derive(Debug)]
pub enum ConnectFailure {
    /// TLS could not be set up.
    TlsConfig(String),
    /// The server could not be reached.
    Connect(String),
}

/// The error of a connection that did not come about.
pub fn connect_error(transport: Transport, failure: ConnectFailure) -> (r: UpstreamResolveError)
    ensures
        r@ == UpstreamResolveErrorView::Protocol(
            match failure {
                ConnectFailure::TlsConfig(m) => "TLS config error: "@ + m@,
                ConnectFailure::Connect(m) => transport.name() + " connect error: "@ + m@,
            },
        ),
{
    match failure {
        ConnectFailure::TlsConfig(m) => {
            let mut text = "TLS config error: ".to_owned();
            text.push_str(m.as_str());
            UpstreamResolveError::Protocol(text)
        },
        ConnectFailure::Connect(m) => {
            let mut text = transport.label().to_owned();
            text.push_str(" connect error: ");
            text.push_str(m.as_str());
            UpstreamResolveError::Protocol(text)
        },
    }
}

/// Where a server is.
#[derive(Debug)]
pub enum Endpoint {
    /// At an address.
    Static(SocketAddr),
    /// At the address of a host that is looked up first.
    Hostname { host: String, port: u16 },
}

/// An `Endpoint` with its text.
pub enum EndpointView {
    Static(SocketAddr),
    Hostname { host: Seq<char>, port: u16 },
}

impl View for Endpoint {
    type V = EndpointView;

    open spec fn view(&self) -> EndpointView {
        match self {
            Endpoint::Static(a) => EndpointView::Static(*a),
            Endpoint::Hostname { host, port } => EndpointView::Hostname { host: host@, port: *port },
        }
    }
}

// ---- host names ----

/// Whether a label of a host name may hold a character.
pub open spec fn is_label_char(c: char) -> bool {
    'a' <= c <= 'z' || 'A' <= c <= 'Z' || '0' <= c <= '9' || c == '-'
}

/// What is wrong with a label of a host name.
pub open spec fn label_problem(label: Seq<char>) -> Option<Seq<char>> {
    let n = encode_utf8(label).len();
    if n == 0 || n > 63 {
        Some(" hostname label length"@)
    } else if label[0] == '-' || label.last() == '-' {
        Some(" hostname label; leading/trailing hyphen is not allowed"@)
    } else if !(forall|i: int| 0 <= i < label.len() ==> is_label_char(#[trigger] label[i])) {
        Some(" hostname label characters"@)
    } else {
        None
    }
}

/// What is wrong with the first of some labels with which something is.
pub open spec fn first_problem(labels: Seq<Seq<char>>) -> Option<Seq<char>>
    decreases labels.len(),
{
    if labels.len() == 0 {
        None
    } else {
        match label_problem(labels[0]) {
            Some(p) => Some(p),
            None => first_problem(labels.skip(1)),
        }
    }
}

/// What is wrong with a host name.
pub open spec fn hostname_problem(host: Seq<char>) -> Option<Seq<char>> {
    let n = encode_utf8(host).len();
    if n == 0 || n > 253 {
        Some(" hostname length"@)
    } else {
        first_problem(split(host, '.'))
    }
}

fn check_label(label: &str) -> (r: Option<&'static str>)
    ensures
        opt_str(r) == label_problem(label@),
{
    let n: usize = byte_len(label);
    let v = chars_of(label);
    if n == 0 || n > 63 {
        return Some(" hostname label length");
    }
    assert(v@.len() > 0) by {
        if v@.len() == 0 {
            assert(label@ =~= seq![]);
            assert(encode_utf8(label@).len() == 0);
        }
    }
    if v[0] == '-' || v[v.len() - 1] == '-' {
        return Some(" hostname label; leading/trailing hyphen is not allowed");
    }
    let mut i: usize = 0;
    while i < v.len()
        invariant
            i <= v@.len(),
            v@ == label@,
            0 < encode_utf8(label@).len() <= 63,
            label@[0] != '-' && label@.last() != '-',
            forall|k: int| 0 <= k < i ==> is_label_char(#[trigger] label@[k]),
        decreases v@.len() - i,
    {
        let c: char = v[i];
        if !(('a' <= c && c <= 'z') || ('A' <= c && c <= 'Z') || ('0' <= c && c <= '9') || c == '-') {
            assert(!is_label_char(label@[i as int]));
            return Some(" hostname label characters");
        }
        i += 1;
    }
    None
}

fn check_hostname(host: &str) -> (r: Option<&'static str>)
    ensures
        opt_str(r) == hostname_problem(host@),
{
    let n: usize = byte_len(host);
    if n == 0 || n > 253 {
        return Some(" hostname length");
    }
    let labels = split_on(host, '.');
    let ghost all = texts(labels@);
    assert(all.len() == labels@.len());
    assert(all.skip(0) =~= all);
    let mut i: usize = 0;
    while i < labels.len()
        invariant
            i <= labels@.len() == all.len(),
            all == texts(labels@),
            all == split(host@, '.'),
            0 < encode_utf8(host@).len() <= 253,
            first_problem(all) == first_problem(all.skip(i as int)),
        decreases labels@.len() - i,
    {
        assert(all.skip(i as int)[0] == labels@[i as int]@);
        assert(all.skip(i as int).skip(1) =~= all.skip(i + 1));
        if let Some(p) = check_label(labels[i].as_str()) {
            return Some(p);
        }
        i += 1;
    }
    None
}

/// The message about a problem with a host name.
pub open spec fn hostname_message(transport: Transport, problem: Seq<char>) -> Seq<char> {
    "invalid "@ + transport.name() + problem
}

/// Checks that a host name has at most 253 bytes, and that each of its labels has 1 to
/// 63, is made of letters, digits and hyphens, and neither begins nor ends with a hyphen.
pub fn validate_hostname(host: &str, transport: Transport) -> (r: Result<(), UpstreamResolveError>)
    ensures
        match (hostname_problem(host@), r) {
            (None, Ok(_)) => true,
            (Some(p), Err(e)) => e@ == UpstreamResolveErrorView::Protocol(
                hostname_message(transport, p),
            ),
            _ => false,
        },
{
    match check_hostname(host) {
        None => Ok(()),
        Some(p) => {
            let mut m = "invalid ".to_owned();
            m.push_str(transport.label());
            m.push_str(p);
            Err(UpstreamResolveError::Protocol(m))
        },
    }
}

proof fn lemma_labels_accepted(labels: Seq<Seq<char>>, i: int)
    requires
        first_problem(labels) is None,
        0 <= i < labels.len(),
    ensures
        label_problem(labels[i]) is None,
    decreases labels.len(),
{
    if i > 0 {
        lemma_labels_accepted(labels.skip(1), i - 1);
    }
}

/// A host name is accepted exactly where it has 1 to 253 bytes and each of its labels
/// has 1 to 63 characters, which are letters, digits and hyphens, with no hyphen at
/// either end.
pub proof fn law_accepted_hostname(host: Seq<char>)
    ensures
        hostname_problem(host) is None <==> (0 < encode_utf8(host).len() <= 253 && forall|i: int|
            0 <= i < split(host, '.').len() ==> label_problem(#[trigger] split(host, '.')[i]) is None),
{
    let labels = split(host, '.');
    if first_problem(labels) is None {
        assert forall|i: int| 0 <= i < labels.len() implies label_problem(
            #[trigger] labels[i],
        ) is None by {
            lemma_labels_accepted(labels, i);
        }
    } else {
        lemma_some_label_refused(labels);
    }
}

proof fn lemma_some_label_refused(labels: Seq<Seq<char>>)
    requires
        first_problem(labels) is Some,
    ensures
        exists|i: int| 0 <= i < labels.len() && label_problem(#[trigger] labels[i]) is Some,
    decreases labels.len(),
{
    if label_problem(labels[0]) is None {
        lemma_some_label_refused(labels.skip(1));
        let i = choose|i: int|
            0 <= i < labels.skip(1).len() && label_problem(#[trigger] labels.skip(1)[i]) is Some;
        assert(labels.skip(1)[i] == labels[i + 1]);
    }
}

// ---- addresses ----

/// The host and the port that a text names; the port is that of the transport where the
/// text names none.
pub open spec fn named_host(text: Seq<char>, transport: Transport) -> Result<
    (Seq<char>, u16),
    Seq<char>,
> {
    let parts = split(text, ':');
    let host = without_trailing_dots(
        if parts.len() == 2 {
            parts[0]
        } else {
            text
        },
    );
    match hostname_problem(host) {
        Some(p) => Err(hostname_message(transport, p)),
        None => if parts.len() == 2 {
            match parsed_number(parts[1], 65535) {
                Some(n) => Ok((host, n as u16)),
                None => Err(
                    "invalid "@ + transport.name() + " port '"@ + parts[1] + "': "@ + port_error(
                        parts[1],
                    ),
                ),
            }
        } else {
            Ok((host, transport.port()))
        },
    }
}

/// What an address stands for: where the server is, and the name that its certificate
/// has to hold.
pub open spec fn named_endpoint(value: Seq<char>, transport: Transport) -> Result<
    (EndpointView, Seq<char>),
    Seq<char>,
> {
    let text = match after_prefix(value, transport.prefix()) {
        Some(rest) => rest,
        None => value,
    };
    if trimmed(text).len() == 0 {
        Err("invalid "@ + transport.name() + " upstream address; endpoint is empty"@)
    } else {
        match (parsed_socket_addr(text), parsed_ip(text)) {
            (Ok(a), _) => Ok((EndpointView::Static(a), shown_ip(a.ip))),
            (Err(_), Some(ip)) => Ok(
                (EndpointView::Static(socket_addr(ip, transport.port())), shown_ip(ip)),
            ),
            (Err(_), None) => match named_host(text, transport) {
                Ok((host, port)) => Ok(
                    (EndpointView::Hostname { host, port }, without_trailing_dots(host)),
                ),
                Err(m) => Err(m),
            },
        }
    }
}

/// The host and the port that a text names.
pub fn parse_hostname_with_optional_port(value: &str, transport: Transport) -> (r: Result<
    (String, u16),
    UpstreamResolveError,
>)
    ensures
        match (named_host(value@, transport), r) {
            (Ok((h, p)), Ok((host, port))) => host@ == h && port == p,
            (Err(m), Err(e)) => e@ == UpstreamResolveErrorView::Protocol(m),
            _ => false,
        },
{
    let parts = split_on(value, ':');
    let ghost all = texts(parts@);
    assert(all.len() == parts@.len());
    if parts.len() == 2 {
        assert(parts@[0]@ == all[0] && parts@[1]@ == all[1]);
        let host = strip_trailing_dots(parts[0].as_str());
        match validate_hostname(host.as_str(), transport) {
            Err(e) => Err(e),
            Ok(_) => match read_port(parts[1].as_str()) {
                Ok(port) => Ok((host, port)),
                Err(text) => {
                    let mut m = "invalid ".to_owned();
                    m.push_str(transport.label());
                    m.push_str(" port '");
                    m.push_str(parts[1].as_str());
                    m.push_str("': ");
                    m.push_str(text.as_str());
                    Err(UpstreamResolveError::Protocol(m))
                },
            },
        }
    } else {
        let host = strip_trailing_dots(value);
        match validate_hostname(host.as_str(), transport) {
            Err(e) => Err(e),
            Ok(_) => Ok((host, transport.default_port())),
        }
    }
}

/// Reads the address of a server, given what it is as a socket address and as the
/// address of a host.
pub fn endpoint_of(
    text: &str,
    transport: Transport,
    socket: Result<SocketAddr, String>,
    ip: Option<IpAddr>,
) -> (r: Result<(Endpoint, String), UpstreamResolveError>)
    ensures
        trimmed(text@).len() == 0 ==> (r matches Err(e) && e@ == UpstreamResolveErrorView::Protocol(
            "invalid "@ + transport.name() + " upstream address; endpoint is empty"@,
        )),
        trimmed(text@).len() > 0 ==> match (socket, ip) {
            (Ok(a), _) => r matches Ok((e, name)) && e@ == EndpointView::Static(a) && name@
                == shown_ip(a.ip),
            (Err(_), Some(x)) => r matches Ok((e, name)) && e@ == EndpointView::Static(
                socket_addr(x, transport.port()),
            ) && name@ == shown_ip(x),
            (Err(_), None) => match (named_host(text@, transport), r) {
                (Ok((host, port)), Ok((e, name))) => e@ == (EndpointView::Hostname { host, port })
                    && name@ == without_trailing_dots(host),
                (Err(m), Err(e)) => e@ == UpstreamResolveErrorView::Protocol(m),
                _ => false,
            },
        },
{
    if trim(text).as_str().is_empty() {
        let mut m = "invalid ".to_owned();
        m.push_str(transport.label());
        m.push_str(" upstream address; endpoint is empty");
        return Err(UpstreamResolveError::Protocol(m));
    }
    match (socket, ip) {
        (Ok(a), _) => Ok((Endpoint::Static(a), show_ip(a.ip))),
        (Err(_), Some(x)) => Ok(
            (Endpoint::Static(SocketAddr::new(x, transport.default_port())), show_ip(x)),
        ),
        (Err(_), None) => match parse_hostname_with_optional_port(text, transport) {
            Err(e) => Err(e),
            Ok((host, port)) => {
                let name = strip_trailing_dots(host.as_str());
                Ok((Endpoint::Hostname { host, port }, name))
            },
        },
    }
}

/// Reads the address of a server.
pub fn parse_endpoint(value: &str, transport: Transport) -> (r: Result<
    (Endpoint, String),
    UpstreamResolveError,
>)
    ensures
        match (named_endpoint(value@, transport), r) {
            (Ok((v, n)), Ok((e, name))) => e@ == v && name@ == n,
            (Err(m), Err(e)) => e@ == UpstreamResolveErrorView::Protocol(m),
            _ => false,
        },
{
    let text = match strip_prefix(value, transport.scheme()) {
        Some(rest) => rest,
        None => value.to_owned(),
    };
    endpoint_of(
        text.as_str(),
        transport,
        read_socket_addr(text.as_str()),
        read_ip(text.as_str()),
    )
}

// ---- resolvers for host names ----

/// The servers that are asked for the addresses of host names where nothing is configured.
pub open spec fn default_resolvers() -> Seq<SocketAddr> {
    seq![socket_addr(IpAddr::V4(0x0101_0101), 53)]
}

/// The servers that are asked for the addresses of host names where nothing is configured.
pub fn default_bootstrap_resolvers() -> (r: Vec<SocketAddr>)
    ensures
        r@ == default_resolvers(),
{
    let mut v: Vec<SocketAddr> = Vec::new();
    v.push(SocketAddr::new(IpAddr::V4(0x0101_0101), 53));
    v
}

/// A label of a host name is accepted exactly where it has 1 to 63 bytes, which are letters,
/// digits and hyphens of ASCII, with no hyphen at either end.
pub proof fn law_accepted_label(label: Seq<char>)
    ensures
        label_problem(label) is None <==> {
            &&& 1 <= encode_utf8(label).len() <= 63
            &&& label[0] != '-' && label.last() != '-'
            &&& forall|i: int|
                0 <= i < label.len() ==> ('a' <= #[trigger] label[i] <= 'z' || 'A' <= label[i] <= 'Z'
                    || '0' <= label[i] <= '9' || label[i] == '-')
        },
{
    if forall|i: int|
        0 <= i < label.len() ==> ('a' <= #[trigger] label[i] <= 'z' || 'A' <= label[i] <= 'Z' || '0'
            <= label[i] <= '9' || label[i] == '-') {
        assert forall|i: int| 0 <= i < label.len() implies is_label_char(#[trigger] label[i]) by {}
    }
}

/// A host is named with or without a port, behind a colon; without one the port is that of
/// the transport. Dots at the end of a host do not count, and a host or a port that is none
/// is an error.
pub proof fn law_hosts_are_named_with_or_without_a_port(
    host: Seq<char>,
    port: Seq<char>,
    transport: Transport,
)
    requires
        !host.contains(':'),
        !port.contains(':'),
    ensures
        ({
            let named = without_trailing_dots(host);
            let usual = match transport {
                Transport::Dot => 853u16,
                Transport::Doq => 8853u16,
                Transport::Doh => 443u16,
            };
            let with_port = named_host(host + seq![':'] + port, transport);
            if hostname_problem(named) is None {
                &&& named_host(host, transport) == Ok::<(Seq<char>, u16), Seq<char>>((named, usual))
                &&& match parsed_number(port, 65535) {
                    Some(n) => with_port == Ok::<(Seq<char>, u16), Seq<char>>((named, n as u16)),
                    None => with_port is Err,
                }
            } else {
                named_host(host, transport) is Err && with_port is Err
            }
        }),
{
    law_text_is_parted_at_the_separator(host, ':', port);
    law_text_is_parted_at_the_separator(port, ':', port);
    let parts = split(host + seq![':'] + port, ':');
    assert(parts =~= seq![host, port]);
}

/// An address is what it says, at its own port or at that of the transport; the certificate
/// has to hold the address. Every other text is taken for a host, whose name the certificate
/// has to hold. The scheme before any of them does not count.
pub proof fn law_addresses_stand_for_themselves(text: Seq<char>, transport: Transport)
    requires
        !transport.prefix().is_prefix_of(text),
        trimmed(text).len() > 0,
    ensures
        match (parsed_socket_addr(text), parsed_ip(text), named_endpoint(text, transport)) {
            (Ok(a), _, Ok((EndpointView::Static(x), name))) => x == a && name == shown_ip(a.ip),
            (Err(_), Some(ip), Ok((EndpointView::Static(x), name))) => x.ip == ip && x.port
                == match transport {
                Transport::Dot => 853u16,
                Transport::Doq => 8853u16,
                Transport::Doh => 443u16,
            } && name == shown_ip(ip),
            (Err(_), None, Ok((EndpointView::Hostname { host, port }, name))) => named_host(
                text,
                transport,
            ) == Ok::<(Seq<char>, u16), Seq<char>>((host, port)) && name == without_trailing_dots(
                host,
            ),
            (Err(_), None, Err(m)) => named_host(text, transport) == Err::<
                (Seq<char>, u16),
                Seq<char>,
            >(m),
            _ => false,
        },
        named_endpoint(transport.prefix() + text, transport) == named_endpoint(text, transport),
{
    let p = transport.prefix();
    let whole = p + text;
    assert(whole.subrange(0, p.len() as int) =~= p);
    assert(whole.skip(p.len() as int) =~= text);
}

/// A blank address is an error, with or without a scheme.
pub proof fn law_blank_addresses_are_refused(text: Seq<char>, transport: Transport)
    requires
        trimmed(text).len() == 0,
    ensures
        named_endpoint(transport.prefix() + text, transport) is Err,
        !transport.prefix().is_prefix_of(text) ==> named_endpoint(text, transport) is Err,
{
    let p = transport.prefix();
    let whole = p + text;
    assert(whole.subrange(0, p.len() as int) =~= p);
    assert(whole.skip(p.len() as int) =~= text);
}

/// Each transport has a scheme of its own.
pub proof fn law_schemes_tell_transports_apart(a: Transport, b: Transport)
    ensures
        a.prefix() == b.prefix() ==> a == b,
        a.name() == b.name() ==> a == b,
        Transport::Dot.prefix() == "tls://"@,
        Transport::Doq.prefix() == "quic://"@,
        Transport::Doh.prefix() == "https://"@,
{
    reveal_strlit("tls://");
    reveal_strlit("quic://");
    reveal_strlit("https://");
    reveal_strlit("DoT");
    reveal_strlit("DoQ");
    reveal_strlit("DoH");
    assert("tls://"@.len() == 6 && "quic://"@.len() == 7 && "https://"@.len() == 8);
    assert("DoT"@[2] != "DoQ"@[2]);
    assert("DoT"@[2] != "DoH"@[2]);
    assert("DoH"@[2] != "DoQ"@[2]);
}

/// The servers that are asked for the address of a host: those that are given, or the usual
/// ones where none are.
pub open spec fn asked_resolvers(usual: Seq<SocketAddr>, given: Seq<SocketAddr>) -> Seq<SocketAddr> {
    if given.len() == 0 {
        usual
    } else {
        given
    }
}

/// Servers that are given are asked in place of the usual ones, and somebody is always asked.
pub proof fn law_given_resolvers_are_asked(usual: Seq<SocketAddr>, given: Seq<SocketAddr>)
    ensures
        given.len() > 0 ==> asked_resolvers(usual, given) == given,
        given.len() == 0 ==> asked_resolvers(usual, given) == usual,
        asked_resolvers(default_resolvers(), given).len() > 0,
{
}

/// Errors name the transport that they are about.
pub proof fn law_transports_are_named(transport: Transport)
    ensures
        transport is Dot ==> transport.name() == "DoT"@,
        transport is Doq ==> transport.name() == "DoQ"@,
        transport is Doh ==> transport.name() == "DoH"@,
{
}

/// Every transport has a port of its own where none is written, and the address of a host is
/// asked of 1.1.1.1 where nothing else is configured, as every server is asked in plain DNS.
pub proof fn law_defaults_are_those_of_the_transports()
    ensures
        Transport::Dot.port() == 853,
        Transport::Doq.port() == 8853,
        Transport::Doh.port() == 443,
        default_resolvers().len() == 1,
        default_resolvers()[0].port == 53,
        default_resolvers()[0].ip == IpAddr::V4(0x0101_0101),
{
}

} // verus!
