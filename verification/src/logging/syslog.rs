//! Messages for the system log.

use crate::pem::{
    certificates_view, chain_bytes, pem_certificates, read_authorities, refusal_of_authority,
    refusal_of_server_name, refused_authority, refused_server_name,
};
use crate::text::{
    ascii_lower, equal_ignoring_case, find, lemma_find, lemma_split_not_empty, opt_str, opt_text, same,
    same_ignoring_case, split_on, texts,
};
use crate::tls::{lowercase, to_lowercase};
use vstd::prelude::*;

verus! {

/// How urgent a message is.
#[derive(Clone, Copy, Debug, PartialEq, Eq, Structural)]
pub enum Level {
    Error,
    Warn,
    Info,
    Debug,
    Trace,
}

impl Level {
    /// The name of the level in filters.
    pub open spec fn shown(self) -> Seq<char> {
        match self {
            Level::Error => "ERROR"@,
            Level::Warn => "WARN"@,
            Level::Info => "INFO"@,
            Level::Debug => "DEBUG"@,
            Level::Trace => "TRACE"@,
        }
    }

    /// The name of the level in filters.
    pub fn name(self) -> (r: &'static str)
        ensures
            r@ == self.shown(),
    {
        match self {
            Level::Error => "ERROR",
            Level::Warn => "WARN",
            Level::Info => "INFO",
            Level::Debug => "DEBUG",
            Level::Trace => "TRACE",
        }
    }
}

/// The part of the system that a message comes from.
#[derive(Clone, Copy, Debug, PartialEq, Eq, Structural)]
pub enum Facility {
    Kern,
    User,
    Mail,
    Daemon,
    Auth,
    Syslog,
    Lpr,
    News,
    Uucp,
    Cron,
    Authpriv,
    Local0,
    Local1,
    Local2,
    Local3,
    Local4,
    Local5,
    Local6,
    Local7,
}

impl Facility {
    /// The number of the facility (RFC 5424).
    pub open spec fn number(self) -> u8 {
        match self {
            Facility::Kern => 0,
            Facility::User => 1,
            Facility::Mail => 2,
            Facility::Daemon => 3,
            Facility::Auth => 4,
            Facility::Syslog => 5,
            Facility::Lpr => 6,
            Facility::News => 7,
            Facility::Uucp => 8,
            Facility::Cron => 9,
            Facility::Authpriv => 10,
            Facility::Local0 => 16,
            Facility::Local1 => 17,
            Facility::Local2 => 18,
            Facility::Local3 => 19,
            Facility::Local4 => 20,
            Facility::Local5 => 21,
            Facility::Local6 => 22,
            Facility::Local7 => 23,
        }
    }

    /// The number of the facility (RFC 5424).
    pub fn code(self) -> (r: u8)
        ensures
            r == self.number(),
    {
        match self {
            Facility::Kern => 0,
            Facility::User => 1,
            Facility::Mail => 2,
            Facility::Daemon => 3,
            Facility::Auth => 4,
            Facility::Syslog => 5,
            Facility::Lpr => 6,
            Facility::News => 7,
            Facility::Uucp => 8,
            Facility::Cron => 9,
            Facility::Authpriv => 10,
            Facility::Local0 => 16,
            Facility::Local1 => 17,
            Facility::Local2 => 18,
            Facility::Local3 => 19,
            Facility::Local4 => 20,
            Facility::Local5 => 21,
            Facility::Local6 => 22,
            Facility::Local7 => 23,
        }
    }
}

/// The number of the facility with a name, whatever the case of its letters.
pub open spec fn facility_number(name: Seq<char>) -> Option<u8> {
    if same_ignoring_case(name, "kern"@) {
        Some(0)
    } else if same_ignoring_case(name, "user"@) {
        Some(1)
    } else if same_ignoring_case(name, "mail"@) {
        Some(2)
    } else if same_ignoring_case(name, "daemon"@) {
        Some(3)
    } else if same_ignoring_case(name, "auth"@) {
        Some(4)
    } else if same_ignoring_case(name, "syslog"@) {
        Some(5)
    } else if same_ignoring_case(name, "lpr"@) {
        Some(6)
    } else if same_ignoring_case(name, "news"@) {
        Some(7)
    } else if same_ignoring_case(name, "uucp"@) {
        Some(8)
    } else if same_ignoring_case(name, "cron"@) {
        Some(9)
    } else if same_ignoring_case(name, "authpriv"@) {
        Some(10)
    } else if same_ignoring_case(name, "local0"@) {
        Some(16)
    } else if same_ignoring_case(name, "local1"@) {
        Some(17)
    } else if same_ignoring_case(name, "local2"@) {
        Some(18)
    } else if same_ignoring_case(name, "local3"@) {
        Some(19)
    } else if same_ignoring_case(name, "local4"@) {
        Some(20)
    } else if same_ignoring_case(name, "local5"@) {
        Some(21)
    } else if same_ignoring_case(name, "local6"@) {
        Some(22)
    } else if same_ignoring_case(name, "local7"@) {
        Some(23)
    } else {
        None
    }
}

/// The text of the error about a facility that there is not.
pub open spec fn unknown_facility(name: Seq<char>) -> Seq<char> {
    "unknown syslog facility: "@ + name
}

fn number_of_facility(facility: &str) -> (r: Option<u8>)
    ensures
        r == facility_number(facility@),
{
    if equal_ignoring_case(facility, "kern") {
        Some(0)
    } else if equal_ignoring_case(facility, "user") {
        Some(1)
    } else if equal_ignoring_case(facility, "mail") {
        Some(2)
    } else if equal_ignoring_case(facility, "daemon") {
        Some(3)
    } else if equal_ignoring_case(facility, "auth") {
        Some(4)
    } else if equal_ignoring_case(facility, "syslog") {
        Some(5)
    } else if equal_ignoring_case(facility, "lpr") {
        Some(6)
    } else if equal_ignoring_case(facility, "news") {
        Some(7)
    } else if equal_ignoring_case(facility, "uucp") {
        Some(8)
    } else if equal_ignoring_case(facility, "cron") {
        Some(9)
    } else if equal_ignoring_case(facility, "authpriv") {
        Some(10)
    } else if equal_ignoring_case(facility, "local0") {
        Some(16)
    } else if equal_ignoring_case(facility, "local1") {
        Some(17)
    } else if equal_ignoring_case(facility, "local2") {
        Some(18)
    } else if equal_ignoring_case(facility, "local3") {
        Some(19)
    } else if equal_ignoring_case(facility, "local4") {
        Some(20)
    } else if equal_ignoring_case(facility, "local5") {
        Some(21)
    } else if equal_ignoring_case(facility, "local6") {
        Some(22)
    } else if equal_ignoring_case(facility, "local7") {
        Some(23)
    } else {
        None
    }
}

/// Syslog facility codes (RFC 5424).
pub fn facility_code(facility: &str) -> (r: Result<u8, String>)
    ensures
        match (facility_number(facility@), r) {
            (Some(n), Ok(m)) => m == n,
            (None, Err(e)) => e@ == unknown_facility(facility@),
            _ => false,
        },
{
    match number_of_facility(facility) {
        Some(n) => Ok(n),
        None => {
            let mut m = "unknown syslog facility: ".to_owned();
            m.push_str(facility);
            Err(m)
        },
    }
}

/// The facility with a name, whatever the case of its letters.
pub fn facility_from_str(facility: &str) -> (r: Result<Facility, String>)
    ensures
        match (facility_number(facility@), r) {
            (Some(n), Ok(f)) => f.number() == n,
            (None, Err(e)) => e@ == unknown_facility(facility@),
            _ => false,
        },
{
    match facility_code(facility) {
        Ok(code) => Ok(facility_with_code(code)),
        Err(e) => Err(e),
    }
}

fn facility_with_code(code: u8) -> (r: Facility)
    requires
        code <= 10 || 16 <= code <= 23,
    ensures
        r.number() == code,
{
    if code == 0 {
        Facility::Kern
    } else if code == 1 {
        Facility::User
    } else if code == 2 {
        Facility::Mail
    } else if code == 3 {
        Facility::Daemon
    } else if code == 4 {
        Facility::Auth
    } else if code == 5 {
        Facility::Syslog
    } else if code == 6 {
        Facility::Lpr
    } else if code == 7 {
        Facility::News
    } else if code == 8 {
        Facility::Uucp
    } else if code == 9 {
        Facility::Cron
    } else if code == 10 {
        Facility::Authpriv
    } else if code == 16 {
        Facility::Local0
    } else if code == 17 {
        Facility::Local1
    } else if code == 18 {
        Facility::Local2
    } else if code == 19 {
        Facility::Local3
    } else if code == 20 {
        Facility::Local4
    } else if code == 21 {
        Facility::Local5
    } else if code == 22 {
        Facility::Local6
    } else {
        Facility::Local7
    }
}

/// The number of the severity of a level (RFC 5424).
pub open spec fn severity(level: Level) -> u8 {
    match level {
        Level::Error => 3,
        Level::Warn => 4,
        Level::Info => 6,
        Level::Debug => 7,
        Level::Trace => 7,
    }
}

/// Syslog severity levels (RFC 5424).
pub fn severity_code(level: &Level) -> (r: u8)
    ensures
        r == severity(*level),
{
    match level {
        Level::Error => 3,
        Level::Warn => 4,
        Level::Info => 6,
        Level::Debug => 7,
        Level::Trace => 7,
    }
}

/// A facility and a severity always make a priority that fits the 192 of RFC 5424, and
/// both can be read back from it.
pub proof fn law_priority_is_unambiguous(f: Facility, level: Level)
    ensures
        f.number() * 8 + severity(level) < 192,
        (f.number() * 8 + severity(level)) / 8 == f.number(),
        (f.number() * 8 + severity(level)) % 8 == severity(level),
{
}

/// The level with a name in lower case.
pub open spec fn level_with_name(name: Seq<char>) -> Option<Level> {
    if name == "error"@ {
        Some(Level::Error)
    } else if name == "warn"@ || name == "warning"@ {
        Some(Level::Warn)
    } else if name == "info"@ {
        Some(Level::Info)
    } else if name == "debug"@ {
        Some(Level::Debug)
    } else if name == "trace"@ {
        Some(Level::Trace)
    } else {
        None
    }
}

/// The level with a name in lower case.
pub fn level_named(name: &str) -> (r: Option<Level>)
    ensures
        r == level_with_name(name@),
{
    if same(name, "error") {
        Some(Level::Error)
    } else if same(name, "warn") || same(name, "warning") {
        Some(Level::Warn)
    } else if same(name, "info") {
        Some(Level::Info)
    } else if same(name, "debug") {
        Some(Level::Debug)
    } else if same(name, "trace") {
        Some(Level::Trace)
    } else {
        None
    }
}

/// Log level from string: "error", "warn", "info", "debug", "trace".
pub fn level_from_str(s: &str) -> (r: Option<Level>)
    ensures
        r == level_with_name(lowercase(s@)),
{
    level_named(to_lowercase(s).as_str())
}

/// Syslog transport variant.
#[derive(Debug)]
pub enum SyslogTransport {
    /// The path of a Unix socket.
    Unix(String),
    /// `host:port`
    Udp(String),
    /// `host:port`
    Tcp(String),
    /// `host:port`, and the path of the certificate of the authority.
    Tls(String, String),
}

/// A `SyslogTransport` with its texts.
pub enum SyslogTransportView {
    Unix(Seq<char>),
    Udp(Seq<char>),
    Tcp(Seq<char>),
    Tls(Seq<char>, Seq<char>),
}

impl View for SyslogTransport {
    type V = SyslogTransportView;

    open spec fn view(&self) -> SyslogTransportView {
        match self {
            SyslogTransport::Unix(p) => SyslogTransportView::Unix(p@),
            SyslogTransport::Udp(a) => SyslogTransportView::Udp(a@),
            SyslogTransport::Tcp(a) => SyslogTransportView::Tcp(a@),
            SyslogTransport::Tls(a, c) => SyslogTransportView::Tls(a@, c@),
        }
    }
}

/// What is configured, or else what stands in for it.
pub open spec fn or_default(configured: Option<Seq<char>>, default: Seq<char>) -> Seq<char> {
    match configured {
        Some(t) => t,
        None => default,
    }
}

/// The transport that a configuration names.
pub open spec fn configured_transport(
    transport: Option<Seq<char>>,
    server: Option<Seq<char>>,
    ca_path: Option<Seq<char>>,
) -> Result<SyslogTransportView, Seq<char>> {
    let name = or_default(transport, "unix"@);
    if name == "unix"@ {
        Ok(SyslogTransportView::Unix(or_default(server, "/dev/log"@)))
    } else if name == "udp"@ {
        Ok(SyslogTransportView::Udp(or_default(server, "127.0.0.1:514"@)))
    } else if name == "tcp"@ {
        Ok(SyslogTransportView::Tcp(or_default(server, "127.0.0.1:514"@)))
    } else if name == "tls"@ {
        match ca_path {
            Some(c) => Ok(SyslogTransportView::Tls(or_default(server, "127.0.0.1:514"@), c)),
            None => Err("tls transport requires ca_cert_path in syslog config"@),
        }
    } else {
        Err("unknown syslog transport: "@ + name)
    }
}

fn text_or(configured: Option<&str>, default: &str) -> (r: String)
    ensures
        r@ == or_default(opt_str(configured), default@),
{
    match configured {
        Some(t) => t.to_owned(),
        None => default.to_owned(),
    }
}

impl SyslogTransport {
    /// The transport that a configuration names; it is the local socket where it names
    /// none.
    pub fn from_config(
        transport_opt: Option<&str>,
        server_opt: Option<&str>,
        tls_cert_path: Option<&str>,
    ) -> (r: Result<SyslogTransport, String>)
        ensures
            match (
                configured_transport(
                    opt_str(transport_opt),
                    opt_str(server_opt),
                    opt_str(tls_cert_path),
                ),
                r,
            ) {
                (Ok(v), Ok(t)) => t@ == v,
                (Err(m), Err(e)) => e@ == m,
                _ => false,
            },
    {
        let transport = text_or(transport_opt, "unix");
        if same(transport.as_str(), "unix") {
            Ok(SyslogTransport::Unix(text_or(server_opt, "/dev/log")))
        } else if same(transport.as_str(), "udp") {
            Ok(SyslogTransport::Udp(text_or(server_opt, "127.0.0.1:514")))
        } else if same(transport.as_str(), "tcp") {
            Ok(SyslogTransport::Tcp(text_or(server_opt, "127.0.0.1:514")))
        } else if same(transport.as_str(), "tls") {
            match tls_cert_path {
                Some(c) => Ok(
                    SyslogTransport::Tls(text_or(server_opt, "127.0.0.1:514"), c.to_owned()),
                ),
                None => Err("tls transport requires ca_cert_path in syslog config".to_owned()),
            }
        } else {
            let mut m = "unknown syslog transport: ".to_owned();
            m.push_str(transport.as_str());
            Err(m)
        }
    }

    /// How long the sender waits before it tries again after an error, in seconds.
    pub fn retry_delay_secs(&self) -> (r: u64)
        ensures
            r == self@.delay(),
    {
        match self {
            SyslogTransport::Unix(_) => 1,
            SyslogTransport::Udp(_) => 1,
            SyslogTransport::Tcp(_) => 5,
            SyslogTransport::Tls(_, _) => 5,
        }
    }
}

/// Syslog message to be sent.
#[derive(Debug)]
pub struct SyslogMessage {
    pub level: Level,
    pub msg: String,
}

/// The host of an address.
pub open spec fn host_of(addr: Seq<char>) -> Seq<char> {
    addr.take(find(addr, ':'))
}

/// The port does not belong to the name, and an address without a port is a name.
pub proof fn law_ports_are_no_part_of_the_name(host: Seq<char>, port: Seq<char>)
    requires
        !host.contains(':'),
    ensures
        host_of(host + ":"@ + port) == host,
        host_of(host) == host,
{
    reveal_strlit(":");
    let addr = host + ":"@ + port;
    lemma_find(addr, ':');
    lemma_find(host, ':');
    let n = find(addr, ':');
    assert(addr[host.len() as int] == ':');
    if n < host.len() {
        assert(host[n] == addr[n]);
        assert(host.contains(':'));
    }
    assert(addr.take(host.len() as int) =~= host);
    let k = find(host, ':');
    if k < host.len() {
        assert(host.contains(host[k]));
    }
    assert(host.take(host.len() as int) =~= host);
}

/// The name that the certificate of a server has to hold: the host of its address.
pub fn tls_server_name(addr: &str) -> (r: String)
    ensures
        r@ == host_of(addr@),
        r@ == addr@.take(find(addr@, ':')),
{
    let parts = split_on(addr, ':');
    proof {
        lemma_find(addr@, ':');
        lemma_split_not_empty(addr@, ':');
        assert(texts(parts@).len() == parts@.len());
        assert(addr@.take(addr@.len() as int) =~= addr@);
        assert(texts(parts@)[0] == addr@.take(find(addr@, ':')));
        assert(parts@[0]@ == texts(parts@)[0]);
    }
    parts[0].clone()
}

/// Why there is no connection over TLS.
#[derive(Debug)]
pub struct TlsSenderError {
    /// What was done when it failed, where that is said.
    pub context: Option<&'static str>,
    /// The text of the failure.
    pub source: String,
}

/// A `TlsSenderError` with its texts.
pub struct TlsSenderErrorView {
    pub context: Option<Seq<char>>,
    pub source: Seq<char>,
}

impl View for TlsSenderError {
    type V = TlsSenderErrorView;

    open spec fn view(&self) -> TlsSenderErrorView {
        TlsSenderErrorView { context: opt_str(self.context), source: self.source@ }
    }
}

impl TlsSenderErrorView {
    /// What is said of the failure in a warning: what was done, or else what failed.
    pub open spec fn text(self) -> Seq<char> {
        match self.context {
            Some(c) => c,
            None => self.source,
        }
    }

    /// All that is known of the failure.
    pub open spec fn full_text(self) -> Seq<char> {
        match self.context {
            Some(c) => c + ": "@ + self.source,
            None => self.source,
        }
    }
}

impl TlsSenderError {
    /// What is said of the failure in a warning.
    pub fn message(&self) -> (r: String)
        ensures
            r@ == self@.text(),
    {
        match self.context {
            Some(c) => c.to_owned(),
            None => self.source.clone(),
        }
    }

    /// All that is known of the failure.
    pub fn full_message(&self) -> (r: String)
        ensures
            r@ == self@.full_text(),
    {
        match self.context {
            Some(c) => {
                let mut out = c.to_owned();
                out.push_str(": ");
                out.push_str(self.source.as_str());
                out
            },
            None => self.source.clone(),
        }
    }
}

/// The error where the file with the certificates of the authorities cannot be opened.
pub fn unopened_authorities(error: String) -> (r: TlsSenderError)
    ensures
        r@ == (TlsSenderErrorView { context: Some("opening CA cert file"@), source: error@ }),
{
    TlsSenderError { context: Some("opening CA cert file"), source: error }
}

/// The certificates that are trusted, or why there are none, given what was read from their
/// file and, for each, why it is refused: all are read before the first is looked at, and
/// the first that is refused is an error.
pub open spec fn trusted(
    certs: Result<Seq<Seq<u8>>, Seq<char>>,
    refusals: Seq<Option<Seq<char>>>,
) -> Result<Seq<Seq<u8>>, TlsSenderErrorView> {
    match certs {
        Err(m) => Err(TlsSenderErrorView { context: None, source: m }),
        Ok(chain) => match first_refusal(refusals) {
            Some(m) => Err(
                TlsSenderErrorView { context: Some("adding cert to root store"@), source: m },
            ),
            None => Ok(chain),
        },
    }
}

/// The first refusal of some.
pub open spec fn first_refusal(refusals: Seq<Option<Seq<char>>>) -> Option<Seq<char>>
    decreases refusals.len(),
{
    if refusals.len() == 0 {
        None
    } else if refusals[0] is Some {
        refusals[0]
    } else {
        first_refusal(refusals.skip(1))
    }
}

/// Refusals with their texts.
pub open spec fn refusal_texts(v: Seq<Option<String>>) -> Seq<Option<Seq<char>>> {
    Seq::new(v.len(), |i: int| opt_text(v[i]))
}

/// A result of reading the certificates that are trusted, with its texts.
pub open spec fn trust_result(r: Result<Vec<Vec<u8>>, TlsSenderError>) -> Result<
    Seq<Seq<u8>>,
    TlsSenderErrorView,
> {
    match r {
        Ok(v) => Ok(chain_bytes(v@)),
        Err(e) => Err(e@),
    }
}

/// The certificates that are trusted, given what was read from their file and why each is
/// refused.
pub fn accept_authorities(
    certs: Result<Vec<Vec<u8>>, String>,
    refusals: &Vec<Option<String>>,
) -> (r: Result<Vec<Vec<u8>>, TlsSenderError>)
    ensures
        trust_result(r) == trusted(certificates_view(certs), refusal_texts(refusals@)),
{
    let ghost read = certificates_view(certs);
    let chain = match certs {
        Ok(chain) => chain,
        Err(source) => return Err(TlsSenderError { context: None, source }),
    };
    let ghost all = refusal_texts(refusals@);
    let mut i: usize = 0;
    assert(all.skip(0) =~= all);
    while i < refusals.len()
        invariant
            i <= refusals@.len(),
            read == certificates_view(certs),
            read is Ok,
            all == refusal_texts(refusals@),
            first_refusal(all) == first_refusal(all.skip(i as int)),
        decreases refusals@.len() - i,
    {
        assert(all.skip(i as int)[0] == opt_text(refusals@[i as int]));
        assert(all.skip(i as int).skip(1) =~= all.skip(i + 1));
        if let Some(m) = &refusals[i] {
            return Err(
                TlsSenderError {
                    context: Some("adding cert to root store"),
                    source: m.clone(),
                },
            );
        }
        i += 1;
    }
    Ok(chain)
}

/// Why each of some certificates is refused.
pub open spec fn refused_authorities(chain: Seq<Seq<u8>>) -> Seq<Option<Seq<char>>> {
    Seq::new(chain.len(), |i: int| refused_authority(chain[i]))
}

/// The certificates of the authorities that are trusted, from the contents of their file.
pub open spec fn trusted_by_file(file: Seq<u8>) -> Result<Seq<Seq<u8>>, TlsSenderErrorView> {
    trusted(
        pem_certificates(file),
        match pem_certificates(file) {
            Ok(chain) => refused_authorities(chain),
            Err(_) => seq![],
        },
    )
}

/// Reads the certificates of the authorities that are trusted from the contents of their
/// file.
pub fn load_authorities(file: &[u8]) -> (r: Result<Vec<Vec<u8>>, TlsSenderError>)
    ensures
        trust_result(r) == trusted_by_file(file@),
{
    let certs = read_authorities(file);
    let mut refusals: Vec<Option<String>> = Vec::new();
    if let Ok(chain) = &certs {
        let ghost ders = chain_bytes(chain@);
        let mut i: usize = 0;
        while i < chain.len()
            invariant
                i <= chain@.len(),
                ders == chain_bytes(chain@),
                refusal_texts(refusals@) == refused_authorities(ders).take(i as int),
            decreases chain@.len() - i,
        {
            let ghost before = refusal_texts(refusals@);
            let refusal = refusal_of_authority(chain[i].as_slice());
            refusals.push(refusal);
            assert(refusal_texts(refusals@) =~= before.push(refused_authority(ders[i as int])));
            assert(refused_authorities(ders).take(i + 1) =~= before.push(
                refused_authority(ders[i as int]),
            ));
            i += 1;
        }
        assert(refused_authorities(ders).take(i as int) =~= refused_authorities(ders));
    }
    assert(certs is Err ==> refusal_texts(refusals@) =~= seq![]);
    accept_authorities(certs, &refusals)
}

/// The name of a server, given why it is refused, where it is.
pub fn accept_server_name(name: String, refusal: Option<String>) -> (r: Result<
    String,
    TlsSenderError,
>)
    ensures
        match (refusal, r) {
            (None, Ok(n)) => n == name,
            (Some(m), Err(e)) => e@ == (TlsSenderErrorView {
                context: Some("parsing server name"@),
                source: m@,
            }),
            _ => false,
        },
{
    match refusal {
        None => Ok(name),
        Some(source) => Err(TlsSenderError { context: Some("parsing server name"), source }),
    }
}

/// The name that the certificate of a server has to hold, from the address of the server;
/// a host that is neither a DNS name nor an address is an error.
pub fn load_server_name(addr: &str) -> (r: Result<String, TlsSenderError>)
    ensures
        match (refused_server_name(addr@.take(find(addr@, ':'))), r) {
            (None, Ok(n)) => n@ == addr@.take(find(addr@, ':')),
            (Some(m), Err(e)) => e@ == (TlsSenderErrorView {
                context: Some("parsing server name"@),
                source: m,
            }),
            _ => false,
        },
{
    let name = tls_server_name(addr);
    let refusal = refusal_of_server_name(name.as_str());
    accept_server_name(name, refusal)
}

/// A message as it is sent over TLS: a line of its own.
pub fn tls_line(message: SyslogMessage) -> (r: String)
    ensures
        r@ == message.msg@.push('\n'),
{
    let mut encoded = message.msg;
    encoded.push('\n');
    encoded
}

/// Whether messages have the format of RFC 5424; they have that of RFC 3164 otherwise.
pub fn is_rfc5424(format: &str) -> (r: bool)
    ensures
        r == same_ignoring_case(format@, "rfc5424"@),
{
    equal_ignoring_case(format, "rfc5424")
}

// ---- sending ----

impl SyslogTransportView {
    /// The name of the transport.
    pub open spec fn name(self) -> Seq<char> {
        match self {
            SyslogTransportView::Unix(_) => "unix"@,
            SyslogTransportView::Udp(_) => "udp"@,
            SyslogTransportView::Tcp(_) => "tcp"@,
            SyslogTransportView::Tls(..) => "tls"@,
        }
    }

    /// How long the sender waits before it tries again after an error, in seconds.
    pub open spec fn delay(self) -> u64 {
        match self {
            SyslogTransportView::Unix(_) | SyslogTransportView::Udp(_) => 1,
            SyslogTransportView::Tcp(_) | SyslogTransportView::Tls(..) => 5,
        }
    }
}

/// What the sender does next.
#[derive(Debug)]
pub enum SenderAction {
    /// Connect to the system log.
    Connect,
    /// Take the next message.
    Receive,
    /// Hand a message to the system log, with the number of its severity.
    Log { severity: u8, text: String },
    /// Write a line to the connection.
    WriteLine(String),
    /// Warn, then wait for some seconds.
    Wait { warning: String, seconds: u64 },
}

/// A `SenderAction` with its texts.
pub enum SenderActionView {
    Connect,
    Receive,
    Log { severity: u8, text: Seq<char> },
    WriteLine(Seq<char>),
    Wait { warning: Seq<char>, seconds: u64 },
}

impl View for SenderAction {
    type V = SenderActionView;

    open spec fn view(&self) -> SenderActionView {
        match self {
            SenderAction::Connect => SenderActionView::Connect,
            SenderAction::Receive => SenderActionView::Receive,
            SenderAction::Log { severity, text } => SenderActionView::Log {
                severity: *severity,
                text: text@,
            },
            SenderAction::WriteLine(line) => SenderActionView::WriteLine(line@),
            SenderAction::Wait { warning, seconds } => SenderActionView::Wait {
                warning: warning@,
                seconds: *seconds,
            },
        }
    }
}

/// What came of it.
#[derive(Debug)]
pub enum SenderEvent {
    Connected,
    /// There is no connection, with this error.
    NotConnected(String),
    Message(SyslogMessage),
    /// There will be no further messages.
    Closed,
    Written,
    /// The message was not written, with this error.
    NotWritten(String),
    Waited,
}

/// The pause after an error.
pub open spec fn pause(transport: SyslogTransportView, error: Seq<char>) -> SenderActionView {
    SenderActionView::Wait {
        warning: "syslog "@ + transport.name() + " sender error: "@ + error,
        seconds: transport.delay(),
    }
}

/// What the sender does after an event. A message that a native client does not take is
/// lost, and the client goes on; over TLS the connection is given up.
pub open spec fn following(transport: SyslogTransportView, event: SenderEvent) -> SenderActionView {
    match event {
        SenderEvent::Connected => SenderActionView::Receive,
        SenderEvent::NotConnected(e) => pause(transport, e@),
        SenderEvent::Message(m) => match transport {
            SyslogTransportView::Tls(..) => SenderActionView::WriteLine(m.msg@.push('\n')),
            _ => SenderActionView::Log { severity: severity(m.level), text: m.msg@ },
        },
        SenderEvent::Closed => SenderActionView::Connect,
        SenderEvent::Written => SenderActionView::Receive,
        SenderEvent::NotWritten(e) => match transport {
            SyslogTransportView::Tls(..) => pause(transport, e@),
            _ => SenderActionView::Receive,
        },
        SenderEvent::Waited => SenderActionView::Connect,
    }
}

impl SyslogTransport {
    fn pause_after(&self, error: &str) -> (r: SenderAction)
        ensures
            r@ == pause(self@, error@),
    {
        let mut warning = "syslog ".to_owned();
        warning.push_str(
            match self {
                SyslogTransport::Unix(_) => "unix",
                SyslogTransport::Udp(_) => "udp",
                SyslogTransport::Tcp(_) => "tcp",
                SyslogTransport::Tls(_, _) => "tls",
            },
        );
        warning.push_str(" sender error: ");
        warning.push_str(error);
        SenderAction::Wait { warning, seconds: self.retry_delay_secs() }
    }

    /// What the sender does after an event.
    pub fn next_action(&self, event: SenderEvent) -> (r: SenderAction)
        ensures
            r@ == following(self@, event),
    {
        match event {
            SenderEvent::Connected => SenderAction::Receive,
            SenderEvent::NotConnected(e) => self.pause_after(e.as_str()),
            SenderEvent::Message(m) => match self {
                SyslogTransport::Tls(_, _) => SenderAction::WriteLine(tls_line(m)),
                _ => {
                    let severity: u8 = severity_code(&m.level);
                    SenderAction::Log { severity, text: m.msg }
                },
            },
            SenderEvent::Closed => SenderAction::Connect,
            SenderEvent::Written => SenderAction::Receive,
            SenderEvent::NotWritten(e) => match self {
                SyslogTransport::Tls(_, _) => self.pause_after(e.as_str()),
                _ => SenderAction::Receive,
            },
            SenderEvent::Waited => SenderAction::Connect,
        }
    }

    /// Whether the name of the host stands in messages: not in those that stay on it.
    pub fn names_host(&self) -> (r: bool)
        ensures
            r == !(self@ is Unix),
    {
        match self {
            SyslogTransport::Unix(_) => false,
            _ => true,
        }
    }
}

/// An error is always followed by a pause of at least a second before the next attempt to
/// connect, unless the client goes on with the next message; and only a message makes the
/// sender write.
pub proof fn law_sender_does_not_spin(transport: SyslogTransportView, event: SenderEvent)
    ensures
        event is NotConnected || event is NotWritten ==> {
            let next = following(transport, event);
            next is Receive || (next matches SenderActionView::Wait { seconds, .. } && seconds >= 1)
        },
        following(transport, event) is Log || following(transport, event) is WriteLine
            <==> event is Message,
{
}

/// A facility is known by its name, whatever the case of its letters, and has the number that
/// RFC 5424 gives it.
pub proof fn law_facilities_have_their_numbers(name: Seq<char>)
    ensures
        same_ignoring_case(name, "kern"@) ==> facility_number(name) == Some(0u8),
        same_ignoring_case(name, "user"@) ==> facility_number(name) == Some(1u8),
        same_ignoring_case(name, "mail"@) ==> facility_number(name) == Some(2u8),
        same_ignoring_case(name, "daemon"@) ==> facility_number(name) == Some(3u8),
        same_ignoring_case(name, "auth"@) ==> facility_number(name) == Some(4u8),
        same_ignoring_case(name, "syslog"@) ==> facility_number(name) == Some(5u8),
        same_ignoring_case(name, "lpr"@) ==> facility_number(name) == Some(6u8),
        same_ignoring_case(name, "news"@) ==> facility_number(name) == Some(7u8),
        same_ignoring_case(name, "uucp"@) ==> facility_number(name) == Some(8u8),
        same_ignoring_case(name, "cron"@) ==> facility_number(name) == Some(9u8),
        same_ignoring_case(name, "authpriv"@) ==> facility_number(name) == Some(10u8),
        same_ignoring_case(name, "local0"@) ==> facility_number(name) == Some(16u8),
        same_ignoring_case(name, "local1"@) ==> facility_number(name) == Some(17u8),
        same_ignoring_case(name, "local2"@) ==> facility_number(name) == Some(18u8),
        same_ignoring_case(name, "local3"@) ==> facility_number(name) == Some(19u8),
        same_ignoring_case(name, "local4"@) ==> facility_number(name) == Some(20u8),
        same_ignoring_case(name, "local5"@) ==> facility_number(name) == Some(21u8),
        same_ignoring_case(name, "local6"@) ==> facility_number(name) == Some(22u8),
        same_ignoring_case(name, "local7"@) ==> facility_number(name) == Some(23u8),
        Facility::Kern.number() == 0,
        Facility::User.number() == 1,
        Facility::Mail.number() == 2,
        Facility::Daemon.number() == 3,
        Facility::Auth.number() == 4,
        Facility::Syslog.number() == 5,
        Facility::Lpr.number() == 6,
        Facility::News.number() == 7,
        Facility::Uucp.number() == 8,
        Facility::Cron.number() == 9,
        Facility::Authpriv.number() == 10,
        Facility::Local0.number() == 16,
        Facility::Local1.number() == 17,
        Facility::Local2.number() == 18,
        Facility::Local3.number() == 19,
        Facility::Local4.number() == 20,
        Facility::Local5.number() == 21,
        Facility::Local6.number() == 22,
        Facility::Local7.number() == 23,
{
    reveal_strlit("kern");
    reveal_strlit("user");
    reveal_strlit("mail");
    reveal_strlit("daemon");
    reveal_strlit("auth");
    reveal_strlit("syslog");
    reveal_strlit("lpr");
    reveal_strlit("news");
    reveal_strlit("uucp");
    reveal_strlit("cron");
    reveal_strlit("authpriv");
    reveal_strlit("local0");
    reveal_strlit("local1");
    reveal_strlit("local2");
    reveal_strlit("local3");
    reveal_strlit("local4");
    reveal_strlit("local5");
    reveal_strlit("local6");
    reveal_strlit("local7");
    if same_ignoring_case(name, "user"@) {
        assert(ascii_lower(name[0]) == ascii_lower("user"@[0]));
        assert(ascii_lower("kern"@[0]) != ascii_lower("user"@[0]));
    }
    if same_ignoring_case(name, "mail"@) {
        assert(ascii_lower(name[0]) == ascii_lower("mail"@[0]));
        assert(ascii_lower("kern"@[0]) != ascii_lower("mail"@[0]));
        assert(ascii_lower(name[0]) == ascii_lower("mail"@[0]));
        assert(ascii_lower("user"@[0]) != ascii_lower("mail"@[0]));
    }
    if same_ignoring_case(name, "auth"@) {
        assert(ascii_lower(name[0]) == ascii_lower("auth"@[0]));
        assert(ascii_lower("kern"@[0]) != ascii_lower("auth"@[0]));
        assert(ascii_lower(name[0]) == ascii_lower("auth"@[0]));
        assert(ascii_lower("user"@[0]) != ascii_lower("auth"@[0]));
        assert(ascii_lower(name[0]) == ascii_lower("auth"@[0]));
        assert(ascii_lower("mail"@[0]) != ascii_lower("auth"@[0]));
    }
    if same_ignoring_case(name, "syslog"@) {
        assert(ascii_lower(name[0]) == ascii_lower("syslog"@[0]));
        assert(ascii_lower("daemon"@[0]) != ascii_lower("syslog"@[0]));
    }
    if same_ignoring_case(name, "news"@) {
        assert(ascii_lower(name[0]) == ascii_lower("news"@[0]));
        assert(ascii_lower("kern"@[0]) != ascii_lower("news"@[0]));
        assert(ascii_lower(name[0]) == ascii_lower("news"@[0]));
        assert(ascii_lower("user"@[0]) != ascii_lower("news"@[0]));
        assert(ascii_lower(name[0]) == ascii_lower("news"@[0]));
        assert(ascii_lower("mail"@[0]) != ascii_lower("news"@[0]));
        assert(ascii_lower(name[0]) == ascii_lower("news"@[0]));
        assert(ascii_lower("auth"@[0]) != ascii_lower("news"@[0]));
    }
    if same_ignoring_case(name, "uucp"@) {
        assert(ascii_lower(name[0]) == ascii_lower("uucp"@[0]));
        assert(ascii_lower("kern"@[0]) != ascii_lower("uucp"@[0]));
        assert(ascii_lower(name[1]) == ascii_lower("uucp"@[1]));
        assert(ascii_lower("user"@[1]) != ascii_lower("uucp"@[1]));
        assert(ascii_lower(name[0]) == ascii_lower("uucp"@[0]));
        assert(ascii_lower("mail"@[0]) != ascii_lower("uucp"@[0]));
        assert(ascii_lower(name[0]) == ascii_lower("uucp"@[0]));
        assert(ascii_lower("auth"@[0]) != ascii_lower("uucp"@[0]));
        assert(ascii_lower(name[0]) == ascii_lower("uucp"@[0]));
        assert(ascii_lower("news"@[0]) != ascii_lower("uucp"@[0]));
    }
    if same_ignoring_case(name, "cron"@) {
        assert(ascii_lower(name[0]) == ascii_lower("cron"@[0]));
        assert(ascii_lower("kern"@[0]) != ascii_lower("cron"@[0]));
        assert(ascii_lower(name[0]) == ascii_lower("cron"@[0]));
        assert(ascii_lower("user"@[0]) != ascii_lower("cron"@[0]));
        assert(ascii_lower(name[0]) == ascii_lower("cron"@[0]));
        assert(ascii_lower("mail"@[0]) != ascii_lower("cron"@[0]));
        assert(ascii_lower(name[0]) == ascii_lower("cron"@[0]));
        assert(ascii_lower("auth"@[0]) != ascii_lower("cron"@[0]));
        assert(ascii_lower(name[0]) == ascii_lower("cron"@[0]));
        assert(ascii_lower("news"@[0]) != ascii_lower("cron"@[0]));
        assert(ascii_lower(name[0]) == ascii_lower("cron"@[0]));
        assert(ascii_lower("uucp"@[0]) != ascii_lower("cron"@[0]));
    }
    if same_ignoring_case(name, "local0"@) {
        assert(ascii_lower(name[0]) == ascii_lower("local0"@[0]));
        assert(ascii_lower("daemon"@[0]) != ascii_lower("local0"@[0]));
        assert(ascii_lower(name[0]) == ascii_lower("local0"@[0]));
        assert(ascii_lower("syslog"@[0]) != ascii_lower("local0"@[0]));
    }
    if same_ignoring_case(name, "local1"@) {
        assert(ascii_lower(name[0]) == ascii_lower("local1"@[0]));
        assert(ascii_lower("daemon"@[0]) != ascii_lower("local1"@[0]));
        assert(ascii_lower(name[0]) == ascii_lower("local1"@[0]));
        assert(ascii_lower("syslog"@[0]) != ascii_lower("local1"@[0]));
        assert(ascii_lower(name[5]) == ascii_lower("local1"@[5]));
        assert(ascii_lower("local0"@[5]) != ascii_lower("local1"@[5]));
    }
    if same_ignoring_case(name, "local2"@) {
        assert(ascii_lower(name[0]) == ascii_lower("local2"@[0]));
        assert(ascii_lower("daemon"@[0]) != ascii_lower("local2"@[0]));
        assert(ascii_lower(name[0]) == ascii_lower("local2"@[0]));
        assert(ascii_lower("syslog"@[0]) != ascii_lower("local2"@[0]));
        assert(ascii_lower(name[5]) == ascii_lower("local2"@[5]));
        assert(ascii_lower("local0"@[5]) != ascii_lower("local2"@[5]));
        assert(ascii_lower(name[5]) == ascii_lower("local2"@[5]));
        assert(ascii_lower("local1"@[5]) != ascii_lower("local2"@[5]));
    }
    if same_ignoring_case(name, "local3"@) {
        assert(ascii_lower(name[0]) == ascii_lower("local3"@[0]));
        assert(ascii_lower("daemon"@[0]) != ascii_lower("local3"@[0]));
        assert(ascii_lower(name[0]) == ascii_lower("local3"@[0]));
        assert(ascii_lower("syslog"@[0]) != ascii_lower("local3"@[0]));
        assert(ascii_lower(name[5]) == ascii_lower("local3"@[5]));
        assert(ascii_lower("local0"@[5]) != ascii_lower("local3"@[5]));
        assert(ascii_lower(name[5]) == ascii_lower("local3"@[5]));
        assert(ascii_lower("local1"@[5]) != ascii_lower("local3"@[5]));
        assert(ascii_lower(name[5]) == ascii_lower("local3"@[5]));
        assert(ascii_lower("local2"@[5]) != ascii_lower("local3"@[5]));
    }
    if same_ignoring_case(name, "local4"@) {
        assert(ascii_lower(name[0]) == ascii_lower("local4"@[0]));
        assert(ascii_lower("daemon"@[0]) != ascii_lower("local4"@[0]));
        assert(ascii_lower(name[0]) == ascii_lower("local4"@[0]));
        assert(ascii_lower("syslog"@[0]) != ascii_lower("local4"@[0]));
        assert(ascii_lower(name[5]) == ascii_lower("local4"@[5]));
        assert(ascii_lower("local0"@[5]) != ascii_lower("local4"@[5]));
        assert(ascii_lower(name[5]) == ascii_lower("local4"@[5]));
        assert(ascii_lower("local1"@[5]) != ascii_lower("local4"@[5]));
        assert(ascii_lower(name[5]) == ascii_lower("local4"@[5]));
        assert(ascii_lower("local2"@[5]) != ascii_lower("local4"@[5]));
        assert(ascii_lower(name[5]) == ascii_lower("local4"@[5]));
        assert(ascii_lower("local3"@[5]) != ascii_lower("local4"@[5]));
    }
    if same_ignoring_case(name, "local5"@) {
        assert(ascii_lower(name[0]) == ascii_lower("local5"@[0]));
        assert(ascii_lower("daemon"@[0]) != ascii_lower("local5"@[0]));
        assert(ascii_lower(name[0]) == ascii_lower("local5"@[0]));
        assert(ascii_lower("syslog"@[0]) != ascii_lower("local5"@[0]));
        assert(ascii_lower(name[5]) == ascii_lower("local5"@[5]));
        assert(ascii_lower("local0"@[5]) != ascii_lower("local5"@[5]));
        assert(ascii_lower(name[5]) == ascii_lower("local5"@[5]));
        assert(ascii_lower("local1"@[5]) != ascii_lower("local5"@[5]));
        assert(ascii_lower(name[5]) == ascii_lower("local5"@[5]));
        assert(ascii_lower("local2"@[5]) != ascii_lower("local5"@[5]));
        assert(ascii_lower(name[5]) == ascii_lower("local5"@[5]));
        assert(ascii_lower("local3"@[5]) != ascii_lower("local5"@[5]));
        assert(ascii_lower(name[5]) == ascii_lower("local5"@[5]));
        assert(ascii_lower("local4"@[5]) != ascii_lower("local5"@[5]));
    }
    if same_ignoring_case(name, "local6"@) {
        assert(ascii_lower(name[0]) == ascii_lower("local6"@[0]));
        assert(ascii_lower("daemon"@[0]) != ascii_lower("local6"@[0]));
        assert(ascii_lower(name[0]) == ascii_lower("local6"@[0]));
        assert(ascii_lower("syslog"@[0]) != ascii_lower("local6"@[0]));
        assert(ascii_lower(name[5]) == ascii_lower("local6"@[5]));
        assert(ascii_lower("local0"@[5]) != ascii_lower("local6"@[5]));
        assert(ascii_lower(name[5]) == ascii_lower("local6"@[5]));
        assert(ascii_lower("local1"@[5]) != ascii_lower("local6"@[5]));
        assert(ascii_lower(name[5]) == ascii_lower("local6"@[5]));
        assert(ascii_lower("local2"@[5]) != ascii_lower("local6"@[5]));
        assert(ascii_lower(name[5]) == ascii_lower("local6"@[5]));
        assert(ascii_lower("local3"@[5]) != ascii_lower("local6"@[5]));
        assert(ascii_lower(name[5]) == ascii_lower("local6"@[5]));
        assert(ascii_lower("local4"@[5]) != ascii_lower("local6"@[5]));
        assert(ascii_lower(name[5]) == ascii_lower("local6"@[5]));
        assert(ascii_lower("local5"@[5]) != ascii_lower("local6"@[5]));
    }
    if same_ignoring_case(name, "local7"@) {
        assert(ascii_lower(name[0]) == ascii_lower("local7"@[0]));
        assert(ascii_lower("daemon"@[0]) != ascii_lower("local7"@[0]));
        assert(ascii_lower(name[0]) == ascii_lower("local7"@[0]));
        assert(ascii_lower("syslog"@[0]) != ascii_lower("local7"@[0]));
        assert(ascii_lower(name[5]) == ascii_lower("local7"@[5]));
        assert(ascii_lower("local0"@[5]) != ascii_lower("local7"@[5]));
        assert(ascii_lower(name[5]) == ascii_lower("local7"@[5]));
        assert(ascii_lower("local1"@[5]) != ascii_lower("local7"@[5]));
        assert(ascii_lower(name[5]) == ascii_lower("local7"@[5]));
        assert(ascii_lower("local2"@[5]) != ascii_lower("local7"@[5]));
        assert(ascii_lower(name[5]) == ascii_lower("local7"@[5]));
        assert(ascii_lower("local3"@[5]) != ascii_lower("local7"@[5]));
        assert(ascii_lower(name[5]) == ascii_lower("local7"@[5]));
        assert(ascii_lower("local4"@[5]) != ascii_lower("local7"@[5]));
        assert(ascii_lower(name[5]) == ascii_lower("local7"@[5]));
        assert(ascii_lower("local5"@[5]) != ascii_lower("local7"@[5]));
        assert(ascii_lower(name[5]) == ascii_lower("local7"@[5]));
        assert(ascii_lower("local6"@[5]) != ascii_lower("local7"@[5]));
    }
}

/// A text that is the name of no facility is an error that names it, and no number is that
/// of two facilities.
pub proof fn law_facilities_are_told_apart(f: Facility, g: Facility, name: Seq<char>)
    ensures
        f.number() == g.number() ==> f == g,
        name.is_suffix_of(unknown_facility(name)),
        facility_number(name) matches Some(n) ==> n <= 10 || 16 <= n <= 23,
{
    let m = unknown_facility(name);
    assert(m.subrange(m.len() - name.len(), m.len() as int) =~= name);
}

/// The more urgent a message, the smaller the number of its severity, as RFC 5424 has it: 3
/// for errors, 4 for warnings, 6 for information and 7 for everything else.
pub proof fn law_severities_are_those_of_the_standard(level: Level)
    ensures
        severity(level) == 3 <==> level is Error,
        severity(level) == 4 <==> level is Warn,
        severity(level) == 6 <==> level is Info,
        severity(level) == 7 <==> level is Debug || level is Trace,
{
}

/// A level has one name, but for the warnings, which have two; no other text names a level.
pub proof fn law_levels_are_found_by_name(name: Seq<char>)
    ensures
        level_with_name(name) == Some(Level::Error) <==> name == "error"@,
        level_with_name(name) == Some(Level::Warn) <==> name == "warn"@ || name == "warning"@,
        level_with_name(name) == Some(Level::Info) <==> name == "info"@,
        level_with_name(name) == Some(Level::Debug) <==> name == "debug"@,
        level_with_name(name) == Some(Level::Trace) <==> name == "trace"@,
{
    reveal_strlit("error");
    reveal_strlit("warn");
    reveal_strlit("warning");
    reveal_strlit("info");
    reveal_strlit("debug");
    reveal_strlit("trace");
    assert("error"@[0] != "debug"@[0]);
    assert("error"@[0] != "trace"@[0]);
    assert("trace"@[0] != "debug"@[0]);
    assert("warn"@[0] != "info"@[0]);
    assert("warning"@.len() == 7 && "error"@.len() == 5 && "warn"@.len() == 4 && "info"@.len() == 4);
}

/// The transport is the one that is named, and the local socket where none is; the server is
/// the configured one, or else the usual one of the transport. TLS needs the certificate of
/// an authority, and a name that is none is an error that tells it.
pub proof fn law_transports_are_configured(
    transport: Option<Seq<char>>,
    server: Option<Seq<char>>,
    ca_path: Option<Seq<char>>,
)
    ensures
        ({
            let r = configured_transport(transport, server, ca_path);
            let at = |usual: Seq<char>|
                match server {
                    Some(s) => s,
                    None => usual,
                };
            &&& transport is None ==> r == configured_transport(Some("unix"@), server, ca_path)
            &&& transport matches Some(t) ==> {
                &&& t == "unix"@ ==> r == Ok::<SyslogTransportView, Seq<char>>(
                    SyslogTransportView::Unix(at("/dev/log"@)),
                )
                &&& t == "udp"@ ==> r == Ok::<SyslogTransportView, Seq<char>>(
                    SyslogTransportView::Udp(at("127.0.0.1:514"@)),
                )
                &&& t == "tcp"@ ==> r == Ok::<SyslogTransportView, Seq<char>>(
                    SyslogTransportView::Tcp(at("127.0.0.1:514"@)),
                )
                &&& t == "tls"@ ==> match ca_path {
                    Some(c) => r == Ok::<SyslogTransportView, Seq<char>>(
                        SyslogTransportView::Tls(at("127.0.0.1:514"@), c),
                    ),
                    None => r is Err,
                }
                &&& t != "unix"@ && t != "udp"@ && t != "tcp"@ && t != "tls"@ ==> (r matches Err(m)
                    && t.is_suffix_of(m))
            }
        }),
{
    reveal_strlit("unix");
    reveal_strlit("udp");
    reveal_strlit("tcp");
    reveal_strlit("tls");
    assert("udp"@[0] != "tcp"@[0]);
    assert("udp"@[0] != "tls"@[0]);
    assert("tcp"@[1] != "tls"@[1]);
    assert("unix"@.len() == 4 && "udp"@.len() == 3 && "tcp"@.len() == 3 && "tls"@.len() == 3);
    if let Some(t) = transport {
        let m = "unknown syslog transport: "@ + t;
        assert(m.subrange(m.len() - t.len(), m.len() as int) =~= t);
    }
}

/// A message is sent as it is: with its severity to a native client, and over TLS as a line
/// of its own. Once it was sent, or could not be sent by a native client, the next is taken.
pub proof fn law_messages_are_sent_as_they_are(transport: SyslogTransportView, m: SyslogMessage)
    ensures
        transport is Tls ==> following(transport, SenderEvent::Message(m))
            == SenderActionView::WriteLine(m.msg@.push('\n')),
        !(transport is Tls) ==> following(transport, SenderEvent::Message(m))
            == (SenderActionView::Log { severity: severity(m.level), text: m.msg@ }),
        following(transport, SenderEvent::Written) is Receive,
        following(transport, SenderEvent::Connected) is Receive,
        following(transport, SenderEvent::Closed) is Connect,
        following(transport, SenderEvent::Waited) is Connect,
{
}

/// Where there is no connection, or TLS has lost it, the error is told with the name of the
/// transport, and the next attempt follows after one second for a local socket and UDP, and
/// after five for TCP and TLS. A native client does not wait for a message that was lost.
pub proof fn law_errors_are_told_before_the_next_attempt(
    transport: SyslogTransportView,
    error: String,
)
    ensures
        following(transport, SenderEvent::NotConnected(error)) matches SenderActionView::Wait {
            warning,
            seconds,
        } && error@.is_suffix_of(warning) && seconds == if transport is Unix || transport is Udp {
            1u64
        } else {
            5u64
        },
        transport is Tls ==> following(transport, SenderEvent::NotWritten(error)) == following(
            transport,
            SenderEvent::NotConnected(error),
        ),
        !(transport is Tls) ==> following(transport, SenderEvent::NotWritten(error)) is Receive,
{
    let m = "syslog "@ + transport.name() + " sender error: "@ + error@;
    assert(m.subrange(m.len() - error@.len(), m.len() as int) =~= error@);
}

/// Authorities are trusted exactly where their file can be read and none of them is refused,
/// and then all of them, in their order; what is told is what is wrong with the file, or
/// else why the first that is refused is.
pub proof fn law_authorities_are_trusted_together(
    certs: Result<Seq<Seq<u8>>, Seq<char>>,
    refusals: Seq<Option<Seq<char>>>,
    i: int,
)
    ensures
        certs matches Err(m) ==> (trusted(certs, refusals) matches Err(e) && e.source == m
            && e.context is None),
        certs matches Ok(chain) ==> {
            &&& (forall|j: int| 0 <= j < refusals.len() ==> #[trigger] refusals[j] is None)
                ==> trusted(certs, refusals) == Ok::<Seq<Seq<u8>>, TlsSenderErrorView>(chain)
            &&& 0 <= i < refusals.len() && refusals[i] is Some && (forall|j: int|
                0 <= j < i ==> #[trigger] refusals[j] is None) ==> (trusted(
                certs,
                refusals,
            ) matches Err(e) && Some(e.source) == refusals[i] && e.context == Some(
                "adding cert to root store"@,
            ))
        },
{
    if forall|j: int| 0 <= j < refusals.len() ==> #[trigger] refusals[j] is None {
        lemma_no_refusal(refusals);
    }
    if 0 <= i < refusals.len() && refusals[i] is Some && (forall|j: int|
        0 <= j < i ==> #[trigger] refusals[j] is None) {
        lemma_first_refusal(refusals, i);
    }
}

proof fn lemma_no_refusal(refusals: Seq<Option<Seq<char>>>)
    requires
        forall|j: int| 0 <= j < refusals.len() ==> #[trigger] refusals[j] is None,
    ensures
        first_refusal(refusals) is None,
    decreases refusals.len(),
{
    if refusals.len() > 0 {
        assert(refusals[0] is None);
        lemma_no_refusal(refusals.skip(1));
    }
}

proof fn lemma_first_refusal(refusals: Seq<Option<Seq<char>>>, i: int)
    requires
        0 <= i < refusals.len(),
        refusals[i] is Some,
        forall|j: int| 0 <= j < i ==> #[trigger] refusals[j] is None,
    ensures
        first_refusal(refusals) == refusals[i],
    decreases i,
{
    if i > 0 {
        assert(refusals[0] is None);
        lemma_first_refusal(refusals.skip(1), i - 1);
    }
}

/// A file is trusted with all its certificates, unless it cannot be read or one of them is
/// refused.
pub proof fn law_files_are_trusted_whole(file: Seq<u8>)
    ensures
        trusted_by_file(file) matches Ok(chain) ==> pem_certificates(file) == Ok::<
            Seq<Seq<u8>>,
            Seq<char>,
        >(chain),
        pem_certificates(file) matches Ok(chain) ==> ((forall|i: int|
            0 <= i < chain.len() ==> refused_authority(#[trigger] chain[i]) is None)
            ==> trusted_by_file(file) == Ok::<Seq<Seq<u8>>, TlsSenderErrorView>(chain)),
        pem_certificates(file) matches Err(m) ==> (trusted_by_file(file) matches Err(e) && e.source
            == m),
{
    if let Ok(chain) = pem_certificates(file) {
        let refusals = refused_authorities(chain);
        if forall|i: int| 0 <= i < chain.len() ==> refused_authority(#[trigger] chain[i]) is None {
            assert forall|j: int| 0 <= j < refusals.len() implies #[trigger] refusals[j] is None by {
                assert(refused_authority(chain[j]) is None);
            }
            lemma_no_refusal(refusals);
        }
    }
}

/// All that is known of a failure ends with its cause.
pub proof fn law_full_text_ends_with_the_cause(e: TlsSenderErrorView)
    ensures
        e.source.is_suffix_of(e.full_text()),
        e.context matches Some(c) ==> e.full_text() == c + ": "@ + e.source,
        e.context is None ==> e.full_text() == e.source,
{
    let t = e.full_text();
    assert(t.subrange(t.len() - e.source.len(), t.len() as int) =~= e.source);
}

/// Every level is shown by its own name.
pub proof fn law_levels_are_shown_by_name(level: Level)
    ensures
        level is Error ==> level.shown() == "ERROR"@,
        level is Warn ==> level.shown() == "WARN"@,
        level is Info ==> level.shown() == "INFO"@,
        level is Debug ==> level.shown() == "DEBUG"@,
        level is Trace ==> level.shown() == "TRACE"@,
{
}

/// A file with an authority that is refused is not trusted, and the first refusal is told.
pub proof fn law_refused_authorities_are_told(file: Seq<u8>, chain: Seq<Seq<u8>>, i: int)
    requires
        pem_certificates(file) == Ok::<Seq<Seq<u8>>, Seq<char>>(chain),
        0 <= i < chain.len(),
        refused_authority(chain[i]) is Some,
        forall|j: int| 0 <= j < i ==> refused_authority(#[trigger] chain[j]) is None,
    ensures
        trusted_by_file(file) matches Err(e) && Some(e.source) == refused_authority(chain[i]),
{
    let refusals = refused_authorities(chain);
    assert forall|j: int| 0 <= j < i implies #[trigger] refusals[j] is None by {
        assert(refused_authority(chain[j]) is None);
    }
    lemma_first_refusal(refusals, i);
}

/// A failure is told by what was tried, and where nothing is said of that by its cause.
pub proof fn law_failures_are_told_by_the_attempt(e: TlsSenderErrorView)
    ensures
        e.context matches Some(c) ==> e.text() == c,
        e.context is None ==> e.text() == e.source,
{
}

/// Every transport is told by its name, and what the sender does is seen as it is.
pub proof fn law_transports_are_told_by_name(t: SyslogTransportView, text: String)
    ensures
        t is Unix ==> t.name() == "unix"@,
        t is Udp ==> t.name() == "udp"@,
        t is Tcp ==> t.name() == "tcp"@,
        t is Tls ==> t.name() == "tls"@,
        SenderAction::Connect@ is Connect,
        SenderAction::Receive@ is Receive,
        SenderAction::WriteLine(text)@ == SenderActionView::WriteLine(text@),
{
}

} // verus!
