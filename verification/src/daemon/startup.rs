//! How the daemon starts: which step follows which, and what the user is told where one
//! fails.

use crate::config::schema::{ListenConfig, TlsSocketConfig};
use crate::listeners::bind::{
    are_bind_addrs, bind_addr, invalid_address, is_first_invalid, law_bad_addresses_are_not_bound,
    parse_bind_addrs, ListenerSetupError,
};
use crate::net::{show_socket_addr, shown_socket_addr, SocketAddr};
use crate::tls::TlsUse;
use vstd::prelude::*;

verus! {

// ---- the steps ----

/// A step of the start.
#[derive(Clone, Copy, Debug, PartialEq, Eq, Structural)]
pub enum Stage {
    /// Read the configuration file.
    ReadConfig,
    /// Make a configuration of it.
    ParseConfig,
    /// Check the configuration.
    ValidateConfig,
    /// Set up logging, while the system log is in reach.
    InitLogging,
    /// Bind the sockets of the listeners, as the superuser.
    BindListeners,
    /// Find the path of the control socket.
    ResolveControlSocket,
    /// Bind the control socket.
    BindControlSocket,
    /// Give up the privileges of the superuser.
    DropPrivileges,
    /// Find the URL of the database.
    ResolveDatabase,
    /// Open the database.
    OpenDatabase,
    /// Fill an empty database from the configuration.
    SeedDatabase,
    /// Take the settings from the database.
    ApplyDatabase,
    /// Set up the upstream servers.
    BuildResolver,
    /// Set up the filter.
    BuildFilter,
    /// Set up the policy for queries of the type ANY.
    BuildAnyPolicy,
    /// Set up the zones.
    BuildZones,
    /// Listen for the signals that end the daemon.
    ShutdownSignals,
    /// Listen for the signal that reloads the configuration.
    ReloadSignal,
    /// Begin to count.
    InitMetrics,
    /// Answer queries.
    Serve,
}

/// The step that follows a step that succeeded.
pub open spec fn following(stage: Stage) -> Stage {
    match stage {
        Stage::ReadConfig => Stage::ParseConfig,
        Stage::ParseConfig => Stage::ValidateConfig,
        Stage::ValidateConfig => Stage::InitLogging,
        Stage::InitLogging => Stage::BindListeners,
        Stage::BindListeners => Stage::ResolveControlSocket,
        Stage::ResolveControlSocket => Stage::BindControlSocket,
        Stage::BindControlSocket => Stage::DropPrivileges,
        Stage::DropPrivileges => Stage::ResolveDatabase,
        Stage::ResolveDatabase => Stage::OpenDatabase,
        Stage::OpenDatabase => Stage::SeedDatabase,
        Stage::SeedDatabase => Stage::ApplyDatabase,
        Stage::ApplyDatabase => Stage::BuildResolver,
        Stage::BuildResolver => Stage::BuildFilter,
        Stage::BuildFilter => Stage::BuildAnyPolicy,
        Stage::BuildAnyPolicy => Stage::BuildZones,
        Stage::BuildZones => Stage::ShutdownSignals,
        Stage::ShutdownSignals => Stage::ReloadSignal,
        Stage::ReloadSignal => Stage::InitMetrics,
        Stage::InitMetrics => Stage::Serve,
        Stage::Serve => Stage::Serve,
    }
}

/// The step that follows a step that succeeded.
pub fn next_stage(stage: Stage) -> (r: Stage)
    ensures
        r == following(stage),
{
    match stage {
        Stage::ReadConfig => Stage::ParseConfig,
        Stage::ParseConfig => Stage::ValidateConfig,
        Stage::ValidateConfig => Stage::InitLogging,
        Stage::InitLogging => Stage::BindListeners,
        Stage::BindListeners => Stage::ResolveControlSocket,
        Stage::ResolveControlSocket => Stage::BindControlSocket,
        Stage::BindControlSocket => Stage::DropPrivileges,
        Stage::DropPrivileges => Stage::ResolveDatabase,
        Stage::ResolveDatabase => Stage::OpenDatabase,
        Stage::OpenDatabase => Stage::SeedDatabase,
        Stage::SeedDatabase => Stage::ApplyDatabase,
        Stage::ApplyDatabase => Stage::BuildResolver,
        Stage::BuildResolver => Stage::BuildFilter,
        Stage::BuildFilter => Stage::BuildAnyPolicy,
        Stage::BuildAnyPolicy => Stage::BuildZones,
        Stage::BuildZones => Stage::ShutdownSignals,
        Stage::ShutdownSignals => Stage::ReloadSignal,
        Stage::ReloadSignal => Stage::InitMetrics,
        Stage::InitMetrics => Stage::Serve,
        Stage::Serve => Stage::Serve,
    }
}

/// What the user is told where a step fails.
pub open spec fn stage_message(stage: Stage, config_path: Seq<char>, error: Seq<char>) -> Seq<char> {
    match stage {
        Stage::ReadConfig => "Could not read the config file.\n  File: "@ + config_path + "\n  Reason: "@
            + error,
        Stage::ValidateConfig => "invalid configuration: "@ + error,
        Stage::InitLogging => "failed to initialize logging: "@ + error,
        Stage::ResolveControlSocket => "invalid control.socket_path for chroot runtime: "@ + error,
        Stage::BindControlSocket => "failed to bind control socket: "@ + error,
        Stage::DropPrivileges => "failed to drop privileges: "@ + error,
        Stage::ResolveDatabase => "invalid database.url for chroot runtime: "@ + error,
        Stage::OpenDatabase => "failed to initialize database: "@ + error,
        Stage::SeedDatabase => "failed to seed database: "@ + error,
        Stage::ApplyDatabase => "failed to load operational config from database: "@ + error,
        Stage::BuildResolver => "invalid upstream configuration: "@ + error,
        Stage::BuildFilter => "invalid filtering configuration: "@ + error,
        Stage::BuildAnyPolicy => "invalid filtering configuration: "@ + error,
        Stage::BuildZones => "invalid zone forwarding configuration: "@ + error,
        Stage::ShutdownSignals => "failed to set up shutdown signal handlers: "@ + error,
        Stage::ReloadSignal => "failed to set up signal handler: "@ + error,
        Stage::InitMetrics => "failed to initialize metrics: "@ + error,
        Stage::ParseConfig | Stage::BindListeners | Stage::Serve => ""@ + error,
    }
}

/// What the user is told where a step fails; the program then ends with the code 1.
pub fn stage_failure(stage: Stage, config_path: &str, error: &str) -> (r: String)
    ensures
        r@ == stage_message(stage, config_path@, error@),
{
    if stage == Stage::ReadConfig {
        let mut m = "Could not read the config file.\n  File: ".to_owned();
        m.push_str(config_path);
        m.push_str("\n  Reason: ");
        m.push_str(error);
        return m;
    }
    let prefix = match stage {
        Stage::ValidateConfig => "invalid configuration: ",
        Stage::InitLogging => "failed to initialize logging: ",
        Stage::ResolveControlSocket => "invalid control.socket_path for chroot runtime: ",
        Stage::BindControlSocket => "failed to bind control socket: ",
        Stage::DropPrivileges => "failed to drop privileges: ",
        Stage::ResolveDatabase => "invalid database.url for chroot runtime: ",
        Stage::OpenDatabase => "failed to initialize database: ",
        Stage::SeedDatabase => "failed to seed database: ",
        Stage::ApplyDatabase => "failed to load operational config from database: ",
        Stage::BuildResolver => "invalid upstream configuration: ",
        Stage::BuildFilter => "invalid filtering configuration: ",
        Stage::BuildAnyPolicy => "invalid filtering configuration: ",
        Stage::BuildZones => "invalid zone forwarding configuration: ",
        Stage::ShutdownSignals => "failed to set up shutdown signal handlers: ",
        Stage::ReloadSignal => "failed to set up signal handler: ",
        Stage::InitMetrics => "failed to initialize metrics: ",
        _ => "",
    };
    let mut m = prefix.to_owned();
    m.push_str(error);
    m
}

/// The place of a step in the start.
pub open spec fn place(stage: Stage) -> nat {
    match stage {
        Stage::ReadConfig => 0,
        Stage::ParseConfig => 1,
        Stage::ValidateConfig => 2,
        Stage::InitLogging => 3,
        Stage::BindListeners => 4,
        Stage::ResolveControlSocket => 5,
        Stage::BindControlSocket => 6,
        Stage::DropPrivileges => 7,
        Stage::ResolveDatabase => 8,
        Stage::OpenDatabase => 9,
        Stage::SeedDatabase => 10,
        Stage::ApplyDatabase => 11,
        Stage::BuildResolver => 12,
        Stage::BuildFilter => 13,
        Stage::BuildAnyPolicy => 14,
        Stage::BuildZones => 15,
        Stage::ShutdownSignals => 16,
        Stage::ReloadSignal => 17,
        Stage::InitMetrics => 18,
        Stage::Serve => 19,
    }
}

/// Every socket is bound before the privileges of the superuser are given up, and those
/// are given up before the database is opened and before any query is answered. Logging
/// is there before both.
pub proof fn law_sockets_are_bound_before_privileges_go()
    ensures
        place(Stage::InitLogging) < place(Stage::BindListeners),
        place(Stage::BindListeners) < place(Stage::BindControlSocket),
        place(Stage::BindControlSocket) < place(Stage::DropPrivileges),
        place(Stage::DropPrivileges) < place(Stage::OpenDatabase),
        place(Stage::DropPrivileges) < place(Stage::Serve),
        forall|s: Stage|
            !(s is Serve) ==> place(#[trigger] following(s)) == place(s) + 1,
{
}

/// From where a path is seen.
#[derive(Clone, Copy, Debug, PartialEq, Eq, Structural)]
pub enum PathView {
    /// From the root directory of the machine.
    Host,
    /// From the root directory of the daemon.
    Runtime,
}

/// From where the paths of a step are seen: the root directory changes when a superuser
/// gives up its privileges.
pub open spec fn seen_from(stage: Stage, is_root: bool) -> PathView {
    if is_root && place(stage) > place(Stage::DropPrivileges) {
        PathView::Runtime
    } else {
        PathView::Host
    }
}

/// From where the paths of a step are seen.
pub fn path_view(stage: Stage, is_root: bool) -> (r: PathView)
    ensures
        r == seen_from(stage, is_root),
{
    if !is_root {
        return PathView::Host;
    }
    match stage {
        Stage::ReadConfig | Stage::ParseConfig | Stage::ValidateConfig | Stage::InitLogging
        | Stage::BindListeners | Stage::ResolveControlSocket | Stage::BindControlSocket
        | Stage::DropPrivileges => PathView::Host,
        _ => PathView::Runtime,
    }
}

// ---- listeners ----

/// A protocol over TLS.
#[derive(Clone, Copy, Debug, PartialEq, Eq, Structural)]
pub enum SecureProtocol {
    Dot,
    Doh,
    Doq,
}

impl SecureProtocol {
    /// The name of the protocol in messages.
    pub open spec fn shown(self) -> Seq<char> {
        match self {
            SecureProtocol::Dot => "DoT"@,
            SecureProtocol::Doh => "DoH"@,
            SecureProtocol::Doq => "DoQ"@,
        }
    }

    /// The name of the protocol in messages.
    pub fn name(self) -> (r: &'static str)
        ensures
            r@ == self.shown(),
    {
        match self {
            SecureProtocol::Dot => "DoT",
            SecureProtocol::Doh => "DoH",
            SecureProtocol::Doq => "DoQ",
        }
    }

    /// The use of TLS by the protocol.
    pub open spec fn spec_tls_use(self) -> TlsUse {
        match self {
            SecureProtocol::Dot => TlsUse::Dot,
            SecureProtocol::Doh => TlsUse::Doh,
            SecureProtocol::Doq => TlsUse::Doq,
        }
    }

    /// The use of TLS by the protocol.
    pub fn tls_use(self) -> (r: TlsUse)
        ensures
            r == self.spec_tls_use(),
            r == match self {
                SecureProtocol::Dot => TlsUse::Dot,
                SecureProtocol::Doh => TlsUse::Doh,
                SecureProtocol::Doq => TlsUse::Doq,
            },
    {
        match self {
            SecureProtocol::Dot => TlsUse::Dot,
            SecureProtocol::Doh => TlsUse::Doh,
            SecureProtocol::Doq => TlsUse::Doq,
        }
    }

    /// Whether the protocol runs over UDP.
    pub fn over_udp(self) -> (r: bool)
        ensures
            r == (self is Doq),
    {
        match self {
            SecureProtocol::Doq => true,
            _ => false,
        }
    }
}

/// A socket that waits for plain queries.
#[derive(Clone, Copy, Debug, PartialEq, Eq, Structural)]
pub struct DnsSocket {
    pub udp: bool,
    pub address: SocketAddr,
}

/// The sockets for addresses: for each address one of UDP, then one of TCP.
pub open spec fn dns_sockets(addrs: Seq<SocketAddr>) -> Seq<DnsSocket> {
    Seq::new(
        2 * addrs.len(),
        |i: int| DnsSocket { udp: i % 2 == 0, address: addrs[i / 2] },
    )
}

/// What the user is told about an address that stands for nothing.
pub open spec fn address_message(protocol: Seq<char>, addr: Seq<char>, source: Seq<char>) -> Seq<char> {
    "failed to parse "@ + protocol + " bind addresses: "@ + invalid_address(addr, source)
}

/// What the user is told about an address that stands for nothing.
pub fn address_failure(protocol: &str, error: &ListenerSetupError) -> (r: String)
    ensures
        r@ == "failed to parse "@ + protocol@ + " bind addresses: "@ + error.text(),
{
    let mut m = "failed to parse ".to_owned();
    m.push_str(protocol);
    m.push_str(" bind addresses: ");
    m.push_str(error.message().as_str());
    m
}

/// Whether a result is the sockets for plain queries.
pub open spec fn dns_planned(listen: ListenConfig, r: Result<Vec<DnsSocket>, String>) -> bool {
    match listen.dns {
        Some(c) => if c.enabled {
            match r {
                Ok(sockets) => exists|list: Seq<SocketAddr>| #[trigger]
                    are_bind_addrs(c.addresses@, c.port, list) && sockets@ == dns_sockets(list),
                Err(m) => exists|addr: Seq<char>, source: Seq<char>| #[trigger]
                    is_first_invalid(c.addresses@, c.port, addr, source) && m@ == address_message(
                        "DNS"@,
                        addr,
                        source,
                    ),
            }
        } else {
            r matches Err(m) && m@ == "listen.dns must be configured with enabled: true"@
        },
        None => r matches Err(m) && m@ == "listen.dns must be configured with enabled: true"@,
    }
}

/// The sockets for plain queries. Without a listener for them the daemon does not start.
pub fn plan_dns(listen: &ListenConfig) -> (r: Result<Vec<DnsSocket>, String>)
    ensures
        dns_planned(*listen, r),
        match listen.dns {
            Some(c) => if c.enabled {
                match r {
                    Ok(sockets) => exists|list: Seq<SocketAddr>| #[trigger]
                        are_bind_addrs(c.addresses@, c.port, list) && sockets@ == dns_sockets(list),
                    Err(m) => exists|addr: Seq<char>, source: Seq<char>| #[trigger]
                        is_first_invalid(c.addresses@, c.port, addr, source) && m@ == address_message(
                            "DNS"@,
                            addr,
                            source,
                        ),
                }
            } else {
                r matches Err(m) && m@ == "listen.dns must be configured with enabled: true"@
            },
            None => r matches Err(m) && m@ == "listen.dns must be configured with enabled: true"@,
        },
{
    match &listen.dns {
        Some(c) => {
            if !c.enabled {
                return Err("listen.dns must be configured with enabled: true".to_owned());
            }
            match parse_bind_addrs(&c.addresses, c.port) {
                Err(e) => {
                    Err(address_failure("DNS", &e))
                },
                Ok(addrs) => {
                    Ok(sockets_for(&addrs))
                },
            }
        },
        None => Err("listen.dns must be configured with enabled: true".to_owned()),
    }
}

fn sockets_for(addrs: &Vec<SocketAddr>) -> (r: Vec<DnsSocket>)
    ensures
        r@ == dns_sockets(addrs@),
{
    let mut out: Vec<DnsSocket> = Vec::new();
    let mut i: usize = 0;
    while i < addrs.len()
        invariant
            i <= addrs@.len(),
            out@.len() == 2 * i,
            out@ == dns_sockets(addrs@).take(2 * i),
        decreases addrs@.len() - i,
    {
        let ghost before = out@;
        out.push(DnsSocket { udp: true, address: addrs[i] });
        out.push(DnsSocket { udp: false, address: addrs[i] });
        proof {
            assert forall|k: int| 0 <= k < 2 * (i + 1) implies out@[k] == dns_sockets(addrs@)[k] by {
                if k < 2 * i {
                    assert(out@[k] == before[k]);
                    assert(before[k] == dns_sockets(addrs@).take(2 * i)[k]);
                }
            }
            assert(out@ =~= dns_sockets(addrs@).take(2 * (i + 1)));
        }
        i += 1;
    }
    assert(dns_sockets(addrs@).take(2 * i) =~= dns_sockets(addrs@));
    out
}

/// Whether a result is the addresses of a listener over TLS.
pub open spec fn secure_planned(
    protocol: SecureProtocol,
    config: Option<TlsSocketConfig>,
    r: Result<Option<Vec<SocketAddr>>, String>,
) -> bool {
    match config {
        Some(c) => if c.enabled {
            match r {
                Ok(Some(list)) => are_bind_addrs(c.addresses@, c.port, list@),
                Ok(None) => false,
                Err(m) => exists|addr: Seq<char>, source: Seq<char>| #[trigger]
                    is_first_invalid(c.addresses@, c.port, addr, source) && m@ == address_message(
                        protocol.shown(),
                        addr,
                        source,
                    ),
            }
        } else {
            r == Ok::<Option<Vec<SocketAddr>>, String>(None)
        },
        None => r == Ok::<Option<Vec<SocketAddr>>, String>(None),
    }
}

/// The addresses of a listener over TLS; none where it is not enabled.
pub fn plan_secure(protocol: SecureProtocol, config: &Option<TlsSocketConfig>) -> (r: Result<
    Option<Vec<SocketAddr>>,
    String,
>)
    ensures
        secure_planned(protocol, *config, r),
        match *config {
            Some(c) => if c.enabled {
                match r {
                    Ok(Some(list)) => are_bind_addrs(c.addresses@, c.port, list@),
                    Ok(None) => false,
                    Err(m) => exists|addr: Seq<char>, source: Seq<char>| #[trigger]
                        is_first_invalid(c.addresses@, c.port, addr, source) && m@ == address_message(
                            protocol.shown(),
                            addr,
                            source,
                        ),
                }
            } else {
                r == Ok::<Option<Vec<SocketAddr>>, String>(None)
            },
            None => r == Ok::<Option<Vec<SocketAddr>>, String>(None),
        },
{
    match config {
        Some(c) => {
            if !c.enabled {
                return Ok(None);
            }
            match parse_bind_addrs(&c.addresses, c.port) {
                Err(e) => {
                    Err(address_failure(protocol.name(), &e))
                },
                Ok(addrs) => {
                    Ok(Some(addrs))
                },
            }
        },
        None => Ok(None),
    }
}

/// What can fail about a listener.
#[derive(Clone, Copy, Debug, PartialEq, Eq, Structural)]
pub enum ListenerStep {
    /// Find the certificate.
    CertPath,
    /// Find the key.
    KeyPath,
    /// Set up TLS.
    Tls,
    /// Bind the socket at an address.
    Bind(SocketAddr),
    /// Hand the socket to the server.
    Register(SocketAddr),
}

/// What the user is told where something about a listener fails.
pub open spec fn listener_message(name: Seq<char>, step: ListenerStep, error: Seq<char>) -> Seq<char> {
    match step {
        ListenerStep::CertPath => "invalid "@ + name + " tls.cert_path: "@ + error,
        ListenerStep::KeyPath => "invalid "@ + name + " tls.key_path: "@ + error,
        ListenerStep::Tls => "failed to configure "@ + name + " TLS: "@ + error,
        ListenerStep::Bind(a) => "failed to bind "@ + name + " on "@ + shown_socket_addr(a) + ": "@
            + error,
        ListenerStep::Register(a) => "failed to register "@ + name + " listener on "@
            + shown_socket_addr(a) + ": "@ + error,
    }
}

/// What the user is told where something about a listener fails. The name is that of the
/// protocol, or `UDP` or `TCP` for plain queries.
pub fn listener_failure(name: &str, step: ListenerStep, error: &str) -> (r: String)
    ensures
        r@ == listener_message(name@, step, error@),
{
    match step {
        ListenerStep::CertPath => {
            let mut m = "invalid ".to_owned();
            m.push_str(name);
            m.push_str(" tls.cert_path: ");
            m.push_str(error);
            m
        },
        ListenerStep::KeyPath => {
            let mut m = "invalid ".to_owned();
            m.push_str(name);
            m.push_str(" tls.key_path: ");
            m.push_str(error);
            m
        },
        ListenerStep::Tls => {
            let mut m = "failed to configure ".to_owned();
            m.push_str(name);
            m.push_str(" TLS: ");
            m.push_str(error);
            m
        },
        ListenerStep::Bind(a) => {
            let mut m = "failed to bind ".to_owned();
            m.push_str(name);
            m.push_str(" on ");
            m.push_str(show_socket_addr(a).as_str());
            m.push_str(": ");
            m.push_str(error);
            m
        },
        ListenerStep::Register(a) => {
            let mut m = "failed to register ".to_owned();
            m.push_str(name);
            m.push_str(" listener on ");
            m.push_str(show_socket_addr(a).as_str());
            m.push_str(": ");
            m.push_str(error);
            m
        },
    }
}

/// Whoever does not run as the superuser sees every path from the root directory of the
/// machine; the superuser does so until the privileges are given up, and afterwards, when the
/// database is opened and queries are answered, from that of the daemon.
pub proof fn law_root_directory_changes_with_the_privileges(stage: Stage)
    ensures
        seen_from(stage, false) is Host,
        seen_from(Stage::ReadConfig, true) is Host,
        seen_from(Stage::InitLogging, true) is Host,
        seen_from(Stage::BindListeners, true) is Host,
        seen_from(Stage::ResolveControlSocket, true) is Host,
        seen_from(Stage::BindControlSocket, true) is Host,
        seen_from(Stage::DropPrivileges, true) is Host,
        seen_from(Stage::ResolveDatabase, true) is Runtime,
        seen_from(Stage::OpenDatabase, true) is Runtime,
        seen_from(Stage::BuildFilter, true) is Runtime,
        seen_from(Stage::Serve, true) is Runtime,
        seen_from(stage, true) is Runtime ==> seen_from(following(stage), true) is Runtime,
{
}

/// What the user is told about a step that failed ends with the error, and names the file
/// where it is the configuration that cannot be read.
pub proof fn law_failed_steps_tell_the_error(stage: Stage, config_path: Seq<char>, error: Seq<char>)
    ensures
        error.is_suffix_of(stage_message(stage, config_path, error)),
        stage is ParseConfig || stage is BindListeners || stage is Serve ==> stage_message(
            stage,
            config_path,
            error,
        ) == error,
        stage is ReadConfig ==> (config_path + "\n  Reason: "@ + error).is_suffix_of(
            stage_message(stage, config_path, error),
        ),
        !(stage is ReadConfig) ==> stage_message(stage, config_path, error) == stage_message(
            stage,
            Seq::empty(),
            error,
        ),
{
    reveal_strlit("");
    let m = stage_message(stage, config_path, error);
    assert(m.subrange(m.len() - error.len(), m.len() as int) =~= error);
    assert(""@ + error =~= error);
    if stage is ReadConfig {
        let t = config_path + "\n  Reason: "@ + error;
        assert(m.subrange(m.len() - t.len(), m.len() as int) =~= t);
    }
}

/// Every address has a socket of UDP and one of TCP, and there are no other sockets.
pub proof fn law_plain_queries_come_over_udp_and_tcp(addrs: Seq<SocketAddr>, i: int)
    requires
        0 <= i < addrs.len(),
    ensures
        dns_sockets(addrs).len() == 2 * addrs.len(),
        dns_sockets(addrs)[2 * i] == (DnsSocket { udp: true, address: addrs[i] }),
        dns_sockets(addrs)[2 * i + 1] == (DnsSocket { udp: false, address: addrs[i] }),
{
}

/// Without a listener for plain queries the daemon does not start; with one it waits at
/// every address that is configured, unless one of them is none.
pub proof fn law_plain_listeners_are_needed(
    listen: ListenConfig,
    r: Result<Vec<DnsSocket>, String>,
    list: Seq<SocketAddr>,
)
    requires
        dns_planned(listen, r),
    ensures
        !(listen.dns matches Some(c) && c.enabled) ==> (r matches Err(m) && m@
            == "listen.dns must be configured with enabled: true"@),
        listen.dns matches Some(c) ==> (c.enabled ==> (r matches Err(m) ==> exists|
            addr: Seq<char>,
            source: Seq<char>,
        | #[trigger]
            is_first_invalid(c.addresses@, c.port, addr, source) && m@ == address_message(
                "DNS"@,
                addr,
                source,
            ))),
        listen.dns matches Some(c) ==> (c.enabled && are_bind_addrs(c.addresses@, c.port, list) ==> (
        r matches Ok(sockets) && sockets@ == dns_sockets(list))),
{
    if let Some(c) = listen.dns {
        if c.enabled && are_bind_addrs(c.addresses@, c.port, list) {
            lemma_addresses(c.addresses@, c.port, list);
            match r {
                Ok(sockets) => {
                    let other = choose|other: Seq<SocketAddr>| #[trigger]
                        are_bind_addrs(c.addresses@, c.port, other) && sockets@ == dns_sockets(other);
                    assert(other == list);
                },
                Err(m) => {
                    let (addr, source) = choose|addr: Seq<char>, source: Seq<char>| #[trigger]
                        is_first_invalid(c.addresses@, c.port, addr, source) && m@
                            == address_message("DNS"@, addr, source);
                    law_bad_addresses_are_not_bound(c.addresses@, c.port, list, addr, source);
                },
            }
        }
    }
}

proof fn lemma_addresses(addresses: Seq<String>, port: u16, list: Seq<SocketAddr>)
    requires
        are_bind_addrs(addresses, port, list),
    ensures
        forall|other: Seq<SocketAddr>| #[trigger]
            are_bind_addrs(addresses, port, other) ==> other == list,
{
    assert forall|other: Seq<SocketAddr>| #[trigger]
        are_bind_addrs(addresses, port, other) implies other == list by {
        assert forall|i: int| 0 <= i < list.len() implies other[i] == list[i] by {
            assert(bind_addr(addresses, port, i) == Ok::<SocketAddr, Seq<char>>(list[i]));
            assert(bind_addr(addresses, port, i) == Ok::<SocketAddr, Seq<char>>(other[i]));
        }
        assert(other =~= list);
    }
}

/// A listener over TLS waits at every address that is configured where it is enabled, and
/// nowhere where it is not.
pub proof fn law_secure_listeners_wait_where_enabled(
    protocol: SecureProtocol,
    config: Option<TlsSocketConfig>,
    r: Result<Option<Vec<SocketAddr>>, String>,
    list: Seq<SocketAddr>,
)
    requires
        secure_planned(protocol, config, r),
    ensures
        !(config matches Some(c) && c.enabled) ==> r == Ok::<Option<Vec<SocketAddr>>, String>(None),
        config matches Some(c) ==> (c.enabled ==> !(r matches Ok(None))),
        config matches Some(c) ==> (c.enabled && are_bind_addrs(c.addresses@, c.port, list) ==> (
        r matches Ok(Some(l)) && l@ == list)),
{
    if let Some(c) = config {
        if c.enabled && are_bind_addrs(c.addresses@, c.port, list) {
            lemma_addresses(c.addresses@, c.port, list);
            if let Err(m) = r {
                let (addr, source) = choose|addr: Seq<char>, source: Seq<char>| #[trigger]
                    is_first_invalid(c.addresses@, c.port, addr, source) && m@ == address_message(
                        protocol.shown(),
                        addr,
                        source,
                    );
                law_bad_addresses_are_not_bound(c.addresses@, c.port, list, addr, source);
            }
        }
    }
}

/// What the user is told about a listener names it and ends with the error.
pub proof fn law_listener_failures_tell_the_error(
    name: Seq<char>,
    step: ListenerStep,
    error: Seq<char>,
)
    ensures
        error.is_suffix_of(listener_message(name, step, error)),
{
    let m = listener_message(name, step, error);
    assert(m.subrange(m.len() - error.len(), m.len() as int) =~= error);
}

/// Every protocol uses TLS in its own way.
pub proof fn law_protocols_use_tls_their_way(p: SecureProtocol)
    ensures
        p.spec_tls_use() is Dot <==> p is Dot,
        p.spec_tls_use() is Doh <==> p is Doh,
        p.spec_tls_use() is Doq <==> p is Doq,
{
}

/// A step that fails is told in words of its own, before its error.
pub proof fn law_failed_steps_are_named(stage: Stage, config_path: Seq<char>, error: Seq<char>)
    ensures
        stage is ValidateConfig ==> stage_message(stage, config_path, error) == "invalid configuration: "@ + error,
        stage is InitLogging ==> stage_message(stage, config_path, error) == "failed to initialize logging: "@ + error,
        stage is ResolveControlSocket ==> stage_message(stage, config_path, error) == "invalid control.socket_path for chroot runtime: "@ + error,
        stage is BindControlSocket ==> stage_message(stage, config_path, error) == "failed to bind control socket: "@ + error,
        stage is DropPrivileges ==> stage_message(stage, config_path, error) == "failed to drop privileges: "@ + error,
        stage is ResolveDatabase ==> stage_message(stage, config_path, error) == "invalid database.url for chroot runtime: "@ + error,
        stage is OpenDatabase ==> stage_message(stage, config_path, error) == "failed to initialize database: "@ + error,
        stage is SeedDatabase ==> stage_message(stage, config_path, error) == "failed to seed database: "@ + error,
        stage is ApplyDatabase ==> stage_message(stage, config_path, error) == "failed to load operational config from database: "@ + error,
        stage is BuildResolver ==> stage_message(stage, config_path, error) == "invalid upstream configuration: "@ + error,
        stage is BuildFilter ==> stage_message(stage, config_path, error) == "invalid filtering configuration: "@ + error,
        stage is BuildAnyPolicy ==> stage_message(stage, config_path, error) == "invalid filtering configuration: "@ + error,
        stage is BuildZones ==> stage_message(stage, config_path, error) == "invalid zone forwarding configuration: "@ + error,
        stage is ShutdownSignals ==> stage_message(stage, config_path, error) == "failed to set up shutdown signal handlers: "@ + error,
        stage is ReloadSignal ==> stage_message(stage, config_path, error) == "failed to set up signal handler: "@ + error,
        stage is InitMetrics ==> stage_message(stage, config_path, error) == "failed to initialize metrics: "@ + error,
        stage is Serve ==> stage_message(stage, config_path, error) == ""@ + error,
{
}

/// A secure listener waits at the addresses that are configured, and an address that stands for
/// nothing is told with the name of the protocol.
pub proof fn law_secure_listeners_wait_at_their_addresses(
    protocol: SecureProtocol,
    c: TlsSocketConfig,
    r: Result<Option<Vec<SocketAddr>>, String>,
)
    requires
        secure_planned(protocol, Some(c), r),
        c.enabled,
    ensures
        r matches Ok(l) ==> (l matches Some(list) && are_bind_addrs(c.addresses@, c.port, list@)),
        r matches Err(m) ==> exists|addr: Seq<char>, source: Seq<char>| #[trigger]
            is_first_invalid(c.addresses@, c.port, addr, source) && m@ == address_message(
                protocol.shown(),
                addr,
                source,
            ),
        protocol is Dot ==> protocol.shown() == "DoT"@,
        protocol is Doh ==> protocol.shown() == "DoH"@,
        protocol is Doq ==> protocol.shown() == "DoQ"@,
{
}

/// What fails with a listener is told by the step that failed.
pub proof fn law_listener_failures_name_the_step(name: Seq<char>, a: SocketAddr, error: Seq<char>)
    ensures
        listener_message(name, ListenerStep::CertPath, error) == "invalid "@ + name
            + " tls.cert_path: "@ + error,
        listener_message(name, ListenerStep::KeyPath, error) == "invalid "@ + name
            + " tls.key_path: "@ + error,
        listener_message(name, ListenerStep::Tls, error) == "failed to configure "@ + name + " TLS: "@
            + error,
        listener_message(name, ListenerStep::Bind(a), error) == "failed to bind "@ + name + " on "@
            + shown_socket_addr(a) + ": "@ + error,
        listener_message(name, ListenerStep::Register(a), error) == "failed to register "@ + name
            + " listener on "@ + shown_socket_addr(a) + ": "@ + error,
{
}

} // verus!
