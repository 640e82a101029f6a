//! The shape of the configuration and its defaults.

use crate::text::{opt_text, texts};
use vstd::prelude::*;

verus! {

/// The whole configuration.
#[derive(Debug)]
pub struct DnsFilterConfig {
    pub listen: ListenConfig,
    pub blocklists: Vec<NamedList>,
    pub allowlists: Vec<NamedList>,
    pub filtering: Option<FilteringConfig>,
    pub resolvers: ResolversConfig,
    pub plugins: Vec<PluginConfig>,
    pub logging: LoggingConfig,
    pub security: Option<SecurityConfig>,
    pub api: Option<ApiConfig>,
    pub control: Option<ControlConfig>,
    pub mcp: Option<McpConfig>,
    pub database: Option<DatabaseConfig>,
    pub outbound: Option<OutboundConfig>,
}

/// Global defaults for outbound upstream DNS connections.
///
/// These values apply to all upstream servers unless overridden per-server.
#[derive(Debug)]
pub struct OutboundConfig {
    /// Source IP address to bind upstream sockets to (e.g. a WireGuard interface IP).
    pub bind_address: Option<String>,
    /// Linux `SO_MARK` value for policy routing. Requires `CAP_NET_ADMIN`.
    pub fwmark: Option<u32>,
}

/// A plugin.
#[derive(Debug)]
pub struct PluginConfig {
    pub name: String,
    pub path: String,
    pub enabled: bool,
}

/// The path of the control socket that a configuration stands for.
pub open spec fn control_socket_path(control: Option<ControlConfig>) -> Seq<char> {
    match control {
        Some(c) => match c.socket_path {
            Some(p) => p@,
            None => "/run/dns-filter/dns-filter.sock"@,
        },
        None => "/run/dns-filter/dns-filter.sock"@,
    }
}

impl DnsFilterConfig {
    /// Returns the configured control socket path, or the default.
    pub fn socket_path(&self) -> (r: &str)
        ensures
            r@ == control_socket_path(self.control),
    {
        match &self.control {
            Some(c) => match &c.socket_path {
                Some(p) => p.as_str(),
                None => "/run/dns-filter/dns-filter.sock",
            },
            None => "/run/dns-filter/dns-filter.sock",
        }
    }
}

/// The control socket.
#[derive(Debug)]
pub struct ControlConfig {
    pub socket_path: Option<String>,
}

/// The database.
#[derive(Debug)]
pub struct DatabaseConfig {
    pub url: String,
}

/// The URL of the database where none is configured.
pub fn default_database_url() -> (r: String)
    ensures
        r@ == "sqlite://db/dns-filter.db"@,
{
    "sqlite://db/dns-filter.db".to_owned()
}

/// The path of the control socket where none is configured.
pub fn default_control_socket_path() -> (r: Option<String>)
    ensures
        opt_text(r) == Some("/run/dns-filter/dns-filter.sock"@),
{
    Some("/run/dns-filter/dns-filter.sock".to_owned())
}

/// The HTTP API.
#[derive(Debug)]
pub struct ApiConfig {
    pub enabled: bool,
    pub address: String,
    pub port: u16,
    pub api_token: Option<String>,
    pub query_logging: Option<QueryLoggingConfig>,
    pub tls: Option<TlsConfig>,
}

/// The query log.
#[derive(Debug)]
pub struct QueryLoggingConfig {
    pub enabled: bool,
    pub max_entries: usize,
}

/// The address of the API where none is configured.
pub fn default_api_address() -> (r: String)
    ensures
        r@ == "0.0.0.0"@,
{
    "0.0.0.0".to_owned()
}

/// The port of the API where none is configured.
pub const DEFAULT_API_PORT: u16 = 8000;

/// The size of the query log where none is configured.
pub const DEFAULT_MAX_LOG_ENTRIES: usize = 10_000;

/// The MCP server.
#[derive(Debug)]
pub struct McpConfig {
    pub enabled: bool,
    pub addresses: Vec<String>,
    pub port: u16,
    pub api_token: Option<String>,
    pub sse_keep_alive: Option<u64>,
    pub stateful_mode: bool,
    pub json_response: bool,
    pub allowed_origins: Vec<String>,
    pub allowed_hosts: Option<Vec<String>>,
}

/// The port of the MCP server where none is configured.
pub const DEFAULT_MCP_PORT: u16 = 8953;

/// Whether the MCP server keeps sessions where nothing is configured.
pub const DEFAULT_MCP_STATEFUL_MODE: bool = true;

/// The user and group to which the daemon drops its privileges.
#[derive(Debug)]
pub struct SecurityConfig {
    pub user: Option<String>,
    pub group: Option<String>,
    pub chroot_dir: Option<String>,
}

/// The listeners.
#[derive(Debug)]
pub struct ListenConfig {
    pub dns: Option<SocketConfig>,
    pub dot: Option<TlsSocketConfig>,
    pub doh: Option<TlsSocketConfig>,
    pub doq: Option<TlsSocketConfig>,
    pub admin: Option<AdminConfig>,
    pub metrics: Option<MetricsConfig>,
}

/// A listener without TLS.
#[derive(Debug)]
pub struct SocketConfig {
    pub enabled: bool,
    pub addresses: Vec<String>,
    pub port: u16,
}

/// A listener with TLS.
#[derive(Debug)]
pub struct TlsSocketConfig {
    pub enabled: bool,
    pub addresses: Vec<String>,
    pub port: u16,
    pub tls: TlsConfig,
}

/// Certificate and key of a listener.
#[derive(Debug)]
pub struct TlsConfig {
    pub cert_path: String,
    pub key_path: String,
    pub autogenerate: Option<bool>,
}

/// The listener that hands out metrics.
#[derive(Debug)]
pub struct MetricsConfig {
    pub enabled: bool,
    pub addresses: Vec<String>,
    pub port: u16,
    pub tls: Option<TlsConfig>,
}

/// Admin UI listener with dual-port support: HTTP (plain or redirect) + HTTPS.
///
/// When `tls` is configured, `tls_port` serves the admin UI over HTTPS and
/// `port` responds with 301 redirects to the HTTPS endpoint. When `tls` is
/// absent, `port` serves the admin UI over plain HTTP.
#[derive(Debug)]
pub struct AdminConfig {
    pub enabled: bool,
    pub addresses: Vec<String>,
    pub port: u16,
    pub tls_port: u16,
    pub tls: Option<TlsConfig>,
}

// ---- listeners as they are written ----

/// A listener section as it is written: a disabled one may leave out the rest.
#[derive(Debug)]
pub struct SocketConfigRaw {
    pub enabled: bool,
    pub addresses: Vec<String>,
    pub port: Option<u16>,
}

/// A section of a listener with TLS as it is written.
#[derive(Debug)]
pub struct TlsSocketConfigRaw {
    pub enabled: bool,
    pub addresses: Vec<String>,
    pub port: Option<u16>,
    pub tls: Option<TlsConfig>,
}

/// The metrics section as it is written.
#[derive(Debug)]
pub struct MetricsConfigRaw {
    pub enabled: bool,
    pub addresses: Vec<String>,
    pub port: Option<u16>,
    pub tls: Option<TlsConfig>,
}

/// The admin section as it is written.
#[derive(Debug)]
pub struct AdminConfigRaw {
    pub enabled: bool,
    pub addresses: Vec<String>,
    pub port: Option<u16>,
    pub tls_port: u16,
    pub tls: Option<TlsConfig>,
}

/// A field that an enabled section must have.
#[derive(Clone, Copy, Debug, PartialEq, Eq, Structural)]
pub enum MissingField {
    Port,
    Tls,
}

impl MissingField {
    /// The name of the field.
    pub open spec fn field(self) -> Seq<char> {
        match self {
            MissingField::Port => "port"@,
            MissingField::Tls => "tls"@,
        }
    }

    /// The name of the field.
    pub fn name(&self) -> (r: &'static str)
        ensures
            r@ == self.field(),
    {
        match self {
            MissingField::Port => "port",
            MissingField::Tls => "tls",
        }
    }
}

/// Whether a result is the listener that a section stands for.
pub open spec fn is_socket(raw: SocketConfigRaw, r: Result<SocketConfig, MissingField>) -> bool {
    match r {
        Ok(c) => if raw.enabled {
            c.enabled && c.addresses == raw.addresses && raw.port == Some(c.port)
        } else {
            !c.enabled && c.addresses@.len() == 0 && c.port == 0
        },
        Err(f) => raw.enabled && raw.port is None && f == MissingField::Port,
    }
}

impl SocketConfig {
    /// The listener that a section stands for. An enabled one needs a port; of a
    /// disabled one nothing else is kept.
    pub fn from_raw(raw: SocketConfigRaw) -> (r: Result<SocketConfig, MissingField>)
        ensures
            is_socket(raw, r),
            match r {
                Ok(c) => if raw.enabled {
                    c.enabled && c.addresses == raw.addresses && raw.port == Some(c.port)
                } else {
                    !c.enabled && c.addresses@.len() == 0 && c.port == 0
                },
                Err(f) => raw.enabled && raw.port is None && f == MissingField::Port,
            },
    {
        if !raw.enabled {
            return Ok(SocketConfig { enabled: false, addresses: Vec::new(), port: 0 });
        }
        match raw.port {
            Some(port) => Ok(SocketConfig { enabled: true, addresses: raw.addresses, port }),
            None => Err(MissingField::Port),
        }
    }
}

/// Whether a result is the listener with TLS that a section stands for.
pub open spec fn is_tls_socket(raw: TlsSocketConfigRaw, r: Result<TlsSocketConfig, MissingField>) -> bool {
    match r {
        Ok(c) => if raw.enabled {
            c.enabled && c.addresses == raw.addresses && raw.port == Some(c.port) && raw.tls
                == Some(c.tls)
        } else {
            !c.enabled && c.addresses@.len() == 0 && c.port == 0 && c.tls.cert_path@.len()
                == 0 && c.tls.key_path@.len() == 0 && c.tls.autogenerate is None
        },
        Err(MissingField::Port) => raw.enabled && raw.port is None,
        Err(MissingField::Tls) => raw.enabled && raw.port is Some && raw.tls is None,
    }
}

impl TlsSocketConfig {
    /// The listener that a section stands for. An enabled one needs a port and a
    /// certificate; of a disabled one nothing else is kept.
    pub fn from_raw(raw: TlsSocketConfigRaw) -> (r: Result<TlsSocketConfig, MissingField>)
        ensures
            is_tls_socket(raw, r),
            match r {
                Ok(c) => if raw.enabled {
                    c.enabled && c.addresses == raw.addresses && raw.port == Some(c.port) && raw.tls
                        == Some(c.tls)
                } else {
                    !c.enabled && c.addresses@.len() == 0 && c.port == 0 && c.tls.cert_path@.len()
                        == 0 && c.tls.key_path@.len() == 0 && c.tls.autogenerate is None
                },
                Err(MissingField::Port) => raw.enabled && raw.port is None,
                Err(MissingField::Tls) => raw.enabled && raw.port is Some && raw.tls is None,
            },
    {
        if !raw.enabled {
            return Ok(
                TlsSocketConfig {
                    enabled: false,
                    addresses: Vec::new(),
                    port: 0,
                    tls: TlsConfig {
                        cert_path: String::new(),
                        key_path: String::new(),
                        autogenerate: None,
                    },
                },
            );
        }
        match raw.port {
            None => Err(MissingField::Port),
            Some(port) => match raw.tls {
                None => Err(MissingField::Tls),
                Some(tls) => Ok(
                    TlsSocketConfig { enabled: true, addresses: raw.addresses, port, tls },
                ),
            },
        }
    }
}

/// Whether a result is the metrics listener that a section stands for.
pub open spec fn is_metrics_socket(raw: MetricsConfigRaw, r: Result<MetricsConfig, MissingField>) -> bool {
    match r {
        Ok(c) => if raw.enabled {
            c.enabled && c.addresses == raw.addresses && raw.port == Some(c.port) && c.tls
                == raw.tls
        } else {
            !c.enabled && c.addresses@.len() == 0 && c.port == 0 && c.tls is None
        },
        Err(f) => raw.enabled && raw.port is None && f == MissingField::Port,
    }
}

impl MetricsConfig {
    /// The listener that a section stands for. An enabled one needs a port; of a
    /// disabled one nothing else is kept.
    pub fn from_raw(raw: MetricsConfigRaw) -> (r: Result<MetricsConfig, MissingField>)
        ensures
            is_metrics_socket(raw, r),
            match r {
                Ok(c) => if raw.enabled {
                    c.enabled && c.addresses == raw.addresses && raw.port == Some(c.port) && c.tls
                        == raw.tls
                } else {
                    !c.enabled && c.addresses@.len() == 0 && c.port == 0 && c.tls is None
                },
                Err(f) => raw.enabled && raw.port is None && f == MissingField::Port,
            },
    {
        if !raw.enabled {
            return Ok(
                MetricsConfig { enabled: false, addresses: Vec::new(), port: 0, tls: None },
            );
        }
        match raw.port {
            Some(port) => Ok(
                MetricsConfig { enabled: true, addresses: raw.addresses, port, tls: raw.tls },
            ),
            None => Err(MissingField::Port),
        }
    }
}

/// The port of the admin UI where none is configured.
pub const DEFAULT_ADMIN_PORT: u16 = 80;

/// The HTTPS port of the admin UI where none is configured.
pub const DEFAULT_ADMIN_TLS_PORT: u16 = 8443;

/// Whether a listener is the admin listener that a section stands for.
pub open spec fn is_admin_socket(raw: AdminConfigRaw, r: AdminConfig) -> bool {
    if raw.enabled {
        r.enabled && r.addresses == raw.addresses && r.port == (match raw.port {
            Some(p) => p,
            None => DEFAULT_ADMIN_PORT,
        }) && r.tls_port == raw.tls_port && r.tls == raw.tls
    } else {
        !r.enabled && r.addresses@.len() == 0 && r.port == 0 && r.tls_port == 0 && r.tls
            is None
    }
}

impl AdminConfig {
    /// The listener that a section stands for. Its port has a default; of a disabled
    /// one nothing is kept.
    pub fn from_raw(raw: AdminConfigRaw) -> (r: AdminConfig)
        ensures
            is_admin_socket(raw, r),
            if raw.enabled {
                r.enabled && r.addresses == raw.addresses && r.port == (match raw.port {
                    Some(p) => p,
                    None => DEFAULT_ADMIN_PORT,
                }) && r.tls_port == raw.tls_port && r.tls == raw.tls
            } else {
                !r.enabled && r.addresses@.len() == 0 && r.port == 0 && r.tls_port == 0 && r.tls
                    is None
            },
    {
        if !raw.enabled {
            return AdminConfig {
                enabled: false,
                addresses: Vec::new(),
                port: 0,
                tls_port: 0,
                tls: None,
            };
        }
        let port: u16 = match raw.port {
            Some(p) => p,
            None => DEFAULT_ADMIN_PORT,
        };
        AdminConfig {
            enabled: true,
            addresses: raw.addresses,
            port,
            tls_port: raw.tls_port,
            tls: raw.tls,
        }
    }
}

/// The addresses of a public listener where none are configured.
pub fn default_public_addresses() -> (r: Vec<String>)
    ensures
        texts(r@) == seq!["0.0.0.0"@, "::"@],
{
    let mut v: Vec<String> = Vec::new();
    v.push("0.0.0.0".to_owned());
    v.push("::".to_owned());
    assert(texts(v@) =~= seq!["0.0.0.0"@, "::"@]);
    v
}

/// The addresses of a local listener where none are configured.
pub fn default_loopback_addresses() -> (r: Vec<String>)
    ensures
        texts(r@) == seq!["127.0.0.1"@, "::1"@],
{
    let mut v: Vec<String> = Vec::new();
    v.push("127.0.0.1".to_owned());
    v.push("::1".to_owned());
    assert(texts(v@) =~= seq!["127.0.0.1"@, "::1"@]);
    v
}

/// Addresses as they are written: a single string or a list.
#[derive(Debug)]
pub enum OneOrMany {
    One(String),
    Many(Vec<String>),
}

/// The addresses that a single string or a list stands for.
pub open spec fn written_addresses(written: OneOrMany) -> Seq<String> {
    match written {
        OneOrMany::One(s) => seq![s],
        OneOrMany::Many(v) => v@,
    }
}

/// The addresses that a single string or a list stands for.
pub fn addresses(written: OneOrMany) -> (r: Vec<String>)
    ensures
        r@ == written_addresses(written),
        match written {
            OneOrMany::One(s) => r@ == seq![s],
            OneOrMany::Many(v) => r == v,
        },
{
    match written {
        OneOrMany::One(s) => {
            let mut v: Vec<String> = Vec::new();
            v.push(s);
            v
        },
        OneOrMany::Many(v) => v,
    }
}

// ---- filter lists ----

/// A filter list.
#[derive(Debug)]
pub struct NamedList {
    pub name: String,
    pub url: String,
    pub interval: Option<String>,
    pub enabled: Option<bool>,
    pub list_type: Option<String>,
}

/// A filter list without its name.
#[derive(Debug)]
pub struct NamedListEntry {
    pub url: String,
    pub interval: Option<String>,
    pub enabled: Option<bool>,
    pub list_type: Option<String>,
}

/// A filter list as it is written: with its name as a field, or under its name.
#[derive(Debug)]
pub enum NamedListRepr {
    Explicit(NamedList),
    Nested(Vec<(String, NamedListEntry)>),
}

/// A filter list with a name.
pub open spec fn named(name: String, entry: NamedListEntry) -> NamedList {
    NamedList {
        name,
        url: entry.url,
        interval: entry.interval,
        enabled: entry.enabled,
        list_type: entry.list_type,
    }
}

/// Whether a result is the filter list that is written.
pub open spec fn is_written_list(repr: NamedListRepr, r: Result<NamedList, &'static str>) -> bool {
    match repr {
        NamedListRepr::Explicit(l) => r == Ok::<NamedList, &'static str>(l),
        NamedListRepr::Nested(m) => if m@.len() == 1 {
            r == Ok::<NamedList, &'static str>(named(m@[0].0, m@[0].1))
        } else {
            r matches Err(e) && e@ == "named list map must contain exactly one item"@
        },
    }
}

impl NamedList {
    /// The filter list that is written. A mapping must hold exactly one list; otherwise
    /// the text of the error is returned.
    pub fn from_repr(repr: NamedListRepr) -> (r: Result<NamedList, &'static str>)
        ensures
            is_written_list(repr, r),
            match repr {
                NamedListRepr::Explicit(l) => r == Ok::<NamedList, &'static str>(l),
                NamedListRepr::Nested(m) => if m@.len() == 1 {
                    r == Ok::<NamedList, &'static str>(named(m@[0].0, m@[0].1))
                } else {
                    r matches Err(e) && e@ == "named list map must contain exactly one item"@
                },
            },
    {
        match repr {
            NamedListRepr::Explicit(l) => Ok(l),
            NamedListRepr::Nested(m) => {
                let mut m = m;
                if m.len() != 1 {
                    return Err("named list map must contain exactly one item");
                }
                let (name, entry) = m.remove(0);
                Ok(
                    NamedList {
                        name,
                        url: entry.url,
                        interval: entry.interval,
                        enabled: entry.enabled,
                        list_type: entry.list_type,
                    },
                )
            },
        }
    }
}

/// How queries are filtered.
#[derive(Debug)]
pub struct FilteringConfig {
    pub sinkhole_ipv4: Option<String>,
    pub sinkhole_ipv6: Option<String>,
    pub any_query_policy: Option<String>,
    pub cache: Option<FilteringCacheConfig>,
}

/// Where filter lists are kept.
#[derive(Debug)]
pub struct FilteringCacheConfig {
    pub mode: Option<String>,
    pub document_path: Option<String>,
}

// ---- resolvers ----

/// How queries are resolved.
#[derive(Debug)]
pub struct ResolversConfig {
    pub strategy: String,
    pub bootstrap_resolvers: Vec<String>,
    pub cache: Option<ResolverCacheConfig>,
    pub zones: Vec<ResolverZoneConfig>,
    pub zone_discovery: Vec<ZoneDiscoveryConfig>,
    pub servers: Vec<UpstreamServer>,
}

/// The shortest time for which an answer is kept where none is configured.
pub fn default_min_ttl() -> (r: Option<String>)
    ensures
        opt_text(r) == Some("60s"@),
{
    Some("60s".to_owned())
}

/// The longest time for which an answer is kept where none is configured.
pub fn default_max_ttl() -> (r: Option<String>)
    ensures
        opt_text(r) == Some("1h"@),
{
    Some("1h".to_owned())
}

/// The cache of answers.
#[derive(Debug)]
pub struct ResolverCacheConfig {
    pub enabled: bool,
    pub min_ttl: Option<String>,
    pub max_ttl: Option<String>,
    pub max_entries: Option<usize>,
}

/// Configuration for automatic zone discovery from a JSON index endpoint.
#[derive(Debug)]
pub struct ZoneDiscoveryConfig {
    pub enabled: bool,
    /// URL of the zone index endpoint (must be `https://` or `http://`).
    pub address: String,
    /// How often to re-fetch the index and zone data (e.g. `"15m"`).
    pub check_interval: Option<String>,
    /// Only zones with a `type` field matching one of these values will be imported.
    pub allowed_types: Vec<String>,
    /// Whether discovered zones bypass the blocklist/allowlist filter stage.
    pub bypass_filter: bool,
    /// If the zone's resolver fails, fall back to the global upstream resolvers.
    pub fallback_to_default_resolvers: bool,
    /// Optional authentication for the index URL and all zone href fetches.
    pub authentication: Option<ZoneServerAuthenticationConfig>,
}

/// How one of the upstream servers is chosen where the configuration does not say it.
pub fn default_strategy() -> (r: String)
    ensures
        r@ == "round_robin"@,
{
    "round_robin".to_owned()
}

/// The resolvers that find the addresses of upstream servers where none are configured.
pub fn default_bootstrap_resolvers() -> (r: Vec<String>)
    ensures
        texts(r@) == seq!["1.1.1.1"@],
{
    let mut v: Vec<String> = Vec::new();
    v.push("1.1.1.1".to_owned());
    assert(texts(v@) =~= seq!["1.1.1.1"@]);
    v
}

/// Whether a section is enabled where it does not say so.
pub const DEFAULT_ENABLED: bool = true;

/// A zone with servers of its own.
#[derive(Debug)]
pub struct ResolverZoneConfig {
    pub zone: String,
    pub enabled: bool,
    pub bypass_filter: bool,
    pub fallback_to_default_resolvers: bool,
    pub strategy: Option<String>,
    pub servers: Vec<ZoneServerConfig>,
}

/// Per-server authentication credentials for HTTP(S)-based zone server protocols.
/// Use either `token` (Bearer) OR `username`+`password` (Basic), not both.
#[derive(Debug)]
pub struct ZoneServerAuthenticationConfig {
    pub token: Option<String>,
    pub username: Option<String>,
    pub password: Option<String>,
}

/// A single zone server entry. The `protocol` field controls interpretation.
#[derive(Debug)]
pub struct ZoneServerConfig {
    pub enabled: bool,
    pub protocol: String,
    pub address: String,
    pub authentication: Option<ZoneServerAuthenticationConfig>,
    /// Refresh interval for `protocol: "json"` URL sources (e.g. `"15m"`).
    pub check_interval: Option<String>,
    pub max_hops: Option<u8>,
    /// IP family restriction for iterative resolution: `"ipv4"`, `"ipv6"`, or omit for both.
    pub nameserver_ip_family: Option<String>,
    /// Path to a `root.hints` file for iterative resolution.
    pub root_hints_path: Option<String>,
    /// Path to a DNSSEC `root.key` file for iterative resolution.
    pub root_key_path: Option<String>,
    /// Enable DNSSEC validation for the recursive resolver. Defaults to `true`.
    pub dnssec: Option<bool>,
}

impl Default for ZoneServerConfig {
    fn default() -> (r: ZoneServerConfig)
        ensures
            !r.enabled,
            r.protocol@.len() == 0,
            r.address@.len() == 0,
            r.authentication is None,
            r.check_interval is None,
            r.max_hops is None,
            r.nameserver_ip_family is None,
            r.root_hints_path is None,
            r.root_key_path is None,
            r.dnssec is None,
    {
        ZoneServerConfig {
            enabled: false,
            protocol: String::new(),
            address: String::new(),
            authentication: None,
            check_interval: None,
            max_hops: None,
            nameserver_ip_family: None,
            root_hints_path: None,
            root_key_path: None,
            dnssec: None,
        }
    }
}

/// An upstream server.
#[derive(Debug)]
pub struct UpstreamServer {
    pub enabled: bool,
    pub protocol: String,
    pub address: String,
    /// HTTP authentication for `protocol: "doh"` upstream servers.
    pub authentication: Option<ZoneServerAuthenticationConfig>,
    pub max_hops: Option<u8>,
    /// IP family restriction for iterative resolution: `"ipv4"` (IPv4 only),
    /// `"ipv6"` (IPv6 only), or omit for both families (default).
    pub nameserver_ip_family: Option<String>,
    /// Path to a `root.hints` file for iterative resolution.
    pub root_hints_path: Option<String>,
    /// Path to a DNSSEC `root.key` file containing root DNSKEY records.
    pub root_key_path: Option<String>,
    /// Enable DNSSEC validation for the recursive resolver.  Defaults to `true`.
    pub dnssec: Option<bool>,
    /// Source IP address to bind upstream sockets to. Overrides `outbound.bind_address`.
    pub bind_address: Option<String>,
    /// Linux `SO_MARK` value for policy routing. Overrides `outbound.fwmark`.
    pub fwmark: Option<u32>,
}

impl Default for UpstreamServer {
    fn default() -> (r: UpstreamServer)
        ensures
            !r.enabled,
            r.protocol@.len() == 0,
            r.address@.len() == 0,
            r.authentication is None,
            r.max_hops is None,
            r.nameserver_ip_family is None,
            r.root_hints_path is None,
            r.root_key_path is None,
            r.dnssec is None,
            r.bind_address is None,
            r.fwmark is None,
    {
        UpstreamServer {
            enabled: false,
            protocol: String::new(),
            address: String::new(),
            authentication: None,
            max_hops: None,
            nameserver_ip_family: None,
            root_hints_path: None,
            root_key_path: None,
            dnssec: None,
            bind_address: None,
            fwmark: None,
        }
    }
}

// ---- logging ----

/// Where the log goes.
#[derive(Debug)]
pub struct LoggingConfig {
    pub syslog: Option<SyslogConfig>,
    pub file: Option<FileLogConfig>,
    pub stdout: Option<StdoutLogConfig>,
}

/// The log that goes to syslog.
#[derive(Debug)]
pub struct SyslogConfig {
    pub enabled: bool,
    pub facility: String,
    pub level: String,
    /// Syslog transport: "unix" (default), "udp", "tcp", or "tls".
    pub transport: Option<String>,
    /// Syslog server address: a path, or host and port.
    pub server: Option<String>,
    /// Syslog message format: "rfc3164" (default) or "rfc5424".
    pub format: Option<String>,
    /// TLS configuration (only for transport="tls").
    pub tls: Option<SyslogTlsConfig>,
}

/// How the syslog server is verified.
#[derive(Debug)]
pub struct SyslogTlsConfig {
    /// Path to CA certificate file for TLS verification.
    pub ca_cert_path: Option<String>,
    /// Whether to verify the hostname (default: true).
    pub verify_hostname: Option<bool>,
}

/// The log that goes to a file.
#[derive(Debug)]
pub struct FileLogConfig {
    pub enabled: bool,
    pub location: String,
    pub level: String,
}

/// The log that goes to the standard output.
#[derive(Debug)]
pub struct StdoutLogConfig {
    pub enabled: bool,
    pub level: String,
}

/// A disabled section needs nothing else and gives a disabled listener. An enabled one gives a
/// listener at its addresses and its port, which it must name.
pub proof fn law_listeners_stand_for_their_section(
    raw: SocketConfigRaw,
    r: Result<SocketConfig, MissingField>,
)
    requires
        is_socket(raw, r),
    ensures
        r is Ok <==> (raw.enabled ==> raw.port is Some),
        r matches Ok(c) ==> c.enabled == raw.enabled,
        r matches Ok(c) ==> (raw.enabled ==> c.addresses@ == raw.addresses@ && raw.port == Some(
            c.port,
        )),
        r matches Ok(c) ==> (!raw.enabled ==> c.addresses@.len() == 0 && c.port == 0),
{
}

/// A disabled section with TLS needs nothing else either. An enabled one must name its port and
/// its certificate, and the port is asked for first.
pub proof fn law_tls_listeners_stand_for_their_section(
    raw: TlsSocketConfigRaw,
    r: Result<TlsSocketConfig, MissingField>,
)
    requires
        is_tls_socket(raw, r),
    ensures
        r is Ok <==> (raw.enabled ==> raw.port is Some && raw.tls is Some),
        r matches Ok(c) ==> c.enabled == raw.enabled,
        r matches Ok(c) ==> (raw.enabled ==> c.addresses@ == raw.addresses@ && raw.port == Some(
            c.port,
        ) && raw.tls == Some(c.tls)),
        r matches Err(f) ==> (f is Port <==> raw.port is None),
        r matches Ok(c) ==> (!raw.enabled ==> c.addresses@.len() == 0 && c.port == 0
            && c.tls.cert_path@.len() == 0 && c.tls.key_path@.len() == 0 && c.tls.autogenerate
            is None),
{
}

/// The metrics are handed out with TLS exactly where a certificate is named, and the section
/// is read as that of every other listener.
pub proof fn law_metrics_listeners_stand_for_their_section(
    raw: MetricsConfigRaw,
    r: Result<MetricsConfig, MissingField>,
)
    requires
        is_metrics_socket(raw, r),
    ensures
        r is Ok <==> (raw.enabled ==> raw.port is Some),
        r matches Ok(c) ==> c.enabled == raw.enabled,
        r matches Ok(c) ==> (raw.enabled ==> c.addresses@ == raw.addresses@ && raw.port == Some(
            c.port,
        ) && c.tls == raw.tls),
        r matches Ok(c) ==> (!raw.enabled ==> c.addresses@.len() == 0 && c.port == 0 && c.tls is None),
        r matches Err(f) ==> f is Port,
{
}

/// The admin section has a port for HTTP where it names none, and keeps all that it names.
pub proof fn law_admin_listeners_stand_for_their_section(raw: AdminConfigRaw, r: AdminConfig)
    requires
        is_admin_socket(raw, r),
    ensures
        r.enabled == raw.enabled,
        raw.enabled ==> r.addresses@ == raw.addresses@ && r.tls_port == raw.tls_port && r.tls
            == raw.tls,
        raw.enabled ==> (raw.port matches Some(p) ==> r.port == p),
        raw.enabled && raw.port is None ==> r.port == 80,
        !raw.enabled ==> r.addresses@.len() == 0 && r.port == 0 && r.tls_port == 0 && r.tls is None,
{
}

/// A filter list may be written with its name as a field or under its name: both say the same.
pub proof fn law_lists_are_written_either_way(
    name: String,
    entry: NamedListEntry,
    list: NamedList,
    nested: Vec<(String, NamedListEntry)>,
    a: Result<NamedList, &'static str>,
    b: Result<NamedList, &'static str>,
)
    requires
        nested@ == seq![(name, entry)],
        list.name == name,
        list.url == entry.url && list.interval == entry.interval,
        list.enabled == entry.enabled && list.list_type == entry.list_type,
        is_written_list(NamedListRepr::Explicit(list), a),
        is_written_list(NamedListRepr::Nested(nested), b),
    ensures
        a == b,
        a is Ok,
{
}

/// A mapping that holds no list, or more than one, is an error.
pub proof fn law_lists_are_written_one_by_one(
    nested: Vec<(String, NamedListEntry)>,
    r: Result<NamedList, &'static str>,
)
    requires
        is_written_list(NamedListRepr::Nested(nested), r),
    ensures
        r is Ok <==> nested@.len() == 1,
        r matches Err(e) ==> e@ == "named list map must contain exactly one item"@,
{
}

/// A single address is written as a list of one would be.
pub proof fn law_one_address_is_a_list_of_one(s: String, v: Vec<String>)
    ensures
        written_addresses(OneOrMany::Many(v)) == v@,
        v@ == seq![s] ==> written_addresses(OneOrMany::One(s)) == written_addresses(
            OneOrMany::Many(v),
        ),
{
}

/// A configured path of the control socket is used, and the default where there is none.
pub proof fn law_control_socket_is_where_it_is_configured(control: Option<ControlConfig>)
    ensures
        control matches Some(c) ==> (c.socket_path matches Some(p) ==> control_socket_path(control)
            == p@),
        !(control matches Some(c) && c.socket_path is Some) ==> control_socket_path(control)
            == "/run/dns-filter/dns-filter.sock"@,
{
}

/// The ports and limits that hold where nothing is configured.
pub proof fn law_defaults_are_the_documented_ones()
    ensures
        DEFAULT_API_PORT == 8000,
        DEFAULT_MCP_PORT == 8953,
        DEFAULT_ADMIN_PORT == 80,
        DEFAULT_ADMIN_TLS_PORT == 8443,
        DEFAULT_MAX_LOG_ENTRIES == 10_000,
        DEFAULT_MCP_STATEFUL_MODE,
        DEFAULT_ENABLED,
{
}

/// A field that is missing is told by its name.
pub proof fn law_missing_fields_are_named(f: MissingField)
    ensures
        f is Port ==> f.field() == "port"@,
        f is Tls ==> f.field() == "tls"@,
{
}

} // verus!
