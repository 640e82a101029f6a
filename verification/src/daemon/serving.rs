//! What the daemon does while it runs, and how it ends.

use crate::config::schema::{default_database_url, ApiConfig, DatabaseConfig, MetricsConfig};
use crate::daemon::startup::{address_failure, address_message};
use crate::listeners::bind::{
    are_bind_addrs, bind_addr, is_first_invalid, law_bad_addresses_are_not_bound, parse_bind_addrs,
};
use crate::net::{parsed_socket_addr, read_socket_addr, with_error_text, SocketAddr};
use crate::text::{decimal, number};
use vstd::prelude::*;

verus! {

/// The URL of the database: the configured one, or else the default.
pub fn database_url(database: &Option<DatabaseConfig>) -> (r: String)
    ensures
        r@ == match *database {
            Some(d) => d.url@,
            None => "sqlite://db/dns-filter.db"@,
        },
{
    match database {
        Some(d) => d.url.clone(),
        None => default_database_url(),
    }
}

/// How many queries are logged; none where the API or the log is not there.
pub open spec fn logged_queries(api: Option<ApiConfig>) -> Option<usize> {
    match api {
        Some(a) => match a.query_logging {
            Some(q) => if q.enabled {
                Some(q.max_entries)
            } else {
                None
            },
            None => None,
        },
        None => None,
    }
}

/// Queries are logged exactly where logging is configured and enabled, and then as many as
/// configured.
pub proof fn law_queries_are_logged_where_enabled(api: Option<ApiConfig>)
    ensures
        logged_queries(api) is Some <==> (api matches Some(a) && a.query_logging matches Some(q)
            && q.enabled),
        logged_queries(api) matches Some(n) ==> (api matches Some(a)
            && a.query_logging matches Some(q) && n == q.max_entries),
{
}

/// How many queries are logged; none where the API or the log is not there.
pub fn query_log_size(api: &Option<ApiConfig>) -> (r: Option<usize>)
    ensures
        r == logged_queries(*api),
        r == match *api {
            Some(a) => match a.query_logging {
                Some(q) => if q.enabled {
                    Some(q.max_entries)
                } else {
                    None
                },
                None => None,
            },
            None => None,
        },
{
    match api {
        Some(a) => match &a.query_logging {
            Some(q) => if q.enabled {
                Some(q.max_entries)
            } else {
                None
            },
            None => None,
        },
        None => None,
    }
}

/// Where the API is served, given what its address stands for.
pub open spec fn api_outcome(parsed: Result<SocketAddr, Seq<char>>) -> Result<
    SocketAddr,
    Seq<char>,
> {
    match parsed {
        Ok(a) => Ok(a),
        Err(e) => Err("invalid API bind address: "@ + e),
    }
}

/// Where the API is served, given what its address stands for.
pub fn api_address_of(parsed: Result<SocketAddr, String>) -> (r: Result<SocketAddr, String>)
    ensures
        match (parsed, r) {
            (Ok(a), Ok(b)) => a == b,
            (Err(e), Err(m)) => m@ == "invalid API bind address: "@ + e@,
            _ => false,
        },
{
    match parsed {
        Ok(a) => Ok(a),
        Err(e) => {
            let mut m = "invalid API bind address: ".to_owned();
            m.push_str(e.as_str());
            Err(m)
        },
    }
}

/// Where the API is served; nowhere where it is not enabled.
pub open spec fn api_served(api: Option<ApiConfig>) -> Result<Option<SocketAddr>, Seq<char>> {
    match api {
        Some(a) => if a.enabled {
            match api_outcome(parsed_socket_addr(a.address@ + ":"@ + decimal(a.port as nat))) {
                Ok(x) => Ok(Some(x)),
                Err(m) => Err(m),
            }
        } else {
            Ok(None)
        },
        None => Ok(None),
    }
}

/// The API is served exactly where it is configured and enabled, at its own address and
/// port; an address that is none keeps the daemon from starting.
pub proof fn law_api_is_served_where_enabled(api: Option<ApiConfig>)
    ensures
        api is None ==> api_served(api) == Ok::<Option<SocketAddr>, Seq<char>>(None),
        api matches Some(a) ==> {
            &&& !a.enabled ==> api_served(api) == Ok::<Option<SocketAddr>, Seq<char>>(None)
            &&& a.enabled ==> match parsed_socket_addr(a.address@ + ":"@ + decimal(a.port as nat)) {
                Ok(x) => api_served(api) == Ok::<Option<SocketAddr>, Seq<char>>(Some(x)),
                Err(e) => api_served(api) matches Err(m) && e.is_suffix_of(m),
            }
        },
{
    if let Some(a) = api {
        if let Err(e) = parsed_socket_addr(a.address@ + ":"@ + decimal(a.port as nat)) {
            let m = "invalid API bind address: "@ + e;
            assert(m.subrange(m.len() - e.len(), m.len() as int) =~= e);
        }
    }
}

/// Where the API is served; nowhere where it is not enabled.
pub fn spawn_api_server(api: &Option<ApiConfig>) -> (r: Result<Option<SocketAddr>, String>)
    ensures
        with_error_text(r) == api_served(*api),
        match *api {
            Some(a) => if a.enabled {
                match (
                    api_outcome(parsed_socket_addr(a.address@ + ":"@ + decimal(a.port as nat))),
                    r,
                ) {
                    (Ok(x), Ok(Some(y))) => x == y,
                    (Err(x), Err(m)) => m@ == x,
                    _ => false,
                }
            } else {
                r == Ok::<Option<SocketAddr>, String>(None)
            },
            None => r == Ok::<Option<SocketAddr>, String>(None),
        },
{
    match api {
        Some(a) => {
            if !a.enabled {
                return Ok(None);
            }
            let mut text = a.address.clone();
            text.push_str(":");
            text.push_str(number(a.port as u64).as_str());
            match api_address_of(read_socket_addr(text.as_str())) {
                Ok(x) => Ok(Some(x)),
                Err(m) => Err(m),
            }
        },
        None => Ok(None),
    }
}

/// Whether a result is where the metrics are handed out.
pub open spec fn metrics_served(
    metrics: Option<MetricsConfig>,
    r: Result<Vec<SocketAddr>, String>,
) -> bool {
    match metrics {
        Some(c) => if c.enabled {
            match r {
                Ok(list) => are_bind_addrs(c.addresses@, c.port, list@),
                Err(m) => exists|addr: Seq<char>, source: Seq<char>| #[trigger]
                    is_first_invalid(c.addresses@, c.port, addr, source) && m@ == address_message(
                        "metrics"@,
                        addr,
                        source,
                    ),
            }
        } else {
            r matches Ok(list) && list@.len() == 0
        },
        None => r matches Ok(list) && list@.len() == 0,
    }
}

/// The metrics are handed out at every address that is configured, and at none where they
/// are not enabled; one address that is none keeps the daemon from starting.
pub proof fn law_metrics_are_served_where_enabled(
    metrics: Option<MetricsConfig>,
    r: Result<Vec<SocketAddr>, String>,
    list: Seq<SocketAddr>,
)
    requires
        metrics_served(metrics, r),
    ensures
        !(metrics matches Some(c) && c.enabled) ==> (r matches Ok(l) && l@.len() == 0),
        metrics matches Some(c) ==> (c.enabled ==> {
            &&& r matches Ok(l) ==> l@.len() == c.addresses@.len()
            &&& are_bind_addrs(c.addresses@, c.port, list) ==> (r matches Ok(l) && l@ == list)
        }),
{
    if let Some(c) = metrics {
        if c.enabled && are_bind_addrs(c.addresses@, c.port, list) {
            match r {
                Ok(l) => {
                    assert forall|i: int| 0 <= i < list.len() implies l@[i] == list[i] by {
                        assert(bind_addr(c.addresses@, c.port, i) == Ok::<SocketAddr, Seq<char>>(
                            list[i],
                        ));
                        assert(bind_addr(c.addresses@, c.port, i) == Ok::<SocketAddr, Seq<char>>(
                            l@[i],
                        ));
                    }
                    assert(l@ =~= list);
                },
                Err(m) => {
                    let (addr, source) = choose|addr: Seq<char>, source: Seq<char>| #[trigger]
                        is_first_invalid(c.addresses@, c.port, addr, source) && m@
                            == address_message("metrics"@, addr, source);
                    law_bad_addresses_are_not_bound(c.addresses@, c.port, list, addr, source);
                },
            }
        }
    }
}

/// Where the metrics are handed out; nowhere where they are not enabled.
pub fn spawn_metrics_servers(metrics: &Option<MetricsConfig>) -> (r: Result<Vec<SocketAddr>, String>)
    ensures
        metrics_served(*metrics, r),
        match *metrics {
            Some(c) => if c.enabled {
                match r {
                    Ok(list) => are_bind_addrs(c.addresses@, c.port, list@),
                    Err(m) => exists|addr: Seq<char>, source: Seq<char>| #[trigger]
                        is_first_invalid(c.addresses@, c.port, addr, source) && m@ == address_message(
                            "metrics"@,
                            addr,
                            source,
                        ),
                }
            } else {
                r matches Ok(list) && list@.len() == 0
            },
            None => r matches Ok(list) && list@.len() == 0,
        },
{
    match metrics {
        Some(c) => {
            if !c.enabled {
                return Ok(Vec::new());
            }
            match parse_bind_addrs(&c.addresses, c.port) {
                Err(e) => {
                    Err(address_failure("metrics", &e))
                },
                Ok(addrs) => {
                    Ok(addrs)
                },
            }
        },
        None => Ok(Vec::new()),
    }
}

/// For how long the daemon has been running, in seconds.
pub open spec fn uptime(start_time: u64, now: u64) -> u64 {
    if now >= start_time {
        (now - start_time) as u64
    } else {
        0
    }
}

/// The time since the start reaches from the start to now; a clock that was set back does
/// not make it negative.
pub proof fn law_uptime_reaches_to_now(start_time: u64, now: u64)
    ensures
        now >= start_time ==> start_time + uptime(start_time, now) == now,
        now < start_time ==> uptime(start_time, now) == 0,
{
}

/// For how long the daemon has been running, in seconds; a clock that was set back does
/// not make it negative.
pub fn uptime_seconds(start_time: u64, now: u64) -> (r: u64)
    ensures
        r == uptime(start_time, now),
        r == if now >= start_time {
            now - start_time
        } else {
            0
        },
{
    if now >= start_time {
        now - start_time
    } else {
        0
    }
}

/// Whether a result is what answers queries after a reload, and what is said about it.
pub open spec fn reloads<P>(
    current: P,
    reloaded: Result<P, String>,
    r: (P, Option<String>),
) -> bool {
    match reloaded {
        Ok(p) => r.0 == p && r.1 is None,
        Err(e) => r.0 == current && (r.1 matches Some(m) && m@
            == "Configuration reload failed, keeping previous config: "@ + e@),
    }
}

/// A reload that fails leaves everything as it was and is warned about, with the error; one
/// that succeeds takes effect without a warning.
pub proof fn law_failed_reloads_change_nothing<P>(
    current: P,
    reloaded: Result<P, String>,
    r: (P, Option<String>),
)
    requires
        reloads(current, reloaded, r),
    ensures
        reloaded is Err ==> r.0 == current,
        reloaded matches Ok(p) ==> r.0 == p,
        r.1 is Some <==> reloaded is Err,
        reloaded matches Err(e) ==> (r.1 matches Some(m) && e@.is_suffix_of(m@)),
{
    if let Err(e) = reloaded {
        let m = "Configuration reload failed, keeping previous config: "@ + e@;
        assert(m.subrange(m.len() - e@.len(), m.len() as int) =~= e@);
    }
}

/// What answers queries from now on: what a reload made, or what did so before where the
/// reload failed.
pub fn after_reload<P>(current: P, reloaded: Result<P, String>) -> (r: (P, Option<String>))
    ensures
        reloads(current, reloaded, r),
        match reloaded {
            Ok(p) => r.0 == p && r.1 is None,
            Err(e) => r.0 == current && (r.1 matches Some(m) && m@
                == "Configuration reload failed, keeping previous config: "@ + e@),
        },
{
    match reloaded {
        Ok(p) => (p, None),
        Err(e) => {
            let mut m = "Configuration reload failed, keeping previous config: ".to_owned();
            m.push_str(e.as_str());
            (current, Some(m))
        },
    }
}

/// What ended, so that the daemon ends.
#[derive(Clone, Copy, Debug, PartialEq, Eq, Structural)]
pub enum Ending {
    /// It was told to.
    Shutdown,
    /// The server for queries.
    DnsServer,
    /// The task that reloads the configuration.
    Reload,
    /// The control socket, after the command `stop`.
    Control,
    /// The API.
    Api,
    /// The MCP server.
    Mcp,
}

/// The code with which the program ends.
pub open spec fn ending_code(ending: Ending) -> i32 {
    if ending is Reload {
        1
    } else {
        0
    }
}

/// The code with which the program ends: only where reloads have become impossible is it
/// an error.
pub fn exit_code(ending: Ending) -> (r: i32)
    ensures
        r == ending_code(ending),
{
    match ending {
        Ending::Reload => 1,
        _ => 0,
    }
}

/// What is said about the end.
pub open spec fn ending_text(ending: Ending) -> Seq<char> {
    match ending {
        Ending::Shutdown => "shutdown signal received, exiting"@,
        Ending::DnsServer => "DNS server exited unexpectedly"@,
        Ending::Reload => "Reload task exited unexpectedly"@,
        Ending::Control => "control socket task exited"@,
        Ending::Api => "HTTP API server exited unexpectedly"@,
        Ending::Mcp => "MCP server exited unexpectedly"@,
    }
}

/// The end is told apart by what it came of.
pub proof fn law_endings_are_told_apart(a: Ending, b: Ending)
    requires
        ending_text(a) == ending_text(b),
    ensures
        a == b,
        a is Shutdown ==> ending_text(a) == "shutdown signal received, exiting"@,
        a is DnsServer ==> ending_text(a) == "DNS server exited unexpectedly"@,
        a is Reload ==> ending_text(a) == "Reload task exited unexpectedly"@,
        a is Control ==> ending_text(a) == "control socket task exited"@,
        a is Api ==> ending_text(a) == "HTTP API server exited unexpectedly"@,
        a is Mcp ==> ending_text(a) == "MCP server exited unexpectedly"@,
{
    reveal_strlit("shutdown signal received, exiting");
    reveal_strlit("DNS server exited unexpectedly");
    reveal_strlit("Reload task exited unexpectedly");
    reveal_strlit("control socket task exited");
    reveal_strlit("HTTP API server exited unexpectedly");
    reveal_strlit("MCP server exited unexpectedly");
    assert("shutdown signal received, exiting"@.len() == 33);
    assert("DNS server exited unexpectedly"@.len() == 30);
    assert("Reload task exited unexpectedly"@.len() == 31);
    assert("control socket task exited"@.len() == 26);
    assert("HTTP API server exited unexpectedly"@.len() == 35);
    assert("MCP server exited unexpectedly"@.len() == 30);
    assert("DNS server exited unexpectedly"@[0] != "MCP server exited unexpectedly"@[0]);
}

/// What is said about the end.
pub fn ending_message(ending: Ending) -> (r: &'static str)
    ensures
        r@ == ending_text(ending),
        r@ == match ending {
            Ending::Shutdown => "shutdown signal received, exiting"@,
            Ending::DnsServer => "DNS server exited unexpectedly"@,
            Ending::Reload => "Reload task exited unexpectedly"@,
            Ending::Control => "control socket task exited"@,
            Ending::Api => "HTTP API server exited unexpectedly"@,
            Ending::Mcp => "MCP server exited unexpectedly"@,
        },
{
    match ending {
        Ending::Shutdown => "shutdown signal received, exiting",
        Ending::DnsServer => "DNS server exited unexpectedly",
        Ending::Reload => "Reload task exited unexpectedly",
        Ending::Control => "control socket task exited",
        Ending::Api => "HTTP API server exited unexpectedly",
        Ending::Mcp => "MCP server exited unexpectedly",
    }
}

/// Only the loss of the task that reloads the configuration counts as a failure of the
/// program.
pub proof fn law_only_lost_reloads_are_failures(ending: Ending)
    ensures
        ending_code(ending) == 1 <==> ending is Reload,
        ending_code(ending) == 0 <==> !(ending is Reload),
{
}

} // verus!
