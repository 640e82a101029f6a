//! Sockets for outgoing connections: the address that they are bound to and the mark by
//! which the routing policy tells them apart.

use crate::net::{
    show_ip, show_socket_addr, shown_ip, shown_socket_addr, socket_addr, IpAddr, SocketAddr,
};
use crate::text::{
    after_prefix, lines, opt_str, opt_text, split_lines, strip_prefix, texts, trim, trimmed,
};
use crate::upstream::error::{UpstreamResolveError, UpstreamResolveErrorView};
use vstd::prelude::*;

verus! {

/// Configuration for outbound socket routing (bind address and/or fwmark).
#[derive(Clone, Copy, Debug, PartialEq, Eq, Structural)]
pub struct OutboundRouting {
    pub bind_address: Option<IpAddr>,
    pub fwmark: Option<u32>,
}

impl OutboundRouting {
    /// The routing with a source address and a mark.
    pub fn new(bind_address: Option<IpAddr>, fwmark: Option<u32>) -> (r: OutboundRouting)
        ensures
            r.bind_address == bind_address,
            r.fwmark == fwmark,
    {
        OutboundRouting { bind_address, fwmark }
    }

    /// Whether nothing is configured.
    pub open spec fn unset(self) -> bool {
        self.bind_address is None && self.fwmark is None
    }

    /// Returns `true` if no custom routing is configured.
    pub fn is_empty(&self) -> (r: bool)
        ensures
            r == self.unset(),
    {
        self.bind_address.is_none() && self.fwmark.is_none()
    }
}

/// How a socket is set up.
#[derive(Clone, Copy, Debug, PartialEq, Eq, Structural)]
pub struct SocketPlan {
    /// Whether the socket is one of IPv6.
    pub ipv6: bool,
    /// The mark that the socket gets.
    pub fwmark: Option<u32>,
    /// The address that the socket is bound to.
    pub bind: Option<SocketAddr>,
}

/// Sets up the sockets of upstream connections. Where no routing is configured, they
/// are those that there would be without it.
#[derive(Clone, Copy, Debug, PartialEq, Eq, Structural)]
pub struct RoutedRuntimeProvider {
    pub routing: OutboundRouting,
}

impl Default for RoutedRuntimeProvider {
    fn default() -> (r: RoutedRuntimeProvider)
        ensures
            r.routing.unset(),
    {
        RoutedRuntimeProvider { routing: OutboundRouting::new(None, None) }
    }
}

/// How a TCP connection to a server is set up: `None` where nothing is configured.
pub open spec fn tcp_plan(
    routing: OutboundRouting,
    server: SocketAddr,
    bind_addr: Option<SocketAddr>,
) -> Option<SocketPlan> {
    if routing.unset() {
        None
    } else {
        Some(
            SocketPlan {
                ipv6: server.ip is V6,
                fwmark: routing.fwmark,
                bind: match routing.bind_address {
                    Some(ip) => Some(socket_addr(ip, 0)),
                    None => bind_addr,
                },
            },
        )
    }
}

/// How a UDP socket is set up: `None` where nothing is configured.
pub open spec fn udp_plan(routing: OutboundRouting, local_addr: SocketAddr) -> Option<SocketPlan> {
    if routing.unset() {
        None
    } else {
        let local = match routing.bind_address {
            Some(ip) => socket_addr(ip, 0),
            None => local_addr,
        };
        Some(
            SocketPlan { ipv6: local.ip is V6, fwmark: routing.fwmark, bind: Some(local) },
        )
    }
}

impl RoutedRuntimeProvider {
    /// The provider for a routing.
    pub fn new(routing: OutboundRouting) -> (r: RoutedRuntimeProvider)
        ensures
            r.routing == routing,
    {
        RoutedRuntimeProvider { routing }
    }

    /// How a TCP connection to a server is set up: `None` where no routing is
    /// configured. The source address of the routing goes before the one of the caller.
    pub fn connect_tcp(&self, server_addr: SocketAddr, bind_addr: Option<SocketAddr>) -> (r: Option<
        SocketPlan,
    >)
        ensures
            r == tcp_plan(self.routing, server_addr, bind_addr),
    {
        if self.routing.is_empty() {
            return None;
        }
        let bind = match self.routing.bind_address {
            Some(ip) => Some(SocketAddr::new(ip, 0)),
            None => bind_addr,
        };
        Some(SocketPlan { ipv6: server_addr.ip.is_ipv6(), fwmark: self.routing.fwmark, bind })
    }

    /// How a UDP socket is set up: `None` where no routing is configured.
    pub fn bind_udp(&self, local_addr: SocketAddr) -> (r: Option<SocketPlan>)
        ensures
            r == udp_plan(self.routing, local_addr),
    {
        if self.routing.is_empty() {
            return None;
        }
        let local = match self.routing.bind_address {
            Some(ip) => SocketAddr::new(ip, 0),
            None => local_addr,
        };
        Some(
            SocketPlan {
                ipv6: local.ip.is_ipv6(),
                fwmark: self.routing.fwmark,
                bind: Some(local),
            },
        )
    }
}

/// How long a TCP connection may take to come about, in milliseconds; five seconds
/// where the caller does not say.
pub fn connect_timeout_ms(timeout_ms: Option<u64>) -> (r: u64)
    ensures
        r == match timeout_ms {
            Some(t) => t,
            None => 5000,
        },
{
    match timeout_ms {
        Some(t) => t,
        None => 5000,
    }
}

/// The socket for QUIC connections to a server.
pub open spec fn quic_plan(server: SocketAddr, routing: OutboundRouting) -> Result<
    SocketPlan,
    Seq<char>,
> {
    match routing.bind_address {
        Some(ip) => if (ip is V4) != (server.ip is V4) {
            Err(
                "DoQ bind_address '"@ + shown_ip(ip) + "' does not match upstream address family '"@
                    + shown_socket_addr(server) + "'"@,
            )
        } else {
            Ok(
                SocketPlan {
                    ipv6: ip is V6,
                    fwmark: routing.fwmark,
                    bind: Some(socket_addr(ip, 0)),
                },
            )
        },
        None => Ok(
            SocketPlan {
                ipv6: server.ip is V6,
                fwmark: routing.fwmark,
                bind: Some(
                    socket_addr(
                        match server.ip {
                            IpAddr::V4(_) => IpAddr::V4(0),
                            IpAddr::V6(_) => IpAddr::V6(0),
                        },
                        0,
                    ),
                ),
            },
        ),
    }
}

/// How the socket for QUIC connections to a server is set up.
pub fn build_quic_socket(server_addr: SocketAddr, routing: &OutboundRouting) -> (r: Result<
    SocketPlan,
    UpstreamResolveError,
>)
    ensures
        match (quic_plan(server_addr, *routing), r) {
            (Ok(p), Ok(plan)) => plan == p,
            (Err(m), Err(e)) => e@ == UpstreamResolveErrorView::Protocol(m),
            _ => false,
        },
{
    let local = match routing.bind_address {
        Some(ip) => {
            if ip.is_ipv6() != server_addr.ip.is_ipv6() {
                let mut m = "DoQ bind_address '".to_owned();
                m.push_str(show_ip(ip).as_str());
                m.push_str("' does not match upstream address family '");
                m.push_str(show_socket_addr(server_addr).as_str());
                m.push_str("'");
                return Err(UpstreamResolveError::Protocol(m));
            }
            SocketAddr::new(ip, 0)
        },
        None => match server_addr.ip {
            IpAddr::V4(_) => SocketAddr::new(IpAddr::V4(0), 0),
            IpAddr::V6(_) => SocketAddr::new(IpAddr::V6(0), 0),
        },
    };
    Ok(SocketPlan { ipv6: local.ip.is_ipv6(), fwmark: routing.fwmark, bind: Some(local) })
}

/// A socket for QUIC is always bound to an address of the family of the server.
pub proof fn law_quic_socket_matches_the_server(server: SocketAddr, routing: OutboundRouting)
    ensures
        quic_plan(server, routing) matches Ok(p) ==> (p.ipv6 == (server.ip is V6) && (
        p.bind matches Some(b) && b.port == 0 && (b.ip is V6 <==> server.ip is V6))),
{
}

/// The warning about a mark that cannot be set: there is one exactly where a mark is
/// configured and the process may not administer the network.
pub fn warn_if_fwmark_without_cap_net_admin(fwmark: Option<u32>, has_cap_net_admin: bool) -> (r:
    Option<&'static str>)
    ensures
        opt_str(r) == if fwmark is Some && !has_cap_net_admin {
            Some(
                "fwmark is configured but CAP_NET_ADMIN is not present in the effective set; SO_MARK will fail in chroot mode. Check your systemd/OpenRC unit capabilities."@,
            )
        } else {
            None
        },
{
    if fwmark.is_some() && !has_cap_net_admin {
        Some(
            "fwmark is configured but CAP_NET_ADMIN is not present in the effective set; SO_MARK will fail in chroot mode. Check your systemd/OpenRC unit capabilities.",
        )
    } else {
        None
    }
}

/// What the last of some lines that begin with a key says, without the white space
/// around it.
pub open spec fn last_value(ls: Seq<Seq<char>>, key: Seq<char>) -> Option<Seq<char>>
    decreases ls.len(),
{
    if ls.len() == 0 {
        None
    } else {
        match after_prefix(ls.last(), key) {
            Some(rest) => Some(trimmed(rest)),
            None => last_value(ls.drop_last(), key),
        }
    }
}

fn value_of_line(line: &str, key: &str, before: Option<String>) -> (r: Option<String>)
    ensures
        opt_text(r) == match after_prefix(line@, key@) {
            Some(rest) => Some(trimmed(rest)),
            None => opt_text(before),
        },
{
    match strip_prefix(line, key) {
        Some(rest) => Some(trim(rest.as_str())),
        None => before,
    }
}

/// The capabilities that the status of a process names: the effective, the permitted,
/// the bounding and the ambient ones.
pub fn parse_capability_lines(status: &str) -> (r: (
    Option<String>,
    Option<String>,
    Option<String>,
    Option<String>,
))
    ensures
        opt_text(r.0) == last_value(lines(status@), "CapEff:"@),
        opt_text(r.1) == last_value(lines(status@), "CapPrm:"@),
        opt_text(r.2) == last_value(lines(status@), "CapBnd:"@),
        opt_text(r.3) == last_value(lines(status@), "CapAmb:"@),
{
    let ls = split_lines(status);
    let ghost all = texts(ls@);
    assert(all.len() == ls@.len());
    let mut eff: Option<String> = None;
    let mut prm: Option<String> = None;
    let mut bnd: Option<String> = None;
    let mut amb: Option<String> = None;
    let mut i: usize = 0;
    while i < ls.len()
        invariant
            i <= ls@.len() == all.len(),
            all == texts(ls@),
            opt_text(eff) == last_value(all.take(i as int), "CapEff:"@),
            opt_text(prm) == last_value(all.take(i as int), "CapPrm:"@),
            opt_text(bnd) == last_value(all.take(i as int), "CapBnd:"@),
            opt_text(amb) == last_value(all.take(i as int), "CapAmb:"@),
        decreases ls@.len() - i,
    {
        assert(all.take(i + 1).drop_last() =~= all.take(i as int));
        assert(all.take(i + 1).last() == ls@[i as int]@);
        eff = value_of_line(ls[i].as_str(), "CapEff:", eff);
        prm = value_of_line(ls[i].as_str(), "CapPrm:", prm);
        bnd = value_of_line(ls[i].as_str(), "CapBnd:", bnd);
        amb = value_of_line(ls[i].as_str(), "CapAmb:", amb);
        i += 1;
    }
    assert(all.take(i as int) =~= all);
    (eff, prm, bnd, amb)
}

/// Where routing is configured, every socket carries the configured mark and leaves from the
/// configured source address, at any port; without a source address it leaves from where the
/// caller says. Where none is configured nothing is set up.
pub proof fn law_routing_is_applied(
    routing: OutboundRouting,
    server: SocketAddr,
    wanted: Option<SocketAddr>,
    local: SocketAddr,
)
    ensures
        tcp_plan(routing, server, wanted) is None <==> routing.bind_address is None
            && routing.fwmark is None,
        udp_plan(routing, local) is None <==> routing.bind_address is None && routing.fwmark is None,
        tcp_plan(routing, server, wanted) matches Some(p) ==> {
            &&& p.fwmark == routing.fwmark
            &&& p.ipv6 <==> server.ip is V6
            &&& match routing.bind_address {
                Some(ip) => p.bind matches Some(b) && b.ip == ip && b.port == 0,
                None => p.bind == wanted,
            }
        },
        udp_plan(routing, local) matches Some(p) ==> {
            &&& p.fwmark == routing.fwmark
            &&& match routing.bind_address {
                Some(ip) => p.bind matches Some(b) && b.ip == ip && b.port == 0,
                None => p.bind == Some(local),
            }
            &&& p.bind matches Some(b) && (p.ipv6 <==> b.ip is V6)
        },
{
}

/// A socket for QUIC carries the mark and leaves from the configured source address, or from
/// any; one whose source address is of another family than the server is refused.
pub proof fn law_quic_sockets_are_routed(server: SocketAddr, routing: OutboundRouting)
    ensures
        match quic_plan(server, routing) {
            Ok(p) => {
                &&& p.fwmark == routing.fwmark
                &&& p.bind matches Some(b) && match routing.bind_address {
                    Some(ip) => b.ip == ip,
                    None => b.ip == IpAddr::V4(0) || b.ip == IpAddr::V6(0),
                }
            },
            Err(_) => routing.bind_address matches Some(ip) && ((ip is V4 && server.ip is V6) || (
            ip is V6 && server.ip is V4)),
        },
        routing.bind_address is None ==> quic_plan(server, routing) is Ok,
        routing.bind_address matches Some(ip) && (ip is V4 <==> server.ip is V4) ==> quic_plan(
            server,
            routing,
        ) is Ok,
{
}

/// The value of a key is what follows it in the last line that begins with it.
pub proof fn law_last_line_with_the_key_counts(ls: Seq<Seq<char>>, key: Seq<char>, value: Seq<char>, other: Seq<char>)
    ensures
        last_value(ls.push(key + value), key) == Some(trimmed(value)),
        !key.is_prefix_of(other) ==> last_value(ls.push(other), key) == last_value(ls, key),
        last_value(Seq::empty(), key) is None,
{
    let line = key + value;
    assert(line.subrange(0, key.len() as int) =~= key);
    assert(line.skip(key.len() as int) =~= value);
    assert(ls.push(line).drop_last() =~= ls);
    assert(ls.push(other).drop_last() =~= ls);
}

} // verus!
