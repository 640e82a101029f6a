//! DNS over QUIC.

use crate::net::{socket_addr, SocketAddr};
use crate::text::{strip_trailing_dots, without_trailing_dots};
use crate::upstream::endpoint::{
    default_bootstrap_resolvers, default_resolvers, named_endpoint, Endpoint, EndpointView, Transport,
};
use crate::upstream::error::{UpstreamResolveError, UpstreamResolveErrorView};
use crate::upstream::message::{
    head_result, message_head, questions_view, read_message, MessageHead, MessageHeadView,
};
use crate::upstream::runtime::{build_quic_socket, quic_plan, OutboundRouting, SocketPlan};
use vstd::prelude::*;

verus! {

/// How long an answer may take, in seconds.
pub const DOQ_TIMEOUT_SECS: u64 = 10;

/// A client for servers that speak DNS over QUIC.
#[derive(Debug)]
pub struct DnsQuicClient {
    pub endpoint: Endpoint,
    /// The name that the certificate of the server has to hold.
    pub server_name: String,
    /// The servers that are asked for the address of the host.
    pub bootstrap_resolvers: Vec<SocketAddr>,
    pub routing: OutboundRouting,
}

impl DnsQuicClient {
    /// The client for a server at an address.
    pub fn new(address: SocketAddr, server_name: String) -> (r: DnsQuicClient)
        ensures
            r.endpoint@ == EndpointView::Static(address),
            r.server_name == server_name,
            r.bootstrap_resolvers@ == default_resolvers(),
            r.routing.unset(),
    {
        DnsQuicClient {
            endpoint: Endpoint::Static(address),
            server_name,
            bootstrap_resolvers: default_bootstrap_resolvers(),
            routing: OutboundRouting::new(None, None),
        }
    }

    /// The client for a server that is named by its host.
    pub fn new_hostname(host: String, port: u16) -> (r: DnsQuicClient)
        ensures
            r.endpoint@ == (EndpointView::Hostname { host: host@, port }),
            r.server_name@ == without_trailing_dots(host@),
            r.bootstrap_resolvers@ == default_resolvers(),
            r.routing.unset(),
    {
        let server_name = strip_trailing_dots(host.as_str());
        DnsQuicClient {
            endpoint: Endpoint::Hostname { host, port },
            server_name,
            bootstrap_resolvers: default_bootstrap_resolvers(),
            routing: OutboundRouting::new(None, None),
        }
    }

    /// The client with other servers to ask for the address of the host; an empty list
    /// changes nothing.
    pub fn with_bootstrap_resolvers(self, resolvers: Vec<SocketAddr>) -> (r: DnsQuicClient)
        ensures
            r.bootstrap_resolvers@ == crate::upstream::endpoint::asked_resolvers(
                self.bootstrap_resolvers@,
                resolvers@,
            ),
            r.endpoint == self.endpoint,
            r.server_name == self.server_name,
            r.bootstrap_resolvers == if resolvers@.len() == 0 {
                self.bootstrap_resolvers
            } else {
                resolvers
            },
            r.routing == self.routing,
    {
        let bootstrap_resolvers = if resolvers.len() == 0 {
            self.bootstrap_resolvers
        } else {
            resolvers
        };
        DnsQuicClient {
            endpoint: self.endpoint,
            server_name: self.server_name,
            bootstrap_resolvers,
            routing: self.routing,
        }
    }

    /// The client with a routing.
    pub fn with_routing(self, routing: OutboundRouting) -> (r: DnsQuicClient)
        ensures
            r == (DnsQuicClient { routing, ..self }),
    {
        DnsQuicClient {
            endpoint: self.endpoint,
            server_name: self.server_name,
            bootstrap_resolvers: self.bootstrap_resolvers,
            routing,
        }
    }

    /// The client for the server at an address, written `quic://<host>[:port]` or without
    /// the scheme.
    pub fn parse_endpoint(value: &str) -> (r: Result<DnsQuicClient, UpstreamResolveError>)
        ensures
            match (named_endpoint(value@, Transport::Doq), r) {
                (Ok((e, name)), Ok(c)) => c.endpoint@ == e && c.server_name@ == name
                    && c.bootstrap_resolvers@ == default_resolvers() && c.routing.unset(),
                (Err(m), Err(e)) => e@ == UpstreamResolveErrorView::Protocol(m),
                _ => false,
            },
    {
        match crate::upstream::endpoint::parse_endpoint(value, Transport::Doq) {
            Err(e) => Err(e),
            Ok((endpoint, server_name)) => Ok(
                DnsQuicClient {
                    endpoint,
                    server_name,
                    bootstrap_resolvers: default_bootstrap_resolvers(),
                    routing: OutboundRouting::new(None, None),
                },
            ),
        }
    }
}

/// The socket over which a connection is made.
#[derive(Clone, Copy, Debug, PartialEq, Eq, Structural)]
pub enum QuicSocket {
    /// One that is set up as planned, so that it can be marked.
    Own(SocketPlan),
    /// One that is bound to an address.
    BoundTo(SocketAddr),
    /// Any.
    Any,
}

/// The socket over which a connection to a server is made.
pub open spec fn quic_socket(server: SocketAddr, routing: OutboundRouting) -> Result<
    QuicSocket,
    Seq<char>,
> {
    if routing.fwmark is Some {
        match quic_plan(server, routing) {
            Ok(p) => Ok(QuicSocket::Own(p)),
            Err(m) => Err(m),
        }
    } else {
        match routing.bind_address {
            Some(ip) => Ok(QuicSocket::BoundTo(socket_addr(ip, 0))),
            None => Ok(QuicSocket::Any),
        }
    }
}

/// The socket over which a connection to a server is made. Only where it is to be marked
/// is the source address held against that of the server here.
pub fn choose_quic_socket(server: SocketAddr, routing: &OutboundRouting) -> (r: Result<
    QuicSocket,
    UpstreamResolveError,
>)
    ensures
        match (quic_socket(server, *routing), r) {
            (Ok(a), Ok(b)) => a == b,
            (Err(m), Err(e)) => e@ == UpstreamResolveErrorView::Protocol(m),
            _ => false,
        },
{
    if routing.fwmark.is_some() {
        return match build_quic_socket(server, routing) {
            Ok(p) => Ok(QuicSocket::Own(p)),
            Err(e) => Err(e),
        };
    }
    match routing.bind_address {
        Some(ip) => Ok(QuicSocket::BoundTo(SocketAddr::new(ip, 0))),
        None => Ok(QuicSocket::Any),
    }
}

/// A connection leaves from the configured source address, and carries the configured
/// mark.
pub proof fn law_quic_routing_is_applied(server: SocketAddr, routing: OutboundRouting)
    ensures
        match quic_socket(server, routing) {
            Ok(QuicSocket::Own(p)) => p.fwmark == routing.fwmark && (routing.bind_address matches Some(
                ip,
            ) ==> p.bind == Some(socket_addr(ip, 0))),
            Ok(QuicSocket::BoundTo(a)) => routing.fwmark is None && routing.bind_address == Some(
                a.ip,
            ) && a.port == 0,
            Ok(QuicSocket::Any) => routing.unset(),
            Err(_) => routing.fwmark is Some && routing.bind_address is Some,
        },
{
}

/// The message that is sent for a query: the query itself with the ID 0.
pub open spec fn doq_request(head: Result<MessageHeadView, Seq<char>>) -> Result<
    MessageHeadView,
    UpstreamResolveErrorView,
> {
    match head {
        Err(m) => Err(UpstreamResolveErrorView::Protocol(m)),
        Ok(h) => if h.questions.len() == 0 {
            Err(UpstreamResolveErrorView::Protocol("query contains no questions"@))
        } else {
            Ok(MessageHeadView { id: 0, ..h })
        },
    }
}

/// The message that is sent for a query, given what was read from its bytes.
pub fn request_of(head: Result<MessageHead, String>) -> (r: Result<
    MessageHead,
    UpstreamResolveError,
>)
    ensures
        match (doq_request(head_result(head)), r) {
            (Ok(v), Ok(m)) => m@ == v,
            (Err(v), Err(e)) => e@ == v,
            _ => false,
        },
{
    match head {
        Err(m) => Err(UpstreamResolveError::Protocol(m)),
        Ok(h) => {
            assert(questions_view(h.questions@).len() == h.questions@.len());
            if h.questions.len() == 0 {
                return Err(
                    UpstreamResolveError::Protocol("query contains no questions".to_owned()),
                );
            }
            let mut out = h;
            out.id = 0;
            Ok(out)
        },
    }
}

/// The message that is sent for a query.
pub fn build_doq_request(query: &[u8]) -> (r: Result<MessageHead, UpstreamResolveError>)
    ensures
        match (doq_request(message_head(query@)), r) {
            (Ok(v), Ok(m)) => m@ == v,
            (Err(v), Err(e)) => e@ == v,
            _ => false,
        },
{
    request_of(read_message(query))
}

/// A query goes out with the ID 0 and is else unchanged: the same questions in the same
/// order, with the same extensions. A query without a question does not go out.
pub proof fn law_queries_go_out_with_id_zero(h: MessageHeadView)
    ensures
        match doq_request(Ok(h)) {
            Ok(sent) => {
                &&& sent.id == 0
                &&& sent.questions == h.questions
                &&& sent.questions.len() > 0
                &&& sent.edns == h.edns
                &&& sent.truncated == h.truncated
                &&& sent.addresses == h.addresses
            },
            Err(_) => h.questions.len() == 0,
        },
        h.questions.len() > 0 ==> doq_request(Ok(h)) is Ok,
{
}

/// What cannot be read does not go out.
pub proof fn law_unreadable_queries_do_not_go_out(m: Seq<char>)
    ensures
        doq_request(Err(m)) == Err::<MessageHeadView, UpstreamResolveErrorView>(
            UpstreamResolveErrorView::Protocol(m),
        ),
{
}

/// A mark can be set on a socket of one's own alone, so there is one exactly where a mark is
/// configured; without any routing any socket will do.
pub proof fn law_marked_sockets_are_own(server: SocketAddr, routing: OutboundRouting)
    ensures
        quic_socket(server, routing) matches Ok(s) ==> {
            &&& s is Own <==> routing.fwmark is Some
            &&& s is Any <==> routing.fwmark is None && routing.bind_address is None
        },
        quic_socket(server, routing) is Err <==> routing.fwmark is Some && (
        routing.bind_address matches Some(ip) && (ip is V4) != (server.ip is V4)),
{
}

} // verus!
