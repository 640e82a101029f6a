//! DNS over TLS.

use crate::net::SocketAddr;
use crate::text::{strip_trailing_dots, without_trailing_dots};
use crate::upstream::endpoint::{
    default_bootstrap_resolvers, default_resolvers, named_endpoint, Endpoint, EndpointView, Transport,
};
use crate::upstream::error::{UpstreamResolveError, UpstreamResolveErrorView};
use crate::upstream::message::{first_question, message_head, question_result, Question};
use vstd::prelude::*;

verus! {

/// How long an answer may take, in seconds.
pub const DOT_TIMEOUT_SECS: u64 = 10;

/// A client for servers that speak DNS over TLS.
#[derive(Debug)]
pub struct DnsTlsClient {
    pub endpoint: Endpoint,
    /// The name that the certificate of the server has to hold.
    pub server_name: String,
    /// The servers that are asked for the address of the host.
    pub bootstrap_resolvers: Vec<SocketAddr>,
}

impl DnsTlsClient {
    /// The client for a server at an address.
    pub fn new(address: SocketAddr, server_name: String) -> (r: DnsTlsClient)
        ensures
            r.endpoint@ == EndpointView::Static(address),
            r.server_name == server_name,
            r.bootstrap_resolvers@ == default_resolvers(),
    {
        DnsTlsClient {
            endpoint: Endpoint::Static(address),
            server_name,
            bootstrap_resolvers: default_bootstrap_resolvers(),
        }
    }

    /// The client for a server that is named by its host.
    pub fn new_hostname(host: String, port: u16) -> (r: DnsTlsClient)
        ensures
            r.endpoint@ == (EndpointView::Hostname { host: host@, port }),
            r.server_name@ == without_trailing_dots(host@),
            r.bootstrap_resolvers@ == default_resolvers(),
    {
        let server_name = strip_trailing_dots(host.as_str());
        DnsTlsClient {
            endpoint: Endpoint::Hostname { host, port },
            server_name,
            bootstrap_resolvers: default_bootstrap_resolvers(),
        }
    }

    /// The client with other servers to ask for the address of the host; an empty list
    /// changes nothing.
    pub fn with_bootstrap_resolvers(self, resolvers: Vec<SocketAddr>) -> (r: DnsTlsClient)
        ensures
            r.bootstrap_resolvers@ == crate::upstream::endpoint::asked_resolvers(
                self.bootstrap_resolvers@,
                resolvers@,
            ),
            r.endpoint == self.endpoint,
            r.server_name == self.server_name,
            r.bootstrap_resolvers == if resolvers@.len() == 0 {
                self.bootstrap_resolvers
            } else {
                resolvers
            },
    {
        let bootstrap_resolvers = if resolvers.len() == 0 {
            self.bootstrap_resolvers
        } else {
            resolvers
        };
        DnsTlsClient {
            endpoint: self.endpoint,
            server_name: self.server_name,
            bootstrap_resolvers,
        }
    }

    /// The client for the server at an address, written `tls://<host>[:port]` or without
    /// the scheme.
    pub fn parse_endpoint(value: &str) -> (r: Result<DnsTlsClient, UpstreamResolveError>)
        ensures
            match (named_endpoint(value@, Transport::Dot), r) {
                (Ok((e, name)), Ok(c)) => c.endpoint@ == e && c.server_name@ == name
                    && c.bootstrap_resolvers@ == default_resolvers(),
                (Err(m), Err(e)) => e@ == UpstreamResolveErrorView::Protocol(m),
                _ => false,
            },
    {
        match crate::upstream::endpoint::parse_endpoint(value, Transport::Dot) {
            Err(e) => Err(e),
            Ok((endpoint, server_name)) => Ok(
                DnsTlsClient {
                    endpoint,
                    server_name,
                    bootstrap_resolvers: default_bootstrap_resolvers(),
                },
            ),
        }
    }

    /// The first question of a query.
    pub fn extract_question(query: &[u8]) -> (r: Result<Question, UpstreamResolveError>)
        ensures
            question_result(r) == first_question(message_head(query@)),
    {
        crate::upstream::message::extract_question(query)
    }
}

} // verus!
