//! Plain DNS: queries over UDP, and over TCP where the answer was cut off.

use crate::net::{show_socket_addr, shown_socket_addr, SocketAddr};
use crate::upstream::error::{UpstreamResolveError, UpstreamResolveErrorView};
use crate::upstream::message::{
    first_question, head_result, message_head, question_result, read_message, MessageHead,
    MessageHeadView, Question,
};
use crate::upstream::runtime::OutboundRouting;
use vstd::prelude::*;

verus! {

/// How long an answer over UDP may take, in seconds.
pub const UDP_TIMEOUT_SECS: u64 = 5;

/// How long an answer over TCP may take, in seconds.
pub const TCP_TIMEOUT_SECS: u64 = 10;

/// DNS resolver that sends queries over UDP and falls back to TCP when the response is
/// truncated.
#[derive(Debug)]
pub struct DnsUdpTcpClient {
    pub address: SocketAddr,
    pub routing: OutboundRouting,
    pub label: String,
}

/// What follows an answer over UDP.
#[derive(Clone, Copy, Debug, PartialEq, Eq, Structural)]
pub enum AfterUdp {
    /// It is the answer.
    Answer,
    /// The query is sent again over TCP.
    RetryOverTcp,
}

/// What follows an answer over UDP.
pub open spec fn udp_outcome(head: Result<MessageHeadView, Seq<char>>) -> Result<
    AfterUdp,
    UpstreamResolveErrorView,
> {
    match head {
        Err(m) => Err(UpstreamResolveErrorView::Protocol(m)),
        Ok(h) => Ok(
            if h.truncated {
                AfterUdp::RetryOverTcp
            } else {
                AfterUdp::Answer
            },
        ),
    }
}

impl DnsUdpTcpClient {
    /// The client for a server.
    pub fn new(address: SocketAddr) -> (r: DnsUdpTcpClient)
        ensures
            r.address == address,
            r.routing.unset(),
            r.label@ == "dns://"@ + shown_socket_addr(address),
    {
        let mut label = "dns://".to_owned();
        label.push_str(show_socket_addr(address).as_str());
        DnsUdpTcpClient { address, routing: OutboundRouting::new(None, None), label }
    }

    /// The client with a routing.
    pub fn with_routing(self, routing: OutboundRouting) -> (r: DnsUdpTcpClient)
        ensures
            r == (DnsUdpTcpClient { routing, ..self }),
    {
        DnsUdpTcpClient { address: self.address, routing, label: self.label }
    }

    /// The first question of a query.
    pub fn extract_question(query: &[u8]) -> (r: Result<Question, UpstreamResolveError>)
        ensures
            question_result(r) == first_question(message_head(query@)),
    {
        crate::upstream::message::extract_question(query)
    }
}

/// What follows an answer over UDP, given what was read from its bytes.
pub fn after_udp_head(head: Result<MessageHead, String>) -> (r: Result<
    AfterUdp,
    UpstreamResolveError,
>)
    ensures
        match (udp_outcome(head_result(head)), r) {
            (Ok(a), Ok(b)) => a == b,
            (Err(e), Err(f)) => f@ == e,
            _ => false,
        },
{
    match head {
        Err(m) => Err(UpstreamResolveError::Protocol(m)),
        Ok(h) => Ok(
            if h.truncated {
                AfterUdp::RetryOverTcp
            } else {
                AfterUdp::Answer
            },
        ),
    }
}

/// What follows an answer over UDP.
pub fn after_udp(response: &[u8]) -> (r: Result<AfterUdp, UpstreamResolveError>)
    ensures
        match (udp_outcome(message_head(response@)), r) {
            (Ok(a), Ok(b)) => a == b,
            (Err(e), Err(f)) => f@ == e,
            _ => false,
        },
{
    after_udp_head(read_message(response))
}

/// An answer over UDP that was cut off is asked for again over TCP, and only such a one;
/// every other answer that can be read is the answer. What cannot be read is an error with
/// its text.
pub proof fn law_cut_off_answers_are_asked_for_again(head: Result<MessageHeadView, Seq<char>>)
    ensures
        match head {
            Ok(h) => {
                &&& h.truncated ==> udp_outcome(head) == Ok::<AfterUdp, UpstreamResolveErrorView>(
                    AfterUdp::RetryOverTcp,
                )
                &&& !h.truncated ==> udp_outcome(head) == Ok::<AfterUdp, UpstreamResolveErrorView>(
                    AfterUdp::Answer,
                )
            },
            Err(m) => udp_outcome(head) == Err::<AfterUdp, UpstreamResolveErrorView>(
                UpstreamResolveErrorView::Protocol(m),
            ),
        },
{
}

} // verus!
