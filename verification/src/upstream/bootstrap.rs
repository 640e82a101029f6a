//! The address of a server that is named by its host name: the system is asked first,
//! and the bootstrap resolvers where it fails.

use crate::net::{socket_addr, IpAddr, SocketAddr};
use crate::text::{decimal, number};
use crate::upstream::endpoint::{Endpoint, EndpointView, Transport};
use crate::upstream::error::{UpstreamResolveError, UpstreamResolveErrorView};
use crate::upstream::exchange::bytes_result;
use crate::upstream::message::{
    head_result, message_head, read_message, MessageHead, MessageHeadView, TYPE_A, TYPE_AAAA,
};
use crate::upstream::runtime::OutboundRouting;
use hickory_proto::op::{Message, MessageType, OpCode, Query};
use hickory_proto::rr::{Name, RecordType};
use vstd::prelude::*;

verus! {

// ---- queries ----

/// A host name that ends with a dot.
pub open spec fn with_final_dot(host: Seq<char>) -> Seq<char> {
    if host.len() > 0 && host.last() == '.' {
        host
    } else {
        host.push('.')
    }
}

/// A host name that ends with a dot.
pub fn fqdn_host(value: &str) -> (r: String)
    ensures
        r@ == with_final_dot(value@),
{
    let n: usize = value.unicode_len();
    let mut out = value.to_owned();
    if n > 0 && value.get_char(n - 1) == '.' {
        return out;
    }
    out.push('.');
    out
}

/// Why a query could not be made.
#[derive(Debug)]
pub enum QueryFailure {
    /// The name is not one.
    Name(String),
    /// The message could not be encoded.
    Encoding(String),
}

/// A `QueryFailure` with its text.
pub enum QueryFailureView {
    Name(Seq<char>),
    Encoding(Seq<char>),
}

/// The bytes or the failure of a query, with its text.
pub open spec fn query_result(r: Result<Vec<u8>, QueryFailure>) -> Result<
    Seq<u8>,
    QueryFailureView,
> {
    match r {
        Ok(b) => Ok(b@),
        Err(QueryFailure::Name(m)) => Err(QueryFailureView::Name(m@)),
        Err(QueryFailure::Encoding(m)) => Err(QueryFailureView::Encoding(m@)),
    }
}

/// What `hickory_proto` makes of a query with an ID, a flag, a name and a type.
pub uninterp spec fn encoded_query(
    id: u16,
    recursion_desired: bool,
    name: Seq<char>,
    record_type: u16,
) -> Result<Seq<u8>, QueryFailureView>;

/// `hickory_proto`: the bytes of a message with one question of the class IN, whose name
/// `Name::from_ascii` reads and which `Message::to_vec` encodes, or the text of the error
/// of either. The wire format is not stated.
#[verifier::external_body]
fn encode_query(id: u16, recursion_desired: bool, name: &str, record_type: u16) -> (r: Result<
    Vec<u8>,
    QueryFailure,
>)
    ensures
        query_result(r) == encoded_query(id, recursion_desired, name@, record_type),
{
    let name = Name::from_ascii(name).map_err(|e| QueryFailure::Name(e.to_string()))?;
    let mut message = Message::new(id, MessageType::Query, OpCode::Query);
    message.metadata.recursion_desired = recursion_desired;
    message.add_query(Query::query(name, RecordType::from(record_type)));
    message.to_vec().map_err(|e| QueryFailure::Encoding(format!("{e:?}")))
}

/// The bytes of a query for a host, or the error.
pub open spec fn bootstrap_query(
    host: Seq<char>,
    transport: Transport,
    encoded: Result<Seq<u8>, QueryFailureView>,
) -> Result<Seq<u8>, UpstreamResolveErrorView> {
    match encoded {
        Ok(b) => Ok(b),
        Err(QueryFailureView::Name(m)) => Err(
            UpstreamResolveErrorView::Protocol(
                "invalid "@ + transport.name() + " hostname '"@ + host + "': "@ + m,
            ),
        ),
        Err(QueryFailureView::Encoding(m)) => Err(UpstreamResolveErrorView::Protocol(m)),
    }
}

/// The error of a query for a host that could not be made.
pub fn query_error(host: &str, transport: Transport, failure: QueryFailure) -> (r:
    UpstreamResolveError)
    ensures
        Err::<Seq<u8>, UpstreamResolveErrorView>(r@) == bootstrap_query(
            host@,
            transport,
            query_result(Err(failure)),
        ),
{
    match failure {
        QueryFailure::Name(text) => {
            let mut m = "invalid ".to_owned();
            m.push_str(transport.label());
            m.push_str(" hostname '");
            m.push_str(host);
            m.push_str("': ");
            m.push_str(text.as_str());
            UpstreamResolveError::Protocol(m)
        },
        QueryFailure::Encoding(text) => UpstreamResolveError::Protocol(text),
    }
}

/// A query for the addresses of a host, with the ID 1 and the flag that asks for
/// recursion.
pub fn build_bootstrap_query(host: &str, record_type: u16, transport: Transport) -> (r: Result<
    Vec<u8>,
    UpstreamResolveError,
>)
    ensures
        bytes_result(r) == bootstrap_query(
            host@,
            transport,
            encoded_query(1, true, with_final_dot(host@), record_type),
        ),
{
    match encode_query(1, true, fqdn_host(host).as_str(), record_type) {
        Ok(b) => Ok(b),
        Err(f) => Err(query_error(host, transport, f)),
    }
}

// ---- answers ----

/// The first address of an answer.
pub open spec fn first_address_from(addresses: Seq<Option<IpAddr>>) -> Option<IpAddr>
    decreases addresses.len(),
{
    if addresses.len() == 0 {
        None
    } else {
        match addresses[0] {
            Some(ip) => Some(ip),
            None => first_address_from(addresses.skip(1)),
        }
    }
}

/// The address that an answer gives.
pub open spec fn answered_address(head: Result<MessageHeadView, Seq<char>>, port: u16) -> Result<
    SocketAddr,
    UpstreamResolveErrorView,
> {
    match head {
        Err(m) => Err(UpstreamResolveErrorView::Protocol(m)),
        Ok(h) => match first_address_from(h.addresses) {
            Some(ip) => Ok(socket_addr(ip, port)),
            None => Err(
                UpstreamResolveErrorView::Protocol("no A/AAAA records in bootstrap response"@),
            ),
        },
    }
}

/// An address or an error, with its text.
pub open spec fn address_result(r: Result<SocketAddr, UpstreamResolveError>) -> Result<
    SocketAddr,
    UpstreamResolveErrorView,
> {
    match r {
        Ok(a) => Ok(a),
        Err(e) => Err(e@),
    }
}

/// The address that an answer gives, given what was read from its bytes.
pub fn address_of(head: Result<MessageHead, String>, port: u16) -> (r: Result<
    SocketAddr,
    UpstreamResolveError,
>)
    ensures
        address_result(r) == answered_address(head_result(head), port),
{
    match head {
        Err(m) => Err(UpstreamResolveError::Protocol(m)),
        Ok(h) => {
            let mut i: usize = 0;
            assert(h.addresses@.skip(0) =~= h.addresses@);
            while i < h.addresses.len()
                invariant
                    i <= h.addresses@.len(),
                    head == Ok::<MessageHead, String>(h),
                    first_address_from(h.addresses@) == first_address_from(
                        h.addresses@.skip(i as int),
                    ),
                decreases h.addresses@.len() - i,
            {
                assert(h.addresses@.skip(i as int)[0] == h.addresses@[i as int]);
                assert(h.addresses@.skip(i as int).skip(1) =~= h.addresses@.skip(i + 1));
                if let Some(ip) = h.addresses[i] {
                    return Ok(SocketAddr::new(ip, port));
                }
                i += 1;
            }
            Err(
                UpstreamResolveError::Protocol("no A/AAAA records in bootstrap response".to_owned()),
            )
        },
    }
}

/// The address that the bytes of an answer give.
pub fn extract_ip_from_response(response: &[u8], port: u16) -> (r: Result<
    SocketAddr,
    UpstreamResolveError,
>)
    ensures
        address_result(r) == answered_address(message_head(response@), port),
{
    address_of(read_message(response), port)
}

/// The routing of queries to the bootstrap resolvers: that of the client where it speaks
/// DNS over QUIC, and none elsewhere.
pub fn bootstrap_routing(transport: Transport, routing: OutboundRouting) -> (r: OutboundRouting)
    ensures
        transport is Doq ==> r == routing,
        !(transport is Doq) ==> r.unset(),
{
    match transport {
        Transport::Doq => routing,
        _ => OutboundRouting::new(None, None),
    }
}

// ---- asking the resolvers one after the other ----

/// A search for the address of a host: each resolver is asked for an IPv4 address, then
/// for an IPv6 address, until one of them gives an address.
#[derive(Debug)]
pub struct Search {
    host: String,
    port: u16,
    resolvers: Vec<SocketAddr>,
    a_query: Vec<u8>,
    aaaa_query: Vec<u8>,
    /// The resolver whose turn it is.
    at: usize,
    /// Whether it was asked for an IPv4 address already.
    second: bool,
    found: Option<SocketAddr>,
}

/// A `Search`, with the number of questions that were asked.
#[verifier::ext_equal]
pub struct SearchView {
    pub host: Seq<char>,
    pub port: u16,
    pub resolvers: Seq<SocketAddr>,
    pub a_query: Seq<u8>,
    pub aaaa_query: Seq<u8>,
    pub asked: int,
    pub found: Option<SocketAddr>,
}

impl View for Search {
    type V = SearchView;

    closed spec fn view(&self) -> SearchView {
        SearchView {
            host: self.host@,
            port: self.port,
            resolvers: self.resolvers@,
            a_query: self.a_query@,
            aaaa_query: self.aaaa_query@,
            asked: 2 * self.at + if self.second {
                1int
            } else {
                0int
            },
            found: self.found,
        }
    }
}

impl SearchView {
    /// Whether the search is over.
    pub open spec fn over(self) -> bool {
        self.found is Some || self.asked >= 2 * self.resolvers.len()
    }

    /// The next question: whom to ask, and what.
    pub open spec fn question(self) -> Option<(SocketAddr, Seq<u8>)> {
        if self.over() {
            None
        } else {
            Some(
                (
                    self.resolvers[self.asked / 2],
                    if self.asked % 2 == 0 {
                        self.a_query
                    } else {
                        self.aaaa_query
                    },
                ),
            )
        }
    }

    /// The search after the answer to a question, which may give an address.
    pub open spec fn answered(self, address: Option<SocketAddr>) -> SearchView {
        SearchView { asked: self.asked + 1, found: address, ..self }
    }
}

impl Search {
    /// Whether the search is at a place that it can be at.
    pub closed spec fn well_formed(&self) -> bool {
        self.at <= self.resolvers@.len() && (self.at == self.resolvers@.len() ==> !self.second)
    }

    /// Starts a search. It fails where no query can be made for the host.
    pub fn start(host: &str, port: u16, resolvers: Vec<SocketAddr>, transport: Transport) -> (r: Result<
        Search,
        UpstreamResolveError,
    >)
        ensures
            match (
                bootstrap_query(
                    host@,
                    transport,
                    encoded_query(1, true, with_final_dot(host@), TYPE_A),
                ),
                bootstrap_query(
                    host@,
                    transport,
                    encoded_query(1, true, with_final_dot(host@), TYPE_AAAA),
                ),
                r,
            ) {
                (Err(e), _, Err(f)) => f@ == e,
                (Ok(_), Err(e), Err(f)) => f@ == e,
                (Ok(a), Ok(aaaa), Ok(s)) => s.well_formed() && s@ == (SearchView {
                    host: host@,
                    port,
                    resolvers: resolvers@,
                    a_query: a,
                    aaaa_query: aaaa,
                    asked: 0,
                    found: None,
                }),
                _ => false,
            },
    {
        let a_query = match build_bootstrap_query(host, TYPE_A, transport) {
            Ok(b) => b,
            Err(e) => return Err(e),
        };
        let aaaa_query = match build_bootstrap_query(host, TYPE_AAAA, transport) {
            Ok(b) => b,
            Err(e) => return Err(e),
        };
        Ok(
            Search {
                host: host.to_owned(),
                port,
                resolvers,
                a_query,
                aaaa_query,
                at: 0,
                second: false,
                found: None,
            },
        )
    }

    /// The next question: whom to ask, and what; none once the search is over.
    pub fn next_question(&self) -> (r: Option<(SocketAddr, &Vec<u8>)>)
        requires
            self.well_formed(),
        ensures
            match (self@.question(), r) {
                (Some((s, q)), Some((server, query))) => server == s && query@ == q,
                (None, None) => true,
                _ => false,
            },
    {
        if self.found.is_some() || self.at >= self.resolvers.len() {
            return None;
        }
        let query = if self.second {
            &self.aaaa_query
        } else {
            &self.a_query
        };
        Some((self.resolvers[self.at], query))
    }

    /// Notes the address that came of the question, if one did.
    pub fn note(&mut self, address: Option<SocketAddr>)
        requires
            old(self).well_formed(),
            !old(self)@.over(),
        ensures
            final(self).well_formed(),
            final(self)@ == old(self)@.answered(address),
    {
        self.found = address;
        if self.second {
            self.second = false;
            assert(self.at < self.resolvers.len());
            self.at += 1;
        } else {
            self.second = true;
        }
    }

    /// Takes the answer to the question, or the error that came in its place.
    pub fn answer(&mut self, response: Result<Vec<u8>, UpstreamResolveError>)
        requires
            old(self).well_formed(),
            !old(self)@.over(),
        ensures
            final(self).well_formed(),
            final(self)@ == old(self)@.answered(
                match response {
                    Ok(b) => match answered_address(message_head(b@), old(self)@.port) {
                        Ok(a) => Some(a),
                        Err(_) => None,
                    },
                    Err(_) => None,
                },
            ),
    {
        let address = match response {
            Ok(b) => match extract_ip_from_response(b.as_slice(), self.port) {
                Ok(a) => Some(a),
                Err(_) => None,
            },
            Err(_) => None,
        };
        self.note(address);
    }

    /// What the search came to.
    pub fn result(&self) -> (r: Result<SocketAddr, UpstreamResolveError>)
        ensures
            match self@.found {
                Some(a) => r == Ok::<SocketAddr, UpstreamResolveError>(a),
                None => r matches Err(e) && e@ == UpstreamResolveErrorView::Protocol(
                    "bootstrap resolvers did not return usable A/AAAA records for '"@ + self@.host
                        + "'"@,
                ),
            },
    {
        match self.found {
            Some(a) => Ok(a),
            None => {
                let mut m = "bootstrap resolvers did not return usable A/AAAA records for '".to_owned();
                m.push_str(self.host.as_str());
                m.push_str("'");
                Err(UpstreamResolveError::Protocol(m))
            },
        }
    }
}

/// Every search is over after two questions to each resolver, and stops at once where an
/// answer gives an address.
pub proof fn law_search_ends(s: SearchView, address: Option<SocketAddr>)
    requires
        0 <= s.asked,
        !s.over(),
    ensures
        address is Some ==> s.answered(address).over(),
        s.answered(address).asked <= 2 * s.resolvers.len(),
        s.answered(address).asked == s.asked + 1,
{
}

// ---- where a server is ----

/// A host and a port as one text.
pub open spec fn shown_host(host: Seq<char>, port: u16) -> Seq<char> {
    host + ":"@ + decimal(port as nat)
}

/// What asking the system for the address of a host came to.
#[derive(Debug)]
pub enum Lookup {
    /// The addresses that it knows.
    Addresses(Vec<SocketAddr>),
    /// The text of its error.
    Failed(String),
}

/// Whether a result says where a server is, as far as it is known without the bootstrap
/// resolvers.
pub open spec fn is_resolved(
    endpoint: EndpointView,
    lookup: Lookup,
    transport: Transport,
    r: Option<Result<SocketAddr, UpstreamResolveError>>,
) -> bool {
    match (endpoint, lookup) {
        (EndpointView::Static(a), _) => r == Some(Ok::<SocketAddr, UpstreamResolveError>(a)),
        (EndpointView::Hostname { host, port }, Lookup::Addresses(v)) => if v@.len() > 0 {
            r == Some(Ok::<SocketAddr, UpstreamResolveError>(v@[0]))
        } else {
            r matches Some(Err(e)) && e@ == UpstreamResolveErrorView::Protocol(
                "no resolved address for "@ + transport.name() + " hostname '"@ + shown_host(
                    host,
                    port,
                ) + "'"@,
            )
        },
        (EndpointView::Hostname { .. }, Lookup::Failed(_)) => r is None,
    }
}

/// A server that is given by its address is there, whatever the system says; one that is
/// given by its name is where the system says first, and the bootstrap resolvers are asked
/// exactly where the system fails.
pub proof fn law_system_is_asked_first(
    endpoint: EndpointView,
    lookup: Lookup,
    transport: Transport,
    r: Option<Result<SocketAddr, UpstreamResolveError>>,
)
    requires
        is_resolved(endpoint, lookup, transport, r),
    ensures
        r is None <==> endpoint is Hostname && lookup is Failed,
        endpoint matches EndpointView::Static(a) ==> r == Some(
            Ok::<SocketAddr, UpstreamResolveError>(a),
        ),
        endpoint is Hostname ==> (r matches Some(Ok(a)) ==> (lookup matches Lookup::Addresses(v)
            && v@.len() > 0 && a == v@[0])),
        r matches Some(Err(_)) <==> endpoint is Hostname && (lookup matches Lookup::Addresses(v)
            && v@.len() == 0),
{
}

/// Where a server is, as far as it is known without the bootstrap resolvers: `None`
/// where they are asked.
pub fn resolve_address(endpoint: &Endpoint, lookup: &Lookup, transport: Transport) -> (r: Option<
    Result<SocketAddr, UpstreamResolveError>,
>)
    ensures
        is_resolved(endpoint@, *lookup, transport, r),
        match (endpoint@, *lookup) {
            (EndpointView::Static(a), _) => r == Some(Ok::<SocketAddr, UpstreamResolveError>(a)),
            (EndpointView::Hostname { host, port }, Lookup::Addresses(v)) => if v@.len() > 0 {
                r == Some(Ok::<SocketAddr, UpstreamResolveError>(v@[0]))
            } else {
                r matches Some(Err(e)) && e@ == UpstreamResolveErrorView::Protocol(
                    "no resolved address for "@ + transport.name() + " hostname '"@ + shown_host(
                        host,
                        port,
                    ) + "'"@,
                )
            },
            (EndpointView::Hostname { .. }, Lookup::Failed(_)) => r is None,
        },
{
    match endpoint {
        Endpoint::Static(a) => Some(Ok(*a)),
        Endpoint::Hostname { host, port } => match lookup {
            Lookup::Failed(_) => None,
            Lookup::Addresses(v) => {
                if v.len() > 0 {
                    return Some(Ok(v[0]));
                }
                let mut shown = host.clone();
                shown.push_str(":");
                shown.push_str(number(*port as u64).as_str());
                let mut m = "no resolved address for ".to_owned();
                m.push_str(transport.label());
                m.push_str(" hostname '");
                m.push_str(shown.as_str());
                m.push_str("'");
                Some(Err(UpstreamResolveError::Protocol(m)))
            },
        },
    }
}

/// The error where neither the system nor the bootstrap resolvers know a host.
pub fn unresolved(
    host: &str,
    port: u16,
    transport: Transport,
    os_error: &str,
    bootstrap_error: &str,
) -> (r: UpstreamResolveError)
    ensures
        r@ == UpstreamResolveErrorView::Protocol(
            "failed to resolve "@ + transport.name() + " hostname '"@ + shown_host(host@, port)
                + "' using OS resolver ("@ + os_error@ + ") and bootstrap resolvers ("@
                + bootstrap_error@ + ")"@,
        ),
{
    let mut shown = host.to_owned();
    shown.push_str(":");
    shown.push_str(number(port as u64).as_str());
    let mut m = "failed to resolve ".to_owned();
    m.push_str(transport.label());
    m.push_str(" hostname '");
    m.push_str(shown.as_str());
    m.push_str("' using OS resolver (");
    m.push_str(os_error);
    m.push_str(") and bootstrap resolvers (");
    m.push_str(bootstrap_error);
    m.push_str(")");
    UpstreamResolveError::Protocol(m)
}

/// A name gets a dot at its end exactly where it has none.
pub proof fn law_names_end_with_one_dot(host: Seq<char>)
    ensures
        with_final_dot(host).last() == '.',
        with_final_dot(with_final_dot(host)) == with_final_dot(host),
        with_final_dot(host) == host || with_final_dot(host) == host.push('.'),
        host.len() > 0 && host.last() == '.' ==> with_final_dot(host) == host,
{
}

/// An answer gives the first address in it, at the port of the server, and is an error
/// exactly where it has none.
pub proof fn law_first_address_is_taken(h: MessageHeadView, port: u16)
    ensures
        match answered_address(Ok(h), port) {
            Ok(a) => a.port == port && exists|i: int|
                {
                    &&& 0 <= i < h.addresses.len()
                    &&& #[trigger] h.addresses[i] == Some(a.ip)
                    &&& forall|j: int| 0 <= j < i ==> #[trigger] h.addresses[j] is None
                },
            Err(_) => forall|i: int| 0 <= i < h.addresses.len() ==> #[trigger] h.addresses[i] is None,
        },
{
    lemma_first_address(h.addresses);
}

proof fn lemma_first_address(addresses: Seq<Option<IpAddr>>)
    ensures
        match first_address_from(addresses) {
            Some(ip) => exists|i: int|
                {
                    &&& 0 <= i < addresses.len()
                    &&& #[trigger] addresses[i] == Some(ip)
                    &&& forall|j: int| 0 <= j < i ==> #[trigger] addresses[j] is None
                },
            None => forall|i: int| 0 <= i < addresses.len() ==> #[trigger] addresses[i] is None,
        },
    decreases addresses.len(),
{
    if addresses.len() > 0 {
        match addresses[0] {
            Some(ip) => {
                assert(addresses[0] == Some(ip));
            },
            None => {
                let rest = addresses.skip(1);
                lemma_first_address(rest);
                match first_address_from(rest) {
                    Some(ip) => {
                        let i = choose|i: int|
                            {
                                &&& 0 <= i < rest.len()
                                &&& #[trigger] rest[i] == Some(ip)
                                &&& forall|j: int| 0 <= j < i ==> #[trigger] rest[j] is None
                            };
                        assert(addresses[i + 1] == Some(ip));
                        assert forall|j: int| 0 <= j < i + 1 implies #[trigger] addresses[j]
                            is None by {
                            if j > 0 {
                                assert(rest[j - 1] == addresses[j]);
                            }
                        }
                    },
                    None => {
                        assert forall|i: int| 0 <= i < addresses.len() implies #[trigger] addresses[i]
                            is None by {
                            if i > 0 {
                                assert(rest[i - 1] == addresses[i]);
                            }
                        }
                    },
                }
            },
        }
    }
}

/// The resolvers are asked in their order, each for an IPv4 address first and then for an
/// IPv6 address; what one of them gives ends the search.
pub proof fn law_resolvers_are_asked_in_order(s: SearchView, k: int)
    requires
        0 <= k < s.resolvers.len(),
        s.found is None,
    ensures
        (SearchView { asked: 2 * k, ..s }).question() == Some((s.resolvers[k], s.a_query)),
        (SearchView { asked: 2 * k + 1, ..s }).question() == Some((s.resolvers[k], s.aaaa_query)),
        (SearchView { asked: 2 * s.resolvers.len() as int, ..s }).question() is None,
{
}

/// What an answer gives is what is found; an answer that gives nothing changes nothing but
/// the place of the search.
pub proof fn law_searches_keep_their_questions(s: SearchView, address: Option<SocketAddr>)
    ensures
        s.answered(address).found == address,
        s.answered(address).host == s.host,
        s.answered(address).port == s.port,
        s.answered(address).resolvers == s.resolvers,
        s.answered(address).a_query == s.a_query,
        s.answered(address).aaaa_query == s.aaaa_query,
        address is Some ==> s.answered(address).question() is None,
{
}

/// A query that can be made is sent as it is; a host that is none is told by its name.
pub proof fn law_queries_that_can_be_made_are_sent(
    host: Seq<char>,
    transport: Transport,
    b: Seq<u8>,
    m: Seq<char>,
)
    ensures
        bootstrap_query(host, transport, Ok(b)) == Ok::<Seq<u8>, UpstreamResolveErrorView>(b),
        bootstrap_query(host, transport, Err(QueryFailureView::Encoding(m))) matches Err(e) && e.text()
            == m,
        bootstrap_query(host, transport, Err(QueryFailureView::Name(m))) matches Err(e) && (
        " hostname '"@ + host + "': "@ + m).is_suffix_of(e.text()),
{
    let t = "invalid "@ + transport.name() + " hostname '"@ + host + "': "@ + m;
    let e = " hostname '"@ + host + "': "@ + m;
    assert(t.subrange(t.len() - e.len(), t.len() as int) =~= e);
}

/// The first address that there is is taken, and none where there is none.
pub proof fn law_first_address_there_is_is_taken(addresses: Seq<Option<IpAddr>>, ip: IpAddr)
    ensures
        first_address_from(seq![Some(ip)] + addresses) == Some(ip),
        first_address_from(seq![None] + addresses) == first_address_from(addresses),
        first_address_from(seq![]) is None,
{
    assert((seq![None] + addresses).skip(1) =~= addresses);
}

} // verus!
