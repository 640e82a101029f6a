use dns_filter::net::{show_ip, show_socket_addr, IpAddr, SocketAddr};
use dns_filter::upstream::bootstrap::{
    address_of, bootstrap_routing, build_bootstrap_query, extract_ip_from_response, fqdn_host,
    query_error, resolve_address, unresolved, Lookup, QueryFailure, Search,
};
use dns_filter::upstream::dns::{after_udp, AfterUdp, DnsUdpTcpClient};
use dns_filter::upstream::doh::{
    build_auth_headers, parse_doh_url, target_of_url, DnsHttpsClient, UrlParts, ZoneSourceAuth,
};
use dns_filter::upstream::doq::{
    build_doq_request, choose_quic_socket, DnsQuicClient, QuicSocket,
};
use dns_filter::upstream::dot::DnsTlsClient;
use dns_filter::upstream::endpoint::{
    connect_error, parse_hostname_with_optional_port, validate_hostname, ConnectFailure, Endpoint,
    Transport,
};
use dns_filter::upstream::error::UpstreamResolveError;
use dns_filter::upstream::exchange::{advance, begin, CacheChange, Event, Phase};
use dns_filter::upstream::message::{Edns, MessageHead, Question};
use dns_filter::upstream::recursive::{
    answer_query, builtin_root_hints, choose_root_key, dnssec_wanted, finish_answer,
    hint_of_record, load_root_hints, negative_answer, parse_root_hints, plan_recursor, read_query,
    root_hints_paths, root_hints_v4, root_hints_v6, root_key_paths, Answer, NameserverIpFamily,
    Network, Outcome, DEFAULT_MAX_HOPS,
};
use dns_filter::upstream::runtime::{
    build_quic_socket, connect_timeout_ms, parse_capability_lines,
    warn_if_fwmark_without_cap_net_admin, OutboundRouting, RoutedRuntimeProvider, SocketPlan,
};
use hickory_proto::op::{Message, MessageType, OpCode, Query};
use hickory_proto::rr::rdata::{A, AAAA, TXT};
use hickory_proto::rr::{Name, RData, Record, RecordType};

fn v4(a: u8, b: u8, c: u8, d: u8) -> IpAddr {
    IpAddr::V4(u32::from_be_bytes([a, b, c, d]))
}

fn at(ip: IpAddr, port: u16) -> SocketAddr {
    SocketAddr::new(ip, port)
}

fn query_bytes(id: u16, name: &str, record_type: RecordType) -> Vec<u8> {
    let mut message = Message::new(id, MessageType::Query, OpCode::Query);
    message.metadata.recursion_desired = true;
    message.add_query(Query::query(Name::from_ascii(name).unwrap(), record_type));
    message.to_vec().unwrap()
}

fn response_bytes(records: Vec<RData>, truncated: bool) -> Vec<u8> {
    let mut message = Message::new(1, MessageType::Response, OpCode::Query);
    message.metadata.truncation = truncated;
    let name = Name::from_ascii("dns.example.com.").unwrap();
    message.add_query(Query::query(name.clone(), RecordType::A));
    for data in records {
        message.add_answer(Record::from_rdata(name.clone(), 60, data));
    }
    message.to_vec().unwrap()
}

// ---- DNS over HTTPS ----

#[test]
fn parse_doh_url_ip_endpoint() {
    let target = parse_doh_url("https://1.1.1.1/dns-query").unwrap();
    assert!(matches!(target.endpoint, Endpoint::Static(addr) if addr == at(v4(1, 1, 1, 1), 443)));
    assert_eq!(target.server_name, "1.1.1.1");
    assert_eq!(target.path, "/dns-query");
}

#[test]
fn parse_doh_url_hostname_endpoint() {
    let target = parse_doh_url("https://cloudflare-dns.com/dns-query").unwrap();
    assert!(
        matches!(target.endpoint, Endpoint::Hostname { ref host, port } if host == "cloudflare-dns.com" && port == 443)
    );
    assert_eq!(target.server_name, "cloudflare-dns.com");
    assert_eq!(target.path, "/dns-query");
}

#[test]
fn parse_doh_url_custom_port() {
    let target = parse_doh_url("https://1.1.1.1:8443/dns-query").unwrap();
    assert!(matches!(target.endpoint, Endpoint::Static(addr) if addr.port == 8443));
}

#[test]
fn parse_doh_url_defaults_path_when_missing() {
    let target = parse_doh_url("https://cloudflare-dns.com").unwrap();
    assert_eq!(target.path, "/dns-query");
}

#[test]
fn parse_doh_url_rejects_http_scheme() {
    let err = parse_doh_url("http://1.1.1.1/dns-query").unwrap_err();
    assert!(matches!(err, UpstreamResolveError::Protocol(_)));
    assert_eq!(err.message(), "DoH URL must use https scheme, got 'http'");
}

#[test]
fn parse_doh_url_rejects_missing_host() {
    let err = parse_doh_url("https://:443/dns-query").unwrap_err();
    assert!(matches!(err, UpstreamResolveError::Protocol(_)));
}

#[test]
fn doh_url_needs_a_host() {
    let parts = UrlParts {
        scheme: "https".to_string(),
        host: None,
        port: None,
        path: "/x".to_string(),
    };
    assert_eq!(target_of_url("u", Ok(parts), None).unwrap_err().message(), "DoH URL missing host");
    assert_eq!(
        target_of_url("u", Err("bad".to_string()), None).unwrap_err().message(),
        "invalid DoH URL 'u': bad"
    );
}

#[test]
fn doh_hosts_are_addresses_or_names() {
    let parts = || UrlParts {
        scheme: "https".to_string(),
        host: Some("1.1.1.1".to_string()),
        port: Some(8443),
        path: "/".to_string(),
    };
    let target = target_of_url("u", Ok(parts()), Some(IpAddr::V4(0x0101_0101))).unwrap();
    assert!(matches!(
        target.endpoint,
        Endpoint::Static(a) if a == SocketAddr::new(IpAddr::V4(0x0101_0101), 8443)
    ));
    assert_eq!(target.server_name, "1.1.1.1");
    assert_eq!(target.path, "/dns-query");
    let target = target_of_url("u", Ok(parts()), None).unwrap();
    assert!(matches!(
        target.endpoint,
        Endpoint::Hostname { host, port: 8443 } if host == "1.1.1.1"
    ));
}

#[test]
fn hints_are_of_the_kind_that_they_say() {
    let v4 = IpAddr::V4(0xc629_0004);
    assert_eq!(hint_of_record("A", Some(v4)), Some(SocketAddr::new(v4, 53)));
    assert_eq!(hint_of_record("AAAA", Some(v4)), None);
    assert_eq!(hint_of_record("AAAA", Some(IpAddr::V6(1))), Some(SocketAddr::new(IpAddr::V6(1), 53)));
    assert_eq!(hint_of_record("NS", Some(v4)), None);
    assert_eq!(hint_of_record("A", None), None);
}

#[test]
fn doh_client_new_with_bearer_auth() {
    let client = DnsHttpsClient::new(
        "https://dns.example.com/dns-query".to_string(),
        Some(ZoneSourceAuth::Bearer("token123".to_string())),
    )
    .unwrap();
    assert!(client.auth_headers.is_some());
    assert_eq!(client.auth_headers.unwrap(), "Bearer token123");
}

#[test]
fn doh_client_new_without_auth() {
    let client =
        DnsHttpsClient::new("https://dns.example.com/dns-query".to_string(), None).unwrap();
    assert!(client.auth_headers.is_none());
}

#[test]
fn doh_client_new_with_basic_auth() {
    let client = DnsHttpsClient::new(
        "https://dns.example.com/dns-query".to_string(),
        Some(ZoneSourceAuth::Basic {
            username: "user".to_string(),
            password: "pass".to_string(),
        }),
    )
    .unwrap();
    assert!(client.auth_headers.is_some());
    assert_eq!(client.auth_headers.unwrap(), "Basic dXNlcjpwYXNz");
}

#[test]
fn doh_client_new_rejects_http_url() {
    let err = DnsHttpsClient::new("http://dns.example.com/dns-query".to_string(), None).unwrap_err();
    assert!(matches!(err, UpstreamResolveError::Protocol(_)));
}

#[test]
fn doh_client_defaults_bootstrap_to_cloudflare() {
    let client =
        DnsHttpsClient::new("https://dns.example.com/dns-query".to_string(), None).unwrap();
    assert_eq!(client.bootstrap_resolvers, vec![at(v4(1, 1, 1, 1), 53)]);
}

#[test]
fn credentials_that_no_header_holds_are_refused() {
    let err = build_auth_headers(&ZoneSourceAuth::Bearer("a\nb".to_string())).unwrap_err();
    assert_eq!(err.message(), "invalid auth header value: failed to parse header value");
    assert!(build_auth_headers(&ZoneSourceAuth::Bearer("caf\u{e9}".to_string())).is_ok());
    assert!(build_auth_headers(&ZoneSourceAuth::Bearer("a\tb".to_string())).is_ok());
    assert!(build_auth_headers(&ZoneSourceAuth::Bearer("a\u{7f}".to_string())).is_err());
    let basic = ZoneSourceAuth::Basic {
        username: "caf\u{e9}\n".to_string(),
        password: "\u{0}".to_string(),
    };
    assert!(build_auth_headers(&basic).is_ok());
}

#[test]
fn doh_client_keeps_its_settings() {
    let routing = OutboundRouting::new(None, Some(7));
    let client = DnsHttpsClient::new("https://dns.example.com/q".to_string(), None)
        .unwrap()
        .with_bootstrap_resolvers(vec![])
        .with_routing(routing);
    assert_eq!(client.bootstrap_resolvers, vec![at(v4(1, 1, 1, 1), 53)]);
    assert_eq!(client.routing, routing);
    let client = client.with_bootstrap_resolvers(vec![at(v4(9, 9, 9, 9), 53)]);
    assert_eq!(client.bootstrap_resolvers, vec![at(v4(9, 9, 9, 9), 53)]);
    assert_eq!(client.target.path, "/q");
}

// ---- DNS over QUIC ----

#[test]
fn parse_doq_endpoint_allows_quic_scheme_and_default_port() {
    let client = DnsQuicClient::parse_endpoint("quic://1.1.1.1").unwrap();
    match client.endpoint {
        Endpoint::Static(address) => assert_eq!(address, at(v4(1, 1, 1, 1), 8853)),
        Endpoint::Hostname { .. } => panic!("expected static endpoint"),
    }
    assert_eq!(client.server_name, "1.1.1.1");
}

#[test]
fn parse_doq_endpoint_allows_hostname_and_preserves_server_name() {
    let client = DnsQuicClient::parse_endpoint("quic://dns.example.com:8853").unwrap();
    match client.endpoint {
        Endpoint::Hostname { host, port } => {
            assert_eq!(host, "dns.example.com");
            assert_eq!(port, 8853);
        }
        Endpoint::Static(_) => panic!("expected hostname endpoint"),
    }
    assert_eq!(client.server_name, "dns.example.com");
}

#[test]
fn parse_doq_endpoint_defaults_hostname_port() {
    let client = DnsQuicClient::parse_endpoint("dns.example.com").unwrap();
    match client.endpoint {
        Endpoint::Hostname { host, port } => {
            assert_eq!(host, "dns.example.com");
            assert_eq!(port, 8853);
        }
        Endpoint::Static(_) => panic!("expected hostname endpoint"),
    }
}

#[test]
fn parse_doq_endpoint_rejects_invalid_host() {
    let error = DnsQuicClient::parse_endpoint("quic://dns_example.com").unwrap_err();
    assert!(matches!(error, UpstreamResolveError::Protocol(_)));
}

#[test]
fn doq_client_defaults_bootstrap_resolver_to_cloudflare() {
    let client = DnsQuicClient::parse_endpoint("quic://dns.example.com").unwrap();
    assert_eq!(client.bootstrap_resolvers, vec![at(v4(1, 1, 1, 1), 53)]);
}

#[test]
fn build_doq_request_sets_message_id_to_zero() {
    let request = build_doq_request(&query_bytes(42, "example.com.", RecordType::A)).unwrap();
    assert_eq!(request.id, 0);
    assert_eq!(request.questions[0].name, "example.com.");
}

#[test]
fn build_doq_request_rejects_empty_query() {
    let error = match build_doq_request(&[0u8; 12]) {
        Ok(_) => panic!("expected build_doq_request to fail"),
        Err(error) => error,
    };
    assert!(matches!(error, UpstreamResolveError::Protocol(_)));
    assert_eq!(error.message(), "query contains no questions");
}

#[test]
fn quic_socket_is_of_the_family_of_the_server() {
    let server = at(v4(8, 8, 8, 8), 853);
    let plan = build_quic_socket(server, &OutboundRouting::new(None, Some(3))).unwrap();
    assert_eq!(plan.bind, Some(at(v4(0, 0, 0, 0), 0)));
    assert_eq!(plan.fwmark, Some(3));
    assert!(!plan.ipv6);
    let err = build_quic_socket(server, &OutboundRouting::new(Some(IpAddr::V6(1)), None)).unwrap_err();
    assert_eq!(
        err.message(),
        "DoQ bind_address '::1' does not match upstream address family '8.8.8.8:853'"
    );
    let six = at(IpAddr::V6(1), 853);
    assert_eq!(
        build_quic_socket(six, &OutboundRouting::new(None, None)).unwrap().bind,
        Some(at(IpAddr::V6(0), 0))
    );
    assert_eq!(
        build_quic_socket(six, &OutboundRouting::new(Some(v4(10, 0, 0, 1)), None)).unwrap_err().message(),
        "DoQ bind_address '10.0.0.1' does not match upstream address family '[::1]:853'"
    );
}

// ---- DNS over TLS ----

#[test]
fn parse_dot_endpoint_allows_tls_scheme_and_default_port() {
    let client = DnsTlsClient::parse_endpoint("tls://1.1.1.1").unwrap();
    match client.endpoint {
        Endpoint::Static(address) => assert_eq!(address, at(v4(1, 1, 1, 1), 853)),
        Endpoint::Hostname { .. } => panic!("expected static endpoint"),
    }
    assert_eq!(client.server_name, "1.1.1.1");
}

#[test]
fn parse_dot_endpoint_allows_hostname_and_preserves_sni_name() {
    let client = DnsTlsClient::parse_endpoint("tls://dns.example.com:853").unwrap();
    match client.endpoint {
        Endpoint::Hostname { host, port } => {
            assert_eq!(host, "dns.example.com");
            assert_eq!(port, 853);
        }
        Endpoint::Static(_) => panic!("expected hostname endpoint"),
    }
    assert_eq!(client.server_name, "dns.example.com");
}

#[test]
fn parse_dot_endpoint_defaults_hostname_port() {
    let client = DnsTlsClient::parse_endpoint("dns.example.com").unwrap();
    match client.endpoint {
        Endpoint::Hostname { host, port } => {
            assert_eq!(host, "dns.example.com");
            assert_eq!(port, 853);
        }
        Endpoint::Static(_) => panic!("expected hostname endpoint"),
    }
}

#[test]
fn parse_dot_endpoint_rejects_invalid_host() {
    let error = DnsTlsClient::parse_endpoint("tls://dns_example.com").unwrap_err();
    assert!(matches!(error, UpstreamResolveError::Protocol(_)));
}

#[test]
fn dot_client_defaults_bootstrap_resolver_to_cloudflare() {
    let client = DnsTlsClient::parse_endpoint("tls://dns.example.com").unwrap();
    assert_eq!(client.bootstrap_resolvers, vec![at(v4(1, 1, 1, 1), 53)]);
}

#[test]
fn extract_question_rejects_empty_query() {
    let error = DnsTlsClient::extract_question(&[0u8; 12]).unwrap_err();
    assert!(matches!(error, UpstreamResolveError::Protocol(_)));
}

#[test]
fn endpoints_are_addresses_with_or_without_a_port() {
    let with_port = DnsTlsClient::parse_endpoint("[::1]:8530").unwrap();
    assert!(matches!(with_port.endpoint, Endpoint::Static(a) if a == at(IpAddr::V6(1), 8530)));
    assert_eq!(with_port.server_name, "::1");
    let bare = DnsTlsClient::parse_endpoint("::1").unwrap();
    assert!(matches!(bare.endpoint, Endpoint::Static(a) if a == at(IpAddr::V6(1), 853)));
    let dotted = DnsTlsClient::parse_endpoint("dns.example.com.:99").unwrap();
    assert!(matches!(dotted.endpoint, Endpoint::Hostname { ref host, port: 99 } if host == "dns.example.com"));
    assert_eq!(
        DnsTlsClient::parse_endpoint("tls://  ").unwrap_err().message(),
        "invalid DoT upstream address; endpoint is empty"
    );
    assert_eq!(
        DnsQuicClient::parse_endpoint("").unwrap_err().message(),
        "invalid DoQ upstream address; endpoint is empty"
    );
}

#[test]
fn ports_must_be_numbers() {
    let err = parse_hostname_with_optional_port("dns.example.com:x", Transport::Dot).unwrap_err();
    assert_eq!(err.message(), "invalid DoT port 'x': invalid digit found in string");
    let err = parse_hostname_with_optional_port("dns.example.com:65536", Transport::Doq).unwrap_err();
    assert_eq!(
        err.message(),
        "invalid DoQ port '65536': number too large to fit in target type"
    );
    let (host, port) = parse_hostname_with_optional_port("h:+80", Transport::Dot).unwrap();
    assert_eq!((host.as_str(), port), ("h", 80));
}

#[test]
fn hostnames_have_short_labels_of_letters_digits_and_hyphens() {
    let check = |h: &str| validate_hostname(h, Transport::Dot).map_err(|e| e.message());
    assert_eq!(check("a-b.example.com"), Ok(()));
    assert_eq!(check(""), Err("invalid DoT hostname length".to_string()));
    assert_eq!(check(&"a".repeat(254)), Err("invalid DoT hostname length".to_string()));
    assert_eq!(check("a..b"), Err("invalid DoT hostname label length".to_string()));
    assert_eq!(check(&"a".repeat(64)), Err("invalid DoT hostname label length".to_string()));
    assert_eq!(check(&"a".repeat(63)), Ok(()));
    assert_eq!(
        check("-a.b"),
        Err("invalid DoT hostname label; leading/trailing hyphen is not allowed".to_string())
    );
    assert_eq!(
        check("a.b-"),
        Err("invalid DoT hostname label; leading/trailing hyphen is not allowed".to_string())
    );
    assert_eq!(check("a_b"), Err("invalid DoT hostname label characters".to_string()));
    assert_eq!(check("caf\u{e9}"), Err("invalid DoT hostname label characters".to_string()));
    assert!(validate_hostname("a:b:c", Transport::Doq).is_err());
}

#[test]
fn clients_take_other_bootstrap_resolvers() {
    let client = DnsTlsClient::new_hostname("dns.example.com.".to_string(), 1)
        .with_bootstrap_resolvers(vec![]);
    assert_eq!(client.server_name, "dns.example.com");
    assert_eq!(client.bootstrap_resolvers, vec![at(v4(1, 1, 1, 1), 53)]);
    let client = DnsQuicClient::new(at(v4(9, 9, 9, 9), 8853), "q".to_string())
        .with_bootstrap_resolvers(vec![at(v4(8, 8, 8, 8), 53)])
        .with_routing(OutboundRouting::new(None, Some(1)));
    assert_eq!(client.bootstrap_resolvers, vec![at(v4(8, 8, 8, 8), 53)]);
    assert_eq!(client.routing.fwmark, Some(1));
}

// ---- plain DNS ----

const SIGOK_VERTEILTESYSTEME_NET_A_QUERY: &[u8] = &[
    0x00, 0x01, 0x01, 0x00, 0x00, 0x01, 0x00, 0x00, 0x00, 0x00, 0x00, 0x00, 0x05, b's', b'i', b'g',
    b'o', b'k', 0x10, b'v', b'e', b'r', b't', b'e', b'i', b'l', b't', b'e', b's', b'y', b's', b't',
    b'e', b'm', b'e', 0x03, b'n', b'e', b't', 0x00, 0x00, 0x01, 0x00, 0x01,
];

#[test]
fn test_extract_question_parses_name_class_and_type() {
    let question = DnsUdpTcpClient::extract_question(SIGOK_VERTEILTESYSTEME_NET_A_QUERY)
        .expect("failed to parse question");
    assert_eq!(question.name, "sigok.verteiltesysteme.net.");
    assert_eq!(question.class, 1);
    assert_eq!(question.record_type, 1);
}

#[test]
fn test_extract_question_rejects_empty_query() {
    let error = DnsUdpTcpClient::extract_question(&[0u8; 12]).unwrap_err();
    assert!(matches!(error, UpstreamResolveError::Protocol(_)));
}

#[test]
fn bytes_that_are_no_message_are_an_error() {
    assert!(matches!(
        DnsUdpTcpClient::extract_question(&[1, 2, 3]),
        Err(UpstreamResolveError::Protocol(_))
    ));
    assert!(matches!(after_udp(&[1]), Err(UpstreamResolveError::Protocol(_))));
}

#[test]
fn truncated_answers_are_asked_for_over_tcp() {
    assert_eq!(after_udp(&response_bytes(vec![], true)).unwrap(), AfterUdp::RetryOverTcp);
    assert_eq!(after_udp(&response_bytes(vec![], false)).unwrap(), AfterUdp::Answer);
}

#[test]
fn plain_clients_are_labelled_by_their_address() {
    let client = DnsUdpTcpClient::new(at(v4(9, 9, 9, 9), 53));
    assert_eq!(client.label, "dns://9.9.9.9:53");
    assert!(client.routing.is_empty());
    let client = DnsUdpTcpClient::new(SocketAddr { ip: IpAddr::V6(1), port: 53, scope_id: 4 })
        .with_routing(OutboundRouting::new(None, Some(2)));
    assert_eq!(client.label, "dns://[::1%4]:53");
    assert_eq!(client.routing.fwmark, Some(2));
    assert_eq!(show_socket_addr(at(IpAddr::V6(1), 53)), "[::1]:53");
    assert_eq!(show_ip(v4(192, 0, 2, 255)), "192.0.2.255");
}

// ---- bootstrap ----

#[test]
fn bootstrap_queries_ask_for_the_host() {
    assert_eq!(fqdn_host("dns.example.com"), "dns.example.com.");
    assert_eq!(fqdn_host("dns.example.com."), "dns.example.com.");
    assert_eq!(fqdn_host(""), ".");
    let bytes = build_bootstrap_query("dns.example.com", 28, Transport::Dot).unwrap();
    let message = Message::from_vec(&bytes).unwrap();
    assert_eq!(message.metadata.id, 1);
    assert!(message.metadata.recursion_desired);
    assert_eq!(message.queries[0].name().to_ascii(), "dns.example.com.");
    assert_eq!(message.queries[0].query_type(), RecordType::AAAA);
    let bad = "a".repeat(64);
    let err = build_bootstrap_query(&bad, 1, Transport::Doh).unwrap_err();
    assert!(err.message().starts_with(&format!("invalid DoH hostname '{bad}': ")));
    assert_eq!(
        query_error("h", Transport::Doq, QueryFailure::Encoding("e".to_string())).message(),
        "e"
    );
}

#[test]
fn first_address_of_an_answer_is_taken() {
    let txt = RData::TXT(TXT::new(vec!["x".to_string()]));
    let six = RData::AAAA(AAAA("2001:db8::1".parse().unwrap()));
    let four = RData::A(A::new(192, 0, 2, 7));
    let bytes = response_bytes(vec![txt.clone(), six, four], false);
    assert_eq!(
        extract_ip_from_response(&bytes, 853).unwrap(),
        at(IpAddr::V6(0x2001_0db8_0000_0000_0000_0000_0000_0001), 853)
    );
    let err = extract_ip_from_response(&response_bytes(vec![txt], false), 853).unwrap_err();
    assert_eq!(err.message(), "no A/AAAA records in bootstrap response");
    assert_eq!(address_of(Err("bad".to_string()), 1).unwrap_err().message(), "bad");
}

#[test]
fn resolvers_are_asked_one_after_the_other() {
    let resolvers = vec![at(v4(1, 1, 1, 1), 53), at(v4(8, 8, 8, 8), 53)];
    let mut search = Search::start("dns.example.com", 853, resolvers, Transport::Dot).unwrap();
    let (first, a_query) = search.next_question().unwrap();
    assert_eq!(first, at(v4(1, 1, 1, 1), 53));
    assert_eq!(Message::from_vec(a_query).unwrap().queries[0].query_type(), RecordType::A);
    search.answer(Err(UpstreamResolveError::Timeout));
    let (second, aaaa_query) = search.next_question().unwrap();
    assert_eq!(second, at(v4(1, 1, 1, 1), 53));
    assert_eq!(Message::from_vec(aaaa_query).unwrap().queries[0].query_type(), RecordType::AAAA);
    search.answer(Ok(response_bytes(vec![], false)));
    assert_eq!(search.next_question().unwrap().0, at(v4(8, 8, 8, 8), 53));
    search.answer(Ok(response_bytes(vec![RData::A(A::new(192, 0, 2, 1))], false)));
    assert!(search.next_question().is_none());
    assert_eq!(search.result().unwrap(), at(v4(192, 0, 2, 1), 853));
}

#[test]
fn search_without_an_address_fails() {
    let mut search =
        Search::start("dns.example.com", 853, vec![at(v4(1, 1, 1, 1), 53)], Transport::Doq).unwrap();
    search.note(None);
    search.note(None);
    assert!(search.next_question().is_none());
    assert_eq!(
        search.result().unwrap_err().message(),
        "bootstrap resolvers did not return usable A/AAAA records for 'dns.example.com'"
    );
}

#[test]
fn system_is_asked_before_the_bootstrap_resolvers() {
    let fixed = Endpoint::Static(at(v4(1, 2, 3, 4), 853));
    let failed = Lookup::Failed("no".to_string());
    assert_eq!(
        resolve_address(&fixed, &failed, Transport::Dot).unwrap().unwrap(),
        at(v4(1, 2, 3, 4), 853)
    );
    let named = Endpoint::Hostname { host: "h".to_string(), port: 853 };
    assert!(resolve_address(&named, &failed, Transport::Dot).is_none());
    let known = Lookup::Addresses(vec![at(v4(5, 6, 7, 8), 853), at(v4(1, 1, 1, 1), 853)]);
    assert_eq!(
        resolve_address(&named, &known, Transport::Dot).unwrap().unwrap(),
        at(v4(5, 6, 7, 8), 853)
    );
    let err = resolve_address(&named, &Lookup::Addresses(vec![]), Transport::Doq).unwrap().unwrap_err();
    assert_eq!(err.message(), "no resolved address for DoQ hostname 'h:853'");
    assert_eq!(
        unresolved("h", 443, Transport::Doh, "os", "boot").message(),
        "failed to resolve DoH hostname 'h:443' using OS resolver (os) and bootstrap resolvers (boot)"
    );
}

// ---- kept connections ----

#[test]
fn kept_connection_that_answers_is_kept() {
    assert_eq!(begin(true), Phase::AskKept);
    let step = advance(Phase::AskKept, Event::Answered(Ok(vec![1, 2])));
    assert_eq!(step.next, Phase::Finished);
    assert_eq!(step.cache, CacheChange::Keep);
    assert_eq!(step.result.unwrap().unwrap(), vec![1, 2]);
}

#[test]
fn stale_connection_is_replaced_once() {
    let step = advance(Phase::AskKept, Event::TimedOut);
    assert_eq!((step.next, step.cache), (Phase::Connect, CacheChange::Evict));
    assert!(step.result.is_none());
    let step = advance(Phase::Connect, Event::Connected);
    assert_eq!((step.next, step.cache), (Phase::AskFresh, CacheChange::Keep));
    let step = advance(Phase::AskFresh, Event::Answered(Err("enc".to_string())));
    assert_eq!((step.next, step.cache), (Phase::Finished, CacheChange::Store));
    assert_eq!(step.result.unwrap().unwrap_err().message(), "enc");
}

#[test]
fn failures_of_a_new_connection_are_reported() {
    assert_eq!(begin(false), Phase::Connect);
    let refused = UpstreamResolveError::Io("refused".to_string());
    let step = advance(Phase::Connect, Event::NotConnected(refused));
    assert_eq!(step.result.unwrap().unwrap_err().message(), "refused");
    let step = advance(Phase::AskFresh, Event::TimedOut);
    assert!(matches!(step.result, Some(Err(UpstreamResolveError::Timeout))));
    let step = advance(Phase::AskFresh, Event::Failed("reset".to_string()));
    assert_eq!(step.cache, CacheChange::Keep);
    assert_eq!(step.result.unwrap().unwrap_err().message(), "reset");
    assert_eq!(UpstreamResolveError::Timeout.message(), "upstream resolver timed out");
    assert_eq!(UpstreamResolveError::AllFailed.message(), "all upstream resolvers failed");
}

// ---- recursion ----

#[test]
fn default_nameserver_ip_family_is_both() {
    assert_eq!(NameserverIpFamily::default(), NameserverIpFamily::Both);
}

#[test]
fn default_max_hops_is_within_expected_range() {
    let default_max_hops = std::hint::black_box(DEFAULT_MAX_HOPS);
    assert!(default_max_hops >= 8, "DEFAULT_MAX_HOPS should be at least 8");
    assert!(default_max_hops <= 20, "DEFAULT_MAX_HOPS should be at most 20");
}

#[test]
fn root_hints_v4_cover_all_thirteen_servers() {
    assert_eq!(root_hints_v4().len(), 13, "should have all 13 root servers");
}

#[test]
fn root_hints_v6_cover_all_thirteen_servers() {
    assert_eq!(root_hints_v6().len(), 13, "should have all 13 root servers");
}

#[test]
fn root_hints_are_not_loopback_or_unspecified() {
    for ip in root_hints_v4() {
        let ip = core::net::Ipv4Addr::from(ip);
        assert!(!ip.is_loopback(), "{ip} should not be loopback");
        assert!(!ip.is_unspecified(), "{ip} should not be unspecified");
    }
    for ip in root_hints_v6() {
        let ip = core::net::Ipv6Addr::from(ip);
        assert!(!ip.is_loopback(), "{ip} should not be loopback");
        assert!(!ip.is_unspecified(), "{ip} should not be unspecified");
    }
}

#[test]
fn root_servers_have_their_known_addresses() {
    assert_eq!(show_ip(IpAddr::V4(root_hints_v4()[0])), "198.41.0.4");
    assert_eq!(show_ip(IpAddr::V4(root_hints_v4()[12])), "202.12.27.33");
    assert_eq!(show_ip(IpAddr::V6(root_hints_v6()[0])), "2001:503:ba3e::2:30");
    assert_eq!(show_ip(IpAddr::V6(root_hints_v6()[12])), "2001:dc3::35");
}

#[test]
fn builtin_root_hints_contains_both_families() {
    let hints = builtin_root_hints();
    assert!(hints.iter().any(|a| !a.ip.is_ipv6()), "should contain IPv4");
    assert!(hints.iter().any(|a| a.ip.is_ipv6()), "should contain IPv6");
    assert_eq!(hints.len(), 26, "13 IPv4 + 13 IPv6");
}

#[test]
fn parse_root_hints_extracts_addresses() {
    let content = "\
;       This file holds the information on root name servers
.                        3600000      NS    A.ROOT-SERVERS.NET.
A.ROOT-SERVERS.NET.      3600000      A     198.41.0.4
A.ROOT-SERVERS.NET.      3600000      AAAA  2001:503:ba3e::2:30
";
    let addrs = parse_root_hints(content);
    assert_eq!(addrs.len(), 2);
    assert_eq!(addrs[0], at(v4(198, 41, 0, 4), 53));
    assert!(addrs[1].ip.is_ipv6());
}

#[test]
fn parse_root_hints_skips_comments_and_ns() {
    let content = "\
; comment line
.  3600000  NS  A.ROOT-SERVERS.NET.
";
    let addrs = parse_root_hints(content);
    assert!(addrs.is_empty());
}

#[test]
fn parse_root_hints_handles_class_field() {
    let content = "A.ROOT-SERVERS.NET.  3600000  IN  A  198.41.0.4\n";
    let addrs = parse_root_hints(content);
    assert_eq!(addrs.len(), 1);
    assert_eq!(addrs[0], at(v4(198, 41, 0, 4), 53));
}

#[test]
fn root_hints_of_the_wrong_kind_are_passed_over() {
    assert!(parse_root_hints("x 1 A ::1\n").is_empty());
    assert!(parse_root_hints("x 1 AAAA 1.2.3.4\n").is_empty());
    assert!(parse_root_hints("x 1 IN extra A 1.2.3.4\n").is_empty());
    assert_eq!(parse_root_hints("\tx\t1\tA\t1.2.3.4\r\n").len(), 1);
}

#[test]
fn load_root_hints_returns_builtins_when_no_file() {
    assert_eq!(
        root_hints_paths(Some("/nonexistent/path/root.hints")),
        vec!["/nonexistent/path/root.hints"]
    );
    let hints = load_root_hints(&vec![None]);
    assert_eq!(hints.len(), 26, "should fall back to compiled-in hints");
}

#[test]
fn first_file_with_addresses_decides() {
    assert_eq!(root_hints_paths(None).len(), 3);
    let files = vec![
        None,
        Some("; nothing\n".to_string()),
        Some("x 1 A 1.2.3.4\n".to_string()),
        Some("x 1 A 5.6.7.8\n".to_string()),
    ];
    assert_eq!(load_root_hints(&files), vec![at(v4(1, 2, 3, 4), 53)]);
    assert_eq!(root_key_paths(None)[0], "/usr/share/dns/root.key");
    assert_eq!(root_key_paths(Some("/k")), vec!["/k"]);
    assert_eq!(choose_root_key(&vec![None, Some(0), Some(2), Some(1)]), Some(2));
    assert_eq!(choose_root_key(&vec![None, Some(0)]), None);
}

#[test]
fn only_servers_of_the_family_are_asked() {
    let both = plan_recursor(&builtin_root_hints(), 12, NameserverIpFamily::Both, true);
    assert_eq!(both.roots.len(), 26);
    assert!(both.deny_server.is_empty());
    assert_eq!(both.recursion_limit, 12);
    assert!(both.dnssec);
    let four = plan_recursor(&builtin_root_hints(), 8, NameserverIpFamily::Ipv4Only, false);
    assert_eq!(four.roots.len(), 13);
    assert!(four.roots.iter().all(|ip| !ip.is_ipv6()));
    assert_eq!(four.deny_server, vec![Network { address: IpAddr::V6(0), prefix_len: 0 }]);
    let six = plan_recursor(&builtin_root_hints(), 8, NameserverIpFamily::Ipv6Only, false);
    assert!(six.roots.iter().all(|ip| ip.is_ipv6()));
    assert_eq!(six.deny_server, vec![Network { address: IpAddr::V4(0), prefix_len: 0 }]);
}

fn head(edns: Option<Edns>) -> MessageHead {
    MessageHead {
        id: 42,
        truncated: false,
        questions: vec![Question { name: "google.com.".to_string(), class: 1, record_type: 1 }],
        addresses: vec![],
        edns,
    }
}

#[test]
fn answers_match_the_query() {
    let query = head(Some(Edns { dnssec_ok: true, max_payload: 100 }));
    assert!(dnssec_wanted(&query));
    let found = Answer {
        id: 7,
        recursion_desired: false,
        recursion_available: false,
        response_code: 0,
        questions: vec![],
        answers: vec!["record"],
        authorities: vec![],
        edns: None,
    };
    let answer = finish_answer(&query, found);
    assert_eq!(answer.id, 42);
    assert!(answer.recursion_desired && answer.recursion_available);
    assert_eq!(answer.questions[0].name, "google.com.");
    assert_eq!(answer.answers, vec!["record"]);
    assert_eq!(answer.edns, Some(Edns { dnssec_ok: true, max_payload: 512 }));
}

#[test]
fn negative_answers_carry_the_authority() {
    let query = head(Some(Edns { dnssec_ok: false, max_payload: 4096 }));
    let answer = negative_answer(&query, true, Some("soa"), vec!["ns1", "ns2"]);
    assert_eq!(answer.response_code, 3);
    assert_eq!(answer.authorities, vec!["soa", "ns1", "ns2"]);
    assert_eq!(answer.edns, Some(Edns { dnssec_ok: false, max_payload: 4096 }));
    let answer = negative_answer(&head(None), false, None, Vec::<&str>::new());
    assert_eq!(answer.response_code, 0);
    assert!(answer.edns.is_none());
    assert_eq!(answer.questions.len(), 1);
}

#[test]
fn every_outcome_of_the_resolver_is_answered() {
    let found = Answer {
        id: 7,
        recursion_desired: false,
        recursion_available: false,
        response_code: 0,
        questions: vec![],
        answers: vec!["record"],
        authorities: vec!["ns"],
        edns: None,
    };
    let answer = answer_query(&head(None), Outcome::Found(found)).unwrap();
    assert_eq!((answer.id, answer.response_code), (42, 0));
    assert_eq!((answer.answers, answer.authorities), (vec!["record"], vec!["ns"]));
    assert_eq!(answer.questions[0].name, "google.com.");

    for (nx_domain, code) in [(true, 3), (false, 0)] {
        let outcome = Outcome::Negative { nx_domain, soa: Some("soa"), authorities: vec!["ns"] };
        let answer = answer_query(&head(None), outcome).unwrap();
        assert_eq!((answer.id, answer.response_code), (42, code));
        assert!(answer.answers.is_empty());
        assert_eq!(answer.authorities, vec!["soa", "ns"]);
    }

    let failed = answer_query(&head(None), Outcome::<&str>::Failed("no route".to_string()));
    assert!(matches!(failed.unwrap_err(), UpstreamResolveError::Protocol(m) if m == "no route"));
}

#[test]
fn resolver_reads_queries() {
    let query = read_query(&query_bytes(42, "google.com.", RecordType::A)).unwrap();
    assert_eq!(query.id, 42);
    assert_eq!(query.questions[0].name, "google.com.");
    assert!(!dnssec_wanted(&query));
    assert_eq!(read_query(&[0u8; 12]).unwrap_err().message(), "query contains no questions");
}

// ---- outgoing sockets ----

#[test]
fn routed_provider_default_has_no_routing() {
    let provider = RoutedRuntimeProvider::default();
    assert!(provider.routing.is_empty());
}

#[test]
fn outbound_routing_is_empty_when_no_options() {
    let routing = OutboundRouting::new(None, None);
    assert!(routing.is_empty());
}

#[test]
fn outbound_routing_not_empty_with_bind_address() {
    let routing = OutboundRouting::new(Some(v4(10, 0, 0, 1)), None);
    assert!(!routing.is_empty());
}

#[test]
fn outbound_routing_not_empty_with_fwmark() {
    let routing = OutboundRouting::new(None, Some(100));
    assert!(!routing.is_empty());
}

#[test]
fn parse_status_capabilities_line() {
    let sample = "CapEff:\t000001ffffffffff\nCapPrm:\t000001ffffffffff\nCapBnd:\t000001ffffffffff\nCapAmb:\t0000000000000000\n";
    let caps = parse_capability_lines(sample);
    assert_eq!(caps.0, Some("000001ffffffffff".to_string()));
    assert_eq!(caps.1, Some("000001ffffffffff".to_string()));
    assert_eq!(caps.2, Some("000001ffffffffff".to_string()));
    assert_eq!(caps.3, Some("0000000000000000".to_string()));
}

#[test]
fn status_without_capabilities_names_none() {
    let caps = parse_capability_lines("Name:\tx\nCapEff: 1\nCapEff: 2\n");
    assert_eq!(caps, (Some("2".to_string()), None, None, None));
}

#[test]
fn sockets_are_bound_to_the_configured_address() {
    let server = at(v4(8, 8, 8, 8), 53);
    let local = at(v4(0, 0, 0, 0), 0);
    let plain = RoutedRuntimeProvider::default();
    assert!(plain.connect_tcp(server, None).is_none());
    assert!(plain.bind_udp(local).is_none());
    let bound = RoutedRuntimeProvider::new(OutboundRouting::new(Some(v4(127, 0, 0, 1)), None));
    assert_eq!(bound.bind_udp(local).unwrap().bind, Some(at(v4(127, 0, 0, 1), 0)));
    assert_eq!(
        bound.connect_tcp(server, Some(local)).unwrap().bind,
        Some(at(v4(127, 0, 0, 1), 0))
    );
    let marked = RoutedRuntimeProvider::new(OutboundRouting::new(None, Some(9)));
    let plan = marked.connect_tcp(server, Some(local)).unwrap();
    assert_eq!((plan.fwmark, plan.bind, plan.ipv6), (Some(9), Some(local), false));
    assert_eq!(connect_timeout_ms(None), 5000);
    assert_eq!(connect_timeout_ms(Some(100)), 100);
}

#[test]
fn mark_without_the_capability_is_warned_about() {
    assert!(warn_if_fwmark_without_cap_net_admin(Some(1), false).unwrap().contains("CAP_NET_ADMIN"));
    assert!(warn_if_fwmark_without_cap_net_admin(Some(1), true).is_none());
    assert!(warn_if_fwmark_without_cap_net_admin(None, false).is_none());
}

#[test]
fn quic_sockets_follow_the_routing() {
    let server = SocketAddr::new(v4(9, 9, 9, 9), 853);
    let source = v4(10, 0, 0, 2);
    let plain = OutboundRouting::new(None, None);
    assert_eq!(choose_quic_socket(server, &plain).unwrap(), QuicSocket::Any);
    let bound = OutboundRouting::new(Some(source), None);
    assert_eq!(
        choose_quic_socket(server, &bound).unwrap(),
        QuicSocket::BoundTo(SocketAddr::new(source, 0))
    );
    let marked = OutboundRouting::new(Some(source), Some(7));
    assert_eq!(
        choose_quic_socket(server, &marked).unwrap(),
        QuicSocket::Own(SocketPlan {
            ipv6: false,
            fwmark: Some(7),
            bind: Some(SocketAddr::new(source, 0)),
        })
    );
    let other = SocketAddr::new(IpAddr::V6(1), 853);
    assert_eq!(
        choose_quic_socket(other, &marked).unwrap_err().message(),
        "DoQ bind_address '10.0.0.2' does not match upstream address family '[::1]:853'"
    );
    assert_eq!(bootstrap_routing(Transport::Doq, marked), marked);
    assert!(bootstrap_routing(Transport::Doh, marked).is_empty());
}

#[test]
fn failed_connections_say_why() {
    let tls = ConnectFailure::TlsConfig("no roots".to_string());
    assert_eq!(connect_error(Transport::Doh, tls).message(), "TLS config error: no roots");
    let reset = ConnectFailure::Connect("reset".to_string());
    assert_eq!(connect_error(Transport::Doq, reset).message(), "DoQ connect error: reset");
}
