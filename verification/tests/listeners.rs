use base64::engine::general_purpose::URL_SAFE_NO_PAD;
use base64::Engine;
use dns_filter::config::schema::{TlsConfig, TlsSocketConfig};
use dns_filter::daemon::startup::{
    listener_failure, plan_secure, ListenerStep, SecureProtocol,
};
use dns_filter::listeners::admin::{
    handle_redirect, plan_admin_servers, redirect_location, render_admin_html, server_failure,
    AdminServer, AdminServers, SocketStep,
};
use dns_filter::listeners::auth::{check_bearer, constant_time_eq, Header};
use dns_filter::listeners::bind::{bind_addrs_of, parse_bind_addrs, ListenerSetupError};
use dns_filter::listeners::dns::DnsAdapter;
use dns_filter::listeners::doh::{
    admit_body, admit_decoded, dns_parameter, forward_query, handle_doh_request, Admission,
    DohAdapter, DohRequest, Method, Refusal, MAX_DNS_PAYLOAD,
};
use dns_filter::listeners::doq::DoqAdapter;
use dns_filter::listeners::dot::{
    announced_length, frame, handle_dot_conn, DotAction, DotAdapter, DotEvent,
};
use dns_filter::listeners::handler::{
    build_response, build_response_of_bytes, outgoing, response_bytes, serve_failed_info,
    PipelineOutcome, RequestHead, ResponseHead, Sections, SERV_FAIL,
};
use dns_filter::listeners::http::{
    admit_api_request, find_route, json_error, json_ok, op_error_to_status, operation_response,
    read_item_name, stop_response, success_status, ApiAdmission, Endpoint, HttpMethod, Lookup,
    ServerOperationError,
};
use dns_filter::listeners::metrics::{answer_request, build_response as metrics_response};
use dns_filter::net::{IpAddr, SocketAddr};
use dns_filter::pem::{unopened, MaterialFile};
use hickory_proto::op::{Message, MessageType, OpCode, Query, ResponseCode};
use hickory_proto::rr::rdata::A;
use hickory_proto::rr::{DNSClass, Name, RData, Record, RecordType};

fn make_query(domain: &str) -> Vec<u8> {
    let mut msg = Message::new(42, MessageType::Query, OpCode::Query);
    msg.metadata.recursion_desired = true;
    let mut q = Query::new();
    q.set_name(domain.parse().unwrap());
    q.set_query_type(RecordType::A);
    q.set_query_class(DNSClass::IN);
    msg.add_query(q);
    msg.to_vec().unwrap()
}

fn make_response(id: u16, code: ResponseCode) -> Vec<u8> {
    let mut msg = Message::new(id, MessageType::Response, OpCode::Query);
    msg.metadata.response_code = code;
    msg.to_vec().unwrap()
}

fn post_request(path: &str, content_type: &str) -> DohRequest {
    DohRequest {
        method: Method::Post,
        path: path.to_string(),
        query: None,
        authorization: Header::Absent,
        content_type: Header::Text(content_type.to_string()),
    }
}

fn authed_post_request(path: &str, content_type: &str, token: &str) -> DohRequest {
    DohRequest {
        authorization: Header::Text(format!("Bearer {token}")),
        ..post_request(path, content_type)
    }
}

fn get_request(path: &str, query_string: &str) -> DohRequest {
    DohRequest {
        method: Method::Get,
        path: path.to_string(),
        query: if query_string.is_empty() { None } else { Some(query_string.to_string()) },
        authorization: Header::Absent,
        content_type: Header::Absent,
    }
}

fn refusal(admission: Admission) -> Refusal {
    match admission {
        Admission::Refuse(refusal) => refusal,
        other => panic!("expected a refusal, got {other:?}"),
    }
}

fn forwarded(admission: Admission) -> Vec<u8> {
    match admission {
        Admission::Forward(query) => query,
        other => panic!("expected a query, got {other:?}"),
    }
}

fn v4(a: u8, b: u8, c: u8, d: u8) -> IpAddr {
    IpAddr::V4(u32::from_be_bytes([a, b, c, d]))
}

// ---- names ----

#[test]
fn doh_adapter_protocol_name() {
    assert_eq!(DohAdapter.protocol_name(), "doh");
}

#[test]
fn dot_adapter_protocol_name() {
    assert_eq!(DotAdapter.protocol_name(), "dot");
}

#[test]
fn other_adapters_have_names() {
    assert_eq!(DnsAdapter.protocol_name(), "dns");
    assert_eq!(DoqAdapter.protocol_name(), "doq");
}

// ---- tokens ----

#[test]
fn constant_time_eq_matches_equal_slices() {
    assert!(constant_time_eq(b"secret", b"secret"));
}

#[test]
fn constant_time_eq_rejects_unequal_slices() {
    assert!(!constant_time_eq(b"secret", b"wrong!"));
}

#[test]
fn constant_time_eq_rejects_different_lengths() {
    assert!(!constant_time_eq(b"short", b"longer"));
}

#[test]
fn constant_time_eq_handles_empty_slices() {
    assert!(constant_time_eq(b"", b""));
}

#[test]
fn constant_time_eq_equal() {
    assert!(constant_time_eq(b"token123", b"token123"));
}

#[test]
fn constant_time_eq_different() {
    assert!(!constant_time_eq(b"token123", b"token456"));
}

#[test]
fn constant_time_eq_different_lengths() {
    assert!(!constant_time_eq(b"short", b"longtoken"));
}

#[test]
fn only_the_exact_token_is_let_in() {
    let text = |s: &str| Header::Text(s.to_string());
    assert_eq!(check_bearer(&Header::Absent, None), None);
    assert_eq!(check_bearer(&text("Bearer t"), Some("t")), None);
    assert_eq!(check_bearer(&Header::Absent, Some("t")), Some("authorization header required"));
    assert_eq!(check_bearer(&Header::Opaque, Some("t")), Some("invalid authorization token"));
    for wrong in ["t", "bearer t", "Bearer  t", "Bearer t ", "Bearer tt", "Bearer "] {
        assert_eq!(check_bearer(&text(wrong), Some("t")), Some("invalid authorization token"));
    }
}

// ---- DNS over HTTPS ----

#[test]
fn error_response_returns_correct_status_and_body() {
    let resp = refusal(admit_decoded(None));
    assert_eq!(resp.status, 400);
    assert_eq!(resp.message, "invalid base64url in 'dns' parameter");
}

#[test]
fn post_valid_dns_query_returns_200_with_dns_response() {
    let query = make_query("example.com.");
    let req = post_request("/dns-query", "application/dns-message");
    assert!(matches!(handle_doh_request(&req, None), Admission::ReadBody));
    let admitted = forwarded(admit_body(Some(query.clone())));
    assert_eq!(admitted, query);
    let answered = PipelineOutcome::Answered(make_response(42, ResponseCode::NoError));
    let body = response_bytes(answered, make_response(42, ResponseCode::ServFail));
    let msg = Message::from_vec(&body).expect("valid DNS message");
    assert_eq!(msg.metadata.response_code, ResponseCode::NoError);
}

#[test]
fn get_valid_dns_query_returns_200_with_dns_response() {
    let query = make_query("example.com.");
    let encoded = URL_SAFE_NO_PAD.encode(&query);
    let req = get_request("/dns-query", &format!("dns={encoded}"));
    assert_eq!(forwarded(handle_doh_request(&req, None)), query);
}

#[test]
fn wrong_path_returns_404() {
    let req = post_request("/wrong-path", "application/dns-message");
    assert_eq!(refusal(handle_doh_request(&req, None)).status, 404);
}

#[test]
fn put_method_returns_405() {
    let req = DohRequest { method: Method::Other, ..get_request("/dns-query", "") };
    let resp = refusal(handle_doh_request(&req, None));
    assert_eq!(resp.status, 405);
    assert_eq!(resp.allow, Some("GET, POST"));
}

#[test]
fn post_wrong_content_type_returns_415() {
    let req = post_request("/dns-query", "text/plain");
    assert_eq!(refusal(handle_doh_request(&req, None)).status, 415);
}

#[test]
fn post_empty_body_returns_400() {
    let req = post_request("/dns-query", "application/dns-message");
    assert!(matches!(handle_doh_request(&req, None), Admission::ReadBody));
    assert_eq!(refusal(admit_body(Some(vec![]))).status, 400);
}

#[test]
fn post_oversized_body_returns_413() {
    let big = vec![0u8; MAX_DNS_PAYLOAD + 1];
    assert_eq!(refusal(admit_body(Some(big))).status, 413);
}

#[test]
fn get_missing_dns_param_returns_400() {
    let req = get_request("/dns-query", "");
    assert_eq!(refusal(handle_doh_request(&req, None)).status, 400);
}

#[test]
fn get_empty_dns_param_returns_400() {
    let req = get_request("/dns-query", "dns=");
    assert_eq!(refusal(handle_doh_request(&req, None)).status, 400);
}

#[test]
fn get_invalid_base64_returns_400() {
    let req = get_request("/dns-query", "dns=!!!invalid!!!");
    assert_eq!(refusal(handle_doh_request(&req, None)).status, 400);
}

#[test]
fn get_oversized_decoded_payload_returns_413() {
    let big = vec![0u8; MAX_DNS_PAYLOAD + 1];
    let encoded = URL_SAFE_NO_PAD.encode(&big);
    let req = get_request("/dns-query", &format!("dns={encoded}"));
    assert_eq!(refusal(handle_doh_request(&req, None)).status, 413);
}

#[test]
fn auth_required_missing_header_returns_401() {
    let req = post_request("/dns-query", "application/dns-message");
    assert_eq!(refusal(handle_doh_request(&req, Some("secret-token"))).status, 401);
}

#[test]
fn auth_required_wrong_token_returns_401() {
    let req = authed_post_request("/dns-query", "application/dns-message", "wrong");
    assert_eq!(refusal(handle_doh_request(&req, Some("secret-token"))).status, 401);
}

#[test]
fn auth_required_correct_token_returns_200() {
    let req = authed_post_request("/dns-query", "application/dns-message", "secret-token");
    assert!(matches!(
        handle_doh_request(&req, Some("secret-token")),
        Admission::ReadBody
    ));
}

#[test]
fn no_auth_configured_skips_check() {
    let req = post_request("/dns-query", "application/dns-message");
    assert!(matches!(handle_doh_request(&req, None), Admission::ReadBody));
}

#[test]
fn pipeline_failure_returns_servfail_in_200() {
    let failed = PipelineOutcome::Failed("all upstream resolvers failed".to_string());
    let body = response_bytes(failed, make_response(42, ResponseCode::ServFail));
    let msg = Message::from_vec(&body).expect("valid DNS message");
    assert_eq!(msg.metadata.response_code, ResponseCode::ServFail);
}

#[test]
fn doh_forward_query_returns_upstream_response() {
    let expected = make_response(42, ResponseCode::NoError);
    let result = response_bytes(PipelineOutcome::Answered(expected.clone()), vec![]);
    assert_eq!(result, expected);
}

#[test]
fn doh_forward_query_returns_servfail_on_upstream_error() {
    let failed = PipelineOutcome::Failed("all upstream resolvers failed".to_string());
    let result = response_bytes(failed, make_response(42, ResponseCode::ServFail));
    let msg = Message::from_vec(&result).expect("valid DNS message");
    assert_eq!(msg.metadata.response_code, ResponseCode::ServFail);
    assert_eq!(msg.metadata.id, 42);
}

#[test]
fn dot_forward_query_returns_upstream_response() {
    let expected = make_response(42, ResponseCode::NoError);
    let fallback = make_response(42, ResponseCode::ServFail);
    let result = response_bytes(PipelineOutcome::Answered(expected.clone()), fallback);
    assert_eq!(result, expected);
}

#[test]
fn dot_forward_query_returns_servfail_on_upstream_error() {
    let fallback = make_response(42, ResponseCode::ServFail);
    let result = response_bytes(PipelineOutcome::NoAnswer, fallback);
    let msg = Message::from_vec(&result).expect("valid DNS message");
    assert_eq!(msg.metadata.response_code, ResponseCode::ServFail);
    assert_eq!(msg.metadata.id, 42);
}

#[test]
fn last_pair_does_not_hide_the_first() {
    assert_eq!(dns_parameter("a=b&dns=x&dns=y"), Some("x".to_string()));
    assert_eq!(dns_parameter("dns"), Some(String::new()));
    assert_eq!(dns_parameter("dns=a=b"), Some("a=b".to_string()));
    assert_eq!(dns_parameter("DNS=x"), None);
}

#[test]
fn payload_of_the_greatest_length_is_forwarded() {
    let most = vec![7u8; MAX_DNS_PAYLOAD];
    assert_eq!(forwarded(admit_body(Some(most.clone()))), most);
    assert_eq!(refusal(admit_body(None)).message, "failed to read request body");
    assert_eq!(refusal(admit_body(Some(vec![]))).message, "empty DNS payload");
    let padded = get_request("/dns-query", "dns=AA==");
    assert_eq!(refusal(handle_doh_request(&padded, None)).status, 400);
}

#[test]
fn build_tls_server_config_rejects_missing_cert() {
    let err = unopened(
        MaterialFile::Certificate,
        "/nonexistent/cert.pem",
        "No such file or directory (os error 2)",
    );
    assert!(err.message().contains("certificate file"));
}

// ---- DNS over TLS ----

fn dot_config(address: &str, cert: &str, key: &str) -> TlsSocketConfig {
    TlsSocketConfig {
        enabled: true,
        addresses: vec![address.to_string()],
        port: 853,
        tls: TlsConfig {
            cert_path: cert.to_string(),
            key_path: key.to_string(),
            autogenerate: Some(false),
        },
    }
}

#[test]
fn new_rejects_invalid_address() {
    let config = dot_config("not_an_ip", "/tmp/cert.pem", "/tmp/key.pem");
    let err = plan_secure(SecureProtocol::Dot, &Some(config)).unwrap_err();
    assert!(err.contains("invalid bind address"));
}

#[test]
fn new_rejects_missing_tls_cert() {
    let config = dot_config("127.0.0.1", "/nonexistent/cert.pem", "/nonexistent/key.pem");
    let addrs = plan_secure(SecureProtocol::Dot, &Some(config)).unwrap().unwrap();
    assert_eq!(addrs, vec![SocketAddr::new(v4(127, 0, 0, 1), 853)]);
    let unreadable = unopened(
        MaterialFile::Certificate,
        "/nonexistent/cert.pem",
        "No such file or directory (os error 2)",
    );
    let err = listener_failure("DoT", ListenerStep::Tls, &unreadable.message());
    assert!(err.contains("TLS"));
}

#[test]
fn framed_messages_carry_their_length() {
    assert_eq!(frame(&[1, 2, 3]), vec![0, 3, 1, 2, 3]);
    assert_eq!(announced_length(0, 3), Some(3));
    assert_eq!(announced_length(1, 2), Some(258));
    assert_eq!(announced_length(0, 0), None);
    let framed = frame(&[9u8; 300]);
    assert_eq!(announced_length(framed[0], framed[1]), Some(300));
}

fn after(action: DotAction, event: DotEvent) -> DotAction {
    handle_dot_conn(&action, event)
}

#[test]
fn connections_take_one_query_after_the_other() {
    let framed = frame(b"query");
    let length = DotEvent::Read(framed[..2].to_vec());
    let action = after(DotAction::ReadLength, length);
    assert!(matches!(action, DotAction::ReadMessage(5)));
    let action = after(action, DotEvent::Read(framed[2..].to_vec()));
    match &action {
        DotAction::Forward(query) => assert_eq!(query, b"query"),
        other => panic!("{other:?}"),
    }
    let action = after(action, DotEvent::Answer(b"answer".to_vec()));
    match &action {
        DotAction::Write(bytes) => assert_eq!(bytes, b"\x00\x06answer"),
        other => panic!("{other:?}"),
    }
    let action = after(action, DotEvent::Written);
    assert!(matches!(action, DotAction::ReadLength));
    let action = after(action, DotEvent::Read(vec![0, 0]));
    assert!(matches!(action, DotAction::ReadLength));
    let end = || DotEvent::EndOfStream("early eof".to_string());
    assert!(matches!(after(action, end()), DotAction::Close));
    assert!(matches!(after(DotAction::ReadMessage(3), end()), DotAction::Fail(_)));
    let reset = DotEvent::Error("reset".to_string());
    assert!(matches!(after(DotAction::ReadLength, reset), DotAction::Fail(_)));
}

#[test]
fn forwarded_queries_are_always_answered() {
    let answered = forward_query(PipelineOutcome::Answered(vec![1]), vec![2]);
    assert_eq!(answered.status, 200);
    assert_eq!(answered.content_type, "application/dns-message");
    assert_eq!(answered.body, vec![1]);
    assert_eq!(forward_query(PipelineOutcome::NoAnswer, vec![2]).body, vec![2]);
}

// ---- addresses ----

#[test]
fn addresses_are_read_with_the_port() {
    let given = vec!["127.0.0.1".to_string(), "::1".to_string()];
    assert_eq!(
        parse_bind_addrs(&given, 53).unwrap(),
        vec![SocketAddr::new(v4(127, 0, 0, 1), 53), SocketAddr::new(IpAddr::V6(1), 53)]
    );
    let err = parse_bind_addrs(&vec!["1.2.3.4".to_string(), "x".to_string()], 53).unwrap_err();
    assert_eq!(err.message(), "invalid bind address 'x:53': invalid socket address syntax");
    let bind = ListenerSetupError::BindFailed {
        proto: "UDP",
        addr: SocketAddr::new(v4(127, 0, 0, 1), 53),
        source: "in use".to_string(),
    };
    assert_eq!(bind.message(), "failed to bind UDP on 127.0.0.1:53: in use");
    let registration = ListenerSetupError::Registration("no".to_string());
    assert_eq!(registration.message(), "listener registration error: no");
}

// ---- answers to requests ----

fn request_head() -> RequestHead {
    RequestHead { id: 42, op_code: 0, recursion_desired: true, checking_disabled: true }
}

#[test]
fn answers_belong_to_their_request() {
    let upstream = ResponseHead {
        id: 7,
        op_code: 0,
        authoritative: true,
        truncated: false,
        recursion_desired: false,
        recursion_available: true,
        authentic_data: true,
        checking_disabled: false,
        response_code: 0,
    };
    let head = build_response(&request_head(), Some(upstream));
    assert_eq!(head.id, 42);
    assert!(head.authoritative);
    assert_eq!(head.response_code, 0);
    let failed = build_response(&request_head(), None);
    assert_eq!((failed.id, failed.response_code), (42, SERV_FAIL));
    let info = serve_failed_info(&request_head());
    assert_eq!((info.id, info.response_code), (42, SERV_FAIL));
}

#[test]
fn answers_are_read_from_bytes() {
    let mut upstream = Message::new(7, MessageType::Response, OpCode::Query);
    upstream.metadata.response_code = ResponseCode::NXDomain;
    upstream.metadata.authoritative = true;
    upstream.metadata.truncation = true;
    upstream.metadata.recursion_available = true;
    upstream.metadata.authentic_data = true;
    let name: Name = "example.com.".parse().unwrap();
    upstream.add_answer(Record::from_rdata(name, 60, RData::A(A::new(10, 0, 0, 1))));
    let bytes = upstream.to_vec().unwrap();

    let (head, message) = build_response_of_bytes(&request_head(), &bytes);
    assert_eq!(
        head,
        ResponseHead {
            id: 42,
            op_code: 0,
            authoritative: true,
            truncated: false,
            recursion_desired: true,
            recursion_available: true,
            authentic_data: true,
            checking_disabled: false,
            response_code: 3,
        }
    );
    let message = message.unwrap();
    assert_eq!(message.answers, upstream.answers);
    assert!(message.authorities.is_empty());
}

#[test]
fn unreadable_answers_are_failures() {
    for bytes in [&[][..], &[1, 2, 3][..]] {
        let (head, message) = build_response_of_bytes(&request_head(), bytes);
        assert_eq!(head, build_response(&request_head(), None));
        assert_eq!(head.response_code, SERV_FAIL);
        assert!(head.checking_disabled);
        assert!(message.is_none());
    }
}

#[test]
fn answers_hand_on_the_records_of_the_message() {
    let head = build_response(&request_head(), None);
    let sections =
        Sections { answers: vec!["a"], authorities: vec!["soa", "ns"], additionals: vec!["x"] };
    let sent = outgoing(head, Some(sections));
    assert_eq!(sent.head, head);
    assert_eq!(sent.answers, vec!["a"]);
    assert_eq!(sent.authorities, vec!["soa", "ns"]);
    assert_eq!(sent.additionals, vec!["x"]);
    assert!(sent.soa.is_empty());
    let sent = outgoing(head, None::<Sections<&str>>);
    assert_eq!(sent.answers.len() + sent.authorities.len() + sent.additionals.len(), 0);
    assert!(sent.soa.is_empty());
}

// ---- the admin page ----

#[test]
fn redirects_keep_the_host_and_the_path() {
    assert_eq!(
        redirect_location(Some("dns.example:80"), 8443, "/admin"),
        "https://dns.example:8443/admin"
    );
    assert_eq!(redirect_location(None, 443, "/"), "https://localhost/");
    assert_eq!(redirect_location(Some("h"), 443, "/x"), "https://h/x");
    let redirect = handle_redirect(&Header::Opaque, 8443, "/a");
    assert_eq!(redirect.status, 301);
    assert_eq!(redirect.location, "https://localhost:8443/a");
    let redirect = handle_redirect(&Header::Text("h:80".to_string()), 443, "/a");
    assert_eq!(redirect.location, "https://h/a");
}

#[test]
fn placeholders_are_taken_out_of_the_page() {
    assert_eq!(render_admin_html("a{{API_BASE_URL}}b{{API_BASE_URL}}"), "ab");
    assert_eq!(render_admin_html("{{API_BASE_URL"), "{{API_BASE_URL");
}

#[test]
fn admin_is_served_over_https_where_there_is_a_certificate() {
    let http = SocketAddr::new(v4(127, 0, 0, 1), 80);
    let https = SocketAddr::new(v4(127, 0, 0, 1), 8443);
    assert_eq!(
        plan_admin_servers(http, None, false, 8443),
        AdminServers::Http { address: http }
    );
    assert_eq!(
        plan_admin_servers(http, Some(https), true, 8443),
        AdminServers::Https { address: https, redirect_from: http, tls_port: 8443 }
    );
    assert_eq!(
        server_failure(AdminServer::Redirect, SocketStep::Bind(http), "in use"),
        "failed to bind admin HTTP redirect on 127.0.0.1:80: in use"
    );
}

// ---- the API ----

#[test]
fn json_ok_produces_valid_response() {
    let resp = json_ok("hello", 1000);
    assert_eq!(resp.status, 200);
    assert!(resp.success);
    assert_eq!(resp.data, Some("hello"));
    assert!(resp.error.is_none());
    assert_eq!(resp.timestamp, 1000);
}

#[test]
fn json_error_produces_error_response() {
    let resp = json_error::<()>(404, "not found", 1000);
    assert_eq!(resp.status, 404);
    assert!(!resp.success);
    assert!(resp.data.is_none());
    assert_eq!(resp.error, Some("not found".to_string()));
    assert_eq!(resp.timestamp, 1000);
}

#[test]
fn outcomes_are_answered() {
    let made = operation_response(Endpoint::AddZone, Ok(7), 5);
    assert_eq!((made.status, made.success, made.data), (201, true, Some(7)));
    let failed = |e| Err::<u8, _>((e, "why".to_string()));
    let closed = operation_response(
        Endpoint::Reload,
        failed(ServerOperationError::NotFound("x".to_string())),
        5,
    );
    assert_eq!((closed.status, closed.error), (500, Some("why".to_string())));
    let invalid = operation_response(
        Endpoint::AddZone,
        failed(ServerOperationError::InvalidInput("x".to_string())),
        5,
    );
    assert_eq!((invalid.status, invalid.success, invalid.data), (400, false, None));
    assert_eq!(stop_response().status, "ok");
    assert_eq!(stop_response().message, "shutdown initiated");
}

#[test]
fn op_error_not_found_maps_to_404() {
    assert_eq!(op_error_to_status(&ServerOperationError::NotFound("test".to_string())), 404);
}

#[test]
fn op_error_channel_closed_maps_to_500() {
    assert_eq!(op_error_to_status(&ServerOperationError::ChannelClosed), 500);
}

#[test]
fn other_operation_errors_have_their_status() {
    assert_eq!(op_error_to_status(&ServerOperationError::Unavailable("x".to_string())), 404);
    assert_eq!(op_error_to_status(&ServerOperationError::InvalidInput("x".to_string())), 400);
    assert_eq!(op_error_to_status(&ServerOperationError::Internal("x".to_string())), 500);
}

#[test]
fn requests_reach_their_endpoint() {
    assert_eq!(find_route(HttpMethod::Get, "/health").0, Lookup::Found(Endpoint::Health));
    assert_eq!(find_route(HttpMethod::Post, "/health").0, Lookup::OtherMethod);
    assert_eq!(find_route(HttpMethod::Get, "/nowhere").0, Lookup::Unknown);
    let (lookup, id) = find_route(HttpMethod::Put, "/api/v1/upstreams/u1");
    assert_eq!(lookup, Lookup::Found(Endpoint::UpdateUpstream));
    assert_eq!(id, Some("u1".to_string()));
    let (lookup, id) = find_route(HttpMethod::Post, "/api/v1/lists/ads/disable");
    assert_eq!(lookup, Lookup::Found(Endpoint::DisableList));
    assert_eq!(id, Some("ads".to_string()));
    assert_eq!(find_route(HttpMethod::Delete, "/api/v1/zones/").0, Lookup::Unknown);
    assert_eq!(find_route(HttpMethod::Head, "/health").0, Lookup::Found(Endpoint::Health));
    assert_eq!(find_route(HttpMethod::Head, "/api/v1/stop").0, Lookup::OtherMethod);
    let (lookup, name) = find_route(HttpMethod::Post, "/api/v1/lists//refresh");
    assert_eq!(lookup, Lookup::Found(Endpoint::RefreshList));
    assert_eq!(name, Some(String::new()));
    assert_eq!(success_status(Endpoint::AddZone), 201);
    assert_eq!(success_status(Endpoint::Stats), 200);
}

#[test]
fn operations_need_the_token() {
    let denied = admit_api_request(HttpMethod::Post, "/api/v1/stop", &Header::Absent, Some("t"));
    assert!(matches!(denied, ApiAdmission::Refuse(401, _)));
    let token = Header::Text("Bearer t".to_string());
    let let_in = admit_api_request(HttpMethod::Post, "/api/v1/stop", &token, Some("t"));
    assert!(matches!(let_in, ApiAdmission::Call(Endpoint::Stop, None)));
    let open = admit_api_request(HttpMethod::Get, "/health", &Header::Absent, Some("t"));
    assert!(matches!(open, ApiAdmission::Call(Endpoint::Health, None)));
    let no_path = admit_api_request(HttpMethod::Get, "/nowhere", &Header::Absent, Some("t"));
    assert!(matches!(no_path, ApiAdmission::Refuse(401, _)));
    let no_path = admit_api_request(HttpMethod::Get, "/nowhere", &token, Some("t"));
    assert!(matches!(no_path, ApiAdmission::Refuse(404, "")));
    let other = admit_api_request(HttpMethod::Post, "/health", &Header::Absent, Some("t"));
    assert!(matches!(other, ApiAdmission::Refuse(405, "")));
}

#[test]
fn names_in_paths_are_decoded() {
    assert_eq!(read_item_name("my%20list"), Some("my list".to_string()));
    assert_eq!(read_item_name("%C3%a9"), Some("\u{e9}".to_string()));
    assert_eq!(read_item_name("100%"), Some("100%".to_string()));
    assert_eq!(read_item_name("%zz"), Some("%zz".to_string()));
    assert_eq!(read_item_name("%ff"), None);
    let called = admit_api_request(
        HttpMethod::Delete,
        "/api/v1/blocklists/a%2Fb",
        &Header::Absent,
        None,
    );
    match called {
        ApiAdmission::Call(Endpoint::DeleteBlocklist, Some(name)) => assert_eq!(name, "a/b"),
        other => panic!("{other:?}"),
    }
    for (path, text) in [
        ("/api/v1/blocklists/%ff", "Invalid URL: Invalid UTF-8 in `name`"),
        ("/api/v1/upstreams/%ff", "Invalid URL: Invalid UTF-8 in `id`"),
        ("/api/v1/zones/%ff", "Invalid URL: Invalid UTF-8 in `zone`"),
    ] {
        match admit_api_request(HttpMethod::Delete, path, &Header::Absent, None) {
            ApiAdmission::Refuse(400, t) => assert_eq!(t, text),
            other => panic!("{other:?}"),
        }
    }
}

// ---- metrics over HTTP ----

#[test]
fn metrics_are_served_at_one_path() {
    assert_eq!(
        metrics_response("GET /metrics HTTP/1.1", "a 1\n"),
        "HTTP/1.1 200 OK\r\nContent-Type: text/plain; version=0.0.4\r\nContent-Length: 4\r\nConnection: close\r\n\r\na 1\n"
    );
    assert!(metrics_response("GET / HTTP/1.1", "a 1\n").starts_with("HTTP/1.1 404 Not Found\r\n"));
    assert!(answer_request("GET /metrics HTTP/1.1\r\nHost: x\r\n\r\n", "\u{e9}")
        .contains("Content-Length: 2\r\n"));
    assert!(answer_request("", "x").starts_with("HTTP/1.1 404"));
}

#[test]
fn the_first_bad_address_is_named() {
    let a = SocketAddr::new(IpAddr::V4(0x7f00_0001), 53);
    let texts = vec!["a".to_string(), "b".to_string(), "c".to_string()];
    let bad = |m: &str| Err(m.to_string());
    assert_eq!(bind_addrs_of(&texts, &vec![Ok(a), Ok(a), Ok(a)]).unwrap(), vec![a, a, a]);
    let error = bind_addrs_of(&texts, &vec![Ok(a), bad("x"), bad("y")]).unwrap_err();
    assert_eq!(error.message(), "invalid bind address 'b': x");
    assert!(bind_addrs_of(&vec![], &vec![]).unwrap().is_empty());
}
