use dns_filter::config::schema::McpConfig;
use dns_filter::database::records::UpstreamServerRecord;
use dns_filter::listeners::auth::Header;
use dns_filter::listeners::mcp::{
    allowed_hosts, build_mcp_auth, layout_version, markdown_cell, mcp_server_to_input,
    parse_fwmark_field, plan_mcp_server, present_stats, present_upstreams, present_zone_search,
    refuse_mcp_request, render_stats_markdown, render_upstreams_markdown, render_zone_search_markdown,
    FwmarkFieldInput, McpZoneServerInput, StatsResult, UpstreamStatsEntry, ZoneRecord,
    ZoneSearchResult, ZoneSearchResultList,
};
use dns_filter::net::{IpAddr, SocketAddr};

#[test]
fn mcp_update_upstream_fwmark_none_string_clears_value() {
    let input = Some(FwmarkFieldInput::Text("None".to_string()));
    assert_eq!(parse_fwmark_field(&input), Ok(None));
}

#[test]
fn mcp_update_upstream_fwmark_integer_sets_value() {
    assert_eq!(parse_fwmark_field(&Some(FwmarkFieldInput::Number(42))), Ok(Some(42)));
}

#[test]
fn mcp_update_upstream_fwmark_null_clears_value() {
    assert_eq!(parse_fwmark_field(&None), Ok(None));
}

#[test]
fn other_texts_are_no_marks() {
    let null = Some(FwmarkFieldInput::Text(" NULL ".to_string()));
    assert_eq!(parse_fwmark_field(&null), Ok(None));
    let seven = Some(FwmarkFieldInput::Text("seven".to_string()));
    assert_eq!(
        parse_fwmark_field(&seven),
        Err("fwmark must be an integer, null, or the string 'None'")
    );
}

fn upstream() -> UpstreamServerRecord {
    UpstreamServerRecord {
        id: "u1".to_string(),
        enabled: true,
        protocol: "doh".to_string(),
        address: "https://dns.example/dns-query".to_string(),
        auth_token: Some("secret-token".to_string()),
        auth_username: None,
        auth_password: None,
        max_hops: None,
        nameserver_ip_family: Some("ipv4".to_string()),
        root_hints_path: None,
        root_key_path: None,
        dnssec: true,
        sort_order: 10,
        bind_address: Some("10.0.0.2".to_string()),
        fwmark: Some(42),
    }
}

#[test]
fn render_upstreams_markdown_includes_routing_fields() {
    let upstreams = vec![upstream()];
    let markdown = render_upstreams_markdown(&upstreams);
    assert!(markdown.contains("bind_address"));
    assert!(markdown.contains("fwmark"));
    assert!(markdown.contains("10.0.0.2"));
    assert!(markdown.contains("42"));
    assert!(!markdown.contains("secret-token"));
    assert!(markdown.contains("bearer"));
}

#[test]
fn upstreams_are_rows_of_a_table() {
    assert_eq!(render_upstreams_markdown(&vec![]), "No upstream servers configured.");
    let markdown = render_upstreams_markdown(&vec![upstream()]);
    assert_eq!(
        markdown.lines().nth(2).unwrap(),
        "| u1 | yes | doh | https://dns.example/dns-query | 10 | 10.0.0.2 | 42 | yes | bearer | - | ipv4 | - | - |"
    );
}

fn stats() -> StatsResult {
    StatsResult {
        uptime_seconds: 123,
        filtering_enabled: true,
        queries_total: 100,
        queries_blocked: 10,
        queries_allowed: 80,
        queries_passthrough: 10,
        blocklist_hits_total: 5,
        cache_hits_total: 7,
        cache_misses_total: 3,
        upstreams: vec![UpstreamStatsEntry {
            upstream: "doh://dns.example".to_string(),
            requests_total: 25,
            errors_total: 1,
            latency_count: 25,
            latency_sum_seconds: format!("{:.6}", 1.5),
        }],
        lists: vec![],
    }
}

#[test]
fn render_stats_markdown_renders_summary_and_upstreams() {
    let markdown = render_stats_markdown(&stats());
    assert!(markdown.contains("Summary"));
    assert!(markdown.contains("queries_total: 100"));
    assert!(markdown.contains("doh://dns.example"));
}

fn search() -> ZoneSearchResultList {
    ZoneSearchResultList {
        query: "www".to_string(),
        results: vec![ZoneSearchResult {
            record: ZoneRecord {
                name: "www.example.com".to_string(),
                record_type: "A".to_string(),
                ttl: 300,
                data: "203.0.113.10".to_string(),
                zone: "example.com".to_string(),
            },
            score: 123,
        }],
        total_matches: 1,
        limit: 50,
    }
}

#[test]
fn render_zone_search_markdown_renders_results_table() {
    let markdown = render_zone_search_markdown(&search());
    assert!(markdown.contains("Query: www"));
    assert!(markdown.contains("www.example.com"));
    assert!(markdown.contains("example.com"));
    assert!(markdown.contains("203.0.113.10"));
}

#[test]
fn cells_hold_one_line_without_bars() {
    assert_eq!(markdown_cell("a|b"), "a\\|b");
    assert_eq!(markdown_cell("a\nb"), "a b");
}

#[test]
fn presentations_are_given_unless_declined() {
    assert_eq!(layout_version(), "v1");
    let shown = present_stats(&stats(), Some(true)).unwrap();
    assert_eq!(shown.layout, "stats-summary-v1");
    assert_eq!(shown.markdown, render_stats_markdown(&stats()));
    assert!(present_stats(&stats(), Some(false)).is_none());
    assert!(present_upstreams(&vec![], Some(false)).is_none());
    assert_eq!(present_upstreams(&vec![], Some(true)).unwrap().title, "Configured Upstreams");
    assert_eq!(present_zone_search(&search(), Some(true)).unwrap().layout, "zone-search-table-v1");
}

#[test]
fn authentication_is_a_token_or_a_user() {
    let token = build_mcp_auth(Some("t".to_string()), None, None).unwrap();
    assert_eq!(token.token, Some("t".to_string()));
    assert!(build_mcp_auth(None, None, None).is_none());
    let user = build_mcp_auth(None, Some("u".to_string()), None).unwrap();
    assert_eq!(user.username, Some("u".to_string()));
}

#[test]
fn zone_servers_keep_their_settings() {
    let input = mcp_server_to_input(McpZoneServerInput {
        enabled: Some(true),
        protocol: "dot".to_string(),
        address: "1.1.1.1:853".to_string(),
        auth_token: None,
        auth_username: Some("u".to_string()),
        auth_password: Some("p".to_string()),
        check_interval: Some("5m".to_string()),
        max_hops: Some(3),
        nameserver_ip_family: None,
        root_hints_path: None,
        root_key_path: None,
        dnssec: Some(false),
    });
    assert_eq!(input.protocol, "dot");
    assert_eq!(input.max_hops, Some(3));
    assert_eq!(input.authentication.unwrap().password, Some("p".to_string()));
}

fn mcp(addresses: &[&str], hosts: Option<Vec<String>>) -> McpConfig {
    McpConfig {
        enabled: true,
        addresses: addresses.iter().map(|a| a.to_string()).collect(),
        port: 8953,
        api_token: None,
        sse_keep_alive: Some(0),
        stateful_mode: true,
        json_response: false,
        allowed_origins: vec![],
        allowed_hosts: hosts,
    }
}

#[test]
fn hosts_follow_from_the_addresses() {
    let hosts = allowed_hosts(&mcp(&["192.0.2.1", "0.0.0.0"], None));
    assert!(hosts.contains(&"localhost:8953".to_string()));
    assert!(hosts.contains(&"192.0.2.1:8953".to_string()));
    assert!(!hosts.contains(&"0.0.0.0:8953".to_string()));
    let given = allowed_hosts(&mcp(&["192.0.2.1"], Some(vec!["h".to_string()])));
    assert_eq!(given, vec!["h".to_string()]);
}

#[test]
fn server_listens_at_every_address() {
    let plan = plan_mcp_server(&mcp(&["127.0.0.1", "::1"], None)).unwrap();
    assert_eq!(
        plan.addrs,
        vec![
            SocketAddr::new(IpAddr::V4(0x7f00_0001), 8953),
            SocketAddr::new(IpAddr::V6(1), 8953)
        ]
    );
    assert!(plan.stateful_mode);
    assert!(plan_mcp_server(&mcp(&["nope"], None)).is_err());
}

#[test]
fn mcp_requests_need_the_token() {
    let token = Header::Text("Bearer t".to_string());
    assert_eq!(refuse_mcp_request("/mcp", &token, Some("t")), None);
    assert_eq!(refuse_mcp_request("/mcp/x", &Header::Absent, None), None);
    assert_eq!(refuse_mcp_request("/mcps", &token, Some("t")), Some((404, "")));
    assert_eq!(
        refuse_mcp_request("/mcps", &Header::Absent, Some("t")),
        Some((401, "authorization header required"))
    );
}
