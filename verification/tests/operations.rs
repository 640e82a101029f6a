use dns_filter::listeners::http::Endpoint;
use dns_filter::listeners::mcp::McpZoneServerInput;
use dns_filter::listeners::operations::{
    api_operation, filter_list_update, tool_operation, upstream_input, upstream_update,
    zone_discovery_input, zone_discovery_update, zone_input, zone_update, AddUpstreamServerParams,
    AddZoneDiscoveryParams, ListKind, Operation, ToolCall, UpdateFilterListParams,
    UpdateUpstreamServerParams, UpdateZoneDiscoveryParams, ZoneParams,
};

const PLAIN: ToolCall = ToolCall { list_named: false, enabled: false };

#[test]
fn endpoints_call_operations() {
    assert_eq!(
        api_operation(Endpoint::AddAllowlist),
        Some(Operation::AddFilterList(ListKind::Allow))
    );
    assert_eq!(api_operation(Endpoint::FilteringDisable), Some(Operation::SetFiltering(false)));
    assert_eq!(api_operation(Endpoint::ListZones), Some(Operation::ListZoneConfigs));
    assert_eq!(api_operation(Endpoint::OpenApi), None);
    assert_eq!(ListKind::Block.name(), "block");
    assert_eq!(ListKind::Allow.name(), "allow");
}

#[test]
fn tools_call_operations() {
    assert_eq!(tool_operation("server_health", PLAIN), Some(Operation::Health));
    assert_eq!(tool_operation("refresh_lists", PLAIN), Some(Operation::RefreshAllLists));
    let named = ToolCall { list_named: true, enabled: false };
    assert_eq!(tool_operation("refresh_lists", named), Some(Operation::RefreshList));
    let on = ToolCall { list_named: false, enabled: true };
    assert_eq!(tool_operation("filter_toggle", on), Some(Operation::SetFiltering(true)));
    assert_eq!(
        tool_operation("add_blocklist", PLAIN),
        Some(Operation::AddFilterList(ListKind::Block))
    );
    assert_eq!(tool_operation("search_zone_records", PLAIN), Some(Operation::SearchZones));
    assert_eq!(tool_operation("stop", PLAIN), None);
}

#[test]
fn lists_are_changed_by_name() {
    let (name, input) = filter_list_update(UpdateFilterListParams {
        name: "ads".to_string(),
        url: Some("http://ads".to_string()),
        interval: None,
        enabled: Some(false),
        list_type: None,
    });
    assert_eq!(name, "ads");
    assert_eq!(input.url, Some("http://ads".to_string()));
    assert_eq!(input.enabled, Some(false));
}

#[test]
fn upstream_servers_get_their_credentials() {
    let input = upstream_input(AddUpstreamServerParams {
        enabled: Some(true),
        protocol: "doh".to_string(),
        address: "https://dns.example/dns-query".to_string(),
        auth_token: Some("t".to_string()),
        auth_username: None,
        auth_password: None,
        max_hops: None,
        nameserver_ip_family: None,
        root_hints_path: None,
        root_key_path: None,
        dnssec: Some(true),
        bind_address: Some("10.0.0.2".to_string()),
        fwmark: Some(42),
        sort_order: Some(1),
    });
    assert_eq!(input.authentication.unwrap().token, Some("t".to_string()));
    assert_eq!((input.fwmark, input.sort_order), (Some(42), Some(1)));
    let (id, input) = upstream_update(UpdateUpstreamServerParams {
        id: "u1".to_string(),
        enabled: None,
        protocol: None,
        address: None,
        auth_token: None,
        auth_username: None,
        auth_password: None,
        max_hops: Some(3),
        nameserver_ip_family: None,
        root_hints_path: None,
        root_key_path: None,
        dnssec: None,
        bind_address: Some(None),
        fwmark: Some(Some(7)),
        sort_order: None,
    });
    assert_eq!(id, "u1");
    assert!(input.authentication.is_none());
    assert_eq!(input.bind_address, Some(None));
    assert_eq!((input.fwmark, input.max_hops), (Some(Some(7)), Some(3)));
}

fn zone_server(address: &str) -> McpZoneServerInput {
    McpZoneServerInput {
        enabled: Some(true),
        protocol: "dns".to_string(),
        address: address.to_string(),
        auth_token: None,
        auth_username: None,
        auth_password: None,
        check_interval: None,
        max_hops: None,
        nameserver_ip_family: None,
        root_hints_path: None,
        root_key_path: None,
        dnssec: None,
    }
}

fn zone(servers: Option<Vec<McpZoneServerInput>>) -> ZoneParams {
    ZoneParams {
        zone: "home.arpa".to_string(),
        enabled: Some(true),
        bypass_filter: Some(true),
        fallback_to_default_resolvers: None,
        strategy: Some("failover".to_string()),
        servers,
    }
}

#[test]
fn zones_keep_the_order_of_their_servers() {
    let input = zone_input(zone(Some(vec![zone_server("1.1.1.1:53"), zone_server("8.8.8.8:53")])));
    assert_eq!(input.zone, "home.arpa");
    let addresses: Vec<String> = input.servers.unwrap().into_iter().map(|s| s.address).collect();
    assert_eq!(addresses, vec!["1.1.1.1:53", "8.8.8.8:53"]);
    let (name, change) = zone_update(zone(None));
    assert_eq!(name, "home.arpa");
    assert!(change.servers.is_none());
    assert_eq!(change.strategy, Some("failover".to_string()));
    assert!(zone_update(zone(Some(vec![]))).1.servers.unwrap().is_empty());
}

#[test]
fn sources_of_zones_get_their_credentials() {
    let input = zone_discovery_input(AddZoneDiscoveryParams {
        address: "https://example.com/zones.json".to_string(),
        enabled: Some(true),
        check_interval: Some("15m".to_string()),
        allowed_types: Some(vec!["reverse".to_string()]),
        bypass_filter: None,
        fallback_to_default_resolvers: Some(true),
        auth_token: None,
        auth_username: Some("u".to_string()),
        auth_password: Some("p".to_string()),
    });
    assert_eq!(input.authentication.unwrap().username, Some("u".to_string()));
    assert_eq!(input.allowed_types, Some(vec!["reverse".to_string()]));
    let (id, change) = zone_discovery_update(UpdateZoneDiscoveryParams {
        id: "zd-1".to_string(),
        address: None,
        enabled: Some(false),
        check_interval: None,
        allowed_types: None,
        bypass_filter: None,
        fallback_to_default_resolvers: None,
        auth_token: None,
        auth_username: None,
        auth_password: None,
    });
    assert_eq!(id, "zd-1");
    assert!(change.authentication.is_none());
    assert_eq!(change.enabled, Some(false));
}
