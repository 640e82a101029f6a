//! What the server can be asked to do, over the HTTP API and by the tools of MCP.

use crate::listeners::http::{plain_route, route, Endpoint, HttpMethod, Lookup};
use crate::listeners::mcp::{
    build_mcp_auth, credentials, mcp_server_to_input, AuthenticationInput, CreateZoneServerInput,
    McpZoneServerInput,
};
use crate::text::{law_text_is_parted_at_the_separator, same, split};
use vstd::prelude::*;

verus! {

// ---- operations ----

/// The kind of a filter list.
#[derive(Clone, Copy, Debug, PartialEq, Eq, Structural)]
pub enum ListKind {
    Block,
    Allow,
}

impl ListKind {
    /// The name under which lists of this kind are stored.
    pub fn name(self) -> (r: &'static str)
        ensures
            r@ == match self {
                ListKind::Block => "block"@,
                ListKind::Allow => "allow"@,
            },
    {
        match self {
            ListKind::Block => "block",
            ListKind::Allow => "allow",
        }
    }
}

/// An operation of the server.
#[derive(Clone, Copy, Debug, PartialEq, Eq, Structural)]
pub enum Operation {
    Health,
    Reload,
    Stop,
    SetFiltering(bool),
    FilteringStatus,
    ListFilters,
    RefreshAllLists,
    RefreshList,
    EnableList,
    DisableList,
    Stats,
    QueryLog,
    ListFilterLists(ListKind),
    AddFilterList(ListKind),
    UpdateFilterList,
    DeleteFilterList,
    GetResolverConfig,
    UpdateResolverConfig,
    ListUpstreams,
    AddUpstream,
    UpdateUpstream,
    DeleteUpstream,
    ListZoneConfigs,
    AddZone,
    UpdateZone,
    DeleteZone,
    ListZoneDiscovery,
    AddZoneDiscovery,
    UpdateZoneDiscovery,
    DeleteZoneDiscovery,
    LookUp,
    ListZones,
    SearchZones,
}

/// The operation that an endpoint of the API calls; the page and the description of the
/// API call none.
pub open spec fn called_by_endpoint(endpoint: Endpoint) -> Option<Operation> {
    match endpoint {
        Endpoint::AdminPage => None,
        Endpoint::OpenApi => None,
        Endpoint::Health => Some(Operation::Health),
        Endpoint::Reload => Some(Operation::Reload),
        Endpoint::Stop => Some(Operation::Stop),
        Endpoint::FilteringDisable => Some(Operation::SetFiltering(false)),
        Endpoint::FilteringEnable => Some(Operation::SetFiltering(true)),
        Endpoint::FilteringStatus => Some(Operation::FilteringStatus),
        Endpoint::ListAll => Some(Operation::ListFilters),
        Endpoint::RefreshAll => Some(Operation::RefreshAllLists),
        Endpoint::RefreshList => Some(Operation::RefreshList),
        Endpoint::DisableList => Some(Operation::DisableList),
        Endpoint::EnableList => Some(Operation::EnableList),
        Endpoint::Stats => Some(Operation::Stats),
        Endpoint::QueryLog => Some(Operation::QueryLog),
        Endpoint::ListBlocklists => Some(Operation::ListFilterLists(ListKind::Block)),
        Endpoint::AddBlocklist => Some(Operation::AddFilterList(ListKind::Block)),
        Endpoint::UpdateBlocklist => Some(Operation::UpdateFilterList),
        Endpoint::DeleteBlocklist => Some(Operation::DeleteFilterList),
        Endpoint::ListAllowlists => Some(Operation::ListFilterLists(ListKind::Allow)),
        Endpoint::AddAllowlist => Some(Operation::AddFilterList(ListKind::Allow)),
        Endpoint::UpdateAllowlist => Some(Operation::UpdateFilterList),
        Endpoint::DeleteAllowlist => Some(Operation::DeleteFilterList),
        Endpoint::GetResolverConfig => Some(Operation::GetResolverConfig),
        Endpoint::UpdateResolverConfig => Some(Operation::UpdateResolverConfig),
        Endpoint::ListUpstreams => Some(Operation::ListUpstreams),
        Endpoint::AddUpstream => Some(Operation::AddUpstream),
        Endpoint::UpdateUpstream => Some(Operation::UpdateUpstream),
        Endpoint::DeleteUpstream => Some(Operation::DeleteUpstream),
        Endpoint::ListZones => Some(Operation::ListZoneConfigs),
        Endpoint::AddZone => Some(Operation::AddZone),
        Endpoint::UpdateZone => Some(Operation::UpdateZone),
        Endpoint::DeleteZone => Some(Operation::DeleteZone),
        Endpoint::ListZoneDiscovery => Some(Operation::ListZoneDiscovery),
        Endpoint::AddZoneDiscovery => Some(Operation::AddZoneDiscovery),
        Endpoint::UpdateZoneDiscovery => Some(Operation::UpdateZoneDiscovery),
        Endpoint::DeleteZoneDiscovery => Some(Operation::DeleteZoneDiscovery),
    }
}

/// The operation that an endpoint of the API calls.
pub fn api_operation(endpoint: Endpoint) -> (r: Option<Operation>)
    ensures
        r == called_by_endpoint(endpoint),
{
    match endpoint {
        Endpoint::AdminPage => None,
        Endpoint::OpenApi => None,
        Endpoint::Health => Some(Operation::Health),
        Endpoint::Reload => Some(Operation::Reload),
        Endpoint::Stop => Some(Operation::Stop),
        Endpoint::FilteringDisable => Some(Operation::SetFiltering(false)),
        Endpoint::FilteringEnable => Some(Operation::SetFiltering(true)),
        Endpoint::FilteringStatus => Some(Operation::FilteringStatus),
        Endpoint::ListAll => Some(Operation::ListFilters),
        Endpoint::RefreshAll => Some(Operation::RefreshAllLists),
        Endpoint::RefreshList => Some(Operation::RefreshList),
        Endpoint::DisableList => Some(Operation::DisableList),
        Endpoint::EnableList => Some(Operation::EnableList),
        Endpoint::Stats => Some(Operation::Stats),
        Endpoint::QueryLog => Some(Operation::QueryLog),
        Endpoint::ListBlocklists => Some(Operation::ListFilterLists(ListKind::Block)),
        Endpoint::AddBlocklist => Some(Operation::AddFilterList(ListKind::Block)),
        Endpoint::UpdateBlocklist => Some(Operation::UpdateFilterList),
        Endpoint::DeleteBlocklist => Some(Operation::DeleteFilterList),
        Endpoint::ListAllowlists => Some(Operation::ListFilterLists(ListKind::Allow)),
        Endpoint::AddAllowlist => Some(Operation::AddFilterList(ListKind::Allow)),
        Endpoint::UpdateAllowlist => Some(Operation::UpdateFilterList),
        Endpoint::DeleteAllowlist => Some(Operation::DeleteFilterList),
        Endpoint::GetResolverConfig => Some(Operation::GetResolverConfig),
        Endpoint::UpdateResolverConfig => Some(Operation::UpdateResolverConfig),
        Endpoint::ListUpstreams => Some(Operation::ListUpstreams),
        Endpoint::AddUpstream => Some(Operation::AddUpstream),
        Endpoint::UpdateUpstream => Some(Operation::UpdateUpstream),
        Endpoint::DeleteUpstream => Some(Operation::DeleteUpstream),
        Endpoint::ListZones => Some(Operation::ListZoneConfigs),
        Endpoint::AddZone => Some(Operation::AddZone),
        Endpoint::UpdateZone => Some(Operation::UpdateZone),
        Endpoint::DeleteZone => Some(Operation::DeleteZone),
        Endpoint::ListZoneDiscovery => Some(Operation::ListZoneDiscovery),
        Endpoint::AddZoneDiscovery => Some(Operation::AddZoneDiscovery),
        Endpoint::UpdateZoneDiscovery => Some(Operation::UpdateZoneDiscovery),
        Endpoint::DeleteZoneDiscovery => Some(Operation::DeleteZoneDiscovery),
    }
}

/// What decides over the operation of a tool, besides its name.
#[derive(Clone, Copy, Debug, PartialEq, Eq, Structural)]
pub struct ToolCall {
    /// Whether a list is named.
    pub list_named: bool,
    /// Whether something is switched on, where the tool switches.
    pub enabled: bool,
}

/// The operation that a tool calls; nothing where there is no such tool.
pub open spec fn called_by_tool(name: Seq<char>, call: ToolCall) -> Option<Operation> {
    if name == "dns_lookup"@ {
        Some(Operation::LookUp)
    } else if name == "filter_status"@ {
        Some(Operation::FilteringStatus)
    } else if name == "filter_toggle"@ {
        Some(Operation::SetFiltering(call.enabled))
    } else if name == "list_filters"@ {
        Some(Operation::ListFilters)
    } else if name == "refresh_lists"@ {
        if call.list_named {
            Some(Operation::RefreshList)
        } else {
            Some(Operation::RefreshAllLists)
        }
    } else if name == "get_stats"@ {
        Some(Operation::Stats)
    } else if name == "get_stats_presented"@ {
        Some(Operation::Stats)
    } else if name == "get_query_log"@ {
        Some(Operation::QueryLog)
    } else if name == "reload_config"@ {
        Some(Operation::Reload)
    } else if name == "server_health"@ {
        Some(Operation::Health)
    } else if name == "enable_list"@ {
        Some(Operation::EnableList)
    } else if name == "disable_list"@ {
        Some(Operation::DisableList)
    } else if name == "list_zones"@ {
        Some(Operation::ListZones)
    } else if name == "search_zone_records"@ {
        Some(Operation::SearchZones)
    } else if name == "list_blocklists"@ {
        Some(Operation::ListFilterLists(ListKind::Block))
    } else if name == "add_blocklist"@ {
        Some(Operation::AddFilterList(ListKind::Block))
    } else if name == "update_blocklist"@ {
        Some(Operation::UpdateFilterList)
    } else if name == "delete_blocklist"@ {
        Some(Operation::DeleteFilterList)
    } else if name == "list_allowlists"@ {
        Some(Operation::ListFilterLists(ListKind::Allow))
    } else if name == "add_allowlist"@ {
        Some(Operation::AddFilterList(ListKind::Allow))
    } else if name == "update_allowlist"@ {
        Some(Operation::UpdateFilterList)
    } else if name == "delete_allowlist"@ {
        Some(Operation::DeleteFilterList)
    } else if name == "list_upstreams"@ {
        Some(Operation::ListUpstreams)
    } else if name == "list_upstreams_presented"@ {
        Some(Operation::ListUpstreams)
    } else if name == "add_upstream"@ {
        Some(Operation::AddUpstream)
    } else if name == "update_upstream"@ {
        Some(Operation::UpdateUpstream)
    } else if name == "delete_upstream"@ {
        Some(Operation::DeleteUpstream)
    } else if name == "list_zone_configs"@ {
        Some(Operation::ListZoneConfigs)
    } else if name == "add_zone"@ {
        Some(Operation::AddZone)
    } else if name == "update_zone"@ {
        Some(Operation::UpdateZone)
    } else if name == "delete_zone"@ {
        Some(Operation::DeleteZone)
    } else if name == "list_zone_discovery"@ {
        Some(Operation::ListZoneDiscovery)
    } else if name == "add_zone_discovery"@ {
        Some(Operation::AddZoneDiscovery)
    } else if name == "update_zone_discovery"@ {
        Some(Operation::UpdateZoneDiscovery)
    } else if name == "delete_zone_discovery"@ {
        Some(Operation::DeleteZoneDiscovery)
    } else {
        None
    }
}

/// The operation that a tool calls.
pub fn tool_operation(name: &str, call: ToolCall) -> (r: Option<Operation>)
    ensures
        r == called_by_tool(name@, call),
{
    if same(name, "dns_lookup") {
        Some(Operation::LookUp)
    } else if same(name, "filter_status") {
        Some(Operation::FilteringStatus)
    } else if same(name, "filter_toggle") {
        Some(Operation::SetFiltering(call.enabled))
    } else if same(name, "list_filters") {
        Some(Operation::ListFilters)
    } else if same(name, "refresh_lists") {
        if call.list_named {
            Some(Operation::RefreshList)
        } else {
            Some(Operation::RefreshAllLists)
        }
    } else if same(name, "get_stats") {
        Some(Operation::Stats)
    } else if same(name, "get_stats_presented") {
        Some(Operation::Stats)
    } else if same(name, "get_query_log") {
        Some(Operation::QueryLog)
    } else if same(name, "reload_config") {
        Some(Operation::Reload)
    } else if same(name, "server_health") {
        Some(Operation::Health)
    } else if same(name, "enable_list") {
        Some(Operation::EnableList)
    } else if same(name, "disable_list") {
        Some(Operation::DisableList)
    } else if same(name, "list_zones") {
        Some(Operation::ListZones)
    } else if same(name, "search_zone_records") {
        Some(Operation::SearchZones)
    } else if same(name, "list_blocklists") {
        Some(Operation::ListFilterLists(ListKind::Block))
    } else if same(name, "add_blocklist") {
        Some(Operation::AddFilterList(ListKind::Block))
    } else if same(name, "update_blocklist") {
        Some(Operation::UpdateFilterList)
    } else if same(name, "delete_blocklist") {
        Some(Operation::DeleteFilterList)
    } else if same(name, "list_allowlists") {
        Some(Operation::ListFilterLists(ListKind::Allow))
    } else if same(name, "add_allowlist") {
        Some(Operation::AddFilterList(ListKind::Allow))
    } else if same(name, "update_allowlist") {
        Some(Operation::UpdateFilterList)
    } else if same(name, "delete_allowlist") {
        Some(Operation::DeleteFilterList)
    } else if same(name, "list_upstreams") {
        Some(Operation::ListUpstreams)
    } else if same(name, "list_upstreams_presented") {
        Some(Operation::ListUpstreams)
    } else if same(name, "add_upstream") {
        Some(Operation::AddUpstream)
    } else if same(name, "update_upstream") {
        Some(Operation::UpdateUpstream)
    } else if same(name, "delete_upstream") {
        Some(Operation::DeleteUpstream)
    } else if same(name, "list_zone_configs") {
        Some(Operation::ListZoneConfigs)
    } else if same(name, "add_zone") {
        Some(Operation::AddZone)
    } else if same(name, "update_zone") {
        Some(Operation::UpdateZone)
    } else if same(name, "delete_zone") {
        Some(Operation::DeleteZone)
    } else if same(name, "list_zone_discovery") {
        Some(Operation::ListZoneDiscovery)
    } else if same(name, "add_zone_discovery") {
        Some(Operation::AddZoneDiscovery)
    } else if same(name, "update_zone_discovery") {
        Some(Operation::UpdateZoneDiscovery)
    } else if same(name, "delete_zone_discovery") {
        Some(Operation::DeleteZoneDiscovery)
    } else {
        None
    }
}

/// The endpoint of the API that calls an operation, where there is one.
pub open spec fn endpoint_for(operation: Operation) -> Option<Endpoint> {
    match operation {
        Operation::Health => Some(Endpoint::Health),
        Operation::Reload => Some(Endpoint::Reload),
        Operation::Stop => Some(Endpoint::Stop),
        Operation::SetFiltering(on) => if on {
            Some(Endpoint::FilteringEnable)
        } else {
            Some(Endpoint::FilteringDisable)
        },
        Operation::FilteringStatus => Some(Endpoint::FilteringStatus),
        Operation::ListFilters => Some(Endpoint::ListAll),
        Operation::RefreshAllLists => Some(Endpoint::RefreshAll),
        Operation::RefreshList => Some(Endpoint::RefreshList),
        Operation::EnableList => Some(Endpoint::EnableList),
        Operation::DisableList => Some(Endpoint::DisableList),
        Operation::Stats => Some(Endpoint::Stats),
        Operation::QueryLog => Some(Endpoint::QueryLog),
        Operation::ListFilterLists(ListKind::Block) => Some(Endpoint::ListBlocklists),
        Operation::ListFilterLists(ListKind::Allow) => Some(Endpoint::ListAllowlists),
        Operation::AddFilterList(ListKind::Block) => Some(Endpoint::AddBlocklist),
        Operation::AddFilterList(ListKind::Allow) => Some(Endpoint::AddAllowlist),
        Operation::UpdateFilterList => Some(Endpoint::UpdateBlocklist),
        Operation::DeleteFilterList => Some(Endpoint::DeleteBlocklist),
        Operation::GetResolverConfig => Some(Endpoint::GetResolverConfig),
        Operation::UpdateResolverConfig => Some(Endpoint::UpdateResolverConfig),
        Operation::ListUpstreams => Some(Endpoint::ListUpstreams),
        Operation::AddUpstream => Some(Endpoint::AddUpstream),
        Operation::UpdateUpstream => Some(Endpoint::UpdateUpstream),
        Operation::DeleteUpstream => Some(Endpoint::DeleteUpstream),
        Operation::ListZoneConfigs => Some(Endpoint::ListZones),
        Operation::AddZone => Some(Endpoint::AddZone),
        Operation::UpdateZone => Some(Endpoint::UpdateZone),
        Operation::DeleteZone => Some(Endpoint::DeleteZone),
        Operation::ListZoneDiscovery => Some(Endpoint::ListZoneDiscovery),
        Operation::AddZoneDiscovery => Some(Endpoint::AddZoneDiscovery),
        Operation::UpdateZoneDiscovery => Some(Endpoint::UpdateZoneDiscovery),
        Operation::DeleteZoneDiscovery => Some(Endpoint::DeleteZoneDiscovery),
        Operation::LookUp | Operation::ListZones | Operation::SearchZones => None,
    }
}

/// What a tool can do the API can do too, but for looking up names and searching the
/// records of zones; and no tool stops the server.
pub proof fn law_tools_do_what_the_api_does(name: Seq<char>, call: ToolCall)
    ensures
        called_by_tool(name, call) matches Some(operation) ==> {
            match endpoint_for(operation) {
                Some(endpoint) => called_by_endpoint(endpoint) == Some(operation),
                None => operation is LookUp || operation is ListZones || operation is SearchZones,
            }
        },
        called_by_tool(name, call) != Some(Operation::Stop),
{
}

// ---- inputs ----

/// What is to change about a filter list.
#[derive(Debug)]
pub struct UpdateFilterListInput {
    pub url: Option<String>,
    pub interval: Option<String>,
    pub enabled: Option<bool>,
    pub list_type: Option<String>,
}

/// The parameters of the tools that change a filter list.
#[derive(Debug)]
pub struct UpdateFilterListParams {
    pub name: String,
    pub url: Option<String>,
    pub interval: Option<String>,
    pub enabled: Option<bool>,
    pub list_type: Option<String>,
}

/// The list that the tools change, and how.
pub fn filter_list_update(p: UpdateFilterListParams) -> (r: (String, UpdateFilterListInput))
    ensures
        r.0 == p.name,
        r.1 == (UpdateFilterListInput {
            url: p.url,
            interval: p.interval,
            enabled: p.enabled,
            list_type: p.list_type,
        }),
{
    (
        p.name,
        UpdateFilterListInput {
            url: p.url,
            interval: p.interval,
            enabled: p.enabled,
            list_type: p.list_type,
        },
    )
}

/// The parameters of the tool that adds an upstream server.
#[derive(Debug)]
pub struct AddUpstreamServerParams {
    pub enabled: Option<bool>,
    pub protocol: String,
    pub address: String,
    pub auth_token: Option<String>,
    pub auth_username: Option<String>,
    pub auth_password: Option<String>,
    pub max_hops: Option<u8>,
    pub nameserver_ip_family: Option<String>,
    pub root_hints_path: Option<String>,
    pub root_key_path: Option<String>,
    pub dnssec: Option<bool>,
    pub bind_address: Option<String>,
    pub fwmark: Option<u32>,
    pub sort_order: Option<i32>,
}

/// An upstream server that is to be created.
#[derive(Debug)]
pub struct CreateUpstreamServerInput {
    pub enabled: Option<bool>,
    pub protocol: String,
    pub address: String,
    pub authentication: Option<AuthenticationInput>,
    pub max_hops: Option<u8>,
    pub nameserver_ip_family: Option<String>,
    pub root_hints_path: Option<String>,
    pub root_key_path: Option<String>,
    pub dnssec: Option<bool>,
    pub bind_address: Option<String>,
    pub fwmark: Option<u32>,
    pub sort_order: Option<i32>,
}

/// Whether a server is the one that the tool adds.
pub open spec fn adds_upstream(p: AddUpstreamServerParams, r: CreateUpstreamServerInput) -> bool {
    r == CreateUpstreamServerInput {
        enabled: p.enabled,
        protocol: p.protocol,
        address: p.address,
        authentication: credentials(p.auth_token, p.auth_username, p.auth_password),
        max_hops: p.max_hops,
        nameserver_ip_family: p.nameserver_ip_family,
        root_hints_path: p.root_hints_path,
        root_key_path: p.root_key_path,
        dnssec: p.dnssec,
        bind_address: p.bind_address,
        fwmark: p.fwmark,
        sort_order: p.sort_order,
    }
}

/// The upstream server that the tool adds.
pub fn upstream_input(p: AddUpstreamServerParams) -> (r: CreateUpstreamServerInput)
    ensures
        adds_upstream(p, r),
        r == (CreateUpstreamServerInput {
            enabled: p.enabled,
            protocol: p.protocol,
            address: p.address,
            authentication: credentials(p.auth_token, p.auth_username, p.auth_password),
            max_hops: p.max_hops,
            nameserver_ip_family: p.nameserver_ip_family,
            root_hints_path: p.root_hints_path,
            root_key_path: p.root_key_path,
            dnssec: p.dnssec,
            bind_address: p.bind_address,
            fwmark: p.fwmark,
            sort_order: p.sort_order,
        }),
{
    let authentication = build_mcp_auth(p.auth_token, p.auth_username, p.auth_password);
    CreateUpstreamServerInput {
        enabled: p.enabled,
        protocol: p.protocol,
        address: p.address,
        authentication,
        max_hops: p.max_hops,
        nameserver_ip_family: p.nameserver_ip_family,
        root_hints_path: p.root_hints_path,
        root_key_path: p.root_key_path,
        dnssec: p.dnssec,
        bind_address: p.bind_address,
        fwmark: p.fwmark,
        sort_order: p.sort_order,
    }
}

/// The parameters of the tool that changes an upstream server. An inner `None` clears what is
/// stored.
#[derive(Debug)]
pub struct UpdateUpstreamServerParams {
    pub id: String,
    pub enabled: Option<bool>,
    pub protocol: Option<String>,
    pub address: Option<String>,
    pub auth_token: Option<String>,
    pub auth_username: Option<String>,
    pub auth_password: Option<String>,
    pub max_hops: Option<u8>,
    pub nameserver_ip_family: Option<String>,
    pub root_hints_path: Option<String>,
    pub root_key_path: Option<String>,
    pub dnssec: Option<bool>,
    pub bind_address: Option<Option<String>>,
    pub fwmark: Option<Option<u32>>,
    pub sort_order: Option<i32>,
}

/// What is to change about an upstream server.
#[derive(Debug)]
pub struct UpdateUpstreamServerInput {
    pub enabled: Option<bool>,
    pub protocol: Option<String>,
    pub address: Option<String>,
    pub authentication: Option<AuthenticationInput>,
    pub max_hops: Option<u8>,
    pub nameserver_ip_family: Option<String>,
    pub root_hints_path: Option<String>,
    pub root_key_path: Option<String>,
    pub dnssec: Option<bool>,
    pub bind_address: Option<Option<String>>,
    pub fwmark: Option<Option<u32>>,
    pub sort_order: Option<i32>,
}

/// Whether a server and its changes are those of the tool.
pub open spec fn changes_upstream(
    p: UpdateUpstreamServerParams,
    r: (String, UpdateUpstreamServerInput),
) -> bool {
    r.0 == p.id && r.1 == UpdateUpstreamServerInput {
        enabled: p.enabled,
        protocol: p.protocol,
        address: p.address,
        authentication: credentials(p.auth_token, p.auth_username, p.auth_password),
        max_hops: p.max_hops,
        nameserver_ip_family: p.nameserver_ip_family,
        root_hints_path: p.root_hints_path,
        root_key_path: p.root_key_path,
        dnssec: p.dnssec,
        bind_address: p.bind_address,
        fwmark: p.fwmark,
        sort_order: p.sort_order,
    }
}

/// The upstream server that the tool changes, and how.
pub fn upstream_update(p: UpdateUpstreamServerParams) -> (r: (String, UpdateUpstreamServerInput))
    ensures
        changes_upstream(p, r),
        r.0 == p.id,
        r.1 == (UpdateUpstreamServerInput {
            enabled: p.enabled,
            protocol: p.protocol,
            address: p.address,
            authentication: credentials(p.auth_token, p.auth_username, p.auth_password),
            max_hops: p.max_hops,
            nameserver_ip_family: p.nameserver_ip_family,
            root_hints_path: p.root_hints_path,
            root_key_path: p.root_key_path,
            dnssec: p.dnssec,
            bind_address: p.bind_address,
            fwmark: p.fwmark,
            sort_order: p.sort_order,
        }),
{
    let authentication = build_mcp_auth(p.auth_token, p.auth_username, p.auth_password);
    (
        p.id,
        UpdateUpstreamServerInput {
            enabled: p.enabled,
            protocol: p.protocol,
            address: p.address,
            authentication,
            max_hops: p.max_hops,
            nameserver_ip_family: p.nameserver_ip_family,
            root_hints_path: p.root_hints_path,
            root_key_path: p.root_key_path,
            dnssec: p.dnssec,
            bind_address: p.bind_address,
            fwmark: p.fwmark,
            sort_order: p.sort_order,
        },
    )
}

/// The parameters of the tool that adds a source of zones.
#[derive(Debug)]
pub struct AddZoneDiscoveryParams {
    pub address: String,
    pub enabled: Option<bool>,
    pub check_interval: Option<String>,
    pub allowed_types: Option<Vec<String>>,
    pub bypass_filter: Option<bool>,
    pub fallback_to_default_resolvers: Option<bool>,
    pub auth_token: Option<String>,
    pub auth_username: Option<String>,
    pub auth_password: Option<String>,
}

/// A source of zones that is to be created.
#[derive(Debug)]
pub struct CreateZoneDiscoveryInput {
    pub enabled: Option<bool>,
    pub address: String,
    pub check_interval: Option<String>,
    pub allowed_types: Option<Vec<String>>,
    pub bypass_filter: Option<bool>,
    pub fallback_to_default_resolvers: Option<bool>,
    pub authentication: Option<AuthenticationInput>,
}

/// Whether a source of zones is the one that the tool adds.
pub open spec fn adds_source(p: AddZoneDiscoveryParams, r: CreateZoneDiscoveryInput) -> bool {
    r == CreateZoneDiscoveryInput {
        enabled: p.enabled,
        address: p.address,
        check_interval: p.check_interval,
        allowed_types: p.allowed_types,
        bypass_filter: p.bypass_filter,
        fallback_to_default_resolvers: p.fallback_to_default_resolvers,
        authentication: credentials(p.auth_token, p.auth_username, p.auth_password),
    }
}

/// The source of zones that the tool adds.
pub fn zone_discovery_input(p: AddZoneDiscoveryParams) -> (r: CreateZoneDiscoveryInput)
    ensures
        adds_source(p, r),
        r == (CreateZoneDiscoveryInput {
            enabled: p.enabled,
            address: p.address,
            check_interval: p.check_interval,
            allowed_types: p.allowed_types,
            bypass_filter: p.bypass_filter,
            fallback_to_default_resolvers: p.fallback_to_default_resolvers,
            authentication: credentials(p.auth_token, p.auth_username, p.auth_password),
        }),
{
    let authentication = build_mcp_auth(p.auth_token, p.auth_username, p.auth_password);
    CreateZoneDiscoveryInput {
        enabled: p.enabled,
        address: p.address,
        check_interval: p.check_interval,
        allowed_types: p.allowed_types,
        bypass_filter: p.bypass_filter,
        fallback_to_default_resolvers: p.fallback_to_default_resolvers,
        authentication,
    }
}

/// The parameters of the tool that changes a source of zones.
#[derive(Debug)]
pub struct UpdateZoneDiscoveryParams {
    pub id: String,
    pub address: Option<String>,
    pub enabled: Option<bool>,
    pub check_interval: Option<String>,
    pub allowed_types: Option<Vec<String>>,
    pub bypass_filter: Option<bool>,
    pub fallback_to_default_resolvers: Option<bool>,
    pub auth_token: Option<String>,
    pub auth_username: Option<String>,
    pub auth_password: Option<String>,
}

/// What is to change about a source of zones.
#[derive(Debug)]
pub struct UpdateZoneDiscoveryInput {
    pub enabled: Option<bool>,
    pub address: Option<String>,
    pub check_interval: Option<String>,
    pub allowed_types: Option<Vec<String>>,
    pub bypass_filter: Option<bool>,
    pub fallback_to_default_resolvers: Option<bool>,
    pub authentication: Option<AuthenticationInput>,
}

/// Whether a source of zones and its changes are those of the tool.
pub open spec fn changes_source(
    p: UpdateZoneDiscoveryParams,
    r: (String, UpdateZoneDiscoveryInput),
) -> bool {
    r.0 == p.id && r.1 == UpdateZoneDiscoveryInput {
        enabled: p.enabled,
        address: p.address,
        check_interval: p.check_interval,
        allowed_types: p.allowed_types,
        bypass_filter: p.bypass_filter,
        fallback_to_default_resolvers: p.fallback_to_default_resolvers,
        authentication: credentials(p.auth_token, p.auth_username, p.auth_password),
    }
}

/// The source of zones that the tool changes, and how.
pub fn zone_discovery_update(p: UpdateZoneDiscoveryParams) -> (r: (String, UpdateZoneDiscoveryInput))
    ensures
        changes_source(p, r),
        r.0 == p.id,
        r.1 == (UpdateZoneDiscoveryInput {
            enabled: p.enabled,
            address: p.address,
            check_interval: p.check_interval,
            allowed_types: p.allowed_types,
            bypass_filter: p.bypass_filter,
            fallback_to_default_resolvers: p.fallback_to_default_resolvers,
            authentication: credentials(p.auth_token, p.auth_username, p.auth_password),
        }),
{
    let authentication = build_mcp_auth(p.auth_token, p.auth_username, p.auth_password);
    (
        p.id,
        UpdateZoneDiscoveryInput {
            enabled: p.enabled,
            address: p.address,
            check_interval: p.check_interval,
            allowed_types: p.allowed_types,
            bypass_filter: p.bypass_filter,
            fallback_to_default_resolvers: p.fallback_to_default_resolvers,
            authentication,
        },
    )
}

/// The parameters of the tools that add or change a zone.
#[derive(Debug)]
pub struct ZoneParams {
    pub zone: String,
    pub enabled: Option<bool>,
    pub bypass_filter: Option<bool>,
    pub fallback_to_default_resolvers: Option<bool>,
    pub strategy: Option<String>,
    pub servers: Option<Vec<McpZoneServerInput>>,
}

/// A zone that is to be created.
#[derive(Debug)]
pub struct CreateZoneInput {
    pub zone: String,
    pub enabled: Option<bool>,
    pub bypass_filter: Option<bool>,
    pub fallback_to_default_resolvers: Option<bool>,
    pub strategy: Option<String>,
    pub servers: Option<Vec<CreateZoneServerInput>>,
}

/// What is to change about a zone. Servers replace all that it has.
#[derive(Debug)]
pub struct UpdateZoneInput {
    pub enabled: Option<bool>,
    pub bypass_filter: Option<bool>,
    pub fallback_to_default_resolvers: Option<bool>,
    pub strategy: Option<String>,
    pub servers: Option<Vec<CreateZoneServerInput>>,
}

/// Whether a server is the one that a written one stands for.
pub open spec fn stands_for(s: McpZoneServerInput, r: CreateZoneServerInput) -> bool {
    r == CreateZoneServerInput {
        enabled: s.enabled,
        protocol: s.protocol,
        address: s.address,
        authentication: credentials(s.auth_token, s.auth_username, s.auth_password),
        check_interval: s.check_interval,
        max_hops: s.max_hops,
        nameserver_ip_family: s.nameserver_ip_family,
        root_hints_path: s.root_hints_path,
        root_key_path: s.root_key_path,
        dnssec: s.dnssec,
    }
}

/// Whether servers are those that written ones stand for, in their order.
pub open spec fn stand_for(
    written: Option<Vec<McpZoneServerInput>>,
    servers: Option<Vec<CreateZoneServerInput>>,
) -> bool {
    match (written, servers) {
        (None, None) => true,
        (Some(w), Some(s)) => w@.len() == s@.len() && forall|i: int|
            0 <= i < w@.len() ==> stands_for(w@[i], #[trigger] s@[i]),
        _ => false,
    }
}

fn zone_servers(written: Option<Vec<McpZoneServerInput>>) -> (r: Option<Vec<CreateZoneServerInput>>)
    ensures
        stand_for(written, r),
{
    match written {
        None => None,
        Some(list) => {
            let ghost all = list@;
            let mut rest = list;
            let mut out: Vec<CreateZoneServerInput> = Vec::new();
            while rest.len() > 0
                invariant
                    out@.len() + rest@.len() == all.len(),
                    rest@ == all.skip(out@.len() as int),
                    forall|i: int| 0 <= i < out@.len() ==> stands_for(all[i], #[trigger] out@[i]),
                decreases rest@.len(),
            {
                let ghost before = rest@;
                let ghost done: int = out@.len() as int;
                let server = rest.remove(0);
                assert(server == all[done]);
                assert(rest@ =~= all.skip(done + 1)) by {
                    assert(rest@ =~= before.skip(1));
                }
                out.push(mcp_server_to_input(server));
            }
            Some(out)
        },
    }
}

/// The zone that the tool adds.
pub fn zone_input(p: ZoneParams) -> (r: CreateZoneInput)
    ensures
        r.zone == p.zone,
        r.enabled == p.enabled,
        r.bypass_filter == p.bypass_filter,
        r.fallback_to_default_resolvers == p.fallback_to_default_resolvers,
        r.strategy == p.strategy,
        stand_for(p.servers, r.servers),
{
    CreateZoneInput {
        zone: p.zone,
        enabled: p.enabled,
        bypass_filter: p.bypass_filter,
        fallback_to_default_resolvers: p.fallback_to_default_resolvers,
        strategy: p.strategy,
        servers: zone_servers(p.servers),
    }
}

/// The zone that the tool changes, and how.
pub fn zone_update(p: ZoneParams) -> (r: (String, UpdateZoneInput))
    ensures
        r.0 == p.zone,
        r.1.enabled == p.enabled,
        r.1.bypass_filter == p.bypass_filter,
        r.1.fallback_to_default_resolvers == p.fallback_to_default_resolvers,
        r.1.strategy == p.strategy,
        stand_for(p.servers, r.1.servers),
{
    (
        p.zone,
        UpdateZoneInput {
            enabled: p.enabled,
            bypass_filter: p.bypass_filter,
            fallback_to_default_resolvers: p.fallback_to_default_resolvers,
            strategy: p.strategy,
            servers: zone_servers(p.servers),
        },
    )
}

// ---- the table of the API ----

/// Whether a request that is let in calls an operation, for an item.
pub open spec fn calls(
    method: HttpMethod,
    path: Seq<char>,
    operation: Operation,
    item: Option<Seq<char>>,
) -> bool {
    &&& route(method, path).0 matches Lookup::Found(e) && called_by_endpoint(e) == Some(operation)
    &&& route(method, path).1 == item
}

/// Whether a path does nothing with a method, but something with another.
pub open spec fn takes_other_methods(method: HttpMethod, path: Seq<char>) -> bool {
    route(method, path).0 == Lookup::OtherMethod
}

/// Whether a method reads.
pub open spec fn reads(method: HttpMethod) -> bool {
    method is Get || method is Head
}

proof fn lemma_paths_differ()
    ensures
        "/api/v1/filtering/enable"@ != "/api/v1/filtering/status"@,
        "/api/v1/lists"@ != "/api/v1/stats"@,
        "/api/v1/lists"@ != "/api/v1/zones"@,
        "/api/v1/stats"@ != "/api/v1/zones"@,
        "/api/v1/query-log"@ != "/api/v1/upstreams"@,
        "/api/v1/blocklists"@ != "/api/v1/allowlists"@,
{
    reveal_strlit("/api/v1/filtering/enable");
    reveal_strlit("/api/v1/filtering/status");
    reveal_strlit("/api/v1/lists");
    reveal_strlit("/api/v1/stats");
    reveal_strlit("/api/v1/query-log");
    reveal_strlit("/api/v1/blocklists");
    reveal_strlit("/api/v1/allowlists");
    reveal_strlit("/api/v1/upstreams");
    reveal_strlit("/api/v1/zones");
    assert("/api/v1/filtering/enable"@[18] != "/api/v1/filtering/status"@[18]);
    assert("/api/v1/lists"@[8] != "/api/v1/stats"@[8]);
    assert("/api/v1/lists"@[8] != "/api/v1/zones"@[8]);
    assert("/api/v1/stats"@[8] != "/api/v1/zones"@[8]);
    assert("/api/v1/query-log"@[8] != "/api/v1/upstreams"@[8]);
    assert("/api/v1/blocklists"@[8] != "/api/v1/allowlists"@[8]);
}

/// Reading a path tells what its name says, and changes nothing.
pub proof fn law_paths_are_read(method: HttpMethod)
    requires
        reads(method),
    ensures
        calls(method, "/health"@, Operation::Health, None),
        calls(method, "/api/v1/filtering/status"@, Operation::FilteringStatus, None),
        calls(method, "/api/v1/lists"@, Operation::ListFilters, None),
        calls(method, "/api/v1/stats"@, Operation::Stats, None),
        calls(method, "/api/v1/query-log"@, Operation::QueryLog, None),
        calls(
            method,
            "/api/v1/blocklists"@,
            Operation::ListFilterLists(ListKind::Block),
            None,
        ),
        calls(
            method,
            "/api/v1/allowlists"@,
            Operation::ListFilterLists(ListKind::Allow),
            None,
        ),
        calls(method, "/api/v1/resolver-config"@, Operation::GetResolverConfig, None),
        calls(method, "/api/v1/upstreams"@, Operation::ListUpstreams, None),
        calls(method, "/api/v1/zones"@, Operation::ListZoneConfigs, None),
        calls(method, "/api/v1/zone-discovery"@, Operation::ListZoneDiscovery, None),
        route(method, "/"@).0 == Lookup::Found(Endpoint::AdminPage),
        route(method, "/admin"@).0 == Lookup::Found(Endpoint::AdminPage),
        route(method, "/api/v1/openapi.json"@).0 == Lookup::Found(Endpoint::OpenApi),
        takes_other_methods(method, "/api/v1/reload"@),
        takes_other_methods(method, "/api/v1/stop"@),
        takes_other_methods(method, "/api/v1/filtering/disable"@),
        takes_other_methods(method, "/api/v1/filtering/enable"@),
        takes_other_methods(method, "/api/v1/lists/refresh"@),
{
    reveal_strlit("/");
    reveal_strlit("/admin");
    reveal_strlit("/health");
    reveal_strlit("/api/v1/reload");
    reveal_strlit("/api/v1/stop");
    reveal_strlit("/api/v1/filtering/disable");
    reveal_strlit("/api/v1/filtering/enable");
    reveal_strlit("/api/v1/filtering/status");
    reveal_strlit("/api/v1/lists");
    reveal_strlit("/api/v1/lists/refresh");
    reveal_strlit("/api/v1/stats");
    reveal_strlit("/api/v1/query-log");
    reveal_strlit("/api/v1/blocklists");
    reveal_strlit("/api/v1/allowlists");
    reveal_strlit("/api/v1/resolver-config");
    reveal_strlit("/api/v1/upstreams");
    reveal_strlit("/api/v1/zones");
    reveal_strlit("/api/v1/zone-discovery");
    reveal_strlit("/api/v1/openapi.json");
    lemma_paths_differ();
}

/// Posting to a path does what its name says: filtering is switched off where the path says
/// `disable` and on where it says `enable`, and what is posted to a collection is added to
/// that one.
pub proof fn law_paths_are_posted_to()
    ensures
        calls(HttpMethod::Post, "/api/v1/reload"@, Operation::Reload, None),
        calls(HttpMethod::Post, "/api/v1/stop"@, Operation::Stop, None),
        calls(
            HttpMethod::Post,
            "/api/v1/filtering/disable"@,
            Operation::SetFiltering(false),
            None,
        ),
        calls(HttpMethod::Post, "/api/v1/filtering/enable"@, Operation::SetFiltering(true), None),
        calls(HttpMethod::Post, "/api/v1/lists/refresh"@, Operation::RefreshAllLists, None),
        calls(
            HttpMethod::Post,
            "/api/v1/blocklists"@,
            Operation::AddFilterList(ListKind::Block),
            None,
        ),
        calls(
            HttpMethod::Post,
            "/api/v1/allowlists"@,
            Operation::AddFilterList(ListKind::Allow),
            None,
        ),
        calls(HttpMethod::Post, "/api/v1/upstreams"@, Operation::AddUpstream, None),
        calls(HttpMethod::Post, "/api/v1/zones"@, Operation::AddZone, None),
        calls(HttpMethod::Post, "/api/v1/zone-discovery"@, Operation::AddZoneDiscovery, None),
        calls(HttpMethod::Put, "/api/v1/resolver-config"@, Operation::UpdateResolverConfig, None),
        takes_other_methods(HttpMethod::Post, "/"@),
        takes_other_methods(HttpMethod::Post, "/admin"@),
        takes_other_methods(HttpMethod::Post, "/health"@),
        takes_other_methods(HttpMethod::Post, "/api/v1/filtering/status"@),
        takes_other_methods(HttpMethod::Post, "/api/v1/lists"@),
        takes_other_methods(HttpMethod::Post, "/api/v1/stats"@),
        takes_other_methods(HttpMethod::Post, "/api/v1/query-log"@),
        takes_other_methods(HttpMethod::Post, "/api/v1/resolver-config"@),
        takes_other_methods(HttpMethod::Post, "/api/v1/openapi.json"@),
{
    reveal_strlit("/");
    reveal_strlit("/admin");
    reveal_strlit("/health");
    reveal_strlit("/api/v1/reload");
    reveal_strlit("/api/v1/stop");
    reveal_strlit("/api/v1/filtering/disable");
    reveal_strlit("/api/v1/filtering/enable");
    reveal_strlit("/api/v1/filtering/status");
    reveal_strlit("/api/v1/lists");
    reveal_strlit("/api/v1/lists/refresh");
    reveal_strlit("/api/v1/stats");
    reveal_strlit("/api/v1/query-log");
    reveal_strlit("/api/v1/blocklists");
    reveal_strlit("/api/v1/allowlists");
    reveal_strlit("/api/v1/resolver-config");
    reveal_strlit("/api/v1/upstreams");
    reveal_strlit("/api/v1/zones");
    reveal_strlit("/api/v1/zone-discovery");
    reveal_strlit("/api/v1/openapi.json");
    lemma_paths_differ();
}

/// Whether an operation leaves the server as it is.
pub open spec fn only_tells(operation: Operation) -> bool {
    match operation {
        Operation::Health
        | Operation::FilteringStatus
        | Operation::ListFilters
        | Operation::Stats
        | Operation::QueryLog
        | Operation::ListFilterLists(_)
        | Operation::GetResolverConfig
        | Operation::ListUpstreams
        | Operation::ListZoneConfigs
        | Operation::ListZoneDiscovery
        | Operation::LookUp
        | Operation::ListZones
        | Operation::SearchZones => true,
        _ => false,
    }
}

/// At every path, reading calls only operations that leave the server as it is, and every
/// other method only ones that do not; what is removed is removed by `DELETE` alone, and
/// replaced by `PUT` alone.
pub proof fn law_methods_mean_what_they_say(method: HttpMethod, path: Seq<char>)
    ensures
        route(method, path).0 matches Lookup::Found(e) ==> {
            match called_by_endpoint(e) {
                Some(operation) => {
                    &&& only_tells(operation) <==> reads(method)
                    &&& (operation is DeleteFilterList || operation is DeleteUpstream || operation
                        is DeleteZone || operation is DeleteZoneDiscovery) <==> method is Delete
                    &&& (operation is UpdateFilterList || operation is UpdateUpstream || operation
                        is UpdateZone || operation is UpdateZoneDiscovery || operation
                        is UpdateResolverConfig) <==> method is Put
                },
                None => reads(method),
            }
        },
{
}

proof fn lemma_parts_of_path(collection: Seq<char>, rest: Seq<char>)
    requires
        !collection.contains('/'),
    ensures
        split("/api/v1/"@ + collection + "/"@ + rest, '/') == seq![
            Seq::<char>::empty(),
            "api"@,
            "v1"@,
            collection,
        ] + split(rest, '/'),
{
    reveal_strlit("/api/v1/");
    reveal_strlit("/");
    reveal_strlit("api");
    reveal_strlit("v1");
    let none = Seq::<char>::empty();
    let p3 = collection + seq!['/'] + rest;
    let p2 = "v1"@ + seq!['/'] + p3;
    let p1 = "api"@ + seq!['/'] + p2;
    let p0 = none + seq!['/'] + p1;
    assert(p0 =~= "/api/v1/"@ + collection + "/"@ + rest);
    law_text_is_parted_at_the_separator(collection, '/', rest);
    law_text_is_parted_at_the_separator("v1"@, '/', p3);
    law_text_is_parted_at_the_separator("api"@, '/', p2);
    law_text_is_parted_at_the_separator(none, '/', p1);
    assert(split(p0, '/') =~= seq![none, "api"@, "v1"@, collection] + split(rest, '/'));
}

/// The operations that replace and remove an item of a collection, by the name that the
/// collection has in a path.
pub open spec fn item_operations(collection: Seq<char>) -> Option<(Operation, Operation)> {
    if collection == "blocklists"@ || collection == "allowlists"@ {
        Some((Operation::UpdateFilterList, Operation::DeleteFilterList))
    } else if collection == "upstreams"@ {
        Some((Operation::UpdateUpstream, Operation::DeleteUpstream))
    } else if collection == "zones"@ {
        Some((Operation::UpdateZone, Operation::DeleteZone))
    } else if collection == "zone-discovery"@ {
        Some((Operation::UpdateZoneDiscovery, Operation::DeleteZoneDiscovery))
    } else {
        None
    }
}

/// What follows the name of a collection names an item of it, which is replaced by `PUT`,
/// removed by `DELETE`, and not touched by anything else.
pub proof fn law_items_are_named_in_the_path(
    method: HttpMethod,
    collection: Seq<char>,
    item: Seq<char>,
)
    requires
        item_operations(collection) is Some,
        item.len() > 0,
        !item.contains('/'),
    ensures
        ({
            let path = "/api/v1/"@ + collection + "/"@ + item;
            let (replaces, removes) = item_operations(collection)->0;
            &&& method is Put ==> calls(method, path, replaces, Some(item))
            &&& method is Delete ==> calls(method, path, removes, Some(item))
            &&& !(method is Put || method is Delete) ==> takes_other_methods(method, path)
        }),
{
    reveal_strlit("blocklists");
    reveal_strlit("allowlists");
    reveal_strlit("upstreams");
    reveal_strlit("zones");
    reveal_strlit("zone-discovery");
    let path = "/api/v1/"@ + collection + "/"@ + item;
    assert(plain_route(method, path) == Lookup::Unknown) by {
        reveal_strlit("/api/v1/");
        lemma_no_plain_path(method, path, collection, item);
    }
    lemma_parts_of_path(collection, item);
    law_text_is_parted_at_the_separator(item, '/', item);
    let parts = split(path, '/');
    assert(parts =~= seq![Seq::<char>::empty(), "api"@, "v1"@, collection, item]);
}

proof fn lemma_no_plain_path(
    method: HttpMethod,
    path: Seq<char>,
    collection: Seq<char>,
    rest: Seq<char>,
)
    requires
        path == "/api/v1/"@ + collection + "/"@ + rest,
        item_operations(collection) is Some || (collection == "lists"@ && rest != "refresh"@),
        rest.len() > 0,
    ensures
        plain_route(method, path) == Lookup::Unknown,
{
    reveal_strlit("blocklists");
    reveal_strlit("allowlists");
    reveal_strlit("upstreams");
    reveal_strlit("zones");
    reveal_strlit("zone-discovery");
    reveal_strlit("lists");
    reveal_strlit("refresh");
    reveal_strlit("/api/v1/");
    reveal_strlit("/");
    reveal_strlit("/admin");
    reveal_strlit("/health");
    reveal_strlit("/api/v1/reload");
    reveal_strlit("/api/v1/stop");
    reveal_strlit("/api/v1/filtering/disable");
    reveal_strlit("/api/v1/filtering/enable");
    reveal_strlit("/api/v1/filtering/status");
    reveal_strlit("/api/v1/lists");
    reveal_strlit("/api/v1/lists/refresh");
    reveal_strlit("/api/v1/stats");
    reveal_strlit("/api/v1/query-log");
    reveal_strlit("/api/v1/blocklists");
    reveal_strlit("/api/v1/allowlists");
    reveal_strlit("/api/v1/resolver-config");
    reveal_strlit("/api/v1/upstreams");
    reveal_strlit("/api/v1/zones");
    reveal_strlit("/api/v1/zone-discovery");
    reveal_strlit("/api/v1/openapi.json");
    let k = 8 + collection.len();
    assert(path[8] == collection[0]);
    assert(path[9] == collection[1]);
    assert(path[10] == collection[2]);
    assert(path[11] == collection[3]);
    assert(path[12] == collection[4]);
    assert(path[k as int] == '/');
    assert(path.skip(k as int + 1) =~= rest);
    if path == "/api/v1/lists/refresh"@ {
        assert(path.skip(14) =~= "refresh"@);
    }
}

/// The operation on one filter list that an action in a path stands for.
pub open spec fn list_operation(action: Seq<char>) -> Option<Operation> {
    if action == "refresh"@ {
        Some(Operation::RefreshList)
    } else if action == "disable"@ {
        Some(Operation::DisableList)
    } else if action == "enable"@ {
        Some(Operation::EnableList)
    } else {
        None
    }
}

/// An action on one filter list is posted to the path that names the list and then the
/// action.
pub proof fn law_list_actions_are_named_in_the_path(
    method: HttpMethod,
    name: Seq<char>,
    action: Seq<char>,
)
    requires
        list_operation(action) is Some,
        !name.contains('/'),
    ensures
        ({
            let path = "/api/v1/lists/"@ + name + "/"@ + action;
            &&& method is Post ==> calls(method, path, list_operation(action)->0, Some(name))
            &&& !(method is Post) ==> takes_other_methods(method, path)
        }),
{
    reveal_strlit("lists");
    reveal_strlit("/api/v1/");
    reveal_strlit("/api/v1/lists/");
    reveal_strlit("/");
    reveal_strlit("refresh");
    reveal_strlit("disable");
    reveal_strlit("enable");
    let path = "/api/v1/lists/"@ + name + "/"@ + action;
    let rest = name + "/"@ + action;
    assert(path =~= "/api/v1/"@ + "lists"@ + "/"@ + rest);
    assert(rest =~= name + seq!['/'] + action);
    if rest == "refresh"@ {
        assert(rest[name.len() as int] == '/');
    }
    lemma_no_plain_path(method, path, "lists"@, rest);
    lemma_parts_of_path("lists"@, rest);
    law_text_is_parted_at_the_separator(name, '/', action);
    law_text_is_parted_at_the_separator(action, '/', action);
    let parts = split(path, '/');
    assert(parts =~= seq![Seq::<char>::empty(), "api"@, "v1"@, "lists"@, name, action]);
}

/// An operation that is about no single item is called at its own path and nowhere else; in
/// particular nothing but the path that says so switches filtering, reloads or stops.
pub proof fn law_operations_have_one_path(
    method: HttpMethod,
    path: Seq<char>,
    operation: Operation,
    item: Option<Seq<char>>,
)
    requires
        calls(method, path, operation, item),
    ensures
        match operation {
            Operation::Reload => path == "/api/v1/reload"@ && item is None,
            Operation::Stop => path == "/api/v1/stop"@ && item is None,
            Operation::SetFiltering(true) => path == "/api/v1/filtering/enable"@ && item is None,
            Operation::SetFiltering(false) => path == "/api/v1/filtering/disable"@ && item is None,
            Operation::FilteringStatus => path == "/api/v1/filtering/status"@ && item is None,
            Operation::ListFilters => path == "/api/v1/lists"@ && item is None,
            Operation::RefreshAllLists => path == "/api/v1/lists/refresh"@ && item is None,
            Operation::Stats => path == "/api/v1/stats"@ && item is None,
            Operation::QueryLog => path == "/api/v1/query-log"@ && item is None,
            Operation::ListFilterLists(ListKind::Block) => path == "/api/v1/blocklists"@ && item is None,
            Operation::AddFilterList(ListKind::Block) => path == "/api/v1/blocklists"@ && item is None,
            Operation::ListFilterLists(ListKind::Allow) => path == "/api/v1/allowlists"@ && item is None,
            Operation::AddFilterList(ListKind::Allow) => path == "/api/v1/allowlists"@ && item is None,
            Operation::GetResolverConfig => path == "/api/v1/resolver-config"@ && item is None,
            Operation::UpdateResolverConfig => path == "/api/v1/resolver-config"@ && item is None,
            Operation::ListUpstreams => path == "/api/v1/upstreams"@ && item is None,
            Operation::AddUpstream => path == "/api/v1/upstreams"@ && item is None,
            Operation::ListZoneConfigs => path == "/api/v1/zones"@ && item is None,
            Operation::AddZone => path == "/api/v1/zones"@ && item is None,
            Operation::ListZoneDiscovery => path == "/api/v1/zone-discovery"@ && item is None,
            Operation::AddZoneDiscovery => path == "/api/v1/zone-discovery"@ && item is None,
            Operation::Health => path == "/health"@ && item is None,
            _ => item is Some && route(method, path).0 != plain_route(method, path),
        },
{
}

/// Methods that a path without an item does not take are told so.
pub proof fn law_other_methods_are_told_so(method: HttpMethod)
    requires
        method is Put || method is Delete || method is Other,
    ensures
        takes_other_methods(method, "/"@),
        takes_other_methods(method, "/admin"@),
        takes_other_methods(method, "/health"@),
        takes_other_methods(method, "/api/v1/reload"@),
        takes_other_methods(method, "/api/v1/stop"@),
        takes_other_methods(method, "/api/v1/filtering/disable"@),
        takes_other_methods(method, "/api/v1/filtering/enable"@),
        takes_other_methods(method, "/api/v1/filtering/status"@),
        takes_other_methods(method, "/api/v1/lists"@),
        takes_other_methods(method, "/api/v1/lists/refresh"@),
        takes_other_methods(method, "/api/v1/stats"@),
        takes_other_methods(method, "/api/v1/query-log"@),
        takes_other_methods(method, "/api/v1/blocklists"@),
        takes_other_methods(method, "/api/v1/allowlists"@),
        !(method is Put) ==> takes_other_methods(method, "/api/v1/resolver-config"@),
        takes_other_methods(method, "/api/v1/upstreams"@),
        takes_other_methods(method, "/api/v1/zones"@),
        takes_other_methods(method, "/api/v1/zone-discovery"@),
        takes_other_methods(method, "/api/v1/openapi.json"@),
{
    reveal_strlit("/");
    reveal_strlit("/admin");
    reveal_strlit("/health");
    reveal_strlit("/api/v1/reload");
    reveal_strlit("/api/v1/stop");
    reveal_strlit("/api/v1/filtering/disable");
    reveal_strlit("/api/v1/filtering/enable");
    reveal_strlit("/api/v1/filtering/status");
    reveal_strlit("/api/v1/lists");
    reveal_strlit("/api/v1/lists/refresh");
    reveal_strlit("/api/v1/stats");
    reveal_strlit("/api/v1/query-log");
    reveal_strlit("/api/v1/blocklists");
    reveal_strlit("/api/v1/allowlists");
    reveal_strlit("/api/v1/resolver-config");
    reveal_strlit("/api/v1/upstreams");
    reveal_strlit("/api/v1/zones");
    reveal_strlit("/api/v1/zone-discovery");
    reveal_strlit("/api/v1/openapi.json");
    lemma_paths_differ();
}

proof fn lemma_tool_lengths()
    ensures
        "dns_lookup"@.len() == 10,
        "filter_status"@.len() == 13,
        "filter_toggle"@.len() == 13,
        "list_filters"@.len() == 12,
        "refresh_lists"@.len() == 13,
        "get_stats"@.len() == 9,
        "get_stats_presented"@.len() == 19,
        "get_query_log"@.len() == 13,
        "reload_config"@.len() == 13,
        "server_health"@.len() == 13,
        "enable_list"@.len() == 11,
        "disable_list"@.len() == 12,
        "list_zones"@.len() == 10,
        "search_zone_records"@.len() == 19,
        "list_blocklists"@.len() == 15,
        "add_blocklist"@.len() == 13,
        "update_blocklist"@.len() == 16,
        "delete_blocklist"@.len() == 16,
        "list_allowlists"@.len() == 15,
        "add_allowlist"@.len() == 13,
        "update_allowlist"@.len() == 16,
        "delete_allowlist"@.len() == 16,
        "list_upstreams"@.len() == 14,
        "list_upstreams_presented"@.len() == 24,
        "add_upstream"@.len() == 12,
        "update_upstream"@.len() == 15,
        "delete_upstream"@.len() == 15,
        "list_zone_configs"@.len() == 17,
        "add_zone"@.len() == 8,
        "update_zone"@.len() == 11,
        "delete_zone"@.len() == 11,
        "list_zone_discovery"@.len() == 19,
        "add_zone_discovery"@.len() == 18,
        "update_zone_discovery"@.len() == 21,
        "delete_zone_discovery"@.len() == 21,
{
    reveal_strlit("dns_lookup");
    reveal_strlit("filter_status");
    reveal_strlit("filter_toggle");
    reveal_strlit("list_filters");
    reveal_strlit("refresh_lists");
    reveal_strlit("get_stats");
    reveal_strlit("get_stats_presented");
    reveal_strlit("get_query_log");
    reveal_strlit("reload_config");
    reveal_strlit("server_health");
    reveal_strlit("enable_list");
    reveal_strlit("disable_list");
    reveal_strlit("list_zones");
    reveal_strlit("search_zone_records");
    reveal_strlit("list_blocklists");
    reveal_strlit("add_blocklist");
    reveal_strlit("update_blocklist");
    reveal_strlit("delete_blocklist");
    reveal_strlit("list_allowlists");
    reveal_strlit("add_allowlist");
    reveal_strlit("update_allowlist");
    reveal_strlit("delete_allowlist");
    reveal_strlit("list_upstreams");
    reveal_strlit("list_upstreams_presented");
    reveal_strlit("add_upstream");
    reveal_strlit("update_upstream");
    reveal_strlit("delete_upstream");
    reveal_strlit("list_zone_configs");
    reveal_strlit("add_zone");
    reveal_strlit("update_zone");
    reveal_strlit("delete_zone");
    reveal_strlit("list_zone_discovery");
    reveal_strlit("add_zone_discovery");
    reveal_strlit("update_zone_discovery");
    reveal_strlit("delete_zone_discovery");
}

proof fn lemma_tools_differ()
    ensures
        "dns_lookup"@ != "list_zones"@,
        "filter_status"@ != "filter_toggle"@,
        "filter_status"@ != "refresh_lists"@,
        "filter_status"@ != "get_query_log"@,
        "filter_status"@ != "reload_config"@,
        "filter_status"@ != "server_health"@,
        "filter_status"@ != "add_blocklist"@,
        "filter_status"@ != "add_allowlist"@,
        "filter_toggle"@ != "refresh_lists"@,
        "filter_toggle"@ != "get_query_log"@,
        "filter_toggle"@ != "reload_config"@,
        "filter_toggle"@ != "server_health"@,
        "filter_toggle"@ != "add_blocklist"@,
        "filter_toggle"@ != "add_allowlist"@,
        "list_filters"@ != "disable_list"@,
        "list_filters"@ != "add_upstream"@,
        "refresh_lists"@ != "get_query_log"@,
        "refresh_lists"@ != "reload_config"@,
        "refresh_lists"@ != "server_health"@,
        "refresh_lists"@ != "add_blocklist"@,
        "refresh_lists"@ != "add_allowlist"@,
        "get_stats_presented"@ != "search_zone_records"@,
        "get_stats_presented"@ != "list_zone_discovery"@,
        "get_query_log"@ != "reload_config"@,
        "get_query_log"@ != "server_health"@,
        "get_query_log"@ != "add_blocklist"@,
        "get_query_log"@ != "add_allowlist"@,
        "reload_config"@ != "server_health"@,
        "reload_config"@ != "add_blocklist"@,
        "reload_config"@ != "add_allowlist"@,
        "server_health"@ != "add_blocklist"@,
        "server_health"@ != "add_allowlist"@,
        "enable_list"@ != "update_zone"@,
        "enable_list"@ != "delete_zone"@,
        "disable_list"@ != "add_upstream"@,
        "search_zone_records"@ != "list_zone_discovery"@,
        "list_blocklists"@ != "list_allowlists"@,
        "list_blocklists"@ != "update_upstream"@,
        "list_blocklists"@ != "delete_upstream"@,
        "add_blocklist"@ != "add_allowlist"@,
        "update_blocklist"@ != "delete_blocklist"@,
        "update_blocklist"@ != "update_allowlist"@,
        "update_blocklist"@ != "delete_allowlist"@,
        "delete_blocklist"@ != "update_allowlist"@,
        "delete_blocklist"@ != "delete_allowlist"@,
        "list_allowlists"@ != "update_upstream"@,
        "list_allowlists"@ != "delete_upstream"@,
        "update_allowlist"@ != "delete_allowlist"@,
        "update_upstream"@ != "delete_upstream"@,
        "update_zone"@ != "delete_zone"@,
        "update_zone_discovery"@ != "delete_zone_discovery"@,
{
    reveal_strlit("dns_lookup");
    reveal_strlit("filter_status");
    reveal_strlit("filter_toggle");
    reveal_strlit("list_filters");
    reveal_strlit("refresh_lists");
    reveal_strlit("get_stats_presented");
    reveal_strlit("get_query_log");
    reveal_strlit("reload_config");
    reveal_strlit("server_health");
    reveal_strlit("enable_list");
    reveal_strlit("disable_list");
    reveal_strlit("list_zones");
    reveal_strlit("search_zone_records");
    reveal_strlit("list_blocklists");
    reveal_strlit("add_blocklist");
    reveal_strlit("update_blocklist");
    reveal_strlit("delete_blocklist");
    reveal_strlit("list_allowlists");
    reveal_strlit("add_allowlist");
    reveal_strlit("update_allowlist");
    reveal_strlit("delete_allowlist");
    reveal_strlit("add_upstream");
    reveal_strlit("update_upstream");
    reveal_strlit("delete_upstream");
    reveal_strlit("update_zone");
    reveal_strlit("delete_zone");
    reveal_strlit("list_zone_discovery");
    reveal_strlit("update_zone_discovery");
    reveal_strlit("delete_zone_discovery");
    assert("dns_lookup"@[0] != "list_zones"@[0]);
    assert("filter_status"@[7] != "filter_toggle"@[7]);
    assert("filter_status"@[0] != "refresh_lists"@[0]);
    assert("filter_status"@[0] != "get_query_log"@[0]);
    assert("filter_status"@[0] != "reload_config"@[0]);
    assert("filter_status"@[0] != "server_health"@[0]);
    assert("filter_status"@[0] != "add_blocklist"@[0]);
    assert("filter_status"@[0] != "add_allowlist"@[0]);
    assert("filter_toggle"@[0] != "refresh_lists"@[0]);
    assert("filter_toggle"@[0] != "get_query_log"@[0]);
    assert("filter_toggle"@[0] != "reload_config"@[0]);
    assert("filter_toggle"@[0] != "server_health"@[0]);
    assert("filter_toggle"@[0] != "add_blocklist"@[0]);
    assert("filter_toggle"@[0] != "add_allowlist"@[0]);
    assert("list_filters"@[0] != "disable_list"@[0]);
    assert("list_filters"@[0] != "add_upstream"@[0]);
    assert("refresh_lists"@[0] != "get_query_log"@[0]);
    assert("refresh_lists"@[2] != "reload_config"@[2]);
    assert("refresh_lists"@[0] != "server_health"@[0]);
    assert("refresh_lists"@[0] != "add_blocklist"@[0]);
    assert("refresh_lists"@[0] != "add_allowlist"@[0]);
    assert("get_stats_presented"@[0] != "search_zone_records"@[0]);
    assert("get_stats_presented"@[0] != "list_zone_discovery"@[0]);
    assert("get_query_log"@[0] != "reload_config"@[0]);
    assert("get_query_log"@[0] != "server_health"@[0]);
    assert("get_query_log"@[0] != "add_blocklist"@[0]);
    assert("get_query_log"@[0] != "add_allowlist"@[0]);
    assert("reload_config"@[0] != "server_health"@[0]);
    assert("reload_config"@[0] != "add_blocklist"@[0]);
    assert("reload_config"@[0] != "add_allowlist"@[0]);
    assert("server_health"@[0] != "add_blocklist"@[0]);
    assert("server_health"@[0] != "add_allowlist"@[0]);
    assert("enable_list"@[0] != "update_zone"@[0]);
    assert("enable_list"@[0] != "delete_zone"@[0]);
    assert("disable_list"@[0] != "add_upstream"@[0]);
    assert("search_zone_records"@[0] != "list_zone_discovery"@[0]);
    assert("list_blocklists"@[5] != "list_allowlists"@[5]);
    assert("list_blocklists"@[0] != "update_upstream"@[0]);
    assert("list_blocklists"@[0] != "delete_upstream"@[0]);
    assert("add_blocklist"@[4] != "add_allowlist"@[4]);
    assert("update_blocklist"@[0] != "delete_blocklist"@[0]);
    assert("update_blocklist"@[7] != "update_allowlist"@[7]);
    assert("update_blocklist"@[0] != "delete_allowlist"@[0]);
    assert("delete_blocklist"@[0] != "update_allowlist"@[0]);
    assert("delete_blocklist"@[7] != "delete_allowlist"@[7]);
    assert("list_allowlists"@[0] != "update_upstream"@[0]);
    assert("list_allowlists"@[0] != "delete_upstream"@[0]);
    assert("update_allowlist"@[0] != "delete_allowlist"@[0]);
    assert("update_upstream"@[0] != "delete_upstream"@[0]);
    assert("update_zone"@[0] != "delete_zone"@[0]);
    assert("update_zone_discovery"@[0] != "delete_zone_discovery"@[0]);
}

/// The tools about the server do what they are called: the one that switches filtering
/// switches it as it is told, and lists are refreshed one by one where one is named.
pub proof fn law_tools_do_what_they_are_called(call: ToolCall)
    ensures
        called_by_tool("dns_lookup"@, call) == Some(Operation::LookUp),
        called_by_tool("filter_status"@, call) == Some(Operation::FilteringStatus),
        called_by_tool("filter_toggle"@, call) == Some(Operation::SetFiltering(call.enabled)),
        called_by_tool("list_filters"@, call) == Some(Operation::ListFilters),
        called_by_tool("refresh_lists"@, call) == if call.list_named {
            Some(Operation::RefreshList)
        } else {
            Some(Operation::RefreshAllLists)
        },
        called_by_tool("get_stats"@, call) == Some(Operation::Stats),
        called_by_tool("get_stats_presented"@, call) == Some(Operation::Stats),
        called_by_tool("get_query_log"@, call) == Some(Operation::QueryLog),
        called_by_tool("reload_config"@, call) == Some(Operation::Reload),
        called_by_tool("server_health"@, call) == Some(Operation::Health),
        called_by_tool("enable_list"@, call) == Some(Operation::EnableList),
        called_by_tool("disable_list"@, call) == Some(Operation::DisableList),
        called_by_tool("list_zones"@, call) == Some(Operation::ListZones),
        called_by_tool("search_zone_records"@, call) == Some(Operation::SearchZones),
{
    lemma_tool_lengths();
    lemma_tools_differ();
}

/// The tools that list, add, change and delete do so with the collection in their name.
pub proof fn law_collections_have_their_tools(call: ToolCall)
    ensures
        called_by_tool("list_blocklists"@, call) == Some(Operation::ListFilterLists(ListKind::Block)),
        called_by_tool("add_blocklist"@, call) == Some(Operation::AddFilterList(ListKind::Block)),
        called_by_tool("update_blocklist"@, call) == Some(Operation::UpdateFilterList),
        called_by_tool("delete_blocklist"@, call) == Some(Operation::DeleteFilterList),
        called_by_tool("list_allowlists"@, call) == Some(Operation::ListFilterLists(ListKind::Allow)),
        called_by_tool("add_allowlist"@, call) == Some(Operation::AddFilterList(ListKind::Allow)),
        called_by_tool("update_allowlist"@, call) == Some(Operation::UpdateFilterList),
        called_by_tool("delete_allowlist"@, call) == Some(Operation::DeleteFilterList),
        called_by_tool("list_upstreams"@, call) == Some(Operation::ListUpstreams),
        called_by_tool("list_upstreams_presented"@, call) == Some(Operation::ListUpstreams),
        called_by_tool("add_upstream"@, call) == Some(Operation::AddUpstream),
        called_by_tool("update_upstream"@, call) == Some(Operation::UpdateUpstream),
        called_by_tool("delete_upstream"@, call) == Some(Operation::DeleteUpstream),
        called_by_tool("list_zone_configs"@, call) == Some(Operation::ListZoneConfigs),
        called_by_tool("add_zone"@, call) == Some(Operation::AddZone),
        called_by_tool("update_zone"@, call) == Some(Operation::UpdateZone),
        called_by_tool("delete_zone"@, call) == Some(Operation::DeleteZone),
        called_by_tool("list_zone_discovery"@, call) == Some(Operation::ListZoneDiscovery),
        called_by_tool("add_zone_discovery"@, call) == Some(Operation::AddZoneDiscovery),
        called_by_tool("update_zone_discovery"@, call) == Some(Operation::UpdateZoneDiscovery),
        called_by_tool("delete_zone_discovery"@, call) == Some(Operation::DeleteZoneDiscovery),
{
    lemma_tool_lengths();
    lemma_tools_differ();
}

/// What a tool is told about a server of a zone is what is created, field by field.
pub proof fn law_zone_servers_keep_their_fields(s: McpZoneServerInput, r: CreateZoneServerInput)
    requires
        stands_for(s, r),
    ensures
        r.enabled == s.enabled,
        r.protocol == s.protocol && r.address == s.address,
        r.check_interval == s.check_interval,
        r.max_hops == s.max_hops,
        r.nameserver_ip_family == s.nameserver_ip_family,
        r.root_hints_path == s.root_hints_path && r.root_key_path == s.root_key_path,
        r.dnssec == s.dnssec,
        r.authentication matches Some(a) ==> a.token == s.auth_token && a.username
            == s.auth_username && a.password == s.auth_password,
        r.authentication is None <==> s.auth_token is None && s.auth_username is None
            && s.auth_password is None,
{
}

/// The servers of a zone stay in their order, and all of them stay; a zone that is told
/// nothing of servers keeps those that it has.
pub proof fn law_zone_servers_stay_in_order(
    written: Option<Vec<McpZoneServerInput>>,
    servers: Option<Vec<CreateZoneServerInput>>,
    i: int,
)
    requires
        stand_for(written, servers),
    ensures
        written is None <==> servers is None,
        written matches Some(w) ==> (servers matches Some(s) && s@.len() == w@.len() && (0 <= i
            < w@.len() ==> s@[i].address == w@[i].address && s@[i].protocol == w@[i].protocol
            && s@[i].enabled == w@[i].enabled)),
{
    if let (Some(w), Some(s)) = (written, servers) {
        if 0 <= i < w@.len() {
            assert(stands_for(w@[i], s@[i]));
        }
    }
}

/// A server that a tool adds has the fields that it was given.
pub proof fn law_added_upstreams_keep_their_fields(
    p: AddUpstreamServerParams,
    r: CreateUpstreamServerInput,
)
    requires
        adds_upstream(p, r),
    ensures
        r.enabled == p.enabled,
        r.protocol == p.protocol && r.address == p.address,
        r.max_hops == p.max_hops,
        r.nameserver_ip_family == p.nameserver_ip_family,
        r.root_hints_path == p.root_hints_path && r.root_key_path == p.root_key_path,
        r.dnssec == p.dnssec,
        r.bind_address == p.bind_address && r.fwmark == p.fwmark,
        r.sort_order == p.sort_order,
        r.authentication matches Some(a) ==> a.token == p.auth_token && a.username
            == p.auth_username && a.password == p.auth_password,
        r.authentication is None <==> p.auth_token is None && p.auth_username is None
            && p.auth_password is None,
{
}

/// A server that a tool changes is the one that it names, and changes in the fields that it
/// was given.
pub proof fn law_changed_upstreams_keep_their_fields(
    p: UpdateUpstreamServerParams,
    r: (String, UpdateUpstreamServerInput),
)
    requires
        changes_upstream(p, r),
    ensures
        r.0 == p.id,
        r.1.enabled == p.enabled,
        r.1.protocol == p.protocol && r.1.address == p.address,
        r.1.max_hops == p.max_hops,
        r.1.nameserver_ip_family == p.nameserver_ip_family,
        r.1.root_hints_path == p.root_hints_path && r.1.root_key_path == p.root_key_path,
        r.1.dnssec == p.dnssec,
        r.1.bind_address == p.bind_address && r.1.fwmark == p.fwmark,
        r.1.sort_order == p.sort_order,
        r.1.authentication matches Some(a) ==> a.token == p.auth_token && a.username
            == p.auth_username && a.password == p.auth_password,
        r.1.authentication is None <==> p.auth_token is None && p.auth_username is None
            && p.auth_password is None,
{
}

/// A source of zones that a tool adds or changes has the fields that it was given, and a
/// change is one of the source that it names.
pub proof fn law_zone_sources_keep_their_fields(
    p: AddZoneDiscoveryParams,
    r: CreateZoneDiscoveryInput,
    q: UpdateZoneDiscoveryParams,
    s: (String, UpdateZoneDiscoveryInput),
)
    requires
        adds_source(p, r),
        changes_source(q, s),
    ensures
        r.enabled == p.enabled && r.address == p.address && r.check_interval == p.check_interval,
        r.allowed_types == p.allowed_types && r.bypass_filter == p.bypass_filter,
        r.fallback_to_default_resolvers == p.fallback_to_default_resolvers,
        r.authentication matches Some(a) ==> a.token == p.auth_token && a.username
            == p.auth_username && a.password == p.auth_password,
        r.authentication is None <==> p.auth_token is None && p.auth_username is None
            && p.auth_password is None,
        s.0 == q.id,
        s.1.enabled == q.enabled && s.1.address == q.address && s.1.check_interval
            == q.check_interval,
        s.1.allowed_types == q.allowed_types && s.1.bypass_filter == q.bypass_filter,
        s.1.fallback_to_default_resolvers == q.fallback_to_default_resolvers,
        s.1.authentication matches Some(a) ==> a.token == q.auth_token && a.username
            == q.auth_username && a.password == q.auth_password,
        s.1.authentication is None <==> q.auth_token is None && q.auth_username is None
            && q.auth_password is None,
{
}

} // verus!
