//! The statements that read and write the records of the database.

use crate::database::records::{
    FilterCacheDocumentRecord, FilterListRecord, FilteringConfigRecord, ResolverConfigRecord,
    UpstreamServerRecord, ZoneDiscoveryRecord, ZoneRecord, ZoneServerRecord,
};
use crate::text::opt_text;
use vstd::prelude::*;

verus! {

/// A value that is bound to a statement.
#[derive(Debug, PartialEq, Eq)]
pub enum Param {
    Text(String),
    OptText(Option<String>),
    Integer(i64),
    OptInteger(Option<i64>),
    Flag(bool),
}

/// A value that is bound to a statement, with its text.
pub enum ParamView {
    Text(Seq<char>),
    OptText(Option<Seq<char>>),
    Integer(int),
    OptInteger(Option<int>),
    Flag(bool),
}

impl View for Param {
    type V = ParamView;

    open spec fn view(&self) -> ParamView {
        match self {
            Param::Text(t) => ParamView::Text(t@),
            Param::OptText(t) => ParamView::OptText(opt_text(*t)),
            Param::Integer(n) => ParamView::Integer(*n as int),
            Param::OptInteger(n) => ParamView::OptInteger(opt_int(*n)),
            Param::Flag(b) => ParamView::Flag(*b),
        }
    }
}

/// An optional number.
pub open spec fn opt_int(n: Option<i64>) -> Option<int> {
    match n {
        Some(x) => Some(x as int),
        None => None,
    }
}

/// An optional number of 32 bits.
pub open spec fn opt_int32(n: Option<i32>) -> Option<int> {
    match n {
        Some(x) => Some(x as int),
        None => None,
    }
}

/// A statement with the values that stand for its question marks, in their order.
#[derive(Debug)]
pub struct Statement {
    pub sql: &'static str,
    pub params: Vec<Param>,
    /// What is said where the statement fails.
    pub context: String,
}

/// A statement, with its texts.
#[verifier::ext_equal]
pub struct StatementView {
    pub sql: Seq<char>,
    pub params: Seq<ParamView>,
    pub context: Seq<char>,
}

/// Values with their texts.
pub open spec fn params_view(v: Seq<Param>) -> Seq<ParamView> {
    Seq::new(v.len(), |i: int| v[i]@)
}

impl View for Statement {
    type V = StatementView;

    open spec fn view(&self) -> StatementView {
        StatementView {
            sql: self.sql@,
            params: params_view(self.params@),
            context: self.context@,
        }
    }
}

/// What is said about something with a name: the name stands in quotes.
pub open spec fn about(what: Seq<char>, name: Seq<char>) -> Seq<char> {
    what + " '"@ + name + "'"@
}

/// What is said about something with a name: the name stands in quotes.
pub(crate) fn about_named(what: &str, name: &str) -> (r: String)
    ensures
        r@ == about(what@, name@),
{
    let mut m = what.to_owned();
    m.push_str(" '");
    m.push_str(name);
    m.push_str("'");
    m
}

fn text(s: &str) -> (r: Param)
    ensures
        r@ == ParamView::Text(s@),
{
    Param::Text(s.to_owned())
}

fn opt(s: &Option<String>) -> (r: Param)
    ensures
        r@ == ParamView::OptText(opt_text(*s)),
{
    match s {
        Some(t) => Param::OptText(Some(t.clone())),
        None => Param::OptText(None),
    }
}

fn number(n: i32) -> (r: Param)
    ensures
        r@ == ParamView::Integer(n as int),
{
    Param::Integer(n as i64)
}

fn opt_number(n: Option<i32>) -> (r: Param)
    ensures
        r@ == ParamView::OptInteger(opt_int32(n)),
{
    match n {
        Some(x) => Param::OptInteger(Some(x as i64)),
        None => Param::OptInteger(None),
    }
}

fn statement(sql: &'static str, params: Vec<Param>, context: &str) -> (r: Statement)
    ensures
        r@ == (StatementView { sql: sql@, params: params_view(params@), context: context@ }),
{
    Statement { sql, params, context: context.to_owned() }
}

// ---- filter lists ----

/// Adds a filter list.
pub open spec fn filter_list_insert(record: FilterListRecord) -> StatementView {
    StatementView {
        sql: "INSERT INTO filter_lists (id, name, kind, url, interval_seconds, enabled, list_type) VALUES (?, ?, ?, ?, ?, ?, ?)"@,
        params: seq![
            ParamView::Text(record.id@),
            ParamView::Text(record.name@),
            ParamView::Text(record.kind@),
            ParamView::Text(record.url@),
            ParamView::Integer(record.interval_seconds as int),
            ParamView::Flag(record.enabled),
            ParamView::Text(record.list_type@),
        ],
        context: about("failed to insert filter list"@, record.name@),
    }
}

/// Changes the filter list with the ID of a record.
pub open spec fn filter_list_update(record: FilterListRecord) -> StatementView {
    StatementView {
        sql: "UPDATE filter_lists SET name = ?, kind = ?, url = ?, interval_seconds = ?, enabled = ?, list_type = ? WHERE id = ?"@,
        params: seq![
            ParamView::Text(record.name@),
            ParamView::Text(record.kind@),
            ParamView::Text(record.url@),
            ParamView::Integer(record.interval_seconds as int),
            ParamView::Flag(record.enabled),
            ParamView::Text(record.list_type@),
            ParamView::Text(record.id@),
        ],
        context: about("failed to update filter list"@, record.name@),
    }
}

/// The statements for filter lists.
#[derive(Clone, Copy, Debug)]
pub struct SqlxFilterListRepository;

impl SqlxFilterListRepository {
    /// All filter lists, by their names.
    pub fn get_all() -> (r: Statement)
        ensures
            r@ == (StatementView {
                sql: "SELECT id, name, kind, url, interval_seconds, enabled, list_type FROM filter_lists ORDER BY name"@,
                params: seq![],
                context: "failed to fetch filter lists"@,
            }),
    {
        let s = statement(
            "SELECT id, name, kind, url, interval_seconds, enabled, list_type FROM filter_lists ORDER BY name",
            Vec::new(),
            "failed to fetch filter lists",
        );
        assert(s@.params =~= seq![]);
        s
    }

    /// The filter list with a name.
    pub fn get_by_name(name: &str) -> (r: Statement)
        ensures
            r@ == (StatementView {
                sql: "SELECT id, name, kind, url, interval_seconds, enabled, list_type FROM filter_lists WHERE name = ?"@,
                params: seq![ParamView::Text(name@)],
                context: "failed to fetch filter list by name"@,
            }),
    {
        let mut params: Vec<Param> = Vec::new();
        params.push(text(name));
        let s = statement(
            "SELECT id, name, kind, url, interval_seconds, enabled, list_type FROM filter_lists WHERE name = ?",
            params,
            "failed to fetch filter list by name",
        );
        assert(s@.params =~= seq![ParamView::Text(name@)]);
        s
    }

    /// Adds a filter list.
    pub fn create(record: &FilterListRecord) -> (r: Statement)
        ensures
            r@ == filter_list_insert(*record),
    {
        let mut params: Vec<Param> = Vec::new();
        params.push(text(record.id.as_str()));
        params.push(text(record.name.as_str()));
        params.push(text(record.kind.as_str()));
        params.push(text(record.url.as_str()));
        params.push(Param::Integer(record.interval_seconds));
        params.push(Param::Flag(record.enabled));
        params.push(text(record.list_type.as_str()));
        let s = statement(
            "INSERT INTO filter_lists (id, name, kind, url, interval_seconds, enabled, list_type) VALUES (?, ?, ?, ?, ?, ?, ?)",
            params,
            about_named("failed to insert filter list", record.name.as_str()).as_str(),
        );
        assert(s@ =~= filter_list_insert(*record));
        s
    }

    /// Changes the filter list with the ID of a record.
    pub fn update(record: &FilterListRecord) -> (r: Statement)
        ensures
            r@ == filter_list_update(*record),
    {
        let mut params: Vec<Param> = Vec::new();
        params.push(text(record.name.as_str()));
        params.push(text(record.kind.as_str()));
        params.push(text(record.url.as_str()));
        params.push(Param::Integer(record.interval_seconds));
        params.push(Param::Flag(record.enabled));
        params.push(text(record.list_type.as_str()));
        params.push(text(record.id.as_str()));
        let s = statement(
            "UPDATE filter_lists SET name = ?, kind = ?, url = ?, interval_seconds = ?, enabled = ?, list_type = ? WHERE id = ?",
            params,
            about_named("failed to update filter list", record.name.as_str()).as_str(),
        );
        assert(s@ =~= filter_list_update(*record));
        s
    }

    /// Deletes the filter list with an ID.
    pub fn delete(id: &str) -> (r: Statement)
        ensures
            r@ == (StatementView {
                sql: "DELETE FROM filter_lists WHERE id = ?"@,
                params: seq![ParamView::Text(id@)],
                context: about("failed to delete filter list"@, id@),
            }),
    {
        let mut params: Vec<Param> = Vec::new();
        params.push(text(id));
        let s = statement(
            "DELETE FROM filter_lists WHERE id = ?",
            params,
            about_named("failed to delete filter list", id).as_str(),
        );
        assert(s@.params =~= seq![ParamView::Text(id@)]);
        s
    }

    /// Switches the filter list with an ID on or off.
    pub fn set_enabled(id: &str, enabled: bool) -> (r: Statement)
        ensures
            r@ == (StatementView {
                sql: "UPDATE filter_lists SET enabled = ? WHERE id = ?"@,
                params: seq![ParamView::Flag(enabled), ParamView::Text(id@)],
                context: about(
                    if enabled {
                        "failed to set enabled=true for filter list"@
                    } else {
                        "failed to set enabled=false for filter list"@
                    },
                    id@,
                ),
            }),
    {
        let mut params: Vec<Param> = Vec::new();
        params.push(Param::Flag(enabled));
        params.push(text(id));
        let what = if enabled {
            "failed to set enabled=true for filter list"
        } else {
            "failed to set enabled=false for filter list"
        };
        let s = statement(
            "UPDATE filter_lists SET enabled = ? WHERE id = ?",
            params,
            about_named(what, id).as_str(),
        );
        assert(s@.params =~= seq![ParamView::Flag(enabled), ParamView::Text(id@)]);
        s
    }

    /// The number of filter lists.
    pub fn count() -> (r: Statement)
        ensures
            r@ == (StatementView {
                sql: "SELECT COUNT(*) FROM filter_lists"@,
                params: seq![],
                context: "failed to count filter lists"@,
            }),
    {
        let s = statement(
            "SELECT COUNT(*) FROM filter_lists",
            Vec::new(),
            "failed to count filter lists",
        );
        assert(s@.params =~= seq![]);
        s
    }
}

// ---- the filter cache ----

/// The kind of a database.
#[derive(Clone, Copy, Debug, PartialEq, Eq, Structural)]
pub enum Dialect {
    Sqlite,
    MySql,
    Postgres,
}

/// Puts a document into the cache in the place of one with its key.
pub open spec fn cache_upsert(record: FilterCacheDocumentRecord, dialect: Dialect) -> StatementView {
    StatementView {
        sql: match dialect {
            Dialect::Sqlite => "INSERT INTO filter_cache_documents (key, value) VALUES (?, ?) ON CONFLICT(key) DO UPDATE SET value = excluded.value"@,
            Dialect::MySql => "INSERT INTO filter_cache_documents (`key`, value) VALUES (?, ?) ON DUPLICATE KEY UPDATE value = VALUES(value)"@,
            Dialect::Postgres => "INSERT INTO filter_cache_documents (key, value) VALUES ($1, $2) ON CONFLICT(key) DO UPDATE SET value = EXCLUDED.value"@,
        },
        params: seq![ParamView::Text(record.key@), ParamView::Text(record.value@)],
        context: about("failed to upsert filter cache document"@, record.key@),
    }
}

/// The statements for the documents of the filter cache.
#[derive(Clone, Copy, Debug)]
pub struct SqlxFilterCacheRepository;

impl SqlxFilterCacheRepository {
    /// The document with a key.
    pub fn load(key: &str) -> (r: Statement)
        ensures
            r@ == (StatementView {
                sql: "SELECT key, value FROM filter_cache_documents WHERE key = ?"@,
                params: seq![ParamView::Text(key@)],
                context: "failed to load filter cache document"@,
            }),
    {
        let mut params: Vec<Param> = Vec::new();
        params.push(text(key));
        let s = statement(
            "SELECT key, value FROM filter_cache_documents WHERE key = ?",
            params,
            "failed to load filter cache document",
        );
        assert(s@.params =~= seq![ParamView::Text(key@)]);
        s
    }

    /// Puts a document into the cache in the place of one with its key.
    pub fn store(record: &FilterCacheDocumentRecord, dialect: Dialect) -> (r: Statement)
        ensures
            r@ == cache_upsert(*record, dialect),
    {
        let mut params: Vec<Param> = Vec::new();
        params.push(text(record.key.as_str()));
        params.push(text(record.value.as_str()));
        let sql = match dialect {
            Dialect::Sqlite => "INSERT INTO filter_cache_documents (key, value) VALUES (?, ?) ON CONFLICT(key) DO UPDATE SET value = excluded.value",
            Dialect::MySql => "INSERT INTO filter_cache_documents (`key`, value) VALUES (?, ?) ON DUPLICATE KEY UPDATE value = VALUES(value)",
            Dialect::Postgres => "INSERT INTO filter_cache_documents (key, value) VALUES ($1, $2) ON CONFLICT(key) DO UPDATE SET value = EXCLUDED.value",
        };
        let context = about_named("failed to upsert filter cache document", record.key.as_str());
        let s = statement(sql, params, context.as_str());
        assert(s@ =~= cache_upsert(*record, dialect));
        s
    }
}

// ---- how queries are filtered ----

/// Changes how queries are filtered.
pub open spec fn filtering_update(record: FilteringConfigRecord) -> StatementView {
    StatementView {
        sql: "UPDATE filtering_config SET sinkhole_ipv4 = ?, sinkhole_ipv6 = ?, any_query_policy = ? WHERE id = 1"@,
        params: seq![
            ParamView::Text(record.sinkhole_ipv4@),
            ParamView::Text(record.sinkhole_ipv6@),
            ParamView::Text(record.any_query_policy@),
        ],
        context: "failed to update filtering config"@,
    }
}

/// The statements for the way in which queries are filtered.
#[derive(Clone, Copy, Debug)]
pub struct SqlxFilteringConfigRepository;

impl SqlxFilteringConfigRepository {
    /// How queries are filtered.
    pub fn get() -> (r: Statement)
        ensures
            r@ == (StatementView {
                sql: "SELECT sinkhole_ipv4, sinkhole_ipv6, any_query_policy FROM filtering_config WHERE id = 1"@,
                params: seq![],
                context: "failed to fetch filtering config"@,
            }),
    {
        let s = statement(
            "SELECT sinkhole_ipv4, sinkhole_ipv6, any_query_policy FROM filtering_config WHERE id = 1",
            Vec::new(),
            "failed to fetch filtering config",
        );
        assert(s@.params =~= seq![]);
        s
    }

    /// Changes how queries are filtered.
    pub fn update(record: &FilteringConfigRecord) -> (r: Statement)
        ensures
            r@ == filtering_update(*record),
    {
        let mut params: Vec<Param> = Vec::new();
        params.push(text(record.sinkhole_ipv4.as_str()));
        params.push(text(record.sinkhole_ipv6.as_str()));
        params.push(text(record.any_query_policy.as_str()));
        let s = statement(
            "UPDATE filtering_config SET sinkhole_ipv4 = ?, sinkhole_ipv6 = ?, any_query_policy = ? WHERE id = 1",
            params,
            "failed to update filtering config",
        );
        assert(s@ =~= filtering_update(*record));
        s
    }
}

// ---- upstream servers ----

/// Changes how upstream servers are chosen.
pub open spec fn resolver_update(record: ResolverConfigRecord) -> StatementView {
    StatementView {
        sql: "UPDATE resolver_config SET strategy = ?, bootstrap_resolvers = ? WHERE id = 1"@,
        params: seq![
            ParamView::Text(record.strategy@),
            ParamView::Text(record.bootstrap_resolvers@),
        ],
        context: "failed to update resolver config"@,
    }
}

/// Adds an upstream server.
pub open spec fn upstream_insert(record: UpstreamServerRecord) -> StatementView {
    StatementView {
        sql: "INSERT INTO upstream_servers (id, enabled, protocol, address, auth_token, auth_username, auth_password, max_hops, nameserver_ip_family, root_hints_path, root_key_path, dnssec, sort_order) VALUES (?, ?, ?, ?, ?, ?, ?, ?, ?, ?, ?, ?, ?)"@,
        params: seq![
            ParamView::Text(record.id@),
            ParamView::Flag(record.enabled),
            ParamView::Text(record.protocol@),
            ParamView::Text(record.address@),
            ParamView::OptText(opt_text(record.auth_token)),
            ParamView::OptText(opt_text(record.auth_username)),
            ParamView::OptText(opt_text(record.auth_password)),
            ParamView::OptInteger(opt_int32(record.max_hops)),
            ParamView::OptText(opt_text(record.nameserver_ip_family)),
            ParamView::OptText(opt_text(record.root_hints_path)),
            ParamView::OptText(opt_text(record.root_key_path)),
            ParamView::Flag(record.dnssec),
            ParamView::Integer(record.sort_order as int),
        ],
        context: about("failed to insert upstream server"@, record.id@),
    }
}

/// The statements for upstream servers and how they are chosen.
#[derive(Clone, Copy, Debug)]
pub struct SqlxUpstreamConfigRepository;

impl SqlxUpstreamConfigRepository {
    /// How upstream servers are chosen.
    pub fn get_resolver_config() -> (r: Statement)
        ensures
            r@ == (StatementView {
                sql: "SELECT strategy, bootstrap_resolvers FROM resolver_config WHERE id = 1"@,
                params: seq![],
                context: "failed to fetch resolver config"@,
            }),
    {
        let s = statement(
            "SELECT strategy, bootstrap_resolvers FROM resolver_config WHERE id = 1",
            Vec::new(),
            "failed to fetch resolver config",
        );
        assert(s@.params =~= seq![]);
        s
    }

    /// Changes how upstream servers are chosen.
    pub fn update_resolver_config(record: &ResolverConfigRecord) -> (r: Statement)
        ensures
            r@ == resolver_update(*record),
    {
        let mut params: Vec<Param> = Vec::new();
        params.push(text(record.strategy.as_str()));
        params.push(text(record.bootstrap_resolvers.as_str()));
        let s = statement(
            "UPDATE resolver_config SET strategy = ?, bootstrap_resolvers = ? WHERE id = 1",
            params,
            "failed to update resolver config",
        );
        assert(s@ =~= resolver_update(*record));
        s
    }

    /// All upstream servers, in their order.
    pub fn get_all_servers() -> (r: Statement)
        ensures
            r@ == (StatementView {
                sql: "SELECT id, enabled, protocol, address, auth_token, auth_username, auth_password, max_hops, nameserver_ip_family, root_hints_path, root_key_path, dnssec, sort_order FROM upstream_servers ORDER BY sort_order, id"@,
                params: seq![],
                context: "failed to fetch upstream servers"@,
            }),
    {
        let s = statement(
            "SELECT id, enabled, protocol, address, auth_token, auth_username, auth_password, max_hops, nameserver_ip_family, root_hints_path, root_key_path, dnssec, sort_order FROM upstream_servers ORDER BY sort_order, id",
            Vec::new(),
            "failed to fetch upstream servers",
        );
        assert(s@.params =~= seq![]);
        s
    }

    /// Adds an upstream server.
    pub fn create_server(record: &UpstreamServerRecord) -> (r: Statement)
        ensures
            r@ == upstream_insert(*record),
    {
        let mut params: Vec<Param> = Vec::new();
        params.push(text(record.id.as_str()));
        params.push(Param::Flag(record.enabled));
        params.push(text(record.protocol.as_str()));
        params.push(text(record.address.as_str()));
        params.push(opt(&record.auth_token));
        params.push(opt(&record.auth_username));
        params.push(opt(&record.auth_password));
        params.push(opt_number(record.max_hops));
        params.push(opt(&record.nameserver_ip_family));
        params.push(opt(&record.root_hints_path));
        params.push(opt(&record.root_key_path));
        params.push(Param::Flag(record.dnssec));
        params.push(number(record.sort_order));
        let s = statement(
            "INSERT INTO upstream_servers (id, enabled, protocol, address, auth_token, auth_username, auth_password, max_hops, nameserver_ip_family, root_hints_path, root_key_path, dnssec, sort_order) VALUES (?, ?, ?, ?, ?, ?, ?, ?, ?, ?, ?, ?, ?)",
            params,
            about_named("failed to insert upstream server", record.id.as_str()).as_str(),
        );
        assert(s@ =~= upstream_insert(*record));
        s
    }

    /// Deletes all upstream servers.
    pub fn delete_all_servers() -> (r: Statement)
        ensures
            r@ == (StatementView {
                sql: "DELETE FROM upstream_servers"@,
                params: seq![],
                context: "failed to delete all upstream servers"@,
            }),
    {
        let s = statement(
            "DELETE FROM upstream_servers",
            Vec::new(),
            "failed to delete all upstream servers",
        );
        assert(s@.params =~= seq![]);
        s
    }
}

// ---- zones ----

/// Adds a zone without its servers.
pub open spec fn zone_insert(record: ZoneRecord) -> StatementView {
    StatementView {
        sql: "INSERT INTO zones (id, zone, enabled, bypass_filter, fallback_to_default_resolvers, strategy) VALUES (?, ?, ?, ?, ?, ?)"@,
        params: seq![
            ParamView::Text(record.id@),
            ParamView::Text(record.zone@),
            ParamView::Flag(record.enabled),
            ParamView::Flag(record.bypass_filter),
            ParamView::Flag(record.fallback_to_default_resolvers),
            ParamView::OptText(opt_text(record.strategy)),
        ],
        context: about("failed to insert zone"@, record.zone@),
    }
}

/// Adds a server to its zone.
pub open spec fn zone_server_insert(record: ZoneServerRecord) -> StatementView {
    StatementView {
        sql: "INSERT INTO zone_servers (id, zone_id, enabled, protocol, address, auth_token, auth_username, auth_password, check_interval, max_hops, nameserver_ip_family, root_hints_path, root_key_path, dnssec, sort_order) VALUES (?, ?, ?, ?, ?, ?, ?, ?, ?, ?, ?, ?, ?, ?, ?)"@,
        params: seq![
            ParamView::Text(record.id@),
            ParamView::Text(record.zone_id@),
            ParamView::Flag(record.enabled),
            ParamView::Text(record.protocol@),
            ParamView::Text(record.address@),
            ParamView::OptText(opt_text(record.auth_token)),
            ParamView::OptText(opt_text(record.auth_username)),
            ParamView::OptText(opt_text(record.auth_password)),
            ParamView::OptText(opt_text(record.check_interval)),
            ParamView::OptInteger(opt_int32(record.max_hops)),
            ParamView::OptText(opt_text(record.nameserver_ip_family)),
            ParamView::OptText(opt_text(record.root_hints_path)),
            ParamView::OptText(opt_text(record.root_key_path)),
            ParamView::Flag(record.dnssec),
            ParamView::Integer(record.sort_order as int),
        ],
        context: about("failed to insert zone server"@, record.id@),
    }
}

/// Changes the zone with the ID of a record.
pub open spec fn zone_update(record: ZoneRecord) -> StatementView {
    StatementView {
        sql: "UPDATE zones SET zone = ?, enabled = ?, bypass_filter = ?, fallback_to_default_resolvers = ?, strategy = ? WHERE id = ?"@,
        params: seq![
            ParamView::Text(record.zone@),
            ParamView::Flag(record.enabled),
            ParamView::Flag(record.bypass_filter),
            ParamView::Flag(record.fallback_to_default_resolvers),
            ParamView::OptText(opt_text(record.strategy)),
            ParamView::Text(record.id@),
        ],
        context: about("failed to update zone"@, record.zone@),
    }
}

/// The statements for zones and their servers.
#[derive(Clone, Copy, Debug)]
pub struct SqlxZoneRepository;

impl SqlxZoneRepository {
    /// All zones, by their names, without their servers.
    pub fn get_all_zones() -> (r: Statement)
        ensures
            r@ == (StatementView {
                sql: "SELECT id, zone, enabled, bypass_filter, fallback_to_default_resolvers, strategy FROM zones ORDER BY zone"@,
                params: seq![],
                context: "failed to fetch zones"@,
            }),
    {
        let s = statement(
            "SELECT id, zone, enabled, bypass_filter, fallback_to_default_resolvers, strategy FROM zones ORDER BY zone",
            Vec::new(),
            "failed to fetch zones",
        );
        assert(s@.params =~= seq![]);
        s
    }

    /// The servers of all zones, in their order.
    pub fn get_all_zone_servers() -> (r: Statement)
        ensures
            r@ == (StatementView {
                sql: "SELECT id, zone_id, enabled, protocol, address, auth_token, auth_username, auth_password, check_interval, max_hops, nameserver_ip_family, root_hints_path, root_key_path, dnssec, sort_order FROM zone_servers ORDER BY sort_order, id"@,
                params: seq![],
                context: "failed to fetch zone servers"@,
            }),
    {
        let s = statement(
            "SELECT id, zone_id, enabled, protocol, address, auth_token, auth_username, auth_password, check_interval, max_hops, nameserver_ip_family, root_hints_path, root_key_path, dnssec, sort_order FROM zone_servers ORDER BY sort_order, id",
            Vec::new(),
            "failed to fetch zone servers",
        );
        assert(s@.params =~= seq![]);
        s
    }

    /// The zone with a name, without its servers.
    pub fn get_by_zone(zone: &str) -> (r: Statement)
        ensures
            r@ == (StatementView {
                sql: "SELECT id, zone, enabled, bypass_filter, fallback_to_default_resolvers, strategy FROM zones WHERE zone = ?"@,
                params: seq![ParamView::Text(zone@)],
                context: "failed to fetch zone by name"@,
            }),
    {
        let mut params: Vec<Param> = Vec::new();
        params.push(text(zone));
        let s = statement(
            "SELECT id, zone, enabled, bypass_filter, fallback_to_default_resolvers, strategy FROM zones WHERE zone = ?",
            params,
            "failed to fetch zone by name",
        );
        assert(s@.params =~= seq![ParamView::Text(zone@)]);
        s
    }

    /// The servers of the zone with an ID, in their order.
    pub fn get_zone_servers(zone_id: &str) -> (r: Statement)
        ensures
            r@ == (StatementView {
                sql: "SELECT id, zone_id, enabled, protocol, address, auth_token, auth_username, auth_password, check_interval, max_hops, nameserver_ip_family, root_hints_path, root_key_path, dnssec, sort_order FROM zone_servers WHERE zone_id = ? ORDER BY sort_order, id"@,
                params: seq![ParamView::Text(zone_id@)],
                context: "failed to fetch zone servers"@,
            }),
    {
        let mut params: Vec<Param> = Vec::new();
        params.push(text(zone_id));
        let s = statement(
            "SELECT id, zone_id, enabled, protocol, address, auth_token, auth_username, auth_password, check_interval, max_hops, nameserver_ip_family, root_hints_path, root_key_path, dnssec, sort_order FROM zone_servers WHERE zone_id = ? ORDER BY sort_order, id",
            params,
            "failed to fetch zone servers",
        );
        assert(s@.params =~= seq![ParamView::Text(zone_id@)]);
        s
    }

    /// Adds a zone without its servers.
    pub fn create_zone(record: &ZoneRecord) -> (r: Statement)
        ensures
            r@ == zone_insert(*record),
    {
        let mut params: Vec<Param> = Vec::new();
        params.push(text(record.id.as_str()));
        params.push(text(record.zone.as_str()));
        params.push(Param::Flag(record.enabled));
        params.push(Param::Flag(record.bypass_filter));
        params.push(Param::Flag(record.fallback_to_default_resolvers));
        params.push(opt(&record.strategy));
        let s = statement(
            "INSERT INTO zones (id, zone, enabled, bypass_filter, fallback_to_default_resolvers, strategy) VALUES (?, ?, ?, ?, ?, ?)",
            params,
            about_named("failed to insert zone", record.zone.as_str()).as_str(),
        );
        assert(s@ =~= zone_insert(*record));
        s
    }

    /// Adds a server to its zone.
    pub fn create_zone_server(record: &ZoneServerRecord) -> (r: Statement)
        ensures
            r@ == zone_server_insert(*record),
    {
        let mut params: Vec<Param> = Vec::new();
        params.push(text(record.id.as_str()));
        params.push(text(record.zone_id.as_str()));
        params.push(Param::Flag(record.enabled));
        params.push(text(record.protocol.as_str()));
        params.push(text(record.address.as_str()));
        params.push(opt(&record.auth_token));
        params.push(opt(&record.auth_username));
        params.push(opt(&record.auth_password));
        params.push(opt(&record.check_interval));
        params.push(opt_number(record.max_hops));
        params.push(opt(&record.nameserver_ip_family));
        params.push(opt(&record.root_hints_path));
        params.push(opt(&record.root_key_path));
        params.push(Param::Flag(record.dnssec));
        params.push(number(record.sort_order));
        let s = statement(
            "INSERT INTO zone_servers (id, zone_id, enabled, protocol, address, auth_token, auth_username, auth_password, check_interval, max_hops, nameserver_ip_family, root_hints_path, root_key_path, dnssec, sort_order) VALUES (?, ?, ?, ?, ?, ?, ?, ?, ?, ?, ?, ?, ?, ?, ?)",
            params,
            about_named("failed to insert zone server", record.id.as_str()).as_str(),
        );
        assert(s@ =~= zone_server_insert(*record));
        s
    }

    /// Changes the zone with the ID of a record; its servers stay as they are.
    pub fn update_zone(record: &ZoneRecord) -> (r: Statement)
        ensures
            r@ == zone_update(*record),
    {
        let mut params: Vec<Param> = Vec::new();
        params.push(text(record.zone.as_str()));
        params.push(Param::Flag(record.enabled));
        params.push(Param::Flag(record.bypass_filter));
        params.push(Param::Flag(record.fallback_to_default_resolvers));
        params.push(opt(&record.strategy));
        params.push(text(record.id.as_str()));
        let s = statement(
            "UPDATE zones SET zone = ?, enabled = ?, bypass_filter = ?, fallback_to_default_resolvers = ?, strategy = ? WHERE id = ?",
            params,
            about_named("failed to update zone", record.zone.as_str()).as_str(),
        );
        assert(s@ =~= zone_update(*record));
        s
    }

    /// Deletes the zone with an ID, and with it its servers.
    pub fn delete_zone(id: &str) -> (r: Statement)
        ensures
            r@ == (StatementView {
                sql: "DELETE FROM zones WHERE id = ?"@,
                params: seq![ParamView::Text(id@)],
                context: about("failed to delete zone"@, id@),
            }),
    {
        let mut params: Vec<Param> = Vec::new();
        params.push(text(id));
        let s = statement(
            "DELETE FROM zones WHERE id = ?",
            params,
            about_named("failed to delete zone", id).as_str(),
        );
        assert(s@.params =~= seq![ParamView::Text(id@)]);
        s
    }

    /// Deletes the servers of the zone with an ID.
    pub fn delete_zone_servers(zone_id: &str) -> (r: Statement)
        ensures
            r@ == (StatementView {
                sql: "DELETE FROM zone_servers WHERE zone_id = ?"@,
                params: seq![ParamView::Text(zone_id@)],
                context: about("failed to delete zone servers for zone"@, zone_id@),
            }),
    {
        let mut params: Vec<Param> = Vec::new();
        params.push(text(zone_id));
        let s = statement(
            "DELETE FROM zone_servers WHERE zone_id = ?",
            params,
            about_named("failed to delete zone servers for zone", zone_id).as_str(),
        );
        assert(s@.params =~= seq![ParamView::Text(zone_id@)]);
        s
    }

    /// Deletes all zones, and with them their servers.
    pub fn delete_all_zones() -> (r: Statement)
        ensures
            r@ == (StatementView {
                sql: "DELETE FROM zones"@,
                params: seq![],
                context: "failed to delete all zones"@,
            }),
    {
        let s = statement(
            "DELETE FROM zones",
            Vec::new(),
            "failed to delete all zones",
        );
        assert(s@.params =~= seq![]);
        s
    }
}

// ---- where zones are discovered ----

/// Adds a place of discovery without its types.
pub open spec fn discovery_insert(record: ZoneDiscoveryRecord) -> StatementView {
    StatementView {
        sql: "INSERT INTO zone_discovery (id, enabled, address, check_interval, bypass_filter, fallback_to_default_resolvers, auth_token, auth_username, auth_password) VALUES (?, ?, ?, ?, ?, ?, ?, ?, ?)"@,
        params: seq![
            ParamView::Text(record.id@),
            ParamView::Flag(record.enabled),
            ParamView::Text(record.address@),
            ParamView::OptText(opt_text(record.check_interval)),
            ParamView::Flag(record.bypass_filter),
            ParamView::Flag(record.fallback_to_default_resolvers),
            ParamView::OptText(opt_text(record.auth_token)),
            ParamView::OptText(opt_text(record.auth_username)),
            ParamView::OptText(opt_text(record.auth_password)),
        ],
        context: about("failed to insert zone discovery"@, record.id@),
    }
}

/// Changes the place of discovery with the ID of a record, but for its types.
pub open spec fn discovery_update(record: ZoneDiscoveryRecord) -> StatementView {
    StatementView {
        sql: "UPDATE zone_discovery SET enabled = ?, address = ?, check_interval = ?, bypass_filter = ?, fallback_to_default_resolvers = ?, auth_token = ?, auth_username = ?, auth_password = ? WHERE id = ?"@,
        params: seq![
            ParamView::Flag(record.enabled),
            ParamView::Text(record.address@),
            ParamView::OptText(opt_text(record.check_interval)),
            ParamView::Flag(record.bypass_filter),
            ParamView::Flag(record.fallback_to_default_resolvers),
            ParamView::OptText(opt_text(record.auth_token)),
            ParamView::OptText(opt_text(record.auth_username)),
            ParamView::OptText(opt_text(record.auth_password)),
            ParamView::Text(record.id@),
        ],
        context: about("failed to update zone discovery"@, record.id@),
    }
}

/// Takes all its types from a place of discovery.
pub open spec fn types_delete(record: ZoneDiscoveryRecord) -> StatementView {
    StatementView {
        sql: "DELETE FROM zone_discovery_allowed_types WHERE zone_discovery_id = ?"@,
        params: seq![ParamView::Text(record.id@)],
        context: about("failed to delete allowed types for zone discovery"@, record.id@),
    }
}

/// Gives the type at a place in its list to a place of discovery, under an ID of its own.
pub open spec fn type_insert(record: ZoneDiscoveryRecord, id: Seq<char>, i: int) -> StatementView {
    StatementView {
        sql: "INSERT INTO zone_discovery_allowed_types (id, zone_discovery_id, allowed_type) VALUES (?, ?, ?)"@,
        params: seq![
            ParamView::Text(id),
            ParamView::Text(record.id@),
            ParamView::Text(record.allowed_types@[i]@),
        ],
        context: about(
            about("failed to insert allowed type"@, record.allowed_types@[i]@)
                + " for zone discovery"@,
            record.id@,
        ),
    }
}

/// Statements with their texts.
pub open spec fn statements_view(v: Seq<Statement>) -> Seq<StatementView> {
    Seq::new(v.len(), |i: int| v[i]@)
}

/// Gives all its types to a place of discovery, in their order.
pub open spec fn type_inserts(record: ZoneDiscoveryRecord, ids: Seq<String>) -> Seq<StatementView> {
    Seq::new(record.allowed_types@.len(), |i: int| type_insert(record, ids[i]@, i))
}

/// The statements for the places where zones are discovered.
#[derive(Clone, Copy, Debug)]
pub struct SqlxZoneDiscoveryRepository;

impl SqlxZoneDiscoveryRepository {
    /// All places, by their IDs, without their types.
    pub fn get_all() -> (r: Statement)
        ensures
            r@ == (StatementView {
                sql: "SELECT id, enabled, address, check_interval, bypass_filter, fallback_to_default_resolvers, auth_token, auth_username, auth_password FROM zone_discovery ORDER BY id"@,
                params: seq![],
                context: "failed to fetch zone discovery entries"@,
            }),
    {
        let s = statement(
            "SELECT id, enabled, address, check_interval, bypass_filter, fallback_to_default_resolvers, auth_token, auth_username, auth_password FROM zone_discovery ORDER BY id",
            Vec::new(),
            "failed to fetch zone discovery entries",
        );
        assert(s@.params =~= seq![]);
        s
    }

    /// The types of all places, in their order.
    pub fn get_all_types() -> (r: Statement)
        ensures
            r@ == (StatementView {
                sql: "SELECT zone_discovery_id, allowed_type FROM zone_discovery_allowed_types ORDER BY zone_discovery_id, allowed_type"@,
                params: seq![],
                context: "failed to fetch zone discovery allowed types"@,
            }),
    {
        let s = statement(
            "SELECT zone_discovery_id, allowed_type FROM zone_discovery_allowed_types ORDER BY zone_discovery_id, allowed_type",
            Vec::new(),
            "failed to fetch zone discovery allowed types",
        );
        assert(s@.params =~= seq![]);
        s
    }

    /// The place with an ID, without its types.
    pub fn get_by_id(id: &str) -> (r: Statement)
        ensures
            r@ == (StatementView {
                sql: "SELECT id, enabled, address, check_interval, bypass_filter, fallback_to_default_resolvers, auth_token, auth_username, auth_password FROM zone_discovery WHERE id = ?"@,
                params: seq![ParamView::Text(id@)],
                context: "failed to fetch zone discovery by id"@,
            }),
    {
        let mut params: Vec<Param> = Vec::new();
        params.push(text(id));
        let s = statement(
            "SELECT id, enabled, address, check_interval, bypass_filter, fallback_to_default_resolvers, auth_token, auth_username, auth_password FROM zone_discovery WHERE id = ?",
            params,
            "failed to fetch zone discovery by id",
        );
        assert(s@.params =~= seq![ParamView::Text(id@)]);
        s
    }

    /// The types of the place with an ID, in their order.
    pub fn get_types(id: &str) -> (r: Statement)
        ensures
            r@ == (StatementView {
                sql: "SELECT zone_discovery_id, allowed_type FROM zone_discovery_allowed_types WHERE zone_discovery_id = ? ORDER BY allowed_type"@,
                params: seq![ParamView::Text(id@)],
                context: "failed to fetch zone discovery allowed types"@,
            }),
    {
        let mut params: Vec<Param> = Vec::new();
        params.push(text(id));
        let s = statement(
            "SELECT zone_discovery_id, allowed_type FROM zone_discovery_allowed_types WHERE zone_discovery_id = ? ORDER BY allowed_type",
            params,
            "failed to fetch zone discovery allowed types",
        );
        assert(s@.params =~= seq![ParamView::Text(id@)]);
        s
    }

    /// Adds a place without its types.
    fn insert_entry(record: &ZoneDiscoveryRecord) -> (r: Statement)
        ensures
            r@ == discovery_insert(*record),
    {
        let mut params: Vec<Param> = Vec::new();
        params.push(text(record.id.as_str()));
        params.push(Param::Flag(record.enabled));
        params.push(text(record.address.as_str()));
        params.push(opt(&record.check_interval));
        params.push(Param::Flag(record.bypass_filter));
        params.push(Param::Flag(record.fallback_to_default_resolvers));
        params.push(opt(&record.auth_token));
        params.push(opt(&record.auth_username));
        params.push(opt(&record.auth_password));
        let s = statement(
            "INSERT INTO zone_discovery (id, enabled, address, check_interval, bypass_filter, fallback_to_default_resolvers, auth_token, auth_username, auth_password) VALUES (?, ?, ?, ?, ?, ?, ?, ?, ?)",
            params,
            about_named("failed to insert zone discovery", record.id.as_str()).as_str(),
        );
        assert(s@ =~= discovery_insert(*record));
        s
    }

    /// Changes the place with the ID of a record, but for its types.
    fn update_entry(record: &ZoneDiscoveryRecord) -> (r: Statement)
        ensures
            r@ == discovery_update(*record),
    {
        let mut params: Vec<Param> = Vec::new();
        params.push(Param::Flag(record.enabled));
        params.push(text(record.address.as_str()));
        params.push(opt(&record.check_interval));
        params.push(Param::Flag(record.bypass_filter));
        params.push(Param::Flag(record.fallback_to_default_resolvers));
        params.push(opt(&record.auth_token));
        params.push(opt(&record.auth_username));
        params.push(opt(&record.auth_password));
        params.push(text(record.id.as_str()));
        let s = statement(
            "UPDATE zone_discovery SET enabled = ?, address = ?, check_interval = ?, bypass_filter = ?, fallback_to_default_resolvers = ?, auth_token = ?, auth_username = ?, auth_password = ? WHERE id = ?",
            params,
            about_named("failed to update zone discovery", record.id.as_str()).as_str(),
        );
        assert(s@ =~= discovery_update(*record));
        s
    }

    fn delete_types(record: &ZoneDiscoveryRecord) -> (r: Statement)
        ensures
            r@ == types_delete(*record),
    {
        let mut params: Vec<Param> = Vec::new();
        params.push(text(record.id.as_str()));
        let context = about_named(
            "failed to delete allowed types for zone discovery",
            record.id.as_str(),
        );
        let s = statement(
            "DELETE FROM zone_discovery_allowed_types WHERE zone_discovery_id = ?",
            params,
            context.as_str(),
        );
        assert(s@ =~= types_delete(*record));
        s
    }

    fn insert_type(record: &ZoneDiscoveryRecord, id: &str, i: usize) -> (r: Statement)
        requires
            i < record.allowed_types@.len(),
        ensures
            r@ == type_insert(*record, id@, i as int),
    {
        let allowed_type = record.allowed_types[i].as_str();
        let mut params: Vec<Param> = Vec::new();
        params.push(text(id));
        params.push(text(record.id.as_str()));
        params.push(text(allowed_type));
        let mut what = about_named("failed to insert allowed type", allowed_type);
        what.push_str(" for zone discovery");
        let s = statement(
            "INSERT INTO zone_discovery_allowed_types (id, zone_discovery_id, allowed_type) VALUES (?, ?, ?)",
            params,
            about_named(what.as_str(), record.id.as_str()).as_str(),
        );
        assert(s@ =~= type_insert(*record, id@, i as int));
        s
    }

    fn insert_types(record: &ZoneDiscoveryRecord, ids: &Vec<String>, done: Vec<Statement>) -> (r: Vec<
        Statement,
    >)
        requires
            ids@.len() == record.allowed_types@.len(),
        ensures
            statements_view(r@) == statements_view(done@) + type_inserts(*record, ids@),
    {
        let ghost before = statements_view(done@);
        let mut all = done;
        let mut i: usize = 0;
        assert(statements_view(all@) =~= before + type_inserts(*record, ids@).take(0));
        while i < record.allowed_types.len()
            invariant
                i <= record.allowed_types@.len() == ids@.len(),
                statements_view(all@) == before + type_inserts(*record, ids@).take(i as int),
            decreases record.allowed_types@.len() - i,
        {
            let ghost so_far = all@;
            all.push(Self::insert_type(record, ids[i].as_str(), i));
            proof {
                assert(statements_view(all@) =~= statements_view(so_far).push(
                    type_insert(*record, ids@[i as int]@, i as int),
                ));
                assert(type_inserts(*record, ids@).take(i + 1) =~= type_inserts(*record, ids@).take(
                    i as int,
                ).push(type_insert(*record, ids@[i as int]@, i as int)));
            }
            i += 1;
        }
        assert(type_inserts(*record, ids@).take(i as int) =~= type_inserts(*record, ids@));
        all
    }

    /// Adds a place with its types, of which each gets one of the fresh IDs.
    pub fn create(record: &ZoneDiscoveryRecord, ids: &Vec<String>) -> (r: Vec<Statement>)
        requires
            ids@.len() == record.allowed_types@.len(),
        ensures
            statements_view(r@) == seq![discovery_insert(*record)] + type_inserts(*record, ids@),
    {
        let mut first: Vec<Statement> = Vec::new();
        first.push(Self::insert_entry(record));
        assert(statements_view(first@) =~= seq![discovery_insert(*record)]);
        Self::insert_types(record, ids, first)
    }

    /// Changes the place with the ID of a record. Its types are replaced by those of the
    /// record, of which each gets one of the fresh IDs.
    pub fn update(record: &ZoneDiscoveryRecord, ids: &Vec<String>) -> (r: Vec<Statement>)
        requires
            ids@.len() == record.allowed_types@.len(),
        ensures
            statements_view(r@) == seq![discovery_update(*record), types_delete(*record)]
                + type_inserts(*record, ids@),
    {
        let mut first: Vec<Statement> = Vec::new();
        first.push(Self::update_entry(record));
        first.push(Self::delete_types(record));
        assert(statements_view(first@) =~= seq![discovery_update(*record), types_delete(*record)]);
        Self::insert_types(record, ids, first)
    }

    /// Deletes the place with an ID.
    pub fn delete(id: &str) -> (r: Statement)
        ensures
            r@ == (StatementView {
                sql: "DELETE FROM zone_discovery WHERE id = ?"@,
                params: seq![ParamView::Text(id@)],
                context: about("failed to delete zone discovery"@, id@),
            }),
    {
        let mut params: Vec<Param> = Vec::new();
        params.push(text(id));
        let s = statement(
            "DELETE FROM zone_discovery WHERE id = ?",
            params,
            about_named("failed to delete zone discovery", id).as_str(),
        );
        assert(s@.params =~= seq![ParamView::Text(id@)]);
        s
    }

    /// Deletes all places.
    pub fn delete_all() -> (r: Statement)
        ensures
            r@ == (StatementView {
                sql: "DELETE FROM zone_discovery"@,
                params: seq![],
                context: "failed to delete all zone discovery entries"@,
            }),
    {
        let s = statement(
            "DELETE FROM zone_discovery",
            Vec::new(),
            "failed to delete all zone discovery entries",
        );
        assert(s@.params =~= seq![]);
        s
    }
}

// ---- laws ----

/// How many question marks a text has from a place on.
pub open spec fn marks_from(s: Seq<char>, i: int) -> nat
    decreases s.len() - i,
{
    if i < 0 || i >= s.len() {
        0
    } else if s[i] == '?' {
        1 + marks_from(s, i + 1)
    } else {
        marks_from(s, i + 1)
    }
}

proof fn lemma_filter_list_insert_marks()
    ensures
        marks_from("INSERT INTO filter_lists (id, name, kind, url, interval_seconds, enabled, list_type) VALUES (?, ?, ?, ?, ?, ?, ?)"@, 0) == 7,
{
    let s = "INSERT INTO filter_lists (id, name, kind, url, interval_seconds, enabled, list_type) VALUES (?, ?, ?, ?, ?, ?, ?)"@;
    reveal_strlit("INSERT INTO filter_lists (id, name, kind, url, interval_seconds, enabled, list_type) VALUES (?, ?, ?, ?, ?, ?, ?)");
    reveal_with_fuel(marks_from, 26);
    assert(marks_from(s, 88) == 7);
    assert(marks_from(s, 63) == 7);
    assert(marks_from(s, 38) == 7);
    assert(marks_from(s, 13) == 7);
}

proof fn lemma_filter_list_update_marks()
    ensures
        marks_from("UPDATE filter_lists SET name = ?, kind = ?, url = ?, interval_seconds = ?, enabled = ?, list_type = ? WHERE id = ?"@, 0) == 7,
{
    let s = "UPDATE filter_lists SET name = ?, kind = ?, url = ?, interval_seconds = ?, enabled = ?, list_type = ? WHERE id = ?"@;
    reveal_strlit("UPDATE filter_lists SET name = ?, kind = ?, url = ?, interval_seconds = ?, enabled = ?, list_type = ? WHERE id = ?");
    reveal_with_fuel(marks_from, 26);
    assert(marks_from(s, 89) == 2);
    assert(marks_from(s, 64) == 4);
    assert(marks_from(s, 39) == 6);
    assert(marks_from(s, 14) == 7);
}

proof fn lemma_filtering_update_marks()
    ensures
        marks_from("UPDATE filtering_config SET sinkhole_ipv4 = ?, sinkhole_ipv6 = ?, any_query_policy = ? WHERE id = 1"@, 0) == 3,
{
    let s = "UPDATE filtering_config SET sinkhole_ipv4 = ?, sinkhole_ipv6 = ?, any_query_policy = ? WHERE id = 1"@;
    reveal_strlit("UPDATE filtering_config SET sinkhole_ipv4 = ?, sinkhole_ipv6 = ?, any_query_policy = ? WHERE id = 1");
    reveal_with_fuel(marks_from, 26);
    assert(marks_from(s, 74) == 1);
    assert(marks_from(s, 49) == 2);
    assert(marks_from(s, 24) == 3);
}

proof fn lemma_resolver_update_marks()
    ensures
        marks_from("UPDATE resolver_config SET strategy = ?, bootstrap_resolvers = ? WHERE id = 1"@, 0) == 2,
{
    let s = "UPDATE resolver_config SET strategy = ?, bootstrap_resolvers = ? WHERE id = 1"@;
    reveal_strlit("UPDATE resolver_config SET strategy = ?, bootstrap_resolvers = ? WHERE id = 1");
    reveal_with_fuel(marks_from, 26);
    assert(marks_from(s, 52) == 1);
    assert(marks_from(s, 27) == 2);
    assert(marks_from(s, 2) == 2);
}

proof fn lemma_upstream_insert_marks()
    ensures
        marks_from("INSERT INTO upstream_servers (id, enabled, protocol, address, auth_token, auth_username, auth_password, max_hops, nameserver_ip_family, root_hints_path, root_key_path, dnssec, sort_order) VALUES (?, ?, ?, ?, ?, ?, ?, ?, ?, ?, ?, ?, ?)"@, 0) == 13,
{
    let s = "INSERT INTO upstream_servers (id, enabled, protocol, address, auth_token, auth_username, auth_password, max_hops, nameserver_ip_family, root_hints_path, root_key_path, dnssec, sort_order) VALUES (?, ?, ?, ?, ?, ?, ?, ?, ?, ?, ?, ?, ?)"@;
    reveal_strlit("INSERT INTO upstream_servers (id, enabled, protocol, address, auth_token, auth_username, auth_password, max_hops, nameserver_ip_family, root_hints_path, root_key_path, dnssec, sort_order) VALUES (?, ?, ?, ?, ?, ?, ?, ?, ?, ?, ?, ?, ?)");
    reveal_with_fuel(marks_from, 26);
    assert(marks_from(s, 209) == 8);
    assert(marks_from(s, 184) == 13);
    assert(marks_from(s, 159) == 13);
    assert(marks_from(s, 134) == 13);
    assert(marks_from(s, 109) == 13);
    assert(marks_from(s, 84) == 13);
    assert(marks_from(s, 59) == 13);
    assert(marks_from(s, 34) == 13);
    assert(marks_from(s, 9) == 13);
}

proof fn lemma_zone_insert_marks()
    ensures
        marks_from("INSERT INTO zones (id, zone, enabled, bypass_filter, fallback_to_default_resolvers, strategy) VALUES (?, ?, ?, ?, ?, ?)"@, 0) == 6,
{
    let s = "INSERT INTO zones (id, zone, enabled, bypass_filter, fallback_to_default_resolvers, strategy) VALUES (?, ?, ?, ?, ?, ?)"@;
    reveal_strlit("INSERT INTO zones (id, zone, enabled, bypass_filter, fallback_to_default_resolvers, strategy) VALUES (?, ?, ?, ?, ?, ?)");
    reveal_with_fuel(marks_from, 26);
    assert(marks_from(s, 94) == 6);
    assert(marks_from(s, 69) == 6);
    assert(marks_from(s, 44) == 6);
    assert(marks_from(s, 19) == 6);
}

proof fn lemma_zone_server_insert_marks()
    ensures
        marks_from("INSERT INTO zone_servers (id, zone_id, enabled, protocol, address, auth_token, auth_username, auth_password, check_interval, max_hops, nameserver_ip_family, root_hints_path, root_key_path, dnssec, sort_order) VALUES (?, ?, ?, ?, ?, ?, ?, ?, ?, ?, ?, ?, ?, ?, ?)"@, 0) == 15,
{
    let s = "INSERT INTO zone_servers (id, zone_id, enabled, protocol, address, auth_token, auth_username, auth_password, check_interval, max_hops, nameserver_ip_family, root_hints_path, root_key_path, dnssec, sort_order) VALUES (?, ?, ?, ?, ?, ?, ?, ?, ?, ?, ?, ?, ?, ?, ?)"@;
    reveal_strlit("INSERT INTO zone_servers (id, zone_id, enabled, protocol, address, auth_token, auth_username, auth_password, check_interval, max_hops, nameserver_ip_family, root_hints_path, root_key_path, dnssec, sort_order) VALUES (?, ?, ?, ?, ?, ?, ?, ?, ?, ?, ?, ?, ?, ?, ?)");
    reveal_with_fuel(marks_from, 26);
    assert(marks_from(s, 236) == 8);
    assert(marks_from(s, 211) == 15);
    assert(marks_from(s, 186) == 15);
    assert(marks_from(s, 161) == 15);
    assert(marks_from(s, 136) == 15);
    assert(marks_from(s, 111) == 15);
    assert(marks_from(s, 86) == 15);
    assert(marks_from(s, 61) == 15);
    assert(marks_from(s, 36) == 15);
    assert(marks_from(s, 11) == 15);
}

proof fn lemma_zone_update_marks()
    ensures
        marks_from("UPDATE zones SET zone = ?, enabled = ?, bypass_filter = ?, fallback_to_default_resolvers = ?, strategy = ? WHERE id = ?"@, 0) == 6,
{
    let s = "UPDATE zones SET zone = ?, enabled = ?, bypass_filter = ?, fallback_to_default_resolvers = ?, strategy = ? WHERE id = ?"@;
    reveal_strlit("UPDATE zones SET zone = ?, enabled = ?, bypass_filter = ?, fallback_to_default_resolvers = ?, strategy = ? WHERE id = ?");
    reveal_with_fuel(marks_from, 26);
    assert(marks_from(s, 94) == 2);
    assert(marks_from(s, 69) == 3);
    assert(marks_from(s, 44) == 4);
    assert(marks_from(s, 19) == 6);
}

proof fn lemma_discovery_insert_marks()
    ensures
        marks_from("INSERT INTO zone_discovery (id, enabled, address, check_interval, bypass_filter, fallback_to_default_resolvers, auth_token, auth_username, auth_password) VALUES (?, ?, ?, ?, ?, ?, ?, ?, ?)"@, 0) == 9,
{
    let s = "INSERT INTO zone_discovery (id, enabled, address, check_interval, bypass_filter, fallback_to_default_resolvers, auth_token, auth_username, auth_password) VALUES (?, ?, ?, ?, ?, ?, ?, ?, ?)"@;
    reveal_strlit("INSERT INTO zone_discovery (id, enabled, address, check_interval, bypass_filter, fallback_to_default_resolvers, auth_token, auth_username, auth_password) VALUES (?, ?, ?, ?, ?, ?, ?, ?, ?)");
    reveal_with_fuel(marks_from, 26);
    assert(marks_from(s, 163) == 8);
    assert(marks_from(s, 138) == 9);
    assert(marks_from(s, 113) == 9);
    assert(marks_from(s, 88) == 9);
    assert(marks_from(s, 63) == 9);
    assert(marks_from(s, 38) == 9);
    assert(marks_from(s, 13) == 9);
}

proof fn lemma_discovery_update_marks()
    ensures
        marks_from("UPDATE zone_discovery SET enabled = ?, address = ?, check_interval = ?, bypass_filter = ?, fallback_to_default_resolvers = ?, auth_token = ?, auth_username = ?, auth_password = ? WHERE id = ?"@, 0) == 9,
{
    let s = "UPDATE zone_discovery SET enabled = ?, address = ?, check_interval = ?, bypass_filter = ?, fallback_to_default_resolvers = ?, auth_token = ?, auth_username = ?, auth_password = ? WHERE id = ?"@;
    reveal_strlit("UPDATE zone_discovery SET enabled = ?, address = ?, check_interval = ?, bypass_filter = ?, fallback_to_default_resolvers = ?, auth_token = ?, auth_username = ?, auth_password = ? WHERE id = ?");
    reveal_with_fuel(marks_from, 26);
    assert(marks_from(s, 166) == 2);
    assert(marks_from(s, 141) == 3);
    assert(marks_from(s, 116) == 5);
    assert(marks_from(s, 91) == 5);
    assert(marks_from(s, 66) == 7);
    assert(marks_from(s, 41) == 8);
    assert(marks_from(s, 16) == 9);
}

proof fn lemma_types_delete_marks()
    ensures
        marks_from("DELETE FROM zone_discovery_allowed_types WHERE zone_discovery_id = ?"@, 0) == 1,
{
    let s = "DELETE FROM zone_discovery_allowed_types WHERE zone_discovery_id = ?"@;
    reveal_strlit("DELETE FROM zone_discovery_allowed_types WHERE zone_discovery_id = ?");
    reveal_with_fuel(marks_from, 26);
    assert(marks_from(s, 43) == 1);
    assert(marks_from(s, 18) == 1);
}

proof fn lemma_type_insert_marks()
    ensures
        marks_from("INSERT INTO zone_discovery_allowed_types (id, zone_discovery_id, allowed_type) VALUES (?, ?, ?)"@, 0) == 3,
{
    let s = "INSERT INTO zone_discovery_allowed_types (id, zone_discovery_id, allowed_type) VALUES (?, ?, ?)"@;
    reveal_strlit("INSERT INTO zone_discovery_allowed_types (id, zone_discovery_id, allowed_type) VALUES (?, ?, ?)");
    reveal_with_fuel(marks_from, 26);
    assert(marks_from(s, 70) == 3);
    assert(marks_from(s, 45) == 3);
    assert(marks_from(s, 20) == 3);
}

proof fn lemma_cache_upsert_marks()
    ensures
        marks_from("INSERT INTO filter_cache_documents (key, value) VALUES (?, ?) ON CONFLICT(key) DO UPDATE SET value = excluded.value"@, 0) == 2,
{
    let s = "INSERT INTO filter_cache_documents (key, value) VALUES (?, ?) ON CONFLICT(key) DO UPDATE SET value = excluded.value"@;
    reveal_strlit("INSERT INTO filter_cache_documents (key, value) VALUES (?, ?) ON CONFLICT(key) DO UPDATE SET value = excluded.value");
    reveal_with_fuel(marks_from, 26);
    assert(marks_from(s, 90) == 0);
    assert(marks_from(s, 65) == 0);
    assert(marks_from(s, 40) == 2);
    assert(marks_from(s, 15) == 2);
}

/// Every question mark of a statement has a value, and every value has a question mark.
pub proof fn law_every_mark_has_a_value(
    list: FilterListRecord,
    filtering: FilteringConfigRecord,
    resolver: ResolverConfigRecord,
    server: UpstreamServerRecord,
    zone: ZoneRecord,
    zone_server: ZoneServerRecord,
    place: ZoneDiscoveryRecord,
    document: FilterCacheDocumentRecord,
    id: Seq<char>,
    i: int,
)
    ensures
        marks_from(filter_list_insert(list).sql, 0) == filter_list_insert(list).params.len(),
        marks_from(filter_list_update(list).sql, 0) == filter_list_update(list).params.len(),
        marks_from(filtering_update(filtering).sql, 0) == filtering_update(filtering).params.len(),
        marks_from(resolver_update(resolver).sql, 0) == resolver_update(resolver).params.len(),
        marks_from(upstream_insert(server).sql, 0) == upstream_insert(server).params.len(),
        marks_from(zone_insert(zone).sql, 0) == zone_insert(zone).params.len(),
        marks_from(zone_server_insert(zone_server).sql, 0) == zone_server_insert(zone_server).params.len(),
        marks_from(zone_update(zone).sql, 0) == zone_update(zone).params.len(),
        marks_from(discovery_insert(place).sql, 0) == discovery_insert(place).params.len(),
        marks_from(discovery_update(place).sql, 0) == discovery_update(place).params.len(),
        marks_from(types_delete(place).sql, 0) == types_delete(place).params.len(),
        marks_from(type_insert(place, id, i).sql, 0) == type_insert(place, id, i).params.len(),
        marks_from(cache_upsert(document, Dialect::Sqlite).sql, 0) == cache_upsert(
            document,
            Dialect::Sqlite,
        ).params.len(),
{
    lemma_filter_list_insert_marks();
    lemma_filter_list_update_marks();
    lemma_filtering_update_marks();
    lemma_resolver_update_marks();
    lemma_upstream_insert_marks();
    lemma_zone_insert_marks();
    lemma_zone_server_insert_marks();
    lemma_zone_update_marks();
    lemma_discovery_insert_marks();
    lemma_discovery_update_marks();
    lemma_types_delete_marks();
    lemma_type_insert_marks();
    lemma_cache_upsert_marks();
}

/// Whatever an update changes, it addresses the record by its ID, which it binds last; all
/// that an insertion binds besides the ID is bound by the update too, in the same order.
pub proof fn law_updates_address_the_record(
    list: FilterListRecord,
    zone: ZoneRecord,
    place: ZoneDiscoveryRecord,
)
    ensures
        filter_list_update(list).params == filter_list_insert(list).params.skip(1).push(
            ParamView::Text(list.id@),
        ),
        zone_update(zone).params == zone_insert(zone).params.skip(1).push(
            ParamView::Text(zone.id@),
        ),
        discovery_update(place).params == discovery_insert(place).params.skip(1).push(
            ParamView::Text(place.id@),
        ),
{
    assert(filter_list_update(list).params =~= filter_list_insert(list).params.skip(1).push(
        ParamView::Text(list.id@),
    ));
    assert(zone_update(zone).params =~= zone_insert(zone).params.skip(1).push(
        ParamView::Text(zone.id@),
    ));
    assert(discovery_update(place).params =~= discovery_insert(place).params.skip(1).push(
        ParamView::Text(place.id@),
    ));
}

/// Two filter lists that are added by the same statement are the same in all that is kept.
pub proof fn law_filter_lists_are_kept_whole(a: FilterListRecord, b: FilterListRecord)
    requires
        filter_list_insert(a).params == filter_list_insert(b).params,
    ensures
        a.id@ == b.id@,
        a.name@ == b.name@,
        a.kind@ == b.kind@,
        a.url@ == b.url@,
        a.interval_seconds == b.interval_seconds,
        a.enabled == b.enabled,
        a.list_type@ == b.list_type@,
{
    let p = filter_list_insert(a).params;
    let q = filter_list_insert(b).params;
    assert(p[0] == q[0] && p[1] == q[1] && p[2] == q[2] && p[3] == q[3]);
    assert(p[4] == q[4] && p[5] == q[5] && p[6] == q[6]);
}

/// An update of a place of discovery leaves it with the types of the record alone: all
/// others are deleted before any is added, and each is added once.
pub proof fn law_types_are_replaced(record: ZoneDiscoveryRecord, ids: Seq<String>)
    requires
        ids.len() == record.allowed_types@.len(),
    ensures
        ({
            let all = seq![discovery_update(record), types_delete(record)] + type_inserts(record, ids);
            &&& all.len() == 2 + record.allowed_types@.len()
            &&& all[1] == types_delete(record)
            &&& forall|i: int|
                0 <= i < record.allowed_types@.len() ==> (#[trigger] all[i + 2]).params[2]
                    == ParamView::Text(record.allowed_types@[i]@) && all[i + 2].params[1]
                    == ParamView::Text(record.id@)
        }),
{
}

/// A filter list is added with a value for each column, in the order of the columns.
pub proof fn law_filter_lists_are_bound_by_column(record: FilterListRecord)
    ensures
        filter_list_insert(record).params.len() == 7,
        filter_list_insert(record).params[0] == ParamView::Text(record.id@),
        filter_list_insert(record).params[1] == ParamView::Text(record.name@),
        filter_list_insert(record).params[2] == ParamView::Text(record.kind@),
        filter_list_insert(record).params[3] == ParamView::Text(record.url@),
        filter_list_insert(record).params[4] == ParamView::Integer(record.interval_seconds as int),
        filter_list_insert(record).params[5] == ParamView::Flag(record.enabled),
        filter_list_insert(record).params[6] == ParamView::Text(record.list_type@),
{
}

/// An upstream server is added with a value for each column, in the order of the columns.
pub proof fn law_upstream_servers_are_bound_by_column(record: UpstreamServerRecord)
    ensures
        upstream_insert(record).params.len() == 13,
        upstream_insert(record).params[0] == ParamView::Text(record.id@),
        upstream_insert(record).params[1] == ParamView::Flag(record.enabled),
        upstream_insert(record).params[2] == ParamView::Text(record.protocol@),
        upstream_insert(record).params[3] == ParamView::Text(record.address@),
        upstream_insert(record).params[4] == ParamView::OptText(opt_text(record.auth_token)),
        upstream_insert(record).params[5] == ParamView::OptText(opt_text(record.auth_username)),
        upstream_insert(record).params[6] == ParamView::OptText(opt_text(record.auth_password)),
        upstream_insert(record).params[7] == ParamView::OptInteger(opt_int32(record.max_hops)),
        upstream_insert(record).params[8] == ParamView::OptText(opt_text(record.nameserver_ip_family)),
        upstream_insert(record).params[9] == ParamView::OptText(opt_text(record.root_hints_path)),
        upstream_insert(record).params[10] == ParamView::OptText(opt_text(record.root_key_path)),
        upstream_insert(record).params[11] == ParamView::Flag(record.dnssec),
        upstream_insert(record).params[12] == ParamView::Integer(record.sort_order as int),
{
}

/// A zone is added with a value for each column, in the order of the columns.
pub proof fn law_zones_are_bound_by_column(record: ZoneRecord)
    ensures
        zone_insert(record).params.len() == 6,
        zone_insert(record).params[0] == ParamView::Text(record.id@),
        zone_insert(record).params[1] == ParamView::Text(record.zone@),
        zone_insert(record).params[2] == ParamView::Flag(record.enabled),
        zone_insert(record).params[3] == ParamView::Flag(record.bypass_filter),
        zone_insert(record).params[4] == ParamView::Flag(record.fallback_to_default_resolvers),
        zone_insert(record).params[5] == ParamView::OptText(opt_text(record.strategy)),
{
}

/// A server of a zone is added with a value for each column, in the order of the columns.
pub proof fn law_zone_servers_are_bound_by_column(record: ZoneServerRecord)
    ensures
        zone_server_insert(record).params.len() == 15,
        zone_server_insert(record).params[0] == ParamView::Text(record.id@),
        zone_server_insert(record).params[1] == ParamView::Text(record.zone_id@),
        zone_server_insert(record).params[2] == ParamView::Flag(record.enabled),
        zone_server_insert(record).params[3] == ParamView::Text(record.protocol@),
        zone_server_insert(record).params[4] == ParamView::Text(record.address@),
        zone_server_insert(record).params[5] == ParamView::OptText(opt_text(record.auth_token)),
        zone_server_insert(record).params[6] == ParamView::OptText(opt_text(record.auth_username)),
        zone_server_insert(record).params[7] == ParamView::OptText(opt_text(record.auth_password)),
        zone_server_insert(record).params[8] == ParamView::OptText(opt_text(record.check_interval)),
        zone_server_insert(record).params[9] == ParamView::OptInteger(opt_int32(record.max_hops)),
        zone_server_insert(record).params[10] == ParamView::OptText(opt_text(record.nameserver_ip_family)),
        zone_server_insert(record).params[11] == ParamView::OptText(opt_text(record.root_hints_path)),
        zone_server_insert(record).params[12] == ParamView::OptText(opt_text(record.root_key_path)),
        zone_server_insert(record).params[13] == ParamView::Flag(record.dnssec),
        zone_server_insert(record).params[14] == ParamView::Integer(record.sort_order as int),
{
}

/// A place of discovery is added with a value for each column, in the order of the columns.
pub proof fn law_places_are_bound_by_column(record: ZoneDiscoveryRecord)
    ensures
        discovery_insert(record).params.len() == 9,
        discovery_insert(record).params[0] == ParamView::Text(record.id@),
        discovery_insert(record).params[1] == ParamView::Flag(record.enabled),
        discovery_insert(record).params[2] == ParamView::Text(record.address@),
        discovery_insert(record).params[3] == ParamView::OptText(opt_text(record.check_interval)),
        discovery_insert(record).params[4] == ParamView::Flag(record.bypass_filter),
        discovery_insert(record).params[5] == ParamView::Flag(record.fallback_to_default_resolvers),
        discovery_insert(record).params[6] == ParamView::OptText(opt_text(record.auth_token)),
        discovery_insert(record).params[7] == ParamView::OptText(opt_text(record.auth_username)),
        discovery_insert(record).params[8] == ParamView::OptText(opt_text(record.auth_password)),
{
}

/// Settings, documents and types are bound in the order of their columns too, and a document
/// has the same values in every kind of database.
pub proof fn law_settings_are_bound_by_column(
    filtering: FilteringConfigRecord,
    resolver: ResolverConfigRecord,
    document: FilterCacheDocumentRecord,
    dialect: Dialect,
    place: ZoneDiscoveryRecord,
    id: Seq<char>,
    i: int,
)
    ensures
        filtering_update(filtering).params == seq![
            ParamView::Text(filtering.sinkhole_ipv4@),
            ParamView::Text(filtering.sinkhole_ipv6@),
            ParamView::Text(filtering.any_query_policy@),
        ],
        resolver_update(resolver).params == seq![
            ParamView::Text(resolver.strategy@),
            ParamView::Text(resolver.bootstrap_resolvers@),
        ],
        cache_upsert(document, dialect).params == seq![
            ParamView::Text(document.key@),
            ParamView::Text(document.value@),
        ],
        type_insert(place, id, i).params == seq![
            ParamView::Text(id),
            ParamView::Text(place.id@),
            ParamView::Text(place.allowed_types@[i]@),
        ],
        types_delete(place).params == seq![ParamView::Text(place.id@)],
{
}

/// What failed is told with the name of the record: a filter list and a zone by their names, a
/// server and a place of discovery by their IDs.
pub proof fn law_failures_name_the_record(
    list: FilterListRecord,
    server: UpstreamServerRecord,
    zone: ZoneRecord,
    zone_server: ZoneServerRecord,
    place: ZoneDiscoveryRecord,
    document: FilterCacheDocumentRecord,
    dialect: Dialect,
)
    ensures
        (" '"@ + list.name@ + "'"@).is_suffix_of(filter_list_insert(list).context),
        (" '"@ + list.name@ + "'"@).is_suffix_of(filter_list_update(list).context),
        (" '"@ + server.id@ + "'"@).is_suffix_of(upstream_insert(server).context),
        (" '"@ + zone.zone@ + "'"@).is_suffix_of(zone_insert(zone).context),
        (" '"@ + zone.zone@ + "'"@).is_suffix_of(zone_update(zone).context),
        (" '"@ + zone_server.id@ + "'"@).is_suffix_of(zone_server_insert(zone_server).context),
        (" '"@ + place.id@ + "'"@).is_suffix_of(discovery_insert(place).context),
        (" '"@ + place.id@ + "'"@).is_suffix_of(discovery_update(place).context),
        (" '"@ + document.key@ + "'"@).is_suffix_of(cache_upsert(document, dialect).context),
{
    lemma_name_stands_last("failed to insert filter list"@, list.name@);
    lemma_name_stands_last("failed to update filter list"@, list.name@);
    lemma_name_stands_last("failed to insert upstream server"@, server.id@);
    lemma_name_stands_last("failed to insert zone"@, zone.zone@);
    lemma_name_stands_last("failed to update zone"@, zone.zone@);
    lemma_name_stands_last("failed to insert zone server"@, zone_server.id@);
    lemma_name_stands_last("failed to insert zone discovery"@, place.id@);
    lemma_name_stands_last("failed to update zone discovery"@, place.id@);
    lemma_name_stands_last("failed to upsert filter cache document"@, document.key@);
}

proof fn lemma_name_stands_last(what: Seq<char>, name: Seq<char>)
    ensures
        (" '"@ + name + "'"@).is_suffix_of(about(what, name)),
{
    let m = about(what, name);
    let e = " '"@ + name + "'"@;
    assert(m.subrange(m.len() - e.len(), m.len() as int) =~= e);
}

/// A value that is there is bound as it is, and a missing one as missing.
pub proof fn law_missing_values_stay_missing(n: i64, k: i32, t: String)
    ensures
        Param::OptInteger(Some(n))@ == ParamView::OptInteger(Some(n as int)),
        Param::OptInteger(None)@ == ParamView::OptInteger(None),
        Param::OptText(Some(t))@ == ParamView::OptText(Some(t@)),
        Param::OptText(None)@ == ParamView::OptText(None),
        Param::Text(t)@ == ParamView::Text(t@),
        Param::Integer(n)@ == ParamView::Integer(n as int),
        opt_int32(Some(k)) == Some(k as int),
        opt_int32(None) is None,
{
}

/// Every kind of database replaces a document in its own words: two ask for the values with
/// question marks, the third by number.
pub proof fn law_documents_are_replaced_in_every_dialect(document: FilterCacheDocumentRecord)
    ensures
        cache_upsert(document, Dialect::Sqlite).sql
            == "INSERT INTO filter_cache_documents (key, value) VALUES (?, ?) ON CONFLICT(key) DO UPDATE SET value = excluded.value"@,
        cache_upsert(document, Dialect::MySql).sql
            == "INSERT INTO filter_cache_documents (`key`, value) VALUES (?, ?) ON DUPLICATE KEY UPDATE value = VALUES(value)"@,
        cache_upsert(document, Dialect::Postgres).sql
            == "INSERT INTO filter_cache_documents (key, value) VALUES ($1, $2) ON CONFLICT(key) DO UPDATE SET value = EXCLUDED.value"@,
{
}

} // verus!
