use dns_filter::config::schema::DatabaseConfig;
use dns_filter::daemon::serving::database_url;
use dns_filter::database::records::{
    attach_allowed_types, attach_servers, AllowedType, FilterCacheDocumentRecord,
    FilterListRecord, FilteringConfigRecord, ResolverConfigRecord, UpstreamServerRecord,
    ZoneDiscoveryRecord, ZoneRecord, ZoneServerRecord,
};
use dns_filter::database::sqlite::{
    connect_url, database_directory, directory_to_create, init_pool, pool_error, PoolStep,
};
use dns_filter::database::statements::{
    Dialect, Param, SqlxFilterCacheRepository, SqlxFilterListRepository,
    SqlxFilteringConfigRepository, SqlxUpstreamConfigRepository, SqlxZoneDiscoveryRepository,
    SqlxZoneRepository, Statement,
};
use sqlx::sqlite::{SqlitePoolOptions, SqliteRow};
use sqlx::{Row, SqlitePool};

// ---- rows ----

fn zone_server(id: &str, zone_id: &str, address: &str) -> ZoneServerRecord {
    ZoneServerRecord {
        id: id.to_string(),
        zone_id: zone_id.to_string(),
        enabled: true,
        protocol: "dns".to_string(),
        address: address.to_string(),
        auth_token: None,
        auth_username: None,
        auth_password: None,
        check_interval: None,
        max_hops: None,
        nameserver_ip_family: None,
        root_hints_path: None,
        root_key_path: None,
        dnssec: false,
        sort_order: 0,
    }
}

fn zone(id: &str, name: &str) -> ZoneRecord {
    ZoneRecord {
        id: id.to_string(),
        zone: name.to_string(),
        enabled: true,
        bypass_filter: true,
        fallback_to_default_resolvers: false,
        strategy: Some("failover".to_string()),
        servers: Vec::new(),
    }
}

#[test]
fn servers_go_to_their_zone() {
    let zones = attach_servers(
        vec![zone("z1", "a"), zone("z2", "b")],
        vec![
            zone_server("s1", "z2", "1"),
            zone_server("s2", "z1", "2"),
            zone_server("s3", "z2", "3"),
            zone_server("s4", "gone", "4"),
        ],
    );
    let ids: Vec<Vec<&str>> =
        zones.iter().map(|z| z.servers.iter().map(|s| s.id.as_str()).collect()).collect();
    assert_eq!(ids, vec![vec!["s2"], vec!["s1", "s3"]]);
}

#[test]
fn allowed_types_go_to_their_entry() {
    let entry = ZoneDiscoveryRecord {
        id: "zd-1".to_string(),
        enabled: true,
        address: "https://example.com/zones.json".to_string(),
        check_interval: Some("15m".to_string()),
        allowed_types: vec![],
        bypass_filter: false,
        fallback_to_default_resolvers: true,
        auth_token: Some("secret".to_string()),
        auth_username: None,
        auth_password: None,
    };
    let allow = |id: &str, t: &str| AllowedType {
        zone_discovery_id: id.to_string(),
        allowed_type: t.to_string(),
    };
    let entries = attach_allowed_types(
        vec![entry],
        vec![allow("zd-1", "reverse"), allow("zd-2", "x"), allow("zd-1", "forward")],
    );
    assert_eq!(entries.len(), 1);
    assert_eq!(entries[0].allowed_types, vec!["reverse", "forward"]);
    assert!(entries[0].fallback_to_default_resolvers);
}

// ---- the pool ----

#[test]
fn database_is_created_where_it_is_missing() {
    assert_eq!(connect_url("sqlite://db/x.db"), "sqlite://db/x.db?mode=rwc");
    assert_eq!(connect_url("sqlite://x.db?cache=shared"), "sqlite://x.db?cache=shared&mode=rwc");
    assert_eq!(connect_url("sqlite://x.db?mode=ro"), "sqlite://x.db?mode=ro");
    assert_eq!(database_directory("sqlite://db/x.db"), Some("db".to_string()));
    assert_eq!(database_directory("sqlite://x.db"), None);
    assert_eq!(database_directory("postgres://x/y"), None);
    assert_eq!(directory_to_create(Some(String::new())), None);
    assert_eq!(database_url(&None), "sqlite://db/dns-filter.db");
    assert_eq!(
        database_url(&Some(DatabaseConfig { url: "sqlite://o.db".to_string() })),
        "sqlite://o.db"
    );
}

#[test]
fn pools_are_opened_as_planned() {
    let plan = init_pool("sqlite://db/x.db", Dialect::Sqlite);
    assert_eq!(plan.directory, Some("db".to_string()));
    assert_eq!(plan.connect_url, "sqlite://db/x.db?mode=rwc");
    assert_eq!((plan.write_ahead_log, plan.busy_timeout_secs), (true, Some(5)));
    assert_eq!(plan.max_connections, 5);
    let plan = init_pool("postgres://h/db", Dialect::Postgres);
    assert_eq!(plan.directory, None);
    assert_eq!(plan.connect_url, "postgres://h/db");
    assert_eq!((plan.write_ahead_log, plan.busy_timeout_secs), (false, None));
    let url = "sqlite://db/x.db";
    assert_eq!(
        pool_error(PoolStep::CreateDirectory("db".to_string()), url, "denied"),
        "failed to create database directory 'db': denied"
    );
    assert_eq!(
        pool_error(PoolStep::ParseUrl, url, "bad"),
        "failed to parse database URL: sqlite://db/x.db: bad"
    );
    assert_eq!(
        pool_error(PoolStep::Connect, url, "gone"),
        "failed to connect to database at sqlite://db/x.db: gone"
    );
    assert_eq!(
        pool_error(PoolStep::Migrate, url, "locked"),
        "failed to run database migrations: locked"
    );
}

// ---- statements ----

const SCHEMA: &[&str] = &[
    "CREATE TABLE filter_lists (id TEXT PRIMARY KEY, name TEXT NOT NULL UNIQUE, kind TEXT NOT NULL, \
     url TEXT NOT NULL, interval_seconds INTEGER NOT NULL, enabled BOOLEAN NOT NULL, \
     list_type TEXT NOT NULL)",
    "CREATE TABLE filter_cache_documents (key TEXT PRIMARY KEY, value TEXT NOT NULL)",
    "CREATE TABLE filtering_config (id INTEGER PRIMARY KEY, sinkhole_ipv4 TEXT NOT NULL, \
     sinkhole_ipv6 TEXT NOT NULL, any_query_policy TEXT NOT NULL)",
    "INSERT INTO filtering_config VALUES (1, '0.0.0.0', '::', 'notimp')",
    "CREATE TABLE resolver_config (id INTEGER PRIMARY KEY, strategy TEXT NOT NULL, \
     bootstrap_resolvers TEXT NOT NULL)",
    "INSERT INTO resolver_config VALUES (1, 'round_robin', '')",
    "CREATE TABLE upstream_servers (id TEXT PRIMARY KEY, enabled BOOLEAN NOT NULL, \
     protocol TEXT NOT NULL, address TEXT NOT NULL, auth_token TEXT, auth_username TEXT, \
     auth_password TEXT, max_hops INTEGER, nameserver_ip_family TEXT, root_hints_path TEXT, \
     root_key_path TEXT, dnssec BOOLEAN NOT NULL, sort_order INTEGER NOT NULL)",
    "CREATE TABLE zones (id TEXT PRIMARY KEY, zone TEXT NOT NULL, enabled BOOLEAN NOT NULL, \
     bypass_filter BOOLEAN NOT NULL, fallback_to_default_resolvers BOOLEAN NOT NULL, strategy TEXT)",
    "CREATE TABLE zone_servers (id TEXT PRIMARY KEY, \
     zone_id TEXT NOT NULL REFERENCES zones(id) ON DELETE CASCADE, enabled BOOLEAN NOT NULL, \
     protocol TEXT NOT NULL, address TEXT NOT NULL, auth_token TEXT, auth_username TEXT, \
     auth_password TEXT, check_interval TEXT, max_hops INTEGER, nameserver_ip_family TEXT, \
     root_hints_path TEXT, root_key_path TEXT, dnssec BOOLEAN NOT NULL, sort_order INTEGER NOT NULL)",
    "CREATE TABLE zone_discovery (id TEXT PRIMARY KEY, enabled BOOLEAN NOT NULL, \
     address TEXT NOT NULL, check_interval TEXT, bypass_filter BOOLEAN NOT NULL, \
     fallback_to_default_resolvers BOOLEAN NOT NULL, auth_token TEXT, auth_username TEXT, \
     auth_password TEXT)",
    "CREATE TABLE zone_discovery_allowed_types (id TEXT PRIMARY KEY, \
     zone_discovery_id TEXT NOT NULL REFERENCES zone_discovery(id) ON DELETE CASCADE, \
     allowed_type TEXT NOT NULL)",
];

struct Database {
    runtime: tokio::runtime::Runtime,
    pool: SqlitePool,
}

fn setup_test_pool() -> Database {
    let runtime = tokio::runtime::Builder::new_current_thread().enable_all().build().unwrap();
    let pool = runtime
        .block_on(SqlitePoolOptions::new().max_connections(1).connect("sqlite::memory:"))
        .expect("connect to in-memory SQLite");
    for statement in SCHEMA {
        runtime.block_on(sqlx::query(statement).execute(&pool)).unwrap();
    }
    Database { runtime, pool }
}

impl Database {
    fn rows(&self, statement: Statement) -> Vec<SqliteRow> {
        let mut query = sqlx::query(statement.sql);
        for param in statement.params {
            query = match param {
                Param::Text(t) => query.bind(t),
                Param::OptText(t) => query.bind(t),
                Param::Integer(n) => query.bind(n),
                Param::OptInteger(n) => query.bind(n),
                Param::Flag(b) => query.bind(b),
            };
        }
        self.runtime.block_on(query.fetch_all(&self.pool)).expect(&statement.context)
    }

    fn count(&self) -> i64 {
        self.rows(SqlxFilterListRepository::count())[0].get(0)
    }

    fn list(&self, name: &str) -> Option<FilterListRecord> {
        self.rows(SqlxFilterListRepository::get_by_name(name)).first().map(|row| FilterListRecord {
            id: row.get("id"),
            name: row.get("name"),
            kind: row.get("kind"),
            url: row.get("url"),
            interval_seconds: row.get("interval_seconds"),
            enabled: row.get("enabled"),
            list_type: row.get("list_type"),
        })
    }

    fn document(&self, key: &str) -> Option<FilterCacheDocumentRecord> {
        self.rows(SqlxFilterCacheRepository::load(key)).first().map(|row| {
            FilterCacheDocumentRecord { key: row.get("key"), value: row.get("value") }
        })
    }

    fn zones(&self) -> Vec<ZoneRecord> {
        let zones = self.rows(SqlxZoneRepository::get_all_zones());
        let servers = self.rows(SqlxZoneRepository::get_all_zone_servers());
        attach_servers(
            zones
                .iter()
                .map(|row| ZoneRecord {
                    id: row.get("id"),
                    zone: row.get("zone"),
                    enabled: row.get("enabled"),
                    bypass_filter: row.get("bypass_filter"),
                    fallback_to_default_resolvers: row.get("fallback_to_default_resolvers"),
                    strategy: row.get("strategy"),
                    servers: Vec::new(),
                })
                .collect(),
            servers.iter().map(zone_server_of).collect(),
        )
    }

    fn places(&self) -> Vec<ZoneDiscoveryRecord> {
        let places = self.rows(SqlxZoneDiscoveryRepository::get_all());
        let types = self.rows(SqlxZoneDiscoveryRepository::get_all_types());
        attach_allowed_types(
            places
                .iter()
                .map(|row| ZoneDiscoveryRecord {
                    id: row.get("id"),
                    enabled: row.get("enabled"),
                    address: row.get("address"),
                    check_interval: row.get("check_interval"),
                    allowed_types: Vec::new(),
                    bypass_filter: row.get("bypass_filter"),
                    fallback_to_default_resolvers: row.get("fallback_to_default_resolvers"),
                    auth_token: row.get("auth_token"),
                    auth_username: row.get("auth_username"),
                    auth_password: row.get("auth_password"),
                })
                .collect(),
            types
                .iter()
                .map(|row| AllowedType {
                    zone_discovery_id: row.get("zone_discovery_id"),
                    allowed_type: row.get("allowed_type"),
                })
                .collect(),
        )
    }
}

fn zone_server_of(row: &SqliteRow) -> ZoneServerRecord {
    ZoneServerRecord {
        id: row.get("id"),
        zone_id: row.get("zone_id"),
        enabled: row.get("enabled"),
        protocol: row.get("protocol"),
        address: row.get("address"),
        auth_token: row.get("auth_token"),
        auth_username: row.get("auth_username"),
        auth_password: row.get("auth_password"),
        check_interval: row.get("check_interval"),
        max_hops: row.get("max_hops"),
        nameserver_ip_family: row.get("nameserver_ip_family"),
        root_hints_path: row.get("root_hints_path"),
        root_key_path: row.get("root_key_path"),
        dnssec: row.get("dnssec"),
        sort_order: row.get("sort_order"),
    }
}

fn list_with_url(url: &str) -> FilterListRecord {
    FilterListRecord {
        id: "id-1".to_string(),
        name: "test_list".to_string(),
        kind: "block".to_string(),
        url: url.to_string(),
        interval_seconds: 3600,
        enabled: true,
        list_type: "adguard".to_string(),
    }
}

#[test]
fn filter_list_crud() {
    let db = setup_test_pool();

    // Initially empty
    assert_eq!(db.count(), 0);
    assert!(db.rows(SqlxFilterListRepository::get_all()).is_empty());

    // Create
    db.rows(SqlxFilterListRepository::create(&list_with_url("https://example.com/list.txt")));
    assert_eq!(db.count(), 1);

    // Get by name
    let fetched = db.list("test_list").unwrap();
    assert_eq!(fetched.id, "id-1");
    assert_eq!(fetched.kind, "block");
    assert_eq!(fetched.url, "https://example.com/list.txt");
    assert_eq!(fetched.interval_seconds, 3600);
    assert_eq!(fetched.list_type, "adguard");

    // Update
    db.rows(SqlxFilterListRepository::update(&list_with_url("https://example.com/updated.txt")));
    assert_eq!(db.list("test_list").unwrap().url, "https://example.com/updated.txt");

    // Set enabled
    db.rows(SqlxFilterListRepository::set_enabled("id-1", false));
    assert!(!db.list("test_list").unwrap().enabled);

    // Delete
    db.rows(SqlxFilterListRepository::delete("id-1"));
    assert_eq!(db.count(), 0);
}

#[test]
fn filter_list_get_by_name_not_found() {
    assert!(setup_test_pool().list("nonexistent").is_none());
}

fn store(db: &Database, value: &str) {
    let record =
        FilterCacheDocumentRecord { key: "block:test".to_string(), value: value.to_string() };
    db.rows(SqlxFilterCacheRepository::store(&record, Dialect::Sqlite));
}

#[test]
fn filter_cache_store_and_load() {
    let db = setup_test_pool();

    // Initially empty
    assert!(db.document("block:test").is_none());

    // Store
    store(&db, r#"{"kind":"block","domains":["a.com"],"exceptions":[]}"#);

    // Load
    let doc = db.document("block:test").unwrap();
    assert_eq!(doc.key, "block:test");
    assert!(doc.value.contains("a.com"));

    // Upsert (update)
    store(&db, r#"{"kind":"block","domains":["b.com"],"exceptions":[]}"#);
    let doc = db.document("block:test").unwrap();
    assert!(doc.value.contains("b.com"));
    assert!(!doc.value.contains("a.com"));
}

#[test]
fn filtering_config_get_and_update() {
    let db = setup_test_pool();

    let row = &db.rows(SqlxFilteringConfigRepository::get())[0];
    assert_eq!(row.get::<String, _>("sinkhole_ipv4"), "0.0.0.0");
    assert_eq!(row.get::<String, _>("sinkhole_ipv6"), "::");
    assert_eq!(row.get::<String, _>("any_query_policy"), "notimp");

    // Update
    db.rows(SqlxFilteringConfigRepository::update(&FilteringConfigRecord {
        sinkhole_ipv4: "127.0.0.1".to_string(),
        sinkhole_ipv6: "::1".to_string(),
        any_query_policy: "refused".to_string(),
    }));
    let row = &db.rows(SqlxFilteringConfigRepository::get())[0];
    assert_eq!(row.get::<String, _>("sinkhole_ipv4"), "127.0.0.1");
    assert_eq!(row.get::<String, _>("sinkhole_ipv6"), "::1");
    assert_eq!(row.get::<String, _>("any_query_policy"), "refused");
}

#[test]
fn upstream_config_crud() {
    let db = setup_test_pool();
    let strategy = |db: &Database| {
        db.rows(SqlxUpstreamConfigRepository::get_resolver_config())[0].get::<String, _>("strategy")
    };

    // Default resolver config
    assert_eq!(strategy(&db), "round_robin");

    // Update resolver config
    db.rows(SqlxUpstreamConfigRepository::update_resolver_config(&ResolverConfigRecord {
        strategy: "failover".to_string(),
        bootstrap_resolvers: "8.8.8.8".to_string(),
    }));
    assert_eq!(strategy(&db), "failover");

    // Create server
    db.rows(SqlxUpstreamConfigRepository::create_server(&UpstreamServerRecord {
        id: "srv-1".to_string(),
        enabled: true,
        protocol: "dns".to_string(),
        address: "1.1.1.1:53".to_string(),
        auth_token: None,
        auth_username: None,
        auth_password: None,
        max_hops: None,
        nameserver_ip_family: None,
        root_hints_path: None,
        root_key_path: None,
        dnssec: true,
        sort_order: 0,
        bind_address: None,
        fwmark: None,
    }));
    let servers = db.rows(SqlxUpstreamConfigRepository::get_all_servers());
    assert_eq!(servers.len(), 1);
    assert_eq!(servers[0].get::<String, _>("address"), "1.1.1.1:53");
    assert_eq!(servers[0].get::<Option<i32>, _>("max_hops"), None);
    assert!(servers[0].get::<bool, _>("dnssec"));

    // Delete all
    db.rows(SqlxUpstreamConfigRepository::delete_all_servers());
    assert!(db.rows(SqlxUpstreamConfigRepository::get_all_servers()).is_empty());
}

#[test]
fn zone_crud_with_servers() {
    let db = setup_test_pool();

    // Create zone
    db.rows(SqlxZoneRepository::create_zone(&zone("zone-1", "home.arpa")));

    // Create zone server
    let server = zone_server("zs-1", "zone-1", "192.168.1.1:53");
    db.rows(SqlxZoneRepository::create_zone_server(&server));

    // Get all with servers
    let zones = db.zones();
    assert_eq!(zones.len(), 1);
    assert_eq!(zones[0].zone, "home.arpa");
    assert!(zones[0].bypass_filter);
    assert_eq!(zones[0].servers.len(), 1);
    assert_eq!(zones[0].servers[0].address, "192.168.1.1:53");

    // Get by zone
    let found = db.rows(SqlxZoneRepository::get_by_zone("home.arpa"));
    assert_eq!(found[0].get::<String, _>("id"), "zone-1");
    let servers = db.rows(SqlxZoneRepository::get_zone_servers("zone-1"));
    assert_eq!(zone_server_of(&servers[0]).id, "zs-1");

    // Update
    db.rows(SqlxZoneRepository::update_zone(&zone("zone-1", "lan")));
    assert_eq!(db.zones()[0].zone, "lan");

    // Delete servers, and all (cascade)
    db.rows(SqlxZoneRepository::delete_zone_servers("zone-1"));
    assert!(db.zones()[0].servers.is_empty());
    db.rows(SqlxZoneRepository::create_zone_server(&server));
    db.rows(SqlxZoneRepository::delete_all_zones());
    assert!(db.zones().is_empty());
    assert!(db.rows(SqlxZoneRepository::get_all_zone_servers()).is_empty());
    db.rows(SqlxZoneRepository::create_zone(&zone("zone-1", "home.arpa")));
    db.rows(SqlxZoneRepository::delete_zone("zone-1"));
    assert!(db.zones().is_empty());
}

fn place(types: &[&str]) -> ZoneDiscoveryRecord {
    ZoneDiscoveryRecord {
        id: "zd-1".to_string(),
        enabled: true,
        address: "https://example.com/zones.json".to_string(),
        check_interval: Some("15m".to_string()),
        allowed_types: types.iter().map(|t| t.to_string()).collect(),
        bypass_filter: false,
        fallback_to_default_resolvers: true,
        auth_token: Some("secret".to_string()),
        auth_username: None,
        auth_password: None,
    }
}

#[test]
fn zone_discovery_crud() {
    let db = setup_test_pool();
    assert!(db.places().is_empty());

    let ids = vec!["t1".to_string(), "t2".to_string()];
    for statement in SqlxZoneDiscoveryRepository::create(&place(&["reverse", "forward"]), &ids) {
        db.rows(statement);
    }
    let entries = db.places();
    assert_eq!(entries.len(), 1);
    assert_eq!(entries[0].address, "https://example.com/zones.json");
    assert!(entries[0].fallback_to_default_resolvers);
    assert_eq!(entries[0].auth_token, Some("secret".to_string()));
    assert_eq!(entries[0].allowed_types, vec!["forward", "reverse"]);

    // The types are replaced
    for statement in SqlxZoneDiscoveryRepository::update(&place(&["new"]), &vec!["t3".to_string()])
    {
        db.rows(statement);
    }
    assert_eq!(db.places()[0].allowed_types, vec!["new"]);
    assert_eq!(db.rows(SqlxZoneDiscoveryRepository::get_types("zd-1")).len(), 1);
    assert_eq!(db.rows(SqlxZoneDiscoveryRepository::get_by_id("zd-1")).len(), 1);
    db.rows(SqlxZoneDiscoveryRepository::delete("gone"));
    assert_eq!(db.places().len(), 1);

    db.rows(SqlxZoneDiscoveryRepository::delete_all());
    assert!(db.places().is_empty());
}

#[test]
fn failing_statements_say_what_failed() {
    let list = list_with_url("u");
    assert_eq!(
        SqlxFilterListRepository::create(&list).context,
        "failed to insert filter list 'test_list'"
    );
    assert_eq!(
        SqlxFilterListRepository::set_enabled("id-1", true).context,
        "failed to set enabled=true for filter list 'id-1'"
    );
    let statements = SqlxZoneDiscoveryRepository::update(&place(&["a"]), &vec!["t".to_string()]);
    let contexts: Vec<&str> = statements.iter().map(|s| s.context.as_str()).collect();
    assert_eq!(
        contexts,
        vec![
            "failed to update zone discovery 'zd-1'",
            "failed to delete allowed types for zone discovery 'zd-1'",
            "failed to insert allowed type 'a' for zone discovery 'zd-1'",
        ]
    );
}
