use dns_filter::entities::plugin::{PluginQuery, PluginVerdict};
use dns_filter::entities::query_log::{FilterDecision, QueryDecision, QueryLog, QueryLogEntry};
use dns_filter::entities::resolution::UpstreamStrategy;
use dns_filter::plugin_runtime::{PluginLoadError, WasmPluginRuntime};

fn entry(timestamp: u64, qtype: &str, decision: QueryDecision) -> QueryLogEntry {
    QueryLogEntry {
        timestamp,
        domain: format!("domain{timestamp}.example.com"),
        qtype: qtype.to_string(),
        decision,
        source_ip: "127.0.0.1".to_string(),
        response_time_ms: 1,
    }
}

#[test]
fn push_respects_max_entries() {
    let mut log = QueryLog::new(3);
    for i in 0..5 {
        log.push(QueryLogEntry {
            timestamp: i,
            domain: format!("domain{i}.example.com"),
            qtype: "A".to_string(),
            decision: QueryDecision::Passthrough,
            source_ip: "127.0.0.1".to_string(),
            response_time_ms: 1,
        });
    }
    assert_eq!(log.len(), 3);
    assert_eq!(log.entries()[0].timestamp, 2);
    assert_eq!(log.entries()[2].timestamp, 4);
}

#[test]
fn empty_log_returns_zero_entries() {
    let log = QueryLog::new(100);
    assert_eq!(log.len(), 0);
    assert!(log.entries().is_empty());
}

#[test]
fn push_within_capacity_retains_all() {
    let mut log = QueryLog::new(10);
    for i in 0..5 {
        log.push(QueryLogEntry {
            timestamp: i,
            domain: format!("domain{i}.example.com"),
            qtype: "AAAA".to_string(),
            decision: QueryDecision::Blocked,
            source_ip: "::1".to_string(),
            response_time_ms: 2,
        });
    }
    assert_eq!(log.len(), 5);
    assert_eq!(log.entries()[0].timestamp, 0);
    assert_eq!(log.entries()[4].timestamp, 4);
}

#[test]
fn log_without_room_holds_the_newest_entry() {
    let mut log = QueryLog::new(0);
    assert!(log.is_empty());
    log.push(entry(1, "A", QueryDecision::Allowed));
    log.push(entry(2, "A", QueryDecision::Allowed));
    assert_eq!(log.len(), 1);
    assert_eq!(log.entries()[0].timestamp, 2);
    assert_eq!(log.max_entries(), 0);
}

#[test]
fn log_holds_the_last_entries_in_order() {
    let mut log = QueryLog::new(4);
    for i in 0..9 {
        log.push(entry(i, "MX", QueryDecision::Allowed));
    }
    let times: Vec<u64> = log.entries().iter().map(|e| e.timestamp).collect();
    assert_eq!(times, vec![5, 6, 7, 8]);
}

#[test]
fn filter_decisions_become_query_decisions() {
    assert_eq!(QueryDecision::from(FilterDecision::Allow), QueryDecision::Allowed);
    assert_eq!(QueryDecision::from(FilterDecision::Block), QueryDecision::Blocked);
    assert_eq!(QueryDecision::from(FilterDecision::Neutral), QueryDecision::Passthrough);
}

#[test]
fn strategies_are_found_by_name() {
    assert_eq!("random".parse(), Ok(UpstreamStrategy::Random));
    assert_eq!("failover".parse(), Ok(UpstreamStrategy::Failover));
    assert_eq!("round_robin".parse(), Ok(UpstreamStrategy::RoundRobin));
    assert_eq!("Random".parse::<UpstreamStrategy>(), Err(()));
    assert_eq!(UpstreamStrategy::parse(""), None);
}

#[test]
fn runtime_starts_empty() {
    let rt = WasmPluginRuntime::new();
    assert_eq!(rt.plugin_count(), 0);
    assert_eq!(WasmPluginRuntime::default().plugin_count(), 0);
}

#[test]
fn load_plugin_returns_not_implemented() {
    let result = WasmPluginRuntime::load_plugin("/fake.wasm", "test");
    assert!(result.is_err());
    assert!(result.unwrap_err().message().contains("not yet implemented"));
}

#[test]
fn plugin_errors_say_what_failed() {
    assert_eq!(
        PluginLoadError::IoError("gone".to_string()).message(),
        "failed to read plugin file: gone"
    );
    assert_eq!(
        PluginLoadError::CompileError("bad".to_string()).message(),
        "failed to compile WASM module: bad"
    );
    assert_eq!(
        PluginLoadError::MissingExport("decide".to_string()).message(),
        "plugin missing required export: decide"
    );
}

#[test]
fn plugin_values_compare_by_content() {
    let query = PluginQuery {
        domain: "example.com".to_string(),
        qtype: 1,
        client_ip: "10.0.0.1".to_string(),
    };
    assert_eq!(query.qtype, 1);
    assert_ne!(PluginVerdict::Pass, PluginVerdict::Block);
    assert_eq!(
        PluginVerdict::Rewrite { target: "a".to_string() },
        PluginVerdict::Rewrite { target: "a".to_string() }
    );
}
