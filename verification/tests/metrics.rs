use dns_filter::metrics::{
    init_prometheus_metrics, instruments, instruments_of_query, metrics_enabled,
    record_blocklist_hit, record_cache_operation, record_dns_query, record_upstream_request, snapshot,
    upstream_snapshots, Counters, ErrorSample, Instrument, LatencySample, Metrics, QueryDecision,
    UpstreamSamples, COUNTER_LIMIT,
};

#[test]
fn test_query_decision_enum() {
    assert_eq!(QueryDecision::Blocked, QueryDecision::Blocked);
    assert_ne!(QueryDecision::Blocked, QueryDecision::Allowed);
    assert_ne!(QueryDecision::Allowed, QueryDecision::Passthrough);
}

fn counters(metrics: &Metrics) -> Counters {
    metrics.state.unwrap()
}

#[test]
fn queries_are_counted_by_their_instruments() {
    assert_eq!(
        instruments_of_query(QueryDecision::Blocked),
        vec![Instrument::QueriesTotal, Instrument::QueriesBlocked]
    );
    assert_eq!(
        instruments_of_query(QueryDecision::Allowed),
        vec![Instrument::QueriesTotal, Instrument::QueriesAllowed]
    );
    assert_eq!(
        instruments_of_query(QueryDecision::Passthrough),
        vec![Instrument::QueriesTotal, Instrument::QueriesPassthrough]
    );
}

#[test]
fn nothing_is_counted_before_the_start() {
    let mut metrics = Metrics::default();
    assert!(!metrics_enabled(&metrics));
    record_dns_query(&mut metrics, "dns", QueryDecision::Blocked);
    record_cache_operation(&mut metrics, true);
    assert_eq!(metrics, Metrics::default());
    assert_eq!(snapshot(&metrics, &vec![], &vec![]).counters.dns_queries_total, 0);
}

#[test]
fn events_are_counted_by_kind() {
    let mut metrics = Metrics::default();
    init_prometheus_metrics(&mut metrics);
    assert!(metrics_enabled(&metrics));
    record_dns_query(&mut metrics, "dns", QueryDecision::Passthrough);
    record_dns_query(&mut metrics, "doh", QueryDecision::Blocked);
    record_dns_query(&mut metrics, "dot", QueryDecision::Allowed);
    record_blocklist_hit(&mut metrics, None);
    record_cache_operation(&mut metrics, true);
    record_cache_operation(&mut metrics, true);
    record_cache_operation(&mut metrics, false);
    let c = counters(&metrics);
    assert_eq!(c.dns_queries_total, 3);
    assert_eq!(c.dns_queries_blocked + c.dns_queries_allowed + c.dns_queries_passthrough, 3);
    assert_eq!((c.blocklist_hits_total, c.cache_hits_total, c.cache_misses_total), (1, 2, 1));
    init_prometheus_metrics(&mut metrics);
    assert_eq!(counters(&metrics), c);
}

#[test]
fn counters_stop_at_their_limit() {
    let mut metrics = Metrics::default();
    init_prometheus_metrics(&mut metrics);
    let mut state = counters(&metrics);
    state.cache_hits_total = COUNTER_LIMIT;
    metrics.state = Some(state);
    record_cache_operation(&mut metrics, true);
    assert_eq!(counters(&metrics).cache_hits_total, COUNTER_LIMIT);
}

#[test]
fn instruments_have_names_of_their_own() {
    let names: Vec<&str> = instruments().iter().map(|i| i.name()).collect();
    assert_eq!(
        names,
        vec![
            "dns_queries_total",
            "dns_queries_blocked",
            "dns_queries_allowed",
            "dns_queries_passthrough",
            "blocklist_hits_total",
            "cache_hits_total",
            "cache_misses_total",
            "upstream_request_duration_seconds",
            "upstream_errors_total",
        ]
    );
    assert_eq!(Instrument::UpstreamErrors.labels(), vec!["upstream", "error"]);
    assert!(Instrument::CacheHits.labels().is_empty());
    assert_eq!(Instrument::CacheHits.help(), "Total number of DNS cache hits");
}

fn label(name: &str, value: &str) -> (String, String) {
    (name.to_string(), value.to_string())
}

#[test]
fn samples_are_gathered_by_upstream() {
    let latencies = vec![
        LatencySample { labels: vec![label("upstream", "a")], count: 5 },
        LatencySample { labels: vec![label("upstream", "b")], count: 7 },
    ];
    let errors = vec![
        ErrorSample { labels: vec![label("error", "timeout"), label("upstream", "b")], value: 2 },
        ErrorSample { labels: vec![label("upstream", "b"), label("error", "io")], value: 1 },
        ErrorSample { labels: vec![label("upstream", "c")], value: 4 },
    ];
    let mut all = upstream_snapshots(&latencies, &errors);
    all.sort_by(|x, y| x.upstream.cmp(&y.upstream));
    let seen: Vec<(&str, u64, u64, u64)> = all
        .iter()
        .map(|u| (u.upstream.as_str(), u.requests_total, u.errors_total, u.latency_count))
        .collect();
    assert_eq!(seen, vec![("a", 5, 0, 5), ("b", 7, 3, 7), ("c", 0, 4, 0)]);
    assert_eq!(all[1].latency_sample, Some(1));
    assert_eq!(all[2].latency_sample, None);
}

#[test]
fn requests_and_errors_are_counted_by_server() {
    let mut metrics = Metrics::default();
    let mut samples = UpstreamSamples { latencies: vec![], errors: vec![] };
    record_upstream_request(&metrics, &mut samples, "a", Some("timeout"));
    assert!(samples.latencies.is_empty() && samples.errors.is_empty());
    init_prometheus_metrics(&mut metrics);
    for (upstream, error) in [
        ("b", None),
        ("a", Some("timeout")),
        ("a", Some("refused")),
        ("a", Some("timeout")),
        ("a", None),
        ("b", Some("timeout")),
    ] {
        record_upstream_request(&metrics, &mut samples, upstream, error);
    }
    let values: Vec<u64> = samples.errors.iter().map(|e| e.value).collect();
    assert_eq!(values, vec![2, 1, 1]);
    let shown = snapshot(&metrics, &samples.latencies, &samples.errors).upstreams;
    let told: Vec<(&str, u64, u64, u64)> = shown
        .iter()
        .map(|u| (u.upstream.as_str(), u.requests_total, u.latency_count, u.errors_total))
        .collect();
    assert_eq!(told, vec![("a", 4, 4, 3), ("b", 2, 2, 1)]);
}
