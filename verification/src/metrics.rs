//! Counters of what the server does.

use crate::text::{chars_of, same};
use vstd::prelude::*;

verus! {

/// DNS query decision outcomes for metrics.
#[derive(Clone, Copy, Debug, PartialEq, Eq, Structural)]
pub enum QueryDecision {
    /// Query was blocked by a blocklist.
    Blocked,
    /// Query was allowed by an allowlist.
    Allowed,
    /// Query was processed without a blocking/allowing decision.
    Passthrough,
}

/// The largest value that a counter reaches: it counts in a floating-point number, which
/// stays as it is when one is added to two to the power of 53.
pub const COUNTER_LIMIT: u64 = 0x20_0000_0000_0000;

/// A counter one further.
pub open spec fn counted(n: u64) -> u64 {
    if n < COUNTER_LIMIT {
        (n + 1) as u64
    } else {
        n
    }
}

fn inc(n: u64) -> (r: u64)
    ensures
        r == counted(n),
{
    if n < COUNTER_LIMIT {
        n + 1
    } else {
        n
    }
}

/// The counters.
#[derive(Clone, Copy, Debug, PartialEq, Eq, Structural)]
pub struct Counters {
    pub dns_queries_total: u64,
    pub dns_queries_blocked: u64,
    pub dns_queries_allowed: u64,
    pub dns_queries_passthrough: u64,
    pub blocklist_hits_total: u64,
    pub cache_hits_total: u64,
    pub cache_misses_total: u64,
}

/// Counters that have counted nothing.
pub open spec fn zero_counters() -> Counters {
    Counters {
        dns_queries_total: 0,
        dns_queries_blocked: 0,
        dns_queries_allowed: 0,
        dns_queries_passthrough: 0,
        blocklist_hits_total: 0,
        cache_hits_total: 0,
        cache_misses_total: 0,
    }
}

fn fresh_counters() -> (r: Counters)
    ensures
        r == zero_counters(),
{
    Counters {
        dns_queries_total: 0,
        dns_queries_blocked: 0,
        dns_queries_allowed: 0,
        dns_queries_passthrough: 0,
        blocklist_hits_total: 0,
        cache_hits_total: 0,
        cache_misses_total: 0,
    }
}

/// The counters, which count from the time at which they are initialized.
#[derive(Clone, Copy, Debug, PartialEq, Eq, Structural)]
pub struct Metrics {
    pub state: Option<Counters>,
}

impl Default for Metrics {
    fn default() -> (r: Metrics)
        ensures
            r.state is None,
    {
        Metrics { state: None }
    }
}

/// The counters once counting has begun.
pub open spec fn begun(state: Option<Counters>) -> Option<Counters> {
    match state {
        Some(c) => Some(c),
        None => Some(zero_counters()),
    }
}

/// Begins to count. A second call changes nothing.
pub fn init_prometheus_metrics(metrics: &mut Metrics)
    ensures
        final(metrics).state == begun(old(metrics).state),
        final(metrics).state == match old(metrics).state {
            Some(c) => Some(c),
            None => Some(zero_counters()),
        },
{
    if metrics.state.is_none() {
        metrics.state = Some(fresh_counters());
    }
}

/// Returns true when metrics have been initialized.
pub fn metrics_enabled(metrics: &Metrics) -> (r: bool)
    ensures
        r == (metrics.state is Some),
{
    metrics.state.is_some()
}

/// The counters after a query: the total goes up, and the counter of the decision.
pub open spec fn after_query(c: Counters, decision: QueryDecision) -> Counters {
    let t = Counters { dns_queries_total: counted(c.dns_queries_total), ..c };
    match decision {
        QueryDecision::Blocked => Counters {
            dns_queries_blocked: counted(c.dns_queries_blocked),
            ..t
        },
        QueryDecision::Allowed => Counters {
            dns_queries_allowed: counted(c.dns_queries_allowed),
            ..t
        },
        QueryDecision::Passthrough => Counters {
            dns_queries_passthrough: counted(c.dns_queries_passthrough),
            ..t
        },
    }
}

/// Record a DNS query with the given decision outcome. The protocol does not count, and
/// nothing is counted before the initialization.
pub fn record_dns_query(metrics: &mut Metrics, protocol: &str, decision: QueryDecision)
    ensures
        final(metrics).state == match old(metrics).state {
            Some(c) => Some(after_query(c, decision)),
            None => None,
        },
{
    let _ = protocol;
    if let Some(c) = metrics.state {
        let mut n = c;
        n.dns_queries_total = inc(c.dns_queries_total);
        match decision {
            QueryDecision::Blocked => {
                n.dns_queries_blocked = inc(c.dns_queries_blocked);
            },
            QueryDecision::Allowed => {
                n.dns_queries_allowed = inc(c.dns_queries_allowed);
            },
            QueryDecision::Passthrough => {
                n.dns_queries_passthrough = inc(c.dns_queries_passthrough);
            },
        }
        metrics.state = Some(n);
    }
}

/// The counters after a hit on a blocklist.
pub open spec fn after_hit(c: Counters) -> Counters {
    Counters { blocklist_hits_total: counted(c.blocklist_hits_total), ..c }
}

/// The counters after the cache was asked.
pub open spec fn after_cache(c: Counters, hit: bool) -> Counters {
    if hit {
        Counters { cache_hits_total: counted(c.cache_hits_total), ..c }
    } else {
        Counters { cache_misses_total: counted(c.cache_misses_total), ..c }
    }
}

/// Record a blocklist hit. The name of the list does not count.
pub fn record_blocklist_hit(metrics: &mut Metrics, _blocklist_name: Option<&str>)
    ensures
        old(metrics).state matches Some(c) ==> final(metrics).state == Some(after_hit(c)),
        final(metrics).state == match old(metrics).state {
            Some(c) => Some(
                Counters { blocklist_hits_total: counted(c.blocklist_hits_total), ..c },
            ),
            None => None,
        },
{
    if let Some(c) = metrics.state {
        let mut n = c;
        n.blocklist_hits_total = inc(c.blocklist_hits_total);
        metrics.state = Some(n);
    }
}

/// Record a DNS cache operation.
pub fn record_cache_operation(metrics: &mut Metrics, hit: bool)
    ensures
        old(metrics).state matches Some(c) ==> final(metrics).state == Some(after_cache(c, hit)),
        final(metrics).state == match old(metrics).state {
            Some(c) => Some(
                if hit {
                    Counters { cache_hits_total: counted(c.cache_hits_total), ..c }
                } else {
                    Counters { cache_misses_total: counted(c.cache_misses_total), ..c }
                },
            ),
            None => None,
        },
{
    if let Some(c) = metrics.state {
        let mut n = c;
        if hit {
            n.cache_hits_total = inc(c.cache_hits_total);
        } else {
            n.cache_misses_total = inc(c.cache_misses_total);
        }
        metrics.state = Some(n);
    }
}

/// Whether the total is the sum of the three decisions.
pub open spec fn adds_up(c: Counters) -> bool {
    c.dns_queries_total == c.dns_queries_blocked + c.dns_queries_allowed + c.dns_queries_passthrough
}

/// As long as the total is below its limit, it is the sum of the blocked, the allowed and
/// the other queries, whatever is recorded.
pub proof fn law_decisions_add_up(c: Counters, decision: QueryDecision)
    requires
        adds_up(c),
        c.dns_queries_total < COUNTER_LIMIT,
    ensures
        adds_up(zero_counters()),
        adds_up(after_query(c, decision)),
{
}

// ---- the instruments that are exported ----

/// An instrument that is exported.
#[derive(Clone, Copy, Debug, PartialEq, Eq, Structural)]
pub enum Instrument {
    QueriesTotal,
    QueriesBlocked,
    QueriesAllowed,
    QueriesPassthrough,
    BlocklistHits,
    CacheHits,
    CacheMisses,
    UpstreamDuration,
    UpstreamErrors,
}

impl Instrument {
    /// The name of the instrument.
    pub open spec fn shown(self) -> Seq<char> {
        match self {
            Instrument::QueriesTotal => "dns_queries_total"@,
            Instrument::QueriesBlocked => "dns_queries_blocked"@,
            Instrument::QueriesAllowed => "dns_queries_allowed"@,
            Instrument::QueriesPassthrough => "dns_queries_passthrough"@,
            Instrument::BlocklistHits => "blocklist_hits_total"@,
            Instrument::CacheHits => "cache_hits_total"@,
            Instrument::CacheMisses => "cache_misses_total"@,
            Instrument::UpstreamDuration => "upstream_request_duration_seconds"@,
            Instrument::UpstreamErrors => "upstream_errors_total"@,
        }
    }

    /// The name of the instrument.
    pub fn name(self) -> (r: &'static str)
        ensures
            r@ == self.shown(),
    {
        match self {
            Instrument::QueriesTotal => "dns_queries_total",
            Instrument::QueriesBlocked => "dns_queries_blocked",
            Instrument::QueriesAllowed => "dns_queries_allowed",
            Instrument::QueriesPassthrough => "dns_queries_passthrough",
            Instrument::BlocklistHits => "blocklist_hits_total",
            Instrument::CacheHits => "cache_hits_total",
            Instrument::CacheMisses => "cache_misses_total",
            Instrument::UpstreamDuration => "upstream_request_duration_seconds",
            Instrument::UpstreamErrors => "upstream_errors_total",
        }
    }

    /// What the instrument counts.
    pub fn help(self) -> (r: &'static str)
        ensures
            r@ == match self {
                Instrument::QueriesTotal => "Total number of DNS queries received"@,
                Instrument::QueriesBlocked => "Total number of DNS queries blocked by blocklists"@,
                Instrument::QueriesAllowed => "Total number of DNS queries allowed by allowlists"@,
                Instrument::QueriesPassthrough => "Total number of DNS queries processed without filtering"@,
                Instrument::BlocklistHits => "Total number of blocklist hits"@,
                Instrument::CacheHits => "Total number of DNS cache hits"@,
                Instrument::CacheMisses => "Total number of DNS cache misses"@,
                Instrument::UpstreamDuration => "Upstream resolver request latency in seconds"@,
                Instrument::UpstreamErrors => "Total number of upstream resolver errors"@,
            },
    {
        match self {
            Instrument::QueriesTotal => "Total number of DNS queries received",
            Instrument::QueriesBlocked => "Total number of DNS queries blocked by blocklists",
            Instrument::QueriesAllowed => "Total number of DNS queries allowed by allowlists",
            Instrument::QueriesPassthrough => "Total number of DNS queries processed without filtering",
            Instrument::BlocklistHits => "Total number of blocklist hits",
            Instrument::CacheHits => "Total number of DNS cache hits",
            Instrument::CacheMisses => "Total number of DNS cache misses",
            Instrument::UpstreamDuration => "Upstream resolver request latency in seconds",
            Instrument::UpstreamErrors => "Total number of upstream resolver errors",
        }
    }

    /// By what the instrument tells its counts apart: the upstream server, and for errors
    /// also the error.
    pub fn labels(self) -> (r: Vec<&'static str>)
        ensures
            match self {
                Instrument::UpstreamDuration => r@ == seq!["upstream"],
                Instrument::UpstreamErrors => r@ == seq!["upstream", "error"],
                _ => r@.len() == 0,
            },
    {
        let mut v: Vec<&'static str> = Vec::new();
        match self {
            Instrument::UpstreamDuration => {
                v.push("upstream");
            },
            Instrument::UpstreamErrors => {
                v.push("upstream");
                v.push("error");
            },
            _ => {},
        }
        v
    }
}

/// All instruments, in the order in which they are registered.
pub open spec fn all_instruments() -> Seq<Instrument> {
    seq![
        Instrument::QueriesTotal,
        Instrument::QueriesBlocked,
        Instrument::QueriesAllowed,
        Instrument::QueriesPassthrough,
        Instrument::BlocklistHits,
        Instrument::CacheHits,
        Instrument::CacheMisses,
        Instrument::UpstreamDuration,
        Instrument::UpstreamErrors,
    ]
}

/// All instruments, in the order in which they are registered.
pub fn instruments() -> (r: Vec<Instrument>)
    ensures
        r@ == all_instruments(),
{
    let mut v: Vec<Instrument> = Vec::new();
    v.push(Instrument::QueriesTotal);
    v.push(Instrument::QueriesBlocked);
    v.push(Instrument::QueriesAllowed);
    v.push(Instrument::QueriesPassthrough);
    v.push(Instrument::BlocklistHits);
    v.push(Instrument::CacheHits);
    v.push(Instrument::CacheMisses);
    v.push(Instrument::UpstreamDuration);
    v.push(Instrument::UpstreamErrors);
    v
}

/// The instruments that count a query, by what was decided about it.
pub open spec fn query_instruments(decision: QueryDecision) -> Seq<Instrument> {
    seq![
        Instrument::QueriesTotal,
        match decision {
            QueryDecision::Blocked => Instrument::QueriesBlocked,
            QueryDecision::Allowed => Instrument::QueriesAllowed,
            QueryDecision::Passthrough => Instrument::QueriesPassthrough,
        },
    ]
}

/// The instruments that count a query, by what was decided about it.
pub fn instruments_of_query(decision: QueryDecision) -> (r: Vec<Instrument>)
    ensures
        r@ == query_instruments(decision),
{
    let mut v: Vec<Instrument> = Vec::new();
    v.push(Instrument::QueriesTotal);
    v.push(
        match decision {
            QueryDecision::Blocked => Instrument::QueriesBlocked,
            QueryDecision::Allowed => Instrument::QueriesAllowed,
            QueryDecision::Passthrough => Instrument::QueriesPassthrough,
        },
    );
    v
}

impl Counters {
    /// What an instrument has counted; the instruments of the upstream servers count by
    /// label, and not here.
    pub open spec fn of(self, instrument: Instrument) -> Option<u64> {
        match instrument {
            Instrument::QueriesTotal => Some(self.dns_queries_total),
            Instrument::QueriesBlocked => Some(self.dns_queries_blocked),
            Instrument::QueriesAllowed => Some(self.dns_queries_allowed),
            Instrument::QueriesPassthrough => Some(self.dns_queries_passthrough),
            Instrument::BlocklistHits => Some(self.blocklist_hits_total),
            Instrument::CacheHits => Some(self.cache_hits_total),
            Instrument::CacheMisses => Some(self.cache_misses_total),
            Instrument::UpstreamDuration => None,
            Instrument::UpstreamErrors => None,
        }
    }
}

/// A query is counted by its instruments, once by each, and by no other.
pub proof fn law_queries_are_counted_by_their_instruments(
    c: Counters,
    decision: QueryDecision,
    instrument: Instrument,
)
    ensures
        after_query(c, decision).of(instrument) == match c.of(instrument) {
            Some(n) => Some(
                if query_instruments(decision).contains(instrument) {
                    counted(n)
                } else {
                    n
                },
            ),
            None => None,
        },
        query_instruments(decision).no_duplicates(),
{
    let q = query_instruments(decision);
    assert(q[0] == Instrument::QueriesTotal);
    assert(q.contains(q[0]));
    assert(q.contains(q[1]));
}

/// No two instruments have the same name, so that all of them can be registered.
pub proof fn law_instruments_have_names_of_their_own(a: Instrument, b: Instrument)
    requires
        a.shown() == b.shown(),
    ensures
        a == b,
        all_instruments().contains(a),
{
    reveal_strlit("dns_queries_total");
    reveal_strlit("dns_queries_blocked");
    reveal_strlit("dns_queries_allowed");
    reveal_strlit("dns_queries_passthrough");
    reveal_strlit("blocklist_hits_total");
    reveal_strlit("cache_hits_total");
    reveal_strlit("cache_misses_total");
    reveal_strlit("upstream_request_duration_seconds");
    reveal_strlit("upstream_errors_total");
    assert("dns_queries_total"@.len() == 17);
    assert("dns_queries_blocked"@.len() == 19);
    assert("dns_queries_allowed"@.len() == 19);
    assert("dns_queries_passthrough"@.len() == 23);
    assert("blocklist_hits_total"@.len() == 20);
    assert("cache_hits_total"@.len() == 16);
    assert("cache_misses_total"@.len() == 18);
    assert("upstream_request_duration_seconds"@.len() == 33);
    assert("upstream_errors_total"@.len() == 21);
    assert("dns_queries_blocked"@[12] != "dns_queries_allowed"@[12]);
    let all = all_instruments();
    assert(all[0] == Instrument::QueriesTotal);
    assert(all[1] == Instrument::QueriesBlocked);
    assert(all[2] == Instrument::QueriesAllowed);
    assert(all[3] == Instrument::QueriesPassthrough);
    assert(all[4] == Instrument::BlocklistHits);
    assert(all[5] == Instrument::CacheHits);
    assert(all[6] == Instrument::CacheMisses);
    assert(all[7] == Instrument::UpstreamDuration);
    assert(all[8] == Instrument::UpstreamErrors);
}

// ---- snapshots ----

/// What is known about the latency of an upstream server: how many requests were
/// measured. The sum is found again by the place of the sample in its list.
#[derive(Debug)]
pub struct LatencySample {
    pub labels: Vec<(String, String)>,
    pub count: u64,
}

/// How often an upstream server failed in a certain way.
#[derive(Debug)]
pub struct ErrorSample {
    pub labels: Vec<(String, String)>,
    pub value: u64,
}

/// What is known about an upstream server.
#[derive(Debug)]
pub struct UpstreamSnapshot {
    pub upstream: String,
    pub requests_total: u64,
    pub errors_total: u64,
    pub latency_count: u64,
    /// The place of the sample that holds the sum of the latencies; there is none where
    /// nothing was measured.
    pub latency_sample: Option<usize>,
}

/// The value of the first label with a name; it is empty where there is none.
pub open spec fn label_value(labels: Seq<(String, String)>, name: Seq<char>) -> Seq<char>
    decreases labels.len(),
{
    if labels.len() == 0 {
        seq![]
    } else if labels[0].0@ == name {
        labels[0].1@
    } else {
        label_value(labels.skip(1), name)
    }
}

/// The upstream server that a sample is about.
pub open spec fn upstream_label(labels: Seq<(String, String)>) -> Seq<char> {
    label_value(labels, "upstream"@)
}

fn find_label(labels: &Vec<(String, String)>, name: &str) -> (r: String)
    ensures
        r@ == label_value(labels@, name@),
{
    let mut i: usize = 0;
    assert(labels@.skip(0) =~= labels@);
    while i < labels.len()
        invariant
            i <= labels@.len(),
            label_value(labels@, name@) == label_value(labels@.skip(i as int), name@),
        decreases labels@.len() - i,
    {
        assert(labels@.skip(i as int)[0] == labels@[i as int]);
        assert(labels@.skip(i as int).skip(1) =~= labels@.skip(i + 1));
        if same(labels[i].0.as_str(), name) {
            return labels[i].1.clone();
        }
        i += 1;
    }
    String::new()
}

fn find_upstream_label(labels: &Vec<(String, String)>) -> (r: String)
    ensures
        r@ == upstream_label(labels@),
{
    find_label(labels, "upstream")
}

/// The place of the last sample about an upstream server.
pub open spec fn last_sample(samples: Seq<LatencySample>, label: Seq<char>) -> Option<usize>
    decreases samples.len(),
{
    if samples.len() == 0 {
        None
    } else if upstream_label(samples.last().labels@) == label {
        Some((samples.len() - 1) as usize)
    } else {
        last_sample(samples.drop_last(), label)
    }
}

/// How often an upstream server failed in all.
pub open spec fn error_sum(samples: Seq<ErrorSample>, label: Seq<char>) -> nat
    decreases samples.len(),
{
    if samples.len() == 0 {
        0
    } else if upstream_label(samples.last().labels@) == label {
        error_sum(samples.drop_last(), label) + samples.last().value as nat
    } else {
        error_sum(samples.drop_last(), label)
    }
}

// ---- recording ----

/// The samples about upstream servers.
#[derive(Debug)]
pub struct UpstreamSamples {
    pub latencies: Vec<LatencySample>,
    pub errors: Vec<ErrorSample>,
}

/// The place of the last sample about an error of an upstream server.
pub open spec fn error_place(
    samples: Seq<ErrorSample>,
    upstream: Seq<char>,
    error: Seq<char>,
) -> Option<usize>
    decreases samples.len(),
{
    if samples.len() == 0 {
        None
    } else if upstream_label(samples.last().labels@) == upstream && label_value(
        samples.last().labels@,
        "error"@,
    ) == error {
        Some((samples.len() - 1) as usize)
    } else {
        error_place(samples.drop_last(), upstream, error)
    }
}

/// Whether samples count one more request to an upstream server than before: in its
/// sample, or in a new one where it had none.
pub open spec fn counts_request(
    before: Seq<LatencySample>,
    after: Seq<LatencySample>,
    upstream: Seq<char>,
) -> bool {
    match last_sample(before, upstream) {
        Some(i) => {
            &&& i < before.len()
            &&& after == before.update(i as int, after[i as int])
            &&& after[i as int].labels@ == before[i as int].labels@
            &&& after[i as int].count == before[i as int].count + 1
        },
        None => {
            let new = after.last();
            &&& after == before.push(new)
            &&& new.labels@.len() == 1
            &&& new.labels@[0].0@ == "upstream"@
            &&& new.labels@[0].1@ == upstream
            &&& new.count == 1
        },
    }
}

/// Whether samples count one more error of an upstream server than before: in the sample
/// of that error, or in a new one where there was none.
pub open spec fn counts_error(
    before: Seq<ErrorSample>,
    after: Seq<ErrorSample>,
    upstream: Seq<char>,
    error: Seq<char>,
) -> bool {
    match error_place(before, upstream, error) {
        Some(i) => {
            &&& i < before.len()
            &&& after == before.update(i as int, after[i as int])
            &&& after[i as int].labels@ == before[i as int].labels@
            &&& after[i as int].value == counted(before[i as int].value)
        },
        None => {
            let new = after.last();
            &&& after == before.push(new)
            &&& new.labels@.len() == 2
            &&& new.labels@[0].0@ == "error"@
            &&& new.labels@[0].1@ == error
            &&& new.labels@[1].0@ == "upstream"@
            &&& new.labels@[1].1@ == upstream
            &&& new.value == 1
        },
    }
}

fn find_latency(samples: &Vec<LatencySample>, upstream: &str) -> (r: Option<usize>)
    ensures
        r == last_sample(samples@, upstream@),
        r matches Some(i) ==> i < samples@.len(),
{
    let mut n: usize = samples.len();
    assert(samples@.take(n as int) =~= samples@);
    while n > 0
        invariant
            n <= samples@.len(),
            last_sample(samples@, upstream@) == last_sample(samples@.take(n as int), upstream@),
        decreases n,
    {
        assert(samples@.take(n as int).last() == samples@[n - 1]);
        assert(samples@.take(n as int).drop_last() =~= samples@.take(n - 1));
        n -= 1;
        if same(find_upstream_label(&samples[n].labels).as_str(), upstream) {
            return Some(n);
        }
    }
    None
}

fn find_error(samples: &Vec<ErrorSample>, upstream: &str, error: &str) -> (r: Option<usize>)
    ensures
        r == error_place(samples@, upstream@, error@),
        r matches Some(i) ==> i < samples@.len(),
{
    let mut n: usize = samples.len();
    assert(samples@.take(n as int) =~= samples@);
    while n > 0
        invariant
            n <= samples@.len(),
            error_place(samples@, upstream@, error@) == error_place(
                samples@.take(n as int),
                upstream@,
                error@,
            ),
        decreases n,
    {
        assert(samples@.take(n as int).last() == samples@[n - 1]);
        assert(samples@.take(n as int).drop_last() =~= samples@.take(n - 1));
        n -= 1;
        if same(find_upstream_label(&samples[n].labels).as_str(), upstream) && same(
            find_label(&samples[n].labels, "error").as_str(),
            error,
        ) {
            return Some(n);
        }
    }
    None
}

/// Record a request to an upstream server and its optional error, by the label of the
/// server. The time that the request took is summed up elsewhere. Before the
/// initialization nothing is recorded.
pub fn record_upstream_request(
    metrics: &Metrics,
    samples: &mut UpstreamSamples,
    upstream: &str,
    error: Option<&str>,
)
    requires
        last_sample(old(samples).latencies@, upstream@) matches Some(i)
            ==> old(samples).latencies@[i as int].count < u64::MAX,
    ensures
        match metrics.state {
            Some(_) => {
                &&& counts_request(old(samples).latencies@, final(samples).latencies@, upstream@)
                &&& match error {
                    Some(e) => counts_error(
                        old(samples).errors@,
                        final(samples).errors@,
                        upstream@,
                        e@,
                    ),
                    None => final(samples).errors@ == old(samples).errors@,
                }
            },
            None => final(samples).latencies@ == old(samples).latencies@ && final(samples).errors@
                == old(samples).errors@,
        },
{
    if metrics.state.is_none() {
        return;
    }
    match find_latency(&samples.latencies, upstream) {
        Some(i) => {
            samples.latencies[i].count = samples.latencies[i].count + 1;
        },
        None => {
            let mut labels: Vec<(String, String)> = Vec::new();
            labels.push(("upstream".to_owned(), upstream.to_owned()));
            samples.latencies.push(LatencySample { labels, count: 1 });
        },
    }
    if let Some(e) = error {
        match find_error(&samples.errors, upstream, e) {
            Some(i) => {
                samples.errors[i].value = inc(samples.errors[i].value);
            },
            None => {
                let mut labels: Vec<(String, String)> = Vec::new();
                labels.push(("error".to_owned(), e.to_owned()));
                labels.push(("upstream".to_owned(), upstream.to_owned()));
                samples.errors.push(ErrorSample { labels, value: 1 });
            },
        }
    }
}

// ---- summaries ----

/// Whether a sample is about an upstream server.
pub open spec fn is_mentioned(
    latencies: Seq<LatencySample>,
    errors: Seq<ErrorSample>,
    label: Seq<char>,
) -> bool {
    ||| exists|i: int| 0 <= i < latencies.len() && upstream_label(#[trigger] latencies[i].labels@) == label
    ||| exists|i: int| 0 <= i < errors.len() && upstream_label(#[trigger] errors[i].labels@) == label
}

/// Whether a text stands before another in the order of their characters.
pub open spec fn text_before(a: Seq<char>, b: Seq<char>) -> bool
    decreases a.len(),
{
    if b.len() == 0 {
        false
    } else if a.len() == 0 {
        true
    } else if a[0] == b[0] {
        text_before(a.skip(1), b.skip(1))
    } else {
        a[0] < b[0]
    }
}

/// Whether the entries stand in the order of their labels, each label once.
pub open spec fn is_sorted(entries: Seq<UpstreamSnapshot>) -> bool {
    forall|i: int, j: int|
        0 <= i < j < entries.len() ==> text_before(
            #[trigger] entries[i].upstream@,
            #[trigger] entries[j].upstream@,
        )
}

/// Whether an entry says what the samples say about its upstream server.
pub open spec fn is_summary(
    e: UpstreamSnapshot,
    latencies: Seq<LatencySample>,
    errors: Seq<ErrorSample>,
) -> bool {
    &&& e.latency_sample == last_sample(latencies, e.upstream@)
    &&& e.latency_count == match e.latency_sample {
        Some(i) => latencies[i as int].count,
        None => 0,
    }
    &&& e.requests_total == e.latency_count
    &&& e.errors_total == error_sum(errors, e.upstream@)
}

/// Whether the entries are what the samples say: one for each upstream server that a
/// sample is about, in the order of the labels.
pub open spec fn is_snapshot(
    entries: Seq<UpstreamSnapshot>,
    latencies: Seq<LatencySample>,
    errors: Seq<ErrorSample>,
) -> bool {
    &&& is_sorted(entries)
    &&& forall|i: int|
        0 <= i < entries.len() ==> is_summary(#[trigger] entries[i], latencies, errors) && is_mentioned(
            latencies,
            errors,
            entries[i].upstream@,
        )
    &&& forall|label: Seq<char>| #[trigger]
        is_mentioned(latencies, errors, label) ==> exists|i: int|
            0 <= i < entries.len() && (#[trigger] entries[i]).upstream@ == label
}

fn goes_before(a: &str, b: &str) -> (r: bool)
    ensures
        r == text_before(a@, b@),
{
    let x = chars_of(a);
    let y = chars_of(b);
    let mut i: usize = 0;
    assert(x@.skip(0) =~= x@ && y@.skip(0) =~= y@);
    while i < x.len() && i < y.len()
        invariant
            i <= x@.len(),
            i <= y@.len(),
            text_before(x@, y@) == text_before(x@.skip(i as int), y@.skip(i as int)),
            x@ == a@,
            y@ == b@,
        decreases x@.len() - i,
    {
        assert(x@.skip(i as int)[0] == x@[i as int] && y@.skip(i as int)[0] == y@[i as int]);
        assert(x@.skip(i as int).skip(1) =~= x@.skip(i + 1));
        assert(y@.skip(i as int).skip(1) =~= y@.skip(i + 1));
        if x[i] != y[i] {
            return x[i] < y[i];
        }
        i += 1;
    }
    i < y.len()
}

proof fn lemma_before_total(a: Seq<char>, b: Seq<char>)
    ensures
        a != b ==> (text_before(a, b) || text_before(b, a)),
        !(text_before(a, b) && text_before(b, a)),
        !text_before(a, a),
    decreases a.len(),
{
    if a.len() > 0 && b.len() > 0 {
        lemma_before_total(a.skip(1), b.skip(1));
        if a[0] == b[0] && a.skip(1) == b.skip(1) {
            assert(a =~= seq![a[0]] + a.skip(1));
            assert(b =~= seq![a[0]] + a.skip(1));
        }
        lemma_before_total(a.skip(1), a.skip(1));
    } else if a.len() > 0 {
        lemma_before_total(a.skip(1), a.skip(1));
    }
    if a.len() == 0 && b.len() == 0 {
        assert(a =~= b);
    }
}

proof fn lemma_before_transitive(a: Seq<char>, b: Seq<char>, c: Seq<char>)
    requires
        text_before(a, b),
        text_before(b, c),
    ensures
        text_before(a, c),
    decreases a.len(),
{
    if a.len() > 0 {
        if a[0] == b[0] && b[0] == c[0] {
            lemma_before_transitive(a.skip(1), b.skip(1), c.skip(1));
        }
    }
}

/// Where an entry with a label is, or belongs: behind the entries whose labels go before.
fn place_of(entries: &Vec<UpstreamSnapshot>, label: &str) -> (r: usize)
    requires
        is_sorted(entries@),
    ensures
        r <= entries@.len(),
        forall|i: int| 0 <= i < r ==> text_before(#[trigger] entries@[i].upstream@, label@),
        forall|i: int| r <= i < entries@.len() ==> !text_before(#[trigger] entries@[i].upstream@, label@),
{
    let mut i: usize = 0;
    while i < entries.len() && goes_before(entries[i].upstream.as_str(), label)
        invariant
            i <= entries@.len(),
            forall|k: int| 0 <= k < i ==> text_before(#[trigger] entries@[k].upstream@, label@),
        decreases entries@.len() - i,
    {
        i += 1;
    }
    proof {
        assert forall|k: int| i <= k < entries@.len() implies !text_before(
            #[trigger] entries@[k].upstream@,
            label@,
        ) by {
            if k > i && text_before(entries@[k].upstream@, label@) {
                lemma_before_transitive(
                    entries@[i as int].upstream@,
                    entries@[k].upstream@,
                    label@,
                );
            }
        }
    }
    i
}

/// Makes sure that there is an entry with a label, and says where.
fn entry_for(entries: &mut Vec<UpstreamSnapshot>, label: &String) -> (r: usize)
    requires
        is_sorted(old(entries)@),
    ensures
        is_sorted(final(entries)@),
        r < final(entries)@.len(),
        final(entries)@[r as int].upstream@ == label@,
        final(entries)@ == old(entries)@ || (r <= old(entries)@.len() && final(entries)@ == old(entries)@.insert(
            r as int,
            final(entries)@[r as int],
        ) && is_new(final(entries)@[r as int]) && forall|k: int|
            0 <= k < old(entries)@.len() ==> #[trigger] old(entries)@[k].upstream@ != label@),
{
    let at: usize = place_of(entries, label.as_str());
    let ghost before = entries@;
    let present = at < entries.len() && same(entries[at].upstream.as_str(), label.as_str());
    if !present {
        proof {
            assert forall|k: int| 0 <= k < before.len() implies #[trigger] before[k].upstream@ != label@ by {
                lemma_before_total(label@, label@);
                if k > at && before[k].upstream@ == label@ {
                    assert(text_before(before[at as int].upstream@, before[k].upstream@));
                }
            }
            assert forall|k: int| at <= k < before.len() implies text_before(
                label@,
                #[trigger] before[k].upstream@,
            ) by {
                lemma_before_total(label@, before[k].upstream@);
            }
        }
        entries.insert(
            at,
            UpstreamSnapshot {
                upstream: label.clone(),
                requests_total: 0,
                errors_total: 0,
                latency_count: 0,
                latency_sample: None,
            },
        );
        proof {
            assert forall|i: int, j: int| 0 <= i < j < entries@.len() implies text_before(
                #[trigger] entries@[i].upstream@,
                #[trigger] entries@[j].upstream@,
            ) by {
                let oi = if i < at { i } else { i - 1 };
                let oj = if j < at { j } else { j - 1 };
                if i != at {
                    assert(entries@[i] == before[oi]);
                }
                if j != at {
                    assert(entries@[j] == before[oj]);
                }
            }
        }
    }
    at
}

/// Whether an entry was just made.
pub open spec fn is_new(e: UpstreamSnapshot) -> bool {
    e.requests_total == 0 && e.errors_total == 0 && e.latency_count == 0 && e.latency_sample is None
}

proof fn lemma_last_sample_bound(samples: Seq<LatencySample>, label: Seq<char>)
    ensures
        samples.len() <= usize::MAX ==> (last_sample(samples, label) matches Some(i) ==> i < samples.len()),
    decreases samples.len(),
{
    if samples.len() > 0 {
        lemma_last_sample_bound(samples.drop_last(), label);
    }
}

/// What stays and what is new when one more latency sample is taken into account.
proof fn lemma_one_more_latency(
    latencies: Seq<LatencySample>,
    errors: Seq<ErrorSample>,
    n: int,
    label: Seq<char>,
)
    requires
        0 <= n < latencies.len() <= usize::MAX,
    ensures
        ({
            let new = upstream_label(latencies[n].labels@);
            &&& label == new ==> last_sample(latencies.take(n + 1), label) == Some(n as usize)
            &&& label != new ==> last_sample(latencies.take(n + 1), label) == last_sample(
                latencies.take(n),
                label,
            )
            &&& is_mentioned(latencies.take(n + 1), errors, label) <==> (label == new || is_mentioned(
                latencies.take(n),
                errors,
                label,
            ))
            &&& last_sample(latencies.take(n), label) matches Some(i) ==> i < n
        }),
{
    let all = latencies.take(n + 1);
    let some = latencies.take(n);
    assert(all.drop_last() =~= some);
    assert(all.last() == latencies[n]);
    lemma_last_sample_bound(some, label);
    assert(forall|i: int| 0 <= i < n ==> #[trigger] all[i] == some[i]);
    if label == upstream_label(latencies[n].labels@) {
        assert(upstream_label(all[n].labels@) == label);
    }
    if is_mentioned(some, errors, label) {
        if exists|i: int| 0 <= i < some.len() && upstream_label(#[trigger] some[i].labels@) == label {
            let i = choose|i: int| 0 <= i < some.len() && upstream_label(#[trigger] some[i].labels@) == label;
            assert(upstream_label(all[i].labels@) == label);
        }
    }
    if is_mentioned(all, errors, label) && label != upstream_label(latencies[n].labels@) {
        if exists|i: int| 0 <= i < all.len() && upstream_label(#[trigger] all[i].labels@) == label {
            let i = choose|i: int| 0 <= i < all.len() && upstream_label(#[trigger] all[i].labels@) == label;
            assert(i != n);
            assert(upstream_label(some[i].labels@) == label);
        }
    }
}

/// What stays and what is new when one more error sample is taken into account.
proof fn lemma_one_more_error(
    latencies: Seq<LatencySample>,
    errors: Seq<ErrorSample>,
    n: int,
    label: Seq<char>,
)
    requires
        0 <= n < errors.len(),
    ensures
        ({
            let new = upstream_label(errors[n].labels@);
            &&& error_sum(errors.take(n + 1), label) == error_sum(errors.take(n), label) + if label == new {
                errors[n].value as nat
            } else {
                0
            }
            &&& is_mentioned(latencies, errors.take(n + 1), label) <==> (label == new || is_mentioned(
                latencies,
                errors.take(n),
                label,
            ))
        }),
{
    let all = errors.take(n + 1);
    let some = errors.take(n);
    assert(all.drop_last() =~= some);
    assert(all.last() == errors[n]);
    assert(forall|i: int| 0 <= i < n ==> #[trigger] all[i] == some[i]);
    if label == upstream_label(errors[n].labels@) {
        assert(upstream_label(all[n].labels@) == label);
    }
    if is_mentioned(latencies, some, label) {
        if exists|i: int| 0 <= i < some.len() && upstream_label(#[trigger] some[i].labels@) == label {
            let i = choose|i: int| 0 <= i < some.len() && upstream_label(#[trigger] some[i].labels@) == label;
            assert(upstream_label(all[i].labels@) == label);
        }
    }
    if is_mentioned(latencies, all, label) && label != upstream_label(errors[n].labels@) {
        if exists|i: int| 0 <= i < all.len() && upstream_label(#[trigger] all[i].labels@) == label {
            let i = choose|i: int| 0 <= i < all.len() && upstream_label(#[trigger] all[i].labels@) == label;
            assert(i != n);
            assert(upstream_label(some[i].labels@) == label);
        }
    }
}

proof fn lemma_error_sum_grows(errors: Seq<ErrorSample>, n: int, label: Seq<char>)
    requires
        0 <= n <= errors.len(),
    ensures
        error_sum(errors.take(n), label) <= error_sum(errors, label),
    decreases errors.len(),
{
    if n < errors.len() {
        lemma_error_sum_grows(errors.drop_last(), n, label);
        assert(errors.drop_last().take(n) =~= errors.take(n));
    } else {
        assert(errors.take(n) =~= errors);
    }
}

proof fn lemma_unmentioned(latencies: Seq<LatencySample>, errors: Seq<ErrorSample>, label: Seq<char>)
    requires
        !is_mentioned(latencies, errors, label),
    ensures
        last_sample(latencies, label) is None,
        error_sum(errors, label) == 0,
    decreases latencies.len(), errors.len(),
{
    if latencies.len() > 0 {
        let rest = latencies.drop_last();
        assert(upstream_label(latencies[latencies.len() - 1].labels@) != label);
        assert forall|i: int| 0 <= i < rest.len() implies upstream_label(#[trigger] rest[i].labels@) != label by {
            assert(rest[i] == latencies[i]);
        }
        lemma_unmentioned(rest, errors, label);
    } else if errors.len() > 0 {
        let rest = errors.drop_last();
        assert(upstream_label(errors[errors.len() - 1].labels@) != label);
        assert forall|i: int| 0 <= i < rest.len() implies upstream_label(#[trigger] rest[i].labels@) != label by {
            assert(rest[i] == errors[i]);
        }
        lemma_unmentioned(latencies, rest, label);
    }
}

/// Entries for a snapshot stay such when the entry at one place is made or changed: the
/// entries at the other places, and the labels, stay as they were.
proof fn lemma_other_entries(
    before: Seq<UpstreamSnapshot>,
    mid: Seq<UpstreamSnapshot>,
    after: Seq<UpstreamSnapshot>,
    at: int,
)
    requires
        is_sorted(mid),
        0 <= at < mid.len() == after.len(),
        mid == before || mid == before.insert(at, mid[at]) && at <= before.len(),
        after == mid.update(at, after[at]),
        after[at].upstream@ == mid[at].upstream@,
    ensures
        is_sorted(after),
        forall|i: int|
            0 <= i < after.len() && i != at ==> before.contains(#[trigger] after[i]) && after[i].upstream@
                != after[at].upstream@,
        forall|k: int|
            0 <= k < before.len() ==> exists|i: int|
                0 <= i < after.len() && (#[trigger] after[i]).upstream@ == (#[trigger] before[k]).upstream@,
{
    assert forall|i: int, j: int| 0 <= i < j < after.len() implies text_before(
        #[trigger] after[i].upstream@,
        #[trigger] after[j].upstream@,
    ) by {
        assert(mid[i].upstream@ == after[i].upstream@ && mid[j].upstream@ == after[j].upstream@);
    }
    assert forall|i: int| 0 <= i < after.len() && i != at implies before.contains(#[trigger] after[i])
        && after[i].upstream@ != after[at].upstream@ by {
        lemma_before_total(after[at].upstream@, after[at].upstream@);
        assert(text_before(after[i].upstream@, after[at].upstream@) || text_before(
            after[at].upstream@,
            after[i].upstream@,
        ));
        if mid == before {
            assert(before[i] == after[i]);
        } else if i < at {
            assert(before[i] == after[i]);
        } else {
            assert(before[i - 1] == after[i]);
        }
    }
    assert forall|k: int| 0 <= k < before.len() implies exists|i: int|
        0 <= i < after.len() && (#[trigger] after[i]).upstream@ == (#[trigger] before[k]).upstream@ by {
        let i = if mid == before || k < at {
            k
        } else {
            k + 1
        };
        assert(mid[i] == before[k]);
        assert(after[i].upstream@ == before[k].upstream@);
    }
}

/// What the samples say about the upstream servers.
pub fn upstream_snapshots(latencies: &Vec<LatencySample>, errors: &Vec<ErrorSample>) -> (r: Vec<
    UpstreamSnapshot,
>)
    requires
        forall|label: Seq<char>| #[trigger] error_sum(errors@, label) <= u64::MAX,
    ensures
        is_snapshot(r@, latencies@, errors@),
{
    let mut entries: Vec<UpstreamSnapshot> = Vec::new();
    let mut n: usize = 0;
    let ghost none = errors@.take(0);
    while n < latencies.len()
        invariant
            n <= latencies@.len(),
            none == errors@.take(0),
            is_snapshot(entries@, latencies@.take(n as int), none),
        decreases latencies@.len() - n,
    {
        let label = find_upstream_label(&latencies[n].labels);
        let ghost before = entries@;
        let at: usize = entry_for(&mut entries, &label);
        let ghost mid = entries@;
        let entry = UpstreamSnapshot {
            upstream: label.clone(),
            requests_total: latencies[n].count,
            errors_total: entries[at].errors_total,
            latency_count: latencies[n].count,
            latency_sample: Some(n),
        };
        entries.set(at, entry);
        proof {
            lemma_other_entries(before, mid, entries@, at as int);
            let now = latencies@.take(n + 1);
            assert forall|i: int| 0 <= i < entries@.len() implies is_summary(
                #[trigger] entries@[i],
                now,
                none,
            ) && is_mentioned(now, none, entries@[i].upstream@) by {
                lemma_one_more_latency(latencies@, none, n as int, entries@[i].upstream@);
                if i != at {
                    assert(before.contains(entries@[i]));
                } else {
                    assert(now[n as int] == latencies@[n as int]);
                }
            }
            assert forall|l: Seq<char>| #[trigger] is_mentioned(now, none, l) implies exists|i: int|
                0 <= i < entries@.len() && (#[trigger] entries@[i]).upstream@ == l by {
                lemma_one_more_latency(latencies@, none, n as int, l);
                if l == label@ {
                    assert(entries@[at as int].upstream@ == l);
                } else {
                    let k = choose|k: int| 0 <= k < before.len() && (#[trigger] before[k]).upstream@ == l;
                }
            }
        }
        n += 1;
    }
    assert(latencies@.take(n as int) =~= latencies@);
    let mut m: usize = 0;
    while m < errors.len()
        invariant
            m <= errors@.len(),
            forall|label: Seq<char>| #[trigger] error_sum(errors@, label) <= u64::MAX,
            is_snapshot(entries@, latencies@, errors@.take(m as int)),
        decreases errors@.len() - m,
    {
        let label = find_upstream_label(&errors[m].labels);
        let ghost before = entries@;
        let ghost some = errors@.take(m as int);
        let ghost now = errors@.take(m + 1);
        let at: usize = entry_for(&mut entries, &label);
        let ghost mid = entries@;
        proof {
            lemma_one_more_error(latencies@, errors@, m as int, label@);
            lemma_error_sum_grows(errors@, m + 1, label@);
            if mid != before {
                if is_mentioned(latencies@, some, label@) {
                    let k = choose|k: int| 0 <= k < before.len() && (#[trigger] before[k]).upstream@ == label@;
                }
                lemma_unmentioned(latencies@, some, label@);
            }
            assert(is_summary(mid[at as int], latencies@, some));
        }
        let entry = UpstreamSnapshot {
            upstream: label.clone(),
            requests_total: entries[at].requests_total,
            errors_total: entries[at].errors_total + errors[m].value,
            latency_count: entries[at].latency_count,
            latency_sample: entries[at].latency_sample,
        };
        entries.set(at, entry);
        proof {
            lemma_other_entries(before, mid, entries@, at as int);
            assert forall|i: int| 0 <= i < entries@.len() implies is_summary(
                #[trigger] entries@[i],
                latencies@,
                now,
            ) && is_mentioned(latencies@, now, entries@[i].upstream@) by {
                lemma_one_more_error(latencies@, errors@, m as int, entries@[i].upstream@);
                if i != at {
                    assert(before.contains(entries@[i]));
                }
            }
            assert forall|l: Seq<char>| #[trigger] is_mentioned(latencies@, now, l) implies exists|i: int|
                0 <= i < entries@.len() && (#[trigger] entries@[i]).upstream@ == l by {
                lemma_one_more_error(latencies@, errors@, m as int, l);
                if l == label@ {
                    assert(entries@[at as int].upstream@ == l);
                } else {
                    let k = choose|k: int| 0 <= k < before.len() && (#[trigger] before[k]).upstream@ == l;
                }
            }
        }
        m += 1;
    }
    assert(errors@.take(m as int) =~= errors@);
    entries
}

/// In-memory snapshot of all counters.
#[derive(Debug)]
pub struct MetricsSnapshot {
    pub counters: Counters,
    pub upstreams: Vec<UpstreamSnapshot>,
}

/// What the counters and the samples say at the moment; nothing before the
/// initialization.
pub fn snapshot(metrics: &Metrics, latencies: &Vec<LatencySample>, errors: &Vec<ErrorSample>) -> (r:
    MetricsSnapshot)
    requires
        forall|label: Seq<char>| #[trigger] error_sum(errors@, label) <= u64::MAX,
    ensures
        match metrics.state {
            Some(c) => r.counters == c && is_snapshot(r.upstreams@, latencies@, errors@),
            None => r.counters == zero_counters() && r.upstreams@.len() == 0,
        },
{
    match metrics.state {
        Some(c) => MetricsSnapshot { counters: c, upstreams: upstream_snapshots(latencies, errors) },
        None => MetricsSnapshot { counters: fresh_counters(), upstreams: Vec::new() },
    }
}

// ---- what a snapshot tells of the recordings ----

/// How many recordings are about an upstream server. A recording is the label of the
/// server, with the error where there was one.
pub open spec fn requests_of(
    recordings: Seq<(Seq<char>, Option<Seq<char>>)>,
    label: Seq<char>,
) -> nat
    decreases recordings.len(),
{
    if recordings.len() == 0 {
        0
    } else if recordings.last().0 == label {
        requests_of(recordings.drop_last(), label) + 1
    } else {
        requests_of(recordings.drop_last(), label)
    }
}

/// How many recordings are about an error of an upstream server.
pub open spec fn failures_of(
    recordings: Seq<(Seq<char>, Option<Seq<char>>)>,
    label: Seq<char>,
) -> nat
    decreases recordings.len(),
{
    if recordings.len() == 0 {
        0
    } else if recordings.last().0 == label && recordings.last().1 is Some {
        failures_of(recordings.drop_last(), label) + 1
    } else {
        failures_of(recordings.drop_last(), label)
    }
}

/// How many requests to an upstream server samples tell of.
pub open spec fn told_requests(latencies: Seq<LatencySample>, label: Seq<char>) -> nat {
    match last_sample(latencies, label) {
        Some(i) => latencies[i as int].count as nat,
        None => 0,
    }
}

/// Whether samples tell of recordings, and of nothing else.
pub open spec fn tells_of(
    latencies: Seq<LatencySample>,
    errors: Seq<ErrorSample>,
    recordings: Seq<(Seq<char>, Option<Seq<char>>)>,
) -> bool {
    forall|label: Seq<char>| #[trigger]
        requests_of(recordings, label) == told_requests(latencies, label) && failures_of(
            recordings,
            label,
        ) == error_sum(errors, label)
}

proof fn lemma_failures_bound(
    recordings: Seq<(Seq<char>, Option<Seq<char>>)>,
    label: Seq<char>,
)
    ensures
        failures_of(recordings, label) <= requests_of(recordings, label) <= recordings.len(),
    decreases recordings.len(),
{
    if recordings.len() > 0 {
        lemma_failures_bound(recordings.drop_last(), label);
    }
}

/// A count within a sample does not move the samples of the servers.
proof fn lemma_last_sample_update(samples: Seq<LatencySample>, i: int, s: LatencySample, label: Seq<char>)
    requires
        0 <= i < samples.len(),
        s.labels@ == samples[i].labels@,
    ensures
        last_sample(samples.update(i, s), label) == last_sample(samples, label),
    decreases samples.len(),
{
    let after = samples.update(i, s);
    assert(after.last().labels@ == samples.last().labels@);
    if i < samples.len() - 1 {
        assert(after.drop_last() =~= samples.drop_last().update(i, s));
        lemma_last_sample_update(samples.drop_last(), i, s, label);
    } else {
        assert(after.drop_last() =~= samples.drop_last());
    }
}

proof fn lemma_last_sample_label(samples: Seq<LatencySample>, label: Seq<char>)
    requires
        samples.len() <= usize::MAX,
    ensures
        last_sample(samples, label) matches Some(i) ==> i < samples.len() && upstream_label(
            samples[i as int].labels@,
        ) == label,
    decreases samples.len(),
{
    if samples.len() > 0 {
        lemma_last_sample_label(samples.drop_last(), label);
    }
}

proof fn lemma_error_place(samples: Seq<ErrorSample>, upstream: Seq<char>, error: Seq<char>)
    requires
        samples.len() <= usize::MAX,
    ensures
        error_place(samples, upstream, error) matches Some(i) ==> i < samples.len()
            && upstream_label(samples[i as int].labels@) == upstream,
    decreases samples.len(),
{
    if samples.len() > 0 {
        lemma_error_place(samples.drop_last(), upstream, error);
    }
}

proof fn lemma_error_sum_update(samples: Seq<ErrorSample>, i: int, s: ErrorSample, label: Seq<char>)
    requires
        0 <= i < samples.len(),
        s.labels@ == samples[i].labels@,
    ensures
        upstream_label(s.labels@) == label ==> samples[i].value <= error_sum(samples, label)
            && error_sum(samples.update(i, s), label) == error_sum(samples, label) - samples[i].value
            + s.value,
        upstream_label(s.labels@) != label ==> error_sum(samples.update(i, s), label) == error_sum(
            samples,
            label,
        ),
    decreases samples.len(),
{
    let after = samples.update(i, s);
    if i < samples.len() - 1 {
        assert(after.drop_last() =~= samples.drop_last().update(i, s));
        assert(after.last() == samples.last());
        lemma_error_sum_update(samples.drop_last(), i, s, label);
    } else {
        assert(after.drop_last() =~= samples.drop_last());
        assert(after.last() == s);
    }
}

/// Without recordings there are no samples.
pub proof fn law_no_samples_tell_of_nothing()
    ensures
        tells_of(seq![], seq![], seq![]),
{
}

proof fn lemma_request_is_counted(
    before: Seq<LatencySample>,
    after: Seq<LatencySample>,
    upstream: Seq<char>,
    label: Seq<char>,
)
    requires
        before.len() < usize::MAX,
        counts_request(before, after, upstream),
    ensures
        told_requests(after, label) == told_requests(before, label) + if label == upstream {
            1nat
        } else {
            0nat
        },
{
    lemma_last_sample_label(before, upstream);
    lemma_last_sample_label(before, label);
    match last_sample(before, upstream) {
        Some(i) => {
            lemma_last_sample_update(before, i as int, after[i as int], label);
        },
        None => {
            assert(after.drop_last() =~= before);
            assert(upstream_label(after.last().labels@) == upstream);
        },
    }
}

proof fn lemma_error_is_counted(
    before: Seq<ErrorSample>,
    after: Seq<ErrorSample>,
    upstream: Seq<char>,
    error: Seq<char>,
    label: Seq<char>,
)
    requires
        before.len() < usize::MAX,
        error_sum(before, upstream) < COUNTER_LIMIT,
        counts_error(before, after, upstream, error),
    ensures
        error_sum(after, label) == error_sum(before, label) + if label == upstream {
            1nat
        } else {
            0nat
        },
{
    lemma_error_place(before, upstream, error);
    match error_place(before, upstream, error) {
        Some(i) => {
            lemma_error_sum_update(before, i as int, after[i as int], upstream);
            lemma_error_sum_update(before, i as int, after[i as int], label);
        },
        None => {
            assert(after.drop_last() =~= before);
            let labels = after.last().labels@;
            reveal_strlit("error");
            reveal_strlit("upstream");
            assert("error"@.len() != "upstream"@.len());
            assert(labels.skip(1)[0] == labels[1]);
            assert(label_value(labels.skip(1), "upstream"@) == upstream);
            assert(upstream_label(labels) == upstream);
        },
    }
}

/// Samples that tell of recordings tell of one more once it is recorded.
pub proof fn law_recordings_are_counted(
    before: (Seq<LatencySample>, Seq<ErrorSample>),
    after: (Seq<LatencySample>, Seq<ErrorSample>),
    recordings: Seq<(Seq<char>, Option<Seq<char>>)>,
    upstream: Seq<char>,
    error: Option<Seq<char>>,
)
    requires
        before.0.len() < usize::MAX,
        before.1.len() < usize::MAX,
        recordings.len() < COUNTER_LIMIT,
        tells_of(before.0, before.1, recordings),
        counts_request(before.0, after.0, upstream),
        match error {
            Some(e) => counts_error(before.1, after.1, upstream, e),
            None => after.1 == before.1,
        },
    ensures
        tells_of(after.0, after.1, recordings.push((upstream, error))),
{
    let all = recordings.push((upstream, error));
    assert(all.drop_last() =~= recordings);
    lemma_failures_bound(recordings, upstream);
    assert(requests_of(recordings, upstream) == told_requests(before.0, upstream));
    assert forall|label: Seq<char>| #[trigger]
        requests_of(all, label) == told_requests(after.0, label) && failures_of(all, label)
            == error_sum(after.1, label) by {
        assert(requests_of(recordings, label) == told_requests(before.0, label));
        lemma_request_is_counted(before.0, after.0, upstream, label);
        if let Some(e) = error {
            lemma_error_is_counted(before.1, after.1, upstream, e, label);
        }
    }
}

/// A snapshot tells for each upstream server how often it was asked, which is how often a
/// latency was measured, and how often it failed, which is at most as often.
pub proof fn law_snapshot_tells_of_recordings(
    entries: Seq<UpstreamSnapshot>,
    latencies: Seq<LatencySample>,
    errors: Seq<ErrorSample>,
    recordings: Seq<(Seq<char>, Option<Seq<char>>)>,
    i: int,
)
    requires
        tells_of(latencies, errors, recordings),
        is_snapshot(entries, latencies, errors),
        0 <= i < entries.len(),
    ensures
        entries[i].requests_total == requests_of(recordings, entries[i].upstream@),
        entries[i].latency_count == entries[i].requests_total,
        entries[i].errors_total == failures_of(recordings, entries[i].upstream@),
        entries[i].errors_total <= entries[i].requests_total,
{
    let label = entries[i].upstream@;
    assert(is_summary(entries[i], latencies, errors));
    assert(requests_of(recordings, label) == told_requests(latencies, label));
    lemma_failures_bound(recordings, label);
}

/// A counter goes up by one, until floating point can no longer tell the next number.
pub proof fn law_counters_go_up_by_one(n: u64)
    ensures
        n < 0x20_0000_0000_0000 ==> counted(n) == n + 1,
        n >= 0x20_0000_0000_0000 ==> counted(n) == n,
{
}

/// Counting begins at zero, and beginning again changes nothing.
pub proof fn law_counting_begins_once(c: Counters, instrument: Instrument)
    ensures
        begun(Some(c)) == Some(c),
        begun(begun(None)) == begun(None),
        begun(None) matches Some(z) && (z.of(instrument) matches Some(n) ==> n == 0),
{
}

/// Of the three decisions the one that was made is counted, with the total, and nothing else.
pub proof fn law_decisions_have_their_counter(c: Counters, decision: QueryDecision)
    ensures
        ({
            let n = after_query(c, decision);
            &&& n.dns_queries_total == counted(c.dns_queries_total)
            &&& n.dns_queries_blocked == if decision is Blocked {
                counted(c.dns_queries_blocked)
            } else {
                c.dns_queries_blocked
            }
            &&& n.dns_queries_allowed == if decision is Allowed {
                counted(c.dns_queries_allowed)
            } else {
                c.dns_queries_allowed
            }
            &&& n.dns_queries_passthrough == if decision is Passthrough {
                counted(c.dns_queries_passthrough)
            } else {
                c.dns_queries_passthrough
            }
            &&& n.blocklist_hits_total == c.blocklist_hits_total
            &&& n.cache_hits_total == c.cache_hits_total
            &&& n.cache_misses_total == c.cache_misses_total
        }),
        query_instruments(decision).contains(Instrument::QueriesBlocked) <==> decision is Blocked,
        query_instruments(decision).contains(Instrument::QueriesAllowed) <==> decision is Allowed,
        query_instruments(decision).contains(Instrument::QueriesPassthrough) <==> decision
            is Passthrough,
        query_instruments(decision).contains(Instrument::QueriesTotal),
{
    let q = query_instruments(decision);
    assert(q[0] == Instrument::QueriesTotal);
    assert(q.contains(q[0]));
    assert(q.contains(q[1]));
}

/// Hits of the cache and of the blocklists, and misses of the cache, are counted apart.
pub proof fn law_hits_and_misses_are_counted_apart(c: Counters, hit: bool)
    ensures
        hit ==> after_cache(c, hit).cache_hits_total == counted(c.cache_hits_total) && after_cache(
            c,
            hit,
        ).cache_misses_total == c.cache_misses_total,
        !hit ==> after_cache(c, hit).cache_misses_total == counted(c.cache_misses_total)
            && after_cache(c, hit).cache_hits_total == c.cache_hits_total,
        after_cache(c, hit).dns_queries_total == c.dns_queries_total,
        after_cache(c, hit).blocklist_hits_total == c.blocklist_hits_total,
        after_hit(c).blocklist_hits_total == counted(c.blocklist_hits_total),
        after_hit(c).cache_hits_total == c.cache_hits_total,
        after_hit(c).dns_queries_total == c.dns_queries_total,
        adds_up(c) ==> adds_up(after_cache(c, hit)) && adds_up(after_hit(c)),
{
}

/// The instruments are exported under these names.
pub proof fn law_instruments_are_exported_by_name(i: Instrument)
    ensures
        i is QueriesTotal ==> i.shown() == "dns_queries_total"@,
        i is QueriesBlocked ==> i.shown() == "dns_queries_blocked"@,
        i is QueriesAllowed ==> i.shown() == "dns_queries_allowed"@,
        i is QueriesPassthrough ==> i.shown() == "dns_queries_passthrough"@,
        i is BlocklistHits ==> i.shown() == "blocklist_hits_total"@,
        i is CacheHits ==> i.shown() == "cache_hits_total"@,
        i is CacheMisses ==> i.shown() == "cache_misses_total"@,
        i is UpstreamDuration ==> i.shown() == "upstream_request_duration_seconds"@,
        i is UpstreamErrors ==> i.shown() == "upstream_errors_total"@,
{
}

/// A text stands before those that go on behind it, and else the first character in which two
/// texts differ decides; no text stands before itself.
pub proof fn law_texts_stand_in_order(common: Seq<char>, a: Seq<char>, b: Seq<char>)
    ensures
        !text_before(common, common),
        a.len() > 0 ==> text_before(common, common + a) && !text_before(common + a, common),
        a.len() > 0 && b.len() > 0 && a[0] != b[0] ==> (text_before(common + a, common + b) <==> a[0]
            < b[0]),
    decreases common.len(),
{
    if common.len() > 0 {
        let rest = common.skip(1);
        law_texts_stand_in_order(rest, a, b);
        assert((common + a).skip(1) =~= rest + a);
        assert((common + b).skip(1) =~= rest + b);
    } else {
        assert(common + a =~= a);
        assert(common + b =~= b);
    }
}

/// A label has the value of the first that has its name, whatever stands before it.
pub proof fn law_labels_are_found_by_name(
    before: Seq<(String, String)>,
    label: (String, String),
    after: Seq<(String, String)>,
)
    requires
        forall|i: int| 0 <= i < before.len() ==> (#[trigger] before[i]).0@ != label.0@,
    ensures
        label_value(before + seq![label] + after, label.0@) == label.1@,
        label_value(before, label.0@).len() == 0,
    decreases before.len(),
{
    let all = before + seq![label] + after;
    if before.len() > 0 {
        let rest = before.skip(1);
        assert forall|i: int| 0 <= i < rest.len() implies (#[trigger] rest[i]).0@ != label.0@ by {
            assert(rest[i] == before[i + 1]);
        }
        law_labels_are_found_by_name(rest, label, after);
        assert(all.skip(1) =~= rest + seq![label] + after);
        assert(all[0] == before[0]);
    } else {
        assert(all[0] == label);
    }
}

/// An error is counted in the sample of its server and of its own text, and only where there is
/// none in a new one.
pub proof fn law_errors_are_found_by_both_labels(
    samples: Seq<ErrorSample>,
    upstream: Seq<char>,
    error: Seq<char>,
    k: int,
)
    requires
        samples.len() <= usize::MAX,
        0 <= k < samples.len(),
    ensures
        error_place(samples, upstream, error) matches Some(i) ==> i < samples.len() && upstream_label(
            samples[i as int].labels@,
        ) == upstream && label_value(samples[i as int].labels@, "error"@) == error,
        upstream_label(samples[k].labels@) == upstream && label_value(samples[k].labels@, "error"@)
            == error ==> (error_place(samples, upstream, error) matches Some(i) && k <= i),
    decreases samples.len(),
{
    let init = samples.drop_last();
    if init.len() > 0 {
        if k < init.len() {
            assert(init[k] == samples[k]);
            law_errors_are_found_by_both_labels(init, upstream, error, k);
        } else {
            law_errors_are_found_by_both_labels(init, upstream, error, 0);
        }
    } else {
        assert(error_place(init, upstream, error) is None);
    }
    if let Some(i) = error_place(init, upstream, error) {
        assert(init[i as int] == samples[i as int]);
    }
}

/// A snapshot has an entry for every server that a sample is about, and for no other; no server
/// has two.
pub proof fn law_snapshot_has_every_server_once(
    entries: Seq<UpstreamSnapshot>,
    latencies: Seq<LatencySample>,
    errors: Seq<ErrorSample>,
    i: int,
    j: int,
    k: int,
)
    requires
        is_snapshot(entries, latencies, errors),
    ensures
        0 <= k < latencies.len() ==> exists|n: int|
            0 <= n < entries.len() && (#[trigger] entries[n]).upstream@ == upstream_label(
                latencies[k].labels@,
            ),
        0 <= k < errors.len() ==> exists|n: int|
            0 <= n < entries.len() && (#[trigger] entries[n]).upstream@ == upstream_label(
                errors[k].labels@,
            ),
        0 <= i < j < entries.len() ==> entries[i].upstream@ != entries[j].upstream@,
        0 <= i < entries.len() ==> is_mentioned(latencies, errors, entries[i].upstream@),
{
    if 0 <= k < latencies.len() {
        assert(is_mentioned(latencies, errors, upstream_label(latencies[k].labels@)));
    }
    if 0 <= k < errors.len() {
        assert(is_mentioned(latencies, errors, upstream_label(errors[k].labels@)));
    }
    if 0 <= i < j < entries.len() {
        law_texts_stand_in_order(entries[i].upstream@, seq![], seq![]);
        assert(text_before(entries[i].upstream@, entries[j].upstream@));
    }
    if 0 <= i < entries.len() {
        assert(is_summary(entries[i], latencies, errors));
    }
}

/// A sample that is new for an error has the text of the error and the server as its labels.
pub proof fn law_new_errors_have_both_labels(
    before: Seq<ErrorSample>,
    after: Seq<ErrorSample>,
    upstream: Seq<char>,
    error: Seq<char>,
)
    requires
        counts_error(before, after, upstream, error),
        error_place(before, upstream, error) is None,
    ensures
        after.len() == before.len() + 1,
        after.last().labels@.len() == 2,
        upstream_label(after.last().labels@) == upstream,
        label_value(after.last().labels@, "error"@) == error,
        after.last().value == 1,
{
    reveal_strlit("error");
    reveal_strlit("upstream");
    let labels = after.last().labels@;
    assert("error"@.len() != "upstream"@.len());
    assert(labels.skip(1)[0] == labels[1]);
    assert(label_value(labels.skip(1), "upstream"@) == upstream);
}

} // verus!
