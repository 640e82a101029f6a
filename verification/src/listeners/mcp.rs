//! The MCP server: how results are presented, how parameters are read and which
//! hosts may ask.

use crate::config::schema::McpConfig;
use crate::database::records::UpstreamServerRecord;
use crate::listeners::auth::{check_bearer, refusal, Header};
use crate::listeners::bind::{
    are_bind_addrs, is_first_invalid, law_bad_addresses_are_not_bound, parse_bind_addrs,
    ListenerSetupError,
};
use crate::net::SocketAddr;
use crate::text::{
    chars_of, decimal, equal_ignoring_case, join, joined, lemma_occurs_in_longer,
    lemma_pair_occurs, lemma_part_occurs, number, occurs_in,
    opt_str, opt_text, same, same_ignoring_case, signed_decimal, signed_number, starts_with, texts, trim, trimmed,
};
use vstd::prelude::*;

verus! {

// ---- cells of a table ----

/// A character as it stands in a cell: a bar is escaped and a line feed is a blank.
pub open spec fn cell_char(c: char) -> Seq<char> {
    if c == '|' {
        seq!['\\', '|']
    } else if c == '\n' {
        seq![' ']
    } else {
        seq![c]
    }
}

/// A text as it stands in a cell.
pub open spec fn cell(s: Seq<char>) -> Seq<char>
    decreases s.len(),
{
    if s.len() == 0 {
        seq![]
    } else {
        cell(s.drop_last()) + cell_char(s.last())
    }
}

/// A text as it stands in a cell of a Markdown table.
pub fn markdown_cell(value: &str) -> (r: String)
    ensures
        r@ == cell(value@),
{
    let v = chars_of(value);
    let mut out = String::new();
    let mut i: usize = 0;
    while i < v.len()
        invariant
            i <= v@.len(),
            out@ == cell(v@.take(i as int)),
        decreases v@.len() - i,
    {
        assert(v@.take(i + 1).drop_last() =~= v@.take(i as int));
        let ghost before = out@;
        let c = v[i];
        if c == '|' {
            out.push('\\');
            out.push('|');
        } else if c == '\n' {
            out.push(' ');
        } else {
            out.push(c);
        }
        assert(out@ =~= before + cell_char(c));
        i += 1;
    }
    assert(v@.take(i as int) =~= v@);
    out
}

/// Whether a text can stand in a cell: it stays on its line, and each bar in it is
/// escaped.
pub open spec fn fits_cell(s: Seq<char>) -> bool {
    &&& !s.contains('\n')
    &&& forall|i: int| 0 <= i < s.len() && #[trigger] s[i] == '|' ==> i > 0 && s[i - 1] == '\\'
}

/// What stands in a cell neither ends its line nor begins another cell.
pub proof fn law_cell_fits(s: Seq<char>)
    ensures
        fits_cell(cell(s)),
    decreases s.len(),
{
    if s.len() > 0 {
        law_cell_fits(s.drop_last());
        let before = cell(s.drop_last());
        let all = cell(s);
        let tail = cell_char(s.last());
        assert forall|i: int| 0 <= i < all.len() implies all[i] != '\n' by {
            if i < before.len() {
                assert(before.contains(before[i]));
            } else {
                assert(all[i] == tail[i - before.len()]);
            }
        }
        assert forall|i: int| 0 <= i < all.len() && #[trigger] all[i] == '|' implies i > 0
            && all[i - 1] == '\\' by {
            if i < before.len() {
                assert(before[i] == '|');
                assert(all[i - 1] == before[i - 1]);
            } else {
                assert(all[i] == tail[i - before.len()]);
                assert(all[i - 1] == tail[0]);
            }
        }
    }
}

/// An optional text as it stands in a cell: a dash where there is none.
pub open spec fn opt_cell(value: Option<Seq<char>>) -> Seq<char> {
    match value {
        Some(s) => cell(s),
        None => "-"@,
    }
}

fn optional_cell(value: &Option<String>) -> (r: String)
    ensures
        r@ == opt_cell(opt_text(*value)),
{
    match value {
        Some(s) => markdown_cell(s.as_str()),
        None => "-".to_owned(),
    }
}

/// `yes` or `no`.
pub open spec fn yes_no(value: bool) -> Seq<char> {
    if value {
        "yes"@
    } else {
        "no"@
    }
}

fn bool_cell(value: bool) -> (r: &'static str)
    ensures
        r@ == yes_no(value),
{
    if value {
        "yes"
    } else {
        "no"
    }
}

/// How a server is authenticated to, without any secret.
pub open spec fn auth_mode(
    token: Option<String>,
    username: Option<String>,
    password: Option<String>,
) -> Seq<char> {
    if token is Some {
        "bearer"@
    } else if username is Some || password is Some {
        "basic"@
    } else {
        "none"@
    }
}

fn upstream_auth_mode(
    auth_token: &Option<String>,
    auth_username: &Option<String>,
    auth_password: &Option<String>,
) -> (r: &'static str)
    ensures
        r@ == auth_mode(*auth_token, *auth_username, *auth_password),
{
    if auth_token.is_some() {
        "bearer"
    } else if auth_username.is_some() || auth_password.is_some() {
        "basic"
    } else {
        "none"
    }
}

/// A row of a table.
pub open spec fn row(cells: Seq<Seq<char>>) -> Seq<char> {
    "| "@ + joined(cells, " | "@) + " |\n"@
}

fn push_row(out: &mut String, cells: &Vec<String>)
    ensures
        final(out)@ == old(out)@ + row(texts(cells@)),
{
    out.push_str("| ");
    out.push_str(join(cells, " | ").as_str());
    out.push_str(" |\n");
    assert(out@ =~= old(out)@ + row(texts(cells@)));
}

// ---- upstream servers ----

/// The cells of a server. Of its credentials only the mode is shown.
pub open spec fn upstream_cells(s: UpstreamServerRecord) -> Seq<Seq<char>> {
    seq![
        cell(s.id@),
        yes_no(s.enabled),
        cell(s.protocol@),
        cell(s.address@),
        signed_decimal(s.sort_order as int),
        opt_cell(opt_text(s.bind_address)),
        match s.fwmark {
            Some(m) => decimal(m as nat),
            None => "-"@,
        },
        yes_no(s.dnssec),
        auth_mode(s.auth_token, s.auth_username, s.auth_password),
        match s.max_hops {
            Some(n) => signed_decimal(n as int),
            None => "-"@,
        },
        opt_cell(opt_text(s.nameserver_ip_family)),
        opt_cell(opt_text(s.root_hints_path)),
        opt_cell(opt_text(s.root_key_path)),
    ]
}

/// The rows of the servers.
pub open spec fn upstream_rows(servers: Seq<UpstreamServerRecord>) -> Seq<char>
    decreases servers.len(),
{
    if servers.len() == 0 {
        seq![]
    } else {
        upstream_rows(servers.drop_last()) + row(upstream_cells(servers.last()))
    }
}

/// The table of the servers.
pub open spec fn upstreams_markdown(servers: Seq<UpstreamServerRecord>) -> Seq<char> {
    if servers.len() == 0 {
        "No upstream servers configured."@
    } else {
        "| id | enabled | protocol | address | sort_order | bind_address | fwmark | dnssec | auth | max_hops | nameserver_ip_family | root_hints_path | root_key_path |\n"@
            + "| --- | --- | --- | --- | --- | --- | --- | --- | --- | --- | --- | --- | --- |\n"@
            + upstream_rows(servers)
    }
}

fn upstream_row(s: &UpstreamServerRecord) -> (r: Vec<String>)
    ensures
        texts(r@) == upstream_cells(*s),
{
    let mut cells: Vec<String> = Vec::new();
    cells.push(markdown_cell(s.id.as_str()));
    cells.push(bool_cell(s.enabled).to_owned());
    cells.push(markdown_cell(s.protocol.as_str()));
    cells.push(markdown_cell(s.address.as_str()));
    cells.push(signed_number(s.sort_order as i64));
    cells.push(optional_cell(&s.bind_address));
    cells.push(
        match s.fwmark {
            Some(m) => number(m as u64),
            None => "-".to_owned(),
        },
    );
    cells.push(bool_cell(s.dnssec).to_owned());
    cells.push(
        upstream_auth_mode(&s.auth_token, &s.auth_username, &s.auth_password).to_owned(),
    );
    cells.push(
        match s.max_hops {
            Some(n) => signed_number(n as i64),
            None => "-".to_owned(),
        },
    );
    cells.push(optional_cell(&s.nameserver_ip_family));
    cells.push(optional_cell(&s.root_hints_path));
    cells.push(optional_cell(&s.root_key_path));
    assert(texts(cells@) =~= upstream_cells(*s));
    cells
}

/// The table of the servers.
pub fn render_upstreams_markdown(servers: &Vec<UpstreamServerRecord>) -> (r: String)
    ensures
        r@ == upstreams_markdown(servers@),
{
    if servers.len() == 0 {
        return "No upstream servers configured.".to_owned();
    }
    let mut out =
        "| id | enabled | protocol | address | sort_order | bind_address | fwmark | dnssec | auth | max_hops | nameserver_ip_family | root_hints_path | root_key_path |\n".to_owned();
    out.push_str(
        "| --- | --- | --- | --- | --- | --- | --- | --- | --- | --- | --- | --- | --- |\n",
    );
    let ghost head = out@;
    let mut i: usize = 0;
    assert(head + upstream_rows(servers@.take(0)) =~= head);
    while i < servers.len()
        invariant
            i <= servers@.len(),
            out@ == head + upstream_rows(servers@.take(i as int)),
        decreases servers@.len() - i,
    {
        assert(servers@.take(i + 1).drop_last() =~= servers@.take(i as int));
        let cells = upstream_row(&servers[i]);
        push_row(&mut out, &cells);
        assert(out@ =~= head + upstream_rows(servers@.take(i + 1)));
        i += 1;
    }
    assert(servers@.take(i as int) =~= servers@);
    out
}

/// The table shows nothing of the credentials but their mode: servers that differ in
/// nothing else have the same row.
pub proof fn law_credentials_are_not_shown(a: UpstreamServerRecord, b: UpstreamServerRecord)
    requires
        auth_mode(a.auth_token, a.auth_username, a.auth_password) == auth_mode(
            b.auth_token,
            b.auth_username,
            b.auth_password,
        ),
        a == (UpstreamServerRecord {
            auth_token: a.auth_token,
            auth_username: a.auth_username,
            auth_password: a.auth_password,
            ..b
        }),
    ensures
        row(upstream_cells(a)) == row(upstream_cells(b)),
{
    assert(upstream_cells(a) =~= upstream_cells(b));
}

// ---- statistics ----

/// The statistics of an upstream server. The sum of the latencies is given as its text.
#[derive(Debug)]
pub struct UpstreamStatsEntry {
    pub upstream: String,
    pub requests_total: u64,
    pub errors_total: u64,
    pub latency_count: u64,
    pub latency_sum_seconds: String,
}

/// The statistics of the daemon.
#[derive(Debug)]
pub struct StatsResult {
    pub uptime_seconds: u64,
    pub filtering_enabled: bool,
    pub queries_total: u64,
    pub queries_blocked: u64,
    pub queries_allowed: u64,
    pub queries_passthrough: u64,
    pub blocklist_hits_total: u64,
    pub cache_hits_total: u64,
    pub cache_misses_total: u64,
    pub upstreams: Vec<UpstreamStatsEntry>,
    /// The names of the filter lists.
    pub lists: Vec<String>,
}

/// The summary of the statistics.
pub open spec fn stats_summary(s: StatsResult) -> Seq<char> {
    "## Summary\n\n"@ + "- filtering_enabled: "@ + yes_no(s.filtering_enabled)
        + "\n- uptime_seconds: "@ + decimal(s.uptime_seconds as nat) + "\n- queries_total: "@
        + decimal(s.queries_total as nat) + "\n- queries_blocked: "@ + decimal(
        s.queries_blocked as nat,
    ) + "\n- queries_allowed: "@ + decimal(s.queries_allowed as nat) + "\n- queries_passthrough: "@
        + decimal(s.queries_passthrough as nat) + "\n- blocklist_hits_total: "@ + decimal(
        s.blocklist_hits_total as nat,
    ) + "\n- cache_hits_total: "@ + decimal(s.cache_hits_total as nat) + "\n- cache_misses_total: "@
        + decimal(s.cache_misses_total as nat) + "\n\n"@
}

/// The cells of the statistics of a server.
pub open spec fn stats_cells(u: UpstreamStatsEntry) -> Seq<Seq<char>> {
    seq![
        cell(u.upstream@),
        decimal(u.requests_total as nat),
        decimal(u.errors_total as nat),
        decimal(u.latency_count as nat),
        u.latency_sum_seconds@,
    ]
}

/// The rows of the statistics of the servers.
pub open spec fn stats_rows(upstreams: Seq<UpstreamStatsEntry>) -> Seq<char>
    decreases upstreams.len(),
{
    if upstreams.len() == 0 {
        seq![]
    } else {
        stats_rows(upstreams.drop_last()) + row(stats_cells(upstreams.last()))
    }
}

/// The section on the servers.
pub open spec fn stats_upstreams(upstreams: Seq<UpstreamStatsEntry>) -> Seq<char> {
    if upstreams.len() == 0 {
        "No upstream metrics available.\n"@
    } else {
        "| upstream | requests_total | errors_total | latency_count | latency_sum_seconds |\n"@
            + "| --- | --- | --- | --- | --- |\n"@ + stats_rows(upstreams)
    }
}

/// The statistics as Markdown.
pub open spec fn stats_markdown(s: StatsResult) -> Seq<char> {
    stats_summary(s) + "## Upstreams\n\n"@ + stats_upstreams(s.upstreams@)
        + "\n## Filter Lists\n\n"@ + "Configured lists: "@ + decimal(s.lists@.len()) + "\n"@
}

fn render_stats_summary(s: &StatsResult) -> (r: String)
    ensures
        r@ == stats_summary(*s),
{
    let mut out = "## Summary\n\n".to_owned();
    out.push_str("- filtering_enabled: ");
    out.push_str(bool_cell(s.filtering_enabled));
    out.push_str("\n- uptime_seconds: ");
    out.push_str(number(s.uptime_seconds).as_str());
    out.push_str("\n- queries_total: ");
    out.push_str(number(s.queries_total).as_str());
    out.push_str("\n- queries_blocked: ");
    out.push_str(number(s.queries_blocked).as_str());
    out.push_str("\n- queries_allowed: ");
    out.push_str(number(s.queries_allowed).as_str());
    out.push_str("\n- queries_passthrough: ");
    out.push_str(number(s.queries_passthrough).as_str());
    out.push_str("\n- blocklist_hits_total: ");
    out.push_str(number(s.blocklist_hits_total).as_str());
    out.push_str("\n- cache_hits_total: ");
    out.push_str(number(s.cache_hits_total).as_str());
    out.push_str("\n- cache_misses_total: ");
    out.push_str(number(s.cache_misses_total).as_str());
    out.push_str("\n\n");
    out
}

fn render_stats_upstreams(upstreams: &Vec<UpstreamStatsEntry>) -> (r: String)
    ensures
        r@ == stats_upstreams(upstreams@),
{
    if upstreams.len() == 0 {
        return "No upstream metrics available.\n".to_owned();
    }
    let mut out =
        "| upstream | requests_total | errors_total | latency_count | latency_sum_seconds |\n".to_owned();
    out.push_str("| --- | --- | --- | --- | --- |\n");
    let ghost head = out@;
    let mut i: usize = 0;
    assert(head + stats_rows(upstreams@.take(0)) =~= head);
    while i < upstreams.len()
        invariant
            i <= upstreams@.len(),
            out@ == head + stats_rows(upstreams@.take(i as int)),
        decreases upstreams@.len() - i,
    {
        assert(upstreams@.take(i + 1).drop_last() =~= upstreams@.take(i as int));
        let u = &upstreams[i];
        let mut cells: Vec<String> = Vec::new();
        cells.push(markdown_cell(u.upstream.as_str()));
        cells.push(number(u.requests_total));
        cells.push(number(u.errors_total));
        cells.push(number(u.latency_count));
        cells.push(u.latency_sum_seconds.clone());
        assert(texts(cells@) =~= stats_cells(*u));
        push_row(&mut out, &cells);
        assert(out@ =~= head + stats_rows(upstreams@.take(i + 1)));
        i += 1;
    }
    assert(upstreams@.take(i as int) =~= upstreams@);
    out
}

/// The statistics as Markdown.
pub fn render_stats_markdown(stats: &StatsResult) -> (r: String)
    ensures
        r@ == stats_markdown(*stats),
{
    let mut out = render_stats_summary(stats);
    out.push_str("## Upstreams\n\n");
    out.push_str(render_stats_upstreams(&stats.upstreams).as_str());
    out.push_str("\n## Filter Lists\n\n");
    out.push_str("Configured lists: ");
    out.push_str(number(stats.lists.len() as u64).as_str());
    out.push_str("\n");
    out
}

// ---- zone searches ----

/// A record of a zone.
#[derive(Debug)]
pub struct ZoneRecord {
    pub name: String,
    pub record_type: String,
    pub ttl: u32,
    pub data: String,
    pub zone: String,
}

/// A record that matches a search.
#[derive(Debug)]
pub struct ZoneSearchResult {
    pub record: ZoneRecord,
    pub score: i64,
}

/// The records that match a search.
#[derive(Debug)]
pub struct ZoneSearchResultList {
    pub query: String,
    pub results: Vec<ZoneSearchResult>,
    pub total_matches: usize,
    pub limit: usize,
}

/// The cells of a match.
pub open spec fn match_cells(m: ZoneSearchResult) -> Seq<Seq<char>> {
    seq![
        cell(m.record.zone@),
        cell(m.record.name@),
        cell(m.record.record_type@),
        decimal(m.record.ttl as nat),
        cell(m.record.data@),
        signed_decimal(m.score as int),
    ]
}

/// The rows of the matches.
pub open spec fn match_rows(results: Seq<ZoneSearchResult>) -> Seq<char>
    decreases results.len(),
{
    if results.len() == 0 {
        seq![]
    } else {
        match_rows(results.drop_last()) + row(match_cells(results.last()))
    }
}

/// The line above the matches. Its parts are set off by a backslash and an `n`.
pub open spec fn search_head(s: ZoneSearchResultList) -> Seq<char> {
    "Query: "@ + cell(s.query@) + "\\nTotal matches: "@ + decimal(s.total_matches as nat)
        + "\\nReturned: "@ + decimal(s.results@.len()) + "\\n\\n"@
}

/// The matches as Markdown.
pub open spec fn search_markdown(s: ZoneSearchResultList) -> Seq<char> {
    if s.results@.len() == 0 {
        search_head(s) + "No zone records matched.\n"@
    } else {
        search_head(s) + "| zone | name | type | ttl | data | score |\n"@
            + "| --- | --- | --- | --- | --- | --- |\n"@ + match_rows(s.results@)
    }
}

/// The matches of a search as Markdown.
pub fn render_zone_search_markdown(search: &ZoneSearchResultList) -> (r: String)
    ensures
        r@ == search_markdown(*search),
{
    let mut out = "Query: ".to_owned();
    out.push_str(markdown_cell(search.query.as_str()).as_str());
    out.push_str("\\nTotal matches: ");
    out.push_str(number(search.total_matches as u64).as_str());
    out.push_str("\\nReturned: ");
    out.push_str(number(search.results.len() as u64).as_str());
    out.push_str("\\n\\n");
    if search.results.len() == 0 {
        out.push_str("No zone records matched.\n");
        return out;
    }
    out.push_str("| zone | name | type | ttl | data | score |\n");
    out.push_str("| --- | --- | --- | --- | --- | --- |\n");
    let ghost head = out@;
    let mut i: usize = 0;
    assert(head + match_rows(search.results@.take(0)) =~= head);
    while i < search.results.len()
        invariant
            i <= search.results@.len(),
            out@ == head + match_rows(search.results@.take(i as int)),
        decreases search.results@.len() - i,
    {
        assert(search.results@.take(i + 1).drop_last() =~= search.results@.take(i as int));
        let m = &search.results[i];
        let mut cells: Vec<String> = Vec::new();
        cells.push(markdown_cell(m.record.zone.as_str()));
        cells.push(markdown_cell(m.record.name.as_str()));
        cells.push(markdown_cell(m.record.record_type.as_str()));
        cells.push(number(m.record.ttl as u64));
        cells.push(markdown_cell(m.record.data.as_str()));
        cells.push(signed_number(m.score));
        assert(texts(cells@) =~= match_cells(*m));
        push_row(&mut out, &cells);
        assert(out@ =~= head + match_rows(search.results@.take(i + 1)));
        i += 1;
    }
    assert(search.results@.take(i as int) =~= search.results@);
    out
}

// ---- presentations ----

/// A result laid out for a human reader.
#[derive(Debug)]
pub struct McpPresentation {
    pub layout: &'static str,
    pub title: &'static str,
    pub markdown: String,
}

/// The version of the layouts.
pub fn layout_version() -> (r: &'static str)
    ensures
        r@ == "v1"@,
{
    "v1"
}

/// Whether a presentation holds a layout, a title and a text.
pub open spec fn presents(
    p: Option<McpPresentation>,
    layout: Seq<char>,
    title: Seq<char>,
    markdown: Seq<char>,
) -> bool {
    p matches Some(x) && x.layout@ == layout && x.title@ == title && x.markdown@ == markdown
}

/// Whether a result is laid out, given what is done where nobody says.
pub open spec fn is_laid_out(usually: bool, choice: Option<bool>) -> bool {
    match choice {
        Some(c) => c,
        None => usually,
    }
}

/// The statistics laid out, unless that is declined.
pub fn present_stats(stats: &StatsResult, include_presentation: Option<bool>) -> (r: Option<
    McpPresentation,
>)
    ensures
        r is Some <==> is_laid_out(true, include_presentation),
        if include_presentation == Some(false) {
            r is None
        } else {
            presents(r, "stats-summary-v1"@, "DNS Filter Statistics"@, stats_markdown(*stats))
        },
{
    match include_presentation {
        Some(false) => None,
        _ => Some(
            McpPresentation {
                layout: "stats-summary-v1",
                title: "DNS Filter Statistics",
                markdown: render_stats_markdown(stats),
            },
        ),
    }
}

/// The upstream servers laid out, unless that is declined.
pub fn present_upstreams(
    servers: &Vec<UpstreamServerRecord>,
    include_presentation: Option<bool>,
) -> (r: Option<McpPresentation>)
    ensures
        r is Some <==> is_laid_out(true, include_presentation),
        if include_presentation == Some(false) {
            r is None
        } else {
            presents(r, "upstreams-table-v1"@, "Configured Upstreams"@, upstreams_markdown(servers@))
        },
{
    match include_presentation {
        Some(false) => None,
        _ => Some(
            McpPresentation {
                layout: "upstreams-table-v1",
                title: "Configured Upstreams",
                markdown: render_upstreams_markdown(servers),
            },
        ),
    }
}

/// The matches of a search laid out, where that is asked for.
pub fn present_zone_search(
    search: &ZoneSearchResultList,
    include_presentation: Option<bool>,
) -> (r: Option<McpPresentation>)
    ensures
        r is Some <==> is_laid_out(false, include_presentation),
        if include_presentation == Some(true) {
            presents(r, "zone-search-table-v1"@, "Zone Search Results"@, search_markdown(*search))
        } else {
            r is None
        },
{
    match include_presentation {
        Some(true) => Some(
            McpPresentation {
                layout: "zone-search-table-v1",
                title: "Zone Search Results",
                markdown: render_zone_search_markdown(search),
            },
        ),
        _ => None,
    }
}

// ---- parameters ----

/// The firewall mark of an update as it is written.
#[derive(Debug)]
pub enum FwmarkFieldInput {
    Number(u32),
    Text(String),
}

/// What an update does to the firewall mark.
#[derive(Clone, Copy, Debug, PartialEq, Eq, Structural)]
pub enum FwmarkUpdate {
    Mark(u32),
    Clear,
    /// The text is none that clears the mark.
    Invalid,
}

/// What an update with a field for the mark does; `None` is the value null. The texts
/// `none` and `null` clear the mark too, in any case and with white space around them.
pub open spec fn fwmark_update(value: Option<FwmarkFieldInput>) -> FwmarkUpdate {
    match value {
        None => FwmarkUpdate::Clear,
        Some(FwmarkFieldInput::Number(v)) => FwmarkUpdate::Mark(v),
        Some(FwmarkFieldInput::Text(s)) => if same_ignoring_case(trimmed(s@), "none"@)
            || same_ignoring_case(trimmed(s@), "null"@) {
            FwmarkUpdate::Clear
        } else {
            FwmarkUpdate::Invalid
        },
    }
}

/// What an update with a field for the mark does: the mark that is stored from then on,
/// or the text of the error.
pub fn parse_fwmark_field(value: &Option<FwmarkFieldInput>) -> (r: Result<Option<u32>, &'static str>)
    ensures
        match (fwmark_update(*value), r) {
            (FwmarkUpdate::Mark(v), Ok(Some(x))) => x == v,
            (FwmarkUpdate::Clear, Ok(None)) => true,
            (FwmarkUpdate::Invalid, Err(m)) => m@
                == "fwmark must be an integer, null, or the string 'None'"@,
            _ => false,
        },
{
    match value {
        None => Ok(None),
        Some(FwmarkFieldInput::Number(v)) => Ok(Some(*v)),
        Some(FwmarkFieldInput::Text(s)) => {
            let t = trim(s.as_str());
            if equal_ignoring_case(t.as_str(), "none") || equal_ignoring_case(t.as_str(), "null") {
                Ok(None)
            } else {
                Err("fwmark must be an integer, null, or the string 'None'")
            }
        },
    }
}

/// Credentials for a server.
#[derive(Debug)]
pub struct AuthenticationInput {
    pub token: Option<String>,
    pub username: Option<String>,
    pub password: Option<String>,
}

/// The credentials that flat fields stand for; none where all are empty.
pub open spec fn credentials(
    token: Option<String>,
    username: Option<String>,
    password: Option<String>,
) -> Option<AuthenticationInput> {
    if token is None && username is None && password is None {
        None
    } else {
        Some(AuthenticationInput { token, username, password })
    }
}

/// Build an `AuthenticationInput` from flat MCP fields, returning `None` if all empty.
pub fn build_mcp_auth(
    token: Option<String>,
    username: Option<String>,
    password: Option<String>,
) -> (r: Option<AuthenticationInput>)
    ensures
        r == credentials(token, username, password),
{
    if token.is_some() || username.is_some() || password.is_some() {
        Some(AuthenticationInput { token, username, password })
    } else {
        None
    }
}

/// A server of a zone as it is written, with flat credentials.
#[derive(Debug)]
pub struct McpZoneServerInput {
    pub enabled: Option<bool>,
    pub protocol: String,
    pub address: String,
    pub auth_token: Option<String>,
    pub auth_username: Option<String>,
    pub auth_password: Option<String>,
    pub check_interval: Option<String>,
    pub max_hops: Option<u8>,
    pub nameserver_ip_family: Option<String>,
    pub root_hints_path: Option<String>,
    pub root_key_path: Option<String>,
    pub dnssec: Option<bool>,
}

/// A server of a zone that is to be created.
#[derive(Debug)]
pub struct CreateZoneServerInput {
    pub enabled: Option<bool>,
    pub protocol: String,
    pub address: String,
    pub authentication: Option<AuthenticationInput>,
    pub check_interval: Option<String>,
    pub max_hops: Option<u8>,
    pub nameserver_ip_family: Option<String>,
    pub root_hints_path: Option<String>,
    pub root_key_path: Option<String>,
    pub dnssec: Option<bool>,
}

/// The server that a written one stands for.
pub fn mcp_server_to_input(s: McpZoneServerInput) -> (r: CreateZoneServerInput)
    ensures
        r.enabled == s.enabled,
        r.protocol == s.protocol,
        r.address == s.address,
        r.authentication == credentials(s.auth_token, s.auth_username, s.auth_password),
        r.check_interval == s.check_interval,
        r.max_hops == s.max_hops,
        r.nameserver_ip_family == s.nameserver_ip_family,
        r.root_hints_path == s.root_hints_path,
        r.root_key_path == s.root_key_path,
        r.dnssec == s.dnssec,
{
    let authentication = build_mcp_auth(s.auth_token, s.auth_username, s.auth_password);
    CreateZoneServerInput {
        enabled: s.enabled,
        protocol: s.protocol,
        address: s.address,
        authentication,
        check_interval: s.check_interval,
        max_hops: s.max_hops,
        nameserver_ip_family: s.nameserver_ip_family,
        root_hints_path: s.root_hints_path,
        root_key_path: s.root_key_path,
        dnssec: s.dnssec,
    }
}

// ---- the server ----

/// Whether an address stands for any address.
pub open spec fn is_wildcard(address: Seq<char>) -> bool {
    address == "0.0.0.0"@ || address == "::"@
}

/// A host with a port, without brackets.
pub open spec fn plain_host_port(host: Seq<char>, port: u16) -> Seq<char> {
    host + ":"@ + decimal(port as nat)
}

/// The bind addresses with the port, without those that stand for any address.
pub open spec fn bound_hosts(addresses: Seq<String>, port: u16) -> Seq<Seq<char>>
    decreases addresses.len(),
{
    if addresses.len() == 0 {
        seq![]
    } else {
        let before = bound_hosts(addresses.drop_last(), port);
        if is_wildcard(addresses.last()@) {
            before
        } else {
            before.push(plain_host_port(addresses.last()@, port))
        }
    }
}

/// The hosts that may ask: the configured ones, or else those of the bind addresses and
/// of the machine itself.
pub open spec fn hosts_allowed(config: McpConfig) -> Seq<Seq<char>> {
    match config.allowed_hosts {
        Some(hosts) => texts(hosts@),
        None => bound_hosts(config.addresses@, config.port) + seq![
            plain_host_port("localhost"@, config.port),
            plain_host_port("127.0.0.1"@, config.port),
            plain_host_port("[::1]"@, config.port),
        ],
    }
}

fn copy_texts(v: &Vec<String>) -> (r: Vec<String>)
    ensures
        texts(r@) == texts(v@),
{
    let mut out: Vec<String> = Vec::new();
    let mut i: usize = 0;
    while i < v.len()
        invariant
            i <= v@.len(),
            texts(out@) == texts(v@).take(i as int),
        decreases v@.len() - i,
    {
        let ghost before = texts(out@);
        out.push(v[i].clone());
        assert(texts(out@) =~= before.push(v@[i as int]@));
        assert(texts(v@).take(i + 1) =~= before.push(v@[i as int]@));
        i += 1;
    }
    assert(texts(v@).take(i as int) =~= texts(v@));
    out
}

fn with_port(host: &str, port: u16) -> (r: String)
    ensures
        r@ == plain_host_port(host@, port),
{
    let mut out = host.to_owned();
    out.push_str(":");
    out.push_str(number(port as u64).as_str());
    out
}

/// The hosts that may ask.
pub fn allowed_hosts(config: &McpConfig) -> (r: Vec<String>)
    ensures
        texts(r@) == hosts_allowed(*config),
{
    match &config.allowed_hosts {
        Some(hosts) => copy_texts(hosts),
        None => {
            let mut out: Vec<String> = Vec::new();
            let mut i: usize = 0;
            while i < config.addresses.len()
                invariant
                    i <= config.addresses@.len(),
                    texts(out@) == bound_hosts(config.addresses@.take(i as int), config.port),
                decreases config.addresses@.len() - i,
            {
                let ghost before = texts(out@);
                let ghost next = config.addresses@.take(i + 1);
                assert(next.drop_last() =~= config.addresses@.take(i as int));
                let a = config.addresses[i].as_str();
                if !same(a, "0.0.0.0") && !same(a, "::") {
                    let h = with_port(a, config.port);
                    out.push(h);
                    assert(texts(out@) =~= before.push(h@));
                }
                i += 1;
            }
            assert(config.addresses@.take(i as int) =~= config.addresses@);
            let ghost bound = texts(out@);
            out.push(with_port("localhost", config.port));
            out.push(with_port("127.0.0.1", config.port));
            out.push(with_port("[::1]", config.port));
            assert(texts(out@) =~= hosts_allowed(*config));
            out
        },
    }
}

/// How the MCP server is set up.
#[derive(Debug)]
pub struct McpPlan {
    pub addrs: Vec<SocketAddr>,
    pub stateful_mode: bool,
    pub json_response: bool,
    /// The seconds between signs of life, where they are configured.
    pub sse_keep_alive: Option<u64>,
    pub allowed_hosts: Vec<String>,
    /// The origins that may ask, where any are configured.
    pub allowed_origins: Option<Vec<String>>,
}

/// Whether a result is how the MCP server is set up.
pub open spec fn is_mcp_plan(config: McpConfig, r: Result<McpPlan, ListenerSetupError>) -> bool {
    match r {
        Ok(p) => {
            &&& are_bind_addrs(config.addresses@, config.port, p.addrs@)
            &&& p.stateful_mode == config.stateful_mode
            &&& p.json_response == config.json_response
            &&& p.sse_keep_alive == config.sse_keep_alive
            &&& texts(p.allowed_hosts@) == hosts_allowed(config)
            &&& match p.allowed_origins {
                Some(o) => config.allowed_origins@.len() > 0 && texts(o@) == texts(
                    config.allowed_origins@,
                ),
                None => config.allowed_origins@.len() == 0,
            }
        },
        Err(e) => e matches ListenerSetupError::InvalidAddress { addr, source } && is_first_invalid(
            config.addresses@,
            config.port,
            addr@,
            source@,
        ),
    }
}

/// How the MCP server is set up: on every configured address; an address that cannot
/// be parsed is an error.
pub fn plan_mcp_server(config: &McpConfig) -> (r: Result<McpPlan, ListenerSetupError>)
    ensures
        is_mcp_plan(*config, r),
        match r {
            Ok(p) => {
                &&& are_bind_addrs(config.addresses@, config.port, p.addrs@)
                &&& p.stateful_mode == config.stateful_mode
                &&& p.json_response == config.json_response
                &&& p.sse_keep_alive == config.sse_keep_alive
                &&& texts(p.allowed_hosts@) == hosts_allowed(*config)
                &&& match p.allowed_origins {
                    Some(o) => config.allowed_origins@.len() > 0 && texts(o@) == texts(
                        config.allowed_origins@,
                    ),
                    None => config.allowed_origins@.len() == 0,
                }
            },
            Err(e) => e matches ListenerSetupError::InvalidAddress { addr, source }
                && is_first_invalid(config.addresses@, config.port, addr@, source@),
        },
{
    match parse_bind_addrs(&config.addresses, config.port) {
        Err(e) => Err(e),
        Ok(addrs) => Ok(
            McpPlan {
                addrs,
                stateful_mode: config.stateful_mode,
                json_response: config.json_response,
                sse_keep_alive: config.sse_keep_alive,
                allowed_hosts: allowed_hosts(config),
                allowed_origins: if config.allowed_origins.len() == 0 {
                    None
                } else {
                    Some(copy_texts(&config.allowed_origins))
                },
            },
        ),
    }
}

/// Whether a path is one of the MCP service.
pub open spec fn is_mcp_path(path: Seq<char>) -> bool {
    path == "/mcp"@ || "/mcp/"@.is_prefix_of(path)
}

/// What is done with a request to the MCP server: `None` where the service answers it, or
/// else a status and a text. The token is looked at first, whatever the path.
pub open spec fn mcp_refusal(
    path: Seq<char>,
    authorization: Header,
    token: Option<Seq<char>>,
) -> Option<(u16, Seq<char>)> {
    let refused = refusal(authorization, token);
    if refused is Some {
        Some((401, refused->0))
    } else if is_mcp_path(path) {
        None
    } else {
        Some((404, ""@))
    }
}

/// The status and the text with which a request to the MCP server is refused; `None`
/// where the service answers it.
pub fn refuse_mcp_request(path: &str, authorization: &Header, token: Option<&str>) -> (r: Option<
    (u16, &'static str),
>)
    ensures
        match (r, mcp_refusal(path@, *authorization, opt_str(token))) {
            (Some((s, t)), Some((x, m))) => s == x && t@ == m,
            (None, None) => true,
            _ => false,
        },
{
    match check_bearer(authorization, token) {
        Some(m) => Some((401, m)),
        None => {
            if same(path, "/mcp") || starts_with(path, "/mcp/") {
                None
            } else {
                Some((404, ""))
            }
        },
    }
}

/// With a token configured, the MCP service answers no request that does not carry it.
pub proof fn law_mcp_needs_the_token(path: Seq<char>, authorization: Header, token: Seq<char>)
    requires
        !(authorization matches Header::Text(h) && h@ == "Bearer "@ + token),
    ensures
        mcp_refusal(path, authorization, Some(token)) matches Some((s, _)) && s == 401,
{
}

/// What needs no escape stands in a cell as it is, and a text is shown from its first
/// character to its last.
pub proof fn law_cells_show_the_text(a: Seq<char>, b: Seq<char>)
    ensures
        !a.contains('|') && !a.contains('\n') ==> cell(a) == a,
        cell(a + b) == cell(a) + cell(b),
        cell(seq!['|']) == seq!['\\', '|'],
        cell(seq!['\n']) == seq![' '],
    decreases a.len() + b.len(),
{
    reveal_with_fuel(cell, 2);
    assert(cell(seq!['|']) =~= seq!['\\', '|']);
    assert(cell(seq!['\n']) =~= seq![' ']);
    if a.len() > 0 {
        if !a.contains('|') && !a.contains('\n') {
            let rest = a.drop_last();
            assert(a.contains(a.last()));
            assert forall|c: char| rest.contains(c) implies a.contains(c) by {
                let i = choose|i: int| 0 <= i < rest.len() && rest[i] == c;
                assert(a[i] == c);
            }
            law_cells_show_the_text(rest, Seq::empty());
            assert(cell(a) =~= a);
        }
    } else {
        assert(cell(a) =~= a);
    }
    if b.len() > 0 {
        law_cells_show_the_text(a, b.drop_last());
        assert((a + b).drop_last() =~= a + b.drop_last());
        assert(cell(a + b) =~= cell(a) + cell(b));
    } else {
        assert(a + b =~= a);
        assert(cell(a + b) =~= cell(a) + cell(b));
    }
}

/// Each server has its row, in the order of the servers, and each column shows its field,
/// with a dash for what is not set.
pub proof fn law_columns_show_their_field(s: UpstreamServerRecord, before: Seq<UpstreamServerRecord>)
    ensures
        upstream_rows(before.push(s)) == upstream_rows(before) + row(upstream_cells(s)),
        upstream_cells(s).len() == 13,
        upstream_cells(s)[0] == cell(s.id@),
        upstream_cells(s)[1] == (if s.enabled { "yes"@ } else { "no"@ }),
        upstream_cells(s)[2] == cell(s.protocol@),
        upstream_cells(s)[3] == cell(s.address@),
        upstream_cells(s)[4] == signed_decimal(s.sort_order as int),
        s.bind_address matches Some(t) ==> upstream_cells(s)[5] == cell(t@),
        s.bind_address is None ==> upstream_cells(s)[5] == "-"@,
        s.fwmark matches Some(m) ==> upstream_cells(s)[6] == decimal(m as nat),
        s.fwmark is None ==> upstream_cells(s)[6] == "-"@,
        upstream_cells(s)[7] == (if s.dnssec { "yes"@ } else { "no"@ }),
        s.max_hops matches Some(n) ==> upstream_cells(s)[9] == signed_decimal(n as int),
        s.nameserver_ip_family matches Some(t) ==> upstream_cells(s)[10] == cell(t@),
        s.root_hints_path matches Some(t) ==> upstream_cells(s)[11] == cell(t@),
        s.root_key_path matches Some(t) ==> upstream_cells(s)[12] == cell(t@),
{
    assert(before.push(s).drop_last() =~= before);
}

/// Of the credentials the table tells the mode: a token goes before a user and a password,
/// of which either will do.
pub proof fn law_credentials_have_a_mode(s: UpstreamServerRecord)
    ensures
        upstream_cells(s)[8] == "bearer"@ <==> s.auth_token is Some,
        upstream_cells(s)[8] == "basic"@ <==> s.auth_token is None && (s.auth_username is Some
            || s.auth_password is Some),
        upstream_cells(s)[8] == "none"@ <==> s.auth_token is None && s.auth_username is None
            && s.auth_password is None,
{
    reveal_strlit("bearer");
    reveal_strlit("basic");
    reveal_strlit("none");
    assert("bearer"@.len() == 6 && "basic"@.len() == 5 && "none"@.len() == 4);
}

/// The statistics and the matches of a search have their rows in order too, and each column
/// shows its field.
pub proof fn law_tables_show_their_rows(
    u: UpstreamStatsEntry,
    upstreams: Seq<UpstreamStatsEntry>,
    m: ZoneSearchResult,
    matches: Seq<ZoneSearchResult>,
)
    ensures
        stats_rows(upstreams.push(u)) == stats_rows(upstreams) + row(stats_cells(u)),
        stats_cells(u).len() == 5,
        stats_cells(u)[0] == cell(u.upstream@),
        stats_cells(u)[1] == decimal(u.requests_total as nat),
        stats_cells(u)[2] == decimal(u.errors_total as nat),
        stats_cells(u)[3] == decimal(u.latency_count as nat),
        stats_cells(u)[4] == u.latency_sum_seconds@,
        match_rows(matches.push(m)) == match_rows(matches) + row(match_cells(m)),
        match_cells(m).len() == 6,
        match_cells(m)[0] == cell(m.record.zone@),
        match_cells(m)[1] == cell(m.record.name@),
        match_cells(m)[2] == cell(m.record.record_type@),
        match_cells(m)[3] == decimal(m.record.ttl as nat),
        match_cells(m)[4] == cell(m.record.data@),
        match_cells(m)[5] == signed_decimal(m.score as int),
{
    assert(upstreams.push(u).drop_last() =~= upstreams);
    assert(matches.push(m).drop_last() =~= matches);
}

/// A mark is set by a number and cleared by null, or by the words `none` and `null`; every
/// other text is an error.
pub proof fn law_marks_are_set_or_cleared(n: u32, s: String)
    ensures
        fwmark_update(Some(FwmarkFieldInput::Number(n))) == FwmarkUpdate::Mark(n),
        fwmark_update(None) is Clear,
        fwmark_update(Some(FwmarkFieldInput::Text(s))) is Clear <==> same_ignoring_case(
            trimmed(s@),
            "none"@,
        ) || same_ignoring_case(trimmed(s@), "null"@),
        !(fwmark_update(Some(FwmarkFieldInput::Text(s))) is Mark),
{
}

/// Credentials are there exactly where one of their fields is, and hold all of them.
pub proof fn law_credentials_hold_their_fields(
    token: Option<String>,
    username: Option<String>,
    password: Option<String>,
)
    ensures
        match credentials(token, username, password) {
            Some(a) => a.token == token && a.username == username && a.password == password && (
            token is Some || username is Some || password is Some),
            None => token is None && username is None && password is None,
        },
{
}

/// Configured hosts are the ones that may ask, and no others; without any these are the
/// machine itself, under its three names, and every bind address that is one.
pub proof fn law_hosts_that_may_ask(config: McpConfig, i: int)
    ensures
        config.allowed_hosts matches Some(hosts) ==> hosts_allowed(config) == texts(hosts@),
        config.allowed_hosts is None ==> {
            &&& hosts_allowed(config).contains("localhost"@ + ":"@ + decimal(config.port as nat))
            &&& hosts_allowed(config).contains("127.0.0.1"@ + ":"@ + decimal(config.port as nat))
            &&& hosts_allowed(config).contains("[::1]"@ + ":"@ + decimal(config.port as nat))
            &&& 0 <= i < config.addresses@.len() && config.addresses@[i]@ != "0.0.0.0"@
                && config.addresses@[i]@ != "::"@ ==> hosts_allowed(config).contains(
                config.addresses@[i]@ + ":"@ + decimal(config.port as nat),
            )
            &&& hosts_allowed(config).len() <= config.addresses@.len() + 3
        },
{
    if config.allowed_hosts is None {
        let all = hosts_allowed(config);
        let bound = bound_hosts(config.addresses@, config.port);
        let n = bound.len() as int;
        assert(all[n] == plain_host_port("localhost"@, config.port));
        assert(all[n + 1] == plain_host_port("127.0.0.1"@, config.port));
        assert(all[n + 2] == plain_host_port("[::1]"@, config.port));
        lemma_bound_hosts(config.addresses@, config.port, i);
        if 0 <= i < config.addresses@.len() && !is_wildcard(config.addresses@[i]@) {
            let h = plain_host_port(config.addresses@[i]@, config.port);
            let k = choose|k: int| 0 <= k < bound.len() && bound[k] == h;
            assert(all[k] == h);
        }
    }
}

proof fn lemma_bound_hosts(addresses: Seq<String>, port: u16, i: int)
    ensures
        bound_hosts(addresses, port).len() <= addresses.len(),
        0 <= i < addresses.len() && !is_wildcard(addresses[i]@) ==> bound_hosts(
            addresses,
            port,
        ).contains(plain_host_port(addresses[i]@, port)),
    decreases addresses.len(),
{
    if addresses.len() > 0 {
        let rest = addresses.drop_last();
        lemma_bound_hosts(rest, port, i);
        let all = bound_hosts(addresses, port);
        let before = bound_hosts(rest, port);
        if 0 <= i < addresses.len() && !is_wildcard(addresses[i]@) {
            let h = plain_host_port(addresses[i]@, port);
            if i == addresses.len() - 1 {
                assert(all[before.len() as int] == h);
            } else {
                assert(rest[i] == addresses[i]);
                let k = choose|k: int| 0 <= k < before.len() && before[k] == h;
                assert(all[k] == h);
            }
        }
    }
}

/// With the configured token a request is treated as where none is configured: the service
/// answers what is asked at `/mcp` and below, and nothing else is found.
pub proof fn law_right_token_opens_the_service(
    path: Seq<char>,
    rest: Seq<char>,
    authorization: Header,
    token: Seq<char>,
)
    requires
        authorization matches Header::Text(h) && h@ == "Bearer "@ + token,
    ensures
        mcp_refusal(path, authorization, Some(token)) == mcp_refusal(path, Header::Absent, None),
        mcp_refusal("/mcp"@, Header::Absent, None) is None,
        mcp_refusal("/mcp/"@ + rest, Header::Absent, None) is None,
        path != "/mcp"@ && !"/mcp/"@.is_prefix_of(path) ==> (mcp_refusal(
            path,
            Header::Absent,
            None,
        ) matches Some((s, _)) && s == 404),
{
    let p = "/mcp/"@ + rest;
    assert(p.subrange(0, "/mcp/"@.len() as int) =~= "/mcp/"@);
}

/// The MCP server waits at every address that is configured, with the settings that are; it
/// restricts origins exactly where some are named.
pub proof fn law_service_is_set_up_as_configured(
    config: McpConfig,
    r: Result<McpPlan, ListenerSetupError>,
    list: Seq<SocketAddr>,
)
    requires
        is_mcp_plan(config, r),
        are_bind_addrs(config.addresses@, config.port, list),
    ensures
        r matches Ok(p) && {
            &&& p.addrs@.len() == config.addresses@.len()
            &&& p.stateful_mode == config.stateful_mode
            &&& p.json_response == config.json_response
            &&& p.sse_keep_alive == config.sse_keep_alive
            &&& texts(p.allowed_hosts@) == hosts_allowed(config)
            &&& p.allowed_origins is Some <==> config.allowed_origins@.len() > 0
            &&& p.allowed_origins matches Some(o) ==> texts(o@) == texts(config.allowed_origins@)
        },
{
    if let Err(ListenerSetupError::InvalidAddress { addr, source }) = r {
        law_bad_addresses_are_not_bound(config.addresses@, config.port, list, addr@, source@);
    }
}

/// Statistics and servers are laid out unless that is declined, and the matches of a search
/// only where it is asked for.
pub proof fn law_layouts_are_a_choice(choice: Option<bool>)
    ensures
        choice matches Some(c) ==> (is_laid_out(true, choice) <==> c) && (is_laid_out(false, choice)
            <==> c),
        choice is None ==> is_laid_out(true, choice) && !is_laid_out(false, choice),
{
}

/// A table has a row for each server behind its head, and is a sentence where there is none;
/// one more server adds its row at the end.
pub proof fn law_table_of_servers_grows_by_rows(
    servers: Seq<UpstreamServerRecord>,
    s: UpstreamServerRecord,
)
    ensures
        upstreams_markdown(seq![]) == "No upstream servers configured."@,
        servers.len() > 0 ==> upstreams_markdown(servers.push(s)) == upstreams_markdown(servers)
            + row(upstream_cells(s)),
        row(upstream_cells(s)).is_suffix_of(upstreams_markdown(servers.push(s))),
{
    law_columns_show_their_field(s, servers);
    let m = upstreams_markdown(servers.push(s));
    let e = row(upstream_cells(s));
    assert(m.subrange(m.len() - e.len(), m.len() as int) =~= e);
    if servers.len() > 0 {
        assert(m =~= upstreams_markdown(servers) + e);
    }
}

/// The result of a search tells what was looked for, how much there is and how much is shown,
/// and then shows each match in a row.
pub proof fn law_search_shows_its_matches(s: ZoneSearchResultList, m: ZoneSearchResult, before: Seq<
    ZoneSearchResult,
>)
    ensures
        search_head(s).is_prefix_of(search_markdown(s)),
        ("Query: "@ + cell(s.query@)).is_prefix_of(search_head(s)),
        s.results@.len() == 0 ==> search_markdown(s) == search_head(s)
            + "No zone records matched.\n"@,
        s.results@ == before.push(m) ==> row(match_cells(m)).is_suffix_of(search_markdown(s)),
{
    let t = search_markdown(s);
    let h = search_head(s);
    assert(t.subrange(0, h.len() as int) =~= h);
    let q = "Query: "@ + cell(s.query@);
    assert(h.subrange(0, q.len() as int) =~= q);
    if s.results@ == before.push(m) {
        assert(before.push(m).drop_last() =~= before);
        let e = row(match_cells(m));
        assert(t.subrange(t.len() - e.len(), t.len() as int) =~= e);
    }
}

/// The summary of the statistics shows every number behind its name.
pub proof fn law_summary_shows_every_number(s: StatsResult)
    ensures
        s.filtering_enabled ==> occurs_in("- filtering_enabled: "@ + "yes"@, stats_summary(s)),
        !s.filtering_enabled ==> occurs_in("- filtering_enabled: "@ + "no"@, stats_summary(s)),
        occurs_in("\n- uptime_seconds: "@ + decimal(s.uptime_seconds as nat), stats_summary(s)),
        occurs_in("\n- queries_total: "@ + decimal(s.queries_total as nat), stats_summary(s)),
        occurs_in("\n- queries_blocked: "@ + decimal(s.queries_blocked as nat), stats_summary(s)),
        occurs_in("\n- queries_allowed: "@ + decimal(s.queries_allowed as nat), stats_summary(s)),
        occurs_in("\n- queries_passthrough: "@ + decimal(s.queries_passthrough as nat), stats_summary(s)),
        occurs_in("\n- blocklist_hits_total: "@ + decimal(s.blocklist_hits_total as nat), stats_summary(s)),
        occurs_in("\n- cache_hits_total: "@ + decimal(s.cache_hits_total as nat), stats_summary(s)),
        occurs_in("\n- cache_misses_total: "@ + decimal(s.cache_misses_total as nat), stats_summary(s)),
{
    let filtering = if s.filtering_enabled {
        "yes"@
    } else {
        "no"@
    };
    let t1 = "## Summary\n\n"@ + "- filtering_enabled: "@ + filtering;
    lemma_pair_occurs("## Summary\n\n"@, "- filtering_enabled: "@, filtering);
    let t2 = t1 + "\n- uptime_seconds: "@ + decimal(s.uptime_seconds as nat);
    lemma_pair_occurs(t1, "\n- uptime_seconds: "@, decimal(s.uptime_seconds as nat));
    let t3 = t2 + "\n- queries_total: "@ + decimal(s.queries_total as nat);
    lemma_pair_occurs(t2, "\n- queries_total: "@, decimal(s.queries_total as nat));
    let t4 = t3 + "\n- queries_blocked: "@ + decimal(s.queries_blocked as nat);
    lemma_pair_occurs(t3, "\n- queries_blocked: "@, decimal(s.queries_blocked as nat));
    let t5 = t4 + "\n- queries_allowed: "@ + decimal(s.queries_allowed as nat);
    lemma_pair_occurs(t4, "\n- queries_allowed: "@, decimal(s.queries_allowed as nat));
    let t6 = t5 + "\n- queries_passthrough: "@ + decimal(s.queries_passthrough as nat);
    lemma_pair_occurs(t5, "\n- queries_passthrough: "@, decimal(s.queries_passthrough as nat));
    let t7 = t6 + "\n- blocklist_hits_total: "@ + decimal(s.blocklist_hits_total as nat);
    lemma_pair_occurs(t6, "\n- blocklist_hits_total: "@, decimal(s.blocklist_hits_total as nat));
    let t8 = t7 + "\n- cache_hits_total: "@ + decimal(s.cache_hits_total as nat);
    lemma_pair_occurs(t7, "\n- cache_hits_total: "@, decimal(s.cache_hits_total as nat));
    let t9 = t8 + "\n- cache_misses_total: "@ + decimal(s.cache_misses_total as nat);
    lemma_pair_occurs(t8, "\n- cache_misses_total: "@, decimal(s.cache_misses_total as nat));
    lemma_occurs_in_longer(t9, "\n\n"@);
    assert(stats_summary(s) == t9 + "\n\n"@);
}

/// The statistics begin with their summary and show the servers in a table; without any server
/// there is a sentence in its place.
pub proof fn law_statistics_show_the_servers(s: StatsResult)
    ensures
        stats_summary(s).is_prefix_of(stats_markdown(s)),
        occurs_in(stats_upstreams(s.upstreams@), stats_markdown(s)),
        s.upstreams@.len() == 0 ==> stats_upstreams(s.upstreams@)
            == "No upstream metrics available.\n"@,
        s.upstreams@.len() > 0 ==> stats_rows(s.upstreams@).is_suffix_of(
            stats_upstreams(s.upstreams@),
        ),
        ("Configured lists: "@ + decimal(s.lists@.len()) + "\n"@).is_suffix_of(stats_markdown(s)),
{
    let t = stats_markdown(s);
    let h = stats_summary(s);
    let u = stats_upstreams(s.upstreams@);
    let l = "Configured lists: "@ + decimal(s.lists@.len()) + "\n"@;
    assert(t.subrange(0, h.len() as int) =~= h);
    assert(t.subrange(t.len() - l.len(), t.len() as int) =~= l);
    lemma_part_occurs(h + "## Upstreams\n\n"@, u, "\n## Filter Lists\n\n"@ + l);
    assert(t =~= (h + "## Upstreams\n\n"@) + u + ("\n## Filter Lists\n\n"@ + l));
    let rows = stats_rows(s.upstreams@);
    if s.upstreams@.len() > 0 {
        assert(u.subrange(u.len() - rows.len(), u.len() as int) =~= rows);
    }
}

/// What is laid out has the name of its layout, its title and the Markdown.
pub proof fn law_layouts_hold_the_markdown(
    p: Option<McpPresentation>,
    layout: Seq<char>,
    title: Seq<char>,
    markdown: Seq<char>,
)
    requires
        presents(p, layout, title, markdown),
    ensures
        p matches Some(x) && x.layout@ == layout && x.title@ == title && x.markdown@ == markdown,
{
}

} // verus!
