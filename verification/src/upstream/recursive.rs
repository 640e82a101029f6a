//! Iterative resolution from the root: the addresses of the root servers, the
//! families of addresses that may be asked, and the answers that are put together.

use crate::net::{parsed_ip, read_ip, socket_addr, IpAddr, SocketAddr};
use crate::text::{chars_of, lines, same, split_lines, texts, trim, trimmed, word_list, words};
use crate::upstream::error::{UpstreamResolveError, UpstreamResolveErrorView};
use crate::upstream::message::{
    head_result, message_head, read_message, Edns, MessageHead, MessageHeadView, Question,
};
use vstd::prelude::*;

verus! {

/// Default maximum number of referral hops before the resolver gives up.
pub const DEFAULT_MAX_HOPS: u8 = 12;

/// Controls which address families the recursive resolver may query.
#[derive(Clone, Copy, Debug, PartialEq, Eq, Structural)]
pub enum NameserverIpFamily {
    /// Allow both IPv4 and IPv6 nameservers (default).
    Both,
    /// Only query IPv4 nameservers; all IPv6 addresses are denied.
    Ipv4Only,
    /// Only query IPv6 nameservers; all IPv4 addresses are denied.
    Ipv6Only,
}

impl Default for NameserverIpFamily {
    fn default() -> (r: NameserverIpFamily)
        ensures
            r == NameserverIpFamily::Both,
    {
        NameserverIpFamily::Both
    }
}

// ---- root servers ----

/// IPv4 addresses of the 13 IANA root nameservers (a-m.root-servers.net).
pub open spec fn root_servers_v4() -> Seq<u32> {
    seq![
        0xc629_0004u32,
        0xc709_0ec9u32,
        0xc021_040cu32,
        0xc707_5b0du32,
        0xc0cb_e60au32,
        0xc005_05f1u32,
        0xc070_2404u32,
        0xc661_be35u32,
        0xc024_9411u32,
        0xc03a_801eu32,
        0xc100_0e81u32,
        0xc707_532au32,
        0xca0c_1b21u32,
    ]
}

/// IPv6 addresses of the 13 IANA root nameservers.
pub open spec fn root_servers_v6() -> Seq<u128> {
    seq![
        0x2001_0503_ba3e_0000_0000_0000_0002_0030u128,
        0x2001_0500_0200_0000_0000_0000_0000_000bu128,
        0x2001_0500_0002_0000_0000_0000_0000_000cu128,
        0x2001_0500_002d_0000_0000_0000_0000_000du128,
        0x2001_0500_00a8_0000_0000_0000_0000_000eu128,
        0x2001_0500_002f_0000_0000_0000_0000_000fu128,
        0x2001_0500_0012_0000_0000_0000_0000_0d0du128,
        0x2001_0500_0001_0000_0000_0000_0000_0053u128,
        0x2001_07fe_0000_0000_0000_0000_0000_0053u128,
        0x2001_0503_0c27_0000_0000_0000_0002_0030u128,
        0x2001_07fd_0000_0000_0000_0000_0000_0001u128,
        0x2001_0500_009f_0000_0000_0000_0000_0042u128,
        0x2001_0dc3_0000_0000_0000_0000_0000_0035u128,
    ]
}

/// IPv4 addresses of the 13 IANA root nameservers (a-m.root-servers.net).
///
/// Used as compiled-in fallback when no `root.hints` file is found.
pub fn root_hints_v4() -> (r: Vec<u32>)
    ensures
        r@ == root_servers_v4(),
{
    let mut v: Vec<u32> = Vec::new();
    v.push(0xc629_0004);
    v.push(0xc709_0ec9);
    v.push(0xc021_040c);
    v.push(0xc707_5b0d);
    v.push(0xc0cb_e60a);
    v.push(0xc005_05f1);
    v.push(0xc070_2404);
    v.push(0xc661_be35);
    v.push(0xc024_9411);
    v.push(0xc03a_801e);
    v.push(0xc100_0e81);
    v.push(0xc707_532a);
    v.push(0xca0c_1b21);
    v
}

/// IPv6 addresses of the 13 IANA root nameservers.
pub fn root_hints_v6() -> (r: Vec<u128>)
    ensures
        r@ == root_servers_v6(),
{
    let mut v: Vec<u128> = Vec::new();
    v.push(0x2001_0503_ba3e_0000_0000_0000_0002_0030);
    v.push(0x2001_0500_0200_0000_0000_0000_0000_000b);
    v.push(0x2001_0500_0002_0000_0000_0000_0000_000c);
    v.push(0x2001_0500_002d_0000_0000_0000_0000_000d);
    v.push(0x2001_0500_00a8_0000_0000_0000_0000_000e);
    v.push(0x2001_0500_002f_0000_0000_0000_0000_000f);
    v.push(0x2001_0500_0012_0000_0000_0000_0000_0d0d);
    v.push(0x2001_0500_0001_0000_0000_0000_0000_0053);
    v.push(0x2001_07fe_0000_0000_0000_0000_0000_0053);
    v.push(0x2001_0503_0c27_0000_0000_0000_0002_0030);
    v.push(0x2001_07fd_0000_0000_0000_0000_0000_0001);
    v.push(0x2001_0500_009f_0000_0000_0000_0000_0042);
    v.push(0x2001_0dc3_0000_0000_0000_0000_0000_0035);
    v
}

/// The compiled-in root servers, those of IPv4 first, at port 53.
pub open spec fn builtin_hints() -> Seq<SocketAddr> {
    Seq::new(13, |i: int| socket_addr(IpAddr::V4(root_servers_v4()[i]), 53)) + Seq::new(
        13,
        |i: int| socket_addr(IpAddr::V6(root_servers_v6()[i]), 53),
    )
}

/// Returns the compiled-in root-server addresses (IPv4 + IPv6).
pub fn builtin_root_hints() -> (r: Vec<SocketAddr>)
    ensures
        r@ == builtin_hints(),
{
    let v4 = root_hints_v4();
    let v6 = root_hints_v6();
    let mut out: Vec<SocketAddr> = Vec::new();
    let mut i: usize = 0;
    while i < v4.len()
        invariant
            i <= v4@.len() == 13,
            v4@ == root_servers_v4(),
            out@ == builtin_hints().take(i as int),
        decreases v4@.len() - i,
    {
        out.push(SocketAddr::new(IpAddr::V4(v4[i]), 53));
        assert(out@ =~= builtin_hints().take(i + 1));
        i += 1;
    }
    let mut k: usize = 0;
    while k < v6.len()
        invariant
            k <= v6@.len() == 13,
            v6@ == root_servers_v6(),
            out@ == builtin_hints().take(13 + k),
        decreases v6@.len() - k,
    {
        out.push(SocketAddr::new(IpAddr::V6(v6[k]), 53));
        assert(out@ =~= builtin_hints().take(13 + k + 1));
        k += 1;
    }
    assert(builtin_hints().take(26) =~= builtin_hints());
    out
}

/// The root server that a record names, given its type and the address that its data is:
/// one of the kind that the type says.
pub open spec fn hint_given(rtype: Seq<char>, address: Option<IpAddr>) -> Option<SocketAddr> {
    match address {
        Some(IpAddr::V4(a)) => if rtype == "A"@ {
            Some(socket_addr(IpAddr::V4(a), 53))
        } else {
            None
        },
        Some(IpAddr::V6(a)) => if rtype == "AAAA"@ {
            Some(socket_addr(IpAddr::V6(a), 53))
        } else {
            None
        },
        None => None,
    }
}

/// The root server that a record names, given its type and the address that its data is.
pub fn hint_of_record(rtype: &str, address: Option<IpAddr>) -> (r: Option<SocketAddr>)
    ensures
        r == hint_given(rtype@, address),
{
    match address {
        Some(IpAddr::V4(a)) => if same(rtype, "A") {
            Some(SocketAddr::new(IpAddr::V4(a), 53))
        } else {
            None
        },
        Some(IpAddr::V6(a)) => if same(rtype, "AAAA") {
            Some(SocketAddr::new(IpAddr::V6(a), 53))
        } else {
            None
        },
        None => None,
    }
}

/// The root server that a line of a `root.hints` file names: a line with four or five
/// fields, of which the last is an address of the kind that the last but one says.
/// Comments name none.
pub open spec fn hint_of_line(line: Seq<char>) -> Option<SocketAddr> {
    let t = trimmed(line);
    let fields = words(t);
    if t.len() == 0 || t[0] == ';' || !(fields.len() == 4 || fields.len() == 5) {
        None
    } else {
        hint_given(fields[fields.len() - 2], parsed_ip(fields.last()))
    }
}

/// The root servers that lines name, in their order.
pub open spec fn hints_of_lines(ls: Seq<Seq<char>>) -> Seq<SocketAddr>
    decreases ls.len(),
{
    if ls.len() == 0 {
        seq![]
    } else {
        let before = hints_of_lines(ls.drop_last());
        match hint_of_line(ls.last()) {
            Some(a) => before.push(a),
            None => before,
        }
    }
}

fn parse_hint_line(line: &str) -> (r: Option<SocketAddr>)
    ensures
        r == hint_of_line(line@),
{
    let t = trim(line);
    let v = chars_of(t.as_str());
    if v.len() == 0 || v[0] == ';' {
        return None;
    }
    let fields = word_list(t.as_str());
    assert(texts(fields@).len() == fields@.len());
    let n: usize = fields.len();
    if n != 4 && n != 5 {
        return None;
    }
    assert(fields@[n - 1]@ == texts(fields@)[n - 1]);
    assert(fields@[n - 2]@ == texts(fields@)[n - 2]);
    hint_of_record(fields[n - 2].as_str(), read_ip(fields[n - 1].as_str()))
}

/// Parses a `root.hints` file (RFC 1035 zone-file subset) and returns the
/// socket addresses (port 53) found in A and AAAA records.
pub fn parse_root_hints(content: &str) -> (r: Vec<SocketAddr>)
    ensures
        r@ == hints_of_lines(lines(content@)),
{
    let ls = split_lines(content);
    let ghost all = lines(content@);
    let mut out: Vec<SocketAddr> = Vec::new();
    let mut i: usize = 0;
    assert(texts(ls@).len() == ls@.len());
    while i < ls.len()
        invariant
            i <= ls@.len() == all.len(),
            texts(ls@) == all,
            out@ == hints_of_lines(all.take(i as int)),
        decreases ls@.len() - i,
    {
        assert(all.take(i + 1).drop_last() =~= all.take(i as int));
        assert(all[i as int] == ls@[i as int]@);
        if let Some(a) = parse_hint_line(ls[i].as_str()) {
            out.push(a);
        }
        i += 1;
    }
    assert(all.take(i as int) =~= all);
    out
}

/// The addresses from the first of some files that names any; the compiled-in ones where
/// none does. A file that cannot be read is `None`.
pub open spec fn chosen_hints(files: Seq<Option<String>>) -> Seq<SocketAddr>
    decreases files.len(),
{
    if files.len() == 0 {
        builtin_hints()
    } else {
        match files[0] {
            Some(content) => {
                let found = hints_of_lines(lines(content@));
                if found.len() > 0 {
                    found
                } else {
                    chosen_hints(files.skip(1))
                }
            },
            None => chosen_hints(files.skip(1)),
        }
    }
}

/// Chooses the root-server addresses for iterative resolution from the contents of the
/// files at `root_hints_paths`: the first file that names any decides, and the
/// compiled-in addresses stand in where none does.
pub fn load_root_hints(files: &Vec<Option<String>>) -> (r: Vec<SocketAddr>)
    ensures
        r@ == chosen_hints(files@),
{
    let mut i: usize = 0;
    assert(files@.skip(0) =~= files@);
    while i < files.len()
        invariant
            i <= files@.len(),
            chosen_hints(files@) == chosen_hints(files@.skip(i as int)),
        decreases files@.len() - i,
    {
        assert(files@.skip(i as int)[0] == files@[i as int]);
        assert(files@.skip(i as int).skip(1) =~= files@.skip(i + 1));
        if let Some(content) = &files[i] {
            let found = parse_root_hints(content.as_str());
            if found.len() > 0 {
                return found;
            }
        }
        i += 1;
    }
    builtin_root_hints()
}

/// The files in which something is looked for: the configured one alone, or else those at
/// the well-known paths.
pub open spec fn places_to_look(configured: Option<&str>, known: Seq<Seq<char>>) -> Seq<Seq<char>> {
    match configured {
        Some(p) => seq![p@],
        None => known,
    }
}

/// A configured file is the only one that is looked at.
pub proof fn law_configured_file_is_looked_at_alone(p: &str, known: Seq<Seq<char>>)
    ensures
        places_to_look(Some(p), known) == seq![p@],
        places_to_look(None, known) == known,
{
}

/// The files in which root servers are looked for: the configured one alone, or else
/// the well-known paths where the OS may ship one.
pub fn root_hints_paths(configured: Option<&str>) -> (r: Vec<String>)
    ensures
        texts(r@) == places_to_look(
            configured,
            seq![
                "/usr/share/dns/root.hints"@,
                "/usr/share/dns-root-data/root.hints"@,
                "/var/named/root.hints"@,
            ],
        ),
        texts(r@) == match configured {
            Some(p) => seq![p@],
            None => seq![
                "/usr/share/dns/root.hints"@,
                "/usr/share/dns-root-data/root.hints"@,
                "/var/named/root.hints"@,
            ],
        },
{
    let mut v: Vec<String> = Vec::new();
    match configured {
        Some(p) => {
            v.push(p.to_owned());
            assert(texts(v@) =~= seq![p@]);
        },
        None => {
            v.push("/usr/share/dns/root.hints".to_owned());
            v.push("/usr/share/dns-root-data/root.hints".to_owned());
            v.push("/var/named/root.hints".to_owned());
            assert(texts(v@) =~= seq![
                "/usr/share/dns/root.hints"@,
                "/usr/share/dns-root-data/root.hints"@,
                "/var/named/root.hints"@,
            ]);
        },
    }
    v
}

/// The files in which the trust anchors of the root are looked for: the configured one
/// alone, or else the well-known paths where the OS may ship one.
pub fn root_key_paths(configured: Option<&str>) -> (r: Vec<String>)
    ensures
        texts(r@) == places_to_look(
            configured,
            seq!["/usr/share/dns/root.key"@, "/usr/share/dns-root-data/root.key"@],
        ),
        texts(r@) == match configured {
            Some(p) => seq![p@],
            None => seq!["/usr/share/dns/root.key"@, "/usr/share/dns-root-data/root.key"@],
        },
{
    let mut v: Vec<String> = Vec::new();
    match configured {
        Some(p) => {
            v.push(p.to_owned());
            assert(texts(v@) =~= seq![p@]);
        },
        None => {
            v.push("/usr/share/dns/root.key".to_owned());
            v.push("/usr/share/dns-root-data/root.key".to_owned());
            assert(texts(v@) =~= seq![
                "/usr/share/dns/root.key"@,
                "/usr/share/dns-root-data/root.key"@,
            ]);
        },
    }
    v
}

/// Whether a file with so many trust anchors can be used.
pub open spec fn has_anchors(count: Option<usize>) -> bool {
    count matches Some(n) && n > 0
}

/// Whether a file with trust anchors is the one that is used.
pub open spec fn is_chosen_key(counts: Seq<Option<usize>>, r: Option<usize>) -> bool {
    match r {
        Some(i) => i < counts.len() && has_anchors(counts[i as int]) && forall|j: int|
            0 <= j < i ==> !has_anchors(#[trigger] counts[j]),
        None => forall|j: int| 0 <= j < counts.len() ==> !has_anchors(#[trigger] counts[j]),
    }
}

/// Which of the files with trust anchors is used: the first that holds any. Each number
/// is how many a file holds, and `None` is a file that cannot be read. Where none is
/// used, the compiled-in anchors are.
pub fn choose_root_key(counts: &Vec<Option<usize>>) -> (r: Option<usize>)
    ensures
        is_chosen_key(counts@, r),
        match r {
            Some(i) => {
                &&& i < counts@.len()
                &&& counts@[i as int] matches Some(n) && n > 0
                &&& forall|j: int| 0 <= j < i ==> !(#[trigger] counts@[j] matches Some(n) && n > 0)
            },
            None => forall|j: int|
                0 <= j < counts@.len() ==> !(#[trigger] counts@[j] matches Some(n) && n > 0),
        },
{
    let mut i: usize = 0;
    while i < counts.len()
        invariant
            i <= counts@.len(),
            forall|j: int| 0 <= j < i ==> !(#[trigger] counts@[j] matches Some(n) && n > 0),
        decreases counts@.len() - i,
    {
        if let Some(n) = counts[i] {
            if n > 0 {
                return Some(i);
            }
        }
        i += 1;
    }
    None
}

proof fn lemma_hint_ports(ls: Seq<Seq<char>>)
    ensures
        forall|i: int| 0 <= i < hints_of_lines(ls).len() ==> (#[trigger] hints_of_lines(ls)[i]).port == 53,
    decreases ls.len(),
{
    if ls.len() > 0 {
        lemma_hint_ports(ls.drop_last());
    }
}

/// There is always a root server to begin with, and every one is asked at port 53.
pub proof fn law_there_are_root_servers(files: Seq<Option<String>>)
    ensures
        chosen_hints(files).len() > 0,
        forall|i: int| 0 <= i < chosen_hints(files).len() ==> (#[trigger] chosen_hints(files)[i]).port == 53,
    decreases files.len(),
{
    if files.len() > 0 {
        law_there_are_root_servers(files.skip(1));
        if let Some(content) = files[0] {
            lemma_hint_ports(lines(content@));
        }
    }
}

// ---- families of addresses ----

/// Whether an address may be asked.
pub open spec fn is_allowed(family: NameserverIpFamily, ip: IpAddr) -> bool {
    match family {
        NameserverIpFamily::Both => true,
        NameserverIpFamily::Ipv4Only => ip is V4,
        NameserverIpFamily::Ipv6Only => ip is V6,
    }
}

/// The addresses of root servers that may be asked, in their order.
pub open spec fn allowed_ips(hints: Seq<SocketAddr>, family: NameserverIpFamily) -> Seq<IpAddr>
    decreases hints.len(),
{
    if hints.len() == 0 {
        seq![]
    } else {
        let before = allowed_ips(hints.drop_last(), family);
        if is_allowed(family, hints.last().ip) {
            before.push(hints.last().ip)
        } else {
            before
        }
    }
}

/// A range of addresses.
#[derive(Clone, Copy, Debug, PartialEq, Eq, Structural)]
pub struct Network {
    pub address: IpAddr,
    pub prefix_len: u8,
}

/// Whether an address is denied by one of some ranges, of which each is all of a family.
pub open spec fn is_denied(networks: Seq<Network>, ip: IpAddr) -> bool {
    exists|i: int|
        0 <= i < networks.len() && (#[trigger] networks[i]).prefix_len == 0 && (
        networks[i].address is V4 <==> ip is V4)
}

/// How the resolver is set up.
#[derive(Debug)]
pub struct RecursorPlan {
    /// The root servers with which it begins.
    pub roots: Vec<IpAddr>,
    pub recursion_limit: u8,
    /// The addresses that it never asks.
    pub deny_server: Vec<Network>,
    /// Whether answers are validated.
    pub dnssec: bool,
}

/// Whether this is how the resolver is set up.
pub open spec fn is_recursor_plan(
    root_hints: Seq<SocketAddr>,
    max_hops: u8,
    family: NameserverIpFamily,
    dnssec: bool,
    r: RecursorPlan,
) -> bool {
    &&& r.roots@ == allowed_ips(root_hints, family)
    &&& r.recursion_limit == max_hops
    &&& r.deny_server@ == match family {
        NameserverIpFamily::Both => seq![],
        NameserverIpFamily::Ipv4Only => seq![Network { address: IpAddr::V6(0), prefix_len: 0 }],
        NameserverIpFamily::Ipv6Only => seq![Network { address: IpAddr::V4(0), prefix_len: 0 }],
    }
    &&& forall|ip: IpAddr| is_denied(r.deny_server@, ip) <==> !is_allowed(family, ip)
    &&& r.dnssec == dnssec
}

/// How the resolver is set up: it begins with the root servers of the requested family
/// and never asks a server of the other one.
pub fn plan_recursor(
    root_hints: &Vec<SocketAddr>,
    max_hops: u8,
    nameserver_ip_family: NameserverIpFamily,
    dnssec: bool,
) -> (r: RecursorPlan)
    ensures
        is_recursor_plan(root_hints@, max_hops, nameserver_ip_family, dnssec, r),
        r.roots@ == allowed_ips(root_hints@, nameserver_ip_family),
        r.recursion_limit == max_hops,
        r.deny_server@ == match nameserver_ip_family {
            NameserverIpFamily::Both => seq![],
            NameserverIpFamily::Ipv4Only => seq![Network { address: IpAddr::V6(0), prefix_len: 0 }],
            NameserverIpFamily::Ipv6Only => seq![Network { address: IpAddr::V4(0), prefix_len: 0 }],
        },
        forall|ip: IpAddr| is_denied(r.deny_server@, ip) <==> !is_allowed(nameserver_ip_family, ip),
        r.dnssec == dnssec,
{
    let mut roots: Vec<IpAddr> = Vec::new();
    let mut i: usize = 0;
    while i < root_hints.len()
        invariant
            i <= root_hints@.len(),
            roots@ == allowed_ips(root_hints@.take(i as int), nameserver_ip_family),
        decreases root_hints@.len() - i,
    {
        assert(root_hints@.take(i + 1).drop_last() =~= root_hints@.take(i as int));
        let ip = root_hints[i].ip;
        let allowed = match nameserver_ip_family {
            NameserverIpFamily::Both => true,
            NameserverIpFamily::Ipv4Only => !ip.is_ipv6(),
            NameserverIpFamily::Ipv6Only => ip.is_ipv6(),
        };
        if allowed {
            roots.push(ip);
        }
        i += 1;
    }
    assert(root_hints@.take(i as int) =~= root_hints@);
    let mut deny_server: Vec<Network> = Vec::new();
    match nameserver_ip_family {
        NameserverIpFamily::Both => {},
        NameserverIpFamily::Ipv4Only => {
            deny_server.push(Network { address: IpAddr::V6(0), prefix_len: 0 });
        },
        NameserverIpFamily::Ipv6Only => {
            deny_server.push(Network { address: IpAddr::V4(0), prefix_len: 0 });
        },
    }
    proof {
        assert forall|ip: IpAddr| is_denied(deny_server@, ip) <==> !is_allowed(
            nameserver_ip_family,
            ip,
        ) by {
            if deny_server@.len() > 0 {
                assert(deny_server@[0].prefix_len == 0);
            }
        }
    }
    RecursorPlan { roots, recursion_limit: max_hops, deny_server, dnssec }
}

/// The resolver begins with servers of the requested family alone.
pub proof fn law_roots_are_of_the_family(hints: Seq<SocketAddr>, family: NameserverIpFamily)
    ensures
        forall|i: int|
            0 <= i < allowed_ips(hints, family).len() ==> is_allowed(
                family,
                #[trigger] allowed_ips(hints, family)[i],
            ),
        forall|i: int|
            0 <= i < hints.len() && is_allowed(family, (#[trigger] hints[i]).ip) ==> allowed_ips(
                hints,
                family,
            ).contains(hints[i].ip),
    decreases hints.len(),
{
    if hints.len() > 0 {
        let rest = hints.drop_last();
        law_roots_are_of_the_family(rest, family);
        let before = allowed_ips(rest, family);
        let all = allowed_ips(hints, family);
        assert forall|i: int| 0 <= i < hints.len() && is_allowed(
            family,
            (#[trigger] hints[i]).ip,
        ) implies all.contains(hints[i].ip) by {
            if i == hints.len() - 1 {
                assert(all.last() == hints[i].ip);
            } else {
                assert(rest[i] == hints[i]);
                let k = choose|k: int| 0 <= k < before.len() && before[k] == hints[i].ip;
                assert(all[k] == before[k]);
            }
        }
    }
}

// ---- answers ----

/// The code for an answer without an error.
pub const NO_ERROR: u16 = 0;

/// The code for a name that does not exist.
pub const NX_DOMAIN: u16 = 3;

/// An answer that is put together; `R` is the type of its records.
#[derive(Debug)]
pub struct Answer<R> {
    pub id: u16,
    pub recursion_desired: bool,
    pub recursion_available: bool,
    pub response_code: u16,
    pub questions: Vec<Question>,
    pub answers: Vec<R>,
    pub authorities: Vec<R>,
    pub edns: Option<Edns>,
}

/// What an answer says about extensions, where the query speaks of them: whether
/// validation was asked for, and the size that the client takes, at least 512.
pub open spec fn echoed_edns(client: Option<Edns>) -> Option<Edns> {
    match client {
        Some(e) => Some(
            Edns {
                dnssec_ok: e.dnssec_ok,
                max_payload: if e.max_payload >= 512 {
                    e.max_payload
                } else {
                    512
                },
            },
        ),
        None => None,
    }
}

fn echo_edns(client: Option<Edns>) -> (r: Option<Edns>)
    ensures
        r == echoed_edns(client),
{
    match client {
        Some(e) => {
            let max_payload: u16 = if e.max_payload >= 512 {
                e.max_payload
            } else {
                512
            };
            Some(Edns { dnssec_ok: e.dnssec_ok, max_payload })
        },
        None => None,
    }
}

/// Whether the client asks for validation.
pub fn dnssec_wanted(query: &MessageHead) -> (r: bool)
    ensures
        r == (query.edns matches Some(e) && e.dnssec_ok),
{
    match query.edns {
        Some(e) => e.dnssec_ok,
        None => false,
    }
}

/// The answer to a query, made of what the resolver found: the ID, the flags, the
/// question and the extensions are those that the client expects.
pub fn finish_answer<R>(query: &MessageHead, found: Answer<R>) -> (r: Answer<R>)
    requires
        query.questions@.len() > 0,
    ensures
        finishes(*query, found, r),
{
    let mut questions = found.questions;
    if questions.len() == 0 {
        questions.push(query.questions[0].copy());
    }
    Answer {
        id: query.id,
        recursion_desired: true,
        recursion_available: true,
        response_code: found.response_code,
        questions,
        answers: found.answers,
        authorities: found.authorities,
        edns: match query.edns {
            Some(e) => echo_edns(Some(e)),
            None => found.edns,
        },
    }
}

/// The answer to a query for which there are no records: the start of authority and
/// the other records of the authority follow one another.
pub fn negative_answer<R>(
    query: &MessageHead,
    nx_domain: bool,
    soa: Option<R>,
    authorities: Vec<R>,
) -> (r: Answer<R>)
    requires
        query.questions@.len() > 0,
    ensures
        denies(*query, nx_domain, soa, authorities@, r),
{
    let mut questions: Vec<Question> = Vec::new();
    questions.push(query.questions[0].copy());
    let mut all: Vec<R> = Vec::new();
    if let Some(s) = soa {
        all.push(s);
    }
    let mut rest = authorities;
    all.append(&mut rest);
    Answer {
        id: query.id,
        recursion_desired: true,
        recursion_available: true,
        response_code: if nx_domain {
            NX_DOMAIN
        } else {
            NO_ERROR
        },
        questions,
        answers: Vec::new(),
        authorities: all,
        edns: echo_edns(query.edns),
    }
}

/// What the resolver came to.
#[derive(Debug)]
pub enum Outcome<R> {
    /// It found an answer.
    Found(Answer<R>),
    /// There are no records: the name does not exist, or it has none of the type. What the
    /// authority says of it goes with that.
    Negative { nx_domain: bool, soa: Option<R>, authorities: Vec<R> },
    /// It failed, with this error.
    Failed(String),
}

/// Whether an answer is what the resolver found, made into the answer to a query: the ID,
/// the flags, the question and the extensions are those that the client expects.
pub open spec fn finishes<R>(query: MessageHead, found: Answer<R>, r: Answer<R>) -> bool {
    &&& r.id == query.id
    &&& r.recursion_desired
    &&& r.recursion_available
    &&& r.response_code == found.response_code
    &&& if found.questions@.len() == 0 {
        r.questions@.len() == 1 && r.questions@[0]@ == query.questions@[0]@
    } else {
        r.questions == found.questions
    }
    &&& r.answers == found.answers
    &&& r.authorities == found.authorities
    &&& r.edns == match query.edns {
        Some(_) => echoed_edns(query.edns),
        None => found.edns,
    }
}

/// Whether an answer says that there are no records for a query: the start of authority and
/// the other records of the authority follow one another.
pub open spec fn denies<R>(
    query: MessageHead,
    nx_domain: bool,
    soa: Option<R>,
    authorities: Seq<R>,
    r: Answer<R>,
) -> bool {
    &&& r.id == query.id
    &&& r.recursion_desired
    &&& r.recursion_available
    &&& r.response_code == if nx_domain {
        NX_DOMAIN
    } else {
        NO_ERROR
    }
    &&& r.questions@.len() == 1
    &&& r.questions@[0]@ == query.questions@[0]@
    &&& r.answers@.len() == 0
    &&& r.authorities@ == (match soa {
        Some(s) => seq![s],
        None => seq![],
    }) + authorities
    &&& r.edns == echoed_edns(query.edns)
}

/// Whether a result answers a query with what the resolver came to.
pub open spec fn answers_with<R>(
    query: MessageHead,
    outcome: Outcome<R>,
    r: Result<Answer<R>, UpstreamResolveError>,
) -> bool {
    match outcome {
        Outcome::Found(found) => r matches Ok(a) && finishes(query, found, a),
        Outcome::Negative { nx_domain, soa, authorities } => r matches Ok(a) && denies(
            query,
            nx_domain,
            soa,
            authorities@,
            a,
        ),
        Outcome::Failed(m) => r matches Err(e) && e@ == UpstreamResolveErrorView::Protocol(m@),
    }
}

/// The answer to a query, given what the resolver came to: an answer that it found, one that
/// says that there are no records, or the error.
pub fn answer_query<R>(query: &MessageHead, outcome: Outcome<R>) -> (r: Result<
    Answer<R>,
    UpstreamResolveError,
>)
    requires
        query.questions@.len() > 0,
    ensures
        answers_with(*query, outcome, r),
        match outcome {
            Outcome::Found(found) => r matches Ok(a) && finishes(*query, found, a),
            Outcome::Negative { nx_domain, soa, authorities } => r matches Ok(a) && denies(
                *query,
                nx_domain,
                soa,
                authorities@,
                a,
            ),
            Outcome::Failed(m) => r matches Err(e) && e@ == UpstreamResolveErrorView::Protocol(m@),
        },
{
    match outcome {
        Outcome::Found(found) => Ok(finish_answer(query, found)),
        Outcome::Negative { nx_domain, soa, authorities } => Ok(
            negative_answer(query, nx_domain, soa, authorities),
        ),
        Outcome::Failed(m) => Err(UpstreamResolveError::Protocol(m)),
    }
}

/// A query for the resolver: its head, or why it is none.
pub open spec fn query_to_resolve(head: Result<MessageHeadView, Seq<char>>) -> Result<
    MessageHeadView,
    UpstreamResolveErrorView,
> {
    match head {
        Err(m) => Err(UpstreamResolveErrorView::Protocol(m)),
        Ok(h) => if h.questions.len() == 0 {
            Err(UpstreamResolveErrorView::Protocol("query contains no questions"@))
        } else {
            Ok(h)
        },
    }
}

/// A query for the resolver, given what was read from its bytes.
pub fn accept_query(head: Result<MessageHead, String>) -> (r: Result<
    MessageHead,
    UpstreamResolveError,
>)
    ensures
        match (query_to_resolve(head_result(head)), r) {
            (Ok(v), Ok(h)) => h@ == v && h.questions@.len() > 0,
            (Err(v), Err(e)) => e@ == v,
            _ => false,
        },
{
    match head {
        Err(m) => Err(UpstreamResolveError::Protocol(m)),
        Ok(h) => {
            if h.questions.len() == 0 {
                return Err(
                    UpstreamResolveError::Protocol("query contains no questions".to_owned()),
                );
            }
            Ok(h)
        },
    }
}

/// Reads a query for the resolver.
pub fn read_query(query: &[u8]) -> (r: Result<MessageHead, UpstreamResolveError>)
    ensures
        match (query_to_resolve(message_head(query@)), r) {
            (Ok(v), Ok(h)) => h@ == v && h.questions@.len() > 0,
            (Err(v), Err(e)) => e@ == v,
            _ => false,
        },
{
    accept_query(read_message(query))
}

/// The number of an IPv4 address that is written with four numbers.
pub open spec fn dotted(a: int, b: int, c: int, d: int) -> int {
    ((a * 0x100 + b) * 0x100 + c) * 0x100 + d
}

/// The number of an IPv6 address that is written with eight groups.
pub open spec fn grouped(a: int, b: int, c: int, d: int, e: int, f: int, g: int, h: int) -> int {
    (((((((a * 0x1_0000 + b) * 0x1_0000 + c) * 0x1_0000 + d) * 0x1_0000 + e) * 0x1_0000 + f)
        * 0x1_0000 + g) * 0x1_0000) + h
}

/// The compiled-in servers are those of the root, from the first to the thirteenth letter.
pub proof fn law_root_servers_are_those_of_the_root()
    ensures
        root_servers_v4().len() == 13,
        root_servers_v4()[0] == dotted(198, 41, 0, 4),
        root_servers_v4()[1] == dotted(199, 9, 14, 201),
        root_servers_v4()[2] == dotted(192, 33, 4, 12),
        root_servers_v4()[3] == dotted(199, 7, 91, 13),
        root_servers_v4()[4] == dotted(192, 203, 230, 10),
        root_servers_v4()[5] == dotted(192, 5, 5, 241),
        root_servers_v4()[6] == dotted(192, 112, 36, 4),
        root_servers_v4()[7] == dotted(198, 97, 190, 53),
        root_servers_v4()[8] == dotted(192, 36, 148, 17),
        root_servers_v4()[9] == dotted(192, 58, 128, 30),
        root_servers_v4()[10] == dotted(193, 0, 14, 129),
        root_servers_v4()[11] == dotted(199, 7, 83, 42),
        root_servers_v4()[12] == dotted(202, 12, 27, 33),
        root_servers_v6().len() == 13,
        root_servers_v6()[0] == grouped(0x2001, 0x503, 0xba3e, 0, 0, 0, 0x2, 0x30),
        root_servers_v6()[1] == grouped(0x2001, 0x500, 0x200, 0, 0, 0, 0, 0xb),
        root_servers_v6()[2] == grouped(0x2001, 0x500, 0x2, 0, 0, 0, 0, 0xc),
        root_servers_v6()[3] == grouped(0x2001, 0x500, 0x2d, 0, 0, 0, 0, 0xd),
        root_servers_v6()[4] == grouped(0x2001, 0x500, 0xa8, 0, 0, 0, 0, 0xe),
        root_servers_v6()[5] == grouped(0x2001, 0x500, 0x2f, 0, 0, 0, 0, 0xf),
        root_servers_v6()[6] == grouped(0x2001, 0x500, 0x12, 0, 0, 0, 0, 0xd0d),
        root_servers_v6()[7] == grouped(0x2001, 0x500, 0x1, 0, 0, 0, 0, 0x53),
        root_servers_v6()[8] == grouped(0x2001, 0x7fe, 0, 0, 0, 0, 0, 0x53),
        root_servers_v6()[9] == grouped(0x2001, 0x503, 0xc27, 0, 0, 0, 0x2, 0x30),
        root_servers_v6()[10] == grouped(0x2001, 0x7fd, 0, 0, 0, 0, 0, 0x1),
        root_servers_v6()[11] == grouped(0x2001, 0x500, 0x9f, 0, 0, 0, 0, 0x42),
        root_servers_v6()[12] == grouped(0x2001, 0xdc3, 0, 0, 0, 0, 0, 0x35),
{
}

/// Without a file the resolver begins with the compiled-in servers, all of them: those of IPv4
/// come first.
pub proof fn law_compiled_in_servers_stand_in(i: int)
    requires
        0 <= i < 13,
    ensures
        chosen_hints(seq![]).len() == 26,
        chosen_hints(seq![])[i].ip == IpAddr::V4(root_servers_v4()[i]),
        chosen_hints(seq![])[i + 13].ip == IpAddr::V6(root_servers_v6()[i]),
        chosen_hints(seq![])[i].port == 53 && chosen_hints(seq![])[i + 13].port == 53,
{
}

/// A file that cannot be read, or that names no server, is passed over; the first that names
/// any decides.
pub proof fn law_first_file_with_servers_decides(content: String, files: Seq<Option<String>>)
    ensures
        chosen_hints(seq![None] + files) == chosen_hints(files),
        hints_of_lines(lines(content@)).len() == 0 ==> chosen_hints(seq![Some(content)] + files)
            == chosen_hints(files),
        hints_of_lines(lines(content@)).len() > 0 ==> chosen_hints(seq![Some(content)] + files)
            == hints_of_lines(lines(content@)),
{
    assert((seq![None] + files).skip(1) =~= files);
    assert((seq![Some(content)] + files).skip(1) =~= files);
}

/// A line names a server where its type is that of its address, with or without a class; it
/// is asked at port 53. Comments and lines of other shapes name none.
pub proof fn law_lines_name_servers(line: Seq<char>, a: u32, b: u128)
    ensures
        ({
            let t = trimmed(line);
            let f = words(t);
            let n = f.len();
            let shaped = t.len() > 0 && t[0] != ';' && (n == 4 || n == 5);
            &&& !shaped ==> hint_of_line(line) is None
            &&& shaped && f[n - 2] == "A"@ && parsed_ip(f[n - 1]) == Some(IpAddr::V4(a)) ==> (
            hint_of_line(line) matches Some(s) && s.ip == IpAddr::V4(a) && s.port == 53)
            &&& shaped && f[n - 2] == "AAAA"@ && parsed_ip(f[n - 1]) == Some(IpAddr::V6(b)) ==> (
            hint_of_line(line) matches Some(s) && s.ip == IpAddr::V6(b) && s.port == 53)
            &&& shaped && f[n - 2] != "A"@ && f[n - 2] != "AAAA"@ ==> hint_of_line(line) is None
            &&& shaped && parsed_ip(f[n - 1]) is None ==> hint_of_line(line) is None
        }),
        hint_of_line(line) matches Some(s) ==> parsed_ip(words(trimmed(line)).last()) == Some(s.ip),
{
}

/// The servers that lines name come in the order of the lines, and all of them come.
pub proof fn law_hints_stay_in_order(a: Seq<Seq<char>>, b: Seq<Seq<char>>)
    ensures
        hints_of_lines(a + b) == hints_of_lines(a) + hints_of_lines(b),
    decreases b.len(),
{
    if b.len() == 0 {
        assert(a + b =~= a);
        assert(hints_of_lines(a + b) =~= hints_of_lines(a) + hints_of_lines(b));
    } else {
        assert((a + b).drop_last() =~= a + b.drop_last());
        law_hints_stay_in_order(a, b.drop_last());
        assert(hints_of_lines(a + b) =~= hints_of_lines(a) + hints_of_lines(b));
    }
}

/// A family that is asked for leaves the other one out; without a wish every server may be
/// asked.
pub proof fn law_families_are_told_apart(a: u32, b: u128)
    ensures
        is_allowed(NameserverIpFamily::Both, IpAddr::V4(a)),
        is_allowed(NameserverIpFamily::Both, IpAddr::V6(b)),
        is_allowed(NameserverIpFamily::Ipv4Only, IpAddr::V4(a)),
        !is_allowed(NameserverIpFamily::Ipv4Only, IpAddr::V6(b)),
        !is_allowed(NameserverIpFamily::Ipv6Only, IpAddr::V4(a)),
        is_allowed(NameserverIpFamily::Ipv6Only, IpAddr::V6(b)),
{
}

/// The resolver is set up as it is configured: it follows as many referrals, validates where
/// that is asked for, and never asks the servers that it may not ask.
pub proof fn law_resolver_is_set_up_as_configured(
    root_hints: Seq<SocketAddr>,
    max_hops: u8,
    family: NameserverIpFamily,
    dnssec: bool,
    r: RecursorPlan,
    ip: IpAddr,
)
    requires
        is_recursor_plan(root_hints, max_hops, family, dnssec, r),
    ensures
        r.recursion_limit == max_hops,
        r.dnssec == dnssec,
        is_denied(r.deny_server@, ip) <==> (family is Ipv4Only && ip is V6) || (family is Ipv6Only
            && ip is V4),
        r.roots@.contains(ip) ==> !is_denied(r.deny_server@, ip),
        family is Both ==> r.deny_server@.len() == 0,
        family is Ipv4Only ==> r.deny_server@.len() == 1 && r.deny_server@[0].address is V6
            && r.deny_server@[0].prefix_len == 0,
        family is Ipv6Only ==> r.deny_server@.len() == 1 && r.deny_server@[0].address is V4
            && r.deny_server@[0].prefix_len == 0,
{
    law_roots_are_of_the_family(root_hints, family);
    assert(is_denied(r.deny_server@, ip) <==> !is_allowed(family, ip));
    if r.roots@.contains(ip) {
        let k = choose|k: int| 0 <= k < r.roots@.len() && r.roots@[k] == ip;
        assert(is_allowed(family, allowed_ips(root_hints, family)[k]));
    }
}

/// The first file that holds trust anchors is used, and one is used wherever there is one.
pub proof fn law_first_anchors_are_used(counts: Seq<Option<usize>>, r: Option<usize>, j: int)
    requires
        is_chosen_key(counts, r),
        0 <= j < counts.len(),
    ensures
        (counts[j] matches Some(n) && n > 0) ==> (r matches Some(i) && i <= j),
        r matches Some(i) ==> i < counts.len() && (counts[i as int] matches Some(n) && n > 0),
{
    assert(has_anchors(counts[j]) <==> (counts[j] matches Some(n) && n > 0));
}

/// An answer has extensions exactly where the query has: they say again whether validation was
/// asked for, and the size that the client takes, which is never less than 512.
pub proof fn law_extensions_are_echoed(client: Option<Edns>)
    ensures
        client is None <==> echoed_edns(client) is None,
        client matches Some(c) ==> (echoed_edns(client) matches Some(e) && e.dnssec_ok == c.dnssec_ok
            && e.max_payload >= 512 && (c.max_payload >= 512 ==> e.max_payload == c.max_payload) && (
        c.max_payload < 512 ==> e.max_payload == 512)),
{
}

/// What the resolver found is handed on: its records and its code stay as they are, and the
/// answer is one to the query.
pub proof fn law_found_answers_are_handed_on<R>(
    query: MessageHead,
    found: Answer<R>,
    r: Result<Answer<R>, UpstreamResolveError>,
)
    requires
        query.questions@.len() > 0,
        answers_with(query, Outcome::Found(found), r),
    ensures
        r matches Ok(a) && {
            &&& a.id == query.id
            &&& a.recursion_desired && a.recursion_available
            &&& a.response_code == found.response_code
            &&& a.answers@ == found.answers@
            &&& a.authorities@ == found.authorities@
            &&& a.questions@.len() > 0
            &&& found.questions@.len() > 0 ==> a.questions@ == found.questions@
            &&& found.questions@.len() == 0 ==> a.questions@[0]@ == query.questions@[0]@
            &&& query.edns is Some ==> a.edns == echoed_edns(query.edns)
            &&& query.edns is None ==> a.edns == found.edns
        },
{
}

/// That there are no records is an answer too, with a code that tells a name that does not
/// exist from one without such records; the start of authority stands before all else.
pub proof fn law_missing_records_are_an_answer<R>(
    query: MessageHead,
    nx_domain: bool,
    soa: Option<R>,
    authorities: Vec<R>,
    r: Result<Answer<R>, UpstreamResolveError>,
)
    requires
        query.questions@.len() > 0,
        answers_with(query, (Outcome::Negative { nx_domain, soa, authorities }), r),
    ensures
        r matches Ok(a) && {
            &&& a.id == query.id
            &&& a.recursion_desired && a.recursion_available
            &&& nx_domain ==> a.response_code == 3
            &&& !nx_domain ==> a.response_code == 0
            &&& a.answers@.len() == 0
            &&& a.questions@.len() == 1 && a.questions@[0]@ == query.questions@[0]@
            &&& soa is None ==> a.authorities@ == authorities@
            &&& soa matches Some(s) ==> a.authorities@ == seq![s] + authorities@
            &&& a.edns == echoed_edns(query.edns)
        },
{
    if soa is None {
        assert(Seq::<R>::empty() + authorities@ =~= authorities@);
    }
}

/// Where the resolver fails there is no answer, and its error is told.
pub proof fn law_failures_are_told<R>(
    query: MessageHead,
    m: String,
    r: Result<Answer<R>, UpstreamResolveError>,
)
    requires
        answers_with(query, Outcome::Failed(m), r),
    ensures
        r matches Err(e) && e@.text() == m@,
{
}

/// A query that can be read and asks something is resolved as it is; every other one is an
/// error.
pub proof fn law_queries_that_ask_are_resolved(head: Result<MessageHeadView, Seq<char>>)
    ensures
        query_to_resolve(head) is Ok <==> (head matches Ok(h) && h.questions.len() > 0),
        query_to_resolve(head) matches Ok(h) ==> head == Ok::<MessageHeadView, Seq<char>>(h),
        head matches Err(m) ==> (query_to_resolve(head) matches Err(e) && e.text() == m),
{
}

/// The depth to which referrals are followed where none is configured.
pub proof fn law_referrals_are_limited()
    ensures
        DEFAULT_MAX_HOPS == 12,
{
}

/// A line that names a server adds it behind those of the lines before, and another line adds
/// nothing.
pub proof fn law_lines_add_their_server(ls: Seq<Seq<char>>, line: Seq<char>)
    ensures
        hint_of_line(line) matches Some(a) ==> hints_of_lines(ls.push(line)) == hints_of_lines(
            ls,
        ).push(a),
        hint_of_line(line) is None ==> hints_of_lines(ls.push(line)) == hints_of_lines(ls),
{
    assert(ls.push(line).drop_last() =~= ls);
}

} // verus!
