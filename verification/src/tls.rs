//! Keys and certificates of the listeners.

use crate::net::{parsed_ip, read_ip, show_ip, shown_ip, IpAddr, LOCALHOST_V4, LOCALHOST_V6};
use crate::pem::{pem_certificates, pem_private_key, KeyForm};
use crate::text::{opt_str, same, trim, trimmed};
use rcgen::string::Ia5String;
use rcgen::{CertificateParams, DnType, Error, KeyPair, SanType};
use vstd::prelude::*;
use vstd::utf8::{encode_utf8, is_ascii_chars};

verus! {

/// Errors that can occur during TLS certificate generation or loading.
#[derive(Debug)]
pub enum TlsSetupError {
    CertGeneration(String),
    CertLoad(String),
    Config(String),
}

/// A `TlsSetupError` with its text.
pub enum TlsSetupErrorView {
    CertGeneration(Seq<char>),
    CertLoad(Seq<char>),
    Config(Seq<char>),
}

impl View for TlsSetupError {
    type V = TlsSetupErrorView;

    open spec fn view(&self) -> TlsSetupErrorView {
        match self {
            TlsSetupError::CertGeneration(m) => TlsSetupErrorView::CertGeneration(m@),
            TlsSetupError::CertLoad(m) => TlsSetupErrorView::CertLoad(m@),
            TlsSetupError::Config(m) => TlsSetupErrorView::Config(m@),
        }
    }
}

impl TlsSetupErrorView {
    /// The text that a user sees.
    pub open spec fn text(self) -> Seq<char> {
        match self {
            TlsSetupErrorView::CertGeneration(m) => "certificate generation failed: "@ + m,
            TlsSetupErrorView::CertLoad(m) => "certificate loading failed: "@ + m,
            TlsSetupErrorView::Config(m) => "TLS configuration error: "@ + m,
        }
    }
}

impl TlsSetupError {
    /// The text that a user sees.
    pub fn message(&self) -> (r: String)
        ensures
            r@ == self@.text(),
    {
        match self {
            TlsSetupError::CertGeneration(m) => {
                let mut out = "certificate generation failed: ".to_owned();
                out.push_str(m.as_str());
                out
            },
            TlsSetupError::CertLoad(m) => {
                let mut out = "certificate loading failed: ".to_owned();
                out.push_str(m.as_str());
                out
            },
            TlsSetupError::Config(m) => {
                let mut out = "TLS configuration error: ".to_owned();
                out.push_str(m.as_str());
                out
            },
        }
    }
}

// ---- handshakes ----

/// What speaks over a connection that TLS secures.
#[derive(Clone, Copy, Debug, PartialEq, Eq, Structural)]
pub enum TlsUse {
    Dot,
    Doh,
    Doq,
    /// A web server.
    Https,
    /// A server that does not negotiate its protocol.
    Plain,
}

/// The names of the protocols that a handshake offers, the preferred one first.
pub open spec fn alpn_names(tls_use: TlsUse) -> Seq<Seq<char>> {
    match tls_use {
        TlsUse::Dot => seq!["dot"@],
        TlsUse::Doh => seq!["h2"@],
        TlsUse::Doq => seq!["doq"@],
        TlsUse::Https => seq!["h2"@, "http/1.1"@],
        TlsUse::Plain => seq![],
    }
}

/// The names of the protocols that a handshake offers, the preferred one first.
pub fn alpn_protocols(tls_use: TlsUse) -> (r: Vec<&'static str>)
    ensures
        r@.map_values(|n: &'static str| n@) == alpn_names(tls_use),
{
    let mut out: Vec<&'static str> = Vec::new();
    match tls_use {
        TlsUse::Dot => out.push("dot"),
        TlsUse::Doh => out.push("h2"),
        TlsUse::Doq => out.push("doq"),
        TlsUse::Https => {
            out.push("h2");
            out.push("http/1.1");
        },
        TlsUse::Plain => {},
    }
    assert(out@.map_values(|n: &'static str| n@) =~= alpn_names(tls_use));
    out
}

// ---- generated certificates ----

/// Whether a self-signed certificate is generated.
pub open spec fn is_generated(cert_exists: bool, key_exists: bool) -> bool {
    !cert_exists && !key_exists
}

/// A certificate is generated exactly where that overwrites nothing.
pub proof fn law_nothing_is_overwritten(cert_exists: bool, key_exists: bool)
    ensures
        is_generated(cert_exists, key_exists) ==> !cert_exists && !key_exists,
        is_generated(false, false),
{
}

/// A handshake offers the protocol that speaks over the connection, with that of HTTP/1.1
/// behind that of HTTP/2 for web servers; a plain server offers none.
pub proof fn law_handshakes_offer_their_protocol(tls_use: TlsUse)
    ensures
        tls_use is Dot ==> alpn_names(tls_use) == seq!["dot"@],
        tls_use is Doq ==> alpn_names(tls_use) == seq!["doq"@],
        tls_use is Doh ==> alpn_names(tls_use) == seq!["h2"@],
        tls_use is Https ==> alpn_names(tls_use) == seq!["h2"@, "http/1.1"@],
        tls_use is Plain <==> alpn_names(tls_use).len() == 0,
{
}

/// Whether a self-signed certificate is generated: only where nothing would be
/// overwritten, that is where neither the certificate nor the key exists.
pub fn generates_certificate(cert_exists: bool, key_exists: bool) -> (r: bool)
    ensures
        r == is_generated(cert_exists, key_exists),
        r == (!cert_exists && !key_exists),
{
    !cert_exists && !key_exists
}

/// A subject alternative name of a certificate.
#[derive(Debug, PartialEq, Eq)]
pub enum San {
    DnsName(String),
    IpAddress(IpAddr),
}

/// A subject alternative name, with its text.
pub enum SanView {
    DnsName(Seq<char>),
    IpAddress(IpAddr),
}

impl View for San {
    type V = SanView;

    open spec fn view(&self) -> SanView {
        match self {
            San::DnsName(n) => SanView::DnsName(n@),
            San::IpAddress(ip) => SanView::IpAddress(*ip),
        }
    }
}

/// The names of a list.
pub open spec fn sans_view(v: Seq<San>) -> Seq<SanView> {
    Seq::new(v.len(), |i: int| v[i]@)
}

/// A network interface of the machine.
#[derive(Clone, Copy, Debug)]
pub struct Interface {
    pub loopback: bool,
    pub address: Option<IpAddr>,
}

/// What `str::to_lowercase` makes of a text.
pub uninterp spec fn lowercase(text: Seq<char>) -> Seq<char>;

/// `str::to_lowercase`: the text with the lower-case form of every character. Which
/// form that is is not stated.
#[verifier::external_body]
pub(crate) fn to_lowercase(text: &str) -> (r: String)
    ensures
        r@ == lowercase(text@),
{
    text.to_lowercase()
}

/// `rcgen::string::Ia5String::try_from`: whether a text can be an IA5 string, which it
/// can where all its characters are ASCII.
#[verifier::external_body]
fn is_ia5(text: &str) -> (r: bool)
    ensures
        r == is_ascii_chars(text@),
{
    Ia5String::try_from(text).is_ok()
}

/// The names of the addresses of the interfaces that are no loopbacks.
pub open spec fn interface_names(interfaces: Seq<Interface>) -> Seq<SanView>
    decreases interfaces.len(),
{
    if interfaces.len() == 0 {
        seq![]
    } else {
        let i = interfaces.last();
        let before = interface_names(interfaces.drop_last());
        match i.address {
            Some(ip) => if i.loopback {
                before
            } else {
                before.push(SanView::IpAddress(ip))
            },
            None => before,
        }
    }
}

/// The name that a text stands for, given the address that it is: without one it is a DNS
/// name, and the empty text is none.
pub open spec fn name_given(text: Seq<char>, ip: Option<IpAddr>) -> Option<SanView> {
    if text.len() == 0 {
        None
    } else {
        match ip {
            Some(ip) => Some(SanView::IpAddress(ip)),
            None => Some(SanView::DnsName(text)),
        }
    }
}

/// The name that a text stands for, given the address that it is.
pub fn name_of(text: &str, ip: Option<IpAddr>) -> (r: Option<San>)
    ensures
        match (name_given(text@, ip), r) {
            (Some(n), Some(x)) => x@ == n,
            (None, None) => true,
            _ => false,
        },
{
    if text.is_empty() {
        return None;
    }
    match ip {
        Some(ip) => Some(San::IpAddress(ip)),
        None => Some(San::DnsName(text.to_owned())),
    }
}

/// The name that a configured text stands for: an address, or else a DNS name.
pub open spec fn configured_name(text: Seq<char>) -> Option<SanView> {
    name_given(trimmed(text), parsed_ip(trimmed(text)))
}

/// The names that configured texts stand for; empty texts do not count.
pub open spec fn configured_names(extra: Seq<String>) -> Seq<SanView>
    decreases extra.len(),
{
    if extra.len() == 0 {
        seq![]
    } else {
        let before = configured_names(extra.drop_last());
        match configured_name(extra.last()@) {
            Some(n) => before.push(n),
            None => before,
        }
    }
}

/// The names that every certificate has.
pub open spec fn local_names() -> Seq<SanView> {
    seq![
        SanView::DnsName("localhost"@),
        SanView::IpAddress(IpAddr::V4(LOCALHOST_V4)),
        SanView::IpAddress(IpAddr::V6(LOCALHOST_V6)),
    ]
}

/// The name of the machine, where it has one.
pub open spec fn host_names(hostname: Option<Seq<char>>) -> Seq<SanView> {
    match hostname {
        Some(n) => if n.len() > 0 {
            seq![SanView::DnsName(n)]
        } else {
            seq![]
        },
        None => seq![],
    }
}

/// All names that a certificate could have, in their order: those of every
/// certificate, that of the machine, those of its interfaces and the configured ones.
pub open spec fn candidate_names(
    hostname: Option<Seq<char>>,
    interfaces: Seq<Interface>,
    extra: Seq<String>,
) -> Seq<SanView> {
    local_names() + host_names(hostname) + interface_names(interfaces) + configured_names(extra)
}

/// Whether two names count as one: addresses where they are equal, DNS names where
/// they differ in nothing but the case of letters.
pub open spec fn same_name(a: SanView, b: SanView) -> bool {
    match (a, b) {
        (SanView::IpAddress(x), SanView::IpAddress(y)) => x == y,
        (SanView::DnsName(x), SanView::DnsName(y)) => lowercase(x) == lowercase(y),
        _ => false,
    }
}

/// Whether a name can stand in a certificate.
pub open spec fn is_usable(n: SanView) -> bool {
    match n {
        SanView::IpAddress(ip) => !ip.unspecified(),
        SanView::DnsName(t) => is_ascii_chars(t),
    }
}

/// Whether a name counts as one of those in a list.
pub open spec fn is_among(n: SanView, list: Seq<SanView>) -> bool {
    exists|i: int| 0 <= i < list.len() && same_name(#[trigger] list[i], n)
}

/// The usable names, each only at its first occurrence.
pub open spec fn distinct_names(names: Seq<SanView>) -> Seq<SanView>
    decreases names.len(),
{
    if names.len() == 0 {
        seq![]
    } else {
        let before = distinct_names(names.drop_last());
        if is_usable(names.last()) && !is_among(names.last(), names.drop_last()) {
            before.push(names.last())
        } else {
            before
        }
    }
}

fn is_same_name(a: &San, b: &San) -> (r: bool)
    ensures
        r == same_name(a@, b@),
{
    match (a, b) {
        (San::IpAddress(x), San::IpAddress(y)) => *x == *y,
        (San::DnsName(x), San::DnsName(y)) => same(
            to_lowercase(x.as_str()).as_str(),
            to_lowercase(y.as_str()).as_str(),
        ),
        _ => false,
    }
}

fn copy_name(n: &San) -> (r: San)
    ensures
        r@ == n@,
{
    match n {
        San::DnsName(t) => San::DnsName(t.clone()),
        San::IpAddress(ip) => San::IpAddress(*ip),
    }
}

fn keep_distinct(names: &Vec<San>) -> (r: Vec<San>)
    ensures
        sans_view(r@) == distinct_names(sans_view(names@)),
{
    let mut out: Vec<San> = Vec::new();
    let ghost all = sans_view(names@);
    let mut i: usize = 0;
    assert(sans_view(out@) =~= distinct_names(all.take(0)));
    while i < names.len()
        invariant
            i <= names@.len(),
            all == sans_view(names@),
            sans_view(out@) == distinct_names(all.take(i as int)),
        decreases names@.len() - i,
    {
        let ghost before = all.take(i as int);
        assert(all.take(i + 1).drop_last() =~= before);
        let usable = match &names[i] {
            San::IpAddress(ip) => !ip.is_unspecified(),
            San::DnsName(t) => is_ia5(t.as_str()),
        };
        let mut among = false;
        let mut k: usize = 0;
        while k < i
            invariant
                k <= i < names@.len(),
                all == sans_view(names@),
                before == all.take(i as int),
                among == is_among(names@[i as int]@, before.take(k as int)),
            decreases i - k,
        {
            let hit = is_same_name(&names[k], &names[i]);
            proof {
                let n = names@[i as int]@;
                let next = before.take(k + 1);
                assert(next[k as int] == names@[k as int]@);
                assert forall|j: int| 0 <= j < k implies next[j] == before.take(k as int)[j] by {}
                if is_among(n, before.take(k as int)) {
                    let j = choose|j: int|
                        0 <= j < k && same_name(#[trigger] before.take(k as int)[j], n);
                    assert(same_name(next[j], n));
                }
                if is_among(n, next) && !hit {
                    let j = choose|j: int| 0 <= j < k + 1 && same_name(#[trigger] next[j], n);
                    assert(same_name(before.take(k as int)[j], n));
                }
            }
            among = among || hit;
            k += 1;
        }
        assert(before.take(k as int) =~= before);
        if usable && !among {
            let ghost kept = sans_view(out@);
            out.push(copy_name(&names[i]));
            assert(sans_view(out@) =~= kept.push(names@[i as int]@));
        }
        i += 1;
    }
    assert(all.take(i as int) =~= all);
    out
}

fn push_name(names: &mut Vec<San>, n: San)
    ensures
        sans_view(final(names)@) == sans_view(old(names)@).push(n@),
{
    names.push(n);
    assert(sans_view(names@) =~= sans_view(old(names)@).push(n@));
}

/// Collects Subject Alternative Names from multiple sources:
/// 1. Always: `localhost`, `127.0.0.1`, `::1`
/// 2. The name of the machine, where it is known
/// 3. The addresses of its network interfaces other than loopbacks
/// 4. The configured names, such as bind addresses
///
/// Unspecified addresses are left out, and so is what occurred before.
pub fn collect_sans(
    hostname: Option<&str>,
    interfaces: &Vec<Interface>,
    extra_sans: &Vec<String>,
) -> (r: Vec<San>)
    ensures
        sans_view(r@) == distinct_names(
            candidate_names(opt_str(hostname), interfaces@, extra_sans@),
        ),
{
    let mut names: Vec<San> = Vec::new();
    push_name(&mut names, San::DnsName("localhost".to_owned()));
    push_name(&mut names, San::IpAddress(IpAddr::V4(LOCALHOST_V4)));
    push_name(&mut names, San::IpAddress(IpAddr::V6(LOCALHOST_V6)));
    assert(sans_view(names@) =~= local_names());
    if let Some(n) = hostname {
        if !n.is_empty() {
            push_name(&mut names, San::DnsName(n.to_owned()));
        }
    }
    let ghost local = local_names() + host_names(opt_str(hostname));
    assert(sans_view(names@) =~= local);
    let mut i: usize = 0;
    assert(local + interface_names(interfaces@.take(0)) =~= local);
    while i < interfaces.len()
        invariant
            i <= interfaces@.len(),
            sans_view(names@) == local + interface_names(interfaces@.take(i as int)),
        decreases interfaces@.len() - i,
    {
        let ghost before = interfaces@.take(i as int);
        assert(interfaces@.take(i + 1).drop_last() =~= before);
        let face = interfaces[i];
        if !face.loopback {
            if let Some(ip) = face.address {
                push_name(&mut names, San::IpAddress(ip));
            }
        }
        assert(sans_view(names@) =~= local + interface_names(interfaces@.take(i + 1)));
        i += 1;
    }
    assert(interfaces@.take(i as int) =~= interfaces@);
    let ghost machine = local + interface_names(interfaces@);
    let mut k: usize = 0;
    assert(machine + configured_names(extra_sans@.take(0)) =~= machine);
    while k < extra_sans.len()
        invariant
            k <= extra_sans@.len(),
            sans_view(names@) == machine + configured_names(extra_sans@.take(k as int)),
        decreases extra_sans@.len() - k,
    {
        assert(extra_sans@.take(k + 1).drop_last() =~= extra_sans@.take(k as int));
        let t = trim(extra_sans[k].as_str());
        if let Some(n) = name_of(t.as_str(), read_ip(t.as_str())) {
            push_name(&mut names, n);
        }
        assert(sans_view(names@) =~= machine + configured_names(extra_sans@.take(k + 1)));
        k += 1;
    }
    assert(extra_sans@.take(k as int) =~= extra_sans@);
    keep_distinct(&names)
}

/// The text of a name, for the log.
pub open spec fn shown_san(n: SanView) -> Seq<char> {
    match n {
        SanView::DnsName(t) => "DNS:"@ + t,
        SanView::IpAddress(ip) => "IP:"@ + shown_ip(ip),
    }
}

/// The text of a name, for the log.
pub fn san_display(san: &San) -> (r: String)
    ensures
        r@ == shown_san(san@),
{
    match san {
        San::DnsName(t) => {
            let mut out = "DNS:".to_owned();
            out.push_str(t.as_str());
            out
        },
        San::IpAddress(ip) => {
            let mut out = "IP:".to_owned();
            out.push_str(show_ip(*ip).as_str());
            out
        },
    }
}

proof fn lemma_distinct_names(names: Seq<SanView>)
    ensures
        forall|i: int|
            0 <= i < distinct_names(names).len() ==> is_usable(#[trigger] distinct_names(names)[i])
                && names.contains(distinct_names(names)[i]),
        forall|i: int, j: int|
            0 <= i < j < distinct_names(names).len() ==> !same_name(
                #[trigger] distinct_names(names)[i],
                #[trigger] distinct_names(names)[j],
            ),
    decreases names.len(),
{
    if names.len() > 0 {
        let init = names.drop_last();
        lemma_distinct_names(init);
        let before = distinct_names(init);
        let all = distinct_names(names);
        assert forall|i: int| 0 <= i < all.len() implies is_usable(#[trigger] all[i])
            && names.contains(all[i]) by {
            if i < before.len() {
                assert(all[i] == before[i]);
                let k = choose|k: int| 0 <= k < init.len() && init[k] == before[i];
                assert(names[k] == before[i]);
            } else {
                assert(names[names.len() - 1] == all[i]);
            }
        }
        assert forall|i: int, j: int| 0 <= i < j < all.len() implies !same_name(
            #[trigger] all[i],
            #[trigger] all[j],
        ) by {
            assert(all[i] == before[i]);
            if j < before.len() {
                assert(all[j] == before[j]);
            } else {
                let k = choose|k: int| 0 <= k < init.len() && init[k] == before[i];
                assert(!same_name(init[k], names.last()));
            }
        }
    }
}

proof fn lemma_usable_name_is_kept(names: Seq<SanView>, n: int)
    requires
        0 <= n < names.len(),
        is_usable(names[n]),
        forall|i: int| 0 <= i < n && same_name(#[trigger] names[i], names[n]) ==> is_usable(names[i]),
    ensures
        is_among(names[n], distinct_names(names)),
    decreases names.len(),
{
    let init = names.drop_last();
    let before = distinct_names(init);
    let all = distinct_names(names);
    if n < names.len() - 1 {
        assert(init[n] == names[n]);
        assert forall|i: int| 0 <= i < n && same_name(#[trigger] init[i], init[n]) implies is_usable(
            init[i],
        ) by {
            assert(init[i] == names[i]);
        }
        lemma_usable_name_is_kept(init, n);
        let j = choose|j: int| 0 <= j < before.len() && same_name(#[trigger] before[j], names[n]);
        assert(all[j] == before[j]);
    } else if is_among(names[n], init) {
        let i = choose|i: int| 0 <= i < init.len() && same_name(#[trigger] init[i], names[n]);
        assert(names[i] == init[i]);
        assert forall|h: int| 0 <= h < i && same_name(#[trigger] init[h], init[i]) implies is_usable(
            init[h],
        ) by {
            assert(init[h] == names[h]);
            assert(same_name(names[h], names[n]));
        }
        lemma_usable_name_is_kept(init, i);
        let j = choose|j: int| 0 <= j < before.len() && same_name(#[trigger] before[j], init[i]);
        assert(all[j] == before[j]);
        assert(same_name(all[j], names[n]));
    } else {
        let last = all.len() - 1;
        assert(same_name(all[last], names[n]));
    }
}

/// No name of a certificate is an unspecified address or holds a character outside
/// of ASCII, and no two of them count as one.
pub proof fn law_sans_are_distinct(
    hostname: Option<Seq<char>>,
    interfaces: Seq<Interface>,
    extra: Seq<String>,
    i: int,
    j: int,
)
    requires
        0 <= i < j < distinct_names(candidate_names(hostname, interfaces, extra)).len(),
    ensures
        is_usable(distinct_names(candidate_names(hostname, interfaces, extra))[i]),
        is_usable(distinct_names(candidate_names(hostname, interfaces, extra))[j]),
        !same_name(
            distinct_names(candidate_names(hostname, interfaces, extra))[i],
            distinct_names(candidate_names(hostname, interfaces, extra))[j],
        ),
{
    lemma_distinct_names(candidate_names(hostname, interfaces, extra));
}

proof fn lemma_distinct_names_of_longer(a: Seq<SanView>, b: Seq<SanView>)
    ensures
        distinct_names(a).len() <= distinct_names(a + b).len(),
        distinct_names(a + b).take(distinct_names(a).len() as int) == distinct_names(a),
    decreases b.len(),
{
    if b.len() == 0 {
        assert(a + b =~= a);
    } else {
        lemma_distinct_names_of_longer(a, b.drop_last());
        assert((a + b).drop_last() =~= a + b.drop_last());
        assert(distinct_names(a + b).take(distinct_names(a).len() as int) =~= distinct_names(
            a + b.drop_last(),
        ).take(distinct_names(a).len() as int));
    }
}

/// Every certificate begins with the names `localhost`, `127.0.0.1` and `::1`.
pub proof fn law_sans_begin_with_local_names(
    hostname: Option<Seq<char>>,
    interfaces: Seq<Interface>,
    extra: Seq<String>,
)
    ensures
        local_names().is_prefix_of(distinct_names(candidate_names(hostname, interfaces, extra))),
{
    let l = local_names();
    reveal_strlit("localhost");
    assert(is_usable(l[0]));
    assert(l.take(1).drop_last() =~= Seq::<SanView>::empty());
    assert(l.take(2).drop_last() =~= l.take(1));
    assert(l.take(3).drop_last() =~= l.take(2));
    assert(l.take(3) =~= l);
    assert(distinct_names(l.take(1).drop_last()) =~= Seq::<SanView>::empty());
    assert(l.take(1).last() == l[0]);
    assert(!is_among(l[0], l.take(1).drop_last()));
    assert(distinct_names(l.take(1)) =~= l.take(1));
    assert(!is_among(l[1], l.take(1)));
    assert(!is_among(l[2], l.take(2)));
    assert(distinct_names(l.take(2)) =~= l.take(2));
    assert(distinct_names(l) =~= l);
    let rest = host_names(hostname) + interface_names(interfaces) + configured_names(extra);
    assert(candidate_names(hostname, interfaces, extra) =~= l + rest);
    lemma_distinct_names_of_longer(l, rest);
}

proof fn lemma_configured_name_is_candidate(extra: Seq<String>, i: int)
    requires
        0 <= i < extra.len(),
        configured_name(extra[i]@) is Some,
    ensures
        configured_names(extra).contains(configured_name(extra[i]@)->0),
    decreases extra.len(),
{
    let n = configured_name(extra[i]@)->0;
    let before = configured_names(extra.drop_last());
    if i == extra.len() - 1 {
        assert(configured_names(extra)[before.len() as int] == n);
    } else {
        assert(extra.drop_last()[i] == extra[i]);
        lemma_configured_name_is_candidate(extra.drop_last(), i);
        let k = choose|k: int| 0 <= k < before.len() && before[k] == n;
        assert(configured_names(extra)[k] == n);
    }
}

/// Every configured address that is not unspecified is a name of the certificate.
pub proof fn law_configured_addresses_are_sans(
    hostname: Option<Seq<char>>,
    interfaces: Seq<Interface>,
    extra: Seq<String>,
    i: int,
)
    requires
        0 <= i < extra.len(),
        configured_name(extra[i]@) matches Some(SanView::IpAddress(ip)) && !ip.unspecified(),
    ensures
        distinct_names(candidate_names(hostname, interfaces, extra)).contains(
            configured_name(extra[i]@)->0,
        ),
{
    let names = candidate_names(hostname, interfaces, extra);
    let n = configured_name(extra[i]@)->0;
    lemma_configured_name_is_candidate(extra, i);
    let c = configured_names(extra);
    let k = choose|k: int| 0 <= k < c.len() && c[k] == n;
    let at = names.len() - c.len() + k;
    assert(names[at] == n);
    lemma_usable_name_is_kept(names, at);
    let kept = distinct_names(names);
    let j = choose|j: int| 0 <= j < kept.len() && same_name(#[trigger] kept[j], n);
    assert(kept[j] == n);
}

/// Every configured DNS name of ASCII characters counts as a name of the certificate,
/// unless a name before it that counts as the same cannot stand in one.
pub proof fn law_configured_dns_names_are_sans(
    hostname: Option<Seq<char>>,
    interfaces: Seq<Interface>,
    extra: Seq<String>,
    i: int,
)
    requires
        0 <= i < extra.len(),
        configured_name(extra[i]@) matches Some(SanView::DnsName(t)) && is_ascii_chars(t),
        forall|k: int|
            0 <= k < candidate_names(hostname, interfaces, extra).len() && same_name(
                #[trigger] candidate_names(hostname, interfaces, extra)[k],
                configured_name(extra[i]@)->0,
            ) ==> is_usable(candidate_names(hostname, interfaces, extra)[k]),
    ensures
        is_among(
            configured_name(extra[i]@)->0,
            distinct_names(candidate_names(hostname, interfaces, extra)),
        ),
{
    let names = candidate_names(hostname, interfaces, extra);
    let n = configured_name(extra[i]@)->0;
    lemma_configured_name_is_candidate(extra, i);
    let c = configured_names(extra);
    let k = choose|k: int| 0 <= k < c.len() && c[k] == n;
    let at = names.len() - c.len() + k;
    assert(names[at] == n);
    lemma_usable_name_is_kept(names, at);
}

// ---- generating ----

/// What a certificate is asked for.
#[derive(Debug)]
pub struct CertificateRequest {
    pub common_name: &'static str,
    pub names: Vec<San>,
}

/// The request for a self-signed certificate: under the name of this program, for all
/// names of the machine and of its configuration.
pub fn certificate_request(
    hostname: Option<&str>,
    interfaces: &Vec<Interface>,
    extra_sans: &Vec<String>,
) -> (r: CertificateRequest)
    ensures
        r.common_name@ == "dns-filter self-signed cert"@,
        sans_view(r.names@) == distinct_names(
            candidate_names(opt_str(hostname), interfaces@, extra_sans@),
        ),
{
    CertificateRequest {
        common_name: "dns-filter self-signed cert",
        names: collect_sans(hostname, interfaces, extra_sans),
    }
}

/// A certificate and its key, in PEM.
#[derive(Debug)]
pub struct GeneratedCertificate {
    pub cert_pem: String,
    pub key_pem: String,
}

/// Why no certificate was generated.
#[derive(Debug)]
pub enum SigningFailure {
    /// There is no key.
    Key(String),
    /// The key could not sign.
    Certificate(String),
}

/// Whether a text in PEM is that of a private key, in the form of PKCS #8.
pub open spec fn is_key_text(text: Seq<char>) -> bool {
    pem_private_key(encode_utf8(text)) matches Ok(Some((form, _))) && form == KeyForm::Pkcs8
}

/// The size of a text in PEM, in bytes, up to which it is read.
pub const PEM_LIMIT: usize = 0x1000_0000;

/// Whether a text in PEM is that of one certificate, as far as it is not too long to be
/// read.
pub open spec fn is_certificate_text(text: Seq<char>) -> bool {
    encode_utf8(text).len() <= PEM_LIMIT ==> (pem_certificates(encode_utf8(text)) matches Ok(chain)
        && chain.len() == 1)
}

/// The first of some names that no certificate can hold: a DNS name with a character
/// outside of ASCII.
pub open spec fn unfit_name(names: Seq<SanView>) -> Option<Seq<char>>
    decreases names.len(),
{
    if names.len() == 0 {
        None
    } else {
        match names[0] {
            SanView::DnsName(n) => if is_ascii_chars(n) {
                unfit_name(names.skip(1))
            } else {
                Some(n)
            },
            SanView::IpAddress(_) => unfit_name(names.skip(1)),
        }
    }
}

/// The error about a name that no certificate can hold.
pub open spec fn unfit_message(name: Seq<char>) -> Seq<char> {
    "Invalid IA5String: '"@ + name + "'"@
}

/// `rcgen::KeyPair::generate`: a new random key, by its text in PEM, or the text of the
/// error. The text is read back as a key in the form of PKCS #8. Every key is another one,
/// so nothing more is stated of it.
#[verifier::external_body]
fn generate_key() -> (r: Result<String, String>)
    ensures
        r matches Ok(text) ==> is_key_text(text@),
{
    KeyPair::generate().map(|key| key.serialize_pem()).map_err(|e| e.to_string())
}

/// Whether a text in PEM is one that `rcgen::CertificateParams::self_signed` can give for a
/// common name, names and the text in PEM of a key. There are many such texts, since each
/// signature is another one.
pub uninterp spec fn is_signed(
    common_name: Seq<char>,
    names: Seq<SanView>,
    key: Seq<char>,
    certificate: Seq<char>,
) -> bool;

/// `rcgen::CertificateParams::self_signed`: the text in PEM of a certificate as it is asked
/// for, signed with the key of a text in PEM, or the text of the error. A DNS name with a
/// character outside of ASCII is refused by `rcgen::string::Ia5String::try_from`, with an
/// error that shows the first of them. The text is read back as one certificate. Every
/// signature is another one, so the bytes of the certificate are not stated.
#[verifier::external_body]
fn sign_certificate(request: &CertificateRequest, key_pem: &str) -> (r: Result<String, String>)
    ensures
        match r {
            Ok(text) => unfit_name(sans_view(request.names@)) is None && is_certificate_text(text@)
                && is_signed(request.common_name@, sans_view(request.names@), key_pem@, text@),
            Err(m) => unfit_name(sans_view(request.names@)) is Some ==> m@ == unfit_message(
                unfit_name(sans_view(request.names@))->0,
            ),
        },
{
    let text = |e: Error| e.to_string();
    let mut params = CertificateParams::default();
    params.distinguished_name.push(DnType::CommonName, request.common_name);
    params.subject_alt_names = request.names.iter().map(|san| match san {
        San::DnsName(n) => Ia5String::try_from(n.as_str()).map(SanType::DnsName),
        San::IpAddress(IpAddr::V4(a)) => Ok(SanType::IpAddress(a.to_be_bytes().into())),
        San::IpAddress(IpAddr::V6(a)) => Ok(SanType::IpAddress(a.to_be_bytes().into()))
    }).collect::<Result<_, _>>().map_err(text)?;
    params.self_signed(&KeyPair::from_pem(key_pem).map_err(text)?).map(|c| c.pem()).map_err(text)
}

/// Whether a generated certificate is one as it was asked for, with the key that signed it,
/// and both can be read back.
pub open spec fn answers(request: CertificateRequest, c: GeneratedCertificate) -> bool {
    &&& unfit_name(sans_view(request.names@)) is None
    &&& is_signed(
        request.common_name@,
        sans_view(request.names@),
        c.key_pem@,
        c.cert_pem@,
    )
    &&& is_certificate_text(c.cert_pem@)
    &&& is_key_text(c.key_pem@)
}

fn self_signed(request: &CertificateRequest) -> (r: Result<GeneratedCertificate, SigningFailure>)
    ensures
        match r {
            Ok(c) => answers(*request, c),
            Err(SigningFailure::Key(_)) => true,
            Err(SigningFailure::Certificate(m)) => unfit_name(
                sans_view(request.names@),
            ) matches Some(n) ==> m@ == unfit_message(n),
        },
{
    match generate_key() {
        Err(m) => Err(SigningFailure::Key(m)),
        Ok(key_pem) => match sign_certificate(request, key_pem.as_str()) {
            Err(m) => Err(SigningFailure::Certificate(m)),
            Ok(cert_pem) => Ok(GeneratedCertificate { cert_pem, key_pem }),
        },
    }
}

/// What generating a certificate came to, given what the key and the signature did.
pub fn generation_outcome(signed: Result<GeneratedCertificate, SigningFailure>) -> (r: Result<
    GeneratedCertificate,
    TlsSetupError,
>)
    ensures
        match signed {
            Ok(c) => r == Ok::<GeneratedCertificate, TlsSetupError>(c),
            Err(SigningFailure::Key(m)) => r matches Err(e) && e@ == TlsSetupErrorView::CertGeneration(
                "failed to generate key pair: "@ + m@,
            ),
            Err(SigningFailure::Certificate(m)) => r matches Err(e) && e@
                == TlsSetupErrorView::CertGeneration(
                "failed to generate self-signed certificate: "@ + m@,
            ),
        },
{
    match signed {
        Ok(c) => Ok(c),
        Err(SigningFailure::Key(e)) => {
            let mut m = "failed to generate key pair: ".to_owned();
            m.push_str(e.as_str());
            Err(TlsSetupError::CertGeneration(m))
        },
        Err(SigningFailure::Certificate(e)) => {
            let mut m = "failed to generate self-signed certificate: ".to_owned();
            m.push_str(e.as_str());
            Err(TlsSetupError::CertGeneration(m))
        },
    }
}

/// Generates a self-signed certificate as it is asked for, where neither the certificate
/// nor the key exists. This is intended for testing and development only.
pub fn autogenerate_tls_cert_if_missing(
    cert_exists: bool,
    key_exists: bool,
    request: &CertificateRequest,
) -> (r: Result<Option<GeneratedCertificate>, TlsSetupError>)
    ensures
        cert_exists || key_exists ==> r == Ok::<Option<GeneratedCertificate>, TlsSetupError>(None),
        !cert_exists && !key_exists ==> match r {
            Ok(c) => c matches Some(c) && answers(*request, c),
            Err(e) => e@ is CertGeneration,
        },
{
    if !generates_certificate(cert_exists, key_exists) {
        return Ok(None);
    }
    match generation_outcome(self_signed(request)) {
        Ok(c) => Ok(Some(c)),
        Err(e) => Err(e),
    }
}

/// What is done with a generated certificate.
#[derive(Clone, Copy, Debug, PartialEq, Eq, Structural)]
pub enum StoreStep {
    CertDirectory,
    KeyDirectory,
    WriteCert,
    WriteKey,
}

/// The error where a generated certificate cannot be stored.
pub fn storing_error(step: StoreStep, path: &str, error: &str) -> (r: TlsSetupError)
    ensures
        r@ == TlsSetupErrorView::CertGeneration(
            match step {
                StoreStep::CertDirectory => "failed to create directory for cert: "@ + error@,
                StoreStep::KeyDirectory => "failed to create directory for key: "@ + error@,
                StoreStep::WriteCert => "failed to write certificate to '"@ + path@ + "': "@ + error@,
                StoreStep::WriteKey => "failed to write key to '"@ + path@ + "': "@ + error@,
            },
        ),
{
    let mut m = match step {
        StoreStep::CertDirectory => "failed to create directory for cert: ".to_owned(),
        StoreStep::KeyDirectory => "failed to create directory for key: ".to_owned(),
        StoreStep::WriteCert => {
            let mut t = "failed to write certificate to '".to_owned();
            t.push_str(path);
            t.push_str("': ");
            t
        },
        StoreStep::WriteKey => {
            let mut t = "failed to write key to '".to_owned();
            t.push_str(path);
            t.push_str("': ");
            t
        },
    };
    m.push_str(error);
    TlsSetupError::CertGeneration(m)
}

/// A configured text is an address where it is one, and else a DNS name; white space around
/// it does not count, and a blank text is nothing.
pub proof fn law_configured_texts_are_names(text: Seq<char>)
    ensures
        match configured_name(text) {
            Some(SanView::IpAddress(ip)) => parsed_ip(trimmed(text)) == Some(ip),
            Some(SanView::DnsName(n)) => n == trimmed(text) && parsed_ip(trimmed(text)) is None,
            None => trimmed(text).len() == 0,
        },
        trimmed(text).len() > 0 ==> configured_name(text) is Some,
{
}

proof fn lemma_interface_is_candidate(interfaces: Seq<Interface>, i: int)
    requires
        0 <= i < interfaces.len(),
        !interfaces[i].loopback,
        interfaces[i].address is Some,
    ensures
        interface_names(interfaces).contains(SanView::IpAddress(interfaces[i].address->0)),
    decreases interfaces.len(),
{
    let n = SanView::IpAddress(interfaces[i].address->0);
    let before = interface_names(interfaces.drop_last());
    if i == interfaces.len() - 1 {
        assert(interface_names(interfaces)[before.len() as int] == n);
    } else {
        assert(interfaces.drop_last()[i] == interfaces[i]);
        lemma_interface_is_candidate(interfaces.drop_last(), i);
        let k = choose|k: int| 0 <= k < before.len() && before[k] == n;
        assert(interface_names(interfaces)[k] == n);
    }
}

/// Every address of an interface that is no loopback is a name of the certificate, unless it
/// stands for any address.
pub proof fn law_interface_addresses_are_sans(
    hostname: Option<Seq<char>>,
    interfaces: Seq<Interface>,
    extra: Seq<String>,
    i: int,
)
    requires
        0 <= i < interfaces.len(),
        !interfaces[i].loopback,
        interfaces[i].address matches Some(ip) && ip != IpAddr::V4(0) && ip != IpAddr::V6(0),
    ensures
        distinct_names(candidate_names(hostname, interfaces, extra)).contains(
            SanView::IpAddress(interfaces[i].address->0),
        ),
{
    let names = candidate_names(hostname, interfaces, extra);
    let n = SanView::IpAddress(interfaces[i].address->0);
    lemma_interface_is_candidate(interfaces, i);
    let c = interface_names(interfaces);
    let k = choose|k: int| 0 <= k < c.len() && c[k] == n;
    let at = 3 + host_names(hostname).len() + k;
    assert(names[at] == n);
    lemma_usable_name_is_kept(names, at);
    let kept = distinct_names(names);
    let j = choose|j: int| 0 <= j < kept.len() && same_name(#[trigger] kept[j], n);
    assert(kept[j] == n);
}

/// The name of the machine, where it is of ASCII characters, counts as a name of the
/// certificate.
pub proof fn law_machine_name_is_a_san(
    hostname: Seq<char>,
    interfaces: Seq<Interface>,
    extra: Seq<String>,
)
    requires
        hostname.len() > 0,
        is_ascii_chars(hostname),
    ensures
        is_among(
            SanView::DnsName(hostname),
            distinct_names(candidate_names(Some(hostname), interfaces, extra)),
        ),
{
    let names = candidate_names(Some(hostname), interfaces, extra);
    reveal_strlit("localhost");
    assert(names[0] == local_names()[0]);
    assert(names[1] == local_names()[1]);
    assert(names[2] == local_names()[2]);
    assert(is_usable(names[0]));
    assert(names[3] == SanView::DnsName(hostname));
    assert forall|i: int| 0 <= i < 3 && same_name(#[trigger] names[i], names[3]) implies is_usable(
        names[i],
    ) by {}
    lemma_usable_name_is_kept(names, 3);
}

/// A name is shown with its kind before it.
pub proof fn law_names_are_shown_with_their_kind(t: Seq<char>, ip: IpAddr)
    ensures
        shown_san(SanView::DnsName(t)) == "DNS:"@ + t,
        shown_san(SanView::IpAddress(ip)) == "IP:"@ + shown_ip(ip),
{
}

/// A name is unfit exactly where it is a DNS name with a character beyond ASCII, and the first
/// such name is told.
pub proof fn law_first_unfit_name_is_told(names: Seq<SanView>)
    ensures
        unfit_name(names) matches Some(n) ==> !is_ascii_chars(n) && names.contains(SanView::DnsName(n)),
        unfit_name(names) is None <==> (forall|i: int|
            0 <= i < names.len() ==> (#[trigger] names[i] matches SanView::DnsName(n)
                ==> is_ascii_chars(n))),
    decreases names.len(),
{
    if names.len() > 0 {
        let rest = names.skip(1);
        law_first_unfit_name_is_told(rest);
        assert(names.contains(names[0]));
        if let Some(n) = unfit_name(rest) {
            let k = choose|k: int| 0 <= k < rest.len() && rest[k] == SanView::DnsName(n);
            assert(names[k + 1] == rest[k]);
        }
        assert forall|i: int| 1 <= i < names.len() implies #[trigger] names[i] == rest[i - 1] by {}
        assert forall|i: int| 0 <= i < rest.len() implies #[trigger] rest[i] == names[i + 1] by {}
    }
}

} // verus!
