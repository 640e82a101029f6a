//! The admin listener: its page, its servers and its redirects to HTTPS.

use crate::listeners::auth::Header;
use crate::net::{show_socket_addr, shown_socket_addr, SocketAddr};
use crate::text::{chars_of, decimal, find, find_from, lemma_find, lemma_find_is, number, text_of};
use vstd::prelude::*;

verus! {

/// Where a request to `path` at `host` is redirected: to the same path over HTTPS, at
/// the host without its port; the port is given where it is not that of HTTPS.
pub open spec fn redirect_target(host: Seq<char>, tls_port: u16, path: Seq<char>) -> Seq<char> {
    let hostname = host.take(find(host, ':'));
    if tls_port == 443 {
        "https://"@ + hostname + path
    } else {
        "https://"@ + hostname + ":"@ + decimal(tls_port as nat) + path
    }
}

/// Where a request is redirected; without a usable `Host` header the host is
/// `localhost`.
pub fn redirect_location(host: Option<&str>, tls_port: u16, path: &str) -> (r: String)
    ensures
        r@ == redirect_target(
            match host {
                Some(h) => h@,
                None => "localhost"@,
            },
            tls_port,
            path@,
        ),
{
    let host = match host {
        Some(h) => h,
        None => "localhost",
    };
    let v = chars_of(host);
    let i: usize = find_from(&v, 0, ':');
    proof {
        assert(v@.skip(0) =~= v@);
        lemma_find(v@, ':');
    }
    let hostname = text_of(&v, 0, i);
    assert(hostname@ =~= host@.take(i as int));
    let mut out = "https://".to_owned();
    out.push_str(hostname.as_str());
    if tls_port != 443 {
        out.push_str(":");
        out.push_str(number(tls_port as u64).as_str());
    }
    out.push_str(path);
    out
}

/// An answer that sends the client elsewhere.
#[derive(Debug)]
pub struct Redirect {
    pub status: u16,
    pub location: String,
}

/// Sends a request to the same path over HTTPS, for good. A `Host` header that is not
/// there, or is no text, counts as `localhost`.
pub fn handle_redirect(host: &Header, tls_port: u16, path: &str) -> (r: Redirect)
    ensures
        r.status == 301,
        r.location@ == redirect_target(
            match *host {
                Header::Text(h) => h@,
                _ => "localhost"@,
            },
            tls_port,
            path@,
        ),
{
    let location = match host {
        Header::Text(h) => redirect_location(Some(h.as_str()), tls_port, path),
        _ => redirect_location(None, tls_port, path),
    };
    Redirect { status: 301, location }
}

// ---- the page ----

/// A text without the occurrences of a pattern, found from the left.
pub open spec fn without(s: Seq<char>, pattern: Seq<char>) -> Seq<char>
    decreases s.len(),
{
    if s.len() == 0 || pattern.len() == 0 {
        s
    } else if pattern.is_prefix_of(s) {
        without(s.skip(pattern.len() as int), pattern)
    } else {
        seq![s[0]] + without(s.skip(1), pattern)
    }
}

fn is_at(v: &Vec<char>, at: usize, pattern: &Vec<char>) -> (r: bool)
    requires
        at <= v@.len(),
    ensures
        r == pattern@.is_prefix_of(v@.skip(at as int)),
{
    if pattern.len() > v.len() - at {
        return false;
    }
    let mut i: usize = 0;
    while i < pattern.len()
        invariant
            at <= v@.len(),
            i <= pattern@.len() <= v@.len() - at,
            forall|k: int| 0 <= k < i ==> pattern@[k] == v@.skip(at as int)[k],
        decreases pattern@.len() - i,
    {
        assert(at + i < v.len());
        if pattern[i] != v[at + i] {
            assert(pattern@[i as int] != v@.skip(at as int)[i as int]);
            return false;
        }
        i += 1;
    }
    assert(pattern@ =~= v@.skip(at as int).subrange(0, pattern@.len() as int));
    true
}

/// The admin page: its template for requests to the same origin.
pub fn render_admin_html(template: &str) -> (r: String)
    ensures
        r@ == without(template@, "{{API_BASE_URL}}"@),
{
    let v = chars_of(template);
    let pattern = chars_of("{{API_BASE_URL}}");
    proof {
        reveal_strlit("{{API_BASE_URL}}");
    }
    let mut out = String::new();
    let mut i: usize = 0;
    assert(v@.skip(0) =~= v@);
    assert(out@ + without(v@, pattern@) =~= without(v@, pattern@));
    while i < v.len()
        invariant
            i <= v@.len(),
            pattern@.len() > 0,
            without(v@, pattern@) == out@ + without(v@.skip(i as int), pattern@),
        decreases v@.len() - i,
    {
        let ghost rest = v@.skip(i as int);
        if is_at(&v, i, &pattern) {
            assert(rest.skip(pattern@.len() as int) =~= v@.skip(i + pattern@.len()));
            i += pattern.len();
        } else {
            assert(rest.skip(1) =~= v@.skip(i + 1));
            assert(out@ + (seq![rest[0]] + without(rest.skip(1), pattern@)) =~= out@.push(rest[0])
                + without(rest.skip(1), pattern@));
            out.push(v[i]);
            i += 1;
        }
    }
    assert(v@.skip(i as int) =~= seq![]);
    assert(out@ + without(v@.skip(i as int), pattern@) =~= out@);
    out
}

// ---- the servers ----

/// Which servers run for the admin pages.
#[derive(Clone, Copy, Debug, PartialEq, Eq, Structural)]
pub enum AdminServers {
    /// The pages are served without encryption.
    Http { address: SocketAddr },
    /// The pages are served over HTTPS, and requests without encryption are redirected.
    Https { address: SocketAddr, redirect_from: SocketAddr, tls_port: u16 },
}

/// Which servers run for the admin pages: over HTTPS where TLS is configured.
pub open spec fn admin_servers(
    http_addr: SocketAddr,
    tls_addr: Option<SocketAddr>,
    has_tls: bool,
    tls_port: u16,
) -> AdminServers {
    if has_tls {
        AdminServers::Https { address: tls_addr->0, redirect_from: http_addr, tls_port }
    } else {
        AdminServers::Http { address: http_addr }
    }
}

/// Which servers run for the admin pages: over HTTPS where TLS is configured.
pub fn plan_admin_servers(
    http_addr: SocketAddr,
    tls_addr: Option<SocketAddr>,
    has_tls: bool,
    tls_port: u16,
) -> (r: AdminServers)
    requires
        has_tls ==> tls_addr is Some,
    ensures
        r == admin_servers(http_addr, tls_addr, has_tls, tls_port),
        r == if has_tls {
            AdminServers::Https { address: tls_addr->0, redirect_from: http_addr, tls_port }
        } else {
            AdminServers::Http { address: http_addr }
        },
{
    if has_tls {
        match tls_addr {
            Some(address) => AdminServers::Https { address, redirect_from: http_addr, tls_port },
            None => AdminServers::Http { address: http_addr },
        }
    } else {
        AdminServers::Http { address: http_addr }
    }
}

/// One of the servers for the admin pages.
#[derive(Clone, Copy, Debug, PartialEq, Eq, Structural)]
pub enum AdminServer {
    Http,
    Https,
    Redirect,
}

impl AdminServer {
    /// The name of the server in messages.
    pub open spec fn shown(self) -> Seq<char> {
        match self {
            AdminServer::Http => "admin HTTP"@,
            AdminServer::Https => "admin HTTPS"@,
            AdminServer::Redirect => "admin HTTP redirect"@,
        }
    }

    fn name(self) -> (r: &'static str)
        ensures
            r@ == self.shown(),
    {
        match self {
            AdminServer::Http => "admin HTTP",
            AdminServer::Https => "admin HTTPS",
            AdminServer::Redirect => "admin HTTP redirect",
        }
    }
}

/// What can fail about the socket of a server.
#[derive(Clone, Copy, Debug, PartialEq, Eq, Structural)]
pub enum SocketStep {
    Bind(SocketAddr),
    SetNonBlocking,
    Listen,
}

/// What the user is told where the socket of a server fails; the program then ends with
/// the code 1.
pub fn server_failure(server: AdminServer, step: SocketStep, error: &str) -> (r: String)
    ensures
        r@ == match step {
            SocketStep::Bind(a) => "failed to bind "@ + server.shown() + " on "@ + shown_socket_addr(a)
                + ": "@ + error@,
            SocketStep::SetNonBlocking => "failed to set non-blocking on "@ + server.shown()
                + " socket: "@ + error@,
            SocketStep::Listen => "failed to create tokio listener for "@ + server.shown() + ": "@
                + error@,
        },
{
    match step {
        SocketStep::Bind(a) => {
            let mut m = "failed to bind ".to_owned();
            m.push_str(server.name());
            m.push_str(" on ");
            m.push_str(show_socket_addr(a).as_str());
            m.push_str(": ");
            m.push_str(error);
            m
        },
        SocketStep::SetNonBlocking => {
            let mut m = "failed to set non-blocking on ".to_owned();
            m.push_str(server.name());
            m.push_str(" socket: ");
            m.push_str(error);
            m
        },
        SocketStep::Listen => {
            let mut m = "failed to create tokio listener for ".to_owned();
            m.push_str(server.name());
            m.push_str(": ");
            m.push_str(error);
            m
        },
    }
}

/// A redirect leads to the same host and path over HTTPS, whatever port the request came
/// to; the port of the HTTPS listener is named unless it is the usual one.
pub proof fn law_redirects_keep_host_and_path(
    host: Seq<char>,
    port: Seq<char>,
    tls_port: u16,
    path: Seq<char>,
)
    requires
        !host.contains(':'),
    ensures
        redirect_target(host, 443, path) == "https://"@ + host + path,
        tls_port != 443 ==> redirect_target(host, tls_port, path) == "https://"@ + host + ":"@
            + decimal(tls_port as nat) + path,
        redirect_target(host + ":"@ + port, tls_port, path) == redirect_target(host, tls_port, path),
{
    reveal_strlit(":");
    lemma_find(host, ':');
    assert(host.take(host.len() as int) =~= host);
    let with_port = host + ":"@ + port;
    assert forall|j: int| 0 <= j < host.len() implies with_port[j] != ':' by {
        assert(host.contains(host[j]));
    }
    lemma_find_is(with_port, ':', host.len() as int);
    assert(with_port.take(host.len() as int) =~= host);
}

/// A page without the placeholder is shown as it is; a placeholder between two texts is
/// taken out, where the first text does not hold the sign that it begins with.
pub proof fn law_placeholders_are_taken_out(before: Seq<char>, after: Seq<char>, pattern: Seq<char>)
    requires
        pattern.len() > 0,
        !before.contains(pattern[0]),
    ensures
        without(before, pattern) == before,
        without(before + pattern + after, pattern) == before + without(after, pattern),
    decreases before.len(),
{
    let s = before + pattern + after;
    if before.len() == 0 {
        assert(s =~= pattern + after);
        assert(s.subrange(0, pattern.len() as int) =~= pattern);
        assert(s.skip(pattern.len() as int) =~= after);
        assert(before + without(after, pattern) =~= without(after, pattern));
    } else {
        let rest = before.skip(1);
        assert(before.contains(before[0]));
        assert forall|i: int| 0 <= i < rest.len() implies rest[i] != pattern[0] by {
            assert(before.contains(before[i + 1]));
        }
        law_placeholders_are_taken_out(rest, after, pattern);
        assert(s[0] == before[0]);
        if pattern.is_prefix_of(s) {
            assert(s.subrange(0, pattern.len() as int)[0] == s[0]);
        }
        if pattern.is_prefix_of(before) {
            assert(before.subrange(0, pattern.len() as int)[0] == before[0]);
        }
        assert(s.skip(1) =~= rest + pattern + after);
        assert(before =~= seq![before[0]] + rest);
        assert(before + without(after, pattern) =~= seq![before[0]] + (rest + without(
            after,
            pattern,
        )));
    }
}

/// Where TLS is configured the pages are never served without encryption: the plain listener
/// only sends clients to the encrypted one, at the port of that one.
pub proof fn law_pages_are_encrypted_where_configured(
    http_addr: SocketAddr,
    tls_addr: Option<SocketAddr>,
    has_tls: bool,
    tls_port: u16,
)
    requires
        has_tls ==> tls_addr is Some,
    ensures
        match admin_servers(http_addr, tls_addr, has_tls, tls_port) {
            AdminServers::Http { address } => !has_tls && address == http_addr,
            AdminServers::Https { address, redirect_from, tls_port: p } => has_tls && Some(address)
                == tls_addr && redirect_from == http_addr && p == tls_port,
        },
{
}

/// What fails to be bound is told by what it serves.
pub proof fn law_admin_servers_are_named(server: AdminServer)
    ensures
        server is Http ==> server.shown() == "admin HTTP"@,
        server is Https ==> server.shown() == "admin HTTPS"@,
        server is Redirect ==> server.shown() == "admin HTTP redirect"@,
{
}

} // verus!
