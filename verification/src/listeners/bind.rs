//! The addresses on which listeners wait, and what can go wrong when they are set up.

use crate::net::{
    host_port, join_host_port, parsed_socket_addr, read_socket_addr, show_socket_addr,
    shown_socket_addr, with_error_text, SocketAddr,
};
use crate::tls::TlsSetupError;
use vstd::prelude::*;

verus! {

/// Errors that can occur when setting up listeners.
#[derive(Debug)]
pub enum ListenerSetupError {
    /// An address and port, as one text, that stand for nothing.
    InvalidAddress { addr: String, source: String },
    BindFailed { proto: &'static str, addr: SocketAddr, source: String },
    Tls(TlsSetupError),
    Registration(String),
}

/// What is said of an address that stands for nothing.
pub open spec fn invalid_address(addr: Seq<char>, source: Seq<char>) -> Seq<char> {
    "invalid bind address '"@ + addr + "': "@ + source
}

impl ListenerSetupError {
    /// The text that a user sees.
    pub open spec fn text(self) -> Seq<char> {
        match self {
            ListenerSetupError::InvalidAddress { addr, source } => invalid_address(addr@, source@),
            ListenerSetupError::BindFailed { proto, addr, source } => "failed to bind "@ + proto@
                + " on "@ + shown_socket_addr(addr) + ": "@ + source@,
            ListenerSetupError::Tls(e) => "TLS configuration error: "@ + e@.text(),
            ListenerSetupError::Registration(m) => "listener registration error: "@ + m@,
        }
    }

    /// The text that a user sees.
    pub fn message(&self) -> (r: String)
        ensures
            r@ == self.text(),
    {
        match self {
            ListenerSetupError::InvalidAddress { addr, source } => {
                show_invalid_address(addr.as_str(), source.as_str())
            },
            ListenerSetupError::BindFailed { proto, addr, source } => {
                show_bind_failure(proto, *addr, source.as_str())
            },
            ListenerSetupError::Tls(e) => {
                let mut out = "TLS configuration error: ".to_owned();
                out.push_str(e.message().as_str());
                out
            },
            ListenerSetupError::Registration(m) => {
                let mut out = "listener registration error: ".to_owned();
                out.push_str(m.as_str());
                out
            },
        }
    }
}

/// What is said of an address that stands for nothing.
pub(crate) fn show_invalid_address(addr: &str, source: &str) -> (r: String)
    ensures
        r@ == invalid_address(addr@, source@),
{
    let mut out = "invalid bind address '".to_owned();
    out.push_str(addr);
    out.push_str("': ");
    out.push_str(source);
    out
}

/// What is said of an address that cannot be bound to.
pub(crate) fn show_bind_failure(proto: &str, addr: SocketAddr, source: &str) -> (r: String)
    ensures
        r@ == "failed to bind "@ + proto@ + " on "@ + shown_socket_addr(addr) + ": "@ + source@,
{
    let mut out = "failed to bind ".to_owned();
    out.push_str(proto);
    out.push_str(" on ");
    out.push_str(show_socket_addr(addr).as_str());
    out.push_str(": ");
    out.push_str(source);
    out
}

/// What the address at `i` stands for with a port.
pub open spec fn bind_addr(addresses: Seq<String>, port: u16, i: int) -> Result<
    SocketAddr,
    Seq<char>,
> {
    parsed_socket_addr(host_port(addresses[i]@, port))
}

/// Whether a list is what addresses with a port stand for.
pub open spec fn are_bind_addrs(
    addresses: Seq<String>,
    port: u16,
    list: Seq<SocketAddr>,
) -> bool {
    list.len() == addresses.len() && forall|i: int|
        0 <= i < list.len() ==> bind_addr(addresses, port, i) == Ok::<SocketAddr, Seq<char>>(
            #[trigger] list[i],
        )
}

/// Whether an error is about the first address that stands for nothing.
pub open spec fn is_first_invalid(
    addresses: Seq<String>,
    port: u16,
    addr: Seq<char>,
    source: Seq<char>,
) -> bool {
    exists|i: int|
        {
            &&& 0 <= i < addresses.len()
            &&& #[trigger] bind_addr(addresses, port, i) == Err::<SocketAddr, Seq<char>>(source)
            &&& addr == host_port(addresses[i]@, port)
            &&& forall|j: int| 0 <= j < i ==> bind_addr(addresses, port, j) is Ok
        }
}

/// Whether an error is the first of what some texts were parsed to.
pub open spec fn is_first_error(
    texts: Seq<String>,
    parsed: Seq<Result<SocketAddr, String>>,
    addr: Seq<char>,
    source: Seq<char>,
) -> bool {
    exists|i: int|
        {
            &&& 0 <= i < parsed.len()
            &&& with_error_text(#[trigger] parsed[i]) == Err::<SocketAddr, Seq<char>>(source)
            &&& addr == texts[i]@
            &&& forall|j: int| 0 <= j < i ==> #[trigger] parsed[j] is Ok
        }
}

/// The addresses that texts stand for, given what each was parsed to; the first text that
/// stands for nothing is an error.
pub fn bind_addrs_of(texts: &Vec<String>, parsed: &Vec<Result<SocketAddr, String>>) -> (r: Result<
    Vec<SocketAddr>,
    ListenerSetupError,
>)
    requires
        texts@.len() == parsed@.len(),
    ensures
        match r {
            Ok(list) => list@.len() == parsed@.len() && forall|i: int|
                0 <= i < list@.len() ==> parsed@[i] == Ok::<SocketAddr, String>(#[trigger] list@[i]),
            Err(e) => e matches ListenerSetupError::InvalidAddress { addr, source }
                && is_first_error(texts@, parsed@, addr@, source@),
        },
{
    let mut list: Vec<SocketAddr> = Vec::new();
    let mut i: usize = 0;
    while i < parsed.len()
        invariant
            i <= parsed@.len() == texts@.len(),
            list@.len() == i,
            forall|k: int|
                0 <= k < i ==> parsed@[k] == Ok::<SocketAddr, String>(#[trigger] list@[k]),
        decreases parsed@.len() - i,
    {
        match &parsed[i] {
            Ok(a) => list.push(*a),
            Err(source) => {
                let source = source.clone();
                assert forall|j: int| 0 <= j < i implies #[trigger] parsed@[j] is Ok by {
                    assert(parsed@[j] == Ok::<SocketAddr, String>(list@[j]));
                }
                assert(with_error_text(parsed@[i as int]) == Err::<SocketAddr, Seq<char>>(source@));
                return Err(ListenerSetupError::InvalidAddress { addr: texts[i].clone(), source });
            },
        }
        i += 1;
    }
    Ok(list)
}

/// Parses address strings and a port into a list of socket addresses; the first
/// address that cannot be parsed is an error. IPv6 addresses are put in brackets
/// before parsing.
pub fn parse_bind_addrs(addresses: &Vec<String>, port: u16) -> (r: Result<
    Vec<SocketAddr>,
    ListenerSetupError,
>)
    ensures
        match r {
            Ok(list) => are_bind_addrs(addresses@, port, list@),
            Err(e) => e matches ListenerSetupError::InvalidAddress { addr, source }
                && is_first_invalid(addresses@, port, addr@, source@),
        },
{
    let mut texts: Vec<String> = Vec::new();
    let mut parsed: Vec<Result<SocketAddr, String>> = Vec::new();
    let mut i: usize = 0;
    while i < addresses.len()
        invariant
            i <= addresses@.len(),
            texts@.len() == i,
            parsed@.len() == i,
            forall|k: int|
                0 <= k < i ==> (#[trigger] texts@[k])@ == host_port(addresses@[k]@, port),
            forall|k: int|
                0 <= k < i ==> with_error_text(#[trigger] parsed@[k]) == bind_addr(
                    addresses@,
                    port,
                    k,
                ),
        decreases addresses@.len() - i,
    {
        let text = join_host_port(addresses[i].as_str(), port);
        parsed.push(read_socket_addr(text.as_str()));
        texts.push(text);
        i += 1;
    }
    match bind_addrs_of(&texts, &parsed) {
        Ok(list) => {
            assert forall|k: int| 0 <= k < list@.len() implies bind_addr(addresses@, port, k)
                == Ok::<SocketAddr, Seq<char>>(#[trigger] list@[k]) by {
                assert(with_error_text(parsed@[k]) == bind_addr(addresses@, port, k));
            }
            Ok(list)
        },
        Err(ListenerSetupError::InvalidAddress { addr, source }) => {
            proof {
                let k = choose|k: int|
                    {
                        &&& 0 <= k < parsed@.len()
                        &&& with_error_text(#[trigger] parsed@[k]) == Err::<SocketAddr, Seq<char>>(
                            source@,
                        )
                        &&& addr@ == texts@[k]@
                        &&& forall|j: int| 0 <= j < k ==> #[trigger] parsed@[j] is Ok
                    };
                assert(bind_addr(addresses@, port, k) == Err::<SocketAddr, Seq<char>>(source@));
                assert forall|j: int| 0 <= j < k implies bind_addr(addresses@, port, j) is Ok by {
                    assert(with_error_text(parsed@[j]) == bind_addr(addresses@, port, j));
                }
            }
            Err(ListenerSetupError::InvalidAddress { addr, source })
        },
        Err(e) => Err(e),
    }
}

/// Addresses are either all parsed or the first bad one is named, never both.
pub proof fn law_bad_addresses_are_not_bound(
    addresses: Seq<String>,
    port: u16,
    list: Seq<SocketAddr>,
    addr: Seq<char>,
    source: Seq<char>,
)
    requires
        is_first_invalid(addresses, port, addr, source),
    ensures
        !are_bind_addrs(addresses, port, list),
{
    let i = choose|i: int|
        {
            &&& 0 <= i < addresses.len()
            &&& #[trigger] bind_addr(addresses, port, i) == Err::<SocketAddr, Seq<char>>(source)
            &&& addr == host_port(addresses[i]@, port)
            &&& forall|j: int| 0 <= j < i ==> bind_addr(addresses, port, j) is Ok
        };
    if are_bind_addrs(addresses, port, list) {
        assert(bind_addr(addresses, port, i) == Ok::<SocketAddr, Seq<char>>(list[i]));
    }
}

/// Every address is bound, in its order, and what fails is told with the address and its cause.
pub proof fn law_every_address_is_bound(addresses: Seq<String>, port: u16, list: Seq<SocketAddr>, i: int)
    requires
        are_bind_addrs(addresses, port, list),
        0 <= i < addresses.len(),
    ensures
        list.len() == addresses.len(),
        parsed_socket_addr(host_port(addresses[i]@, port)) == Ok::<SocketAddr, Seq<char>>(list[i]),
{
    assert(bind_addr(addresses, port, i) == Ok::<SocketAddr, Seq<char>>(list[i]));
}

/// What fails is told with the address that it is about, and with its cause at the end.
pub proof fn law_failures_name_the_address(
    addr: String,
    proto: &'static str,
    socket: SocketAddr,
    source: String,
)
    ensures
        (ListenerSetupError::InvalidAddress { addr, source }).text() == "invalid bind address '"@ + addr@
            + "': "@ + source@,
        (ListenerSetupError::BindFailed { proto, addr: socket, source }).text() == "failed to bind "@
            + proto@ + " on "@ + shown_socket_addr(socket) + ": "@ + source@,
        ListenerSetupError::Registration(source).text() == "listener registration error: "@ + source@,
{
}

/// The first text that stands for nothing is the one that is told, with its own error.
pub proof fn law_first_error_is_told(
    texts: Seq<String>,
    parsed: Seq<Result<SocketAddr, String>>,
    addr: Seq<char>,
    source: Seq<char>,
    k: int,
)
    requires
        is_first_error(texts, parsed, addr, source),
        0 <= k < parsed.len(),
        parsed[k] is Err,
        forall|j: int| 0 <= j < k ==> #[trigger] parsed[j] is Ok,
    ensures
        addr == texts[k]@,
        parsed[k] matches Err(e) && e@ == source,
{
    let i = choose|i: int|
        {
            &&& 0 <= i < parsed.len()
            &&& with_error_text(#[trigger] parsed[i]) == Err::<SocketAddr, Seq<char>>(source)
            &&& addr == texts[i]@
            &&& forall|j: int| 0 <= j < i ==> #[trigger] parsed[j] is Ok
        };
    assert(parsed[i] is Err);
    assert(i == k);
}

} // verus!
