//! Addresses of the Internet protocols.

use crate::text::{decimal, has_char, number, parsed_number};
use vstd::prelude::*;

verus! {

/// An IPv4 or IPv6 address, as the number that its bytes are in network order.
#[derive(Clone, Copy, Debug, PartialEq, Eq, Hash, Structural)]
pub enum IpAddr {
    V4(u32),
    V6(u128),
}

/// The address 127.0.0.1.
pub const LOCALHOST_V4: u32 = 0x7f00_0001;

/// The address ::1.
pub const LOCALHOST_V6: u128 = 1;

impl IpAddr {
    /// Whether the address is 0.0.0.0 or ::, which stands for any address.
    pub open spec fn unspecified(self) -> bool {
        self == IpAddr::V4(0) || self == IpAddr::V6(0)
    }

    /// Whether the address stands for any address.
    pub fn is_unspecified(&self) -> (r: bool)
        ensures
            r == self.unspecified(),
    {
        match self {
            IpAddr::V4(a) => *a == 0,
            IpAddr::V6(a) => *a == 0,
        }
    }

    /// Whether the address is one of IPv6.
    pub fn is_ipv6(&self) -> (r: bool)
        ensures
            r == (*self is V6),
    {
        match self {
            IpAddr::V4(_) => false,
            IpAddr::V6(_) => true,
        }
    }
}

/// An address and a port. The zone of an IPv6 address is 0 where none is given.
#[derive(Clone, Copy, Debug, PartialEq, Eq, Hash, Structural)]
pub struct SocketAddr {
    pub ip: IpAddr,
    pub port: u16,
    pub scope_id: u32,
}

/// The socket address of an IP address and a port.
pub open spec fn socket_addr(ip: IpAddr, port: u16) -> SocketAddr {
    SocketAddr { ip, port, scope_id: 0 }
}

impl SocketAddr {
    /// The socket address of an IP address and a port.
    pub fn new(ip: IpAddr, port: u16) -> (r: SocketAddr)
        ensures
            r == socket_addr(ip, port),
    {
        SocketAddr { ip, port, scope_id: 0 }
    }
}

/// What `core::net::IpAddr::from_str` makes of a text.
pub uninterp spec fn parsed_ip(text: Seq<char>) -> Option<IpAddr>;

/// `core::net::IpAddr::from_str`: the address that a text stands for, in the dotted
/// notation of IPv4 or the colon notation of IPv6. The notation itself is not stated.
#[verifier::external_body]
pub(crate) fn read_ip(text: &str) -> (r: Option<IpAddr>)
    ensures
        r == parsed_ip(text@),
{
    match text.parse::<core::net::IpAddr>() {
        Ok(core::net::IpAddr::V4(a)) => Some(IpAddr::V4(u32::from(a))),
        Ok(core::net::IpAddr::V6(a)) => Some(IpAddr::V6(u128::from(a))),
        Err(_) => None,
    }
}

/// What `core::net::SocketAddr::from_str` makes of a text; the error is its text.
pub uninterp spec fn parsed_socket_addr(text: Seq<char>) -> Result<SocketAddr, Seq<char>>;

/// A result whose error is a text.
pub open spec fn with_error_text<T>(r: Result<T, String>) -> Result<T, Seq<char>> {
    match r {
        Ok(x) => Ok(x),
        Err(m) => Err(m@),
    }
}

/// `core::net::SocketAddr::from_str`: the address and port that a text stands for, or
/// the text of the error. The notation itself is not stated.
#[verifier::external_body]
pub(crate) fn read_socket_addr(text: &str) -> (r: Result<SocketAddr, String>)
    ensures
        with_error_text(r) == parsed_socket_addr(text@),
{
    match text.parse::<core::net::SocketAddr>() {
        Ok(core::net::SocketAddr::V4(a)) => Ok(
            SocketAddr { ip: IpAddr::V4(u32::from(*a.ip())), port: a.port(), scope_id: 0 },
        ),
        Ok(core::net::SocketAddr::V6(a)) => Ok(
            SocketAddr {
                ip: IpAddr::V6(u128::from(*a.ip())),
                port: a.port(),
                scope_id: a.scope_id(),
            },
        ),
        Err(e) => Err(e.to_string()),
    }
}

/// What the error of `u16::from_str` says about a text that is not a port.
pub uninterp spec fn port_error(text: Seq<char>) -> Seq<char>;

/// `u16::from_str`: the number that a text is in decimal notation, with or without a plus
/// sign, or the text of the error where it is none or too large. What the error says is
/// not stated.
#[verifier::external_body]
pub(crate) fn read_port(text: &str) -> (r: Result<u16, String>)
    ensures
        match r {
            Ok(n) => parsed_number(text@, 65535) == Some(n as nat),
            Err(m) => parsed_number(text@, 65535) is None && m@ == port_error(text@),
        },
{
    text.parse::<u16>().map_err(|e| e.to_string())
}

/// How `core::net::Ipv6Addr` is shown.
pub uninterp spec fn shown_ipv6(address: u128) -> Seq<char>;

/// The `Display` of `core::net::Ipv6Addr`: the text of an IPv6 address. Its shape is
/// not stated.
#[verifier::external_body]
pub(crate) fn show_ipv6(address: u128) -> (r: String)
    ensures
        r@ == shown_ipv6(address),
{
    core::net::Ipv6Addr::from(address).to_string()
}

/// An IPv4 address in dotted notation.
pub open spec fn shown_ipv4(a: u32) -> Seq<char> {
    decimal((a / 0x100_0000) as nat) + "."@ + decimal((a / 0x1_0000 % 0x100) as nat) + "."@
        + decimal((a / 0x100 % 0x100) as nat) + "."@ + decimal((a % 0x100) as nat)
}

/// The text of an address.
pub open spec fn shown_ip(ip: IpAddr) -> Seq<char> {
    match ip {
        IpAddr::V4(a) => shown_ipv4(a),
        IpAddr::V6(a) => shown_ipv6(a),
    }
}

/// The text of an address.
pub fn show_ip(ip: IpAddr) -> (r: String)
    ensures
        r@ == shown_ip(ip),
{
    match ip {
        IpAddr::V6(a) => show_ipv6(a),
        IpAddr::V4(a) => {
            let mut out = number((a / 0x100_0000) as u64);
            out.push_str(".");
            out.push_str(number((a / 0x1_0000 % 0x100) as u64).as_str());
            out.push_str(".");
            out.push_str(number((a / 0x100 % 0x100) as u64).as_str());
            out.push_str(".");
            out.push_str(number((a % 0x100) as u64).as_str());
            out
        },
    }
}

/// The text of a socket address; an IPv6 address stands in brackets, with its zone where
/// it has one.
pub open spec fn shown_socket_addr(a: SocketAddr) -> Seq<char> {
    let host = match a.ip {
        IpAddr::V4(x) => shown_ipv4(x),
        IpAddr::V6(x) => if a.scope_id == 0 {
            "["@ + shown_ipv6(x) + "]"@
        } else {
            "["@ + shown_ipv6(x) + "%"@ + decimal(a.scope_id as nat) + "]"@
        },
    };
    host + ":"@ + decimal(a.port as nat)
}

/// The text of a socket address.
pub fn show_socket_addr(a: SocketAddr) -> (r: String)
    ensures
        r@ == shown_socket_addr(a),
{
    let mut out = match a.ip {
        IpAddr::V4(_) => show_ip(a.ip),
        IpAddr::V6(x) => {
            let mut t = "[".to_owned();
            t.push_str(show_ipv6(x).as_str());
            if a.scope_id != 0 {
                t.push_str("%");
                t.push_str(number(a.scope_id as u64).as_str());
            }
            t.push_str("]");
            t
        },
    };
    out.push_str(":");
    out.push_str(number(a.port as u64).as_str());
    out
}

/// An address and a port as one text; an address with a colon stands in brackets.
pub open spec fn host_port(address: Seq<char>, port: u16) -> Seq<char> {
    if address.contains(':') {
        "["@ + address + "]:"@ + decimal(port as nat)
    } else {
        address + ":"@ + decimal(port as nat)
    }
}

/// An address and a port as one text.
pub fn join_host_port(address: &str, port: u16) -> (r: String)
    ensures
        r@ == host_port(address@, port),
{
    if has_char(address, ':') {
        let mut out = "[".to_owned();
        out.push_str(address);
        out.push_str("]:");
        out.push_str(number(port as u64).as_str());
        out
    } else {
        let mut out = address.to_owned();
        out.push_str(":");
        out.push_str(number(port as u64).as_str());
        out
    }
}

/// An IPv4 address is shown as its four bytes in decimal notation, with dots between them.
pub proof fn law_ipv4_is_shown_byte_by_byte(a: u8, b: u8, c: u8, d: u8)
    ensures
        shown_ip(IpAddr::V4((a * 0x100_0000 + b * 0x1_0000 + c * 0x100 + d) as u32)) == decimal(
            a as nat,
        ) + "."@ + decimal(b as nat) + "."@ + decimal(c as nat) + "."@ + decimal(d as nat),
{
    let n = (a * 0x100_0000 + b * 0x1_0000 + c * 0x100 + d) as u32;
    assert(n == a * 0x100_0000 + b * 0x1_0000 + c * 0x100 + d);
    assert(n / 0x100_0000 == a);
    assert(n / 0x1_0000 % 0x100 == b);
    assert(n / 0x100 % 0x100 == c);
    assert(n % 0x100 == d);
}

/// A port is set off by a colon; an address with colons of its own stands in brackets.
pub proof fn law_addresses_with_colons_stand_in_brackets(address: Seq<char>, port: u16)
    ensures
        address.contains(':') ==> host_port(address, port) == "["@ + address + "]:"@ + decimal(
            port as nat,
        ),
        !address.contains(':') ==> host_port(address, port) == address + ":"@ + decimal(port as nat),
{
}

/// An address stands for any address exactly where all its bits are zero.
pub proof fn law_zero_stands_for_any_address(a: u32, b: u128)
    ensures
        IpAddr::V4(a).unspecified() <==> a == 0,
        IpAddr::V6(b).unspecified() <==> b == 0,
{
}

/// The port stands behind the address, which is in brackets where it is one of IPv6; a scope is
/// shown where there is one.
pub proof fn law_ports_stand_behind_the_address(a: SocketAddr)
    ensures
        (":"@ + decimal(a.port as nat)).is_suffix_of(shown_socket_addr(a)),
        a.ip matches IpAddr::V4(x) ==> shown_socket_addr(a) == shown_ip(a.ip) + ":"@ + decimal(
            a.port as nat,
        ),
        a.ip is V6 && a.scope_id == 0 ==> shown_socket_addr(a) == "["@ + shown_ip(a.ip) + "]"@ + ":"@
            + decimal(a.port as nat),
        a.ip is V6 && a.scope_id != 0 ==> shown_socket_addr(a) == "["@ + shown_ip(a.ip) + "%"@
            + decimal(a.scope_id as nat) + "]"@ + ":"@ + decimal(a.port as nat),
{
    let t = shown_socket_addr(a);
    let e = ":"@ + decimal(a.port as nat);
    assert(t.subrange(t.len() - e.len(), t.len() as int) =~= e);
}

} // verus!
