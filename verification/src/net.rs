//! Network addresses and endpoints as plain values.

use vstd::prelude::*;
use vstd::string::StringExecFns;

verus! {

/// An IPv4 address, as its four octets from the most significant down.
#[derive(Clone, Copy, Debug, PartialEq, Eq, Hash, Structural)]
pub struct Ipv4Addr {
    pub a: u8,
    pub b: u8,
    pub c: u8,
    pub d: u8,
}

impl Ipv4Addr {
    /// The address `a.b.c.d`.
    pub fn new(a: u8, b: u8, c: u8, d: u8) -> (res: Ipv4Addr)
        ensures
            res == (Ipv4Addr { a, b, c, d }),
    {
        Ipv4Addr { a, b, c, d }
    }

    /// Whether the address lies in `127.0.0.0/8`.
    pub open spec fn spec_is_loopback(self) -> bool {
        self.a == 127
    }

    /// Whether the address lies in `127.0.0.0/8`.
    pub fn is_loopback(&self) -> (res: bool)
        ensures
            res == self.spec_is_loopback(),
    {
        self.a == 127
    }
}

/// An IPv6 address, as its eight 16-bit segments from the most significant
/// down.
#[derive(Clone, Copy, Debug, PartialEq, Eq, Hash, Structural)]
pub struct Ipv6Addr {
    pub a: u16,
    pub b: u16,
    pub c: u16,
    pub d: u16,
    pub e: u16,
    pub f: u16,
    pub g: u16,
    pub h: u16,
}

impl Ipv6Addr {
    /// The address `a:b:c:d:e:f:g:h`.
    pub fn new(a: u16, b: u16, c: u16, d: u16, e: u16, f: u16, g: u16, h: u16) -> (res: Ipv6Addr)
        ensures
            res == (Ipv6Addr { a, b, c, d, e, f, g, h }),
    {
        Ipv6Addr { a, b, c, d, e, f, g, h }
    }

    /// Whether the address is `::1`.
    pub open spec fn spec_is_loopback(self) -> bool {
        self == (Ipv6Addr { a: 0, b: 0, c: 0, d: 0, e: 0, f: 0, g: 0, h: 1 })
    }

    /// Whether the address is `::1`.
    pub fn is_loopback(&self) -> (res: bool)
        ensures
            res == self.spec_is_loopback(),
    {
        self.a == 0 && self.b == 0 && self.c == 0 && self.d == 0 && self.e == 0 && self.f == 0
            && self.g == 0 && self.h == 1
    }
}

/// An IP address of either version.
#[derive(Clone, Copy, Debug, PartialEq, Eq, Hash, Structural)]
pub enum IpAddr {
    V4(Ipv4Addr),
    V6(Ipv6Addr),
}

impl IpAddr {
    /// Whether the address is a loopback address of its version.
    pub open spec fn spec_is_loopback(self) -> bool {
        match self {
            IpAddr::V4(ip) => ip.spec_is_loopback(),
            IpAddr::V6(ip) => ip.spec_is_loopback(),
        }
    }

    /// Whether the address is a loopback address of its version.
    pub fn is_loopback(&self) -> (res: bool)
        ensures
            res == self.spec_is_loopback(),
    {
        match self {
            IpAddr::V4(ip) => ip.is_loopback(),
            IpAddr::V6(ip) => ip.is_loopback(),
        }
    }
}

/// An IP address together with a port.
#[derive(Clone, Copy, Debug, PartialEq, Eq, Hash, Structural)]
pub struct SocketAddr {
    pub ip: IpAddr,
    pub port: u16,
}

impl SocketAddr {
    /// The socket address of `port` at `ip`.
    pub fn new(ip: IpAddr, port: u16) -> (res: SocketAddr)
        ensures
            res == (SocketAddr { ip, port }),
    {
        SocketAddr { ip, port }
    }

    /// The address part.
    pub fn ip(&self) -> (res: IpAddr)
        ensures
            res == self.ip,
    {
        self.ip
    }

    /// The port part.
    pub fn port(&self) -> (res: u16)
        ensures
            res == self.port,
    {
        self.port
    }
}

/// Transport layer protocols.
#[derive(Clone, Copy, Debug, PartialEq, Eq, Hash, Structural)]
pub enum TransportProtocol {
    Udp,
    Tcp,
}

/// A socket address together with the transport protocol spoken there.
#[derive(Clone, Copy, Debug, PartialEq, Eq, Hash, Structural)]
pub struct Endpoint {
    pub address: SocketAddr,
    pub protocol: TransportProtocol,
}

impl Endpoint {
    /// The endpoint at `port` of `address`, reached over `protocol`.
    pub fn new(address: IpAddr, port: u16, protocol: TransportProtocol) -> (res: Endpoint)
        ensures
            res == (Endpoint { address: SocketAddr { ip: address, port }, protocol }),
    {
        Endpoint { address: SocketAddr::new(address, port), protocol }
    }
}

/// The kinds of tunnel.
#[derive(Clone, Copy, Debug, PartialEq, Eq, Hash, Structural)]
pub enum TunnelType {
    OpenVpn,
    Wireguard,
}

/// Where a tunnel of a given kind connects to.
#[derive(Clone, Copy, Debug, PartialEq, Eq, Hash, Structural)]
pub struct TunnelEndpoint {
    pub tunnel_type: TunnelType,
    pub endpoint: Endpoint,
}

/// Options that apply to a tunnel of any kind.
#[derive(Clone, Copy, Debug, PartialEq, Eq, Hash, Structural)]
pub struct GenericTunnelOptions {
    /// Whether IPv6 traffic may pass through the tunnel.
    pub enable_ipv6: bool,
}

/// A remote host, by name or by address in text form, and a port there.
#[derive(Clone, Debug, PartialEq, Eq, Hash)]
pub struct RemoteAddr {
    address: String,
    port: u16,
}

/// A [`RemoteAddr`] as a mathematical value.
pub struct RemoteAddrView {
    pub address: Seq<char>,
    pub port: u16,
}

impl View for RemoteAddr {
    type V = RemoteAddrView;

    closed spec fn view(&self) -> RemoteAddrView {
        RemoteAddrView { address: self.address@, port: self.port }
    }
}

impl RemoteAddr {
    /// The remote `address` at `port`.
    pub fn new(address: &str, port: u16) -> (res: RemoteAddr)
        ensures
            res@ == (RemoteAddrView { address: address@, port }),
    {
        RemoteAddr { address: String::from_str(address), port }
    }

    /// The host part.
    pub fn address(&self) -> (res: &str)
        ensures
            res@ == self@.address,
    {
        self.address.as_str()
    }

    /// The port part.
    pub fn port(&self) -> (res: u16)
        ensures
            res == self@.port,
    {
        self.port
    }
}

} // verus!
