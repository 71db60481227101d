//! IP addresses, socket addresses and address families.

use vstd::prelude::*;

verus! {

/// The address family of a socket, chosen when the socket is created.
#[derive(Copy, Clone, Debug, PartialEq, Eq, Structural)]
pub enum AddressFamily {
    /// `AF_INET` for IPv4.
    INET,
    /// `AF_INET6` for IPv6.
    INET6,
}

/// An IPv4 address, one field for each octet.
#[derive(Copy, Clone, Debug, PartialEq, Eq, Structural)]
pub struct Ipv4Address(pub u8, pub u8, pub u8, pub u8);

/// An IPv6 address, one field for each 16-bit segment.
#[derive(Copy, Clone, Debug, PartialEq, Eq, Structural)]
pub struct Ipv6Address(pub u16, pub u16, pub u16, pub u16, pub u16, pub u16, pub u16, pub u16);

/// An IP address of either family.
#[derive(Copy, Clone, Debug, PartialEq, Eq, Structural)]
pub enum IpAddress {
    Ipv4(Ipv4Address),
    Ipv6(Ipv6Address),
}

/// An IPv4 address with a port.
#[derive(Copy, Clone, Debug, PartialEq, Eq, Structural)]
pub struct Ipv4SocketAddress {
    pub port: u16,
    pub address: Ipv4Address,
}

/// An IPv6 address with a port, flow information and scope.
#[derive(Copy, Clone, Debug, PartialEq, Eq, Structural)]
pub struct Ipv6SocketAddress {
    pub port: u16,
    pub flow_info: u32,
    pub address: Ipv6Address,
    pub scope_id: u32,
}

/// A socket address of either family.
#[derive(Copy, Clone, Debug, PartialEq, Eq, Structural)]
pub enum IpSocketAddress {
    Ipv4(Ipv4SocketAddress),
    Ipv6(Ipv6SocketAddress),
}

impl IpAddress {
    /// The family this address belongs to.
    pub open spec fn spec_family(self) -> AddressFamily {
        match self {
            IpAddress::Ipv4(_) => AddressFamily::INET,
            IpAddress::Ipv6(_) => AddressFamily::INET6,
        }
    }

    /// Whether this is the wildcard address of its family, `0.0.0.0` or `::`.
    pub open spec fn spec_is_unspecified(self) -> bool {
        match self {
            IpAddress::Ipv4(a) => a == Ipv4Address(0, 0, 0, 0),
            IpAddress::Ipv6(a) => a == Ipv6Address(0, 0, 0, 0, 0, 0, 0, 0),
        }
    }

    #[verifier::when_used_as_spec(spec_family)]
    pub fn family(self) -> (family: AddressFamily)
        ensures
            family == self.spec_family(),
    {
        match self {
            IpAddress::Ipv4(_) => AddressFamily::INET,
            IpAddress::Ipv6(_) => AddressFamily::INET6,
        }
    }

    #[verifier::when_used_as_spec(spec_is_unspecified)]
    pub fn is_unspecified(self) -> (unspecified: bool)
        ensures
            unspecified == self.spec_is_unspecified(),
    {
        match self {
            IpAddress::Ipv4(a) => a.0 == 0 && a.1 == 0 && a.2 == 0 && a.3 == 0,
            IpAddress::Ipv6(a) => a.0 == 0 && a.1 == 0 && a.2 == 0 && a.3 == 0 && a.4 == 0
                && a.5 == 0 && a.6 == 0 && a.7 == 0,
        }
    }
}

impl IpSocketAddress {
    /// The IP address without the port.
    pub open spec fn spec_ip(self) -> IpAddress {
        match self {
            IpSocketAddress::Ipv4(a) => IpAddress::Ipv4(a.address),
            IpSocketAddress::Ipv6(a) => IpAddress::Ipv6(a.address),
        }
    }

    /// The port.
    pub open spec fn spec_port(self) -> u16 {
        match self {
            IpSocketAddress::Ipv4(a) => a.port,
            IpSocketAddress::Ipv6(a) => a.port,
        }
    }

    /// The family this address belongs to.
    pub open spec fn spec_family(self) -> AddressFamily {
        self.spec_ip().spec_family()
    }

    /// Whether a socket can connect to this address: the wildcard address
    /// and port 0 name no peer.
    pub open spec fn spec_is_valid_remote(self) -> bool {
        !self.spec_ip().spec_is_unspecified() && self.spec_port() != 0
    }

    #[verifier::when_used_as_spec(spec_ip)]
    pub fn ip(self) -> (ip: IpAddress)
        ensures
            ip == self.spec_ip(),
    {
        match self {
            IpSocketAddress::Ipv4(a) => IpAddress::Ipv4(a.address),
            IpSocketAddress::Ipv6(a) => IpAddress::Ipv6(a.address),
        }
    }

    #[verifier::when_used_as_spec(spec_port)]
    pub fn port(self) -> (port: u16)
        ensures
            port == self.spec_port(),
    {
        match self {
            IpSocketAddress::Ipv4(a) => a.port,
            IpSocketAddress::Ipv6(a) => a.port,
        }
    }

    #[verifier::when_used_as_spec(spec_family)]
    pub fn family(self) -> (family: AddressFamily)
        ensures
            family == self.spec_family(),
    {
        self.ip().family()
    }

    #[verifier::when_used_as_spec(spec_is_valid_remote)]
    pub fn is_valid_remote(self) -> (valid: bool)
        ensures
            valid == self.spec_is_valid_remote(),
    {
        !self.ip().is_unspecified() && self.port() != 0
    }
}

} // verus!
