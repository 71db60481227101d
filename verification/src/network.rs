//! The network capability: which addresses a guest may use.

use crate::address::{IpAddress, IpSocketAddress};
use crate::address::{Ipv4SocketAddress, Ipv6SocketAddress};
use crate::error::NetworkError;
use cap_std::net::Pool;
use vstd::prelude::*;

verus! {

/// `cap_std::net::Pool`, a list of grants, each a range of IP addresses
/// with a range of ports. Nothing inside a pool is visible to the verifier.
#[verifier::external_type_specification]
#[verifier::external_body]
pub struct ExPool(cap_std::net::Pool);

/// `std::io::Error`, as `check_addr` returns it. It is only told apart from
/// `Ok`.
#[verifier::external_type_specification]
#[verifier::external_body]
pub struct ExIoError(std::io::Error);

/// What a pool holds: the pairs of an IP address and a port that lie in one
/// of its grants.
pub uninterp spec fn pool_grants(pool: Pool) -> Set<(IpAddress, u16)>;

/// Calls `cap_primitives::net::Pool::check_addr` on the pool that
/// `cap_std::net::Pool::_pool` hands out, with `addr` as a
/// `std::net::SocketAddr`. That function goes through the grants and returns
/// `Ok` where one of them holds the IP address and the port of the address,
/// and an error where none does: the contract says that this is so exactly
/// for the pairs that the pool holds. Flow information and scope of an IPv6
/// address are handed over and not looked at.
#[verifier::external_body]
fn pool_check_addr(pool: &Pool, addr: IpSocketAddress) -> (checked: Result<(), std::io::Error>)
    ensures
        checked is Ok <==> pool_grants(*pool).contains((addr.spec_ip(), addr.spec_port())),
{
    let std_addr = match addr {
        IpSocketAddress::Ipv4(Ipv4SocketAddress { port, address: a }) => cap_std::net::SocketAddr::V4(
            cap_std::net::SocketAddrV4::new(cap_std::net::Ipv4Addr::new(a.0, a.1, a.2, a.3), port),
        ),
        IpSocketAddress::Ipv6(Ipv6SocketAddress { port, flow_info, address: a, scope_id }) => {
            let ip = cap_std::net::Ipv6Addr::new(a.0, a.1, a.2, a.3, a.4, a.5, a.6, a.7);
            cap_std::net::SocketAddr::V6(cap_std::net::SocketAddrV6::new(ip, port, flow_info, scope_id))
        },
    };
    pool._pool().check_addr(&std_addr)
}

/// Calls `clone` on a `cap_std::net::Pool`, which copies the list of its
/// grants: the contract says that the copy holds what the pool holds.
#[verifier::external_body]
fn pool_clone(pool: &Pool) -> (copy: Pool)
    ensures
        pool_grants(copy) == pool_grants(*pool),
{
    pool.clone()
}

/// Whether a set of grants holds the IP address and port of `address`.
pub open spec fn permits(grants: Set<(IpAddress, u16)>, address: IpSocketAddress) -> bool {
    grants.contains((address.spec_ip(), address.spec_port()))
}

/// What a bound socket is bound to.
pub struct BindingView {
    /// What the network grants through which the socket was bound.
    pub network: Set<(IpAddress, u16)>,
    /// The local address of the socket.
    pub local_address: IpSocketAddress,
}

/// The binding of a socket: the network that it was bound through, and its
/// local address.
pub struct Binding {
    pub network: Network,
    pub local_address: IpSocketAddress,
}

impl View for Binding {
    type V = BindingView;

    open spec fn view(&self) -> BindingView {
        BindingView { network: self.network@, local_address: self.local_address }
    }
}

/// A network capability: the addresses and ports that its holder may bind
/// and connect to.
pub struct Network(Pool);

impl View for Network {
    type V = Set<(IpAddress, u16)>;

    /// The IP addresses and ports that the network grants.
    closed spec fn view(&self) -> Set<(IpAddress, u16)> {
        pool_grants(self.0)
    }
}

impl Network {
    /// A network that grants what `pool` grants.
    pub fn new(pool: Pool) -> (network: Network)
        ensures
            network@ == pool_grants(pool),
    {
        Network(pool)
    }

    /// The pool behind this network.
    pub fn pool(&self) -> (pool: &Pool)
        ensures
            pool_grants(*pool) == self@,
    {
        &self.0
    }

    /// Another handle on the same capability.
    pub fn share(&self) -> (network: Network)
        ensures
            network@ == self@,
    {
        Network(pool_clone(&self.0))
    }

    /// Checks an address against the network: `AccessDenied` unless the
    /// network grants its IP address and port.
    pub fn check(&self, address: IpSocketAddress) -> (checked: Result<(), NetworkError>)
        ensures
            checked == if permits(self@, address) {
                Ok::<(), NetworkError>(())
            } else {
                Err(NetworkError::AccessDenied)
            },
    {
        match pool_check_addr(&self.0, address) {
            Ok(()) => Ok(()),
            Err(_) => Err(NetworkError::AccessDenied),
        }
    }
}

} // verus!
