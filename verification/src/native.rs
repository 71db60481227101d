//! What passes between a socket and the host that owns the native handle.
//!
//! A socket never calls the operating system. Where an operation needs it,
//! the socket names the call as a [`NativeCall`]; the host makes that call on
//! the native handle and hands the outcome to the socket, or to one of the
//! reply functions, as `Ok` with what the call returned or as `Err` with an
//! [`OsError`](crate::error::OsError).

use crate::address::IpSocketAddress;
use vstd::prelude::*;

verus! {

/// The direction in which a connection is shut down.
#[derive(Copy, Clone, Debug, PartialEq, Eq, Structural)]
pub enum ShutdownType {
    /// No more data is received.
    Receive,
    /// No more data is sent.
    Send,
    /// Both of the above.
    Both,
}

impl ShutdownType {
    /// Whether the receiving side is shut down.
    pub open spec fn spec_closes_receive(self) -> bool {
        self != ShutdownType::Send
    }

    /// Whether the sending side is shut down.
    pub open spec fn spec_closes_send(self) -> bool {
        self != ShutdownType::Receive
    }

    #[verifier::when_used_as_spec(spec_closes_receive)]
    pub fn closes_receive(self) -> (closes: bool)
        ensures
            closes == self.spec_closes_receive(),
    {
        match self {
            ShutdownType::Receive | ShutdownType::Both => true,
            ShutdownType::Send => false,
        }
    }

    #[verifier::when_used_as_spec(spec_closes_send)]
    pub fn closes_send(self) -> (closes: bool)
        ensures
            closes == self.spec_closes_send(),
    {
        match self {
            ShutdownType::Send | ShutdownType::Both => true,
            ShutdownType::Receive => false,
        }
    }
}

/// The operating system of the host, as far as sockets behave differently
/// on it.
#[derive(Copy, Clone, Debug, PartialEq, Eq, Structural)]
pub enum Platform {
    /// Linux, which doubles a buffer size when it is set and reports the
    /// doubled value.
    Linux,
    /// A platform that keeps a buffer size as it is set.
    Other,
}

/// A call on the native socket that the host makes for a socket.
#[derive(Copy, Clone, Debug, PartialEq, Eq, Structural)]
pub enum NativeCall {
    /// Bind the socket to `address`, then ask for its local address.
    Bind { address: IpSocketAddress },
    /// Listen for connections with the given backlog.
    Listen { backlog: i32 },
    /// Connect, without blocking, to `address`, then ask for the local
    /// address.
    Connect { address: IpSocketAddress },
    /// Accept a pending connection, without blocking.
    Accept,
    /// Shut down one or both directions of the connection.
    Shutdown { how: ShutdownType },
    /// Read `IPV6_V6ONLY`.
    Ipv6Only,
    /// Set `IPV6_V6ONLY`.
    SetIpv6Only { value: bool },
    /// Read `SO_KEEPALIVE`.
    KeepAlive,
    /// Set `SO_KEEPALIVE`.
    SetKeepAlive { value: bool },
    /// Read `TCP_NODELAY`.
    NoDelay,
    /// Set `TCP_NODELAY`.
    SetNoDelay { value: bool },
    /// Read `IP_TTL`.
    Ttl,
    /// Set `IP_TTL`.
    SetTtl { hops: u32 },
    /// Read `IPV6_UNICAST_HOPS`.
    UnicastHopsV6,
    /// Set `IPV6_UNICAST_HOPS`.
    SetUnicastHopsV6 { hops: u32 },
    /// Read `SO_RCVBUF`.
    ReceiveBufferSize,
    /// Set `SO_RCVBUF`.
    SetReceiveBufferSize { size: usize },
    /// Read `SO_SNDBUF`.
    SendBufferSize,
    /// Set `SO_SNDBUF`.
    SetSendBufferSize { size: usize },
    /// Read into the buffers of the guest what is there, without blocking.
    Read,
    /// Read and drop up to `length` bytes.
    Skip { length: u64 },
    /// Ask how many bytes can be read without blocking.
    ReadyBytes,
    /// Write from the buffers of the guest what can be written.
    Write,
    /// Write up to `length` zero bytes.
    WriteZeroes { length: u64 },
    /// Copy up to `length` bytes from another stream to the socket.
    Splice { length: u64 },
    /// Ask which sides of the socket are still open.
    ReadWrite,
    /// Read into the first buffer of the guest without taking the data off
    /// the socket.
    Peek,
    /// Read until the buffers of the guest, `length` bytes in all, are full.
    ReadExact { length: u64 },
    /// Receive a datagram from the peer that the socket is connected to.
    Receive,
    /// Receive a datagram from anyone, together with the address it came
    /// from.
    ReceiveFrom,
    /// Send a datagram to the peer that the socket is connected to.
    Send,
    /// Send a datagram to `address`.
    SendTo { address: IpSocketAddress },
}

/// A connection that the operating system has accepted on a listener.
#[derive(Copy, Clone, Debug, PartialEq, Eq, Structural)]
pub struct AcceptedConnection {
    /// The local address of the accepted socket.
    pub local_address: IpSocketAddress,
    /// The address of the peer.
    pub remote_address: IpSocketAddress,
}

/// What the host does next for an operation that may or may not need the
/// operating system.
#[derive(Debug, PartialEq, Eq)]
pub enum Step<T> {
    /// Nothing is asked of the operating system: this is the result.
    Done(T),
    /// The host makes this call.
    Call(NativeCall),
}

} // verus!
