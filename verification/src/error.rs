//! The portable error kinds of socket operations, and how the error
//! conditions of the operating system reduce to them.

use vstd::prelude::*;

verus! {

/// The error kinds that a socket operation can report to the guest.
#[derive(Copy, Clone, Debug, PartialEq, Eq, Structural)]
pub enum NetworkError {
    /// Unknown error
    Unknown,
    /// Access denied.
    ///
    /// POSIX equivalent: EACCES, EPERM
    AccessDenied,
    /// The operation is not supported.
    ///
    /// POSIX equivalent: EOPNOTSUPP
    NotSupported,
    /// Not enough memory to complete the operation.
    ///
    /// POSIX equivalent: ENOMEM, ENOBUFS, EAI_MEMORY
    OutOfMemory,
    /// The operation timed out before it could finish completely.
    Timeout,
    /// This operation is incompatible with another asynchronous operation
    /// that is already in progress.
    ConcurrencyConflict,
    /// Trying to finish an asynchronous operation that has not been started
    /// yet, or was already finished by a previous `finish_*` call.
    NotInProgress,
    /// The operation has been aborted because it could not be completed
    /// immediately.
    WouldBlock,
    /// The specified address family is not supported.
    AddressFamilyNotSupported,
    /// An IPv4 address was passed to an IPv6 resource, or vice versa.
    AddressFamilyMismatch,
    /// The socket address is not a valid remote address. E.g. the IP address
    /// is set to INADDR_ANY, or the port is set to 0.
    InvalidRemoteAddress,
    /// The operation is only supported on IPv4 resources.
    Ipv4OnlyOperation,
    /// The operation is only supported on IPv6 resources.
    Ipv6OnlyOperation,
    /// A new socket resource could not be created because of a system limit.
    NewSocketLimit,
    /// The socket is already attached to another network.
    AlreadyAttached,
    /// The socket is already bound.
    AlreadyBound,
    /// The socket is already in the Connection state.
    AlreadyConnected,
    /// The socket is not bound to any local address.
    NotBound,
    /// The socket is not in the Connection state.
    NotConnected,
    /// A bind operation failed because the provided address is not an
    /// address that the network can bind to.
    AddressNotBindable,
    /// A bind operation failed because the provided address is already in
    /// use.
    AddressInUse,
    /// A bind operation failed because there are no ephemeral ports
    /// available.
    EphemeralPortsExhausted,
    /// The remote address is not reachable.
    RemoteUnreachable,
    /// The socket is already in the Listener state.
    AlreadyListening,
    /// The socket is not in the Listener state.
    NotListening,
    /// The connection was forcefully rejected.
    ConnectionRefused,
    /// The connection was reset.
    ConnectionReset,
    /// The datagram is larger than the transport can carry.
    DatagramTooLarge,
    /// The provided name is a syntactically invalid domain name.
    InvalidName,
    /// Name does not exist or has no suitable associated IP addresses.
    NameUnresolvable,
    /// A temporary failure in name resolution occurred.
    TemporaryResolverFailure,
    /// A permanent failure in name resolution occurred.
    PermanentResolverFailure,
}

/// An error condition reported by the operating system for a native socket
/// call, named apart from the numbers that a platform gives it.
#[derive(Copy, Clone, Debug, PartialEq, Eq, Structural)]
pub enum OsError {
    /// `EACCES`
    AccessDenied,
    /// `EPERM`
    NotPermitted,
    /// `ENOTSUP`, `EOPNOTSUPP`
    NotSupported,
    /// `ENOMEM`
    OutOfMemory,
    /// `ENOBUFS`
    NoBufferSpace,
    /// `ETIMEDOUT`
    TimedOut,
    /// `EWOULDBLOCK`, `EAGAIN`
    WouldBlock,
    /// `EINPROGRESS`
    InProgress,
    /// `EINTR`
    Interrupted,
    /// `EAFNOSUPPORT`
    AddressFamilyNotSupported,
    /// `EMFILE`
    ProcessFileLimit,
    /// `ENFILE`
    SystemFileLimit,
    /// `EADDRINUSE`
    AddressInUse,
    /// `EADDRNOTAVAIL`
    AddressNotAvailable,
    /// `ECONNREFUSED`
    ConnectionRefused,
    /// `ECONNRESET`
    ConnectionReset,
    /// `EHOSTUNREACH`
    HostUnreachable,
    /// `ENETUNREACH`
    NetworkUnreachable,
    /// `EMSGSIZE`
    MessageTooLong,
    /// `EISCONN`
    AlreadyConnected,
    /// `ENOTCONN`
    NotConnected,
    /// Any other condition.
    Other,
}

/// The error kind that stands for an error condition of the operating
/// system. Conditions without a kind of their own are `Unknown`.
pub open spec fn general_error(errno: OsError) -> NetworkError {
    match errno {
        OsError::AccessDenied | OsError::NotPermitted => NetworkError::AccessDenied,
        OsError::NotSupported => NetworkError::NotSupported,
        OsError::OutOfMemory | OsError::NoBufferSpace => NetworkError::OutOfMemory,
        OsError::TimedOut => NetworkError::Timeout,
        OsError::WouldBlock | OsError::InProgress => NetworkError::WouldBlock,
        OsError::AddressFamilyNotSupported => NetworkError::AddressFamilyNotSupported,
        OsError::ProcessFileLimit | OsError::SystemFileLimit => NetworkError::NewSocketLimit,
        OsError::AddressInUse => NetworkError::AddressInUse,
        OsError::AddressNotAvailable => NetworkError::AddressNotBindable,
        OsError::ConnectionRefused => NetworkError::ConnectionRefused,
        OsError::ConnectionReset => NetworkError::ConnectionReset,
        OsError::HostUnreachable | OsError::NetworkUnreachable => NetworkError::RemoteUnreachable,
        OsError::MessageTooLong => NetworkError::DatagramTooLarge,
        OsError::AlreadyConnected => NetworkError::AlreadyConnected,
        OsError::NotConnected => NetworkError::NotConnected,
        OsError::Interrupted | OsError::Other => NetworkError::Unknown,
    }
}

/// Reduces an error condition of the operating system to the error kind
/// that the guest sees.
pub fn map_general_error(errno: OsError) -> (error: NetworkError)
    ensures
        error == general_error(errno),
{
    match errno {
        OsError::AccessDenied | OsError::NotPermitted => NetworkError::AccessDenied,
        OsError::NotSupported => NetworkError::NotSupported,
        OsError::OutOfMemory | OsError::NoBufferSpace => NetworkError::OutOfMemory,
        OsError::TimedOut => NetworkError::Timeout,
        OsError::WouldBlock | OsError::InProgress => NetworkError::WouldBlock,
        OsError::AddressFamilyNotSupported => NetworkError::AddressFamilyNotSupported,
        OsError::ProcessFileLimit | OsError::SystemFileLimit => NetworkError::NewSocketLimit,
        OsError::AddressInUse => NetworkError::AddressInUse,
        OsError::AddressNotAvailable => NetworkError::AddressNotBindable,
        OsError::ConnectionRefused => NetworkError::ConnectionRefused,
        OsError::ConnectionReset => NetworkError::ConnectionReset,
        OsError::HostUnreachable | OsError::NetworkUnreachable => NetworkError::RemoteUnreachable,
        OsError::MessageTooLong => NetworkError::DatagramTooLarge,
        OsError::AlreadyConnected => NetworkError::AlreadyConnected,
        OsError::NotConnected => NetworkError::NotConnected,
        OsError::Interrupted | OsError::Other => NetworkError::Unknown,
    }
}

} // verus!
