//! The UDP socket as contracts speak of it: its state, and what each
//! operation makes of it and returns.

use crate::address::{AddressFamily, IpAddress, IpSocketAddress};
use crate::error::{general_error, NetworkError, OsError};
use crate::native::{NativeCall, Step};
use crate::network::{permits, BindingView};
use crate::options::SocketStatus;
use vstd::prelude::*;

verus! {

/// The flag of a receive that leaves the data on the socket.
pub const RECV_PEEK: u16 = 1;

/// The flag of a receive that waits until the buffers are full.
pub const RECV_WAITALL: u16 = 2;

/// The flags of a receive.
#[derive(Copy, Clone, Debug, PartialEq, Eq, Structural)]
pub struct RiFlags {
    pub bits: u16,
}

/// The flags that a receive returns. None is ever set by this library.
#[derive(Copy, Clone, Debug, PartialEq, Eq, Structural)]
pub struct RoFlags {
    pub bits: u16,
}

/// How a receive treats the data.
#[derive(Copy, Clone, Debug, PartialEq, Eq, Structural)]
pub enum ReceiveMode {
    /// Take one datagram off the socket.
    Plain,
    /// Return data and leave it on the socket.
    Peek,
    /// Wait until the buffers are full, or the stream ends.
    WaitAll,
}

/// The operations on a UDP socket that take two steps.
#[derive(Copy, Clone, Debug, PartialEq, Eq, Structural)]
pub enum UdpOperationKind {
    Bind,
    Connect,
}

/// An operation in flight, with its arguments.
pub enum UdpOperationView {
    Bind { network: Set<(IpAddress, u16)>, local_address: IpSocketAddress },
    Connect { network: Set<(IpAddress, u16)>, remote_address: IpSocketAddress },
}

/// A UDP socket as contracts speak of it.
pub struct UdpSocketView {
    pub address_family: AddressFamily,
    /// The binding, once the socket is bound.
    pub binding: Option<BindingView>,
    /// The peer, once the socket is connected. Without one, each datagram
    /// names its own.
    pub remote_address: Option<IpSocketAddress>,
    /// The operation in flight, if there is one.
    pub active_operation: Option<UdpOperationView>,
}

/// An operation that can change a UDP socket, with its arguments or with
/// the outcome of the native call.
pub enum UdpEvent {
    StartBind { network: Set<(IpAddress, u16)>, local_address: IpSocketAddress },
    FinishBind { outcome: Result<IpSocketAddress, OsError> },
    StartConnect { network: Set<(IpAddress, u16)>, remote_address: IpSocketAddress },
    FinishConnect { outcome: Result<IpSocketAddress, OsError> },
}

/// How a receive with the given flags treats the data. Peeking and waiting
/// for full buffers do not go together, and no other flag is known.
pub open spec fn receive_mode(flags: RiFlags) -> Result<ReceiveMode, NetworkError> {
    if flags.bits == 0 {
        Ok(ReceiveMode::Plain)
    } else if flags.bits == RECV_PEEK {
        Ok(ReceiveMode::Peek)
    } else if flags.bits == RECV_WAITALL {
        Ok(ReceiveMode::WaitAll)
    } else {
        Err(NetworkError::NotSupported)
    }
}

/// The sum of the lengths of some buffers.
pub open spec fn total_length(lengths: Seq<usize>) -> nat
    decreases lengths.len(),
{
    if lengths.len() == 0 {
        0
    } else {
        total_length(lengths.drop_last()) + lengths.last() as nat
    }
}

/// What a receive into buffers of the given lengths does. A peek reads into
/// the first buffer, and reads nothing where there is none. A receive that
/// waits reads as many bytes as the buffers hold together.
pub open spec fn sock_recv(lengths: Seq<usize>, flags: RiFlags) -> Result<
    Step<(u64, RoFlags)>,
    NetworkError,
> {
    match receive_mode(flags) {
        Ok(ReceiveMode::Plain) => Ok(Step::Call(NativeCall::Read)),
        Ok(ReceiveMode::Peek) => if lengths.len() == 0 {
            Ok(Step::Done((0, RoFlags { bits: 0 })))
        } else {
            Ok(Step::Call(NativeCall::Peek))
        },
        Ok(ReceiveMode::WaitAll) => if total_length(lengths) <= u64::MAX {
            Ok(Step::Call(NativeCall::ReadExact { length: total_length(lengths) as u64 }))
        } else {
            Err(NetworkError::NotSupported)
        },
        Err(error) => Err(error),
    }
}

impl UdpSocketView {
    /// What holds of every socket: an operation in flight fits the state it
    /// was started in, and the address it was started with is one for the
    /// socket's family that its network grants.
    pub open spec fn wf(self) -> bool {
        match self.active_operation {
            Some(UdpOperationView::Bind { network, local_address }) => {
                &&& self.binding is None
                &&& local_address.spec_family() == self.address_family
                &&& permits(network, local_address)
            },
            Some(UdpOperationView::Connect { network, remote_address }) => {
                &&& self.remote_address is None
                &&& remote_address.spec_is_valid_remote()
                &&& remote_address.spec_family() == self.address_family
                &&& permits(network, remote_address)
            },
            None => true,
        }
    }

    /// A socket as it is created.
    pub open spec fn fresh(address_family: AddressFamily) -> UdpSocketView {
        UdpSocketView {
            address_family,
            binding: None,
            remote_address: None,
            active_operation: None,
        }
    }

    /// What the rules for options look at in the socket.
    pub open spec fn status(self) -> SocketStatus {
        SocketStatus {
            address_family: self.address_family,
            bound: self.binding is Some,
            connected: self.remote_address is Some,
            busy: self.active_operation is Some,
        }
    }

    /// The kind of the operation in flight, if there is one.
    pub open spec fn in_flight(self) -> Option<UdpOperationKind> {
        match self.active_operation {
            Some(UdpOperationView::Bind { .. }) => Some(UdpOperationKind::Bind),
            Some(UdpOperationView::Connect { .. }) => Some(UdpOperationKind::Connect),
            None => None,
        }
    }

    /// The local address of a bound socket.
    pub open spec fn local_address(self) -> Result<IpSocketAddress, NetworkError> {
        match self.binding {
            Some(binding) => Ok(binding.local_address),
            None => Err(NetworkError::NotBound),
        }
    }

    /// The address of the peer of a connected socket.
    pub open spec fn peer_address(self) -> Result<IpSocketAddress, NetworkError> {
        match self.remote_address {
            Some(remote_address) => Ok(remote_address),
            None => Err(NetworkError::NotConnected),
        }
    }

    /// What `start_bind` makes of the socket, and what it returns. A bind
    /// starts on an unbound socket with no operation in flight, for an
    /// address of the socket's family that the network grants.
    pub open spec fn start_bind(
        self,
        network: Set<(IpAddress, u16)>,
        local_address: IpSocketAddress,
    ) -> (UdpSocketView, Result<(), NetworkError>) {
        if self.active_operation is Some {
            (self, Err(NetworkError::ConcurrencyConflict))
        } else if self.binding is Some {
            (self, Err(NetworkError::AlreadyBound))
        } else if local_address.spec_family() != self.address_family {
            (self, Err(NetworkError::AddressFamilyMismatch))
        } else if !permits(network, local_address) {
            (self, Err(NetworkError::AccessDenied))
        } else {
            (
                UdpSocketView {
                    active_operation: Some(UdpOperationView::Bind { network, local_address }),
                    ..self
                },
                Ok(()),
            )
        }
    }

    /// The native call that finishes the bind in flight.
    pub open spec fn bind_request(self) -> Result<NativeCall, NetworkError> {
        match self.active_operation {
            Some(UdpOperationView::Bind { local_address, .. }) => Ok(
                NativeCall::Bind { address: local_address },
            ),
            _ => Err(NetworkError::NotInProgress),
        }
    }

    /// What `finish_bind` makes of the socket, and what it returns. With a
    /// bind in flight the slot is cleared, and where the operating system
    /// has bound the socket, the socket is bound to the address that the
    /// operating system reports.
    pub open spec fn finish_bind(self, outcome: Result<IpSocketAddress, OsError>) -> (
        UdpSocketView,
        Result<(), NetworkError>,
    ) {
        match (self.active_operation, outcome) {
            (Some(UdpOperationView::Bind { network, .. }), Ok(local_address)) => (
                UdpSocketView {
                    binding: Some(BindingView { network, local_address }),
                    active_operation: None,
                    ..self
                },
                Ok(()),
            ),
            (Some(UdpOperationView::Bind { .. }), Err(errno)) => (
                UdpSocketView { active_operation: None, ..self },
                Err(general_error(errno)),
            ),
            _ => (self, Err(NetworkError::NotInProgress)),
        }
    }

    /// What `start_connect` makes of the socket, and what it returns. A
    /// connect starts on a socket without a peer and with no operation in
    /// flight, for a remote address of the socket's family that names a peer
    /// and that the network grants.
    pub open spec fn start_connect(
        self,
        network: Set<(IpAddress, u16)>,
        remote_address: IpSocketAddress,
    ) -> (UdpSocketView, Result<(), NetworkError>) {
        if self.active_operation is Some {
            (self, Err(NetworkError::ConcurrencyConflict))
        } else if self.remote_address is Some {
            (self, Err(NetworkError::AlreadyConnected))
        } else if !remote_address.spec_is_valid_remote() {
            (self, Err(NetworkError::InvalidRemoteAddress))
        } else if remote_address.spec_family() != self.address_family {
            (self, Err(NetworkError::AddressFamilyMismatch))
        } else if !permits(network, remote_address) {
            (self, Err(NetworkError::AccessDenied))
        } else {
            (
                UdpSocketView {
                    active_operation: Some(UdpOperationView::Connect { network, remote_address }),
                    ..self
                },
                Ok(()),
            )
        }
    }

    /// The native call that finishes the connect in flight.
    pub open spec fn connect_request(self) -> Result<NativeCall, NetworkError> {
        match self.active_operation {
            Some(UdpOperationView::Connect { remote_address, .. }) => Ok(
                NativeCall::Connect { address: remote_address },
            ),
            _ => Err(NetworkError::NotInProgress),
        }
    }

    /// What `finish_connect` makes of the socket, and what it returns. With
    /// a connect in flight: where the operating system has connected, the
    /// socket has its peer, the local address that the operating system
    /// reports, and the network that it was bound through, or else connected
    /// through. Where the operating system would block, the connect stays in
    /// flight. On any other error the socket is as it was before the connect
    /// started.
    pub open spec fn finish_connect(self, outcome: Result<IpSocketAddress, OsError>) -> (
        UdpSocketView,
        Result<(), NetworkError>,
    ) {
        match (self.active_operation, outcome) {
            (Some(UdpOperationView::Connect { network, remote_address }), Ok(local_address)) => (
                UdpSocketView {
                    binding: Some(
                        BindingView {
                            network: match self.binding {
                                Some(binding) => binding.network,
                                None => network,
                            },
                            local_address,
                        },
                    ),
                    remote_address: Some(remote_address),
                    active_operation: None,
                    ..self
                },
                Ok(()),
            ),
            (Some(UdpOperationView::Connect { .. }), Err(errno)) => if general_error(errno)
                == NetworkError::WouldBlock {
                (self, Err(NetworkError::WouldBlock))
            } else {
                (UdpSocketView { active_operation: None, ..self }, Err(general_error(errno)))
            },
            _ => (self, Err(NetworkError::NotInProgress)),
        }
    }

    /// The native call that receives a datagram: from the peer of a
    /// connected socket, and else from anyone.
    pub open spec fn receive(self) -> NativeCall {
        if self.remote_address is Some {
            NativeCall::Receive
        } else {
            NativeCall::ReceiveFrom
        }
    }

    /// The native call that sends a datagram. A connected socket sends to
    /// its peer, and to no other destination. A socket without a peer needs
    /// a destination with each datagram: one that names a peer, of the
    /// socket's family, that the network of its binding grants.
    pub open spec fn send(self, destination: Option<IpSocketAddress>) -> Result<
        NativeCall,
        NetworkError,
    > {
        match (self.remote_address, destination) {
            (Some(_), None) => Ok(NativeCall::Send),
            (Some(peer), Some(address)) => if address == peer {
                Ok(NativeCall::Send)
            } else {
                Err(NetworkError::AlreadyConnected)
            },
            (None, None) => Err(NetworkError::NotConnected),
            (None, Some(address)) => if !address.spec_is_valid_remote() {
                Err(NetworkError::InvalidRemoteAddress)
            } else if address.spec_family() != self.address_family {
                Err(NetworkError::AddressFamilyMismatch)
            } else {
                match self.binding {
                    None => Err(NetworkError::NotBound),
                    Some(binding) => if permits(binding.network, address) {
                        Ok(NativeCall::SendTo { address })
                    } else {
                        Err(NetworkError::AccessDenied)
                    },
                }
            },
        }
    }

    /// The socket after an operation that can change it.
    pub open spec fn next(self, event: UdpEvent) -> UdpSocketView {
        match event {
            UdpEvent::StartBind { network, local_address } => self.start_bind(
                network,
                local_address,
            ).0,
            UdpEvent::FinishBind { outcome } => self.finish_bind(outcome).0,
            UdpEvent::StartConnect { network, remote_address } => self.start_connect(
                network,
                remote_address,
            ).0,
            UdpEvent::FinishConnect { outcome } => self.finish_connect(outcome).0,
        }
    }

    /// What the operation returns.
    pub open spec fn reply(self, event: UdpEvent) -> Result<(), NetworkError> {
        match event {
            UdpEvent::StartBind { network, local_address } => self.start_bind(
                network,
                local_address,
            ).1,
            UdpEvent::FinishBind { outcome } => self.finish_bind(outcome).1,
            UdpEvent::StartConnect { network, remote_address } => self.start_connect(
                network,
                remote_address,
            ).1,
            UdpEvent::FinishConnect { outcome } => self.finish_connect(outcome).1,
        }
    }

    /// The socket after a sequence of operations, the first of them first.
    pub open spec fn after(self, events: Seq<UdpEvent>) -> UdpSocketView
        decreases events.len(),
    {
        if events.len() == 0 {
            self
        } else {
            self.next(events.first()).after(events.drop_first())
        }
    }
}

impl UdpEvent {
    /// The kind of operation that the event starts, if it is a start.
    pub open spec fn starts(self) -> Option<UdpOperationKind> {
        match self {
            UdpEvent::StartBind { .. } => Some(UdpOperationKind::Bind),
            UdpEvent::StartConnect { .. } => Some(UdpOperationKind::Connect),
            _ => None,
        }
    }

    /// The kind of operation that the event finishes, if it is a finish.
    pub open spec fn finishes(self) -> Option<UdpOperationKind> {
        match self {
            UdpEvent::FinishBind { .. } => Some(UdpOperationKind::Bind),
            UdpEvent::FinishConnect { .. } => Some(UdpOperationKind::Connect),
            _ => None,
        }
    }
}

} // verus!
