//! The TCP socket as contracts speak of it: its states, and what each
//! operation makes of it and returns.

use crate::address::{AddressFamily, IpAddress, IpSocketAddress};
use crate::error::{general_error, NetworkError, OsError};
use crate::native::{AcceptedConnection, NativeCall, ShutdownType, Step};
use crate::network::{permits, BindingView};
use crate::options::{native_backlog, SocketStatus};
use vstd::prelude::*;

verus! {

/// The backlog size of a socket that has not been given another.
pub const DEFAULT_LISTEN_BACKLOG_SIZE: u64 = 1024;

/// An operation in flight, with its arguments.
pub enum TcpOperationView {
    Bind { network: Set<(IpAddress, u16)>, local_address: IpSocketAddress },
    Listen { network: Set<(IpAddress, u16)> },
    Connect { network: Set<(IpAddress, u16)>, remote_address: IpSocketAddress },
}

/// The lifecycle state of a TCP socket.
#[allow(inconsistent_fields)]
pub enum TcpStateView {
    /// Neither listening nor connected yet.
    Indeterminate {
        /// The backlog size that listening will ask for.
        listen_backlog_size: u64,
        /// The binding, once a bind has succeeded.
        binding: Option<BindingView>,
        /// The operation in flight, if there is one.
        active_operation: Option<TcpOperationView>,
    },
    /// Listening for connections.
    Listener { binding: BindingView },
    /// Connected to a peer.
    Connection {
        binding: BindingView,
        remote_address: IpSocketAddress,
        /// Whether the receiving side has been shut down.
        receive_closed: bool,
        /// Whether the sending side has been shut down.
        send_closed: bool,
    },
}

/// A TCP socket as contracts speak of it.
pub struct TcpSocketView {
    pub address_family: AddressFamily,
    pub state: TcpStateView,
}

/// The three states of a TCP socket, without what a socket holds in them.
#[derive(Copy, Clone, Debug, PartialEq, Eq, Structural)]
pub enum Lifecycle {
    Indeterminate,
    Listener,
    Connection,
}

/// The operations that take two steps.
#[derive(Copy, Clone, Debug, PartialEq, Eq, Structural)]
pub enum OperationKind {
    Bind,
    Listen,
    Connect,
}

/// An operation that can change a TCP socket, with its arguments and, where
/// the operating system has a part in it, with the outcome of the native
/// call.
#[allow(inconsistent_fields)]
pub enum TcpEvent {
    StartBind { network: Set<(IpAddress, u16)>, local_address: IpSocketAddress },
    FinishBind { outcome: Result<IpSocketAddress, OsError> },
    StartListen { network: Set<(IpAddress, u16)> },
    FinishListen { outcome: Result<(), OsError> },
    StartConnect { network: Set<(IpAddress, u16)>, remote_address: IpSocketAddress },
    FinishConnect { outcome: Result<IpSocketAddress, OsError> },
    SetListenBacklogSize { value: u64 },
    Shutdown { how: ShutdownType, outcome: Result<(), OsError> },
}

impl TcpSocketView {
    /// The binding of the socket, if it is bound.
    pub open spec fn binding(self) -> Option<BindingView> {
        match self.state {
            TcpStateView::Indeterminate { binding, .. } => binding,
            TcpStateView::Listener { binding } => Some(binding),
            TcpStateView::Connection { binding, .. } => Some(binding),
        }
    }

    /// The operation in flight, if there is one.
    pub open spec fn active_operation(self) -> Option<TcpOperationView> {
        match self.state {
            TcpStateView::Indeterminate { active_operation, .. } => active_operation,
            TcpStateView::Listener { .. } => None,
            TcpStateView::Connection { .. } => None,
        }
    }

    /// What holds of every socket: an operation in flight fits the state it
    /// was started in, and the address it was started with is one for the
    /// socket's family that its network grants.
    pub open spec fn wf(self) -> bool {
        match self.active_operation() {
            Some(TcpOperationView::Bind { network, local_address }) => {
                &&& self.binding() is None
                &&& local_address.spec_family() == self.address_family
                &&& permits(network, local_address)
            },
            Some(TcpOperationView::Listen { .. }) => self.binding() is Some,
            Some(TcpOperationView::Connect { network, remote_address }) => {
                &&& remote_address.spec_is_valid_remote()
                &&& remote_address.spec_family() == self.address_family
                &&& permits(network, remote_address)
            },
            None => true,
        }
    }

    /// A socket as it is created.
    pub open spec fn fresh(address_family: AddressFamily) -> TcpSocketView {
        TcpSocketView {
            address_family,
            state: TcpStateView::Indeterminate {
                listen_backlog_size: DEFAULT_LISTEN_BACKLOG_SIZE,
                binding: None,
                active_operation: None,
            },
        }
    }

    /// The socket for a native socket that was in use before it got here,
    /// with the network that it is to belong to from now on. Its state is
    /// what its addresses tell: with a peer it is a connection, without one a
    /// listener if it listens, and else indeterminate, bound if it has a local
    /// address. Without a local address it is as a fresh socket.
    pub open spec fn adopted(
        address_family: AddressFamily,
        network: Set<(IpAddress, u16)>,
        local_address: Option<IpSocketAddress>,
        remote_address: Option<IpSocketAddress>,
        listening: bool,
    ) -> TcpSocketView {
        match (local_address, remote_address) {
            (Some(local_address), Some(remote_address)) => TcpSocketView {
                address_family,
                state: TcpStateView::Connection {
                    binding: BindingView { network, local_address },
                    remote_address,
                    receive_closed: false,
                    send_closed: false,
                },
            },
            (Some(local_address), None) => TcpSocketView {
                address_family,
                state: if listening {
                    TcpStateView::Listener { binding: BindingView { network, local_address } }
                } else {
                    TcpStateView::Indeterminate {
                        listen_backlog_size: DEFAULT_LISTEN_BACKLOG_SIZE,
                        binding: Some(BindingView { network, local_address }),
                        active_operation: None,
                    }
                },
            },
            (None, _) => TcpSocketView::fresh(address_family),
        }
    }

    /// The socket with another operation, or none, in flight. Only an
    /// indeterminate socket has a place for one.
    pub open spec fn with_operation(self, operation: Option<TcpOperationView>) -> TcpSocketView {
        match self.state {
            TcpStateView::Indeterminate { listen_backlog_size, binding, .. } => TcpSocketView {
                state: TcpStateView::Indeterminate {
                    listen_backlog_size,
                    binding,
                    active_operation: operation,
                },
                ..self
            },
            _ => self,
        }
    }

    /// `AlreadyBound` for a socket that is bound.
    pub open spec fn validate_not_bound(self) -> Result<(), NetworkError> {
        if self.binding() is Some {
            Err(NetworkError::AlreadyBound)
        } else {
            Ok(())
        }
    }

    /// `NotConnected` for a socket that is no connection.
    pub open spec fn validate_connected(self) -> Result<(), NetworkError> {
        if self.state is Connection {
            Ok(())
        } else {
            Err(NetworkError::NotConnected)
        }
    }

    /// `AlreadyConnected` for a connection.
    pub open spec fn validate_not_connected(self) -> Result<(), NetworkError> {
        if self.state is Connection {
            Err(NetworkError::AlreadyConnected)
        } else {
            Ok(())
        }
    }

    /// `ConcurrencyConflict` while an operation is in flight.
    pub open spec fn validate_no_active_operation(self) -> Result<(), NetworkError> {
        if self.active_operation() is Some {
            Err(NetworkError::ConcurrencyConflict)
        } else {
            Ok(())
        }
    }

    /// `Ipv6OnlyOperation` for a socket of another family than IPv6.
    pub open spec fn validate_is_ipv6(self) -> Result<(), NetworkError> {
        if self.address_family == AddressFamily::INET6 {
            Ok(())
        } else {
            Err(NetworkError::Ipv6OnlyOperation)
        }
    }

    /// Which of its three states the socket is in.
    pub open spec fn lifecycle(self) -> Lifecycle {
        match self.state {
            TcpStateView::Indeterminate { .. } => Lifecycle::Indeterminate,
            TcpStateView::Listener { .. } => Lifecycle::Listener,
            TcpStateView::Connection { .. } => Lifecycle::Connection,
        }
    }

    /// The backlog size that an indeterminate socket keeps for when it
    /// listens.
    pub open spec fn listen_backlog_size(self) -> Option<u64> {
        match self.state {
            TcpStateView::Indeterminate { listen_backlog_size, .. } => Some(listen_backlog_size),
            _ => None,
        }
    }

    /// What the rules for options look at in the socket.
    pub open spec fn status(self) -> SocketStatus {
        SocketStatus {
            address_family: self.address_family,
            bound: self.binding() is Some,
            connected: self.state is Connection,
            busy: self.active_operation() is Some,
        }
    }

    /// The local address of a bound socket.
    pub open spec fn local_address(self) -> Result<IpSocketAddress, NetworkError> {
        match self.binding() {
            Some(binding) => Ok(binding.local_address),
            None => Err(NetworkError::NotBound),
        }
    }

    /// The address of the peer of a connection.
    pub open spec fn remote_address(self) -> Result<IpSocketAddress, NetworkError> {
        match self.state {
            TcpStateView::Connection { remote_address, .. } => Ok(remote_address),
            _ => Err(NetworkError::NotConnected),
        }
    }

    /// What `start_bind` makes of the socket, and what it returns. A bind
    /// starts on an unbound socket with no operation in flight, for an
    /// address of the socket's family that the network grants.
    pub open spec fn start_bind(
        self,
        network: Set<(IpAddress, u16)>,
        local_address: IpSocketAddress,
    ) -> (TcpSocketView, Result<(), NetworkError>) {
        if self.active_operation() is Some {
            (self, Err(NetworkError::ConcurrencyConflict))
        } else if self.binding() is Some {
            (self, Err(NetworkError::AlreadyBound))
        } else if local_address.spec_family() != self.address_family {
            (self, Err(NetworkError::AddressFamilyMismatch))
        } else if !permits(network, local_address) {
            (self, Err(NetworkError::AccessDenied))
        } else {
            (self.with_operation(Some(TcpOperationView::Bind { network, local_address })), Ok(()))
        }
    }

    /// The native call that finishes the bind in flight.
    pub open spec fn bind_request(self) -> Result<NativeCall, NetworkError> {
        match self.active_operation() {
            Some(TcpOperationView::Bind { local_address, .. }) => Ok(
                NativeCall::Bind { address: local_address },
            ),
            _ => Err(NetworkError::NotInProgress),
        }
    }

    /// What `finish_bind` makes of the socket, and what it returns. With a
    /// bind in flight the slot is cleared, and where the operating system
    /// has bound the socket, the socket is bound to the address that the
    /// operating system reports.
    pub open spec fn finish_bind(self, outcome: Result<IpSocketAddress, OsError>) -> (
        TcpSocketView,
        Result<(), NetworkError>,
    ) {
        match (self.state, outcome) {
            (
                TcpStateView::Indeterminate {
                    listen_backlog_size,
                    active_operation: Some(TcpOperationView::Bind { network, .. }),
                    ..
                },
                Ok(local_address),
            ) => (
                TcpSocketView {
                    state: TcpStateView::Indeterminate {
                        listen_backlog_size,
                        binding: Some(BindingView { network, local_address }),
                        active_operation: None,
                    },
                    ..self
                },
                Ok(()),
            ),
            (
                TcpStateView::Indeterminate {
                    active_operation: Some(TcpOperationView::Bind { .. }),
                    ..
                },
                Err(errno),
            ) => (self.with_operation(None), Err(general_error(errno))),
            _ => (self, Err(NetworkError::NotInProgress)),
        }
    }

    /// What `start_listen` makes of the socket, and what it returns.
    /// Listening starts on a bound, indeterminate socket with no operation in
    /// flight.
    pub open spec fn start_listen(self, network: Set<(IpAddress, u16)>) -> (
        TcpSocketView,
        Result<(), NetworkError>,
    ) {
        match self.state {
            TcpStateView::Indeterminate { active_operation: Some(_), .. } => (
                self,
                Err(NetworkError::ConcurrencyConflict),
            ),
            TcpStateView::Indeterminate { binding: None, .. } => (
                self,
                Err(NetworkError::NotBound),
            ),
            TcpStateView::Indeterminate { .. } => (
                self.with_operation(Some(TcpOperationView::Listen { network })),
                Ok(()),
            ),
            TcpStateView::Listener { .. } => (self, Err(NetworkError::AlreadyListening)),
            TcpStateView::Connection { .. } => (self, Err(NetworkError::AlreadyConnected)),
        }
    }

    /// The native call that finishes the listen in flight.
    pub open spec fn listen_request(self) -> Result<NativeCall, NetworkError> {
        match self.state {
            TcpStateView::Indeterminate {
                listen_backlog_size,
                active_operation: Some(TcpOperationView::Listen { .. }),
                ..
            } => Ok(NativeCall::Listen { backlog: native_backlog(listen_backlog_size) }),
            _ => Err(NetworkError::NotInProgress),
        }
    }

    /// What `finish_listen` makes of the socket, and what it returns. With a
    /// listen in flight the socket becomes a listener where the operating
    /// system listens, and else stays as it was before the listen started.
    pub open spec fn finish_listen(self, outcome: Result<(), OsError>) -> (
        TcpSocketView,
        Result<(), NetworkError>,
    ) {
        match (self.state, outcome) {
            (
                TcpStateView::Indeterminate {
                    binding: Some(binding),
                    active_operation: Some(TcpOperationView::Listen { .. }),
                    ..
                },
                Ok(()),
            ) => (TcpSocketView { state: TcpStateView::Listener { binding }, ..self }, Ok(())),
            (
                TcpStateView::Indeterminate {
                    binding: None,
                    active_operation: Some(TcpOperationView::Listen { .. }),
                    ..
                },
                Ok(()),
            ) => (self.with_operation(None), Err(NetworkError::NotBound)),
            (
                TcpStateView::Indeterminate {
                    active_operation: Some(TcpOperationView::Listen { .. }),
                    ..
                },
                Err(errno),
            ) => (self.with_operation(None), Err(general_error(errno))),
            _ => (self, Err(NetworkError::NotInProgress)),
        }
    }

    /// What `start_connect` makes of the socket, and what it returns. A
    /// connect starts on an indeterminate socket with no operation in
    /// flight, for a remote address of the socket's family that names a peer
    /// and that the network grants.
    pub open spec fn start_connect(
        self,
        network: Set<(IpAddress, u16)>,
        remote_address: IpSocketAddress,
    ) -> (TcpSocketView, Result<(), NetworkError>) {
        if self.active_operation() is Some {
            (self, Err(NetworkError::ConcurrencyConflict))
        } else if self.state is Connection {
            (self, Err(NetworkError::AlreadyConnected))
        } else if self.state is Listener {
            (self, Err(NetworkError::AlreadyListening))
        } else if !remote_address.spec_is_valid_remote() {
            (self, Err(NetworkError::InvalidRemoteAddress))
        } else if remote_address.spec_family() != self.address_family {
            (self, Err(NetworkError::AddressFamilyMismatch))
        } else if !permits(network, remote_address) {
            (self, Err(NetworkError::AccessDenied))
        } else {
            (
                self.with_operation(Some(TcpOperationView::Connect { network, remote_address })),
                Ok(()),
            )
        }
    }

    /// The native call that finishes the connect in flight.
    pub open spec fn connect_request(self) -> Result<NativeCall, NetworkError> {
        match self.active_operation() {
            Some(TcpOperationView::Connect { remote_address, .. }) => Ok(
                NativeCall::Connect { address: remote_address },
            ),
            _ => Err(NetworkError::NotInProgress),
        }
    }

    /// What `finish_connect` makes of the socket, and what it returns. With a
    /// connect in flight: where the operating system has connected, the
    /// socket becomes a connection, with the local address that the operating
    /// system reports and under the network that it was bound through, or
    /// else connected through. Where the operating system would block, the
    /// connect stays in flight. On any other error the socket is as it was
    /// before the connect started.
    pub open spec fn finish_connect(self, outcome: Result<IpSocketAddress, OsError>) -> (
        TcpSocketView,
        Result<(), NetworkError>,
    ) {
        match (self.state, outcome) {
            (
                TcpStateView::Indeterminate {
                    binding,
                    active_operation: Some(TcpOperationView::Connect { network, remote_address }),
                    ..
                },
                Ok(local_address),
            ) => (
                TcpSocketView {
                    state: TcpStateView::Connection {
                        binding: BindingView {
                            network: match binding {
                                Some(binding) => binding.network,
                                None => network,
                            },
                            local_address,
                        },
                        remote_address,
                        receive_closed: false,
                        send_closed: false,
                    },
                    ..self
                },
                Ok(()),
            ),
            (
                TcpStateView::Indeterminate {
                    active_operation: Some(TcpOperationView::Connect { .. }),
                    ..
                },
                Err(errno),
            ) => if general_error(errno) == NetworkError::WouldBlock {
                (self, Err(NetworkError::WouldBlock))
            } else {
                (self.with_operation(None), Err(general_error(errno)))
            },
            _ => (self, Err(NetworkError::NotInProgress)),
        }
    }

    /// The native call that accepts a connection, on a listener.
    pub open spec fn accept_request(self) -> Result<NativeCall, NetworkError> {
        if self.state is Listener {
            Ok(NativeCall::Accept)
        } else {
            Err(NetworkError::NotListening)
        }
    }

    /// What `accept` returns: on a listener, for a connection that the
    /// operating system has accepted, a socket of the listener's family that
    /// is connected under the listener's network.
    pub open spec fn accept(self, outcome: Result<AcceptedConnection, OsError>) -> Result<
        TcpSocketView,
        NetworkError,
    > {
        match (self.state, outcome) {
            (TcpStateView::Listener { binding }, Ok(accepted)) => Ok(
                TcpSocketView {
                    address_family: self.address_family,
                    state: TcpStateView::Connection {
                        binding: BindingView {
                            network: binding.network,
                            local_address: accepted.local_address,
                        },
                        remote_address: accepted.remote_address,
                        receive_closed: false,
                        send_closed: false,
                    },
                },
            ),
            (TcpStateView::Listener { .. }, Err(errno)) => Err(general_error(errno)),
            _ => Err(NetworkError::NotListening),
        }
    }

    /// The native call that shuts a connection down.
    pub open spec fn shutdown_request(self, how: ShutdownType) -> Result<NativeCall, NetworkError> {
        if self.active_operation() is Some {
            Err(NetworkError::ConcurrencyConflict)
        } else if !(self.state is Connection) {
            Err(NetworkError::NotConnected)
        } else {
            Ok(NativeCall::Shutdown { how })
        }
    }

    /// What `shutdown` makes of the socket, and what it returns. Where the
    /// operating system has shut the connection down, the socket remembers
    /// which sides are closed.
    pub open spec fn shutdown(self, how: ShutdownType, outcome: Result<(), OsError>) -> (
        TcpSocketView,
        Result<(), NetworkError>,
    ) {
        match (self.state, outcome) {
            (
                TcpStateView::Connection { binding, remote_address, receive_closed, send_closed },
                Ok(()),
            ) => (
                TcpSocketView {
                    state: TcpStateView::Connection {
                        binding,
                        remote_address,
                        receive_closed: receive_closed || how.spec_closes_receive(),
                        send_closed: send_closed || how.spec_closes_send(),
                    },
                    ..self
                },
                Ok(()),
            ),
            (TcpStateView::Connection { .. }, Err(_)) => (self, Err(NetworkError::NotSupported)),
            (TcpStateView::Indeterminate { active_operation: Some(_), .. }, _) => (
                self,
                Err(NetworkError::ConcurrencyConflict),
            ),
            _ => (self, Err(NetworkError::NotConnected)),
        }
    }

    /// What `set_listen_backlog_size` makes of the socket, and what it
    /// returns. An indeterminate socket keeps the size for when it listens,
    /// a listener has the host listen again with it.
    pub open spec fn set_listen_backlog_size(self, value: u64) -> (
        TcpSocketView,
        Result<Step<()>, NetworkError>,
    ) {
        match self.state {
            TcpStateView::Indeterminate { active_operation: Some(_), .. } => (
                self,
                Err(NetworkError::ConcurrencyConflict),
            ),
            TcpStateView::Indeterminate { binding, active_operation, .. } => (
                TcpSocketView {
                    state: TcpStateView::Indeterminate {
                        listen_backlog_size: value,
                        binding,
                        active_operation,
                    },
                    ..self
                },
                Ok(Step::Done(())),
            ),
            TcpStateView::Listener { .. } => (
                self,
                Ok(Step::Call(NativeCall::Listen { backlog: native_backlog(value) })),
            ),
            TcpStateView::Connection { .. } => (self, Err(NetworkError::AlreadyConnected)),
        }
    }

    /// Whether the socket is a connection whose receiving side is open.
    pub open spec fn can_receive(self) -> bool {
        self.state matches TcpStateView::Connection { receive_closed, .. } && !receive_closed
    }

    /// Whether the socket is a connection whose sending side is open.
    pub open spec fn can_send(self) -> bool {
        self.state matches TcpStateView::Connection { send_closed, .. } && !send_closed
    }

    /// What a read on the input stream does: a connection whose receiving
    /// side was shut down is at its end, whatever the operating system would
    /// say.
    pub open spec fn read(self) -> Result<Step<(u64, bool)>, NetworkError> {
        if !(self.state is Connection) {
            Err(NetworkError::NotConnected)
        } else if !self.can_receive() {
            Ok(Step::Done((0, true)))
        } else {
            Ok(Step::Call(NativeCall::Read))
        }
    }

    /// What skipping `length` bytes of the input stream does.
    pub open spec fn skip(self, length: u64) -> Result<Step<(u64, bool)>, NetworkError> {
        if !(self.state is Connection) {
            Err(NetworkError::NotConnected)
        } else if !self.can_receive() {
            Ok(Step::Done((0, true)))
        } else {
            Ok(Step::Call(NativeCall::Skip { length }))
        }
    }

    /// What asking for the number of bytes ready to be read does.
    pub open spec fn num_ready_bytes(self) -> Result<Step<u64>, NetworkError> {
        if !(self.state is Connection) {
            Err(NetworkError::NotConnected)
        } else if !self.can_receive() {
            Ok(Step::Done(0))
        } else {
            Ok(Step::Call(NativeCall::ReadyBytes))
        }
    }

    /// The native call that tells whether the input stream can be read.
    pub open spec fn readable(self) -> Result<NativeCall, NetworkError> {
        if self.can_receive() {
            Ok(NativeCall::ReadWrite)
        } else {
            Err(NetworkError::NotConnected)
        }
    }

    /// `call`, for the output stream of a connection whose sending side is
    /// open: a write to any other socket fails.
    pub open spec fn output(self, call: NativeCall) -> Result<NativeCall, NetworkError> {
        if self.can_send() {
            Ok(call)
        } else {
            Err(NetworkError::NotConnected)
        }
    }

    /// The socket after an operation that can change it.
    pub open spec fn next(self, event: TcpEvent) -> TcpSocketView {
        match event {
            TcpEvent::StartBind { network, local_address } => self.start_bind(
                network,
                local_address,
            ).0,
            TcpEvent::FinishBind { outcome } => self.finish_bind(outcome).0,
            TcpEvent::StartListen { network } => self.start_listen(network).0,
            TcpEvent::FinishListen { outcome } => self.finish_listen(outcome).0,
            TcpEvent::StartConnect { network, remote_address } => self.start_connect(
                network,
                remote_address,
            ).0,
            TcpEvent::FinishConnect { outcome } => self.finish_connect(outcome).0,
            TcpEvent::SetListenBacklogSize { value } => self.set_listen_backlog_size(value).0,
            TcpEvent::Shutdown { how, outcome } => self.shutdown(how, outcome).0,
        }
    }

    /// What the operation returns, apart from a native call to make.
    pub open spec fn reply(self, event: TcpEvent) -> Result<(), NetworkError> {
        match event {
            TcpEvent::StartBind { network, local_address } => self.start_bind(
                network,
                local_address,
            ).1,
            TcpEvent::FinishBind { outcome } => self.finish_bind(outcome).1,
            TcpEvent::StartListen { network } => self.start_listen(network).1,
            TcpEvent::FinishListen { outcome } => self.finish_listen(outcome).1,
            TcpEvent::StartConnect { network, remote_address } => self.start_connect(
                network,
                remote_address,
            ).1,
            TcpEvent::FinishConnect { outcome } => self.finish_connect(outcome).1,
            TcpEvent::SetListenBacklogSize { value } => match self.set_listen_backlog_size(value).1 {
                Ok(_) => Ok(()),
                Err(error) => Err(error),
            },
            TcpEvent::Shutdown { how, outcome } => self.shutdown(how, outcome).1,
        }
    }

    /// The socket after a sequence of operations, the first of them first.
    pub open spec fn after(self, events: Seq<TcpEvent>) -> TcpSocketView
        decreases events.len(),
    {
        if events.len() == 0 {
            self
        } else {
            self.next(events.first()).after(events.drop_first())
        }
    }

    /// The kind of the operation in flight, if there is one.
    pub open spec fn in_flight(self) -> Option<OperationKind> {
        match self.active_operation() {
            Some(TcpOperationView::Bind { .. }) => Some(OperationKind::Bind),
            Some(TcpOperationView::Listen { .. }) => Some(OperationKind::Listen),
            Some(TcpOperationView::Connect { .. }) => Some(OperationKind::Connect),
            None => None,
        }
    }
}

impl TcpEvent {
    /// The kind of operation that the event starts, if it is a start.
    pub open spec fn starts(self) -> Option<OperationKind> {
        match self {
            TcpEvent::StartBind { .. } => Some(OperationKind::Bind),
            TcpEvent::StartListen { .. } => Some(OperationKind::Listen),
            TcpEvent::StartConnect { .. } => Some(OperationKind::Connect),
            _ => None,
        }
    }

    /// The kind of operation that the event finishes, if it is a finish.
    pub open spec fn finishes(self) -> Option<OperationKind> {
        match self {
            TcpEvent::FinishBind { .. } => Some(OperationKind::Bind),
            TcpEvent::FinishListen { .. } => Some(OperationKind::Listen),
            TcpEvent::FinishConnect { .. } => Some(OperationKind::Connect),
            _ => None,
        }
    }
}

} // verus!
