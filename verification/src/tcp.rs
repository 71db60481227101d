//! The TCP socket state machine.
//!
//! A socket is indeterminate, a listener or a connection. An indeterminate
//! socket is bound, made a listener or connected in two steps each: `start_*`
//! checks the operation and records it as the one in flight, `finish_*`
//! commits what the operating system made of it. The host asks
//! [`TcpSocket::bind_request`], [`TcpSocket::listen_request`] or
//! [`TcpSocket::connect_request`] for the native call to make in between.
//!
//! [`model::TcpSocketView`] is the socket as contracts speak of it. Its
//! functions say what each operation returns and what it makes of the socket;
//! [`laws`] holds what follows for every socket.

pub mod laws;
pub mod model;

use crate::address::{AddressFamily, IpSocketAddress};
use crate::error::{general_error, map_general_error, NetworkError, OsError};
use crate::native::{AcceptedConnection, NativeCall, Platform, ShutdownType, Step};
use crate::network::{permits, Binding, Network};
use crate::options::{listen_backlog, SocketStatus};
use crate::tcp::model::{Lifecycle, OperationKind};
use crate::tcp::model::{TcpOperationView, TcpSocketView, TcpStateView};
use crate::tcp::model::DEFAULT_LISTEN_BACKLOG_SIZE;
use vstd::prelude::*;

verus! {

/// An in progress operation and its arguments.
enum TcpOperation {
    Bind { network: Network, local_address: IpSocketAddress },
    Listen { network: Network },
    Connect { network: Network, remote_address: IpSocketAddress },
}

#[allow(inconsistent_fields)]
enum TcpState {
    Indeterminate {
        listen_backlog_size: u64,
        binding: Option<Binding>,
        active_operation: Option<TcpOperation>,
    },
    Listener { binding: Binding },
    Connection {
        binding: Binding,
        remote_address: IpSocketAddress,
        receive_closed: bool,
        send_closed: bool,
    },
}

/// A TCP socket.
pub struct TcpSocket {
    address_family: AddressFamily,
    state: TcpState,
}

impl View for TcpOperation {
    type V = TcpOperationView;

    closed spec fn view(&self) -> TcpOperationView {
        match *self {
            TcpOperation::Bind { network, local_address } => TcpOperationView::Bind {
                network: network@,
                local_address,
            },
            TcpOperation::Listen { network } => TcpOperationView::Listen { network: network@ },
            TcpOperation::Connect { network, remote_address } => TcpOperationView::Connect {
                network: network@,
                remote_address,
            },
        }
    }
}

impl View for TcpState {
    type V = TcpStateView;

    closed spec fn view(&self) -> TcpStateView {
        match *self {
            TcpState::Indeterminate {
                listen_backlog_size,
                binding,
                active_operation,
            } => TcpStateView::Indeterminate {
                listen_backlog_size,
                binding: match binding {
                    Some(binding) => Some(binding@),
                    None => None,
                },
                active_operation: match active_operation {
                    Some(operation) => Some(operation@),
                    None => None,
                },
            },
            TcpState::Listener { binding } => TcpStateView::Listener { binding: binding@ },
            TcpState::Connection {
                binding,
                remote_address,
                receive_closed,
                send_closed,
            } => TcpStateView::Connection {
                binding: binding@,
                remote_address,
                receive_closed,
                send_closed,
            },
        }
    }
}

impl View for TcpSocket {
    type V = TcpSocketView;

    closed spec fn view(&self) -> TcpSocketView {
        TcpSocketView { address_family: self.address_family, state: self.state@ }
    }
}

impl TcpSocket {
    #[verifier::type_invariant]
    spec fn well_formed(&self) -> bool {
        self@.wf()
    }

    /// Creates the socket for a native socket that the host has asked the
    /// operating system for: a socket as [`TcpSocketView::fresh`] describes
    /// it, or the error that stands for what the operating system reported.
    pub fn new(address_family: AddressFamily, native: Result<(), OsError>) -> (socket: Result<
        TcpSocket,
        NetworkError,
    >)
        ensures
            match native {
                Ok(()) => socket is Ok && socket->Ok_0@ == TcpSocketView::fresh(address_family)
                    && socket->Ok_0@.wf(),
                Err(errno) => socket is Err && socket->Err_0 == general_error(errno),
            },
    {
        match native {
            Ok(()) => Ok(
                TcpSocket {
                    address_family,
                    state: TcpState::Indeterminate {
                        listen_backlog_size: DEFAULT_LISTEN_BACKLOG_SIZE,
                        binding: None,
                        active_operation: None,
                    },
                },
            ),
            Err(errno) => Err(map_general_error(errno)),
        }
    }

    /// The socket for a native socket that was in use before: the state is
    /// told by its local address, the address of its peer and whether it
    /// listens, as far as it has them. The socket belongs to `network` from
    /// now on.
    pub fn from_native(
        address_family: AddressFamily,
        network: Network,
        local_address: Option<IpSocketAddress>,
        remote_address: Option<IpSocketAddress>,
        listening: bool,
    ) -> (socket: TcpSocket)
        ensures
            socket@ == TcpSocketView::adopted(
                address_family,
                network@,
                local_address,
                remote_address,
                listening,
            ),
            socket@.wf(),
    {
        let state = match (local_address, remote_address) {
            (Some(local_address), Some(remote_address)) => TcpState::Connection {
                binding: Binding { network, local_address },
                remote_address,
                receive_closed: false,
                send_closed: false,
            },
            (Some(local_address), None) => if listening {
                TcpState::Listener { binding: Binding { network, local_address } }
            } else {
                TcpState::Indeterminate {
                    listen_backlog_size: DEFAULT_LISTEN_BACKLOG_SIZE,
                    binding: Some(Binding { network, local_address }),
                    active_operation: None,
                }
            },
            (None, _) => TcpState::Indeterminate {
                listen_backlog_size: DEFAULT_LISTEN_BACKLOG_SIZE,
                binding: None,
                active_operation: None,
            },
        };
        TcpSocket { address_family, state }
    }

    /// The socket for a native listener with the given local address: a
    /// listener of the family of that address.
    pub fn from_listener(network: Network, local_address: IpSocketAddress) -> (socket: TcpSocket)
        ensures
            socket@ == TcpSocketView::adopted(
                local_address.spec_family(),
                network@,
                Some(local_address),
                None,
                true,
            ),
            socket@.wf(),
    {
        TcpSocket::from_native(local_address.family(), network, Some(local_address), None, true)
    }

    /// The socket for a native stream with the given addresses: a connection
    /// of the family of the local address.
    pub fn from_stream(
        network: Network,
        local_address: IpSocketAddress,
        remote_address: IpSocketAddress,
    ) -> (socket: TcpSocket)
        ensures
            socket@ == TcpSocketView::adopted(
                local_address.spec_family(),
                network@,
                Some(local_address),
                Some(remote_address),
                false,
            ),
            socket@.wf(),
    {
        TcpSocket::from_native(
            local_address.family(),
            network,
            Some(local_address),
            Some(remote_address),
            false,
        )
    }

    /// Takes the state out of the socket, and leaves that of a fresh socket
    /// until the caller puts the next one in.
    fn take_state(&mut self) -> (state: TcpState)
        ensures
            state@ == old(self)@.state,
            final(self)@.address_family == old(self)@.address_family,
    {
        let mut state = TcpState::Indeterminate {
            listen_backlog_size: DEFAULT_LISTEN_BACKLOG_SIZE,
            binding: None,
            active_operation: None,
        };
        core::mem::swap(&mut self.state, &mut state);
        state
    }

    fn binding(&self) -> (binding: Option<&Binding>)
        ensures
            match binding {
                Some(binding) => self@.binding() == Some(binding@),
                None => self@.binding() is None,
            },
    {
        match &self.state {
            TcpState::Indeterminate { binding, .. } => binding.as_ref(),
            TcpState::Listener { binding } => Some(binding),
            TcpState::Connection { binding, .. } => Some(binding),
        }
    }

    fn active_operation(&self) -> (operation: Option<&TcpOperation>)
        ensures
            match operation {
                Some(operation) => self@.active_operation() == Some(operation@),
                None => self@.active_operation() is None,
            },
    {
        match &self.state {
            TcpState::Indeterminate { active_operation, .. } => active_operation.as_ref(),
            TcpState::Listener { .. } => None,
            TcpState::Connection { .. } => None,
        }
    }

    fn validate_not_bound(&self) -> (valid: Result<(), NetworkError>)
        ensures
            valid == self@.validate_not_bound(),
    {
        match self.binding() {
            Some(_) => Err(NetworkError::AlreadyBound),
            None => Ok(()),
        }
    }

    fn validate_connected(&self) -> (valid: Result<(), NetworkError>)
        ensures
            valid == self@.validate_connected(),
    {
        match &self.state {
            TcpState::Indeterminate { .. } | TcpState::Listener { .. } => Err(
                NetworkError::NotConnected,
            ),
            TcpState::Connection { .. } => Ok(()),
        }
    }

    fn validate_not_connected(&self) -> (valid: Result<(), NetworkError>)
        ensures
            valid == self@.validate_not_connected(),
    {
        match &self.state {
            TcpState::Indeterminate { .. } | TcpState::Listener { .. } => Ok(()),
            TcpState::Connection { .. } => Err(NetworkError::AlreadyConnected),
        }
    }

    fn validate_no_active_operation(&self) -> (valid: Result<(), NetworkError>)
        ensures
            valid == self@.validate_no_active_operation(),
    {
        match self.active_operation() {
            Some(_) => Err(NetworkError::ConcurrencyConflict),
            None => Ok(()),
        }
    }

    fn status(&self) -> (status: SocketStatus)
        ensures
            status == self@.status(),
    {
        SocketStatus {
            address_family: self.address_family,
            bound: self.binding().is_some(),
            connected: self.validate_connected().is_ok(),
            busy: self.active_operation().is_some(),
        }
    }

    /// The family that the socket was created for.
    pub fn address_family(&self) -> (family: AddressFamily)
        ensures
            family == self@.address_family,
    {
        self.address_family
    }

    /// Which of its three states the socket is in.
    pub fn lifecycle(&self) -> (lifecycle: Lifecycle)
        ensures
            lifecycle == self@.lifecycle(),
    {
        match &self.state {
            TcpState::Indeterminate { .. } => Lifecycle::Indeterminate,
            TcpState::Listener { .. } => Lifecycle::Listener,
            TcpState::Connection { .. } => Lifecycle::Connection,
        }
    }

    /// The kind of the operation in flight, if there is one.
    pub fn in_flight(&self) -> (kind: Option<OperationKind>)
        ensures
            kind == self@.in_flight(),
    {
        match self.active_operation() {
            Some(TcpOperation::Bind { .. }) => Some(OperationKind::Bind),
            Some(TcpOperation::Listen { .. }) => Some(OperationKind::Listen),
            Some(TcpOperation::Connect { .. }) => Some(OperationKind::Connect),
            None => None,
        }
    }

    /// The backlog size that the socket keeps for when it listens. A
    /// listener and a connection keep none.
    pub fn listen_backlog_size(&self) -> (size: Option<u64>)
        ensures
            size == self@.listen_backlog_size(),
    {
        match &self.state {
            TcpState::Indeterminate { listen_backlog_size, .. } => Some(*listen_backlog_size),
            _ => None,
        }
    }

    /// The network that the socket is bound through, once it is bound.
    pub fn network(&self) -> (network: Option<&Network>)
        ensures
            match network {
                Some(network) => self@.binding() matches Some(binding) && binding.network
                    == network@,
                None => self@.binding() is None,
            },
    {
        match self.binding() {
            Some(binding) => Some(&binding.network),
            None => None,
        }
    }

    /// The local address: `NotBound` until a bind has succeeded.
    pub fn local_address(&self) -> (address: Result<IpSocketAddress, NetworkError>)
        ensures
            address == self@.local_address(),
    {
        match self.binding() {
            Some(binding) => Ok(binding.local_address),
            None => Err(NetworkError::NotBound),
        }
    }

    /// The address of the peer: `NotConnected` unless the socket is a
    /// connection.
    pub fn remote_address(&self) -> (address: Result<IpSocketAddress, NetworkError>)
        ensures
            address == self@.remote_address(),
    {
        match &self.state {
            TcpState::Connection { remote_address, .. } => Ok(*remote_address),
            TcpState::Indeterminate { .. } => Err(NetworkError::NotConnected),
            TcpState::Listener { .. } => Err(NetworkError::NotConnected),
        }
    }

    /// Starts a bind: checks it and records it as the operation in flight.
    /// Nothing is asked of the operating system yet.
    pub fn start_bind(&mut self, network: &Network, local_address: IpSocketAddress) -> (started:
        Result<(), NetworkError>)
        ensures
            (final(self)@, started) == old(self)@.start_bind(network@, local_address),
            final(self)@.wf(),
    {
        proof {
            use_type_invariant(&*self);
        }
        self.validate_no_active_operation()?;
        self.validate_not_bound()?;
        if local_address.family() != self.address_family {
            return Err(NetworkError::AddressFamilyMismatch);
        }
        network.check(local_address)?;
        match self.take_state() {
            TcpState::Indeterminate { listen_backlog_size, binding, .. } => {
                self.state = TcpState::Indeterminate {
                    listen_backlog_size,
                    binding,
                    active_operation: Some(
                        TcpOperation::Bind { network: network.share(), local_address },
                    ),
                };
            },
            state => {
                self.state = state;
            },
        }
        Ok(())
    }

    /// The native call that the host makes to finish a bind:
    /// `NotInProgress` unless a bind is in flight. The address of the call
    /// is one that the network of the bind grants.
    pub fn bind_request(&self) -> (call: Result<NativeCall, NetworkError>)
        ensures
            call == self@.bind_request(),
            call matches Ok(NativeCall::Bind { address }) ==> {
                &&& self@.active_operation() matches Some(TcpOperationView::Bind { network, .. })
                &&& permits(network, address)
            },
    {
        proof {
            use_type_invariant(self);
        }
        match self.active_operation() {
            Some(TcpOperation::Bind { local_address, .. }) => Ok(
                NativeCall::Bind { address: *local_address },
            ),
            _ => Err(NetworkError::NotInProgress),
        }
    }

    /// Finishes a bind with the outcome of the native call: the local
    /// address that the operating system reports for the bound socket, or
    /// its error.
    pub fn finish_bind(&mut self, outcome: Result<IpSocketAddress, OsError>) -> (finished: Result<
        (),
        NetworkError,
    >)
        ensures
            (final(self)@, finished) == old(self)@.finish_bind(outcome),
            final(self)@.wf(),
    {
        proof {
            use_type_invariant(&*self);
        }
        match self.take_state() {
            TcpState::Indeterminate {
                listen_backlog_size,
                binding,
                active_operation: Some(TcpOperation::Bind { network, .. }),
            } => match outcome {
                Ok(local_address) => {
                    self.state = TcpState::Indeterminate {
                        listen_backlog_size,
                        binding: Some(Binding { network, local_address }),
                        active_operation: None,
                    };
                    Ok(())
                },
                Err(errno) => {
                    self.state = TcpState::Indeterminate {
                        listen_backlog_size,
                        binding,
                        active_operation: None,
                    };
                    Err(map_general_error(errno))
                },
            },
            state => {
                self.state = state;
                Err(NetworkError::NotInProgress)
            },
        }
    }
    /// Starts listening: checks it and records it as the operation in
    /// flight. Nothing is asked of the operating system yet.
    pub fn start_listen(&mut self, network: &Network) -> (started: Result<(), NetworkError>)
        ensures
            (final(self)@, started) == old(self)@.start_listen(network@),
            final(self)@.wf(),
    {
        proof {
            use_type_invariant(&*self);
        }
        self.validate_no_active_operation()?;
        match self.take_state() {
            TcpState::Indeterminate { listen_backlog_size, binding: Some(binding), .. } => {
                self.state = TcpState::Indeterminate {
                    listen_backlog_size,
                    binding: Some(binding),
                    active_operation: Some(TcpOperation::Listen { network: network.share() }),
                };
                Ok(())
            },
            TcpState::Indeterminate { listen_backlog_size, binding: None, active_operation } => {
                self.state = TcpState::Indeterminate {
                    listen_backlog_size,
                    binding: None,
                    active_operation,
                };
                Err(NetworkError::NotBound)
            },
            TcpState::Listener { binding } => {
                self.state = TcpState::Listener { binding };
                Err(NetworkError::AlreadyListening)
            },
            state => {
                self.state = state;
                Err(NetworkError::AlreadyConnected)
            },
        }
    }

    /// The native call that the host makes to finish listening:
    /// `NotInProgress` unless a listen is in flight. The backlog of the call
    /// is the backlog size of the socket, or `i32::MAX` where that is larger.
    pub fn listen_request(&self) -> (call: Result<NativeCall, NetworkError>)
        ensures
            call == self@.listen_request(),
    {
        match &self.state {
            TcpState::Indeterminate {
                listen_backlog_size,
                active_operation: Some(TcpOperation::Listen { .. }),
                ..
            } => Ok(NativeCall::Listen { backlog: listen_backlog(*listen_backlog_size) }),
            _ => Err(NetworkError::NotInProgress),
        }
    }

    /// Finishes listening with the outcome of the native call.
    pub fn finish_listen(&mut self, outcome: Result<(), OsError>) -> (finished: Result<
        (),
        NetworkError,
    >)
        ensures
            (final(self)@, finished) == old(self)@.finish_listen(outcome),
            final(self)@.wf(),
    {
        proof {
            use_type_invariant(&*self);
        }
        match self.take_state() {
            TcpState::Indeterminate {
                listen_backlog_size,
                binding,
                active_operation: Some(TcpOperation::Listen { .. }),
            } => match (binding, outcome) {
                (Some(binding), Ok(())) => {
                    self.state = TcpState::Listener { binding };
                    Ok(())
                },
                (binding, Ok(())) => {
                    self.state = TcpState::Indeterminate {
                        listen_backlog_size,
                        binding,
                        active_operation: None,
                    };
                    Err(NetworkError::NotBound)
                },
                (binding, Err(errno)) => {
                    self.state = TcpState::Indeterminate {
                        listen_backlog_size,
                        binding,
                        active_operation: None,
                    };
                    Err(map_general_error(errno))
                },
            },
            state => {
                self.state = state;
                Err(NetworkError::NotInProgress)
            },
        }
    }

    /// Starts a connect: checks it and records it as the operation in
    /// flight. Nothing is asked of the operating system yet.
    pub fn start_connect(&mut self, network: &Network, remote_address: IpSocketAddress) -> (started:
        Result<(), NetworkError>)
        ensures
            (final(self)@, started) == old(self)@.start_connect(network@, remote_address),
            final(self)@.wf(),
    {
        proof {
            use_type_invariant(&*self);
        }
        self.validate_no_active_operation()?;
        self.validate_not_connected()?;
        if let TcpState::Listener { .. } = &self.state {
            return Err(NetworkError::AlreadyListening);
        }
        if !remote_address.is_valid_remote() {
            return Err(NetworkError::InvalidRemoteAddress);
        }
        if remote_address.family() != self.address_family {
            return Err(NetworkError::AddressFamilyMismatch);
        }
        match self.take_state() {
            TcpState::Indeterminate { listen_backlog_size, binding, active_operation } => {
                match network.check(remote_address) {
                    Ok(()) => {
                        self.state = TcpState::Indeterminate {
                            listen_backlog_size,
                            binding,
                            active_operation: Some(
                                TcpOperation::Connect { network: network.share(), remote_address },
                            ),
                        };
                        Ok(())
                    },
                    Err(denied) => {
                        self.state = TcpState::Indeterminate {
                            listen_backlog_size,
                            binding,
                            active_operation,
                        };
                        Err(denied)
                    },
                }
            },
            state => {
                self.state = state;
                Err(NetworkError::AlreadyListening)
            },
        }
    }

    /// The native call that the host makes to finish a connect:
    /// `NotInProgress` unless a connect is in flight. The address of the
    /// call names a peer, and the network of the connect grants it.
    pub fn connect_request(&self) -> (call: Result<NativeCall, NetworkError>)
        ensures
            call == self@.connect_request(),
            call matches Ok(NativeCall::Connect { address }) ==> {
                &&& address.spec_is_valid_remote()
                &&& self@.active_operation() matches Some(TcpOperationView::Connect { network, .. })
                &&& permits(network, address)
            },
    {
        proof {
            use_type_invariant(self);
        }
        match self.active_operation() {
            Some(TcpOperation::Connect { remote_address, .. }) => Ok(
                NativeCall::Connect { address: *remote_address },
            ),
            _ => Err(NetworkError::NotInProgress),
        }
    }

    /// Finishes a connect with the outcome of the native call: the local
    /// address that the operating system reports for the connected socket,
    /// or its error. While the operating system would block, the connect
    /// stays in flight and is finished again later.
    pub fn finish_connect(&mut self, outcome: Result<IpSocketAddress, OsError>) -> (finished:
        Result<(), NetworkError>)
        ensures
            (final(self)@, finished) == old(self)@.finish_connect(outcome),
            final(self)@.wf(),
    {
        proof {
            use_type_invariant(&*self);
        }
        match self.take_state() {
            TcpState::Indeterminate {
                listen_backlog_size,
                binding,
                active_operation: Some(TcpOperation::Connect { network, remote_address }),
            } => match outcome {
                Ok(local_address) => {
                    let network = match binding {
                        Some(binding) => binding.network,
                        None => network,
                    };
                    self.state = TcpState::Connection {
                        binding: Binding { network, local_address },
                        remote_address,
                        receive_closed: false,
                        send_closed: false,
                    };
                    Ok(())
                },
                Err(errno) => {
                    let error = map_general_error(errno);
                    let pending = match error {
                        NetworkError::WouldBlock => true,
                        _ => false,
                    };
                    self.state = TcpState::Indeterminate {
                        listen_backlog_size,
                        binding,
                        active_operation: if pending {
                            Some(TcpOperation::Connect { network, remote_address })
                        } else {
                            None
                        },
                    };
                    Err(error)
                },
            },
            state => {
                self.state = state;
                Err(NetworkError::NotInProgress)
            },
        }
    }

    /// The native call that the host makes to accept a connection:
    /// `NotListening` unless the socket is a listener.
    pub fn accept_request(&self) -> (call: Result<NativeCall, NetworkError>)
        ensures
            call == self@.accept_request(),
    {
        match &self.state {
            TcpState::Listener { .. } => Ok(NativeCall::Accept),
            _ => Err(NetworkError::NotListening),
        }
    }

    /// Makes the socket for a connection that the host has accepted on this
    /// listener, from the outcome of the native call. With no connection
    /// pending the operating system would block, and so does this.
    pub fn accept(&self, outcome: Result<AcceptedConnection, OsError>) -> (accepted: Result<
        TcpSocket,
        NetworkError,
    >)
        ensures
            match self@.accept(outcome) {
                Ok(socket) => accepted is Ok && accepted->Ok_0@ == socket && socket.wf(),
                Err(error) => accepted is Err && accepted->Err_0 == error,
            },
    {
        match (&self.state, outcome) {
            (TcpState::Listener { binding }, Ok(connection)) => Ok(
                TcpSocket {
                    address_family: self.address_family,
                    state: TcpState::Connection {
                        binding: Binding {
                            network: binding.network.share(),
                            local_address: connection.local_address,
                        },
                        remote_address: connection.remote_address,
                        receive_closed: false,
                        send_closed: false,
                    },
                },
            ),
            (TcpState::Listener { .. }, Err(errno)) => Err(map_general_error(errno)),
            _ => Err(NetworkError::NotListening),
        }
    }

    /// The native call that the host makes to shut a connection down:
    /// `NotConnected` unless the socket is a connection.
    pub fn shutdown_request(&self, how: ShutdownType) -> (call: Result<NativeCall, NetworkError>)
        ensures
            call == self@.shutdown_request(how),
    {
        self.validate_no_active_operation()?;
        self.validate_connected()?;
        Ok(NativeCall::Shutdown { how })
    }

    /// Shuts a connection down with the outcome of the native call. From a
    /// successful shutdown on, the socket answers for the closed sides
    /// itself: see [`TcpSocket::read`] and [`TcpSocket::write`].
    pub fn shutdown(&mut self, how: ShutdownType, outcome: Result<(), OsError>) -> (done: Result<
        (),
        NetworkError,
    >)
        ensures
            (final(self)@, done) == old(self)@.shutdown(how, outcome),
            final(self)@.wf(),
    {
        proof {
            use_type_invariant(&*self);
        }
        self.validate_no_active_operation()?;
        self.validate_connected()?;
        if outcome.is_err() {
            return Err(NetworkError::NotSupported);
        }
        match self.take_state() {
            TcpState::Connection { binding, remote_address, receive_closed, send_closed } => {
                self.state = TcpState::Connection {
                    binding,
                    remote_address,
                    receive_closed: receive_closed || how.closes_receive(),
                    send_closed: send_closed || how.closes_send(),
                };
            },
            state => {
                self.state = state;
            },
        }
        Ok(())
    }

    /// Sets the backlog size. An indeterminate socket keeps it for when it
    /// listens. For a listener the host listens again with the call
    /// returned, and hands the outcome to
    /// [`relisten_reply`](crate::options::relisten_reply).
    pub fn set_listen_backlog_size(&mut self, value: u64) -> (step: Result<Step<()>, NetworkError>)
        ensures
            (final(self)@, step) == old(self)@.set_listen_backlog_size(value),
            final(self)@.wf(),
    {
        proof {
            use_type_invariant(&*self);
        }
        self.validate_no_active_operation()?;
        match self.take_state() {
            TcpState::Indeterminate { binding, active_operation, .. } => {
                self.state = TcpState::Indeterminate {
                    listen_backlog_size: value,
                    binding,
                    active_operation,
                };
                Ok(Step::Done(()))
            },
            TcpState::Listener { binding } => {
                self.state = TcpState::Listener { binding };
                Ok(Step::Call(NativeCall::Listen { backlog: listen_backlog(value) }))
            },
            state => {
                self.state = state;
                Err(NetworkError::AlreadyConnected)
            },
        }
    }

    /// The native call that reads whether the socket is restricted to IPv6.
    pub fn ipv6_only(&self) -> (call: Result<NativeCall, NetworkError>)
        ensures
            call == self@.status().ipv6_only(),
    {
        self.status().ipv6_only()
    }

    /// The native call that restricts the socket to IPv6, or lifts that. As
    /// every setter, it asks for the socket to itself, and leaves it as it is.
    pub fn set_ipv6_only(&mut self, value: bool) -> (call: Result<NativeCall, NetworkError>)
        ensures
            call == old(self)@.status().set_ipv6_only(value),
            final(self)@ == old(self)@,
            final(self)@.wf(),
    {
        proof {
            use_type_invariant(&*self);
        }
        self.status().set_ipv6_only(value)
    }

    /// The native call that reads whether keep-alive is on.
    pub fn keep_alive(&self) -> (call: Result<NativeCall, NetworkError>)
        ensures
            call == self@.status().keep_alive(),
    {
        self.status().keep_alive()
    }

    /// The native call that turns keep-alive on or off.
    pub fn set_keep_alive(&mut self, value: bool) -> (call: Result<NativeCall, NetworkError>)
        ensures
            call == old(self)@.status().set_keep_alive(value),
            final(self)@ == old(self)@,
            final(self)@.wf(),
    {
        proof {
            use_type_invariant(&*self);
        }
        self.status().set_keep_alive(value)
    }

    /// The native call that reads whether segments are sent without delay.
    pub fn no_delay(&self) -> (call: Result<NativeCall, NetworkError>)
        ensures
            call == self@.status().no_delay(),
    {
        self.status().no_delay()
    }

    /// The native call that turns sending without delay on or off.
    pub fn set_no_delay(&mut self, value: bool) -> (call: Result<NativeCall, NetworkError>)
        ensures
            call == old(self)@.status().set_no_delay(value),
            final(self)@ == old(self)@,
            final(self)@.wf(),
    {
        proof {
            use_type_invariant(&*self);
        }
        self.status().set_no_delay(value)
    }

    /// The native call that reads the hop limit.
    pub fn unicast_hop_limit(&self) -> (call: Result<NativeCall, NetworkError>)
        ensures
            call == self@.status().unicast_hop_limit(),
    {
        self.status().unicast_hop_limit()
    }

    /// The native call that sets the hop limit.
    pub fn set_unicast_hop_limit(&mut self, value: u8) -> (call: Result<NativeCall, NetworkError>)
        ensures
            call == old(self)@.status().set_unicast_hop_limit(value),
            final(self)@ == old(self)@,
            final(self)@.wf(),
    {
        proof {
            use_type_invariant(&*self);
        }
        self.status().set_unicast_hop_limit(value)
    }

    /// The native call that reads the size of the receive buffer.
    pub fn receive_buffer_size(&self) -> (call: Result<NativeCall, NetworkError>)
        ensures
            call == self@.status().receive_buffer_size(),
    {
        self.status().receive_buffer_size()
    }

    /// The native call that sets the size of the receive buffer.
    pub fn set_receive_buffer_size(&mut self, value: u64, platform: Platform) -> (call: Result<
        NativeCall,
        NetworkError,
    >)
        ensures
            call == old(self)@.status().set_receive_buffer_size(value, platform),
            final(self)@ == old(self)@,
            final(self)@.wf(),
    {
        proof {
            use_type_invariant(&*self);
        }
        self.status().set_receive_buffer_size(value, platform)
    }

    /// The native call that reads the size of the send buffer.
    pub fn send_buffer_size(&self) -> (call: Result<NativeCall, NetworkError>)
        ensures
            call == self@.status().send_buffer_size(),
    {
        self.status().send_buffer_size()
    }

    /// The native call that sets the size of the send buffer.
    pub fn set_send_buffer_size(&mut self, value: u64, platform: Platform) -> (call: Result<
        NativeCall,
        NetworkError,
    >)
        ensures
            call == old(self)@.status().set_send_buffer_size(value, platform),
            final(self)@ == old(self)@,
            final(self)@.wf(),
    {
        proof {
            use_type_invariant(&*self);
        }
        self.status().set_send_buffer_size(value, platform)
    }
    /// What the host does for a read, with one buffer or with several, on
    /// the input stream of the socket. After the receiving side was shut
    /// down the stream has ended, and the operating system is not asked.
    pub fn read(&self) -> (step: Result<Step<(u64, bool)>, NetworkError>)
        ensures
            step == self@.read(),
    {
        match &self.state {
            TcpState::Connection { receive_closed: true, .. } => Ok(Step::Done((0, true))),
            TcpState::Connection { .. } => Ok(Step::Call(NativeCall::Read)),
            _ => Err(NetworkError::NotConnected),
        }
    }

    /// What the host does to skip `length` bytes of the input stream.
    pub fn skip(&self, length: u64) -> (step: Result<Step<(u64, bool)>, NetworkError>)
        ensures
            step == self@.skip(length),
    {
        match &self.state {
            TcpState::Connection { receive_closed: true, .. } => Ok(Step::Done((0, true))),
            TcpState::Connection { .. } => Ok(Step::Call(NativeCall::Skip { length })),
            _ => Err(NetworkError::NotConnected),
        }
    }

    /// What the host does to tell how many bytes of the input stream are
    /// ready.
    pub fn num_ready_bytes(&self) -> (step: Result<Step<u64>, NetworkError>)
        ensures
            step == self@.num_ready_bytes(),
    {
        match &self.state {
            TcpState::Connection { receive_closed: true, .. } => Ok(Step::Done(0)),
            TcpState::Connection { .. } => Ok(Step::Call(NativeCall::ReadyBytes)),
            _ => Err(NetworkError::NotConnected),
        }
    }

    /// The native call that tells whether the input stream can be read.
    pub fn readable(&self) -> (call: Result<NativeCall, NetworkError>)
        ensures
            call == self@.readable(),
    {
        match &self.state {
            TcpState::Connection { receive_closed: false, .. } => Ok(NativeCall::ReadWrite),
            _ => Err(NetworkError::NotConnected),
        }
    }

    fn output(&self, call: NativeCall) -> (guarded: Result<NativeCall, NetworkError>)
        ensures
            guarded == self@.output(call),
    {
        match &self.state {
            TcpState::Connection { send_closed: false, .. } => Ok(call),
            _ => Err(NetworkError::NotConnected),
        }
    }

    /// The native call for a write, with one buffer or with several, on the
    /// output stream of the socket. After the sending side was shut down
    /// every write fails, and the operating system is not asked.
    pub fn write(&self) -> (call: Result<NativeCall, NetworkError>)
        ensures
            call == self@.output(NativeCall::Write),
    {
        self.output(NativeCall::Write)
    }

    /// The native call that writes `length` zero bytes to the output stream.
    pub fn write_zeroes(&self, length: u64) -> (call: Result<NativeCall, NetworkError>)
        ensures
            call == self@.output(NativeCall::WriteZeroes { length }),
    {
        self.output(NativeCall::WriteZeroes { length })
    }

    /// The native call that copies `length` bytes of another stream to the
    /// output stream.
    pub fn splice(&self, length: u64) -> (call: Result<NativeCall, NetworkError>)
        ensures
            call == self@.output(NativeCall::Splice { length }),
    {
        self.output(NativeCall::Splice { length })
    }

    /// The native call that tells whether the output stream can be written.
    pub fn writable(&self) -> (call: Result<NativeCall, NetworkError>)
        ensures
            call == self@.output(NativeCall::ReadWrite),
    {
        self.output(NativeCall::ReadWrite)
    }
}

} // verus!
