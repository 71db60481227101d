//! The UDP socket state machine.
//!
//! A UDP socket has a peer or has none. It is bound and connected in two
//! steps each, as a TCP socket is, and never listens.
//!
//! [`model::UdpSocketView`] is the socket as contracts speak of it;
//! [`laws`] holds what follows for every socket.

pub mod laws;
pub mod model;

use crate::address::{AddressFamily, IpSocketAddress};
use crate::error::{general_error, map_general_error, NetworkError, OsError};
use crate::native::{NativeCall, Platform, Step};
use crate::network::{permits, Binding, Network};
use crate::options::SocketStatus;
use crate::udp::model::{receive_mode, sock_recv, total_length, ReceiveMode, RiFlags, RoFlags};
use crate::udp::model::{UdpOperationKind, UdpOperationView, UdpSocketView};
use crate::udp::model::{RECV_PEEK, RECV_WAITALL};
use vstd::prelude::*;

verus! {

/// An in progress operation and its arguments.
enum UdpOperation {
    Bind { network: Network, local_address: IpSocketAddress },
    Connect { network: Network, remote_address: IpSocketAddress },
}

/// A UDP socket.
pub struct UdpSocket {
    address_family: AddressFamily,
    binding: Option<Binding>,
    remote_address: Option<IpSocketAddress>,
    active_operation: Option<UdpOperation>,
}

impl View for UdpOperation {
    type V = UdpOperationView;

    closed spec fn view(&self) -> UdpOperationView {
        match *self {
            UdpOperation::Bind { network, local_address } => UdpOperationView::Bind {
                network: network@,
                local_address,
            },
            UdpOperation::Connect { network, remote_address } => UdpOperationView::Connect {
                network: network@,
                remote_address,
            },
        }
    }
}

impl View for UdpSocket {
    type V = UdpSocketView;

    closed spec fn view(&self) -> UdpSocketView {
        UdpSocketView {
            address_family: self.address_family,
            binding: match self.binding {
                Some(binding) => Some(binding@),
                None => None,
            },
            remote_address: self.remote_address,
            active_operation: match self.active_operation {
                Some(operation) => Some(operation@),
                None => None,
            },
        }
    }
}

/// How a receive with the given flags treats the data: `NotSupported` for
/// flags that do not go together or are not known.
pub fn ri_flags_mode(ri_flags: RiFlags) -> (mode: Result<ReceiveMode, NetworkError>)
    ensures
        mode == receive_mode(ri_flags),
{
    let bits = ri_flags.bits;
    proof {
        assert(1u16 | 2u16 == 3u16) by (bit_vector);
        assert((bits & !3u16) == 0 <==> bits <= 3) by (bit_vector);
        assert(bits <= 3 ==> ((bits & 1u16) != 0 <==> bits == 1 || bits == 3)) by (bit_vector);
        assert(bits <= 3 ==> ((bits & 2u16) != 0 <==> bits == 2 || bits == 3)) by (bit_vector);
    }
    if (bits & !(RECV_PEEK | RECV_WAITALL)) != 0 {
        return Err(NetworkError::NotSupported);
    }
    if bits == RECV_PEEK | RECV_WAITALL {
        return Err(NetworkError::NotSupported);
    }
    if (bits & RECV_PEEK) != 0 {
        Ok(ReceiveMode::Peek)
    } else if (bits & RECV_WAITALL) != 0 {
        Ok(ReceiveMode::WaitAll)
    } else {
        Ok(ReceiveMode::Plain)
    }
}

/// The sum of the lengths of the first buffers is at most that of all.
proof fn lemma_total_length_grows(lengths: Seq<usize>, count: int)
    requires
        0 <= count <= lengths.len(),
    ensures
        total_length(lengths.take(count)) <= total_length(lengths),
    decreases lengths.len() - count,
{
    if count < lengths.len() {
        lemma_total_length_grows(lengths, count + 1);
        assert(lengths.take(count + 1).drop_last() == lengths.take(count));
    } else {
        assert(lengths.take(count) == lengths);
    }
}

/// The number of bytes that buffers of the given lengths hold together, or
/// `None` where that is more than a `u64` holds.
pub fn buffers_length(lengths: &[usize]) -> (total: Option<u64>)
    ensures
        match total {
            Some(total) => total == total_length(lengths@),
            None => total_length(lengths@) > u64::MAX,
        },
{
    let mut total: u64 = 0;
    let mut index: usize = 0;
    while index < lengths.len()
        invariant
            index <= lengths.len(),
            total == total_length(lengths@.take(index as int)),
        decreases lengths.len() - index,
    {
        let length = lengths[index] as u64;
        proof {
            assert(lengths@.take(index + 1).drop_last() == lengths@.take(index as int));
            lemma_total_length_grows(lengths@, index + 1);
        }
        if length > u64::MAX - total {
            return None;
        }
        total = total + length;
        index = index + 1;
    }
    assert(lengths@.take(index as int) == lengths@);
    Some(total)
}

impl UdpSocket {
    #[verifier::type_invariant]
    spec fn well_formed(&self) -> bool {
        self@.wf()
    }

    /// Creates the socket for a native socket that the host has asked the
    /// operating system for: a socket as [`UdpSocketView::fresh`] describes
    /// it, or the error that stands for what the operating system reported.
    pub fn new(address_family: AddressFamily, native: Result<(), OsError>) -> (socket: Result<
        UdpSocket,
        NetworkError,
    >)
        ensures
            match native {
                Ok(()) => socket is Ok && socket->Ok_0@ == UdpSocketView::fresh(address_family)
                    && socket->Ok_0@.wf(),
                Err(errno) => socket is Err && socket->Err_0 == general_error(errno),
            },
    {
        match native {
            Ok(()) => Ok(
                UdpSocket {
                    address_family,
                    binding: None,
                    remote_address: None,
                    active_operation: None,
                },
            ),
            Err(errno) => Err(map_general_error(errno)),
        }
    }

    /// Takes the operation in flight out of its slot.
    fn take_operation(&mut self) -> (operation: Option<UdpOperation>)
        ensures
            match operation {
                Some(operation) => old(self)@.active_operation == Some(operation@),
                None => old(self)@.active_operation is None,
            },
            final(self)@ == (UdpSocketView { active_operation: None, ..old(self)@ }),
    {
        let mut operation = None;
        core::mem::swap(&mut self.active_operation, &mut operation);
        operation
    }

    fn status(&self) -> (status: SocketStatus)
        ensures
            status == self@.status(),
    {
        SocketStatus {
            address_family: self.address_family,
            bound: self.binding.is_some(),
            connected: self.remote_address.is_some(),
            busy: self.active_operation.is_some(),
        }
    }

    /// The family that the socket was created for.
    pub fn address_family(&self) -> (family: AddressFamily)
        ensures
            family == self@.address_family,
    {
        self.address_family
    }

    /// The kind of the operation in flight, if there is one.
    pub fn in_flight(&self) -> (kind: Option<UdpOperationKind>)
        ensures
            kind == self@.in_flight(),
    {
        match &self.active_operation {
            Some(UdpOperation::Bind { .. }) => Some(UdpOperationKind::Bind),
            Some(UdpOperation::Connect { .. }) => Some(UdpOperationKind::Connect),
            None => None,
        }
    }

    /// The network that the socket is bound through, once it is bound.
    pub fn network(&self) -> (network: Option<&Network>)
        ensures
            match network {
                Some(network) => self@.binding matches Some(binding) && binding.network
                    == network@,
                None => self@.binding is None,
            },
    {
        match &self.binding {
            Some(binding) => Some(&binding.network),
            None => None,
        }
    }

    /// The local address: `NotBound` until the socket is bound.
    pub fn local_address(&self) -> (address: Result<IpSocketAddress, NetworkError>)
        ensures
            address == self@.local_address(),
    {
        match &self.binding {
            Some(binding) => Ok(binding.local_address),
            None => Err(NetworkError::NotBound),
        }
    }

    /// The address of the peer: `NotConnected` unless the socket has one.
    pub fn remote_address(&self) -> (address: Result<IpSocketAddress, NetworkError>)
        ensures
            address == self@.peer_address(),
    {
        match self.remote_address {
            Some(remote_address) => Ok(remote_address),
            None => Err(NetworkError::NotConnected),
        }
    }

    /// Starts a bind: checks it and records it as the operation in flight.
    /// Nothing is asked of the operating system yet.
    pub fn start_bind(&mut self, network: &Network, local_address: IpSocketAddress) -> (started:
        Result<(), NetworkError>)
        ensures
            (final(self)@, started) == old(self)@.start_bind(network@, local_address),
            final(self)@.wf(),
    {
        proof {
            use_type_invariant(&*self);
        }
        if self.active_operation.is_some() {
            return Err(NetworkError::ConcurrencyConflict);
        }
        if self.binding.is_some() {
            return Err(NetworkError::AlreadyBound);
        }
        if local_address.family() != self.address_family {
            return Err(NetworkError::AddressFamilyMismatch);
        }
        network.check(local_address)?;
        self.active_operation = Some(UdpOperation::Bind { network: network.share(), local_address });
        Ok(())
    }

    /// The native call that the host makes to finish a bind:
    /// `NotInProgress` unless a bind is in flight. The address of the call
    /// is one that the network of the bind grants.
    pub fn bind_request(&self) -> (call: Result<NativeCall, NetworkError>)
        ensures
            call == self@.bind_request(),
            call matches Ok(NativeCall::Bind { address }) ==> {
                &&& self@.active_operation matches Some(UdpOperationView::Bind { network, .. })
                &&& permits(network, address)
            },
    {
        proof {
            use_type_invariant(self);
        }
        match &self.active_operation {
            Some(UdpOperation::Bind { local_address, .. }) => Ok(
                NativeCall::Bind { address: *local_address },
            ),
            _ => Err(NetworkError::NotInProgress),
        }
    }

    /// Finishes a bind with the outcome of the native call: the local
    /// address that the operating system reports for the bound socket, or
    /// its error.
    pub fn finish_bind(&mut self, outcome: Result<IpSocketAddress, OsError>) -> (finished: Result<
        (),
        NetworkError,
    >)
        ensures
            (final(self)@, finished) == old(self)@.finish_bind(outcome),
            final(self)@.wf(),
    {
        proof {
            use_type_invariant(&*self);
        }
        match self.take_operation() {
            Some(UdpOperation::Bind { network, .. }) => match outcome {
                Ok(local_address) => {
                    self.binding = Some(Binding { network, local_address });
                    Ok(())
                },
                Err(errno) => Err(map_general_error(errno)),
            },
            operation => {
                self.active_operation = operation;
                Err(NetworkError::NotInProgress)
            },
        }
    }

    /// Starts a connect: checks it and records it as the operation in
    /// flight. Nothing is asked of the operating system yet.
    pub fn start_connect(&mut self, network: &Network, remote_address: IpSocketAddress) -> (started:
        Result<(), NetworkError>)
        ensures
            (final(self)@, started) == old(self)@.start_connect(network@, remote_address),
            final(self)@.wf(),
    {
        proof {
            use_type_invariant(&*self);
        }
        if self.active_operation.is_some() {
            return Err(NetworkError::ConcurrencyConflict);
        }
        if self.remote_address.is_some() {
            return Err(NetworkError::AlreadyConnected);
        }
        if !remote_address.is_valid_remote() {
            return Err(NetworkError::InvalidRemoteAddress);
        }
        if remote_address.family() != self.address_family {
            return Err(NetworkError::AddressFamilyMismatch);
        }
        network.check(remote_address)?;
        self.active_operation = Some(
            UdpOperation::Connect { network: network.share(), remote_address },
        );
        Ok(())
    }

    /// The native call that the host makes to finish a connect:
    /// `NotInProgress` unless a connect is in flight. The address of the
    /// call names a peer, and the network of the connect grants it.
    pub fn connect_request(&self) -> (call: Result<NativeCall, NetworkError>)
        ensures
            call == self@.connect_request(),
            call matches Ok(NativeCall::Connect { address }) ==> {
                &&& address.spec_is_valid_remote()
                &&& self@.active_operation matches Some(UdpOperationView::Connect { network, .. })
                &&& permits(network, address)
            },
    {
        proof {
            use_type_invariant(self);
        }
        match &self.active_operation {
            Some(UdpOperation::Connect { remote_address, .. }) => Ok(
                NativeCall::Connect { address: *remote_address },
            ),
            _ => Err(NetworkError::NotInProgress),
        }
    }

    /// Finishes a connect with the outcome of the native call: the local
    /// address that the operating system reports for the connected socket,
    /// or its error. While the operating system would block, the connect
    /// stays in flight and is finished again later.
    pub fn finish_connect(&mut self, outcome: Result<IpSocketAddress, OsError>) -> (finished:
        Result<(), NetworkError>)
        ensures
            (final(self)@, finished) == old(self)@.finish_connect(outcome),
            final(self)@.wf(),
    {
        proof {
            use_type_invariant(&*self);
        }
        match self.take_operation() {
            Some(UdpOperation::Connect { network, remote_address }) => match outcome {
                Ok(local_address) => {
                    // A socket that was bound keeps the network of its binding.
                    let mut binding = Some(Binding { network, local_address });
                    core::mem::swap(&mut self.binding, &mut binding);
                    if let Some(Binding { network, .. }) = binding {
                        self.binding = Some(Binding { network, local_address });
                    }
                    self.remote_address = Some(remote_address);
                    Ok(())
                },
                Err(errno) => {
                    let error = map_general_error(errno);
                    if let NetworkError::WouldBlock = error {
                        self.active_operation = Some(
                            UdpOperation::Connect { network, remote_address },
                        );
                    }
                    Err(error)
                },
            },
            operation => {
                self.active_operation = operation;
                Err(NetworkError::NotInProgress)
            },
        }
    }

    /// The native call that receives a datagram.
    pub fn receive(&self) -> (call: NativeCall)
        ensures
            call == self@.receive(),
    {
        if self.remote_address.is_some() {
            NativeCall::Receive
        } else {
            NativeCall::ReceiveFrom
        }
    }

    /// The native call that sends a datagram to `destination`, or to the
    /// peer of the socket where none is given.
    pub fn send(&self, destination: Option<IpSocketAddress>) -> (call: Result<
        NativeCall,
        NetworkError,
    >)
        ensures
            call == self@.send(destination),
    {
        match (self.remote_address, destination) {
            (Some(_), None) => Ok(NativeCall::Send),
            (Some(peer), Some(address)) => if address == peer {
                Ok(NativeCall::Send)
            } else {
                Err(NetworkError::AlreadyConnected)
            },
            (None, None) => Err(NetworkError::NotConnected),
            (None, Some(address)) => {
                if !address.is_valid_remote() {
                    return Err(NetworkError::InvalidRemoteAddress);
                }
                if address.family() != self.address_family {
                    return Err(NetworkError::AddressFamilyMismatch);
                }
                match &self.binding {
                    None => Err(NetworkError::NotBound),
                    Some(binding) => {
                        binding.network.check(address)?;
                        Ok(NativeCall::SendTo { address })
                    },
                }
            },
        }
    }

    /// What the host does for a receive into buffers of the given lengths
    /// with the given flags.
    pub fn sock_recv(&self, lengths: &[usize], ri_flags: RiFlags) -> (step: Result<
        Step<(u64, RoFlags)>,
        NetworkError,
    >)
        ensures
            step == sock_recv(lengths@, ri_flags),
    {
        match ri_flags_mode(ri_flags)? {
            ReceiveMode::Plain => Ok(Step::Call(NativeCall::Read)),
            ReceiveMode::Peek => if lengths.len() == 0 {
                Ok(Step::Done((0, RoFlags { bits: 0 })))
            } else {
                Ok(Step::Call(NativeCall::Peek))
            },
            ReceiveMode::WaitAll => match buffers_length(lengths) {
                Some(length) => Ok(Step::Call(NativeCall::ReadExact { length })),
                None => Err(NetworkError::NotSupported),
            },
        }
    }

    /// The native call that reads whether the socket is restricted to IPv6.
    pub fn ipv6_only(&self) -> (call: Result<NativeCall, NetworkError>)
        ensures
            call == self@.status().ipv6_only(),
    {
        self.status().ipv6_only()
    }

    /// The native call that restricts the socket to IPv6, or lifts that. As
    /// every setter, it asks for the socket to itself, and leaves it as it is.
    pub fn set_ipv6_only(&mut self, value: bool) -> (call: Result<NativeCall, NetworkError>)
        ensures
            call == old(self)@.status().set_ipv6_only(value),
            final(self)@ == old(self)@,
            final(self)@.wf(),
    {
        proof {
            use_type_invariant(&*self);
        }
        self.status().set_ipv6_only(value)
    }

    /// The native call that reads the hop limit.
    pub fn unicast_hop_limit(&self) -> (call: Result<NativeCall, NetworkError>)
        ensures
            call == self@.status().unicast_hop_limit(),
    {
        self.status().unicast_hop_limit()
    }

    /// The native call that sets the hop limit.
    pub fn set_unicast_hop_limit(&mut self, value: u8) -> (call: Result<NativeCall, NetworkError>)
        ensures
            call == old(self)@.status().set_unicast_hop_limit(value),
            final(self)@ == old(self)@,
            final(self)@.wf(),
    {
        proof {
            use_type_invariant(&*self);
        }
        self.status().set_unicast_hop_limit(value)
    }

    /// The native call that reads the size of the receive buffer.
    pub fn receive_buffer_size(&self) -> (call: Result<NativeCall, NetworkError>)
        ensures
            call == self@.status().receive_buffer_size(),
    {
        self.status().receive_buffer_size()
    }

    /// The native call that sets the size of the receive buffer.
    pub fn set_receive_buffer_size(&mut self, value: u64, platform: Platform) -> (call: Result<
        NativeCall,
        NetworkError,
    >)
        ensures
            call == old(self)@.status().set_receive_buffer_size(value, platform),
            final(self)@ == old(self)@,
            final(self)@.wf(),
    {
        proof {
            use_type_invariant(&*self);
        }
        self.status().set_receive_buffer_size(value, platform)
    }

    /// The native call that reads the size of the send buffer.
    pub fn send_buffer_size(&self) -> (call: Result<NativeCall, NetworkError>)
        ensures
            call == self@.status().send_buffer_size(),
    {
        self.status().send_buffer_size()
    }

    /// The native call that sets the size of the send buffer.
    pub fn set_send_buffer_size(&mut self, value: u64, platform: Platform) -> (call: Result<
        NativeCall,
        NetworkError,
    >)
        ensures
            call == old(self)@.status().set_send_buffer_size(value, platform),
            final(self)@ == old(self)@,
            final(self)@.wf(),
    {
        proof {
            use_type_invariant(&*self);
        }
        self.status().set_send_buffer_size(value, platform)
    }
}

/// What a receive returns for the number of bytes that the operating system
/// has read or peeked.
pub fn receive_reply(outcome: Result<usize, OsError>) -> (reply: Result<
    (u64, RoFlags),
    NetworkError,
>)
    ensures
        reply == match outcome {
            Ok(read) => Ok::<(u64, RoFlags), NetworkError>((read as u64, RoFlags { bits: 0 })),
            Err(errno) => Err(general_error(errno)),
        },
{
    match outcome {
        Ok(read) => Ok((read as u64, RoFlags { bits: 0 })),
        Err(errno) => Err(map_general_error(errno)),
    }
}

/// What a receive that waited for `length` bytes returns once the operating
/// system has filled the buffers.
pub fn receive_exact_reply(length: u64, outcome: Result<(), OsError>) -> (reply: Result<
    (u64, RoFlags),
    NetworkError,
>)
    ensures
        reply == match outcome {
            Ok(()) => Ok::<(u64, RoFlags), NetworkError>((length, RoFlags { bits: 0 })),
            Err(errno) => Err(general_error(errno)),
        },
{
    match outcome {
        Ok(()) => Ok((length, RoFlags { bits: 0 })),
        Err(errno) => Err(map_general_error(errno)),
    }
}

} // verus!
