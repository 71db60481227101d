//! What holds of every UDP socket, whatever is done with it.

use crate::address::{AddressFamily, IpSocketAddress};
use crate::error::NetworkError;
use crate::native::NativeCall;
use crate::network::permits;
use crate::udp::model::{UdpEvent, UdpOperationKind, UdpOperationView, UdpSocketView};
use vstd::prelude::*;

verus! {

/// A socket as it is created is well formed.
pub proof fn lemma_fresh_is_well_formed(address_family: AddressFamily)
    ensures
        UdpSocketView::fresh(address_family).wf(),
{
}

/// No operation changes the family of a socket or breaks what holds of
/// every socket. A bound socket stays bound, under the same network, and a
/// connected socket keeps its peer.
pub proof fn lemma_step(socket: UdpSocketView, event: UdpEvent)
    requires
        socket.wf(),
    ensures
        socket.next(event).wf(),
        socket.next(event).address_family == socket.address_family,
        socket.binding matches Some(binding) ==> socket.next(event).binding is Some
            && socket.next(event).binding->Some_0.network == binding.network,
        socket.remote_address is Some ==> socket.next(event).remote_address
            == socket.remote_address,
{
}

/// The same of any sequence of operations.
pub proof fn lemma_peer_is_fixed(socket: UdpSocketView, events: Seq<UdpEvent>)
    requires
        socket.wf(),
    ensures
        socket.after(events).wf(),
        socket.after(events).address_family == socket.address_family,
        socket.binding is Some ==> socket.after(events).binding is Some,
        socket.remote_address is Some ==> socket.after(events).remote_address
            == socket.remote_address,
    decreases events.len(),
{
    if events.len() > 0 {
        lemma_step(socket, events.first());
        lemma_peer_is_fixed(socket.next(events.first()), events.drop_first());
    }
}

/// While an operation is in flight, starting another one returns
/// `ConcurrencyConflict` and leaves the socket, with the operation in flight,
/// as it is.
pub proof fn lemma_start_while_active(socket: UdpSocketView, event: UdpEvent)
    requires
        socket.active_operation is Some,
        event.starts() is Some,
    ensures
        socket.reply(event) == Err::<(), NetworkError>(NetworkError::ConcurrencyConflict),
        socket.next(event) == socket,
{
}

/// Finishing an operation that is not in flight returns `NotInProgress` and
/// leaves the socket as it is, whatever the outcome handed in; and no native
/// call is handed out for it.
pub proof fn lemma_finish_not_in_flight(
    socket: UdpSocketView,
    kind: UdpOperationKind,
    event: UdpEvent,
)
    requires
        event.finishes() == Some(kind),
        socket.in_flight() != Some(kind),
    ensures
        socket.reply(event) == Err::<(), NetworkError>(NetworkError::NotInProgress),
        socket.next(event) == socket,
        kind is Bind ==> socket.bind_request() == Err::<NativeCall, NetworkError>(
            NetworkError::NotInProgress,
        ),
        kind is Connect ==> socket.connect_request() == Err::<NativeCall, NetworkError>(
            NetworkError::NotInProgress,
        ),
{
}

/// An operation is in flight only from its own start on.
pub proof fn lemma_in_flight_was_started(
    socket: UdpSocketView,
    events: Seq<UdpEvent>,
    kind: UdpOperationKind,
)
    requires
        socket.in_flight() != Some(kind),
        forall|i: int| 0 <= i < events.len() ==> (#[trigger] events[i]).starts() != Some(kind),
    ensures
        socket.after(events).in_flight() != Some(kind),
    decreases events.len(),
{
    if events.len() > 0 {
        let rest = events.drop_first();
        assert(events.first() == events[0]);
        assert forall|i: int| 0 <= i < rest.len() implies (#[trigger] rest[i]).starts() != Some(
            kind,
        ) by {
            assert(rest[i] == events[i + 1]);
        }
        lemma_in_flight_was_started(socket.next(events.first()), rest, kind);
    }
}

/// On a socket that was created and then used without ever starting an
/// operation of some kind, finishing an operation of that kind returns
/// `NotInProgress` and leaves the socket as it is.
pub proof fn lemma_finish_without_start(
    address_family: AddressFamily,
    events: Seq<UdpEvent>,
    kind: UdpOperationKind,
    finish: UdpEvent,
)
    requires
        forall|i: int| 0 <= i < events.len() ==> (#[trigger] events[i]).starts() != Some(kind),
        finish.finishes() == Some(kind),
    ensures
        ({
            let socket = UdpSocketView::fresh(address_family).after(events);
            &&& socket.reply(finish) == Err::<(), NetworkError>(NetworkError::NotInProgress)
            &&& socket.next(finish) == socket
        }),
{
    let fresh = UdpSocketView::fresh(address_family);
    lemma_in_flight_was_started(fresh, events, kind);
    lemma_finish_not_in_flight(fresh.after(events), kind, finish);
}

/// An operation that fails makes no part of its change: the socket is as it
/// was, but that a finish has emptied the slot for the operation in flight.
pub proof fn lemma_failure_changes_nothing(socket: UdpSocketView, event: UdpEvent)
    requires
        socket.reply(event) is Err,
    ensures
        socket.next(event) == socket || (event.finishes() is Some && socket.next(event) == (
            UdpSocketView { active_operation: None, ..socket }
        )),
{
}

/// Every address that the host is asked to bind, connect or send to is one
/// that a network of the socket grants.
pub proof fn lemma_requests_are_granted(
    socket: UdpSocketView,
    address: IpSocketAddress,
    destination: Option<IpSocketAddress>,
)
    requires
        socket.wf(),
    ensures
        socket.bind_request() == Ok::<NativeCall, NetworkError>(NativeCall::Bind { address }) ==> {
            &&& socket.active_operation matches Some(UdpOperationView::Bind { network, .. })
            &&& permits(network, address)
        },
        socket.connect_request() == Ok::<NativeCall, NetworkError>(
            NativeCall::Connect { address },
        ) ==> {
            &&& socket.active_operation matches Some(UdpOperationView::Connect { network, .. })
            &&& permits(network, address)
            &&& address.spec_is_valid_remote()
        },
        socket.send(destination) == Ok::<NativeCall, NetworkError>(
            NativeCall::SendTo { address },
        ) ==> {
            &&& socket.binding matches Some(binding)
            &&& permits(binding.network, address)
            &&& address.spec_is_valid_remote()
        },
{
}

} // verus!
