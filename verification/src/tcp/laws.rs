//! What holds of every TCP socket, whatever is done with it.

use crate::address::{AddressFamily, IpSocketAddress};
use crate::error::{NetworkError, OsError};
use crate::native::{AcceptedConnection, NativeCall, ShutdownType, Step};
use crate::network::permits;
use crate::tcp::model::{OperationKind, TcpEvent, TcpOperationView, TcpSocketView};
use vstd::prelude::*;

verus! {

/// A socket is in exactly one of its three states.
pub proof fn lemma_one_state(socket: TcpSocketView)
    ensures
        socket.state is Indeterminate || socket.state is Listener || socket.state is Connection,
        !(socket.state is Indeterminate && socket.state is Listener),
        !(socket.state is Indeterminate && socket.state is Connection),
        !(socket.state is Listener && socket.state is Connection),
{
}

/// A socket as it is created is well formed.
pub proof fn lemma_fresh_is_well_formed(address_family: AddressFamily)
    ensures
        TcpSocketView::fresh(address_family).wf(),
{
}

/// No operation changes the family of a socket, breaks what holds of every
/// socket, takes a listener or a connection to another state, or takes a
/// socket back to indeterminate.
pub proof fn lemma_step(socket: TcpSocketView, event: TcpEvent)
    requires
        socket.wf(),
    ensures
        socket.next(event).wf(),
        socket.next(event).address_family == socket.address_family,
        socket.state is Listener ==> socket.next(event).state is Listener,
        socket.state is Connection ==> socket.next(event).state is Connection,
        socket.next(event).state is Indeterminate ==> socket.state is Indeterminate,
{
}

/// The same of any sequence of operations: a listener stays a listener and
/// a connection a connection, and a state that a socket has left is never
/// its state again.
pub proof fn lemma_states_are_not_revisited(socket: TcpSocketView, events: Seq<TcpEvent>)
    requires
        socket.wf(),
    ensures
        socket.after(events).wf(),
        socket.after(events).address_family == socket.address_family,
        socket.state is Listener ==> socket.after(events).state is Listener,
        socket.state is Connection ==> socket.after(events).state is Connection,
        socket.after(events).state is Indeterminate ==> socket.state is Indeterminate,
    decreases events.len(),
{
    if events.len() > 0 {
        lemma_step(socket, events.first());
        lemma_states_are_not_revisited(socket.next(events.first()), events.drop_first());
    }
}

/// A bound socket stays bound, under the same network: no operation unbinds
/// it.
pub proof fn lemma_binding_is_kept(socket: TcpSocketView, event: TcpEvent)
    requires
        socket.wf(),
        socket.binding() is Some,
    ensures
        socket.next(event).binding() is Some,
        socket.next(event).binding()->Some_0.network == socket.binding()->Some_0.network,
{
}

/// While an operation is in flight, starting another one returns
/// `ConcurrencyConflict` and leaves the socket, with the operation in flight,
/// as it is.
pub proof fn lemma_start_while_active(socket: TcpSocketView, event: TcpEvent)
    requires
        socket.active_operation() is Some,
        event.starts() is Some,
    ensures
        socket.reply(event) == Err::<(), NetworkError>(NetworkError::ConcurrencyConflict),
        socket.next(event) == socket,
{
}

/// Finishing an operation that is not in flight returns `NotInProgress` and
/// leaves the socket as it is, whatever the outcome handed in; and no native
/// call is handed out for it.
pub proof fn lemma_finish_not_in_flight(socket: TcpSocketView, kind: OperationKind, event: TcpEvent)
    requires
        event.finishes() == Some(kind),
        socket.in_flight() != Some(kind),
    ensures
        socket.reply(event) == Err::<(), NetworkError>(NetworkError::NotInProgress),
        socket.next(event) == socket,
        kind is Bind ==> socket.bind_request() == Err::<NativeCall, NetworkError>(
            NetworkError::NotInProgress,
        ),
        kind is Listen ==> socket.listen_request() == Err::<NativeCall, NetworkError>(
            NetworkError::NotInProgress,
        ),
        kind is Connect ==> socket.connect_request() == Err::<NativeCall, NetworkError>(
            NetworkError::NotInProgress,
        ),
{
}

/// An operation is in flight only from its own start on.
pub proof fn lemma_in_flight_was_started(
    socket: TcpSocketView,
    events: Seq<TcpEvent>,
    kind: OperationKind,
)
    requires
        socket.in_flight() != Some(kind),
        forall|i: int| 0 <= i < events.len() ==> (#[trigger] events[i]).starts() != Some(kind),
    ensures
        socket.after(events).in_flight() != Some(kind),
    decreases events.len(),
{
    if events.len() > 0 {
        let rest = events.drop_first();
        assert(events.first() == events[0]);
        assert forall|i: int| 0 <= i < rest.len() implies (#[trigger] rest[i]).starts() != Some(
            kind,
        ) by {
            assert(rest[i] == events[i + 1]);
        }
        lemma_in_flight_was_started(socket.next(events.first()), rest, kind);
    }
}

/// On a socket that was created and then used without ever starting an
/// operation of some kind, finishing an operation of that kind returns
/// `NotInProgress` and leaves the socket as it is.
pub proof fn lemma_finish_without_start(
    address_family: AddressFamily,
    events: Seq<TcpEvent>,
    kind: OperationKind,
    finish: TcpEvent,
)
    requires
        forall|i: int| 0 <= i < events.len() ==> (#[trigger] events[i]).starts() != Some(kind),
        finish.finishes() == Some(kind),
    ensures
        ({
            let socket = TcpSocketView::fresh(address_family).after(events);
            &&& socket.reply(finish) == Err::<(), NetworkError>(NetworkError::NotInProgress)
            &&& socket.next(finish) == socket
        }),
{
    let fresh = TcpSocketView::fresh(address_family);
    lemma_in_flight_was_started(fresh, events, kind);
    lemma_finish_not_in_flight(fresh.after(events), kind, finish);
}

/// An operation that fails makes no part of its change: the socket is as it
/// was, but that a finish has emptied the slot for the operation in flight.
pub proof fn lemma_failure_changes_nothing(socket: TcpSocketView, event: TcpEvent)
    requires
        socket.reply(event) is Err,
    ensures
        socket.next(event) == socket || (event.finishes() is Some && socket.next(event)
            == socket.with_operation(None)),
{
}

/// The address of a bind or a connect that the host is asked to make is one
/// that the network of the operation grants, and the address of a connect
/// names a peer.
pub proof fn lemma_requests_are_granted(socket: TcpSocketView, address: IpSocketAddress)
    requires
        socket.wf(),
    ensures
        socket.bind_request() == Ok::<NativeCall, NetworkError>(NativeCall::Bind { address }) ==> {
            &&& socket.active_operation() matches Some(TcpOperationView::Bind { network, .. })
            &&& permits(network, address)
        },
        socket.connect_request() == Ok::<NativeCall, NetworkError>(
            NativeCall::Connect { address },
        ) ==> {
            &&& socket.active_operation() matches Some(TcpOperationView::Connect { network, .. })
            &&& permits(network, address)
            &&& address.spec_is_valid_remote()
        },
{
}

/// From a shutdown that has succeeded on, the socket answers for the sides
/// that were shut down: the input stream is at its end, and whatever is
/// written to the output stream fails.
pub proof fn lemma_shutdown_closes(
    socket: TcpSocketView,
    how: ShutdownType,
    outcome: Result<(), OsError>,
    length: u64,
    call: NativeCall,
)
    requires
        socket.shutdown(how, outcome).1 is Ok,
    ensures
        ({
            let closed = socket.shutdown(how, outcome).0;
            &&& socket.state is Connection
            &&& closed.state is Connection
            &&& how.spec_closes_receive() ==> {
                &&& closed.read() == Ok::<Step<(u64, bool)>, NetworkError>(Step::Done((0, true)))
                &&& closed.skip(length) == Ok::<Step<(u64, bool)>, NetworkError>(
                    Step::Done((0, true)),
                )
                &&& closed.num_ready_bytes() == Ok::<Step<u64>, NetworkError>(Step::Done(0))
                &&& closed.readable() == Err::<NativeCall, NetworkError>(NetworkError::NotConnected)
            }
            &&& how.spec_closes_send() ==> closed.output(call) == Err::<NativeCall, NetworkError>(
                NetworkError::NotConnected,
            )
        }),
{
}

/// A side of a connection that is closed stays closed, whatever is done
/// with the socket.
pub proof fn lemma_closed_sides_stay_closed(socket: TcpSocketView, events: Seq<TcpEvent>)
    requires
        socket.wf(),
        socket.state is Connection,
    ensures
        !socket.can_receive() ==> !socket.after(events).can_receive(),
        !socket.can_send() ==> !socket.after(events).can_send(),
    decreases events.len(),
{
    if events.len() > 0 {
        lemma_step(socket, events.first());
        lemma_closed_sides_stay_closed(socket.next(events.first()), events.drop_first());
    }
}

/// A socket that a listener accepts is a well-formed connection of the
/// listener's family, with both sides open, under the listener's network;
/// and only a listener accepts.
pub proof fn lemma_accepted_is_connection(
    socket: TcpSocketView,
    outcome: Result<AcceptedConnection, OsError>,
)
    ensures
        socket.accept(outcome) matches Ok(accepted) ==> {
            &&& socket.state is Listener
            &&& accepted.wf()
            &&& accepted.address_family == socket.address_family
            &&& accepted.can_receive()
            &&& accepted.can_send()
            &&& accepted.binding()->Some_0.network == socket.binding()->Some_0.network
        },
        !(socket.state is Listener) ==> socket.accept(outcome) == Err::<
            TcpSocketView,
            NetworkError,
        >(NetworkError::NotListening),
{
}

} // verus!
