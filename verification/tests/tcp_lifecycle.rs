use cap_std::ambient_authority;
use cap_std::ipnet::IpNet;
use cap_std::net::{IpAddr, Ipv4Addr, Ipv6Addr, Pool};
use wasi_sockets::address::{
    AddressFamily, IpSocketAddress, Ipv4Address, Ipv4SocketAddress, Ipv6Address, Ipv6SocketAddress,
};
use wasi_sockets::error::{NetworkError, OsError};
use wasi_sockets::native::{AcceptedConnection, NativeCall, ShutdownType, Step};
use wasi_sockets::network::Network;
use wasi_sockets::tcp::model::{Lifecycle, OperationKind};
use wasi_sockets::tcp::TcpSocket;

fn v4(a: u8, b: u8, c: u8, d: u8, port: u16) -> IpSocketAddress {
    IpSocketAddress::Ipv4(Ipv4SocketAddress { port, address: Ipv4Address(a, b, c, d) })
}

fn v6(last: u16, port: u16) -> IpSocketAddress {
    IpSocketAddress::Ipv6(Ipv6SocketAddress {
        port,
        flow_info: 0,
        address: Ipv6Address(0, 0, 0, 0, 0, 0, 0, last),
        scope_id: 0,
    })
}

fn open_network() -> Network {
    let mut pool = Pool::new();
    pool.insert_ip_net_port_any(
        IpNet::new(IpAddr::V4(Ipv4Addr::new(0, 0, 0, 0)), 0).unwrap(),
        ambient_authority(),
    );
    pool.insert_ip_net_port_any(
        IpNet::new(IpAddr::V6(Ipv6Addr::UNSPECIFIED), 0).unwrap(),
        ambient_authority(),
    );
    Network::new(pool)
}

fn loopback_network() -> Network {
    let mut pool = Pool::new();
    pool.insert_ip_net_port_any(
        IpNet::new(IpAddr::V4(Ipv4Addr::new(127, 0, 0, 0)), 8).unwrap(),
        ambient_authority(),
    );
    Network::new(pool)
}

fn fresh(family: AddressFamily) -> TcpSocket {
    TcpSocket::new(family, Ok(())).unwrap()
}

fn bound() -> TcpSocket {
    let mut socket = fresh(AddressFamily::INET);
    socket.start_bind(&open_network(), v4(127, 0, 0, 1, 0)).unwrap();
    socket.finish_bind(Ok(v4(127, 0, 0, 1, 40000))).unwrap();
    socket
}

fn listener() -> TcpSocket {
    let mut socket = bound();
    socket.start_listen(&open_network()).unwrap();
    socket.finish_listen(Ok(())).unwrap();
    socket
}

fn connection() -> TcpSocket {
    let mut socket = fresh(AddressFamily::INET);
    socket.start_connect(&open_network(), v4(93, 184, 216, 34, 80)).unwrap();
    socket.finish_connect(Ok(v4(192, 168, 1, 5, 51000))).unwrap();
    socket
}

#[test]
fn new_socket_is_indeterminate_and_unbound() {
    let socket = fresh(AddressFamily::INET6);
    assert_eq!(socket.address_family(), AddressFamily::INET6);
    assert_eq!(socket.lifecycle(), Lifecycle::Indeterminate);
    assert_eq!(socket.in_flight(), None);
    assert_eq!(socket.listen_backlog_size(), Some(1024));
    assert_eq!(socket.local_address(), Err(NetworkError::NotBound));
    assert_eq!(socket.remote_address(), Err(NetworkError::NotConnected));
}

#[test]
fn new_socket_reports_why_the_native_socket_failed() {
    assert_eq!(
        TcpSocket::new(AddressFamily::INET6, Err(OsError::AddressFamilyNotSupported)).err(),
        Some(NetworkError::AddressFamilyNotSupported)
    );
    assert_eq!(
        TcpSocket::new(AddressFamily::INET, Err(OsError::ProcessFileLimit)).err(),
        Some(NetworkError::NewSocketLimit)
    );
    assert_eq!(
        TcpSocket::new(AddressFamily::INET, Err(OsError::Other)).err(),
        Some(NetworkError::Unknown)
    );
}

#[test]
fn bind_to_loopback_with_port_zero_gets_the_assigned_port() {
    let network = loopback_network();
    let mut socket = fresh(AddressFamily::INET);
    assert_eq!(socket.start_bind(&network, v4(127, 0, 0, 1, 0)), Ok(()));
    assert_eq!(socket.in_flight(), Some(OperationKind::Bind));
    assert_eq!(socket.local_address(), Err(NetworkError::NotBound));
    assert_eq!(socket.bind_request(), Ok(NativeCall::Bind { address: v4(127, 0, 0, 1, 0) }));
    assert_eq!(socket.finish_bind(Ok(v4(127, 0, 0, 1, 49152))), Ok(()));
    assert_eq!(socket.lifecycle(), Lifecycle::Indeterminate);
    assert_eq!(socket.in_flight(), None);
    assert_eq!(socket.local_address(), Ok(v4(127, 0, 0, 1, 49152)));
    assert_eq!(socket.local_address().unwrap().port(), 49152);
}

#[test]
fn bound_socket_becomes_listener_and_refuses_to_bind_again() {
    let network = open_network();
    let mut socket = bound();
    assert_eq!(socket.start_listen(&network), Ok(()));
    assert_eq!(socket.in_flight(), Some(OperationKind::Listen));
    assert_eq!(socket.lifecycle(), Lifecycle::Indeterminate);
    assert_eq!(socket.listen_request(), Ok(NativeCall::Listen { backlog: 1024 }));
    assert_eq!(socket.finish_listen(Ok(())), Ok(()));
    assert_eq!(socket.lifecycle(), Lifecycle::Listener);
    assert_eq!(socket.local_address(), Ok(v4(127, 0, 0, 1, 40000)));
    assert_eq!(socket.start_bind(&network, v4(127, 0, 0, 1, 0)), Err(NetworkError::AlreadyBound));
    assert_eq!(socket.lifecycle(), Lifecycle::Listener);
}

#[test]
fn accept_without_pending_connection_would_block() {
    let socket = listener();
    assert_eq!(socket.accept_request(), Ok(NativeCall::Accept));
    assert_eq!(socket.accept(Err(OsError::WouldBlock)).err(), Some(NetworkError::WouldBlock));
    assert_eq!(socket.lifecycle(), Lifecycle::Listener);
}

#[test]
fn accept_yields_a_connection_of_the_listeners_family() {
    let socket = listener();
    let accepted = socket
        .accept(Ok(AcceptedConnection {
            local_address: v4(127, 0, 0, 1, 40000),
            remote_address: v4(127, 0, 0, 1, 53211),
        }))
        .unwrap();
    assert_eq!(accepted.lifecycle(), Lifecycle::Connection);
    assert_eq!(accepted.address_family(), AddressFamily::INET);
    assert_eq!(accepted.local_address(), Ok(v4(127, 0, 0, 1, 40000)));
    assert_eq!(accepted.remote_address(), Ok(v4(127, 0, 0, 1, 53211)));
    assert_eq!(accepted.read(), Ok(Step::Call(NativeCall::Read)));
    assert_eq!(accepted.write(), Ok(NativeCall::Write));
    assert_eq!(socket.lifecycle(), Lifecycle::Listener);
}

#[test]
fn accept_needs_a_listener() {
    let socket = fresh(AddressFamily::INET);
    assert_eq!(socket.accept_request(), Err(NetworkError::NotListening));
    let connection = AcceptedConnection {
        local_address: v4(127, 0, 0, 1, 1),
        remote_address: v4(127, 0, 0, 1, 2),
    };
    assert_eq!(socket.accept(Ok(connection)).err(), Some(NetworkError::NotListening));
    assert_eq!(bound().accept_request(), Err(NetworkError::NotListening));
    assert_eq!(connection_socket_accept(), Some(NetworkError::NotListening));
}

fn connection_socket_accept() -> Option<NetworkError> {
    connection().accept(Err(OsError::WouldBlock)).err()
}

#[test]
fn accept_reports_other_errors_of_the_operating_system() {
    let socket = listener();
    assert_eq!(socket.accept(Err(OsError::ProcessFileLimit)).err(), Some(NetworkError::NewSocketLimit));
    assert_eq!(socket.accept(Err(OsError::OutOfMemory)).err(), Some(NetworkError::OutOfMemory));
}

#[test]
fn shutdown_both_ends_reads_and_fails_writes() {
    let mut socket = connection();
    assert_eq!(socket.read(), Ok(Step::Call(NativeCall::Read)));
    assert_eq!(socket.write(), Ok(NativeCall::Write));
    assert_eq!(
        socket.shutdown_request(ShutdownType::Both),
        Ok(NativeCall::Shutdown { how: ShutdownType::Both })
    );
    assert_eq!(socket.shutdown(ShutdownType::Both, Ok(())), Ok(()));
    assert_eq!(socket.lifecycle(), Lifecycle::Connection);
    assert_eq!(socket.read(), Ok(Step::Done((0, true))));
    assert_eq!(socket.skip(10), Ok(Step::Done((0, true))));
    assert_eq!(socket.num_ready_bytes(), Ok(Step::Done(0)));
    assert_eq!(socket.readable(), Err(NetworkError::NotConnected));
    assert_eq!(socket.write(), Err(NetworkError::NotConnected));
    assert_eq!(socket.write_zeroes(4), Err(NetworkError::NotConnected));
    assert_eq!(socket.splice(4), Err(NetworkError::NotConnected));
    assert_eq!(socket.writable(), Err(NetworkError::NotConnected));
}

#[test]
fn shutdown_of_one_side_leaves_the_other_open() {
    let mut socket = connection();
    assert_eq!(socket.shutdown(ShutdownType::Receive, Ok(())), Ok(()));
    assert_eq!(socket.read(), Ok(Step::Done((0, true))));
    assert_eq!(socket.write(), Ok(NativeCall::Write));
    assert_eq!(socket.writable(), Ok(NativeCall::ReadWrite));
    assert_eq!(socket.shutdown(ShutdownType::Send, Ok(())), Ok(()));
    assert_eq!(socket.read(), Ok(Step::Done((0, true))));
    assert_eq!(socket.write(), Err(NetworkError::NotConnected));

    let mut socket = connection();
    assert_eq!(socket.shutdown(ShutdownType::Send, Ok(())), Ok(()));
    assert_eq!(socket.read(), Ok(Step::Call(NativeCall::Read)));
    assert_eq!(socket.skip(7), Ok(Step::Call(NativeCall::Skip { length: 7 })));
    assert_eq!(socket.num_ready_bytes(), Ok(Step::Call(NativeCall::ReadyBytes)));
    assert_eq!(socket.readable(), Ok(NativeCall::ReadWrite));
    assert_eq!(socket.write(), Err(NetworkError::NotConnected));
}

#[test]
fn failed_shutdown_closes_nothing() {
    let mut socket = connection();
    assert_eq!(
        socket.shutdown(ShutdownType::Both, Err(OsError::NotConnected)),
        Err(NetworkError::NotSupported)
    );
    assert_eq!(socket.read(), Ok(Step::Call(NativeCall::Read)));
    assert_eq!(socket.write(), Ok(NativeCall::Write));
}

#[test]
fn shutdown_needs_a_connection() {
    let mut socket = fresh(AddressFamily::INET);
    assert_eq!(socket.shutdown_request(ShutdownType::Both), Err(NetworkError::NotConnected));
    assert_eq!(socket.shutdown(ShutdownType::Both, Ok(())), Err(NetworkError::NotConnected));
    let mut socket = listener();
    assert_eq!(socket.shutdown_request(ShutdownType::Send), Err(NetworkError::NotConnected));
    assert_eq!(socket.shutdown(ShutdownType::Send, Ok(())), Err(NetworkError::NotConnected));
    assert_eq!(socket.lifecycle(), Lifecycle::Listener);
    let mut socket = fresh(AddressFamily::INET);
    socket.start_connect(&open_network(), v4(10, 0, 0, 1, 80)).unwrap();
    assert_eq!(socket.shutdown_request(ShutdownType::Both), Err(NetworkError::ConcurrencyConflict));
    assert_eq!(socket.shutdown(ShutdownType::Both, Ok(())), Err(NetworkError::ConcurrencyConflict));
    assert_eq!(socket.in_flight(), Some(OperationKind::Connect));
}

#[test]
fn streams_need_a_connection() {
    let socket = fresh(AddressFamily::INET);
    assert_eq!(socket.read(), Err(NetworkError::NotConnected));
    assert_eq!(socket.skip(1), Err(NetworkError::NotConnected));
    assert_eq!(socket.num_ready_bytes(), Err(NetworkError::NotConnected));
    assert_eq!(socket.readable(), Err(NetworkError::NotConnected));
    assert_eq!(socket.write(), Err(NetworkError::NotConnected));
    let socket = listener();
    assert_eq!(socket.read(), Err(NetworkError::NotConnected));
    assert_eq!(socket.write_zeroes(1), Err(NetworkError::NotConnected));
    let socket = connection();
    assert_eq!(socket.write_zeroes(9), Ok(NativeCall::WriteZeroes { length: 9 }));
    assert_eq!(socket.splice(11), Ok(NativeCall::Splice { length: 11 }));
}

#[test]
fn connect_to_wildcard_is_invalid_before_any_call() {
    let network = open_network();
    let mut socket = fresh(AddressFamily::INET);
    assert_eq!(
        socket.start_connect(&network, v4(0, 0, 0, 0, 80)),
        Err(NetworkError::InvalidRemoteAddress)
    );
    assert_eq!(socket.in_flight(), None);
    assert_eq!(socket.connect_request(), Err(NetworkError::NotInProgress));
    assert_eq!(socket.lifecycle(), Lifecycle::Indeterminate);
}

#[test]
fn connect_to_port_zero_is_invalid() {
    let network = open_network();
    let mut socket = fresh(AddressFamily::INET);
    assert_eq!(
        socket.start_connect(&network, v4(10, 0, 0, 1, 0)),
        Err(NetworkError::InvalidRemoteAddress)
    );
    let mut socket = fresh(AddressFamily::INET6);
    assert_eq!(socket.start_connect(&network, v6(0, 443)), Err(NetworkError::InvalidRemoteAddress));
    assert_eq!(socket.start_connect(&network, v6(1, 0)), Err(NetworkError::InvalidRemoteAddress));
    assert_eq!(socket.start_connect(&network, v6(1, 443)), Ok(()));
}

#[test]
fn connect_makes_a_connection() {
    let network = open_network();
    let mut socket = fresh(AddressFamily::INET);
    assert_eq!(socket.start_connect(&network, v4(93, 184, 216, 34, 80)), Ok(()));
    assert_eq!(socket.in_flight(), Some(OperationKind::Connect));
    assert_eq!(
        socket.connect_request(),
        Ok(NativeCall::Connect { address: v4(93, 184, 216, 34, 80) })
    );
    assert_eq!(socket.finish_connect(Ok(v4(192, 168, 1, 5, 51000))), Ok(()));
    assert_eq!(socket.lifecycle(), Lifecycle::Connection);
    assert_eq!(socket.remote_address(), Ok(v4(93, 184, 216, 34, 80)));
    assert_eq!(socket.local_address(), Ok(v4(192, 168, 1, 5, 51000)));
    assert_eq!(socket.in_flight(), None);
    assert_eq!(socket.listen_backlog_size(), None);
}

#[test]
fn connect_on_a_bound_socket_takes_the_reported_local_address() {
    let mut socket = fresh(AddressFamily::INET);
    socket.start_bind(&open_network(), v4(0, 0, 0, 0, 0)).unwrap();
    socket.finish_bind(Ok(v4(0, 0, 0, 0, 45000))).unwrap();
    socket.start_connect(&open_network(), v4(10, 0, 0, 9, 22)).unwrap();
    assert_eq!(socket.finish_connect(Ok(v4(10, 0, 0, 2, 45000))), Ok(()));
    assert_eq!(socket.local_address(), Ok(v4(10, 0, 0, 2, 45000)));
    assert_eq!(socket.remote_address(), Ok(v4(10, 0, 0, 9, 22)));
}

#[test]
fn connect_that_would_block_stays_in_flight() {
    let mut socket = fresh(AddressFamily::INET);
    socket.start_connect(&open_network(), v4(10, 0, 0, 9, 22)).unwrap();
    assert_eq!(socket.finish_connect(Err(OsError::InProgress)), Err(NetworkError::WouldBlock));
    assert_eq!(socket.in_flight(), Some(OperationKind::Connect));
    assert_eq!(socket.connect_request(), Ok(NativeCall::Connect { address: v4(10, 0, 0, 9, 22) }));
    assert_eq!(socket.finish_connect(Err(OsError::WouldBlock)), Err(NetworkError::WouldBlock));
    assert_eq!(socket.in_flight(), Some(OperationKind::Connect));
    assert_eq!(socket.lifecycle(), Lifecycle::Indeterminate);
    assert_eq!(socket.finish_connect(Ok(v4(10, 0, 0, 2, 45000))), Ok(()));
    assert_eq!(socket.lifecycle(), Lifecycle::Connection);
}

#[test]
fn failed_connect_leaves_the_socket_as_before() {
    let mut socket = bound();
    socket.start_connect(&open_network(), v4(10, 0, 0, 9, 22)).unwrap();
    assert_eq!(
        socket.finish_connect(Err(OsError::ConnectionRefused)),
        Err(NetworkError::ConnectionRefused)
    );
    assert_eq!(socket.lifecycle(), Lifecycle::Indeterminate);
    assert_eq!(socket.in_flight(), None);
    assert_eq!(socket.local_address(), Ok(v4(127, 0, 0, 1, 40000)));
    assert_eq!(socket.remote_address(), Err(NetworkError::NotConnected));
    socket.start_connect(&open_network(), v4(10, 0, 0, 9, 22)).unwrap();
    assert_eq!(socket.finish_connect(Err(OsError::TimedOut)), Err(NetworkError::Timeout));
    socket.start_connect(&open_network(), v4(10, 0, 0, 9, 22)).unwrap();
    assert_eq!(
        socket.finish_connect(Err(OsError::HostUnreachable)),
        Err(NetworkError::RemoteUnreachable)
    );
    socket.start_connect(&open_network(), v4(10, 0, 0, 9, 22)).unwrap();
    assert_eq!(
        socket.finish_connect(Err(OsError::ConnectionReset)),
        Err(NetworkError::ConnectionReset)
    );
}

#[test]
fn failed_bind_leaves_the_socket_unbound() {
    let network = open_network();
    let mut socket = fresh(AddressFamily::INET);
    socket.start_bind(&network, v4(127, 0, 0, 1, 80)).unwrap();
    assert_eq!(socket.finish_bind(Err(OsError::AddressInUse)), Err(NetworkError::AddressInUse));
    assert_eq!(socket.lifecycle(), Lifecycle::Indeterminate);
    assert_eq!(socket.in_flight(), None);
    assert_eq!(socket.local_address(), Err(NetworkError::NotBound));
    socket.start_bind(&network, v4(1, 2, 3, 4, 80)).unwrap();
    assert_eq!(
        socket.finish_bind(Err(OsError::AddressNotAvailable)),
        Err(NetworkError::AddressNotBindable)
    );
    socket.start_bind(&network, v4(127, 0, 0, 1, 80)).unwrap();
    assert_eq!(socket.finish_bind(Err(OsError::AccessDenied)), Err(NetworkError::AccessDenied));
    socket.start_bind(&network, v4(127, 0, 0, 1, 80)).unwrap();
    assert_eq!(socket.finish_bind(Err(OsError::WouldBlock)), Err(NetworkError::WouldBlock));
    assert_eq!(socket.in_flight(), None);
    assert_eq!(socket.start_bind(&network, v4(127, 0, 0, 1, 80)), Ok(()));
}

#[test]
fn failed_listen_leaves_the_socket_bound() {
    let mut socket = bound();
    socket.start_listen(&open_network()).unwrap();
    assert_eq!(socket.finish_listen(Err(OsError::AddressInUse)), Err(NetworkError::AddressInUse));
    assert_eq!(socket.lifecycle(), Lifecycle::Indeterminate);
    assert_eq!(socket.in_flight(), None);
    assert_eq!(socket.local_address(), Ok(v4(127, 0, 0, 1, 40000)));
    assert_eq!(socket.start_listen(&open_network()), Ok(()));
}

#[test]
fn start_bind_checks_family_and_network() {
    let mut socket = fresh(AddressFamily::INET);
    assert_eq!(
        socket.start_bind(&open_network(), v6(1, 80)),
        Err(NetworkError::AddressFamilyMismatch)
    );
    assert_eq!(
        socket.start_bind(&loopback_network(), v4(10, 0, 0, 1, 80)),
        Err(NetworkError::AccessDenied)
    );
    assert_eq!(socket.in_flight(), None);
    assert_eq!(socket.bind_request(), Err(NetworkError::NotInProgress));
    let mut socket = fresh(AddressFamily::INET6);
    assert_eq!(
        socket.start_bind(&open_network(), v4(127, 0, 0, 1, 80)),
        Err(NetworkError::AddressFamilyMismatch)
    );
    assert_eq!(socket.start_bind(&open_network(), v6(1, 80)), Ok(()));
}

#[test]
fn start_connect_checks_family_and_network() {
    let mut socket = fresh(AddressFamily::INET);
    assert_eq!(
        socket.start_connect(&open_network(), v6(1, 80)),
        Err(NetworkError::AddressFamilyMismatch)
    );
    assert_eq!(
        socket.start_connect(&loopback_network(), v4(10, 0, 0, 1, 80)),
        Err(NetworkError::AccessDenied)
    );
    assert_eq!(socket.in_flight(), None);
    assert_eq!(socket.start_connect(&loopback_network(), v4(127, 0, 0, 9, 80)), Ok(()));
}

#[test]
fn start_connect_is_refused_on_a_listener_and_on_a_connection() {
    let mut socket = listener();
    assert_eq!(
        socket.start_connect(&open_network(), v4(10, 0, 0, 1, 80)),
        Err(NetworkError::AlreadyListening)
    );
    assert_eq!(socket.lifecycle(), Lifecycle::Listener);
    let mut socket = connection();
    assert_eq!(
        socket.start_connect(&open_network(), v4(10, 0, 0, 1, 80)),
        Err(NetworkError::AlreadyConnected)
    );
    assert_eq!(
        socket.start_connect(&open_network(), v4(0, 0, 0, 0, 80)),
        Err(NetworkError::AlreadyConnected)
    );
    assert_eq!(socket.lifecycle(), Lifecycle::Connection);
}

#[test]
fn start_listen_needs_a_bound_indeterminate_socket() {
    let network = open_network();
    let mut socket = fresh(AddressFamily::INET);
    assert_eq!(socket.start_listen(&network), Err(NetworkError::NotBound));
    assert_eq!(socket.in_flight(), None);
    let mut socket = listener();
    assert_eq!(socket.start_listen(&network), Err(NetworkError::AlreadyListening));
    let mut socket = connection();
    assert_eq!(socket.start_listen(&network), Err(NetworkError::AlreadyConnected));
    assert_eq!(socket.start_bind(&network, v4(127, 0, 0, 1, 0)), Err(NetworkError::AlreadyBound));
}

#[test]
fn start_while_another_operation_is_active_conflicts() {
    let network = open_network();
    let mut socket = fresh(AddressFamily::INET);
    socket.start_bind(&network, v4(127, 0, 0, 1, 8080)).unwrap();
    assert_eq!(
        socket.start_bind(&network, v4(127, 0, 0, 1, 9090)),
        Err(NetworkError::ConcurrencyConflict)
    );
    assert_eq!(socket.start_listen(&network), Err(NetworkError::ConcurrencyConflict));
    assert_eq!(
        socket.start_connect(&network, v4(10, 0, 0, 1, 80)),
        Err(NetworkError::ConcurrencyConflict)
    );
    assert_eq!(
        socket.start_connect(&network, v4(0, 0, 0, 0, 0)),
        Err(NetworkError::ConcurrencyConflict)
    );
    assert_eq!(socket.in_flight(), Some(OperationKind::Bind));
    assert_eq!(socket.bind_request(), Ok(NativeCall::Bind { address: v4(127, 0, 0, 1, 8080) }));
    assert_eq!(socket.finish_bind(Ok(v4(127, 0, 0, 1, 8080))), Ok(()));

    socket.start_listen(&network).unwrap();
    assert_eq!(
        socket.start_bind(&network, v4(127, 0, 0, 1, 9090)),
        Err(NetworkError::ConcurrencyConflict)
    );
    assert_eq!(socket.in_flight(), Some(OperationKind::Listen));

    let mut socket = fresh(AddressFamily::INET);
    socket.start_connect(&network, v4(10, 0, 0, 1, 80)).unwrap();
    assert_eq!(socket.start_listen(&network), Err(NetworkError::ConcurrencyConflict));
    assert_eq!(
        socket.start_connect(&network, v4(10, 0, 0, 2, 80)),
        Err(NetworkError::ConcurrencyConflict)
    );
    assert_eq!(socket.connect_request(), Ok(NativeCall::Connect { address: v4(10, 0, 0, 1, 80) }));
}

#[test]
fn finish_without_start_is_not_in_progress() {
    let mut socket = fresh(AddressFamily::INET);
    assert_eq!(socket.bind_request(), Err(NetworkError::NotInProgress));
    assert_eq!(socket.listen_request(), Err(NetworkError::NotInProgress));
    assert_eq!(socket.connect_request(), Err(NetworkError::NotInProgress));
    assert_eq!(socket.finish_bind(Ok(v4(127, 0, 0, 1, 4000))), Err(NetworkError::NotInProgress));
    assert_eq!(socket.finish_listen(Ok(())), Err(NetworkError::NotInProgress));
    assert_eq!(socket.finish_connect(Ok(v4(127, 0, 0, 1, 4000))), Err(NetworkError::NotInProgress));
    assert_eq!(socket.lifecycle(), Lifecycle::Indeterminate);
    assert_eq!(socket.local_address(), Err(NetworkError::NotBound));
    assert_eq!(socket.remote_address(), Err(NetworkError::NotConnected));
    assert_eq!(socket.listen_backlog_size(), Some(1024));
}

#[test]
fn finish_of_another_operation_than_the_one_in_flight_is_not_in_progress() {
    let mut socket = fresh(AddressFamily::INET);
    socket.start_bind(&open_network(), v4(127, 0, 0, 1, 0)).unwrap();
    assert_eq!(socket.finish_listen(Ok(())), Err(NetworkError::NotInProgress));
    assert_eq!(socket.finish_connect(Ok(v4(127, 0, 0, 1, 1))), Err(NetworkError::NotInProgress));
    assert_eq!(socket.listen_request(), Err(NetworkError::NotInProgress));
    assert_eq!(socket.in_flight(), Some(OperationKind::Bind));
    assert_eq!(socket.finish_bind(Ok(v4(127, 0, 0, 1, 5000))), Ok(()));
    assert_eq!(socket.finish_bind(Ok(v4(127, 0, 0, 1, 6000))), Err(NetworkError::NotInProgress));
    assert_eq!(socket.local_address(), Ok(v4(127, 0, 0, 1, 5000)));
}

#[test]
fn finish_on_listener_and_connection_is_not_in_progress() {
    let mut socket = listener();
    assert_eq!(socket.finish_listen(Ok(())), Err(NetworkError::NotInProgress));
    assert_eq!(socket.finish_bind(Ok(v4(1, 1, 1, 1, 1))), Err(NetworkError::NotInProgress));
    assert_eq!(socket.lifecycle(), Lifecycle::Listener);
    let mut socket = connection();
    assert_eq!(socket.finish_connect(Ok(v4(1, 1, 1, 1, 1))), Err(NetworkError::NotInProgress));
    assert_eq!(socket.finish_connect(Err(OsError::Other)), Err(NetworkError::NotInProgress));
    assert_eq!(socket.lifecycle(), Lifecycle::Connection);
    assert_eq!(socket.local_address(), Ok(v4(192, 168, 1, 5, 51000)));
}

#[test]
fn listen_backlog_is_kept_until_listening() {
    let mut socket = bound();
    assert_eq!(socket.set_listen_backlog_size(16), Ok(Step::Done(())));
    assert_eq!(socket.listen_backlog_size(), Some(16));
    socket.start_listen(&open_network()).unwrap();
    assert_eq!(socket.listen_request(), Ok(NativeCall::Listen { backlog: 16 }));
    assert_eq!(socket.set_listen_backlog_size(32), Err(NetworkError::ConcurrencyConflict));
    assert_eq!(socket.listen_request(), Ok(NativeCall::Listen { backlog: 16 }));
    socket.finish_listen(Ok(())).unwrap();
    assert_eq!(
        socket.set_listen_backlog_size(64),
        Ok(Step::Call(NativeCall::Listen { backlog: 64 }))
    );
    assert_eq!(socket.lifecycle(), Lifecycle::Listener);
    assert_eq!(socket.listen_backlog_size(), None);
}

#[test]
fn listen_backlog_is_clamped_to_what_the_operating_system_takes() {
    let mut socket = bound();
    socket.set_listen_backlog_size(u64::MAX).unwrap();
    socket.start_listen(&open_network()).unwrap();
    assert_eq!(socket.listen_request(), Ok(NativeCall::Listen { backlog: i32::MAX }));
    socket.finish_listen(Ok(())).unwrap();
    assert_eq!(
        socket.set_listen_backlog_size(2147483648),
        Ok(Step::Call(NativeCall::Listen { backlog: 2147483647 }))
    );
    assert_eq!(
        socket.set_listen_backlog_size(2147483647),
        Ok(Step::Call(NativeCall::Listen { backlog: 2147483647 }))
    );
    assert_eq!(socket.set_listen_backlog_size(0), Ok(Step::Call(NativeCall::Listen { backlog: 0 })));
}

#[test]
fn listen_backlog_cannot_be_set_on_a_connection() {
    let mut socket = connection();
    assert_eq!(socket.set_listen_backlog_size(5), Err(NetworkError::AlreadyConnected));
}

#[test]
fn adopted_sockets_are_in_the_state_their_addresses_tell() {
    let socket = TcpSocket::from_listener(open_network(), v6(1, 8080));
    assert_eq!(socket.lifecycle(), Lifecycle::Listener);
    assert_eq!(socket.address_family(), AddressFamily::INET6);
    assert_eq!(socket.local_address(), Ok(v6(1, 8080)));

    let socket = TcpSocket::from_stream(open_network(), v4(10, 0, 0, 1, 5000), v4(10, 0, 0, 2, 80));
    assert_eq!(socket.lifecycle(), Lifecycle::Connection);
    assert_eq!(socket.address_family(), AddressFamily::INET);
    assert_eq!(socket.local_address(), Ok(v4(10, 0, 0, 1, 5000)));
    assert_eq!(socket.remote_address(), Ok(v4(10, 0, 0, 2, 80)));
    assert_eq!(socket.read(), Ok(Step::Call(NativeCall::Read)));

    let socket = TcpSocket::from_native(
        AddressFamily::INET,
        open_network(),
        Some(v4(10, 0, 0, 1, 5000)),
        None,
        false,
    );
    assert_eq!(socket.lifecycle(), Lifecycle::Indeterminate);
    assert_eq!(socket.local_address(), Ok(v4(10, 0, 0, 1, 5000)));
    assert_eq!(socket.listen_backlog_size(), Some(1024));

    let socket = TcpSocket::from_native(AddressFamily::INET, open_network(), None, None, true);
    assert_eq!(socket.lifecycle(), Lifecycle::Indeterminate);
    assert_eq!(socket.local_address(), Err(NetworkError::NotBound));

    let socket = TcpSocket::from_native(
        AddressFamily::INET,
        open_network(),
        Some(v4(10, 0, 0, 1, 5000)),
        Some(v4(10, 0, 0, 2, 80)),
        true,
    );
    assert_eq!(socket.lifecycle(), Lifecycle::Connection);
}

#[test]
fn accepted_socket_is_under_the_listeners_network() {
    let mut socket = fresh(AddressFamily::INET);
    socket.start_bind(&loopback_network(), v4(127, 0, 0, 1, 0)).unwrap();
    socket.finish_bind(Ok(v4(127, 0, 0, 1, 40000))).unwrap();
    socket.start_listen(&loopback_network()).unwrap();
    socket.finish_listen(Ok(())).unwrap();
    let accepted = socket
        .accept(Ok(AcceptedConnection {
            local_address: v4(127, 0, 0, 1, 40000),
            remote_address: v4(127, 0, 0, 1, 53211),
        }))
        .unwrap();
    assert_eq!(accepted.lifecycle(), Lifecycle::Connection);
    assert_eq!(accepted.in_flight(), None);
    let network = accepted.network().unwrap();
    assert_eq!(network.check(v4(127, 9, 9, 9, 1)), Ok(()));
    assert_eq!(network.check(v4(10, 0, 0, 1, 1)), Err(NetworkError::AccessDenied));
}

#[test]
fn socket_keeps_the_network_it_was_bound_through() {
    let mut socket = fresh(AddressFamily::INET);
    assert!(socket.network().is_none());
    socket.start_bind(&loopback_network(), v4(127, 0, 0, 1, 0)).unwrap();
    assert!(socket.network().is_none());
    socket.finish_bind(Ok(v4(127, 0, 0, 1, 40000))).unwrap();
    assert_eq!(socket.network().unwrap().check(v4(127, 0, 0, 2, 5)), Ok(()));
    assert_eq!(
        socket.network().unwrap().check(v4(128, 0, 0, 2, 5)),
        Err(NetworkError::AccessDenied)
    );
    socket.start_connect(&open_network(), v4(10, 0, 0, 9, 22)).unwrap();
    socket.finish_connect(Ok(v4(127, 0, 0, 1, 40000))).unwrap();
    assert_eq!(
        socket.network().unwrap().check(v4(10, 0, 0, 9, 22)),
        Err(NetworkError::AccessDenied)
    );

    let mut socket = fresh(AddressFamily::INET);
    socket.start_connect(&loopback_network(), v4(127, 0, 0, 9, 22)).unwrap();
    socket.finish_connect(Ok(v4(127, 0, 0, 1, 40001))).unwrap();
    assert_eq!(socket.network().unwrap().check(v4(127, 3, 3, 3, 3)), Ok(()));
    assert_eq!(socket.network().unwrap().check(v4(1, 3, 3, 3, 3)), Err(NetworkError::AccessDenied));
}

#[test]
fn listener_and_connection_stay_what_they_are() {
    let network = open_network();
    let mut socket = listener();
    let _ = socket.start_bind(&network, v4(127, 0, 0, 1, 0));
    let _ = socket.finish_bind(Ok(v4(127, 0, 0, 1, 1)));
    let _ = socket.start_listen(&network);
    let _ = socket.finish_listen(Err(OsError::Other));
    let _ = socket.start_connect(&network, v4(10, 0, 0, 1, 80));
    let _ = socket.finish_connect(Ok(v4(127, 0, 0, 1, 1)));
    let _ = socket.set_listen_backlog_size(3);
    let _ = socket.shutdown(ShutdownType::Both, Ok(()));
    assert_eq!(socket.lifecycle(), Lifecycle::Listener);
    assert_eq!(socket.address_family(), AddressFamily::INET);
    assert_eq!(socket.local_address(), Ok(v4(127, 0, 0, 1, 40000)));
    assert_eq!(socket.in_flight(), None);

    let mut socket = connection();
    let _ = socket.start_bind(&network, v4(127, 0, 0, 1, 0));
    let _ = socket.finish_bind(Ok(v4(127, 0, 0, 1, 1)));
    let _ = socket.start_listen(&network);
    let _ = socket.finish_listen(Ok(()));
    let _ = socket.start_connect(&network, v4(10, 0, 0, 1, 80));
    let _ = socket.finish_connect(Err(OsError::ConnectionReset));
    let _ = socket.set_listen_backlog_size(3);
    let _ = socket.shutdown(ShutdownType::Send, Err(OsError::Other));
    assert_eq!(socket.lifecycle(), Lifecycle::Connection);
    assert_eq!(socket.remote_address(), Ok(v4(93, 184, 216, 34, 80)));
    assert_eq!(socket.local_address(), Ok(v4(192, 168, 1, 5, 51000)));
    assert_eq!(socket.write(), Ok(NativeCall::Write));
}
