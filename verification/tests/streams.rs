use wasi_sockets::error::{NetworkError, OsError};
use wasi_sockets::stream::{
    count_reply, read_reply, readable_reply, skip_reply, writable_reply, write_reply,
};

#[test]
fn read_of_nothing_is_the_end_of_the_stream() {
    assert_eq!(read_reply(Ok(0)), Ok((0, true)));
}

#[test]
fn read_of_bytes_goes_on() {
    assert_eq!(read_reply(Ok(1)), Ok((1, false)));
    assert_eq!(read_reply(Ok(4096)), Ok((4096, false)));
}

#[test]
fn interrupted_read_has_read_nothing() {
    assert_eq!(read_reply(Err(OsError::Interrupted)), Ok((0, false)));
}

#[test]
fn failed_read_reports_the_error() {
    assert_eq!(read_reply(Err(OsError::ConnectionReset)), Err(NetworkError::ConnectionReset));
    assert_eq!(read_reply(Err(OsError::WouldBlock)), Err(NetworkError::WouldBlock));
    assert_eq!(read_reply(Err(OsError::Other)), Err(NetworkError::Unknown));
}

#[test]
fn skip_ends_the_stream_when_fewer_bytes_were_there() {
    assert_eq!(skip_reply(10, Ok(10)), Ok((10, false)));
    assert_eq!(skip_reply(10, Ok(9)), Ok((9, true)));
    assert_eq!(skip_reply(10, Ok(0)), Ok((0, true)));
    assert_eq!(skip_reply(0, Ok(0)), Ok((0, false)));
    assert_eq!(skip_reply(10, Err(OsError::TimedOut)), Err(NetworkError::Timeout));
}

#[test]
fn write_returns_the_count() {
    assert_eq!(write_reply(Ok(0)), Ok(0));
    assert_eq!(write_reply(Ok(17)), Ok(17));
    assert_eq!(write_reply(Err(OsError::NotConnected)), Err(NetworkError::NotConnected));
    assert_eq!(count_reply(Ok(3)), Ok(3));
    assert_eq!(count_reply(Err(OsError::NoBufferSpace)), Err(NetworkError::OutOfMemory));
}

#[test]
fn readable_looks_at_the_receiving_side() {
    assert_eq!(readable_reply(Ok((true, false))), Ok(()));
    assert_eq!(readable_reply(Ok((true, true))), Ok(()));
    assert_eq!(readable_reply(Ok((false, true))), Err(NetworkError::NotConnected));
    assert_eq!(readable_reply(Err(OsError::AccessDenied)), Err(NetworkError::AccessDenied));
}

#[test]
fn writable_looks_at_the_sending_side() {
    assert_eq!(writable_reply(Ok((false, true))), Ok(()));
    assert_eq!(writable_reply(Ok((true, true))), Ok(()));
    assert_eq!(writable_reply(Ok((true, false))), Err(NetworkError::NotConnected));
    assert_eq!(writable_reply(Err(OsError::Other)), Err(NetworkError::Unknown));
}
