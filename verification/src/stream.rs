//! What the outcome of a native call on a stream means for the guest.

use crate::error::{general_error, map_general_error, NetworkError, OsError};
use vstd::prelude::*;

verus! {

/// What a read returns for the number of bytes that the operating system
/// has read: the number, and whether the stream has ended. A read of no
/// bytes is the end of the stream; an interrupted read has read nothing and
/// the stream goes on.
pub fn read_reply(outcome: Result<usize, OsError>) -> (reply: Result<(u64, bool), NetworkError>)
    ensures
        reply == match outcome {
            Ok(read) => Ok::<(u64, bool), NetworkError>((read as u64, read == 0)),
            Err(OsError::Interrupted) => Ok((0, false)),
            Err(errno) => Err(general_error(errno)),
        },
{
    match outcome {
        Ok(0) => Ok((0, true)),
        Ok(read) => Ok((read as u64, false)),
        Err(OsError::Interrupted) => Ok((0, false)),
        Err(errno) => Err(map_general_error(errno)),
    }
}

/// What skipping or splicing `length` bytes returns for the number of bytes
/// that the host has moved: the number, and whether the stream has ended,
/// which it has where fewer bytes than asked for were there.
pub fn skip_reply(length: u64, outcome: Result<u64, OsError>) -> (reply: Result<
    (u64, bool),
    NetworkError,
>)
    ensures
        reply == match outcome {
            Ok(moved) => Ok::<(u64, bool), NetworkError>((moved, moved < length)),
            Err(errno) => Err(general_error(errno)),
        },
{
    match outcome {
        Ok(moved) => Ok((moved, moved < length)),
        Err(errno) => Err(map_general_error(errno)),
    }
}

/// What a write returns for the number of bytes that the operating system
/// has written.
pub fn write_reply(outcome: Result<usize, OsError>) -> (reply: Result<u64, NetworkError>)
    ensures
        reply == match outcome {
            Ok(written) => Ok::<u64, NetworkError>(written as u64),
            Err(errno) => Err(general_error(errno)),
        },
{
    match outcome {
        Ok(written) => Ok(written as u64),
        Err(errno) => Err(map_general_error(errno)),
    }
}

/// What a count of bytes that the host reports means for the guest: the
/// count of ready bytes, or of zero bytes written.
pub fn count_reply(outcome: Result<u64, OsError>) -> (reply: Result<u64, NetworkError>)
    ensures
        reply == match outcome {
            Ok(count) => Ok::<u64, NetworkError>(count),
            Err(errno) => Err(general_error(errno)),
        },
{
    match outcome {
        Ok(count) => Ok(count),
        Err(errno) => Err(map_general_error(errno)),
    }
}

/// Whether a stream can be read, for what the operating system reports of
/// the two sides of the socket, the receiving side first: a stream whose
/// side is closed is not connected.
pub fn readable_reply(outcome: Result<(bool, bool), OsError>) -> (reply: Result<(), NetworkError>)
    ensures
        reply == match outcome {
            Ok((true, _)) => Ok::<(), NetworkError>(()),
            Ok((false, _)) => Err(NetworkError::NotConnected),
            Err(errno) => Err(general_error(errno)),
        },
{
    match outcome {
        Ok((true, _)) => Ok(()),
        Ok((false, _)) => Err(NetworkError::NotConnected),
        Err(errno) => Err(map_general_error(errno)),
    }
}

/// Whether a stream can be written, for what the operating system reports
/// of the two sides of the socket, the sending side last.
pub fn writable_reply(outcome: Result<(bool, bool), OsError>) -> (reply: Result<(), NetworkError>)
    ensures
        reply == match outcome {
            Ok((_, true)) => Ok::<(), NetworkError>(()),
            Ok((_, false)) => Err(NetworkError::NotConnected),
            Err(errno) => Err(general_error(errno)),
        },
{
    match outcome {
        Ok((_, true)) => Ok(()),
        Ok((_, false)) => Err(NetworkError::NotConnected),
        Err(errno) => Err(map_general_error(errno)),
    }
}

} // verus!
