//! Host-side socket capabilities for a sandboxed guest.
//!
//! The guest sees TCP and UDP sockets as capabilities. Each socket is a small
//! state machine: it decides which operations are valid in its current state,
//! which call the host has to make to the operating system, and what the
//! answer of the operating system means for the guest. The state machines
//! never touch the operating system themselves: the host performs each
//! [`native::NativeCall`] that a socket hands out and reports the outcome
//! back, as `Ok` with what the call returned or as `Err` with an
//! [`error::OsError`].
//!
//! An operation that needs the operating system has two halves. One half
//! checks the operation against the state of the socket and names the native
//! call: the functions that return a `NativeCall`. The other half takes the
//! outcome of that call: `finish_bind`, `finish_listen`, `finish_connect`,
//! `accept` and `shutdown` on the sockets, and the reply functions in
//! [`options`], [`stream`] and [`udp`]. An operation that is refused in the
//! first half never reaches the operating system.

pub mod address;
pub mod console;
pub mod error;
pub mod native;
pub mod network;
pub mod options;
pub mod stream;
pub mod tcp;
pub mod udp;

pub use crate::address::AddressFamily;
pub use crate::error::NetworkError;
pub use crate::network::Network;
pub use crate::tcp::TcpSocket;
pub use crate::udp::UdpSocket;
