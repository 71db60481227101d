//! Socket options, the same for TCP and UDP sockets: when an option may be
//! read or set, how a requested value becomes the one handed to the operating
//! system, and how what the operating system reports becomes the value that
//! the guest sees.

use crate::address::AddressFamily;
use crate::error::{NetworkError, OsError};
use crate::native::{NativeCall, Platform};
use vstd::prelude::*;

verus! {

/// The buffer size to set natively so that `value` is what reads back: half
/// of it where the platform doubles what is set, and never less than 1.
pub open spec fn normalized_buffer_size(value: u64, platform: Platform) -> u64 {
    let halved = if platform == Platform::Linux {
        value / 2
    } else {
        value
    };
    if halved < 1 {
        1
    } else {
        halved
    }
}

/// The buffer size that the platform reports after `size` was set natively.
pub open spec fn committed_buffer_size(size: int, platform: Platform) -> int {
    if platform == Platform::Linux {
        2 * size
    } else {
        size
    }
}

/// A `u64` as a `usize`, or `usize::MAX` where it does not fit.
pub open spec fn saturated_usize(value: u64) -> usize {
    if value <= usize::MAX {
        value as usize
    } else {
        usize::MAX
    }
}

/// The backlog handed to the operating system for a requested backlog size:
/// the size itself, or `i32::MAX` where it does not fit.
pub open spec fn native_backlog(value: u64) -> i32 {
    if value <= i32::MAX {
        value as i32
    } else {
        i32::MAX
    }
}

/// Normalizes a requested buffer size for the platform of the host.
pub fn normalize_set_buffer_size(value: u64, platform: Platform) -> (normalized: u64)
    ensures
        normalized == normalized_buffer_size(value, platform),
{
    let value = match platform {
        Platform::Linux => value / 2,
        Platform::Other => value,
    };
    if value < 1 {
        1
    } else {
        value
    }
}

/// The size handed to the operating system for a requested buffer size.
pub fn native_buffer_size(value: u64, platform: Platform) -> (size: usize)
    ensures
        size == saturated_usize(normalized_buffer_size(value, platform)),
{
    let normalized = normalize_set_buffer_size(value, platform);
    if normalized <= usize::MAX as u64 {
        normalized as usize
    } else {
        usize::MAX
    }
}

/// Clamps a requested backlog size to what the operating system takes.
pub fn listen_backlog(value: u64) -> (backlog: i32)
    ensures
        backlog == native_backlog(value),
{
    if value <= i32::MAX as u64 {
        value as i32
    } else {
        i32::MAX
    }
}

/// What the rules for options look at in a socket.
#[derive(Copy, Clone, Debug, PartialEq, Eq, Structural)]
pub struct SocketStatus {
    /// The family of the socket.
    pub address_family: AddressFamily,
    /// Whether the socket is bound.
    pub bound: bool,
    /// Whether the socket is connected.
    pub connected: bool,
    /// Whether an operation is in flight.
    pub busy: bool,
}

impl SocketStatus {
    /// `call`, unless an operation is in flight: no option is set then.
    pub open spec fn unless_busy(self, call: NativeCall) -> Result<NativeCall, NetworkError> {
        if self.busy {
            Err(NetworkError::ConcurrencyConflict)
        } else {
            Ok(call)
        }
    }

    /// The call that reads whether an IPv6 socket is restricted to IPv6.
    /// Sockets of another family have no such option.
    pub open spec fn spec_ipv6_only(self) -> Result<NativeCall, NetworkError> {
        if self.address_family != AddressFamily::INET6 {
            Err(NetworkError::Ipv6OnlyOperation)
        } else {
            Ok(NativeCall::Ipv6Only)
        }
    }

    /// The call that restricts an IPv6 socket to IPv6, or lifts that. The
    /// socket must not be bound yet.
    pub open spec fn spec_set_ipv6_only(self, value: bool) -> Result<NativeCall, NetworkError> {
        if self.address_family != AddressFamily::INET6 {
            Err(NetworkError::Ipv6OnlyOperation)
        } else if self.bound {
            Err(NetworkError::AlreadyBound)
        } else {
            self.unless_busy(NativeCall::SetIpv6Only { value })
        }
    }

    /// The call that reads whether keep-alive is on.
    pub open spec fn spec_keep_alive(self) -> Result<NativeCall, NetworkError> {
        Ok(NativeCall::KeepAlive)
    }

    /// The call that turns keep-alive on or off.
    pub open spec fn spec_set_keep_alive(self, value: bool) -> Result<NativeCall, NetworkError> {
        self.unless_busy(NativeCall::SetKeepAlive { value })
    }

    /// The call that reads whether segments are sent without delay.
    pub open spec fn spec_no_delay(self) -> Result<NativeCall, NetworkError> {
        Ok(NativeCall::NoDelay)
    }

    /// The call that turns sending without delay on or off.
    pub open spec fn spec_set_no_delay(self, value: bool) -> Result<NativeCall, NetworkError> {
        self.unless_busy(NativeCall::SetNoDelay { value })
    }

    /// The call that reads the hop limit: the option is another for each
    /// family.
    pub open spec fn spec_unicast_hop_limit(self) -> Result<NativeCall, NetworkError> {
        match self.address_family {
            AddressFamily::INET => Ok(NativeCall::Ttl),
            AddressFamily::INET6 => Ok(NativeCall::UnicastHopsV6),
        }
    }

    /// The call that sets the hop limit. Some platforms ignore it on a
    /// connected socket, so it is refused there on all of them.
    pub open spec fn spec_set_unicast_hop_limit(self, value: u8) -> Result<
        NativeCall,
        NetworkError,
    > {
        if self.busy {
            Err(NetworkError::ConcurrencyConflict)
        } else if self.connected {
            Err(NetworkError::AlreadyConnected)
        } else {
            match self.address_family {
                AddressFamily::INET => Ok(NativeCall::SetTtl { hops: value as u32 }),
                AddressFamily::INET6 => Ok(NativeCall::SetUnicastHopsV6 { hops: value as u32 }),
            }
        }
    }

    /// The call that reads the size of the receive buffer.
    pub open spec fn spec_receive_buffer_size(self) -> Result<NativeCall, NetworkError> {
        Ok(NativeCall::ReceiveBufferSize)
    }

    /// The call that sets the size of the receive buffer, with the size
    /// normalized for the platform.
    pub open spec fn spec_set_receive_buffer_size(self, value: u64, platform: Platform) -> Result<
        NativeCall,
        NetworkError,
    > {
        self.unless_busy(
            NativeCall::SetReceiveBufferSize {
                size: saturated_usize(normalized_buffer_size(value, platform)),
            },
        )
    }

    /// The call that reads the size of the send buffer.
    pub open spec fn spec_send_buffer_size(self) -> Result<NativeCall, NetworkError> {
        Ok(NativeCall::SendBufferSize)
    }

    /// The call that sets the size of the send buffer, with the size
    /// normalized for the platform.
    pub open spec fn spec_set_send_buffer_size(self, value: u64, platform: Platform) -> Result<
        NativeCall,
        NetworkError,
    > {
        self.unless_busy(
            NativeCall::SetSendBufferSize {
                size: saturated_usize(normalized_buffer_size(value, platform)),
            },
        )
    }

    fn validate_no_active_operation(self) -> (valid: Result<(), NetworkError>)
        ensures
            valid == if self.busy {
                Err::<(), NetworkError>(NetworkError::ConcurrencyConflict)
            } else {
                Ok(())
            },
    {
        if self.busy {
            Err(NetworkError::ConcurrencyConflict)
        } else {
            Ok(())
        }
    }

    fn validate_is_ipv6(self) -> (valid: Result<(), NetworkError>)
        ensures
            valid == if self.address_family == AddressFamily::INET6 {
                Ok::<(), NetworkError>(())
            } else {
                Err(NetworkError::Ipv6OnlyOperation)
            },
    {
        match self.address_family {
            AddressFamily::INET6 => Ok(()),
            _ => Err(NetworkError::Ipv6OnlyOperation),
        }
    }

    fn validate_not_bound(self) -> (valid: Result<(), NetworkError>)
        ensures
            valid == if self.bound {
                Err::<(), NetworkError>(NetworkError::AlreadyBound)
            } else {
                Ok(())
            },
    {
        if self.bound {
            Err(NetworkError::AlreadyBound)
        } else {
            Ok(())
        }
    }

    fn validate_not_connected(self) -> (valid: Result<(), NetworkError>)
        ensures
            valid == if self.connected {
                Err::<(), NetworkError>(NetworkError::AlreadyConnected)
            } else {
                Ok(())
            },
    {
        if self.connected {
            Err(NetworkError::AlreadyConnected)
        } else {
            Ok(())
        }
    }

    #[verifier::when_used_as_spec(spec_ipv6_only)]
    pub fn ipv6_only(self) -> (call: Result<NativeCall, NetworkError>)
        ensures
            call == self.spec_ipv6_only(),
    {
        self.validate_is_ipv6()?;
        Ok(NativeCall::Ipv6Only)
    }

    #[verifier::when_used_as_spec(spec_set_ipv6_only)]
    pub fn set_ipv6_only(self, value: bool) -> (call: Result<NativeCall, NetworkError>)
        ensures
            call == self.spec_set_ipv6_only(value),
    {
        self.validate_is_ipv6()?;
        self.validate_not_bound()?;
        self.validate_no_active_operation()?;
        Ok(NativeCall::SetIpv6Only { value })
    }

    #[verifier::when_used_as_spec(spec_keep_alive)]
    pub fn keep_alive(self) -> (call: Result<NativeCall, NetworkError>)
        ensures
            call == self.spec_keep_alive(),
    {
        Ok(NativeCall::KeepAlive)
    }

    #[verifier::when_used_as_spec(spec_set_keep_alive)]
    pub fn set_keep_alive(self, value: bool) -> (call: Result<NativeCall, NetworkError>)
        ensures
            call == self.spec_set_keep_alive(value),
    {
        self.validate_no_active_operation()?;
        Ok(NativeCall::SetKeepAlive { value })
    }

    #[verifier::when_used_as_spec(spec_no_delay)]
    pub fn no_delay(self) -> (call: Result<NativeCall, NetworkError>)
        ensures
            call == self.spec_no_delay(),
    {
        Ok(NativeCall::NoDelay)
    }

    #[verifier::when_used_as_spec(spec_set_no_delay)]
    pub fn set_no_delay(self, value: bool) -> (call: Result<NativeCall, NetworkError>)
        ensures
            call == self.spec_set_no_delay(value),
    {
        self.validate_no_active_operation()?;
        Ok(NativeCall::SetNoDelay { value })
    }

    #[verifier::when_used_as_spec(spec_unicast_hop_limit)]
    pub fn unicast_hop_limit(self) -> (call: Result<NativeCall, NetworkError>)
        ensures
            call == self.spec_unicast_hop_limit(),
    {
        match self.address_family {
            AddressFamily::INET => Ok(NativeCall::Ttl),
            AddressFamily::INET6 => Ok(NativeCall::UnicastHopsV6),
        }
    }

    #[verifier::when_used_as_spec(spec_set_unicast_hop_limit)]
    pub fn set_unicast_hop_limit(self, value: u8) -> (call: Result<NativeCall, NetworkError>)
        ensures
            call == self.spec_set_unicast_hop_limit(value),
    {
        self.validate_no_active_operation()?;
        self.validate_not_connected()?;
        match self.address_family {
            AddressFamily::INET => Ok(NativeCall::SetTtl { hops: value as u32 }),
            AddressFamily::INET6 => Ok(NativeCall::SetUnicastHopsV6 { hops: value as u32 }),
        }
    }

    #[verifier::when_used_as_spec(spec_receive_buffer_size)]
    pub fn receive_buffer_size(self) -> (call: Result<NativeCall, NetworkError>)
        ensures
            call == self.spec_receive_buffer_size(),
    {
        Ok(NativeCall::ReceiveBufferSize)
    }

    #[verifier::when_used_as_spec(spec_set_receive_buffer_size)]
    pub fn set_receive_buffer_size(self, value: u64, platform: Platform) -> (call: Result<
        NativeCall,
        NetworkError,
    >)
        ensures
            call == self.spec_set_receive_buffer_size(value, platform),
    {
        self.validate_no_active_operation()?;
        Ok(NativeCall::SetReceiveBufferSize { size: native_buffer_size(value, platform) })
    }

    #[verifier::when_used_as_spec(spec_send_buffer_size)]
    pub fn send_buffer_size(self) -> (call: Result<NativeCall, NetworkError>)
        ensures
            call == self.spec_send_buffer_size(),
    {
        Ok(NativeCall::SendBufferSize)
    }

    #[verifier::when_used_as_spec(spec_set_send_buffer_size)]
    pub fn set_send_buffer_size(self, value: u64, platform: Platform) -> (call: Result<
        NativeCall,
        NetworkError,
    >)
        ensures
            call == self.spec_set_send_buffer_size(value, platform),
    {
        self.validate_no_active_operation()?;
        Ok(NativeCall::SetSendBufferSize { size: native_buffer_size(value, platform) })
    }
}

/// What the guest is told of an option that the host has read or set
/// natively. Whatever the operating system reports as an error, the guest is
/// told that the option is not supported.
pub fn option_reply<T>(outcome: Result<T, OsError>) -> (reply: Result<T, NetworkError>)
    ensures
        reply == match outcome {
            Ok(value) => Ok::<T, NetworkError>(value),
            Err(_) => Err(NetworkError::NotSupported),
        },
{
    match outcome {
        Ok(value) => Ok(value),
        Err(_) => Err(NetworkError::NotSupported),
    }
}

/// What the guest is told after a listener was asked to listen again with
/// another backlog size: a platform may refuse to, and the guest is not told.
pub fn relisten_reply(outcome: Result<(), OsError>) -> (reply: Result<(), NetworkError>)
    ensures
        reply == Ok::<(), NetworkError>(()),
{
    Ok(())
}

/// What the guest reads as hop limit for what the host has read natively. A
/// hop limit has 8 bits: a larger number is no hop limit, and reported as
/// `Unknown`.
pub fn hop_limit_reply(outcome: Result<u32, OsError>) -> (reply: Result<u8, NetworkError>)
    ensures
        reply == match outcome {
            Ok(hops) => if hops <= u8::MAX {
                Ok::<u8, NetworkError>(hops as u8)
            } else {
                Err(NetworkError::Unknown)
            },
            Err(_) => Err(NetworkError::NotSupported),
        },
{
    match outcome {
        Ok(hops) => if hops <= u8::MAX as u32 {
            Ok(hops as u8)
        } else {
            Err(NetworkError::Unknown)
        },
        Err(_) => Err(NetworkError::NotSupported),
    }
}

/// What the guest reads as buffer size for what the host has read natively.
pub fn buffer_size_reply(outcome: Result<usize, OsError>) -> (reply: Result<u64, NetworkError>)
    ensures
        reply == match outcome {
            Ok(size) => Ok::<u64, NetworkError>(size as u64),
            Err(_) => Err(NetworkError::NotSupported),
        },
{
    match outcome {
        Ok(size) => Ok(size as u64),
        Err(_) => Err(NetworkError::NotSupported),
    }
}

/// A socket of the IPv4 family has no IPv6-only option to read or set: the
/// answer is `Ipv6OnlyOperation`, and no native call is handed out.
pub proof fn lemma_ipv6_only_needs_ipv6(status: SocketStatus, value: bool)
    requires
        status.address_family == AddressFamily::INET,
    ensures
        status.spec_ipv6_only() == Err::<NativeCall, NetworkError>(NetworkError::Ipv6OnlyOperation),
        status.spec_set_ipv6_only(value) == Err::<NativeCall, NetworkError>(
            NetworkError::Ipv6OnlyOperation,
        ),
{
}

/// While an operation is in flight no option is set, and every option can
/// still be read as it can be without one.
pub proof fn lemma_options_while_busy(status: SocketStatus, flag: bool, hops: u8, size: u64, platform: Platform)
    requires
        status.busy,
    ensures
        status.spec_set_ipv6_only(flag) is Err,
        status.spec_set_keep_alive(flag) == Err::<NativeCall, NetworkError>(
            NetworkError::ConcurrencyConflict,
        ),
        status.spec_set_no_delay(flag) == Err::<NativeCall, NetworkError>(
            NetworkError::ConcurrencyConflict,
        ),
        status.spec_set_unicast_hop_limit(hops) == Err::<NativeCall, NetworkError>(
            NetworkError::ConcurrencyConflict,
        ),
        status.spec_set_receive_buffer_size(size, platform) == Err::<NativeCall, NetworkError>(
            NetworkError::ConcurrencyConflict,
        ),
        status.spec_set_send_buffer_size(size, platform) == Err::<NativeCall, NetworkError>(
            NetworkError::ConcurrencyConflict,
        ),
        status.spec_ipv6_only() == (SocketStatus { busy: false, ..status }).spec_ipv6_only(),
        status.spec_keep_alive() is Ok,
        status.spec_no_delay() is Ok,
        status.spec_unicast_hop_limit() is Ok,
        status.spec_receive_buffer_size() is Ok,
        status.spec_send_buffer_size() is Ok,
{
}

/// A buffer size that is set and read back. The size handed to the
/// operating system is at least 1, and so is what reads back. Where the
/// platform doubles what is set, a size of 2 or more reads back as itself or
/// as one less; elsewhere a size of 1 or more reads back as itself. This
/// holds of the sizes that fit the native type.
pub proof fn lemma_buffer_size_round_trip(value: u64, platform: Platform)
    ensures
        ({
            let size = saturated_usize(normalized_buffer_size(value, platform));
            let read = committed_buffer_size(size as int, platform);
            &&& size >= 1
            &&& read >= 1
            &&& platform == Platform::Linux && value >= 2 && value / 2 <= usize::MAX ==> value - 1
                <= read <= value
            &&& platform == Platform::Other && 1 <= value <= usize::MAX ==> read == value
        }),
{
}

} // verus!
