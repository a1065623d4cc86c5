//! Types that describe why a tunnel is refused and what follows a disconnect.

use vstd::prelude::*;

verus! {

/// Reason for refusing to pass any traffic.
#[derive(Clone, Debug, PartialEq, Eq)]
pub enum BlockReason {
    /// Authentication with the remote server failed, optionally with the
    /// reason the server gave.
    AuthFailed(Option<String>),
    /// IPv6 is required but not available on this host.
    Ipv6Unavailable,
    /// The security policy could not be applied.
    SetSecurityPolicyError,
    /// The system's DNS configuration could not be changed.
    SetDnsError,
    /// The tunnel could not be started.
    StartTunnelError,
    /// No relay matches the current constraints.
    NoMatchingRelay,
    /// The host has no connectivity.
    IsOffline,
    /// The virtual network adapter is unusable.
    TapAdapterProblem,
}

impl BlockReason {
    /// Whether the reason is lack of connectivity.
    pub fn is_offline(&self) -> (res: bool)
        ensures
            res == (*self == BlockReason::IsOffline),
    {
        match self {
            BlockReason::IsOffline => true,
            _ => false,
        }
    }
}

/// What the state machine will do once a disconnect has completed, without
/// the data that the action carries.
#[derive(Clone, Copy, Debug, PartialEq, Eq, Structural)]
pub enum ActionAfterDisconnect {
    Nothing,
    Block,
    Reconnect,
}

} // verus!
