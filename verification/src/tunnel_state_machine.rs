//! The pieces shared by all lifecycle states of the tunnel state machine.
//!
//! A state never waits. The driver probes the command inbox and the internal
//! event sources without blocking and hands the results to the current state,
//! which answers with an [`EventConsequence`].

pub mod disconnecting_state;

use crate::dns::DnsMonitor;
use crate::tunnel::{ActionAfterDisconnect, BlockReason};
use vstd::prelude::*;

verus! {

/// Instruction issued to the state machine from outside.
#[derive(Clone, Debug, PartialEq, Eq)]
pub enum TunnelCommand {
    /// Allow or forbid traffic to the local network.
    AllowLan(bool),
    /// Keep blocking traffic while no tunnel is up, or stop doing so.
    BlockWhenDisconnected(bool),
    /// The host lost or regained connectivity.
    IsOffline(bool),
    /// Open the tunnel.
    Connect,
    /// Close the tunnel.
    Disconnect,
    /// Close the tunnel and refuse all traffic for the given reason.
    Block(BlockReason),
}

/// Outcome of one non-blocking probe of the command inbox.
#[derive(Clone, Debug, PartialEq, Eq)]
pub enum CommandPoll {
    /// No command is waiting.
    NotReady,
    /// The oldest waiting command.
    Ready(TunnelCommand),
    /// Every sender is gone, or the inbox failed: no command will follow.
    Closed,
}

/// Values that every lifecycle state sees: three settings, which only
/// commands change, and the manager of the system's DNS configuration.
#[derive(Clone, Debug, PartialEq, Eq)]
pub struct SharedTunnelStateValues {
    /// Whether traffic to the local network is allowed.
    pub allow_lan: bool,
    /// Whether traffic is blocked while no tunnel is up.
    pub block_when_disconnected: bool,
    /// Whether the host is known to be without connectivity.
    pub is_offline: bool,
    /// The manager of the system's DNS configuration.
    pub dns_monitor: DnsMonitor,
}

impl SharedTunnelStateValues {
    /// The values after `command` has been taken note of. Only the three
    /// commands that carry a setting change anything, each its own setting.
    pub open spec fn updated(self, command: TunnelCommand) -> SharedTunnelStateValues {
        match command {
            TunnelCommand::AllowLan(allow_lan) => SharedTunnelStateValues { allow_lan, ..self },
            TunnelCommand::BlockWhenDisconnected(block_when_disconnected) => SharedTunnelStateValues {
                block_when_disconnected,
                ..self
            },
            TunnelCommand::IsOffline(is_offline) => SharedTunnelStateValues { is_offline, ..self },
            _ => self,
        }
    }

    /// The values after the commands of `commands` have been taken note of
    /// in order.
    pub open spec fn updated_by_all(self, commands: Seq<TunnelCommand>) -> SharedTunnelStateValues
        decreases commands.len(),
    {
        if commands.len() == 0 {
            self
        } else {
            self.updated_by_all(commands.drop_last()).updated(commands.last())
        }
    }
}

/// The lifecycle state to enter next, with what it is entered with.
#[derive(Clone, Debug, PartialEq, Eq)]
pub enum NextState {
    /// No tunnel, traffic flows freely unless blocking while disconnected is on.
    Disconnected,
    /// A tunnel is being opened; the number counts the attempts made before.
    Connecting(u32),
    /// No tunnel, all traffic is refused for the given reason.
    Blocked(BlockReason),
}

/// Notification sent to observers when the state machine changes state.
#[derive(Clone, Debug, PartialEq, Eq)]
pub enum TunnelStateTransition {
    Disconnected,
    Connecting,
    Connected,
    Disconnecting(ActionAfterDisconnect),
    Blocked(BlockReason),
}

/// What became of one offer of events to a state.
#[derive(Debug, PartialEq, Eq)]
pub enum EventConsequence<T> {
    /// An event was consumed and the machine moves on to another state.
    NewState(NextState),
    /// An event was consumed and the machine stays in the state given.
    SameState(T),
    /// Nothing was ready and nothing was consumed.
    NoEvents(T),
}

} // verus!
