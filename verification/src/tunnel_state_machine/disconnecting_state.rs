//! The state between the request to close the tunnel and the report that
//! it has closed.

use crate::tunnel::{ActionAfterDisconnect, BlockReason};
use crate::tunnel_state_machine::{
    CommandPoll, EventConsequence, NextState, SharedTunnelStateValues, TunnelCommand,
    TunnelStateTransition,
};
use vstd::prelude::*;

verus! {

/// Which state should be transitioned to after disconnection is complete.
#[derive(Clone, Debug, PartialEq, Eq)]
pub enum AfterDisconnect {
    Nothing,
    Block(BlockReason),
    Reconnect(u32),
}

impl AfterDisconnect {
    /// The intent after `command` has arrived while the tunnel is closing.
    ///
    /// `Connect` asks for a reconnect and keeps the attempt count of one that
    /// is already intended. `Disconnect` withdraws a reconnect and leaves a
    /// block standing. `Block` always wins. Going offline turns a reconnect
    /// into a block, coming back online turns exactly that block into a first
    /// reconnect attempt. The other commands leave the intent alone.
    pub open spec fn after_command(self, command: TunnelCommand) -> AfterDisconnect {
        match command {
            TunnelCommand::Connect => match self {
                AfterDisconnect::Reconnect(retry_attempt) => AfterDisconnect::Reconnect(
                    retry_attempt,
                ),
                _ => AfterDisconnect::Reconnect(0),
            },
            TunnelCommand::Disconnect => self.after_inbox_closed(),
            TunnelCommand::Block(reason) => AfterDisconnect::Block(reason),
            TunnelCommand::IsOffline(true) => match self {
                AfterDisconnect::Reconnect(_) => AfterDisconnect::Block(BlockReason::IsOffline),
                _ => self,
            },
            TunnelCommand::IsOffline(false) => match self {
                AfterDisconnect::Block(BlockReason::IsOffline) => AfterDisconnect::Reconnect(0),
                _ => self,
            },
            TunnelCommand::AllowLan(_) | TunnelCommand::BlockWhenDisconnected(_) => self,
        }
    }

    /// The intent after the command inbox has closed: nobody is left to ask
    /// for a tunnel, so a reconnect is withdrawn; a block stays.
    pub open spec fn after_inbox_closed(self) -> AfterDisconnect {
        match self {
            AfterDisconnect::Block(reason) => AfterDisconnect::Block(reason),
            _ => AfterDisconnect::Nothing,
        }
    }

    /// The intent after the commands of `commands` have arrived in order.
    pub open spec fn after_commands(self, commands: Seq<TunnelCommand>) -> AfterDisconnect
        decreases commands.len(),
    {
        if commands.len() == 0 {
            self
        } else {
            self.after_commands(commands.drop_last()).after_command(commands.last())
        }
    }

    /// The state that follows once the tunnel has closed. A reason reported
    /// by the closing tunnel overrides the intent; without one the intent
    /// decides.
    pub open spec fn successor(self, block_reason: Option<BlockReason>) -> NextState {
        match block_reason {
            Some(reason) => NextState::Blocked(reason),
            None => match self {
                AfterDisconnect::Nothing => NextState::Disconnected,
                AfterDisconnect::Block(reason) => NextState::Blocked(reason),
                AfterDisconnect::Reconnect(retry_attempt) => NextState::Connecting(retry_attempt),
            },
        }
    }

    /// The action without its data, as observers are told it.
    pub open spec fn spec_action(self) -> ActionAfterDisconnect {
        match self {
            AfterDisconnect::Nothing => ActionAfterDisconnect::Nothing,
            AfterDisconnect::Block(_) => ActionAfterDisconnect::Block,
            AfterDisconnect::Reconnect(_) => ActionAfterDisconnect::Reconnect,
        }
    }

    /// Build event representation of the action that will be taken after the disconnection.
    pub fn action(&self) -> (res: ActionAfterDisconnect)
        ensures
            res == self.spec_action(),
    {
        match self {
            AfterDisconnect::Nothing => ActionAfterDisconnect::Nothing,
            AfterDisconnect::Block(..) => ActionAfterDisconnect::Block,
            AfterDisconnect::Reconnect(..) => ActionAfterDisconnect::Reconnect,
        }
    }
}

/// Outcome of one non-blocking probe of the channel on which the closing
/// tunnel reports that it is gone.
#[derive(Clone, Debug, PartialEq, Eq)]
pub enum ExitPoll {
    /// The tunnel has not reported yet.
    NotReady,
    /// The tunnel has closed, and may say why no traffic should pass now.
    Ready(Option<BlockReason>),
    /// The channel was dropped without a report.
    Canceled,
}

/// This state is active from when we manually trigger a tunnel kill until the tunnel wait
/// operation returned.
#[derive(Debug, PartialEq, Eq)]
pub struct DisconnectingState {
    /// What to do once the tunnel has closed.
    pub after_disconnect: AfterDisconnect,
}

impl DisconnectingState {
    /// What an offer of the inbox's probe result leads to, and the settings
    /// afterwards. A command is always consumed without leaving the state.
    pub open spec fn spec_handle_commands(
        self,
        event: CommandPoll,
        shared_values: SharedTunnelStateValues,
    ) -> (EventConsequence<DisconnectingState>, SharedTunnelStateValues) {
        match event {
            CommandPoll::NotReady => (EventConsequence::NoEvents(self), shared_values),
            CommandPoll::Ready(command) => (
                EventConsequence::SameState(
                    DisconnectingState {
                        after_disconnect: self.after_disconnect.after_command(command),
                    },
                ),
                shared_values.updated(command),
            ),
            CommandPoll::Closed => (
                EventConsequence::SameState(
                    DisconnectingState {
                        after_disconnect: self.after_disconnect.after_inbox_closed(),
                    },
                ),
                shared_values,
            ),
        }
    }

    /// What an offer of the exit channel's probe result leads to. A dropped
    /// channel counts as a tunnel that closed without giving a reason.
    pub open spec fn spec_handle_exit_event(self, exited: ExitPoll) -> EventConsequence<
        DisconnectingState,
    > {
        match exited {
            ExitPoll::NotReady => EventConsequence::NoEvents(self),
            ExitPoll::Ready(block_reason) => EventConsequence::NewState(
                self.after_disconnect.successor(block_reason),
            ),
            ExitPoll::Canceled => EventConsequence::NewState(self.after_disconnect.successor(None)),
        }
    }

    /// The state and the settings after each command of `commands` has been
    /// offered in order, every one as a ready probe of the inbox.
    pub open spec fn spec_deliver(
        self,
        commands: Seq<TunnelCommand>,
        shared_values: SharedTunnelStateValues,
    ) -> (DisconnectingState, SharedTunnelStateValues)
        decreases commands.len(),
    {
        if commands.len() == 0 {
            (self, shared_values)
        } else {
            let (state, values) = self.spec_deliver(commands.drop_last(), shared_values);
            match state.spec_handle_commands(CommandPoll::Ready(commands.last()), values) {
                (EventConsequence::SameState(next), values) => (next, values),
                (EventConsequence::NoEvents(next), values) => (next, values),
                (EventConsequence::NewState(_), values) => (state, values),
            }
        }
    }

    /// Whatever commands arrive while the tunnel is closing, and however many,
    /// the state is never left on their account, the intent that results is
    /// the transition table folded over them in the order of arrival, and the
    /// settings are those that the commands carried, the latest of each kind.
    pub proof fn commands_fold_into_intent(
        self,
        commands: Seq<TunnelCommand>,
        shared_values: SharedTunnelStateValues,
    )
        ensures
            self.spec_deliver(commands, shared_values).0.after_disconnect
                == self.after_disconnect.after_commands(commands),
            self.spec_deliver(commands, shared_values).1 == shared_values.updated_by_all(
                commands,
            ),
            forall|command: TunnelCommand|
                (#[trigger] self.spec_deliver(commands, shared_values).0.spec_handle_commands(
                    CommandPoll::Ready(command),
                    self.spec_deliver(commands, shared_values).1,
                )).0 is SameState,
        decreases commands.len(),
    {
        if commands.len() > 0 {
            self.commands_fold_into_intent(commands.drop_last(), shared_values);
        }
    }

    /// A reason that the closing tunnel reports decides the next state, no
    /// matter what the commands have made of the intent.
    pub proof fn reported_reason_overrides_intent(
        self,
        commands: Seq<TunnelCommand>,
        shared_values: SharedTunnelStateValues,
        reason: BlockReason,
    )
        ensures
            self.spec_deliver(commands, shared_values).0.spec_handle_exit_event(
                ExitPoll::Ready(Some(reason)),
            ) == EventConsequence::<DisconnectingState>::NewState(NextState::Blocked(reason)),
    {
    }

    /// Enters the state with the given intent. Closing the tunnel itself is
    /// the caller's business and must not hold up the state machine.
    pub fn enter(after_disconnect: AfterDisconnect) -> (res: (
        DisconnectingState,
        TunnelStateTransition,
    ))
        ensures
            res.0.after_disconnect == after_disconnect,
            res.1 == TunnelStateTransition::Disconnecting(after_disconnect.spec_action()),
    {
        let action_after_disconnect = after_disconnect.action();
        (
            DisconnectingState { after_disconnect },
            TunnelStateTransition::Disconnecting(action_after_disconnect),
        )
    }

    /// Takes note of what the probe of the command inbox returned.
    pub fn handle_commands(
        self,
        event: CommandPoll,
        shared_values: &mut SharedTunnelStateValues,
    ) -> (res: EventConsequence<DisconnectingState>)
        ensures
            (res, *final(shared_values)) == self.spec_handle_commands(event, *old(shared_values)),
    {
        let command = match event {
            CommandPoll::NotReady => {
                return EventConsequence::NoEvents(self);
            },
            CommandPoll::Ready(command) => Some(command),
            CommandPoll::Closed => None,
        };

        let after_disconnect = match self.after_disconnect {
            AfterDisconnect::Nothing => match command {
                Some(TunnelCommand::AllowLan(allow_lan)) => {
                    shared_values.allow_lan = allow_lan;
                    AfterDisconnect::Nothing
                },
                Some(TunnelCommand::BlockWhenDisconnected(block_when_disconnected)) => {
                    shared_values.block_when_disconnected = block_when_disconnected;
                    AfterDisconnect::Nothing
                },
                Some(TunnelCommand::IsOffline(is_offline)) => {
                    shared_values.is_offline = is_offline;
                    AfterDisconnect::Nothing
                },
                Some(TunnelCommand::Connect) => AfterDisconnect::Reconnect(0),
                Some(TunnelCommand::Block(reason)) => AfterDisconnect::Block(reason),
                Some(TunnelCommand::Disconnect) | None => AfterDisconnect::Nothing,
            },
            AfterDisconnect::Block(reason) => match command {
                Some(TunnelCommand::AllowLan(allow_lan)) => {
                    shared_values.allow_lan = allow_lan;
                    AfterDisconnect::Block(reason)
                },
                Some(TunnelCommand::BlockWhenDisconnected(block_when_disconnected)) => {
                    shared_values.block_when_disconnected = block_when_disconnected;
                    AfterDisconnect::Block(reason)
                },
                Some(TunnelCommand::IsOffline(is_offline)) => {
                    shared_values.is_offline = is_offline;
                    if !is_offline && reason.is_offline() {
                        AfterDisconnect::Reconnect(0)
                    } else {
                        AfterDisconnect::Block(reason)
                    }
                },
                Some(TunnelCommand::Connect) => AfterDisconnect::Reconnect(0),
                Some(TunnelCommand::Block(new_reason)) => AfterDisconnect::Block(new_reason),
                Some(TunnelCommand::Disconnect) | None => AfterDisconnect::Block(reason),
            },
            AfterDisconnect::Reconnect(retry_attempt) => match command {
                Some(TunnelCommand::AllowLan(allow_lan)) => {
                    shared_values.allow_lan = allow_lan;
                    AfterDisconnect::Reconnect(retry_attempt)
                },
                Some(TunnelCommand::BlockWhenDisconnected(block_when_disconnected)) => {
                    shared_values.block_when_disconnected = block_when_disconnected;
                    AfterDisconnect::Reconnect(retry_attempt)
                },
                Some(TunnelCommand::IsOffline(is_offline)) => {
                    shared_values.is_offline = is_offline;
                    if is_offline {
                        AfterDisconnect::Block(BlockReason::IsOffline)
                    } else {
                        AfterDisconnect::Reconnect(retry_attempt)
                    }
                },
                Some(TunnelCommand::Connect) => AfterDisconnect::Reconnect(retry_attempt),
                Some(TunnelCommand::Disconnect) | None => AfterDisconnect::Nothing,
                Some(TunnelCommand::Block(reason)) => AfterDisconnect::Block(reason),
            },
        };

        EventConsequence::SameState(DisconnectingState { after_disconnect })
    }

    /// Takes note of what the probe of the exit channel returned.
    pub fn handle_exit_event(self, exited: ExitPoll) -> (res: EventConsequence<DisconnectingState>)
        ensures
            res == self.spec_handle_exit_event(exited),
            exited matches ExitPoll::Ready(Some(reason)) ==> res == EventConsequence::<
                DisconnectingState,
            >::NewState(NextState::Blocked(reason)),
    {
        match exited {
            ExitPoll::NotReady => EventConsequence::NoEvents(self),
            ExitPoll::Ready(block_reason) => EventConsequence::NewState(
                self.after_disconnect(block_reason),
            ),
            ExitPoll::Canceled => EventConsequence::NewState(self.after_disconnect(None)),
        }
    }

    /// Decides which state follows now that the tunnel has closed.
    pub fn after_disconnect(self, block_reason: Option<BlockReason>) -> (res: NextState)
        ensures
            res == self.after_disconnect.successor(block_reason),
            block_reason matches Some(reason) ==> res == NextState::Blocked(reason),
    {
        if let Some(reason) = block_reason {
            return NextState::Blocked(reason);
        }
        match self.after_disconnect {
            AfterDisconnect::Nothing => NextState::Disconnected,
            AfterDisconnect::Block(reason) => NextState::Blocked(reason),
            AfterDisconnect::Reconnect(retry_attempt) => NextState::Connecting(retry_attempt),
        }
    }

    /// Consumes at most one event. The command that `commands` holds goes
    /// first; the exit channel is probed, by calling `exited`, only when no
    /// command is ready and the inbox is still open.
    pub fn handle_event<F: FnOnce() -> ExitPoll>(
        self,
        commands: CommandPoll,
        exited: F,
        shared_values: &mut SharedTunnelStateValues,
    ) -> (res: EventConsequence<DisconnectingState>)
        requires
            call_requires(exited, ()),
        ensures
            commands !is NotReady ==> (res, *final(shared_values)) == self.spec_handle_commands(
                commands,
                *old(shared_values),
            ),
            commands is NotReady ==> *final(shared_values) == *old(shared_values) && exists|
                probe: ExitPoll,
            |
                call_ensures(exited, (), probe) && res == self.spec_handle_exit_event(probe),
    {
        match self.handle_commands(commands, shared_values) {
            EventConsequence::NoEvents(state) => {
                let probe = exited();
                state.handle_exit_event(probe)
            },
            consequence => consequence,
        }
    }
}

} // verus!
