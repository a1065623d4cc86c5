use std::cell::Cell;

use talpid_core::dns::DnsMonitor;
use talpid_core::tunnel::{ActionAfterDisconnect, BlockReason};
use talpid_core::tunnel_state_machine::disconnecting_state::{
    AfterDisconnect, DisconnectingState, ExitPoll,
};
use talpid_core::tunnel_state_machine::{
    CommandPoll, EventConsequence, NextState, SharedTunnelStateValues, TunnelCommand,
    TunnelStateTransition,
};

fn settings() -> SharedTunnelStateValues {
    SharedTunnelStateValues {
        allow_lan: false,
        block_when_disconnected: false,
        is_offline: false,
        dns_monitor: DnsMonitor::new().unwrap(),
    }
}

fn state(after_disconnect: AfterDisconnect) -> DisconnectingState {
    DisconnectingState::enter(after_disconnect).0
}

/// The intent after `command` arrived in a state with the intent `before`.
fn after(before: AfterDisconnect, command: TunnelCommand) -> AfterDisconnect {
    let mut shared = settings();
    match state(before).handle_commands(CommandPoll::Ready(command), &mut shared) {
        EventConsequence::SameState(state) => state.after_disconnect,
        other => panic!("unexpected consequence {:?}", other),
    }
}

/// The intent after the inbox closed in a state with the intent `before`.
fn after_close(before: AfterDisconnect) -> AfterDisconnect {
    let mut shared = settings();
    let unchanged = shared.clone();
    let consequence = state(before).handle_commands(CommandPoll::Closed, &mut shared);
    assert_eq!(shared, unchanged);
    match consequence {
        EventConsequence::SameState(state) => state.after_disconnect,
        other => panic!("unexpected consequence {:?}", other),
    }
}

fn auth_failed() -> BlockReason {
    BlockReason::AuthFailed(Some(String::from("expired")))
}

#[test]
fn allow_lan_then_block_ends_in_block() {
    let mut shared = settings();
    let state = state(AfterDisconnect::Nothing);
    let state = match state.handle_commands(
        CommandPoll::Ready(TunnelCommand::AllowLan(true)),
        &mut shared,
    ) {
        EventConsequence::SameState(state) => state,
        other => panic!("unexpected consequence {:?}", other),
    };
    assert_eq!(state.after_disconnect, AfterDisconnect::Nothing);
    let state = match state.handle_commands(
        CommandPoll::Ready(TunnelCommand::Block(BlockReason::AuthFailed(None))),
        &mut shared,
    ) {
        EventConsequence::SameState(state) => state,
        other => panic!("unexpected consequence {:?}", other),
    };
    assert_eq!(
        state.after_disconnect,
        AfterDisconnect::Block(BlockReason::AuthFailed(None))
    );
    assert!(shared.allow_lan);
    assert!(!shared.block_when_disconnected);
    assert!(!shared.is_offline);
}

#[test]
fn back_online_lifts_offline_block() {
    let mut shared = settings();
    shared.is_offline = true;
    let consequence = state(AfterDisconnect::Block(BlockReason::IsOffline)).handle_commands(
        CommandPoll::Ready(TunnelCommand::IsOffline(false)),
        &mut shared,
    );
    assert_eq!(
        consequence,
        EventConsequence::SameState(state(AfterDisconnect::Reconnect(0)))
    );
    assert!(!shared.is_offline);
}

#[test]
fn disconnect_withdraws_reconnect() {
    assert_eq!(
        after(AfterDisconnect::Reconnect(3), TunnelCommand::Disconnect),
        AfterDisconnect::Nothing
    );
}

#[test]
fn canceled_exit_channel_falls_through_to_intent() {
    assert_eq!(
        state(AfterDisconnect::Reconnect(2)).handle_exit_event(ExitPoll::Canceled),
        EventConsequence::NewState(NextState::Connecting(2))
    );
}

#[test]
fn table_row_nothing() {
    let row = || AfterDisconnect::Nothing;
    assert_eq!(after(row(), TunnelCommand::Connect), AfterDisconnect::Reconnect(0));
    assert_eq!(after(row(), TunnelCommand::Disconnect), AfterDisconnect::Nothing);
    assert_eq!(
        after(row(), TunnelCommand::Block(auth_failed())),
        AfterDisconnect::Block(auth_failed())
    );
    assert_eq!(after(row(), TunnelCommand::IsOffline(true)), AfterDisconnect::Nothing);
    assert_eq!(after(row(), TunnelCommand::IsOffline(false)), AfterDisconnect::Nothing);
    assert_eq!(after(row(), TunnelCommand::AllowLan(true)), AfterDisconnect::Nothing);
    assert_eq!(
        after(row(), TunnelCommand::BlockWhenDisconnected(true)),
        AfterDisconnect::Nothing
    );
    assert_eq!(after_close(row()), AfterDisconnect::Nothing);
}

#[test]
fn table_row_block() {
    let row = || AfterDisconnect::Block(auth_failed());
    assert_eq!(after(row(), TunnelCommand::Connect), AfterDisconnect::Reconnect(0));
    assert_eq!(after(row(), TunnelCommand::Disconnect), row());
    assert_eq!(
        after(row(), TunnelCommand::Block(BlockReason::NoMatchingRelay)),
        AfterDisconnect::Block(BlockReason::NoMatchingRelay)
    );
    assert_eq!(after(row(), TunnelCommand::IsOffline(true)), row());
    assert_eq!(after(row(), TunnelCommand::IsOffline(false)), row());
    assert_eq!(after(row(), TunnelCommand::AllowLan(false)), row());
    assert_eq!(after(row(), TunnelCommand::BlockWhenDisconnected(false)), row());
    assert_eq!(after_close(row()), row());
}

#[test]
fn table_row_block_offline() {
    let row = || AfterDisconnect::Block(BlockReason::IsOffline);
    assert_eq!(after(row(), TunnelCommand::Connect), AfterDisconnect::Reconnect(0));
    assert_eq!(after(row(), TunnelCommand::Disconnect), row());
    assert_eq!(after(row(), TunnelCommand::IsOffline(true)), row());
    assert_eq!(
        after(row(), TunnelCommand::IsOffline(false)),
        AfterDisconnect::Reconnect(0)
    );
    assert_eq!(after_close(row()), row());
}

#[test]
fn table_row_reconnect() {
    let row = || AfterDisconnect::Reconnect(7);
    assert_eq!(after(row(), TunnelCommand::Connect), row());
    assert_eq!(after(row(), TunnelCommand::Disconnect), AfterDisconnect::Nothing);
    assert_eq!(
        after(row(), TunnelCommand::Block(auth_failed())),
        AfterDisconnect::Block(auth_failed())
    );
    assert_eq!(
        after(row(), TunnelCommand::IsOffline(true)),
        AfterDisconnect::Block(BlockReason::IsOffline)
    );
    assert_eq!(after(row(), TunnelCommand::IsOffline(false)), row());
    assert_eq!(after(row(), TunnelCommand::AllowLan(true)), row());
    assert_eq!(after(row(), TunnelCommand::BlockWhenDisconnected(true)), row());
    assert_eq!(after_close(row()), AfterDisconnect::Nothing);
}

#[test]
fn settings_follow_their_commands_in_every_row() {
    let rows = [
        AfterDisconnect::Nothing,
        AfterDisconnect::Block(BlockReason::IsOffline),
        AfterDisconnect::Reconnect(1),
    ];
    for row in rows {
        let mut shared = settings();
        let _ = state(row.clone())
            .handle_commands(CommandPoll::Ready(TunnelCommand::AllowLan(true)), &mut shared);
        assert_eq!(
            (shared.allow_lan, shared.block_when_disconnected, shared.is_offline),
            (true, false, false)
        );
        let _ = state(row.clone()).handle_commands(
            CommandPoll::Ready(TunnelCommand::BlockWhenDisconnected(true)),
            &mut shared,
        );
        assert_eq!(
            (shared.allow_lan, shared.block_when_disconnected, shared.is_offline),
            (true, true, false)
        );
        let _ = state(row.clone())
            .handle_commands(CommandPoll::Ready(TunnelCommand::IsOffline(true)), &mut shared);
        assert_eq!(
            (shared.allow_lan, shared.block_when_disconnected, shared.is_offline),
            (true, true, true)
        );
        let _ = state(row.clone())
            .handle_commands(CommandPoll::Ready(TunnelCommand::Connect), &mut shared);
        let _ = state(row.clone())
            .handle_commands(CommandPoll::Ready(TunnelCommand::Disconnect), &mut shared);
        let _ = state(row).handle_commands(
            CommandPoll::Ready(TunnelCommand::Block(BlockReason::StartTunnelError)),
            &mut shared,
        );
        assert_eq!(
            (shared.allow_lan, shared.block_when_disconnected, shared.is_offline),
            (true, true, true)
        );
        assert_eq!(shared.dns_monitor, DnsMonitor::new().unwrap());
    }
}

#[test]
fn nothing_ready_consumes_nothing() {
    let mut shared = settings();
    let consequence =
        state(AfterDisconnect::Reconnect(4)).handle_commands(CommandPoll::NotReady, &mut shared);
    assert_eq!(
        consequence,
        EventConsequence::NoEvents(state(AfterDisconnect::Reconnect(4)))
    );
    assert_eq!(shared, settings());
    assert_eq!(
        state(AfterDisconnect::Reconnect(4)).handle_exit_event(ExitPoll::NotReady),
        EventConsequence::NoEvents(state(AfterDisconnect::Reconnect(4)))
    );
}

#[test]
fn commands_fold_in_order_of_arrival() {
    let commands = vec![
        TunnelCommand::Connect,
        TunnelCommand::AllowLan(true),
        TunnelCommand::IsOffline(true),
        TunnelCommand::Disconnect,
        TunnelCommand::IsOffline(false),
        TunnelCommand::Connect,
        TunnelCommand::Connect,
        TunnelCommand::AllowLan(false),
    ];
    let expected = [
        AfterDisconnect::Reconnect(0),
        AfterDisconnect::Reconnect(0),
        AfterDisconnect::Block(BlockReason::IsOffline),
        AfterDisconnect::Block(BlockReason::IsOffline),
        AfterDisconnect::Reconnect(0),
        AfterDisconnect::Reconnect(0),
        AfterDisconnect::Reconnect(0),
        AfterDisconnect::Reconnect(0),
    ];
    let mut shared = settings();
    let mut current = state(AfterDisconnect::Nothing);
    for (command, intent) in commands.into_iter().zip(expected) {
        current = match current.handle_commands(CommandPoll::Ready(command), &mut shared) {
            EventConsequence::SameState(state) => state,
            other => panic!("unexpected consequence {:?}", other),
        };
        assert_eq!(current.after_disconnect, intent);
    }
    assert!(!shared.allow_lan);
    assert!(!shared.is_offline);
    assert!(!shared.block_when_disconnected);
}

#[test]
fn order_of_commands_matters() {
    let forth = after(
        after(AfterDisconnect::Nothing, TunnelCommand::Connect),
        TunnelCommand::Disconnect,
    );
    let back = after(
        after(AfterDisconnect::Nothing, TunnelCommand::Disconnect),
        TunnelCommand::Connect,
    );
    assert_eq!(forth, AfterDisconnect::Nothing);
    assert_eq!(back, AfterDisconnect::Reconnect(0));
}

#[test]
fn reported_reason_overrides_every_intent() {
    let intents = [
        AfterDisconnect::Nothing,
        AfterDisconnect::Block(BlockReason::IsOffline),
        AfterDisconnect::Reconnect(5),
    ];
    for intent in intents {
        assert_eq!(
            state(intent.clone()).handle_exit_event(ExitPoll::Ready(Some(auth_failed()))),
            EventConsequence::NewState(NextState::Blocked(auth_failed()))
        );
        assert_eq!(
            state(intent).after_disconnect(Some(BlockReason::TapAdapterProblem)),
            NextState::Blocked(BlockReason::TapAdapterProblem)
        );
    }
}

#[test]
fn exit_without_reason_follows_intent() {
    assert_eq!(
        state(AfterDisconnect::Nothing).handle_exit_event(ExitPoll::Ready(None)),
        EventConsequence::NewState(NextState::Disconnected)
    );
    assert_eq!(
        state(AfterDisconnect::Block(auth_failed())).handle_exit_event(ExitPoll::Ready(None)),
        EventConsequence::NewState(NextState::Blocked(auth_failed()))
    );
    assert_eq!(
        state(AfterDisconnect::Reconnect(u32::MAX)).handle_exit_event(ExitPoll::Ready(None)),
        EventConsequence::NewState(NextState::Connecting(u32::MAX))
    );
    assert_eq!(
        state(AfterDisconnect::Nothing).handle_exit_event(ExitPoll::Canceled),
        EventConsequence::NewState(NextState::Disconnected)
    );
    assert_eq!(
        state(AfterDisconnect::Block(BlockReason::IsOffline)).after_disconnect(None),
        NextState::Blocked(BlockReason::IsOffline)
    );
}

#[test]
fn enter_announces_the_pending_action() {
    let (entered, transition) = DisconnectingState::enter(AfterDisconnect::Nothing);
    assert_eq!(entered.after_disconnect, AfterDisconnect::Nothing);
    assert_eq!(
        transition,
        TunnelStateTransition::Disconnecting(ActionAfterDisconnect::Nothing)
    );
    let (entered, transition) = DisconnectingState::enter(AfterDisconnect::Block(auth_failed()));
    assert_eq!(entered.after_disconnect, AfterDisconnect::Block(auth_failed()));
    assert_eq!(
        transition,
        TunnelStateTransition::Disconnecting(ActionAfterDisconnect::Block)
    );
    let (entered, transition) = DisconnectingState::enter(AfterDisconnect::Reconnect(9));
    assert_eq!(entered.after_disconnect, AfterDisconnect::Reconnect(9));
    assert_eq!(
        transition,
        TunnelStateTransition::Disconnecting(ActionAfterDisconnect::Reconnect)
    );
}

#[test]
fn action_drops_the_data() {
    assert_eq!(AfterDisconnect::Nothing.action(), ActionAfterDisconnect::Nothing);
    assert_eq!(
        AfterDisconnect::Block(BlockReason::SetDnsError).action(),
        ActionAfterDisconnect::Block
    );
    assert_eq!(AfterDisconnect::Reconnect(0).action(), ActionAfterDisconnect::Reconnect);
}

#[test]
fn a_ready_command_goes_before_the_exit() {
    let probed = Cell::new(false);
    let mut shared = settings();
    let consequence = state(AfterDisconnect::Nothing).handle_event(
        CommandPoll::Ready(TunnelCommand::Connect),
        || {
            probed.set(true);
            ExitPoll::Ready(None)
        },
        &mut shared,
    );
    assert_eq!(
        consequence,
        EventConsequence::SameState(state(AfterDisconnect::Reconnect(0)))
    );
    assert!(!probed.get());
}

#[test]
fn a_closed_inbox_goes_before_the_exit() {
    let probed = Cell::new(false);
    let mut shared = settings();
    let consequence = state(AfterDisconnect::Reconnect(1)).handle_event(
        CommandPoll::Closed,
        || {
            probed.set(true);
            ExitPoll::Ready(None)
        },
        &mut shared,
    );
    assert_eq!(
        consequence,
        EventConsequence::SameState(state(AfterDisconnect::Nothing))
    );
    assert!(!probed.get());
}

#[test]
fn the_exit_is_probed_when_no_command_is_ready() {
    let mut shared = settings();
    let consequence = state(AfterDisconnect::Reconnect(1)).handle_event(
        CommandPoll::NotReady,
        || ExitPoll::Ready(None),
        &mut shared,
    );
    assert_eq!(consequence, EventConsequence::NewState(NextState::Connecting(1)));
    let consequence = state(AfterDisconnect::Reconnect(1)).handle_event(
        CommandPoll::NotReady,
        || ExitPoll::NotReady,
        &mut shared,
    );
    assert_eq!(
        consequence,
        EventConsequence::NoEvents(state(AfterDisconnect::Reconnect(1)))
    );
    assert_eq!(shared, settings());
}

#[test]
fn block_reason_knows_offline() {
    assert!(BlockReason::IsOffline.is_offline());
    assert!(!BlockReason::AuthFailed(None).is_offline());
    assert!(!BlockReason::Ipv6Unavailable.is_offline());
}
