use cabledesk::agent::{begin_direct_link, start_up};
use cabledesk::state::{
    force_waiting_for_cable, try_transition, ConnectionState, StateMachine, TransitionError,
};

fn happy_path() -> [ConnectionState; 14] {
    [
        ConnectionState::CheckingCompatibility,
        ConnectionState::Ready,
        ConnectionState::WaitingForCable,
        ConnectionState::CableDetected,
        ConnectionState::InspectingPower,
        ConnectionState::ConfiguringLink,
        ConnectionState::DiscoveringPeer,
        ConnectionState::PairingRequired,
        ConnectionState::Pairing,
        ConnectionState::Authenticating,
        ConnectionState::PreparingHost,
        ConnectionState::StartingSunshine,
        ConnectionState::StartingViewer,
        ConnectionState::Streaming,
    ]
}

#[test]
fn starts_unconfigured() {
    let sm = StateMachine::new();
    assert_eq!(sm.current(), ConnectionState::Unconfigured);
    assert!(sm.history().is_empty());
}

#[test]
fn happy_path_reaches_streaming() {
    let mut sm = StateMachine::new();
    let path = happy_path();
    for state in path {
        sm.transition(state)
            .unwrap_or_else(|e| panic!("{}", e.to_string()));
    }
    assert_eq!(sm.current(), ConnectionState::Streaming);
    assert_eq!(sm.history().len(), path.len());
}

#[test]
fn rejects_illegal_jump() {
    let mut sm = StateMachine::new();
    let err = sm.transition(ConnectionState::Streaming).unwrap_err();
    assert_eq!(
        err,
        TransitionError {
            from: ConnectionState::Unconfigured,
            to: ConnectionState::Streaming
        }
    );
    // Rejected transitions must not mutate state.
    assert_eq!(sm.current(), ConnectionState::Unconfigured);
}

#[test]
fn any_state_can_error() {
    for state in [
        ConnectionState::Unconfigured,
        ConnectionState::Ready,
        ConnectionState::Streaming,
        ConnectionState::Pairing,
        ConnectionState::Recovering,
    ] {
        assert!(state.can_transition_to(ConnectionState::Error));
    }
}

#[test]
fn error_recovers_back_toward_waiting() {
    let mut sm = StateMachine::new();
    sm.transition(ConnectionState::CheckingCompatibility).unwrap();
    sm.transition(ConnectionState::Ready).unwrap();
    sm.transition(ConnectionState::WaitingForCable).unwrap();
    sm.transition(ConnectionState::CableDetected).unwrap();
    sm.transition(ConnectionState::Error).unwrap();
    assert_eq!(sm.current(), ConnectionState::Error);
    sm.transition(ConnectionState::Recovering).unwrap();
    sm.transition(ConnectionState::WaitingForCable).unwrap();
    assert_eq!(sm.current(), ConnectionState::WaitingForCable);
}

#[test]
fn cable_removed_mid_stream_returns_to_waiting_for_cable() {
    let mut sm = StateMachine::new();
    for state in happy_path() {
        sm.transition(state).unwrap();
    }
    // Cable unplugged mid-stream: must return to WaitingForCable.
    sm.transition(ConnectionState::WaitingForCable).unwrap();
    assert_eq!(sm.current(), ConnectionState::WaitingForCable);
}

#[test]
fn force_waiting_from_configuring_link_uses_error_bridge() {
    let mut sm = StateMachine::new();
    try_transition(&mut sm, ConnectionState::CheckingCompatibility);
    try_transition(&mut sm, ConnectionState::Ready);
    try_transition(&mut sm, ConnectionState::WaitingForCable);
    try_transition(&mut sm, ConnectionState::CableDetected);
    try_transition(&mut sm, ConnectionState::InspectingPower);
    try_transition(&mut sm, ConnectionState::ConfiguringLink);
    force_waiting_for_cable(&mut sm);
    assert_eq!(sm.current(), ConnectionState::WaitingForCable);
}

#[test]
fn force_waiting_records_the_error_bridge_in_history() {
    let mut sm = StateMachine::restored(ConnectionState::ConfiguringLink);
    force_waiting_for_cable(&mut sm);
    assert_eq!(
        sm.history(),
        &[ConnectionState::ConfiguringLink, ConnectionState::Error]
    );
}

#[test]
fn force_waiting_takes_the_direct_step_when_legal() {
    let mut sm = StateMachine::restored(ConnectionState::Streaming);
    force_waiting_for_cable(&mut sm);
    assert_eq!(sm.current(), ConnectionState::WaitingForCable);
    assert_eq!(sm.history(), &[ConnectionState::Streaming]);
}

#[test]
fn force_waiting_is_a_no_op_when_already_waiting() {
    let mut sm = StateMachine::restored(ConnectionState::WaitingForCable);
    force_waiting_for_cable(&mut sm);
    assert!(sm.history().is_empty());
}

#[test]
fn illegal_try_transition_is_ignored() {
    let mut sm = StateMachine::new();
    try_transition(&mut sm, ConnectionState::Streaming);
    assert_eq!(sm.current(), ConnectionState::Unconfigured);
    assert!(sm.history().is_empty());
}

#[test]
fn error_is_left_only_through_recovery_waiting_or_ready() {
    let all = [
        ConnectionState::Unconfigured,
        ConnectionState::CheckingCompatibility,
        ConnectionState::Unsupported,
        ConnectionState::Ready,
        ConnectionState::WaitingForCable,
        ConnectionState::CableDetected,
        ConnectionState::InspectingPower,
        ConnectionState::ConfiguringLink,
        ConnectionState::DiscoveringPeer,
        ConnectionState::PairingRequired,
        ConnectionState::Pairing,
        ConnectionState::Authenticating,
        ConnectionState::PreparingHost,
        ConnectionState::StartingSunshine,
        ConnectionState::StartingViewer,
        ConnectionState::Streaming,
        ConnectionState::Suspended,
        ConnectionState::Disconnecting,
        ConnectionState::Disconnected,
        ConnectionState::Recovering,
        ConnectionState::Error,
    ];
    let exits: Vec<ConnectionState> = all
        .iter()
        .copied()
        .filter(|s| ConnectionState::Error.can_transition_to(*s))
        .collect();
    assert_eq!(
        exits,
        vec![
            ConnectionState::Ready,
            ConnectionState::WaitingForCable,
            ConnectionState::Recovering,
            ConnectionState::Error
        ]
    );
}

#[test]
fn state_names_print_like_debug() {
    assert_eq!(ConnectionState::WaitingForCable.to_string(), "WaitingForCable");
    assert_eq!(ConnectionState::Error.name(), "Error");
}

#[test]
fn transition_error_text_names_both_states() {
    let err = TransitionError {
        from: ConnectionState::Unconfigured,
        to: ConnectionState::Streaming,
    };
    assert_eq!(
        err.to_string(),
        "cannot transition from Unconfigured to Streaming"
    );
}

#[test]
fn agent_start_up_waits_for_cable_then_configures_link() {
    let mut sm = StateMachine::new();
    start_up(&mut sm);
    assert_eq!(sm.current(), ConnectionState::WaitingForCable);
    begin_direct_link(&mut sm);
    assert_eq!(sm.current(), ConnectionState::ConfiguringLink);
    assert_eq!(sm.history().len(), 6);
}

#[test]
fn allowed_next_lists_successors_without_error() {
    assert_eq!(
        ConnectionState::Streaming.allowed_next(),
        vec![
            ConnectionState::Suspended,
            ConnectionState::Disconnecting,
            ConnectionState::WaitingForCable
        ]
    );
}

#[test]
fn agent_start_up_skips_steps_that_are_not_legal() {
    let mut sm = StateMachine::restored(ConnectionState::Ready);
    start_up(&mut sm);
    assert_eq!(sm.current(), ConnectionState::WaitingForCable);
    assert_eq!(sm.history(), &[ConnectionState::Ready]);

    let mut streaming = StateMachine::restored(ConnectionState::Streaming);
    begin_direct_link(&mut streaming);
    assert_eq!(streaming.current(), ConnectionState::Streaming);
    assert!(streaming.history().is_empty());
}
