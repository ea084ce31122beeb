use cabledesk::agent::{
    discovery_step, AgentSession, DiscoveryAction, DiscoveryInput, DiscoveryStage, CONTROL_PORT,
};
use cabledesk::classify::InterfaceClassification;
use cabledesk::error::CableDeskError;
use cabledesk::state::{ConnectionState, StateMachine};

fn waiting() -> StateMachine {
    let mut sm = StateMachine::new();
    cabledesk::agent::start_up(&mut sm);
    sm
}

fn session() -> AgentSession {
    AgentSession::new("abcdef0123456789".to_string(), "desk-a".to_string())
}

#[test]
fn full_discovery_bring_up_on_a_direct_link() {
    let mut sm = waiting();
    let mut s = session();
    let iface = "thunderbolt0";

    let (stage, action) = discovery_step(
        &mut sm,
        &mut s,
        iface,
        DiscoveryStage::Start,
        DiscoveryInput::Begin { driver: Some("thunderbolt-net".to_string()) },
    );
    assert!(matches!(action, DiscoveryAction::LookUpIndex));
    assert_eq!(sm.current(), ConnectionState::WaitingForCable);

    let (stage, action) = discovery_step(&mut sm, &mut s, iface, stage, DiscoveryInput::Index(Ok(7)));
    assert!(matches!(action, DiscoveryAction::PrepareViaHelper));
    assert_eq!(sm.current(), ConnectionState::ConfiguringLink);
    assert_eq!(s.interface_name.as_deref(), Some("thunderbolt0"));
    assert_eq!(s.driver.as_deref(), Some("thunderbolt-net"));

    let (stage, action) = discovery_step(
        &mut sm,
        &mut s,
        iface,
        stage,
        DiscoveryInput::Helper(Err("PrepareDirectLink: denied".to_string())),
    );
    assert!(matches!(action, DiscoveryAction::ConnectAvahi));
    assert_eq!(s.last_error.as_deref(), Some("prepare: PrepareDirectLink: denied"));
    match &stage {
        DiscoveryStage::Connecting { link, interface_index, .. } => {
            assert_eq!(link.interface_name, "thunderbolt0");
            assert_eq!(link.classification, InterfaceClassification::DirectThunderbolt);
            assert_eq!(link.interface_index, Some(7));
            assert_eq!(*interface_index, 7);
        }
        other => panic!("unexpected stage {other:?}"),
    }

    let (stage, action) = discovery_step(&mut sm, &mut s, iface, stage, DiscoveryInput::Avahi(Ok(())));
    match action {
        DiscoveryAction::Publish { interface_index, record } => {
            assert_eq!(interface_index, 7);
            assert_eq!(record.device_id, "abcdef0123456789");
            assert_eq!(record.friendly_name, "desk-a");
            assert_eq!(record.control_port, CONTROL_PORT);
        }
        other => panic!("unexpected action {other:?}"),
    }

    let (stage, action) = discovery_step(&mut sm, &mut s, iface, stage, DiscoveryInput::Published(Ok(())));
    assert!(matches!(action, DiscoveryAction::Browse { interface_index: 7 }));
    assert_eq!(sm.current(), ConnectionState::DiscoveringPeer);

    let (stage, action) = discovery_step(&mut sm, &mut s, iface, stage, DiscoveryInput::Browse(Ok(())));
    assert!(matches!(stage, DiscoveryStage::Done));
    match action {
        DiscoveryAction::Watch { link, driver, our_id } => {
            assert_eq!(link.interface_name, "thunderbolt0");
            assert_eq!(driver, "thunderbolt-net");
            assert_eq!(our_id, "abcdef0123456789");
        }
        other => panic!("unexpected action {other:?}"),
    }
}

#[test]
fn wifi_interface_is_refused_and_waits_for_cable() {
    let mut sm = waiting();
    let mut s = session();
    let (stage, action) = discovery_step(
        &mut sm,
        &mut s,
        "wlan0",
        DiscoveryStage::Start,
        DiscoveryInput::Begin { driver: Some("iwlwifi".to_string()) },
    );
    assert!(matches!(stage, DiscoveryStage::Done));
    assert!(matches!(action, DiscoveryAction::Stop));
    assert_eq!(s.last_error.as_deref(), Some("no direct cable connection"));
    assert_eq!(sm.current(), ConnectionState::WaitingForCable);
    assert!(s.interface_name.is_none());
}

#[test]
fn missing_index_records_the_error_and_stops() {
    let mut sm = waiting();
    let mut s = session();
    let stage = DiscoveryStage::Indexing {
        classification: InterfaceClassification::DirectThunderbolt,
        driver: None,
    };
    let (_, action) = discovery_step(
        &mut sm,
        &mut s,
        "thunderbolt0",
        stage,
        DiscoveryInput::Index(Err("platform detection failed: interface `thunderbolt0` has no kernel index".to_string())),
    );
    assert!(matches!(action, DiscoveryAction::Stop));
    assert_eq!(
        s.last_error.as_deref(),
        Some("platform detection failed: interface `thunderbolt0` has no kernel index")
    );
    assert_eq!(sm.current(), ConnectionState::WaitingForCable);
}

#[test]
fn avahi_and_browse_failures_stop_without_touching_the_state() {
    let mut s = session();
    let link = cabledesk::peer::PreparedDirectLink::new(
        "thunderbolt0".to_string(),
        InterfaceClassification::DirectThunderbolt,
    )
    .unwrap();
    let mut sm = StateMachine::restored(ConnectionState::ConfiguringLink);
    let (_, action) = discovery_step(
        &mut sm,
        &mut s,
        "thunderbolt0",
        DiscoveryStage::Connecting { link: link.clone(), driver: None, interface_index: 3 },
        DiscoveryInput::Avahi(Err("no bus".to_string())),
    );
    assert!(matches!(action, DiscoveryAction::Stop));
    assert_eq!(s.last_error.as_deref(), Some("avahi: no bus"));
    assert_eq!(sm.current(), ConnectionState::ConfiguringLink);

    let mut sm = StateMachine::restored(ConnectionState::DiscoveringPeer);
    let (_, action) = discovery_step(
        &mut sm,
        &mut s,
        "thunderbolt0",
        DiscoveryStage::Browsing { link, driver: None, interface_index: 3 },
        DiscoveryInput::Browse(Err("refused".to_string())),
    );
    assert!(matches!(action, DiscoveryAction::Stop));
    assert_eq!(s.last_error.as_deref(), Some("browse: refused"));
    assert_eq!(sm.current(), ConnectionState::DiscoveringPeer);
}

#[test]
fn publish_failure_is_recorded_and_discovery_goes_on() {
    let mut s = session();
    let link = cabledesk::peer::PreparedDirectLink::new(
        "thunderbolt0".to_string(),
        InterfaceClassification::DirectThunderbolt,
    )
    .unwrap();
    let mut sm = StateMachine::restored(ConnectionState::ConfiguringLink);
    let (_, action) = discovery_step(
        &mut sm,
        &mut s,
        "thunderbolt0",
        DiscoveryStage::Publishing { link, driver: None, interface_index: 3 },
        DiscoveryInput::Published(Err("collision".to_string())),
    );
    assert!(matches!(action, DiscoveryAction::Browse { interface_index: 3 }));
    assert_eq!(s.last_error.as_deref(), Some("publish: collision"));
    assert_eq!(sm.current(), ConnectionState::DiscoveringPeer);
}

#[test]
fn mismatched_stage_and_input_stop() {
    let mut sm = waiting();
    let mut s = session();
    let (stage, action) = discovery_step(
        &mut sm,
        &mut s,
        "thunderbolt0",
        DiscoveryStage::Start,
        DiscoveryInput::Browse(Ok(())),
    );
    assert!(matches!(stage, DiscoveryStage::Done));
    assert!(matches!(action, DiscoveryAction::Stop));
    assert_eq!(sm.current(), ConnectionState::WaitingForCable);
    assert!(s.last_error.is_none());
}

#[test]
fn io_and_json_errors_convert() {
    let io = CableDeskError::from(std::io::Error::other("disk"));
    assert!(matches!(io, CableDeskError::Io(_)));
    let json_err = serde_json::from_str::<u32>("not json").unwrap_err();
    let se = CableDeskError::from(json_err);
    assert!(matches!(se, CableDeskError::Serde(_)));
}

#[test]
fn history_counts_only_accepted_transitions() {
    let mut sm = StateMachine::new();
    let mut accepted = 0;
    for next in [
        ConnectionState::CheckingCompatibility,
        ConnectionState::Streaming,
        ConnectionState::Ready,
        ConnectionState::Pairing,
        ConnectionState::WaitingForCable,
    ] {
        if sm.transition(next).is_ok() {
            accepted += 1;
        }
    }
    assert_eq!(accepted, 3);
    assert_eq!(sm.history().len(), accepted);
    assert_eq!(sm.history()[0], ConnectionState::Unconfigured);
    assert_eq!(sm.current(), ConnectionState::WaitingForCable);
}
