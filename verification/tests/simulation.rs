use cabledesk::classify::InterfaceClassification;
use cabledesk::error::{CableDeskError, UserFacingError};
use cabledesk::peer::{validate_cable_peer_policy_only, PreparedDirectLink, ValidatedCablePeer};
use cabledesk::simulation::{wifi_peer_claim, SimulateCommand, SimulatedWorld};
use cabledesk::state::ConnectionState;

#[test]
fn full_simulated_lifecycle_rejects_wifi_and_stops_on_unplug() {
    let mut world = SimulatedWorld::new();
    assert_eq!(world.state.current(), ConnectionState::WaitingForCable);

    world.apply(SimulateCommand::Usb4Controller).unwrap();
    world.apply(SimulateCommand::CableInserted).unwrap();
    world.apply(SimulateCommand::DirectInterfaceAdded).unwrap();
    assert_eq!(world.state.current(), ConnectionState::ConfiguringLink);

    world.apply(SimulateCommand::PeerDiscovered).unwrap();
    world.validate_current_peer_policy().unwrap();

    let wifi_err = world.apply(SimulateCommand::PeerOnWifi).unwrap_err();
    assert!(matches!(wifi_err, CableDeskError::PeerNotOnDirectCable));
    let uf = UserFacingError::from(&wifi_err);
    assert!(uf.headline.contains("direct cable"));

    world.apply(SimulateCommand::PeerTrusted).unwrap();
    world.apply(SimulateCommand::StreamStarted).unwrap();
    assert!(world.mock_stream_active);
    assert_eq!(world.state.current(), ConnectionState::Streaming);

    world.apply(SimulateCommand::CableRemoved).unwrap();
    assert!(!world.mock_stream_active);
    assert!(world.interface_name.is_none());
    assert_eq!(world.state.current(), ConnectionState::WaitingForCable);
}

#[test]
fn ordinary_ethernet_peer_is_rejected() {
    let mut world = SimulatedWorld::new();
    world.apply(SimulateCommand::Usb4Controller).unwrap();
    world.apply(SimulateCommand::CableInserted).unwrap();
    world.apply(SimulateCommand::DirectInterfaceAdded).unwrap();
    let err = world.apply(SimulateCommand::PeerOnEthernet).unwrap_err();
    assert!(matches!(err, CableDeskError::PeerNotOnDirectCable));
}

#[test]
fn no_cable_message() {
    let world = SimulatedWorld::new();
    let err = world.prepared_link().unwrap_err();
    assert!(matches!(err, CableDeskError::NoDirectCableConnection));
    assert_eq!(
        UserFacingError::from(&err).headline,
        "No direct cable connection"
    );
}

#[test]
fn wifi_peer_cannot_become_validated_against_direct_link() {
    let link = PreparedDirectLink::new(
        "sim-thunderbolt0".to_string(),
        InterfaceClassification::DirectThunderbolt,
    )
    .unwrap();
    let err = validate_cable_peer_policy_only(&link, &wifi_peer_claim()).unwrap_err();
    assert!(matches!(err, CableDeskError::PeerNotOnDirectCable));
    let _unused: Option<ValidatedCablePeer> = None;
}

#[test]
fn snapshot_round_trip_preserves_state() {
    let mut world = SimulatedWorld::new();
    world.apply(SimulateCommand::Usb4Controller).unwrap();
    world.apply(SimulateCommand::CableInserted).unwrap();
    world.apply(SimulateCommand::DirectInterfaceAdded).unwrap();
    let restored = SimulatedWorld::from_snapshot(world.to_snapshot());
    assert_eq!(restored.state.current(), ConnectionState::ConfiguringLink);
    assert_eq!(restored.interface_name.as_deref(), Some("sim-thunderbolt0"));
}

#[test]
fn cable_needs_a_controller_and_interface_needs_a_cable() {
    let mut world = SimulatedWorld::new();
    assert!(matches!(
        world.apply(SimulateCommand::CableInserted),
        Err(CableDeskError::NoDirectLinkHardware)
    ));
    assert!(matches!(
        world.apply(SimulateCommand::DirectInterfaceAdded),
        Err(CableDeskError::DirectInterfaceMissing)
    ));
    assert!(matches!(
        world.apply(SimulateCommand::PeerDiscovered),
        Err(CableDeskError::NoDirectCableConnection)
    ));
}

#[test]
fn stream_cannot_start_before_host_is_prepared() {
    let mut world = SimulatedWorld::new();
    match world.apply(SimulateCommand::StreamStarted) {
        Err(CableDeskError::Config(msg)) => {
            assert_eq!(msg, "cannot start mock stream from WaitingForCable")
        }
        other => panic!("unexpected {other:?}"),
    }
    assert!(!world.mock_stream_active);
}

#[test]
fn trusting_without_a_peer_is_a_config_error() {
    let mut world = SimulatedWorld::new();
    world.apply(SimulateCommand::Usb4Controller).unwrap();
    world.apply(SimulateCommand::CableInserted).unwrap();
    world.apply(SimulateCommand::DirectInterfaceAdded).unwrap();
    match world.apply(SimulateCommand::PeerTrusted) {
        Err(CableDeskError::Config(msg)) => assert_eq!(msg, "no simulated peer"),
        other => panic!("unexpected {other:?}"),
    }
}

#[test]
fn unplug_from_configuring_link_bridges_through_error() {
    let mut world = SimulatedWorld::new();
    world.apply(SimulateCommand::Usb4Controller).unwrap();
    world.apply(SimulateCommand::CableInserted).unwrap();
    world.apply(SimulateCommand::DirectInterfaceAdded).unwrap();
    let msg = world.apply(SimulateCommand::DirectInterfaceRemoved).unwrap();
    assert_eq!(
        msg,
        "Cable removed — session stopped. No Wi-Fi/Ethernet fallback."
    );
    assert_eq!(world.state.current(), ConnectionState::WaitingForCable);
    let history = world.state.history();
    assert_eq!(history[history.len() - 1], ConnectionState::Error);
    assert_eq!(
        world.apply(SimulateCommand::CableRemoved).unwrap(),
        "Already waiting for cable."
    );
}

#[test]
fn stream_failure_enters_error_and_identity_mismatch_is_refused() {
    let mut world = SimulatedWorld::new();
    assert!(matches!(
        world.apply(SimulateCommand::IdentityMismatch),
        Err(CableDeskError::UntrustedPeerIdentity)
    ));
    assert_eq!(world.apply(SimulateCommand::StreamFailed).unwrap(), "Mock stream failed.");
    assert_eq!(world.state.current(), ConnectionState::Error);
}

#[test]
fn charging_and_discharging_are_exclusive() {
    let mut world = SimulatedWorld::new();
    world.apply(SimulateCommand::Charging).unwrap();
    assert!(world.charging && !world.discharging);
    world.apply(SimulateCommand::Discharging).unwrap();
    assert!(!world.charging && world.discharging);
}
