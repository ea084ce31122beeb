use cabledesk::config::{DeviceConfig, Role, CURRENT_SCHEMA_VERSION};
use cabledesk::device::{DeviceId, PairingCode};
use cabledesk::error::{CableDeskError, UserFacingError};
use cabledesk::state::{ConnectionState, TransitionError};

#[test]
fn migrates_missing_version_forward() {
    let config = DeviceConfig::new("x".to_string(), Role::Both);
    let migrated = config.clone().migrate().unwrap();
    assert_eq!(migrated.schema_version, CURRENT_SCHEMA_VERSION);
}

#[test]
fn migrate_refuses_a_newer_schema_version() {
    let mut config = DeviceConfig::new("x".to_string(), Role::Host);
    config.schema_version = 999;
    match config.migrate() {
        Err(CableDeskError::Config(msg)) => assert_eq!(
            msg,
            "config schema version 999 is newer than supported version 1"
        ),
        other => panic!("unexpected {other:?}"),
    }
}

#[test]
fn migrate_keeps_every_other_field() {
    let mut config = DeviceConfig::new("Desk".to_string(), Role::Controller);
    config.schema_version = 0;
    config.require_confirmation_always = true;
    let migrated = config.migrate().unwrap();
    assert_eq!(migrated.schema_version, 1);
    assert_eq!(migrated.friendly_name, "Desk");
    assert_eq!(migrated.role, Role::Controller);
    assert!(migrated.require_confirmation_always);
}

#[test]
fn new_config_does_not_force_confirmation() {
    let config = DeviceConfig::new("Test Host".to_string(), Role::Host);
    assert_eq!(config.schema_version, 1);
    assert!(!config.require_confirmation_always);
}

#[test]
fn device_id_displays_as_lowercase_hex() {
    let id = DeviceId([0xAB; 16]);
    assert_eq!(id.to_string(), "ab".repeat(16));
}

#[test]
fn device_id_pads_each_byte_to_two_digits() {
    let mut bytes = [0u8; 16];
    bytes[0] = 0x01;
    bytes[15] = 0xf0;
    assert_eq!(
        DeviceId(bytes).to_string(),
        "010000000000000000000000000000f0"
    );
}

#[test]
fn pairing_code_rejects_out_of_range_digits() {
    assert!(PairingCode::from_digits([1, 2, 3, 4, 5, 10]).is_none());
    assert!(PairingCode::from_digits([0, 0, 0, 0, 0, 0]).is_some());
}

#[test]
fn pairing_code_displays_six_digits() {
    let code = PairingCode::from_digits([1, 2, 3, 4, 5, 6]).unwrap();
    assert_eq!(code.to_string(), "123456");
}

#[test]
fn user_facing_never_leaks_debug_formatting() {
    let err = CableDeskError::Config("secret-token=abc123".to_string());
    let user_facing = UserFacingError::from(&err);
    assert!(!user_facing.headline.contains("secret-token"));
    assert!(user_facing
        .detail
        .as_deref()
        .unwrap_or_default()
        .contains("diagnostics"));
}

#[test]
fn every_variant_maps_to_a_non_empty_headline() {
    let samples = [
        CableDeskError::NoDirectLinkHardware,
        CableDeskError::DirectInterfaceMissing,
        CableDeskError::UntrustedPeerIdentity,
        CableDeskError::LinkLost,
        CableDeskError::NoDirectCableConnection,
        CableDeskError::PeerNotOnDirectCable,
        CableDeskError::NoHardwareEncoder,
        CableDeskError::MissingDependency("sunshine".into()),
    ];
    for err in samples {
        let uf = UserFacingError::from(&err);
        assert!(!uf.headline.is_empty());
    }
}

#[test]
fn missing_dependency_names_the_component() {
    let uf = UserFacingError::from(&CableDeskError::MissingDependency("sunshine".into()));
    assert_eq!(uf.headline, "A required component is not installed.");
    assert_eq!(uf.detail.as_deref(), Some("Missing: sunshine"));
}

#[test]
fn no_cable_headline_has_no_detail() {
    let uf = UserFacingError::from(&CableDeskError::NoDirectCableConnection);
    assert_eq!(uf, UserFacingError::new("No direct cable connection".to_string()));
}

#[test]
fn error_text_matches_display_messages() {
    assert_eq!(
        CableDeskError::PeerNotOnDirectCable.to_string(),
        "peer was not discovered or reachable through the direct cable interface"
    );
    assert_eq!(
        CableDeskError::Detection("no /proc".into()).to_string(),
        "platform detection failed: no /proc"
    );
    let t = CableDeskError::from(TransitionError {
        from: ConnectionState::Ready,
        to: ConnectionState::Streaming,
    });
    assert_eq!(
        t.to_string(),
        "state transition error: cannot transition from Ready to Streaming"
    );
    let io = CableDeskError::Io(std::io::Error::new(std::io::ErrorKind::Other, "boom"));
    assert_eq!(io.to_string(), "I/O error: boom");
}

#[test]
fn user_facing_with_detail_keeps_both_lines() {
    let uf = UserFacingError::with_detail("Head".to_string(), "Body".to_string());
    assert_eq!(uf.headline, "Head");
    assert_eq!(uf.detail.as_deref(), Some("Body"));
}
