use cabledesk::classify::{
    classify_from_driver_name, classify_from_interface_name, classify_interface,
    require_direct_cable_interface, InterfaceClassification,
};
use cabledesk::error::{CableDeskError, UserFacingError};
use cabledesk::fedora::is_direct_link_driver;
use cabledesk::manager::{DirectLinkEvent, DirectLinkTracker};
use cabledesk::peer::{
    is_link_local_v4, reject_if_discovery_not_direct_cable, validate_cable_peer,
    validate_cable_peer_claim, validate_cable_peer_policy_only, IpAddress, PeerClaim,
    PreparedDirectLink,
};
use cabledesk::profile::{DirectLinkProfile, NmSection, NmValue};

#[test]
fn thunderbolt_net_driver_is_direct() {
    assert!(classify_from_driver_name("thunderbolt-net").is_direct_cable());
    assert_eq!(
        classify_from_driver_name("thunderbolt_net"),
        InterfaceClassification::DirectThunderbolt
    );
}

#[test]
fn wifi_drivers_are_rejected() {
    assert_eq!(
        classify_from_driver_name("iwlwifi"),
        InterfaceClassification::WiFi
    );
    assert!(!classify_from_driver_name("iwlwifi").is_direct_cable());
}

#[test]
fn ordinary_ethernet_is_rejected() {
    assert_eq!(
        classify_from_driver_name("e1000e"),
        InterfaceClassification::OrdinaryEthernet
    );
    assert!(!classify_from_driver_name("r8169").is_direct_cable());
}

#[test]
fn misleading_thunderbolt_name_without_driver_is_unknown() {
    assert_eq!(
        classify_from_interface_name("thunderbolt0"),
        InterfaceClassification::Unknown
    );
    assert!(!classify_from_interface_name("thunderbolt0").is_direct_cable());
}

#[test]
fn wifi_interface_name_is_rejected() {
    assert_eq!(
        classify_from_interface_name("wlp0s20f3"),
        InterfaceClassification::WiFi
    );
}

#[test]
fn vpn_and_veth_are_rejected() {
    assert_eq!(
        classify_from_driver_name("wireguard"),
        InterfaceClassification::Vpn
    );
    assert_eq!(
        classify_from_driver_name("veth"),
        InterfaceClassification::Virtual
    );
}

#[test]
fn driver_names_are_trimmed_and_case_folded() {
    assert_eq!(
        classify_from_driver_name("  Thunderbolt-Net\n"),
        InterfaceClassification::DirectThunderbolt
    );
    assert_eq!(
        classify_from_driver_name("\u{a0}USB4_NET"),
        InterfaceClassification::DirectUsb4
    );
    assert_eq!(classify_from_driver_name("   "), InterfaceClassification::Unknown);
}

#[test]
fn every_driver_rule_has_an_example() {
    let cases = [
        ("brcmfmac", InterfaceClassification::WiFi),
        ("mt7925e", InterfaceClassification::WiFi),
        ("tun", InterfaceClassification::Vpn),
        ("br_netfilter", InterfaceClassification::Bridge),
        ("dummy", InterfaceClassification::Virtual),
        ("docker-proxy", InterfaceClassification::Container),
        ("igbvf", InterfaceClassification::OrdinaryEthernet),
        ("lo", InterfaceClassification::Loopback),
        ("loopback", InterfaceClassification::Loopback),
        ("mystery", InterfaceClassification::Unknown),
    ];
    for (driver, expected) in cases {
        assert_eq!(classify_from_driver_name(driver), expected, "{driver}");
    }
}

#[test]
fn every_name_rule_has_an_example() {
    let cases = [
        ("lo", InterfaceClassification::Loopback),
        ("wlan0", InterfaceClassification::WiFi),
        ("enp3s0", InterfaceClassification::OrdinaryEthernet),
        ("eth0", InterfaceClassification::OrdinaryEthernet),
        ("br0", InterfaceClassification::Bridge),
        ("veth1234", InterfaceClassification::Container),
        ("docker0", InterfaceClassification::Container),
        ("wg0", InterfaceClassification::Vpn),
        ("tap3", InterfaceClassification::Vpn),
        ("usb4net0", InterfaceClassification::Unknown),
    ];
    for (name, expected) in cases {
        assert_eq!(classify_from_interface_name(name), expected, "{name}");
    }
}

#[test]
fn driver_evidence_wins_over_the_name() {
    assert_eq!(
        classify_interface("thunderbolt0", Some("iwlwifi")),
        InterfaceClassification::WiFi
    );
    assert_eq!(
        classify_interface("wlan0", Some("thunderbolt-net")),
        InterfaceClassification::DirectThunderbolt
    );
    assert_eq!(
        classify_interface("wlan0", None),
        InterfaceClassification::WiFi
    );
}

#[test]
fn loopback_is_not_direct_cable() {
    assert!(matches!(
        require_direct_cable_interface("lo", None),
        Err(CableDeskError::NoDirectCableConnection)
    ));
}

#[test]
fn direct_interface_is_required_by_driver() {
    assert_eq!(
        require_direct_cable_interface("thunderbolt0", Some("thunderbolt-net")).unwrap(),
        InterfaceClassification::DirectThunderbolt
    );
}

fn tb_link(name: &str) -> PreparedDirectLink {
    PreparedDirectLink::new(name.to_string(), InterfaceClassification::DirectThunderbolt).unwrap()
}

#[test]
fn prepared_link_rejects_wifi_classification() {
    let err = PreparedDirectLink::new("wlp0s20f3".to_string(), InterfaceClassification::WiFi)
        .unwrap_err();
    assert!(matches!(err, CableDeskError::NoDirectCableConnection));
}

#[test]
fn peer_on_wifi_is_rejected() {
    let link = tb_link("thunderbolt0");
    let claim = PeerClaim {
        address: IpAddress::V4([169, 254, 1, 2]),
        discovered_on_interface: "wlp0s20f3".into(),
        discovered_on_driver: Some("iwlwifi".into()),
    };
    let err = validate_cable_peer_policy_only(&link, &claim).unwrap_err();
    assert!(matches!(err, CableDeskError::PeerNotOnDirectCable));
}

#[test]
fn peer_on_ethernet_is_rejected() {
    assert!(matches!(
        reject_if_discovery_not_direct_cable(Some("e1000e"), "enp3s0"),
        Err(CableDeskError::PeerNotOnDirectCable)
    ));
}

#[test]
fn peer_on_thunderbolt_driver_is_accepted_by_policy() {
    assert!(reject_if_discovery_not_direct_cable(Some("thunderbolt-net"), "thunderbolt0").is_ok());
}

#[test]
fn trusted_device_on_wrong_interface_is_still_rejected() {
    assert!(matches!(
        reject_if_discovery_not_direct_cable(Some("iwlwifi"), "wlan0"),
        Err(CableDeskError::PeerNotOnDirectCable)
    ));
}

#[test]
fn user_facing_message_for_wrong_interface() {
    let uf = UserFacingError::from(&CableDeskError::PeerNotOnDirectCable);
    assert!(uf.headline.contains("direct cable"));
    let none = UserFacingError::from(&CableDeskError::NoDirectCableConnection);
    assert_eq!(none.headline, "No direct cable connection");
}

#[test]
fn wifi_discovery_still_rejected_by_policy() {
    assert!(reject_if_discovery_not_direct_cable(Some("iwlwifi"), "wlan0").is_err());
    assert!(!InterfaceClassification::WiFi.is_direct_cable());
}

#[test]
fn policy_only_accepts_link_local_peer_on_the_link() {
    let link = tb_link("thunderbolt0");
    let claim = PeerClaim {
        address: IpAddress::V4([169, 254, 7, 9]),
        discovered_on_interface: "thunderbolt0".into(),
        discovered_on_driver: Some("thunderbolt-net".into()),
    };
    let peer = validate_cable_peer_policy_only(&link, &claim).unwrap();
    assert_eq!(peer.address, claim.address);
    assert_eq!(peer.interface_name, "thunderbolt0");
    let routable = PeerClaim {
        address: IpAddress::V4([192, 168, 1, 5]),
        ..claim.clone()
    };
    assert!(matches!(
        validate_cable_peer_policy_only(&link, &routable),
        Err(CableDeskError::PeerNotOnDirectCable)
    ));
}

#[test]
fn claim_on_another_direct_interface_is_rejected() {
    let link = tb_link("thunderbolt0");
    let claim = PeerClaim {
        address: IpAddress::V4([169, 254, 7, 9]),
        discovered_on_interface: "thunderbolt1".into(),
        discovered_on_driver: Some("thunderbolt-net".into()),
    };
    assert!(matches!(
        validate_cable_peer_claim(&link, &claim),
        Err(CableDeskError::PeerNotOnDirectCable)
    ));
}

#[test]
fn non_direct_link_rejects_every_claim() {
    let link = PreparedDirectLink {
        interface_name: "wlan0".to_string(),
        classification: InterfaceClassification::WiFi,
        interface_index: None,
    };
    let claim = PeerClaim {
        address: IpAddress::V4([169, 254, 7, 9]),
        discovered_on_interface: "wlan0".into(),
        discovered_on_driver: Some("thunderbolt-net".into()),
    };
    assert!(matches!(
        validate_cable_peer_claim(&link, &claim),
        Err(CableDeskError::NoDirectCableConnection)
    ));
}

#[test]
fn live_validation_needs_ipv4_and_a_direct_route() {
    let link = tb_link("thunderbolt0");
    let claim = PeerClaim {
        address: IpAddress::V4([169, 254, 7, 9]),
        discovered_on_interface: "thunderbolt0".into(),
        discovered_on_driver: None,
    };
    // Name-only evidence is never enough.
    assert!(validate_cable_peer(&link, &claim, true).is_err());
    let with_driver = PeerClaim {
        discovered_on_driver: Some("thunderbolt-net".into()),
        ..claim
    };
    assert!(validate_cable_peer(&link, &with_driver, true).is_ok());
    assert!(validate_cable_peer(&link, &with_driver, false).is_err());
    let v6 = PeerClaim {
        address: IpAddress::V6([0xfe, 0x80, 0, 0, 0, 0, 0, 0, 0, 0, 0, 0, 0, 0, 0, 1]),
        ..with_driver
    };
    assert!(validate_cable_peer(&link, &v6, true).is_err());
}

#[test]
fn link_local_detection() {
    assert!(is_link_local_v4([169, 254, 0, 1]));
    assert!(!is_link_local_v4([169, 253, 0, 1]));
}

fn entry<'a>(settings: &'a [NmSection], section: &str, key: &str) -> &'a NmValue {
    let s = settings
        .iter()
        .find(|s| s.name == section)
        .unwrap_or_else(|| panic!("missing section {section}"));
    &s.entries
        .iter()
        .find(|e| e.key == key)
        .unwrap_or_else(|| panic!("missing key {section}.{key}"))
        .value
}

#[test]
fn pins_the_exact_interface_name_supplied() {
    let profile = DirectLinkProfile::new("thunderbolt0".to_string());
    let settings = profile.to_nm_settings();
    assert_eq!(
        entry(&settings, "connection", "interface-name"),
        &NmValue::Str("thunderbolt0".to_string())
    );
}

#[test]
fn never_becomes_the_default_route() {
    let settings = DirectLinkProfile::new("thunderbolt0".to_string()).to_nm_settings();
    assert_eq!(entry(&settings, "ipv4", "never-default"), &NmValue::Bool(true));
}

#[test]
fn uses_plain_link_local_not_dhcp_fallback_mode() {
    let settings = DirectLinkProfile::new("thunderbolt0".to_string()).to_nm_settings();
    assert_eq!(
        entry(&settings, "ipv4", "method"),
        &NmValue::Str("link-local".to_string())
    );
    let ipv4 = settings.iter().find(|s| s.name == "ipv4").unwrap();
    assert!(!ipv4.entries.iter().any(|e| e.key == "link-local"));
}

#[test]
fn autoconnects_so_plugging_in_is_enough() {
    let settings = DirectLinkProfile::new("thunderbolt0".to_string()).to_nm_settings();
    assert_eq!(entry(&settings, "connection", "autoconnect"), &NmValue::Bool(true));
}

#[test]
fn connection_id_embeds_interface_name_for_debuggability() {
    let profile = DirectLinkProfile::new("thunderbolt1".to_string());
    assert!(profile.connection_id().contains("thunderbolt1"));
    assert_eq!(profile.connection_id(), "CableDesk Direct Link (thunderbolt1)");
}

#[test]
fn ipv6_is_disabled() {
    let settings = DirectLinkProfile::new("tb".to_string()).to_nm_settings();
    assert_eq!(
        entry(&settings, "ipv6", "method"),
        &NmValue::Str("disabled".to_string())
    );
}

#[test]
fn tracker_reports_removal_with_the_name_seen_at_appearance() {
    let mut tracker = DirectLinkTracker::new();
    assert_eq!(
        tracker.device_added("/dev/7", Some("thunderbolt0".to_string())),
        Some(DirectLinkEvent::Appeared {
            interface_name: "thunderbolt0".to_string()
        })
    );
    assert_eq!(tracker.device_added("/dev/8", None), None);
    assert_eq!(tracker.device_removed("/dev/8"), None);
    assert_eq!(
        tracker.device_removed("/dev/7"),
        Some(DirectLinkEvent::Disappeared {
            interface_name: "thunderbolt0".to_string()
        })
    );
    assert_eq!(tracker.device_removed("/dev/7"), None);
}

#[test]
fn tracker_keeps_the_latest_name_for_a_path() {
    let mut tracker = DirectLinkTracker::new();
    tracker.device_added("/dev/1", Some("a".to_string()));
    tracker.device_added("/dev/1", Some("b".to_string()));
    assert_eq!(
        tracker.device_removed("/dev/1"),
        Some(DirectLinkEvent::Disappeared {
            interface_name: "b".to_string()
        })
    );
    assert_eq!(tracker.device_removed("/dev/1"), None);
}

#[test]
fn direct_link_driver_must_mention_thunderbolt() {
    assert!(is_direct_link_driver("thunderbolt-net"));
    assert!(!is_direct_link_driver("Thunderbolt-Net"));
    assert!(!is_direct_link_driver("e1000e"));
}
