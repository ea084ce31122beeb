use cabledesk::agent::{
    hostname_from, is_foreign_peer, is_own_record, local_device_id, AgentSession, CONTROL_PORT,
};
use cabledesk::config::Role;
use cabledesk::error::CableDeskError;
use cabledesk::fedora::{
    battery_check, controller_check, dependency_report, direct_interface_check,
    external_power_check, firewalld_check, is_battery, is_online_external_supply, is_typec_port,
    module_check, security_report, selinux_check, status_icon, status_symbol,
    trimmed_attribute_value, typec_port_check, BatteryReading, DependencyProbe, FedoraBackend,
    TypecPort,
};
use cabledesk::report::{CheckStatus, CompatibilityCheck, DirectLink, SessionType};
use cabledesk::service::PairingState;
use cabledesk::system::{parse_os_release, session_type_from, system_info_from};

#[test]
fn parses_quoted_and_unquoted_values() {
    let sample = r#"
NAME="Fedora Linux"
ID=fedora
VERSION_ID=44
# a comment
PRETTY_NAME="Fedora Linux 44 (Workstation Edition)"
"#;
    let map = parse_os_release(sample);
    assert_eq!(map.get("ID").unwrap(), "fedora");
    assert_eq!(map.get("VERSION_ID").unwrap(), "44");
    assert_eq!(
        map.get("PRETTY_NAME").unwrap(),
        "Fedora Linux 44 (Workstation Edition)"
    );
}

#[test]
fn ignores_blank_and_comment_lines() {
    let map = parse_os_release("\n# comment\n\nID=fedora\n");
    assert_eq!(map.len(), 1);
}

#[test]
fn later_os_release_settings_replace_earlier_ones() {
    let map = parse_os_release("ID=a\r\nNOEQUALS\n ID = \"b\" \n");
    assert_eq!(map.len(), 1);
    assert_eq!(map.get("ID").unwrap(), "b");
    assert!(map.get("NOEQUALS").is_none());
}

#[test]
fn system_info_uses_defaults_for_missing_keys() {
    let info = system_info_from(
        "NAME=Plain\n",
        None,
        Some("x11"),
        "x86_64".to_string(),
        "6.9.0\n",
        " host\n",
    );
    assert_eq!(info.distro_id, "unknown");
    assert_eq!(info.distro_name, "Plain");
    assert_eq!(info.distro_version, "unknown");
    assert_eq!(info.session_type, SessionType::X11);
    assert_eq!(info.kernel_version, "6.9.0");
    assert_eq!(info.hostname, "host");
    let bare = system_info_from("", Some("GNOME".into()), None, "a".into(), "", "");
    assert_eq!(bare.distro_name, "Unknown Linux");
    assert_eq!(bare.desktop_environment.as_deref(), Some("GNOME"));
    assert_eq!(bare.session_type, SessionType::Unknown);
}

#[test]
fn session_type_names() {
    assert_eq!(session_type_from(Some("wayland")), SessionType::Wayland);
    assert_eq!(session_type_from(Some("tty")), SessionType::Unknown);
}

fn view(c: &CompatibilityCheck) -> (&str, CheckStatus, Option<&str>) {
    (c.name.as_str(), c.status, c.detail.as_deref())
}

#[test]
fn controller_check_counts_devices() {
    assert_eq!(
        view(&controller_check(Some(2))),
        (
            "USB4 or Thunderbolt controller",
            CheckStatus::Available,
            Some("2 Thunderbolt/USB4 device(s) enumerated.")
        )
    );
    assert_eq!(controller_check(Some(0)).status, CheckStatus::Unsupported);
    assert_eq!(
        controller_check(None).detail.as_deref(),
        Some("This kernel does not expose a Thunderbolt subsystem.")
    );
}

#[test]
fn module_check_reads_the_first_column() {
    let loaded = "snd 1 0 - Live\nthunderbolt_net 40960 0 - Live 0x0\n";
    assert_eq!(module_check(Some(loaded)).status, CheckStatus::Available);
    assert_eq!(module_check(Some(loaded)).detail, None);
    let other = "foo thunderbolt_net\nthunderbolt_netx 1\n";
    assert_eq!(module_check(Some(other)).status, CheckStatus::NeedsSetup);
    assert_eq!(module_check(None).status, CheckStatus::Unknown);
}

#[test]
fn direct_interface_check_lists_what_was_found() {
    let found = vec!["thunderbolt0".to_string(), "thunderbolt1".to_string()];
    assert_eq!(
        direct_interface_check(Some(&found)).detail.as_deref(),
        Some("Found: thunderbolt0, thunderbolt1")
    );
    assert_eq!(
        direct_interface_check(Some(&Vec::new())).status,
        CheckStatus::Unsupported
    );
    assert_eq!(direct_interface_check(None).status, CheckStatus::Unknown);
}

#[test]
fn dependency_report_maps_probe_results() {
    let probe = DependencyProbe {
        system_bus: true,
        network_manager: true,
        avahi: false,
        firewalld: true,
        upower: true,
        polkit: true,
        gtk4: true,
        libadwaita: false,
        pipewire: false,
        sunshine: false,
        moonlight_qt: false,
        moonlight: true,
    };
    let report = dependency_report(&probe);
    let names: Vec<&str> = report.checks.iter().map(|c| c.name.as_str()).collect();
    assert_eq!(
        names,
        vec![
            "NetworkManager",
            "Avahi",
            "firewalld",
            "UPower",
            "Polkit",
            "GTK4",
            "libadwaita",
            "PipeWire",
            "Sunshine runtime",
            "Moonlight runtime"
        ]
    );
    assert_eq!(view(&report.checks[0]), ("NetworkManager", CheckStatus::Available, None));
    assert_eq!(
        view(&report.checks[1]),
        (
            "Avahi",
            CheckStatus::NeedsSetup,
            Some("avahi-daemon is required for direct-link device discovery.")
        )
    );
    assert_eq!(report.checks[7].status, CheckStatus::Unknown);
    assert_eq!(report.checks[9].status, CheckStatus::Available);
    let no_bus = dependency_report(&DependencyProbe {
        system_bus: false,
        ..probe
    });
    assert_eq!(
        view(&no_bus.checks[0]),
        (
            "NetworkManager",
            CheckStatus::Unknown,
            Some("could not connect to the D-Bus system bus")
        )
    );
}

#[test]
fn selinux_and_firewalld_checks() {
    assert_eq!(
        view(&selinux_check(Some("1\n"))),
        ("SELinux", CheckStatus::Available, Some("Enforcing"))
    );
    assert_eq!(selinux_check(Some("0")).status, CheckStatus::Warning);
    assert_eq!(
        selinux_check(Some(" 2 ")).detail.as_deref(),
        Some("Unrecognised value: 2")
    );
    assert_eq!(selinux_check(None).status, CheckStatus::Unknown);
    assert_eq!(
        view(&firewalld_check(true, true)),
        ("firewalld", CheckStatus::Available, Some("Active"))
    );
    assert_eq!(firewalld_check(true, false).status, CheckStatus::NeedsSetup);
    assert_eq!(firewalld_check(false, true).status, CheckStatus::Unknown);
    let report = security_report(Some("1"), true, false);
    assert_eq!(report.checks.len(), 2);
}

#[test]
fn typec_check_describes_reporting_ports() {
    let ports = vec![
        TypecPort {
            name: "port0".into(),
            power_role: Some("[source] sink".into()),
            pd_revision: Some("3.0".into()),
        },
        TypecPort {
            name: "port1".into(),
            power_role: None,
            pd_revision: None,
        },
        TypecPort {
            name: "port2".into(),
            power_role: Some("sink".into()),
            pd_revision: None,
        },
    ];
    assert_eq!(
        typec_port_check(Some(&ports)).detail.as_deref(),
        Some("port0: [source] sink (PD 3.0); port2: sink")
    );
    assert_eq!(typec_port_check(Some(&Vec::new())).status, CheckStatus::Unknown);
    assert!(is_typec_port("port0"));
    assert!(!is_typec_port("port0-partner"));
}

#[test]
fn battery_and_external_power_checks() {
    let b = BatteryReading {
        capacity: Some("87".into()),
        status: Some("Charging".into()),
    };
    assert_eq!(
        battery_check(true, Some(&b)).detail.as_deref(),
        Some("87% (Charging)")
    );
    assert_eq!(battery_check(true, None).status, CheckStatus::Unknown);
    assert!(is_battery(Some("Battery")));
    assert!(is_online_external_supply(Some("USB"), Some("1")));
    assert!(!is_online_external_supply(Some("Battery"), Some("1")));
    let sources = vec!["AC".to_string()];
    assert_eq!(
        external_power_check(Some(&sources)).detail.as_deref(),
        Some("Online: AC")
    );
    assert_eq!(
        external_power_check(Some(&Vec::new())).status,
        CheckStatus::Warning
    );
    assert_eq!(trimmed_attribute_value(Some(" 42\n")).as_deref(), Some("42"));
    assert_eq!(trimmed_attribute_value(Some("  ")), None);
}

#[test]
fn mutating_methods_are_explicitly_unimplemented() {
    let backend = FedoraBackend::new();
    let link = DirectLink {
        interface_name: "thunderbolt0".to_string(),
    };
    assert!(backend.prepare_direct_link(&link).is_err());
    assert!(backend.install_firewall_policy().is_err());
    assert!(matches!(
        backend.install_firewall_policy(),
        Err(CableDeskError::Config(_))
    ));
}

#[test]
fn status_markers() {
    assert_eq!(status_symbol(CheckStatus::Available), "[ ok ]");
    assert_eq!(status_symbol(CheckStatus::NeedsSetup), "[setup]");
    assert_eq!(status_icon(CheckStatus::Warning), ("dialog-warning-symbolic", "warning"));
}

#[test]
fn host_identity_fallbacks() {
    assert_eq!(hostname_from(Some("  desk\n")), "desk");
    assert_eq!(hostname_from(Some("\n")), "cabledesk-device");
    assert_eq!(hostname_from(None), "cabledesk-device");
    assert_eq!(
        local_device_id("desk", Some("0123456789abcdef0123456789abcdef\n")),
        "0123456789abcdef"
    );
    assert_eq!(
        local_device_id("a-very-long-hostname", None),
        "dev-a-very-long-"
    );
    assert_eq!(local_device_id("h", Some("   ")), "dev-h");
}

#[test]
fn agent_session_tracks_peers_by_name() {
    let mut s = AgentSession::new("id1".into(), "Desk".into());
    s.link_accepted("thunderbolt0".into(), Some("thunderbolt-net".into()));
    assert_eq!(s.interface_name.as_deref(), Some("thunderbolt0"));
    s.record_error("peer rejected: ", "no direct cable connection");
    assert_eq!(
        s.last_error.as_deref(),
        Some("peer rejected: no direct cable connection")
    );
    s.peer_disappeared("other");
    s.clear_link();
    assert!(s.interface_name.is_none());
    assert!(s.last_error.is_some());
    let rec = s.discovery_record();
    assert_eq!(rec.role, Role::Both);
    assert_eq!(rec.pairing_state, PairingState::Unpaired);
    assert_eq!(rec.control_port, CONTROL_PORT);
    assert!(!is_foreign_peer("id1", "id1"));
    assert!(is_own_record(&Some(rec), "id1"));
}
