use cabledesk::display::{session_rows, session_type_name, system_headline, system_rows};
use cabledesk::report::{SessionType, SystemInfo};

#[test]
fn idle_agent_without_interface_shows_no_cable() {
    let rows = session_rows(Some("WaitingForCable"), None, Some("thunderbolt-net"), None, None);
    assert_eq!(rows.state, "WaitingForCable");
    assert_eq!(rows.link, "No direct cable connection");
    assert_eq!(rows.peer, "—");
}

#[test]
fn unreachable_agent_shows_its_state() {
    let rows = session_rows(Some("Agent unavailable"), None, None, None, None);
    assert_eq!(rows.state, "Agent unavailable");
    assert_eq!(rows.link, "No direct cable connection");
}

#[test]
fn missing_state_is_unknown() {
    let rows = session_rows(None, None, None, None, None);
    assert_eq!(rows.state, "Unknown");
    assert_eq!(rows.link, "No direct cable connection");
}

#[test]
fn link_and_peer_carry_their_notes() {
    let rows = session_rows(
        Some("PairingRequired"),
        Some("thunderbolt0"),
        Some("thunderbolt-net"),
        Some("169.254.3.4"),
        Some("desk-b"),
    );
    assert_eq!(rows.link, "thunderbolt0 (thunderbolt-net)");
    assert_eq!(rows.peer, "169.254.3.4 (desk-b)");
}

#[test]
fn empty_notes_are_left_out() {
    let rows = session_rows(Some("DiscoveringPeer"), Some("thunderbolt0"), Some(""), Some("169.254.3.4"), Some(""));
    assert_eq!(rows.link, "thunderbolt0");
    assert_eq!(rows.peer, "169.254.3.4");
}

fn fedora(desktop: Option<&str>, session: SessionType) -> SystemInfo {
    SystemInfo {
        distro_id: "fedora".to_string(),
        distro_name: "Fedora Linux 44 (Workstation Edition)".to_string(),
        distro_version: "44".to_string(),
        desktop_environment: desktop.map(|d| d.to_string()),
        session_type: session,
        architecture: "x86_64".to_string(),
        kernel_version: "6.15.0".to_string(),
        hostname: "desk-a".to_string(),
    }
}

#[test]
fn headline_names_distribution_desktop_and_session() {
    assert_eq!(
        system_headline(&fedora(Some("GNOME"), SessionType::Wayland)),
        "Fedora Linux 44 (Workstation Edition) — GNOME (Wayland session)"
    );
    assert_eq!(
        system_headline(&fedora(None, SessionType::Unknown)),
        "Fedora Linux 44 (Workstation Edition) — unknown desktop (Unknown session)"
    );
}

#[test]
fn system_rows_fall_back_to_unknown_desktop() {
    let rows = system_rows(&fedora(None, SessionType::X11));
    assert_eq!(rows.title, "Fedora Linux 44 (Workstation Edition)\ndesk-a");
    assert_eq!(rows.desktop, "Unknown");
    assert_eq!(rows.session, "X11");
    assert_eq!(system_rows(&fedora(Some("KDE"), SessionType::Wayland)).desktop, "KDE");
}

#[test]
fn session_kinds_have_their_names() {
    assert_eq!(session_type_name(SessionType::Wayland), "Wayland");
    assert_eq!(session_type_name(SessionType::X11), "X11");
    assert_eq!(session_type_name(SessionType::Unknown), "Unknown");
}
