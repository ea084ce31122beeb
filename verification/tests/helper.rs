use cabledesk::fedora::check_line;
use cabledesk::helper::{
    admit_prepare_request, authorization_outcome, vet_prepare_request, HelperError,
    ACTION_PREPARE_DIRECT_LINK,
};
use cabledesk::manager::direct_link_interface;
use cabledesk::report::{CheckStatus, CompatibilityCheck};

#[test]
fn authorised_call_goes_on() {
    assert_eq!(authorization_outcome(true, ACTION_PREPARE_DIRECT_LINK), Ok(()));
}

#[test]
fn refused_authorisation_names_the_action() {
    assert_eq!(
        authorization_outcome(false, "org.example.action"),
        Err(HelperError::AccessDenied(
            "Polkit denied action org.example.action".to_string()
        ))
    );
}

#[test]
fn preparation_is_limited_to_direct_links() {
    let link = vet_prepare_request("thunderbolt0", Some("thunderbolt-net")).unwrap();
    assert_eq!(link.interface_name, "thunderbolt0");
    assert_eq!(
        vet_prepare_request("wlan0", Some("iwlwifi")),
        Err(HelperError::InvalidArgs(
            "interface `wlan0` is not a direct USB4/Thunderbolt link".to_string()
        ))
    );
    // A name alone never qualifies.
    assert!(matches!(
        vet_prepare_request("thunderbolt0", None),
        Err(HelperError::InvalidArgs(_))
    ));
}

#[test]
fn authorisation_is_checked_before_the_interface() {
    assert_eq!(
        admit_prepare_request(false, "wlan0", Some("iwlwifi")),
        Err(HelperError::AccessDenied(
            "Polkit denied action org.cabledesk.helper.prepare-direct-link".to_string()
        ))
    );
    assert!(matches!(
        admit_prepare_request(true, "wlan0", Some("iwlwifi")),
        Err(HelperError::InvalidArgs(_))
    ));
    let link = admit_prepare_request(true, "thunderbolt1", Some("thunderbolt_net")).unwrap();
    assert_eq!(link.interface_name, "thunderbolt1");
}

#[test]
fn check_lines_show_marker_name_and_detail() {
    let with_detail = CompatibilityCheck::new(
        "SELinux".to_string(),
        CheckStatus::Warning,
        Some("Permissive".to_string()),
    );
    assert_eq!(check_line(&with_detail), "  [warn] SELinux — Permissive");
    let bare = CompatibilityCheck::new("firewalld".to_string(), CheckStatus::Available, None);
    assert_eq!(check_line(&bare), "  [ ok ] firewalld");
}

#[test]
fn only_thunderbolt_devices_are_tracked() {
    assert_eq!(
        direct_link_interface(Some("thunderbolt-net"), Some("thunderbolt0".to_string())),
        Some("thunderbolt0".to_string())
    );
    assert_eq!(direct_link_interface(Some("iwlwifi"), Some("wlan0".to_string())), None);
    assert_eq!(direct_link_interface(None, Some("thunderbolt0".to_string())), None);
    assert_eq!(direct_link_interface(Some("thunderbolt-net"), None), None);
}
