use cabledesk::peer::{address_belongs_to_interface, route_via_interface, same_address, IpAddress};

#[test]
fn address_must_match_on_the_named_interface() {
    let assigned = vec![
        ("wlan0".to_string(), IpAddress::V4([192, 168, 1, 20])),
        ("thunderbolt0".to_string(), IpAddress::V4([169, 254, 7, 9])),
    ];
    assert!(address_belongs_to_interface(&assigned, &IpAddress::V4([169, 254, 7, 9]), "thunderbolt0"));
    assert!(!address_belongs_to_interface(&assigned, &IpAddress::V4([192, 168, 1, 20]), "thunderbolt0"));
    assert!(!address_belongs_to_interface(&assigned, &IpAddress::V4([169, 254, 7, 10]), "thunderbolt0"));
    assert!(!address_belongs_to_interface(&[].to_vec(), &IpAddress::V4([169, 254, 7, 9]), "thunderbolt0"));
}

#[test]
fn addresses_compare_by_family_and_octets() {
    assert!(same_address(&IpAddress::V4([10, 0, 0, 1]), &IpAddress::V4([10, 0, 0, 1])));
    assert!(!same_address(&IpAddress::V4([10, 0, 0, 1]), &IpAddress::V4([10, 0, 0, 2])));
    let mut v6 = [0u8; 16];
    v6[15] = 1;
    assert!(same_address(&IpAddress::V6(v6), &IpAddress::V6(v6)));
    assert!(!same_address(&IpAddress::V6(v6), &IpAddress::V4([0, 0, 0, 1])));
}

#[test]
fn route_must_leave_through_the_link_interface() {
    assert!(route_via_interface(Some(5), Some(5)));
    assert!(!route_via_interface(Some(2), Some(5)));
    assert!(!route_via_interface(None, Some(5)));
    assert!(!route_via_interface(Some(5), None));
    assert!(!route_via_interface(None, None));
}
