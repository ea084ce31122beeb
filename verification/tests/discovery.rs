use cabledesk::config::Role;
use cabledesk::service::{
    DiscoveryEvent, PairingState, ResolvedService, ServiceRecord, PROTOCOL_VERSION, SERVICE_TYPE,
};

fn sample() -> ServiceRecord {
    ServiceRecord {
        protocol_version: PROTOCOL_VERSION,
        device_id: "abcd1234".to_string(),
        friendly_name: "Test Host".to_string(),
        role: Role::Host,
        pairing_state: PairingState::Unpaired,
        control_port: 47989,
    }
}

#[test]
fn service_type_matches_documented_constant() {
    assert_eq!(SERVICE_TYPE, "_cabledesk._tcp");
}

#[test]
fn round_trips_through_txt_records() {
    let record = sample();
    let txt = record.to_txt_records();
    let parsed = ServiceRecord::from_txt_records(&txt, record.control_port).unwrap();
    assert_eq!(record, parsed);
}

#[test]
fn rejects_missing_required_field() {
    let incomplete = vec![b"protocol_version=1".to_vec()];
    assert!(ServiceRecord::from_txt_records(&incomplete, 47989).is_none());
}

#[test]
fn ignores_unknown_keys_for_forward_compatibility() {
    let record = sample();
    let mut txt = record.to_txt_records();
    txt.push(b"future_field=some-value-from-a-newer-cabledesk".to_vec());
    let parsed = ServiceRecord::from_txt_records(&txt, record.control_port).unwrap();
    assert_eq!(record, parsed);
}

#[test]
fn never_encodes_anything_that_looks_like_a_secret_field() {
    let txt = sample().to_txt_records();
    for entry in &txt {
        let text = String::from_utf8_lossy(entry).to_lowercase();
        assert!(
            !text.contains("key"),
            "TXT record must not carry key material: {text}"
        );
        assert!(!text.contains("secret"));
        assert!(!text.contains("token"));
        assert!(!text.contains("password"));
    }
}

#[test]
fn txt_entries_are_key_value_bytes_in_order() {
    let txt = sample().to_txt_records();
    let texts: Vec<String> = txt
        .iter()
        .map(|e| String::from_utf8(e.clone()).unwrap())
        .collect();
    assert_eq!(
        texts,
        vec![
            "protocol_version=1",
            "device_id=abcd1234",
            "friendly_name=Test Host",
            "role=host",
            "pairing_state=unpaired"
        ]
    );
}

#[test]
fn round_trip_keeps_equals_signs_and_unicode_in_values() {
    let record = ServiceRecord {
        protocol_version: 4_000_000_000,
        device_id: "id=with=equals".to_string(),
        friendly_name: "Café ☕ desk".to_string(),
        role: Role::Both,
        pairing_state: PairingState::Paired,
        control_port: 1,
    };
    let parsed = ServiceRecord::from_txt_records(&record.to_txt_records(), 1).unwrap();
    assert_eq!(record, parsed);
}

#[test]
fn invalid_utf8_entry_fails_the_whole_parse() {
    let mut txt = sample().to_txt_records();
    txt.push(vec![0xff, b'=', b'x']);
    assert!(ServiceRecord::from_txt_records(&txt, 1).is_none());
}

#[test]
fn entry_without_equals_fails_the_whole_parse() {
    let mut txt = sample().to_txt_records();
    txt.push(b"noequals".to_vec());
    assert!(ServiceRecord::from_txt_records(&txt, 1).is_none());
}

#[test]
fn later_unparseable_value_clears_an_earlier_one() {
    let mut txt = sample().to_txt_records();
    txt.push(b"role=admin".to_vec());
    assert!(ServiceRecord::from_txt_records(&txt, 1).is_none());
}

#[test]
fn protocol_version_parses_like_u32_from_str() {
    let base = |v: &str| {
        let mut txt = sample().to_txt_records();
        txt[0] = format!("protocol_version={v}").into_bytes();
        ServiceRecord::from_txt_records(&txt, 1).map(|r| r.protocol_version)
    };
    assert_eq!(base("+7"), Some(7));
    assert_eq!(base("007"), Some(7));
    assert_eq!(base("4294967295"), Some(u32::MAX));
    assert_eq!(base("4294967296"), None);
    assert_eq!(base("-1"), None);
    assert_eq!(base("+"), None);
    assert_eq!(base(""), None);
    assert_eq!(base(" 1"), None);
}

#[test]
fn resolved_service_parses_its_txt_records() {
    let record = sample();
    let resolved = ResolvedService::from_resolution(
        "host.local".to_string(),
        "169.254.3.4".to_string(),
        record.control_port,
        &record.to_txt_records(),
    );
    assert_eq!(resolved.record, Some(record));
    let junk = ResolvedService::from_resolution(
        "h".to_string(),
        "a".to_string(),
        1,
        &[b"x=y".to_vec()],
    );
    assert_eq!(junk.record, None);
    assert_eq!(junk.port, 1);
}

#[test]
fn discovery_events_carry_instance_names() {
    let e = DiscoveryEvent::PeerAppeared {
        name: "peer".to_string(),
    };
    assert_ne!(
        e,
        DiscoveryEvent::PeerDisappeared {
            name: "peer".to_string()
        }
    );
}
