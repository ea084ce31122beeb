//! Strict interface classification for cable-only enforcement.
//!
//! CableDesk must never treat Wi-Fi, ordinary Ethernet, VPN, or other
//! interfaces as a valid transport. Classification is based on driver
//! evidence — never solely on a name like `thunderbolt0`.
use crate::error::CableDeskError;
use crate::text::{
    chars_of, contains, contains_lit, eq_lit, starts_with, starts_with_lit, to_ascii_lower,
    to_ascii_lower_chars, trim, trim_chars,
};
use vstd::prelude::*;

verus! {

/// How CableDesk classifies a network interface for transport decisions.
#[derive(Debug, Clone, Copy, PartialEq, Eq, Hash, Structural)]
pub enum InterfaceClassification {
    DirectUsb4,
    DirectThunderbolt,
    OrdinaryEthernet,
    WiFi,
    Vpn,
    Bridge,
    Virtual,
    Loopback,
    Container,
    Unknown,
}

/// Only USB4/Thunderbolt-derived direct links may carry a session.
pub open spec fn is_direct(c: InterfaceClassification) -> bool {
    c is DirectUsb4 || c is DirectThunderbolt
}

impl InterfaceClassification {
    /// Only USB4/Thunderbolt-derived direct links may carry a CableDesk session.
    pub fn is_direct_cable(self) -> (r: bool)
        ensures
            r == is_direct(self),
    {
        match self {
            InterfaceClassification::DirectUsb4 | InterfaceClassification::DirectThunderbolt => true,
            _ => false,
        }
    }
}

/// `s` trimmed and ASCII-lower-cased, the form every comparison below uses.
pub open spec fn normalized(s: Seq<char>) -> Seq<char> {
    to_ascii_lower(trim(s))
}

/// Wi-Fi driver evidence (in normalized form).
pub open spec fn is_wifi_driver(d: Seq<char>) -> bool {
    ||| d == "iwlwifi"@
    ||| d == "ath9k"@
    ||| d == "ath10k_pci"@
    ||| d == "ath11k_pci"@
    ||| d == "ath12k"@
    ||| d == "brcmfmac"@
    ||| d == "mt76"@
    ||| d == "mt7921e"@
    ||| d == "rtl8xxxu"@
    ||| d == "rtw88"@
    ||| d == "rtw89"@
    ||| d == "mac80211_hwsim"@
    ||| contains(d, "wifi"@)
    ||| contains(d, "wlan"@)
    ||| starts_with(d, "iwl"@)
    ||| starts_with(d, "ath1"@)
    ||| starts_with(d, "mt79"@)
    ||| starts_with(d, "rtw"@)
}

/// VPN/tunnel driver evidence (in normalized form).
pub open spec fn is_vpn_driver(d: Seq<char>) -> bool {
    ||| d == "wireguard"@
    ||| d == "tun"@
    ||| d == "tap"@
    ||| d == "openvswitch"@
    ||| d == "vxlan"@
    ||| d == "geneve"@
    ||| d == "gre"@
    ||| d == "sit"@
    ||| d == "ip6tnl"@
    ||| contains(d, "vpn"@)
    ||| contains(d, "wireguard"@)
}

/// Bridge driver evidence (in normalized form).
pub open spec fn is_bridge_driver(d: Seq<char>) -> bool {
    contains(d, "bridge"@) || d == "br_netfilter"@
}

/// Virtual-device driver evidence (in normalized form).
pub open spec fn is_virtual_driver(d: Seq<char>) -> bool {
    d == "veth"@ || d == "dummy"@ || d == "nlmon"@ || d == "ifb"@ || contains(d, "veth"@)
}

/// Container-network driver evidence (in normalized form).
pub open spec fn is_container_driver(d: Seq<char>) -> bool {
    contains(d, "docker"@) || contains(d, "cni"@) || contains(d, "lxc"@) || contains(d, "podman"@)
}

/// Ordinary Ethernet driver evidence (in normalized form).
pub open spec fn is_ethernet_driver(d: Seq<char>) -> bool {
    ||| d == "e1000"@
    ||| d == "e1000e"@
    ||| d == "igb"@
    ||| d == "igc"@
    ||| d == "ixgbe"@
    ||| d == "i40e"@
    ||| d == "r8169"@
    ||| d == "tg3"@
    ||| d == "bnx2"@
    ||| d == "bnxt_en"@
    ||| d == "virtio_net"@
    ||| d == "atlantic"@
    ||| d == "stmmac"@
    ||| d == "fec"@
    ||| d == "macb"@
    ||| contains(d, "ethernet"@)
    ||| starts_with(d, "r81"@)
    ||| starts_with(d, "igb"@)
    ||| starts_with(d, "ixg"@)
}

/// The classification of normalized driver evidence `d`; the first rule
/// that matches decides.
pub open spec fn driver_class(d: Seq<char>) -> InterfaceClassification {
    if d.len() == 0 {
        InterfaceClassification::Unknown
    } else if contains(d, "thunderbolt"@) {
        InterfaceClassification::DirectThunderbolt
    } else if contains(d, "usb4"@) {
        InterfaceClassification::DirectUsb4
    } else if is_wifi_driver(d) {
        InterfaceClassification::WiFi
    } else if is_vpn_driver(d) {
        InterfaceClassification::Vpn
    } else if is_bridge_driver(d) {
        InterfaceClassification::Bridge
    } else if is_virtual_driver(d) {
        InterfaceClassification::Virtual
    } else if is_container_driver(d) {
        InterfaceClassification::Container
    } else if is_ethernet_driver(d) {
        InterfaceClassification::OrdinaryEthernet
    } else if d == "loopback"@ || d == "lo"@ {
        InterfaceClassification::Loopback
    } else {
        InterfaceClassification::Unknown
    }
}

/// The classification of the driver name `driver`.
pub open spec fn classify_driver(driver: Seq<char>) -> InterfaceClassification {
    driver_class(normalized(driver))
}

/// The classification of the normalized interface name `n`.
pub open spec fn name_class(n: Seq<char>) -> InterfaceClassification {
    if n == "lo"@ {
        InterfaceClassification::Loopback
    } else if starts_with(n, "wl"@) || starts_with(n, "wlan"@) || starts_with(n, "wifi"@) {
        InterfaceClassification::WiFi
    } else if starts_with(n, "en"@) || starts_with(n, "eth"@) || starts_with(n, "em"@) {
        InterfaceClassification::OrdinaryEthernet
    } else if starts_with(n, "br"@) {
        InterfaceClassification::Bridge
    } else if starts_with(n, "veth"@) || starts_with(n, "docker"@) || starts_with(n, "cni"@) {
        InterfaceClassification::Container
    } else if starts_with(n, "wg"@) || starts_with(n, "tun"@) || starts_with(n, "tap"@) {
        InterfaceClassification::Vpn
    } else {
        InterfaceClassification::Unknown
    }
}

/// The classification of the interface name `name`.
pub open spec fn classify_name(name: Seq<char>) -> InterfaceClassification {
    name_class(normalized(name))
}

/// The classification of an interface: by its driver when that evidence
/// exists, by its name otherwise.
pub open spec fn classify_evidence(
    name: Seq<char>,
    driver: Option<Seq<char>>,
) -> InterfaceClassification {
    match driver {
        Some(d) => classify_driver(d),
        None => classify_name(name),
    }
}

fn normalize(s: &str) -> (r: Vec<char>)
    ensures
        r@ == normalized(s@),
{
    let v = chars_of(s);
    let t = trim_chars(&v);
    to_ascii_lower_chars(&t)
}

fn wifi_driver(d: &Vec<char>) -> (r: bool)
    ensures
        r == is_wifi_driver(d@),
{
    eq_lit(d, "iwlwifi") || eq_lit(d, "ath9k") || eq_lit(d, "ath10k_pci") || eq_lit(d, "ath11k_pci")
        || eq_lit(d, "ath12k") || eq_lit(d, "brcmfmac") || eq_lit(d, "mt76") || eq_lit(d, "mt7921e")
        || eq_lit(d, "rtl8xxxu") || eq_lit(d, "rtw88") || eq_lit(d, "rtw89") || eq_lit(
        d,
        "mac80211_hwsim",
    ) || contains_lit(d, "wifi") || contains_lit(d, "wlan") || starts_with_lit(d, "iwl")
        || starts_with_lit(d, "ath1") || starts_with_lit(d, "mt79") || starts_with_lit(d, "rtw")
}

fn vpn_driver(d: &Vec<char>) -> (r: bool)
    ensures
        r == is_vpn_driver(d@),
{
    eq_lit(d, "wireguard") || eq_lit(d, "tun") || eq_lit(d, "tap") || eq_lit(d, "openvswitch")
        || eq_lit(d, "vxlan") || eq_lit(d, "geneve") || eq_lit(d, "gre") || eq_lit(d, "sit")
        || eq_lit(d, "ip6tnl") || contains_lit(d, "vpn") || contains_lit(d, "wireguard")
}

fn ethernet_driver(d: &Vec<char>) -> (r: bool)
    ensures
        r == is_ethernet_driver(d@),
{
    eq_lit(d, "e1000") || eq_lit(d, "e1000e") || eq_lit(d, "igb") || eq_lit(d, "igc") || eq_lit(
        d,
        "ixgbe",
    ) || eq_lit(d, "i40e") || eq_lit(d, "r8169") || eq_lit(d, "tg3") || eq_lit(d, "bnx2")
        || eq_lit(d, "bnxt_en") || eq_lit(d, "virtio_net") || eq_lit(d, "atlantic") || eq_lit(
        d,
        "stmmac",
    ) || eq_lit(d, "fec") || eq_lit(d, "macb") || contains_lit(d, "ethernet") || starts_with_lit(
        d,
        "r81",
    ) || starts_with_lit(d, "igb") || starts_with_lit(d, "ixg")
}

/// Classify from a NetworkManager / sysfs driver basename (or similar evidence).
///
/// This is deliberately conservative: unknown drivers are `Unknown`, not
/// accepted. Misleading names (e.g. an interface *named* `thunderbolt0` with
/// a Wi-Fi driver) follow the **driver**, not the name.
pub fn classify_from_driver_name(driver: &str) -> (r: InterfaceClassification)
    ensures
        r == classify_driver(driver@),
{
    let d = normalize(driver);
    if d.len() == 0 {
        return InterfaceClassification::Unknown;
    }
    if contains_lit(&d, "thunderbolt") {
        return InterfaceClassification::DirectThunderbolt;
    }
    if contains_lit(&d, "usb4") {
        return InterfaceClassification::DirectUsb4;
    }
    if wifi_driver(&d) {
        return InterfaceClassification::WiFi;
    }
    if vpn_driver(&d) {
        return InterfaceClassification::Vpn;
    }
    if contains_lit(&d, "bridge") || eq_lit(&d, "br_netfilter") {
        return InterfaceClassification::Bridge;
    }
    if eq_lit(&d, "veth") || eq_lit(&d, "dummy") || eq_lit(&d, "nlmon") || eq_lit(&d, "ifb")
        || contains_lit(&d, "veth") {
        return InterfaceClassification::Virtual;
    }
    if contains_lit(&d, "docker") || contains_lit(&d, "cni") || contains_lit(&d, "lxc")
        || contains_lit(&d, "podman") {
        return InterfaceClassification::Container;
    }
    if ethernet_driver(&d) {
        return InterfaceClassification::OrdinaryEthernet;
    }
    if eq_lit(&d, "loopback") || eq_lit(&d, "lo") {
        return InterfaceClassification::Loopback;
    }
    InterfaceClassification::Unknown
}

/// Classify from a kernel interface name when no driver evidence is available.
///
/// Names alone are **never** enough to accept a direct cable — at best they
/// yield `Unknown` or an explicit non-cable class.
pub fn classify_from_interface_name(name: &str) -> (r: InterfaceClassification)
    ensures
        r == classify_name(name@),
{
    let n = normalize(name);
    if eq_lit(&n, "lo") {
        return InterfaceClassification::Loopback;
    }
    if starts_with_lit(&n, "wl") || starts_with_lit(&n, "wlan") || starts_with_lit(&n, "wifi") {
        return InterfaceClassification::WiFi;
    }
    if starts_with_lit(&n, "en") || starts_with_lit(&n, "eth") || starts_with_lit(&n, "em") {
        return InterfaceClassification::OrdinaryEthernet;
    }
    if starts_with_lit(&n, "br") {
        return InterfaceClassification::Bridge;
    }
    if starts_with_lit(&n, "veth") || starts_with_lit(&n, "docker") || starts_with_lit(&n, "cni") {
        return InterfaceClassification::Container;
    }
    if starts_with_lit(&n, "wg") || starts_with_lit(&n, "tun") || starts_with_lit(&n, "tap") {
        return InterfaceClassification::Vpn;
    }
    InterfaceClassification::Unknown
}

/// Classify an interface using its driver evidence (preferred) or its name.
/// `driver` is the basename of `/sys/class/net/<iface>/device/driver`, when
/// present.
pub fn classify_interface(interface_name: &str, driver: Option<&str>) -> (r:
    InterfaceClassification)
    ensures
        r == classify_evidence(
            interface_name@,
            match driver {
                Some(d) => Some(d@),
                None => None,
            },
        ),
{
    match driver {
        Some(d) => classify_from_driver_name(d),
        None => classify_from_interface_name(interface_name),
    }
}

/// Reject anything that is not a USB4/Thunderbolt-derived direct interface.
pub fn require_direct_cable_interface(interface_name: &str, driver: Option<&str>) -> (r: Result<
    InterfaceClassification,
    CableDeskError,
>)
    ensures
        ({
            let c = classify_evidence(
                interface_name@,
                match driver {
                    Some(d) => Some(d@),
                    None => None,
                },
            );
            if is_direct(c) {
                r == Ok::<InterfaceClassification, CableDeskError>(c)
            } else {
                r matches Err(CableDeskError::NoDirectCableConnection)
            }
        }),
{
    let class = classify_interface(interface_name, driver);
    if class.is_direct_cable() {
        Ok(class)
    } else {
        Err(CableDeskError::NoDirectCableConnection)
    }
}

/// A name alone never authorizes a session: whatever the interface is
/// called, name-based classification is never a direct cable.
pub proof fn lemma_name_never_direct(name: Seq<char>)
    ensures
        !is_direct(classify_name(name)),
{
}

/// Driver evidence authorizes a direct cable exactly when its normalized
/// form mentions `thunderbolt` or `usb4`.
pub proof fn lemma_direct_iff_cable_driver(driver: Seq<char>)
    ensures
        is_direct(classify_driver(driver)) <==> (contains(normalized(driver), "thunderbolt"@)
            || contains(normalized(driver), "usb4"@)),
{
    let d = normalized(driver);
    if d.len() == 0 {
        reveal_strlit("thunderbolt");
        reveal_strlit("usb4");
        assert(!contains(d, "thunderbolt"@));
        assert(!contains(d, "usb4"@));
    }
}


/// Wi-Fi evidence is classified as Wi-Fi: a driver whose normalized name
/// mentions `wifi` or `wlan`, or starts with `iwl` (Intel wireless), and
/// that does not mention `thunderbolt` or `usb4`, is a Wi-Fi interface and
/// so never a direct cable.
pub proof fn lemma_wifi_driver_is_wifi(driver: Seq<char>)
    requires
        contains(normalized(driver), "wifi"@) || contains(normalized(driver), "wlan"@)
            || starts_with(normalized(driver), "iwl"@),
        !contains(normalized(driver), "thunderbolt"@),
        !contains(normalized(driver), "usb4"@),
    ensures
        classify_driver(driver) == InterfaceClassification::WiFi,
        !is_direct(classify_driver(driver)),
{
    let d = normalized(driver);
    reveal_strlit("wifi");
    reveal_strlit("wlan");
    reveal_strlit("iwl");
    if d.len() == 0 {
        assert(!contains(d, "wifi"@));
        assert(!contains(d, "wlan"@));
        assert(!starts_with(d, "iwl"@));
    }
}

} // verus!
