//! Cable-only peer endpoint validation.
//!
//! Trust (device ID) is never enough: the peer must be associated with a
//! verified direct USB4/Thunderbolt interface.
use crate::classify::{classify_evidence, classify_interface, is_direct, InterfaceClassification};
use crate::error::CableDeskError;
use crate::text::opt_view;
use vstd::prelude::*;

verus! {

/// An IP address: four octets for IPv4, sixteen for IPv6.
#[derive(Debug, Clone, Copy, PartialEq, Eq, Hash)]
pub enum IpAddress {
    V4([u8; 4]),
    V6([u8; 16]),
}

/// An IPv4 address in `169.254.0.0/16`.
pub open spec fn is_link_local_v4_spec(octets: [u8; 4]) -> bool {
    octets[0] == 169 && octets[1] == 254
}

/// Whether `octets` is an IPv4 link-local address.
pub fn is_link_local_v4(octets: [u8; 4]) -> (r: bool)
    ensures
        r == is_link_local_v4_spec(octets),
{
    octets[0] == 169 && octets[1] == 254
}

fn octets_equal<const N: usize>(a: &[u8; N], b: &[u8; N]) -> (r: bool)
    ensures
        r == (*a == *b),
{
    let mut i: usize = 0;
    while i < N
        invariant
            i <= N,
            forall|j: int| 0 <= j < i ==> a[j] == b[j],
        decreases N - i,
    {
        if a[i] != b[i] {
            return false;
        }
        i = i + 1;
    }
    assert(*a =~= *b);
    true
}

/// Whether two addresses are the same address.
pub fn same_address(a: &IpAddress, b: &IpAddress) -> (r: bool)
    ensures
        r == (*a == *b),
{
    match (a, b) {
        (IpAddress::V4(x), IpAddress::V4(y)) => octets_equal(x, y),
        (IpAddress::V6(x), IpAddress::V6(y)) => octets_equal(x, y),
        _ => false,
    }
}

/// `addr` is assigned to `interface_name` in the kernel's address list,
/// given as `(interface name, address)` pairs.
pub open spec fn assigned_to(
    assigned: Seq<(String, IpAddress)>,
    addr: IpAddress,
    interface_name: Seq<char>,
) -> bool {
    exists|i: int|
        0 <= i < assigned.len() && (#[trigger] assigned[i]).0@ == interface_name && assigned[i].1
            == addr
}

/// Whether `addr` is currently assigned to the interface named
/// `interface_name`, per the kernel's live address list `assigned` (read by
/// the caller).
pub fn address_belongs_to_interface(
    assigned: &Vec<(String, IpAddress)>,
    addr: &IpAddress,
    interface_name: &str,
) -> (r: bool)
    ensures
        r == assigned_to(assigned@, *addr, interface_name@),
{
    let mut i: usize = 0;
    while i < assigned.len()
        invariant
            i <= assigned@.len(),
            forall|j: int|
                0 <= j < i ==> !((#[trigger] assigned@[j]).0@ == interface_name@ && assigned@[j].1
                    == *addr),
        decreases assigned@.len() - i,
    {
        let entry = &assigned[i];
        if crate::text::str_eq_lit(entry.0.as_str(), interface_name) && same_address(&entry.1, addr) {
            assert(assigned@[i as int].0@ == interface_name@);
            return true;
        }
        i = i + 1;
    }
    false
}

/// Whether the kernel's route lookup for a peer answered with the link's
/// interface: the route's output interface index (`None` when no route or
/// no index came back) equals the interface's index (`None` when the
/// interface has none).
pub fn route_via_interface(route_oif: Option<u32>, interface_index: Option<u32>) -> (r: bool)
    ensures
        r == (route_oif is Some && interface_index is Some && route_oif == interface_index),
{
    match (route_oif, interface_index) {
        (Some(o), Some(t)) => o == t,
        _ => false,
    }
}

/// An unvalidated peer claim — must pass [`validate_cable_peer`] before use.
#[derive(Debug, Clone, PartialEq, Eq)]
pub struct PeerClaim {
    pub address: IpAddress,
    /// Interface on which the peer was discovered (e.g. Avahi scope).
    pub discovered_on_interface: String,
    /// Driver evidence for that interface, when known.
    pub discovered_on_driver: Option<String>,
}

/// A peer endpoint that has passed cable-only checks.
#[derive(Debug, Clone, PartialEq, Eq)]
pub struct ValidatedCablePeer {
    pub address: IpAddress,
    pub interface_name: String,
    pub classification: InterfaceClassification,
}

/// The active direct-cable link CableDesk is willing to use.
#[derive(Debug, Clone, PartialEq, Eq)]
pub struct PreparedDirectLink {
    pub interface_name: String,
    pub classification: InterfaceClassification,
    pub interface_index: Option<u32>,
}

/// The claim was discovered with direct-cable evidence on the link's own
/// interface.
pub open spec fn claim_on_link(link: PreparedDirectLink, claim: PeerClaim) -> bool {
    &&& is_direct(
        classify_evidence(claim.discovered_on_interface@, opt_view(claim.discovered_on_driver)),
    )
    &&& claim.discovered_on_interface@ == link.interface_name@
}

/// `peer` records the claim's address on `link`.
pub open spec fn validated_on(
    peer: ValidatedCablePeer,
    link: PreparedDirectLink,
    claim: PeerClaim,
) -> bool {
    &&& peer.address == claim.address
    &&& peer.interface_name@ == link.interface_name@
    &&& peer.classification == link.classification
}

impl PreparedDirectLink {
    /// A prepared link on `interface_name`; refused unless `classification`
    /// is a direct cable.
    pub fn new(interface_name: String, classification: InterfaceClassification) -> (r: Result<
        Self,
        CableDeskError,
    >)
        ensures
            is_direct(classification) ==> (r matches Ok(link) && link.interface_name@
                == interface_name@ && link.classification == classification
                && link.interface_index is None),
            !is_direct(classification) ==> r matches Err(CableDeskError::NoDirectCableConnection),
    {
        if !classification.is_direct_cable() {
            return Err(CableDeskError::NoDirectCableConnection);
        }
        Ok(Self { interface_name, classification, interface_index: None })
    }
}

fn claim_class(claim: &PeerClaim) -> (r: InterfaceClassification)
    ensures
        r == classify_evidence(claim.discovered_on_interface@, opt_view(claim.discovered_on_driver)),
{
    match &claim.discovered_on_driver {
        Some(d) => classify_interface(claim.discovered_on_interface.as_str(), Some(d.as_str())),
        None => classify_interface(claim.discovered_on_interface.as_str(), None),
    }
}

/// Policy checks only (no live route lookup): the discovery interface must
/// be the prepared direct cable link.
pub fn validate_cable_peer_claim(link: &PreparedDirectLink, claim: &PeerClaim) -> (r: Result<
    (),
    CableDeskError,
>)
    ensures
        !is_direct(link.classification) ==> r matches Err(
            CableDeskError::NoDirectCableConnection,
        ),
        is_direct(link.classification) && !claim_on_link(*link, *claim) ==> r matches Err(
            CableDeskError::PeerNotOnDirectCable,
        ),
        is_direct(link.classification) && claim_on_link(*link, *claim) ==> r is Ok,
{
    if !link.classification.is_direct_cable() {
        return Err(CableDeskError::NoDirectCableConnection);
    }
    let discovered_class = claim_class(claim);
    if !discovered_class.is_direct_cable() {
        return Err(CableDeskError::PeerNotOnDirectCable);
    }
    if claim.discovered_on_interface != link.interface_name {
        return Err(CableDeskError::PeerNotOnDirectCable);
    }
    Ok(())
}

/// Validate that `claim` is on the prepared direct cable link, given
/// whether the kernel routes the claim's IPv4 address out through the
/// link's interface (`route_resolves_via_link`; looked up by the caller).
///
/// Rejects Wi-Fi / Ethernet / VPN / unknown discovery interfaces, IPv6
/// addresses, and peers the kernel would not route via the direct link.
pub fn validate_cable_peer(
    link: &PreparedDirectLink,
    claim: &PeerClaim,
    route_resolves_via_link: bool,
) -> (r: Result<ValidatedCablePeer, CableDeskError>)
    ensures
        !is_direct(link.classification) ==> r matches Err(
            CableDeskError::NoDirectCableConnection,
        ),
        is_direct(link.classification) && !claim_on_link(*link, *claim) ==> r matches Err(
            CableDeskError::PeerNotOnDirectCable,
        ),
        is_direct(link.classification) && claim_on_link(*link, *claim) ==> {
            if claim.address is V4 && route_resolves_via_link {
                (r matches Ok(peer) && validated_on(peer, *link, *claim))
            } else {
                r matches Err(CableDeskError::PeerNotOnDirectCable)
            }
        },
{
    validate_cable_peer_claim(link, claim)?;
    match claim.address {
        IpAddress::V4(_) => {},
        IpAddress::V6(_) => {
            return Err(CableDeskError::PeerNotOnDirectCable);
        },
    }
    if !route_resolves_via_link {
        return Err(CableDeskError::PeerNotOnDirectCable);
    }
    Ok(
        ValidatedCablePeer {
            address: claim.address,
            interface_name: link.interface_name.clone(),
            classification: link.classification,
        },
    )
}

/// Build a [`ValidatedCablePeer`] after policy checks without a route lookup.
/// CableDesk v1 is IPv4 link-local on the direct interface only, so anything
/// but a `169.254.0.0/16` address is refused.
pub fn validate_cable_peer_policy_only(link: &PreparedDirectLink, claim: &PeerClaim) -> (r: Result<
    ValidatedCablePeer,
    CableDeskError,
>)
    ensures
        !is_direct(link.classification) ==> r matches Err(
            CableDeskError::NoDirectCableConnection,
        ),
        is_direct(link.classification) && !claim_on_link(*link, *claim) ==> r matches Err(
            CableDeskError::PeerNotOnDirectCable,
        ),
        is_direct(link.classification) && claim_on_link(*link, *claim) ==> {
            if claim.address matches IpAddress::V4(o) && is_link_local_v4_spec(o) {
                (r matches Ok(peer) && validated_on(peer, *link, *claim))
            } else {
                r matches Err(CableDeskError::PeerNotOnDirectCable)
            }
        },
{
    validate_cable_peer_claim(link, claim)?;
    match claim.address {
        IpAddress::V4(o) => {
            if !is_link_local_v4(o) {
                return Err(CableDeskError::PeerNotOnDirectCable);
            }
        },
        IpAddress::V6(_) => {
            return Err(CableDeskError::PeerNotOnDirectCable);
        },
    }
    Ok(
        ValidatedCablePeer {
            address: claim.address,
            interface_name: link.interface_name.clone(),
            classification: link.classification,
        },
    )
}

/// Pure policy check: reject non-cable discovery without requiring the
/// address to be assigned on this host.
pub fn reject_if_discovery_not_direct_cable(
    discovered_on_driver: Option<&str>,
    discovered_on_interface: &str,
) -> (r: Result<(), CableDeskError>)
    ensures
        ({
            let c = classify_evidence(
                discovered_on_interface@,
                match discovered_on_driver {
                    Some(d) => Some(d@),
                    None => None,
                },
            );
            if is_direct(c) {
                r is Ok
            } else {
                r matches Err(CableDeskError::PeerNotOnDirectCable)
            }
        }),
{
    let class = classify_interface(discovered_on_interface, discovered_on_driver);
    if class.is_direct_cable() {
        Ok(())
    } else {
        Err(CableDeskError::PeerNotOnDirectCable)
    }
}

} // verus!
