//! The per-user session agent's decisions: what it remembers about the
//! current direct link and peer, which state transitions each hotplug and
//! discovery event causes, and what it advertises.
//!
//! The agent's outside work (NetworkManager and Avahi over D-Bus, reading
//! host identity files) is done by its caller, which hands the results to
//! the functions here.
use crate::config::Role;
use crate::peer::ValidatedCablePeer;
use crate::service::{PairingState, ServiceRecord, PROTOCOL_VERSION};
use crate::classify::{classify_evidence, is_direct, require_direct_cable_interface, InterfaceClassification};
use crate::peer::PreparedDirectLink;
use crate::state::{
    force_waiting_for_cable, forced_waiting, legal_walk, try_step, try_transition, ConnectionState,
    StateMachine,
};
use crate::text::{chars_of, opt_view, push_str, slice_chars, string_from_chars, trim, trim_chars};
use vstd::prelude::*;

verus! {

/// Placeholder control-channel port advertised in mDNS.
pub const CONTROL_PORT: u16 = 27000;

/// What the agent remembers about the current direct link and peer.
#[derive(Debug, Clone)]
pub struct AgentSession {
    pub interface_name: Option<String>,
    pub driver: Option<String>,
    pub device_id: String,
    pub friendly_name: String,
    pub last_peer: Option<ValidatedCablePeer>,
    pub last_peer_name: Option<String>,
    pub last_error: Option<String>,
}

/// The host name from the contents of `/etc/hostname` (`None` when
/// unreadable): trimmed, or `cabledesk-device` when empty.
pub open spec fn hostname_text(contents: Option<Seq<char>>) -> Seq<char> {
    match contents {
        Some(c) => if trim(c).len() > 0 {
            trim(c)
        } else {
            "cabledesk-device"@
        },
        None => "cabledesk-device"@,
    }
}

/// The host name from the contents of `/etc/hostname`.
pub fn hostname_from(contents: Option<&str>) -> (r: String)
    ensures
        r@ == hostname_text(
            match contents {
                Some(c) => Some(c@),
                None => None,
            },
        ),
{
    match contents {
        Some(c) => {
            let cs = chars_of(c);
            let t = trim_chars(&cs);
            if t.len() > 0 {
                string_from_chars(&t)
            } else {
                "cabledesk-device".to_owned()
            }
        },
        None => "cabledesk-device".to_owned(),
    }
}

/// The advertised device id: the first 16 characters of the trimmed machine
/// id, or `dev-` and the first 12 characters of the host name when there is
/// no machine id.
pub open spec fn device_id_text(hostname: Seq<char>, machine_id: Option<Seq<char>>) -> Seq<char> {
    let m = match machine_id {
        Some(c) => trim(c),
        None => Seq::empty(),
    };
    let machine = m.take(if m.len() < 16 { m.len() as int } else { 16 });
    if machine.len() == 0 {
        "dev-"@ + hostname.take(if hostname.len() < 12 { hostname.len() as int } else { 12 })
    } else {
        machine
    }
}

/// The advertised device id, from the host name and the contents of
/// `/etc/machine-id` (`None` when unreadable).
pub fn local_device_id(hostname: &str, machine_id: Option<&str>) -> (r: String)
    ensures
        r@ == device_id_text(
            hostname@,
            match machine_id {
                Some(c) => Some(c@),
                None => None,
            },
        ),
{
    let m = match machine_id {
        Some(c) => {
            let cs = chars_of(c);
            trim_chars(&cs)
        },
        None => Vec::new(),
    };
    let take = if m.len() < 16 {
        m.len()
    } else {
        16
    };
    let machine = slice_chars(&m, 0, take);
    assert(machine@ =~= m@.take(take as int));
    if machine.len() == 0 {
        let h = chars_of(hostname);
        let n = if h.len() < 12 {
            h.len()
        } else {
            12
        };
        let prefix = slice_chars(&h, 0, n);
        assert(prefix@ =~= h@.take(n as int));
        let mut v = chars_of("dev-");
        crate::text::push_all(&mut v, &prefix);
        string_from_chars(&v)
    } else {
        string_from_chars(&machine)
    }
}

impl AgentSession {
    /// A session with no link, identified by `device_id` and named
    /// `friendly_name` (the host name).
    pub fn new(device_id: String, friendly_name: String) -> (r: Self)
        ensures
            r.interface_name is None && r.driver is None,
            r.device_id@ == device_id@,
            r.friendly_name@ == friendly_name@,
            r.last_peer is None && r.last_peer_name is None && r.last_error is None,
    {
        AgentSession {
            interface_name: None,
            driver: None,
            device_id,
            friendly_name,
            last_peer: None,
            last_peer_name: None,
            last_error: None,
        }
    }

    /// Forgets the link and the peer; identity and the last error stay.
    pub fn clear_link(&mut self)
        ensures
            final(self).interface_name is None && final(self).driver is None,
            final(self).last_peer is None && final(self).last_peer_name is None,
            final(self).device_id == old(self).device_id,
            final(self).friendly_name == old(self).friendly_name,
            final(self).last_error == old(self).last_error,
    {
        self.interface_name = None;
        self.driver = None;
        self.last_peer = None;
        self.last_peer_name = None;
    }

    /// Records that `interface_name` (with `driver` evidence, when known) is
    /// the accepted direct link: the previous peer and error are cleared.
    pub fn link_accepted(&mut self, interface_name: String, driver: Option<String>)
        ensures
            opt_view(final(self).interface_name) == Some(interface_name@),
            opt_view(final(self).driver) == opt_view(driver),
            final(self).last_peer is None && final(self).last_peer_name is None,
            final(self).last_error is None,
            final(self).device_id == old(self).device_id,
            final(self).friendly_name == old(self).friendly_name,
    {
        self.interface_name = Some(interface_name);
        self.driver = driver;
        self.last_error = None;
        self.last_peer = None;
        self.last_peer_name = None;
    }

    /// Records the error `prefix` followed by `detail`.
    pub fn record_error(&mut self, prefix: &str, detail: &str)
        ensures
            opt_view(final(self).last_error) == Some(prefix@ + detail@),
            final(self).interface_name == old(self).interface_name,
            final(self).driver == old(self).driver,
            final(self).last_peer == old(self).last_peer,
            final(self).last_peer_name == old(self).last_peer_name,
            final(self).device_id == old(self).device_id,
            final(self).friendly_name == old(self).friendly_name,
    {
        let mut v = chars_of(prefix);
        push_str(&mut v, detail);
        self.last_error = Some(string_from_chars(&v));
    }

    /// Records a peer that passed the cable-only checks, advertised as
    /// `name`; the last error is cleared.
    pub fn peer_validated(&mut self, peer: ValidatedCablePeer, name: String)
        ensures
            final(self).last_peer == Some(peer),
            opt_view(final(self).last_peer_name) == Some(name@),
            final(self).last_error is None,
            final(self).interface_name == old(self).interface_name,
            final(self).driver == old(self).driver,
            final(self).device_id == old(self).device_id,
            final(self).friendly_name == old(self).friendly_name,
    {
        self.last_peer = Some(peer);
        self.last_peer_name = Some(name);
        self.last_error = None;
    }

    /// The peer advertised as `name` went away: forgotten when it is the
    /// remembered peer, otherwise nothing changes.
    pub fn peer_disappeared(&mut self, name: &str)
        ensures
            opt_view(old(self).last_peer_name) == Some(name@) ==> (final(self).last_peer is None
                && final(self).last_peer_name is None),
            opt_view(old(self).last_peer_name) != Some(name@) ==> (final(self).last_peer == old(
                self,
            ).last_peer && final(self).last_peer_name == old(self).last_peer_name),
            final(self).interface_name == old(self).interface_name,
            final(self).driver == old(self).driver,
            final(self).last_error == old(self).last_error,
            final(self).device_id == old(self).device_id,
            final(self).friendly_name == old(self).friendly_name,
    {
        let same = match &self.last_peer_name {
            Some(n) => crate::text::str_eq_lit(n.as_str(), name),
            None => false,
        };
        if same {
            self.last_peer = None;
            self.last_peer_name = None;
        }
    }

    /// The record this device advertises on the direct link: this build's
    /// protocol version, its id and name, both roles, unpaired, and the
    /// control port.
    pub fn discovery_record(&self) -> (r: ServiceRecord)
        ensures
            r.protocol_version == PROTOCOL_VERSION,
            r.device_id@ == self.device_id@,
            r.friendly_name@ == self.friendly_name@,
            r.role == Role::Both,
            r.pairing_state == PairingState::Unpaired,
            r.control_port == CONTROL_PORT,
    {
        ServiceRecord {
            protocol_version: PROTOCOL_VERSION,
            device_id: self.device_id.clone(),
            friendly_name: self.friendly_name.clone(),
            role: Role::Both,
            pairing_state: PairingState::Unpaired,
            control_port: CONTROL_PORT,
        }
    }
}

/// A discovered peer is worth resolving unless it is this device's own
/// advertisement (same instance name as our id).
pub fn is_foreign_peer(name: &str, our_id: &str) -> (r: bool)
    ensures
        r == (name@ != our_id@),
{
    !crate::text::str_eq_lit(name, our_id)
}

/// A resolved record that carries this device's own id is our own
/// advertisement seen back.
pub fn is_own_record(record: &Option<ServiceRecord>, our_id: &str) -> (r: bool)
    ensures
        r == (record matches Some(rec) && rec.device_id@ == our_id@),
{
    match record {
        Some(rec) => crate::text::str_eq_lit(rec.device_id.as_str(), our_id),
        None => false,
    }
}

/// The agent's start-up walk: `CheckingCompatibility`, `Ready`, then
/// `WaitingForCable`, each taken when legal.
pub fn start_up(sm: &mut StateMachine)
    ensures
        final(sm)@ == try_step(
            try_step(
                try_step(old(sm)@, ConnectionState::CheckingCompatibility),
                ConnectionState::Ready,
            ),
            ConnectionState::WaitingForCable,
        ),
        legal_walk(old(sm)@) ==> legal_walk(final(sm)@),
        old(sm)@.current == ConnectionState::Unconfigured ==> final(sm)@.current
            == ConnectionState::WaitingForCable,
{
    proof {
        assert(crate::state::allowed_next_spec(ConnectionState::Unconfigured)[0]
            == ConnectionState::CheckingCompatibility);
        assert(crate::state::allowed_next_spec(ConnectionState::CheckingCompatibility)[1]
            == ConnectionState::Ready);
        assert(crate::state::allowed_next_spec(ConnectionState::Ready)[0]
            == ConnectionState::WaitingForCable);
    }
    try_transition(sm, ConnectionState::CheckingCompatibility);
    try_transition(sm, ConnectionState::Ready);
    try_transition(sm, ConnectionState::WaitingForCable);
}

/// A direct link was accepted: walk `CableDetected`, `InspectingPower`,
/// `ConfiguringLink`, each taken when legal.
pub fn begin_direct_link(sm: &mut StateMachine)
    ensures
        final(sm)@ == try_step(
            try_step(try_step(old(sm)@, ConnectionState::CableDetected), ConnectionState::InspectingPower),
            ConnectionState::ConfiguringLink,
        ),
        legal_walk(old(sm)@) ==> legal_walk(final(sm)@),
        old(sm)@.current == ConnectionState::WaitingForCable ==> final(sm)@.current
            == ConnectionState::ConfiguringLink,
        old(sm)@.current == ConnectionState::WaitingForCable ==> final(sm)@.history == old(
            sm,
        )@.history.push(ConnectionState::WaitingForCable).push(
            ConnectionState::CableDetected,
        ).push(ConnectionState::InspectingPower),
{
    proof {
        assert(crate::state::allowed_next_spec(ConnectionState::WaitingForCable)[0]
            == ConnectionState::CableDetected);
        assert(crate::state::allowed_next_spec(ConnectionState::CableDetected)[0]
            == ConnectionState::InspectingPower);
        assert(crate::state::allowed_next_spec(ConnectionState::InspectingPower)[0]
            == ConnectionState::ConfiguringLink);
    }
    try_transition(sm, ConnectionState::CableDetected);
    try_transition(sm, ConnectionState::InspectingPower);
    try_transition(sm, ConnectionState::ConfiguringLink);
}


// ---------------------------------------------------------------------------
// Bringing up discovery on a direct interface
// ---------------------------------------------------------------------------

/// Where bringing up discovery on one direct interface stands.
#[derive(Debug, Clone)]
pub enum DiscoveryStage {
    /// Nothing done yet for the interface.
    Start,
    /// The interface is a direct link; its kernel index is being looked up.
    Indexing { classification: InterfaceClassification, driver: Option<String> },
    /// The link is accepted; the helper is preparing its profile.
    Preparing {
        classification: InterfaceClassification,
        driver: Option<String>,
        interface_index: u32,
    },
    /// Connecting to Avahi.
    Connecting { link: PreparedDirectLink, driver: Option<String>, interface_index: u32 },
    /// Publishing this device's record.
    Publishing { link: PreparedDirectLink, driver: Option<String>, interface_index: u32 },
    /// Starting to browse for peers.
    Browsing { link: PreparedDirectLink, driver: Option<String>, interface_index: u32 },
    /// Finished or stopped.
    Done,
}

/// What the outside work of the previous step gave.
#[derive(Debug)]
pub enum DiscoveryInput {
    /// The interface's driver evidence from sysfs, when present.
    Begin { driver: Option<String> },
    /// The kernel interface index, or the text of the error.
    Index(Result<u32, String>),
    /// The helper's answer to the preparation request.
    Helper(Result<(), String>),
    /// Whether Avahi could be reached.
    Avahi(Result<(), String>),
    /// Whether the record was published.
    Published(Result<(), String>),
    /// Whether browsing started.
    Browse(Result<(), String>),
}

/// The outside work to do next.
#[derive(Debug, Clone)]
pub enum DiscoveryAction {
    LookUpIndex,
    PrepareViaHelper,
    ConnectAvahi,
    Publish { interface_index: u32, record: ServiceRecord },
    Browse { interface_index: u32 },
    /// Watch the browse results for peers on `link`, discovered with the
    /// `driver` evidence, ignoring this device's own id `our_id`.
    Watch { link: PreparedDirectLink, driver: String, our_id: String },
    Stop,
}

/// `new` is `old` with only the last error set, to `text`.
pub open spec fn error_recorded(old: AgentSession, new: AgentSession, text: Seq<char>) -> bool {
    &&& opt_view(new.last_error) == Some(text)
    &&& new.interface_name == old.interface_name
    &&& new.driver == old.driver
    &&& new.last_peer == old.last_peer
    &&& new.last_peer_name == old.last_peer_name
    &&& new.device_id == old.device_id
    &&& new.friendly_name == old.friendly_name
}

/// `new` is `old` with `interface` (and its `driver` evidence) accepted as
/// the link: no peer and no error are remembered.
pub open spec fn link_recorded(
    old: AgentSession,
    new: AgentSession,
    interface: Seq<char>,
    driver: Option<Seq<char>>,
) -> bool {
    &&& opt_view(new.interface_name) == Some(interface)
    &&& opt_view(new.driver) == driver
    &&& new.last_peer is None && new.last_peer_name is None && new.last_error is None
    &&& new.device_id == old.device_id
    &&& new.friendly_name == old.friendly_name
}

/// `rec` is the record the session advertises.
pub open spec fn advertised(rec: ServiceRecord, s: AgentSession) -> bool {
    &&& rec.protocol_version == PROTOCOL_VERSION
    &&& rec.device_id@ == s.device_id@
    &&& rec.friendly_name@ == s.friendly_name@
    &&& rec.role == Role::Both
    &&& rec.pairing_state == PairingState::Unpaired
    &&& rec.control_port == CONTROL_PORT
}

/// The driver evidence handed on to peer validation: what sysfs reported,
/// else `thunderbolt-net`.
pub open spec fn watch_driver(driver: Option<String>) -> Seq<char> {
    match driver {
        Some(d) => d@,
        None => "thunderbolt-net"@,
    }
}

fn driver_str(driver: &Option<String>) -> (r: Option<&str>)
    ensures
        opt_view(*driver) == match r {
            Some(d) => Some(d@),
            None => None,
        },
{
    match driver {
        Some(d) => Some(d.as_str()),
        None => None,
    }
}

/// One step of bringing up discovery on `interface_name`, from where it
/// stands (`stage`) and what the last outside work gave (`input`), to the
/// next stage and the outside work to do next:
///
/// - a refused interface or a missing kernel index records the error,
///   brings the machine back to `WaitingForCable`, and stops;
/// - an accepted interface with its index is remembered as the link and the
///   machine walks towards `ConfiguringLink`; the helper is asked next;
/// - a helper failure is recorded and discovery goes on;
/// - Avahi being unreachable, or browsing failing, is recorded and stops
///   without touching the machine;
/// - a publish failure is recorded; either way the machine tries
///   `DiscoveringPeer` and browsing starts;
/// - once browsing runs, its results are watched.
///
/// A stage and input that do not belong together change nothing and stop.
pub fn discovery_step(
    sm: &mut StateMachine,
    session: &mut AgentSession,
    interface_name: &str,
    stage: DiscoveryStage,
    input: DiscoveryInput,
) -> (r: (DiscoveryStage, DiscoveryAction))
    ensures
        match (stage, input) {
            (DiscoveryStage::Start, DiscoveryInput::Begin { driver }) => {
                let c = classify_evidence(interface_name@, opt_view(driver));
                if is_direct(c) {
                    &&& final(sm)@ == old(sm)@
                    &&& *final(session) == *old(session)
                    &&& r.0 == DiscoveryStage::Indexing { classification: c, driver }
                    &&& r.1 is LookUpIndex
                } else {
                    &&& error_recorded(*old(session), *final(session), "no direct cable connection"@)
                    &&& final(sm)@ == forced_waiting(old(sm)@)
                    &&& r.0 is Done && r.1 is Stop
                }
            },
            (
                DiscoveryStage::Indexing { classification, driver },
                DiscoveryInput::Index(Err(m)),
            ) => {
                &&& error_recorded(*old(session), *final(session), m@)
                &&& final(sm)@ == forced_waiting(old(sm)@)
                &&& r.0 is Done && r.1 is Stop
            },
            (
                DiscoveryStage::Indexing { classification, driver },
                DiscoveryInput::Index(Ok(i)),
            ) => {
                &&& link_recorded(*old(session), *final(session), interface_name@, opt_view(driver))
                &&& final(sm)@ == try_step(
                    try_step(
                        try_step(old(sm)@, ConnectionState::CableDetected),
                        ConnectionState::InspectingPower,
                    ),
                    ConnectionState::ConfiguringLink,
                )
                &&& r.0 == DiscoveryStage::Preparing { classification, driver, interface_index: i }
                &&& r.1 is PrepareViaHelper
            },
            (
                DiscoveryStage::Preparing { classification, driver, interface_index },
                DiscoveryInput::Helper(h),
            ) => {
                &&& match h {
                    Ok(()) => *final(session) == *old(session),
                    Err(m) => error_recorded(*old(session), *final(session), "prepare: "@ + m@),
                }
                &&& if is_direct(classification) {
                    &&& final(sm)@ == old(sm)@
                    &&& r.0 matches DiscoveryStage::Connecting { link, driver: d, interface_index: i }
                        && link.interface_name@ == interface_name@ && link.classification
                        == classification && link.interface_index == Some(interface_index) && d
                        == driver && i == interface_index
                    &&& r.1 is ConnectAvahi
                } else {
                    &&& final(sm)@ == forced_waiting(old(sm)@)
                    &&& r.0 is Done && r.1 is Stop
                }
            },
            (
                DiscoveryStage::Connecting { link, driver, interface_index },
                DiscoveryInput::Avahi(Err(m)),
            ) => {
                &&& error_recorded(*old(session), *final(session), "avahi: "@ + m@)
                &&& final(sm)@ == old(sm)@
                &&& r.0 is Done && r.1 is Stop
            },
            (
                DiscoveryStage::Connecting { link, driver, interface_index },
                DiscoveryInput::Avahi(Ok(())),
            ) => {
                &&& *final(session) == *old(session)
                &&& final(sm)@ == old(sm)@
                &&& r.0 == DiscoveryStage::Publishing { link, driver, interface_index }
                &&& r.1 matches DiscoveryAction::Publish { interface_index: i, record } && i
                    == interface_index && advertised(record, *old(session))
            },
            (
                DiscoveryStage::Publishing { link, driver, interface_index },
                DiscoveryInput::Published(p),
            ) => {
                &&& match p {
                    Ok(()) => *final(session) == *old(session),
                    Err(m) => error_recorded(*old(session), *final(session), "publish: "@ + m@),
                }
                &&& final(sm)@ == try_step(old(sm)@, ConnectionState::DiscoveringPeer)
                &&& r.0 == DiscoveryStage::Browsing { link, driver, interface_index }
                &&& r.1 == DiscoveryAction::Browse { interface_index }
            },
            (
                DiscoveryStage::Browsing { link, driver, interface_index },
                DiscoveryInput::Browse(Err(m)),
            ) => {
                &&& error_recorded(*old(session), *final(session), "browse: "@ + m@)
                &&& final(sm)@ == old(sm)@
                &&& r.0 is Done && r.1 is Stop
            },
            (
                DiscoveryStage::Browsing { link, driver, interface_index },
                DiscoveryInput::Browse(Ok(())),
            ) => {
                &&& *final(session) == *old(session)
                &&& final(sm)@ == old(sm)@
                &&& r.0 is Done
                &&& r.1 matches DiscoveryAction::Watch { link: l, driver: d, our_id } && l == link
                    && d@ == watch_driver(driver) && our_id@ == old(session).device_id@
            },
            _ => {
                &&& *final(session) == *old(session)
                &&& final(sm)@ == old(sm)@
                &&& r.0 is Done && r.1 is Stop
            },
        },
{
    proof {
        reveal_strlit("");
    }
    match (stage, input) {
        (DiscoveryStage::Start, DiscoveryInput::Begin { driver }) => {
            let checked = require_direct_cable_interface(interface_name, driver_str(&driver));
            match checked {
                Ok(classification) => (
                    DiscoveryStage::Indexing { classification, driver },
                    DiscoveryAction::LookUpIndex,
                ),
                Err(e) => {
                    let text = e.to_string();
                    session.record_error("", text.as_str());
                    force_waiting_for_cable(sm);
                    (DiscoveryStage::Done, DiscoveryAction::Stop)
                },
            }
        },
        (DiscoveryStage::Indexing { classification, driver }, DiscoveryInput::Index(found)) => {
            match found {
                Err(m) => {
                    session.record_error("", m.as_str());
                    force_waiting_for_cable(sm);
                    (DiscoveryStage::Done, DiscoveryAction::Stop)
                },
                Ok(i) => {
                    session.link_accepted(interface_name.to_owned(), driver.clone());
                    begin_direct_link(sm);
                    (
                        DiscoveryStage::Preparing { classification, driver, interface_index: i },
                        DiscoveryAction::PrepareViaHelper,
                    )
                },
            }
        },
        (
            DiscoveryStage::Preparing { classification, driver, interface_index },
            DiscoveryInput::Helper(h),
        ) => {
            match h {
                Ok(()) => {},
                Err(m) => session.record_error("prepare: ", m.as_str()),
            }
            match PreparedDirectLink::new(interface_name.to_owned(), classification) {
                Ok(mut link) => {
                    link.interface_index = Some(interface_index);
                    (
                        DiscoveryStage::Connecting { link, driver, interface_index },
                        DiscoveryAction::ConnectAvahi,
                    )
                },
                Err(_) => {
                    force_waiting_for_cable(sm);
                    (DiscoveryStage::Done, DiscoveryAction::Stop)
                },
            }
        },
        (
            DiscoveryStage::Connecting { link, driver, interface_index },
            DiscoveryInput::Avahi(reached),
        ) => match reached {
            Err(m) => {
                session.record_error("avahi: ", m.as_str());
                (DiscoveryStage::Done, DiscoveryAction::Stop)
            },
            Ok(()) => {
                let record = session.discovery_record();
                (
                    DiscoveryStage::Publishing { link, driver, interface_index },
                    DiscoveryAction::Publish { interface_index, record },
                )
            },
        },
        (
            DiscoveryStage::Publishing { link, driver, interface_index },
            DiscoveryInput::Published(p),
        ) => {
            match p {
                Ok(()) => {},
                Err(m) => session.record_error("publish: ", m.as_str()),
            }
            try_transition(sm, ConnectionState::DiscoveringPeer);
            (
                DiscoveryStage::Browsing { link, driver, interface_index },
                DiscoveryAction::Browse { interface_index },
            )
        },
        (
            DiscoveryStage::Browsing { link, driver, interface_index },
            DiscoveryInput::Browse(started),
        ) => match started {
            Err(m) => {
                session.record_error("browse: ", m.as_str());
                (DiscoveryStage::Done, DiscoveryAction::Stop)
            },
            Ok(()) => {
                let d = match driver {
                    Some(d) => d,
                    None => "thunderbolt-net".to_owned(),
                };
                let our_id = session.device_id.clone();
                (DiscoveryStage::Done, DiscoveryAction::Watch { link, driver: d, our_id })
            },
        },
        _ => (DiscoveryStage::Done, DiscoveryAction::Stop),
    }
}

} // verus!
