//! Development-only simulation of the direct-cable lifecycle, driven
//! without Thunderbolt hardware. Production paths must not depend on it.
use crate::classify::{classify_driver, classify_from_driver_name, is_direct};
use crate::error::{error_view, CableDeskError, ErrorView};
use crate::peer::{
    reject_if_discovery_not_direct_cable, IpAddress, PeerClaim, PreparedDirectLink,
};
use crate::state::{
    can_transition, lemma_steps_keep_legal_walk, legal_walk, state_name, steps, transition_path, ConnectionState, StateMachine,
    StateMachineView,
};
use crate::text::{chars_of, concat_str, opt_view};
use vstd::prelude::*;

verus! {

/// A simulated peer.
#[derive(Debug, Clone, PartialEq, Eq)]
pub struct SimulatedPeer {
    pub address: IpAddress,
    pub discovered_on_interface: String,
    pub discovered_on_driver: String,
    pub trusted: bool,
}

/// A simulated world CableDesk can drive without Thunderbolt hardware.
#[derive(Debug, Clone)]
pub struct SimulatedWorld {
    pub usb4_controller: bool,
    pub thunderbolt_controller: bool,
    pub cable_inserted: bool,
    pub interface_name: Option<String>,
    pub interface_driver: Option<String>,
    pub peer: Option<SimulatedPeer>,
    pub charging: bool,
    pub discharging: bool,
    pub mock_stream_active: bool,
    pub state: StateMachine,
}

/// Serializable snapshot for chaining simulation invocations.
#[derive(Debug, Clone)]
pub struct SimSnapshot {
    pub usb4_controller: bool,
    pub thunderbolt_controller: bool,
    pub cable_inserted: bool,
    pub interface_name: Option<String>,
    pub interface_driver: Option<String>,
    pub peer: Option<SimulatedPeer>,
    pub charging: bool,
    pub discharging: bool,
    pub mock_stream_active: bool,
    pub state: ConnectionState,
}

/// One simulated event.
#[derive(Debug, Clone, Copy, PartialEq, Eq, Structural)]
pub enum SimulateCommand {
    Usb4Controller,
    CableInserted,
    CableRemoved,
    DirectInterfaceAdded,
    DirectInterfaceRemoved,
    PeerDiscovered,
    PeerOnWifi,
    PeerOnEthernet,
    PeerTrusted,
    IdentityMismatch,
    Charging,
    Discharging,
    StreamStarted,
    StreamFailed,
}

/// A simulated peer with its strings as characters.
pub struct SimPeerView {
    pub address: IpAddress,
    pub discovered_on_interface: Seq<char>,
    pub discovered_on_driver: Seq<char>,
    pub trusted: bool,
}

/// The simulated world with its strings as characters.
pub struct SimView {
    pub usb4_controller: bool,
    pub thunderbolt_controller: bool,
    pub cable_inserted: bool,
    pub interface_name: Option<Seq<char>>,
    pub interface_driver: Option<Seq<char>>,
    pub peer: Option<SimPeerView>,
    pub charging: bool,
    pub discharging: bool,
    pub mock_stream_active: bool,
    pub state: StateMachineView,
}

/// The view of a simulated peer.
pub open spec fn peer_view(p: SimulatedPeer) -> SimPeerView {
    SimPeerView {
        address: p.address,
        discovered_on_interface: p.discovered_on_interface@,
        discovered_on_driver: p.discovered_on_driver@,
        trusted: p.trusted,
    }
}

impl View for SimulatedWorld {
    type V = SimView;

    open spec fn view(&self) -> SimView {
        SimView {
            usb4_controller: self.usb4_controller,
            thunderbolt_controller: self.thunderbolt_controller,
            cable_inserted: self.cable_inserted,
            interface_name: opt_view(self.interface_name),
            interface_driver: opt_view(self.interface_driver),
            peer: match self.peer {
                Some(p) => Some(peer_view(p)),
                None => None,
            },
            charging: self.charging,
            discharging: self.discharging,
            mock_stream_active: self.mock_stream_active,
            state: self.state@,
        }
    }
}

/// The world has a configured interface whose driver is a direct cable.
pub open spec fn has_direct_interface(w: SimView) -> bool {
    &&& w.interface_name is Some
    &&& w.interface_driver matches Some(d) && is_direct(classify_driver(d))
}

/// A step's result with its message as characters.
pub open spec fn outcome_view(r: Result<String, CableDeskError>) -> Result<Seq<char>, ErrorView> {
    match r {
        Ok(m) => Ok(m@),
        Err(e) => Err(error_view(e)),
    }
}

/// `Ok(msg)` when no transition was refused, the refusal otherwise.
pub open spec fn after_steps(e: Option<crate::state::TransitionError>, msg: Seq<char>) -> Result<
    Seq<char>,
    ErrorView,
> {
    match e {
        Some(t) => Err(ErrorView::Transition(t)),
        None => Ok(msg),
    }
}

/// The peer the simulation discovers on its direct interface.
pub open spec fn discovered_peer() -> SimPeerView {
    SimPeerView {
        address: IpAddress::V4([169, 254, 10, 20]),
        discovered_on_interface: "sim-thunderbolt0"@,
        discovered_on_driver: "thunderbolt-net"@,
        trusted: false,
    }
}

/// The world and result after the cable (or the direct interface) is lost:
/// the session is torn down and the machine returns to `WaitingForCable`,
/// through `Error` when the direct step is not legal. No fallback.
pub open spec fn cable_loss(w: SimView) -> (SimView, Result<Seq<char>, ErrorView>) {
    let cleared = SimView {
        cable_inserted: false,
        interface_name: None,
        interface_driver: None,
        peer: None,
        mock_stream_active: false,
        ..w
    };
    if w.state.current == ConnectionState::WaitingForCable {
        (cleared, Ok("Already waiting for cable."@))
    } else {
        let path = if can_transition(w.state.current, ConnectionState::WaitingForCable) {
            seq![ConnectionState::WaitingForCable]
        } else {
            seq![ConnectionState::Error, ConnectionState::WaitingForCable]
        };
        let (m, e) = steps(w.state, path);
        (
            SimView { state: m, ..cleared },
            after_steps(e, "Cable removed — session stopped. No Wi-Fi/Ethernet fallback."@),
        )
    }
}

/// The world and result after `cmd`.
pub open spec fn sim_step(w: SimView, cmd: SimulateCommand) -> (
    SimView,
    Result<Seq<char>, ErrorView>,
) {
    match cmd {
        SimulateCommand::Usb4Controller => (
            SimView { usb4_controller: true, thunderbolt_controller: true, ..w },
            Ok("Simulated USB4/Thunderbolt controller present."@),
        ),
        SimulateCommand::CableInserted => if !(w.usb4_controller || w.thunderbolt_controller) {
            (w, Err(ErrorView::NoDirectLinkHardware))
        } else {
            (SimView { cable_inserted: true, ..w }, Ok("Simulated compatible cable inserted."@))
        },
        SimulateCommand::DirectInterfaceAdded => if !w.cable_inserted {
            (w, Err(ErrorView::DirectInterfaceMissing))
        } else {
            let (m, e) = steps(
                w.state,
                seq![
                    ConnectionState::CableDetected,
                    ConnectionState::InspectingPower,
                    ConnectionState::ConfiguringLink,
                ],
            );
            (
                SimView {
                    interface_name: Some("sim-thunderbolt0"@),
                    interface_driver: Some("thunderbolt-net"@),
                    state: m,
                    ..w
                },
                after_steps(e, "Simulated direct interface added; link configuring."@),
            )
        },
        SimulateCommand::PeerDiscovered => if !has_direct_interface(w) {
            (w, Err(ErrorView::NoDirectCableConnection))
        } else {
            let (m, e) = steps(
                w.state,
                seq![ConnectionState::DiscoveringPeer, ConnectionState::PairingRequired],
            );
            (
                SimView { peer: Some(discovered_peer()), state: m, ..w },
                after_steps(e, "Simulated peer discovered on direct cable interface."@),
            )
        },
        SimulateCommand::PeerOnWifi | SimulateCommand::PeerOnEthernet => if !has_direct_interface(
            w,
        ) {
            (w, Err(ErrorView::NoDirectCableConnection))
        } else {
            (w, Err(ErrorView::PeerNotOnDirectCable))
        },
        SimulateCommand::PeerTrusted => if !has_direct_interface(w) {
            (w, Err(ErrorView::NoDirectCableConnection))
        } else {
            match w.peer {
                None => (w, Err(ErrorView::Config("no simulated peer"@))),
                Some(p) => {
                    let trusted = SimView { peer: Some(SimPeerView { trusted: true, ..p }), ..w };
                    let msg = "Simulated peer marked trusted (no real crypto)."@;
                    if w.state.current == ConnectionState::PairingRequired {
                        let (m, e) = steps(
                            w.state,
                            seq![
                                ConnectionState::Pairing,
                                ConnectionState::Authenticating,
                                ConnectionState::PreparingHost,
                            ],
                        );
                        (SimView { state: m, ..trusted }, after_steps(e, msg))
                    } else {
                        (trusted, Ok(msg))
                    }
                },
            }
        },
        SimulateCommand::IdentityMismatch => (w, Err(ErrorView::UntrustedPeerIdentity)),
        SimulateCommand::Charging => (
            SimView { charging: true, discharging: false, ..w },
            Ok("Simulated charging."@),
        ),
        SimulateCommand::Discharging => (
            SimView { charging: false, discharging: true, ..w },
            Ok("Simulated discharging while connected."@),
        ),
        SimulateCommand::StreamStarted => {
            let msg = "Mock stream started (no Sunshine/Moonlight)."@;
            if w.state.current == ConnectionState::PreparingHost {
                let (m, e) = steps(
                    w.state,
                    seq![
                        ConnectionState::StartingSunshine,
                        ConnectionState::StartingViewer,
                        ConnectionState::Streaming,
                    ],
                );
                match e {
                    Some(t) => (SimView { state: m, ..w }, Err(ErrorView::Transition(t))),
                    None => (SimView { state: m, mock_stream_active: true, ..w }, Ok(msg)),
                }
            } else if w.state.current != ConnectionState::Streaming {
                (
                    w,
                    Err(
                        ErrorView::Config(
                            "cannot start mock stream from "@ + state_name(w.state.current),
                        ),
                    ),
                )
            } else {
                (SimView { mock_stream_active: true, ..w }, Ok(msg))
            }
        },
        SimulateCommand::StreamFailed => {
            let (m, e) = steps(w.state, seq![ConnectionState::Error]);
            (
                SimView { mock_stream_active: false, state: m, ..w },
                after_steps(e, "Mock stream failed."@),
            )
        },
        SimulateCommand::DirectInterfaceRemoved | SimulateCommand::CableRemoved => cable_loss(w),
    }
}

impl Default for SimulatedWorld {
    fn default() -> (r: Self)
        ensures
            !r.usb4_controller && !r.thunderbolt_controller && !r.cable_inserted,
            r.interface_name is None && r.interface_driver is None && r.peer is None,
            !r.charging && !r.discharging && !r.mock_stream_active,
            r.state@.current == ConnectionState::Unconfigured,
            r.state@.history == Seq::<ConnectionState>::empty(),
    {
        SimulatedWorld {
            usb4_controller: false,
            thunderbolt_controller: false,
            cable_inserted: false,
            interface_name: None,
            interface_driver: None,
            peer: None,
            charging: false,
            discharging: false,
            mock_stream_active: false,
            state: StateMachine::new(),
        }
    }
}

impl SimulatedWorld {
    /// A world with no hardware, waiting for a cable.
    pub fn new() -> (r: Self)
        ensures
            !r.usb4_controller && !r.thunderbolt_controller && !r.cable_inserted,
            r.interface_name is None && r.interface_driver is None && r.peer is None,
            !r.charging && !r.discharging && !r.mock_stream_active,
            r.state@.current == ConnectionState::WaitingForCable,
            r.state@.history == seq![
                ConnectionState::Unconfigured,
                ConnectionState::CheckingCompatibility,
                ConnectionState::Ready,
            ],
    {
        let mut world = Self::default();
        proof {
            assert(crate::state::allowed_next_spec(ConnectionState::Unconfigured)[0]
                == ConnectionState::CheckingCompatibility);
            assert(crate::state::allowed_next_spec(ConnectionState::Ready)[0]
                == ConnectionState::WaitingForCable);
        }
        let _ = world.state.transition(ConnectionState::CheckingCompatibility);
        proof {
            assert(crate::state::allowed_next_spec(ConnectionState::CheckingCompatibility)[1]
                == ConnectionState::Ready);
        }
        let _ = world.state.transition(ConnectionState::Ready);
        let _ = world.state.transition(ConnectionState::WaitingForCable);
        assert(world.state@.history =~= seq![
            ConnectionState::Unconfigured,
            ConnectionState::CheckingCompatibility,
            ConnectionState::Ready,
        ]);
        world
    }

    /// A world restored from `snap`, its machine at the snapshot's state
    /// with no history.
    pub fn from_snapshot(snap: SimSnapshot) -> (r: Self)
        ensures
            r.usb4_controller == snap.usb4_controller,
            r.thunderbolt_controller == snap.thunderbolt_controller,
            r.cable_inserted == snap.cable_inserted,
            r.interface_name == snap.interface_name,
            r.interface_driver == snap.interface_driver,
            r.peer == snap.peer,
            r.charging == snap.charging,
            r.discharging == snap.discharging,
            r.mock_stream_active == snap.mock_stream_active,
            r.state@.current == snap.state,
            r.state@.history == Seq::<ConnectionState>::empty(),
    {
        Self {
            usb4_controller: snap.usb4_controller,
            thunderbolt_controller: snap.thunderbolt_controller,
            cable_inserted: snap.cable_inserted,
            interface_name: snap.interface_name,
            interface_driver: snap.interface_driver,
            peer: snap.peer,
            charging: snap.charging,
            discharging: snap.discharging,
            mock_stream_active: snap.mock_stream_active,
            state: StateMachine::restored(snap.state),
        }
    }

    /// The world's serializable snapshot.
    pub fn to_snapshot(&self) -> (r: SimSnapshot)
        ensures
            r.usb4_controller == self.usb4_controller,
            r.thunderbolt_controller == self.thunderbolt_controller,
            r.cable_inserted == self.cable_inserted,
            opt_view(r.interface_name) == opt_view(self.interface_name),
            opt_view(r.interface_driver) == opt_view(self.interface_driver),
            match (r.peer, self.peer) {
                (Some(a), Some(b)) => peer_view(a) == peer_view(b),
                (None, None) => true,
                _ => false,
            },
            r.charging == self.charging,
            r.discharging == self.discharging,
            r.mock_stream_active == self.mock_stream_active,
            r.state == self.state@.current,
    {
        SimSnapshot {
            usb4_controller: self.usb4_controller,
            thunderbolt_controller: self.thunderbolt_controller,
            cable_inserted: self.cable_inserted,
            interface_name: clone_opt(&self.interface_name),
            interface_driver: clone_opt(&self.interface_driver),
            peer: match &self.peer {
                Some(p) => Some(clone_peer(p)),
                None => None,
            },
            charging: self.charging,
            discharging: self.discharging,
            mock_stream_active: self.mock_stream_active,
            state: self.state.current(),
        }
    }

    /// Applies one simulated event; see [`sim_step`].
    pub fn apply(&mut self, cmd: SimulateCommand) -> (r: Result<String, CableDeskError>)
        ensures
            (final(self)@, outcome_view(r)) == sim_step(old(self)@, cmd),
    {
        match cmd {
            SimulateCommand::Usb4Controller => {
                self.usb4_controller = true;
                self.thunderbolt_controller = true;
                Ok("Simulated USB4/Thunderbolt controller present.".to_owned())
            },
            SimulateCommand::CableInserted => {
                if !(self.usb4_controller || self.thunderbolt_controller) {
                    return Err(CableDeskError::NoDirectLinkHardware);
                }
                self.cable_inserted = true;
                Ok("Simulated compatible cable inserted.".to_owned())
            },
            SimulateCommand::DirectInterfaceAdded => self.add_direct_interface(),
            SimulateCommand::PeerDiscovered => self.discover_peer(),
            SimulateCommand::PeerOnWifi => {
                if let Err(e) = self.ensure_direct_interface() {
                    return Err(e);
                }
                Err(
                    match reject_if_discovery_not_direct_cable(Some("iwlwifi"), "wlp0s20f3") {
                        Err(e) => e,
                        Ok(()) => CableDeskError::PeerNotOnDirectCable,
                    },
                )
            },
            SimulateCommand::PeerOnEthernet => {
                if let Err(e) = self.ensure_direct_interface() {
                    return Err(e);
                }
                Err(
                    match reject_if_discovery_not_direct_cable(Some("e1000e"), "enp3s0") {
                        Err(e) => e,
                        Ok(()) => CableDeskError::PeerNotOnDirectCable,
                    },
                )
            },
            SimulateCommand::PeerTrusted => self.trust_peer(),
            SimulateCommand::IdentityMismatch => Err(CableDeskError::UntrustedPeerIdentity),
            SimulateCommand::Charging => {
                self.charging = true;
                self.discharging = false;
                Ok("Simulated charging.".to_owned())
            },
            SimulateCommand::Discharging => {
                self.charging = false;
                self.discharging = true;
                Ok("Simulated discharging while connected.".to_owned())
            },
            SimulateCommand::StreamStarted => self.start_stream(),
            SimulateCommand::StreamFailed => {
                self.mock_stream_active = false;
                let path = vec![ConnectionState::Error];
                assert(path@ =~= seq![ConnectionState::Error]);
                if let Err(t) = transition_path(&mut self.state, &path) {
                    return Err(CableDeskError::Transition(t));
                }
                Ok("Mock stream failed.".to_owned())
            },
            SimulateCommand::DirectInterfaceRemoved | SimulateCommand::CableRemoved => {
                self.invalidate_session_on_cable_loss()
            },
        }
    }

    fn add_direct_interface(&mut self) -> (r: Result<String, CableDeskError>)
        ensures
            (final(self)@, outcome_view(r)) == sim_step(
                old(self)@,
                SimulateCommand::DirectInterfaceAdded,
            ),
    {
        if !self.cable_inserted {
            return Err(CableDeskError::DirectInterfaceMissing);
        }
        self.interface_name = Some("sim-thunderbolt0".to_owned());
        self.interface_driver = Some("thunderbolt-net".to_owned());
        let path = vec![
            ConnectionState::CableDetected,
            ConnectionState::InspectingPower,
            ConnectionState::ConfiguringLink,
        ];
        if let Err(t) = transition_path(&mut self.state, &path) {
            return Err(CableDeskError::Transition(t));
        }
        Ok("Simulated direct interface added; link configuring.".to_owned())
    }

    fn discover_peer(&mut self) -> (r: Result<String, CableDeskError>)
        ensures
            (final(self)@, outcome_view(r)) == sim_step(old(self)@, SimulateCommand::PeerDiscovered),
    {
        if let Err(e) = self.ensure_direct_interface() {
            return Err(e);
        }
        self.peer = Some(
            SimulatedPeer {
                address: IpAddress::V4([169, 254, 10, 20]),
                discovered_on_interface: "sim-thunderbolt0".to_owned(),
                discovered_on_driver: "thunderbolt-net".to_owned(),
                trusted: false,
            },
        );
        let path = vec![ConnectionState::DiscoveringPeer, ConnectionState::PairingRequired];
        if let Err(t) = transition_path(&mut self.state, &path) {
            return Err(CableDeskError::Transition(t));
        }
        Ok("Simulated peer discovered on direct cable interface.".to_owned())
    }

    fn trust_peer(&mut self) -> (r: Result<String, CableDeskError>)
        ensures
            (final(self)@, outcome_view(r)) == sim_step(old(self)@, SimulateCommand::PeerTrusted),
    {
        if let Err(e) = self.ensure_direct_interface() {
            return Err(e);
        }
        match &mut self.peer {
            Some(peer) => {
                peer.trusted = true;
            },
            None => {
                return Err(CableDeskError::Config("no simulated peer".to_owned()));
            },
        }
        if self.state.current() == ConnectionState::PairingRequired {
            let path = vec![
                ConnectionState::Pairing,
                ConnectionState::Authenticating,
                ConnectionState::PreparingHost,
            ];
            if let Err(t) = transition_path(&mut self.state, &path) {
                return Err(CableDeskError::Transition(t));
            }
        }
        Ok("Simulated peer marked trusted (no real crypto).".to_owned())
    }

    fn start_stream(&mut self) -> (r: Result<String, CableDeskError>)
        ensures
            (final(self)@, outcome_view(r)) == sim_step(old(self)@, SimulateCommand::StreamStarted),
    {
        let current = self.state.current();
        if current == ConnectionState::PreparingHost {
            let path = vec![
                ConnectionState::StartingSunshine,
                ConnectionState::StartingViewer,
                ConnectionState::Streaming,
            ];
            if let Err(t) = transition_path(&mut self.state, &path) {
                return Err(CableDeskError::Transition(t));
            }
        } else if current != ConnectionState::Streaming {
            let name = chars_of(current.name());
            return Err(
                CableDeskError::Config(concat_str("cannot start mock stream from ", &name)),
            );
        }
        self.mock_stream_active = true;
        Ok("Mock stream started (no Sunshine/Moonlight).".to_owned())
    }

    fn ensure_direct_interface(&self) -> (r: Result<(), CableDeskError>)
        ensures
            has_direct_interface(self@) ==> r is Ok,
            !has_direct_interface(self@) ==> r matches Err(CableDeskError::NoDirectCableConnection),
    {
        match (&self.interface_name, &self.interface_driver) {
            (Some(_), Some(driver)) => {
                if classify_from_driver_name(driver.as_str()).is_direct_cable() {
                    Ok(())
                } else {
                    Err(CableDeskError::NoDirectCableConnection)
                }
            },
            _ => Err(CableDeskError::NoDirectCableConnection),
        }
    }

    fn invalidate_session_on_cable_loss(&mut self) -> (r: Result<String, CableDeskError>)
        ensures
            (final(self)@, outcome_view(r)) == cable_loss(old(self)@),
    {
        self.cable_inserted = false;
        self.interface_name = None;
        self.interface_driver = None;
        self.peer = None;
        self.mock_stream_active = false;
        let current = self.state.current();
        if current == ConnectionState::WaitingForCable {
            return Ok("Already waiting for cable.".to_owned());
        }
        let path = if current.can_transition_to(ConnectionState::WaitingForCable) {
            let p = vec![ConnectionState::WaitingForCable];
            assert(p@ =~= seq![ConnectionState::WaitingForCable]);
            p
        } else {
            let p = vec![ConnectionState::Error, ConnectionState::WaitingForCable];
            assert(p@ =~= seq![ConnectionState::Error, ConnectionState::WaitingForCable]);
            p
        };
        if let Err(t) = transition_path(&mut self.state, &path) {
                    return Err(CableDeskError::Transition(t));
                }
        Ok("Cable removed — session stopped. No Wi-Fi/Ethernet fallback.".to_owned())
    }

    /// The direct link the simulated interface provides.
    pub fn prepared_link(&self) -> (r: Result<PreparedDirectLink, CableDeskError>)
        ensures
            match (opt_view(self.interface_name), opt_view(self.interface_driver)) {
                (Some(name), Some(driver)) => if is_direct(classify_driver(driver)) {
                    r matches Ok(link) && link.interface_name@ == name && link.classification
                        == classify_driver(driver) && link.interface_index is None
                } else {
                    r matches Err(CableDeskError::NoDirectCableConnection)
                },
                _ => r matches Err(CableDeskError::NoDirectCableConnection),
            },
    {
        let name = match &self.interface_name {
            Some(n) => n.clone(),
            None => {
                return Err(CableDeskError::NoDirectCableConnection);
            },
        };
        let driver = match &self.interface_driver {
            Some(d) => d,
            None => {
                return Err(CableDeskError::NoDirectCableConnection);
            },
        };
        PreparedDirectLink::new(name, classify_from_driver_name(driver.as_str()))
    }

    /// Checks the simulated peer against the cable-only policy: discovered
    /// with direct-cable driver evidence, on the prepared link's interface.
    pub fn validate_current_peer_policy(&self) -> (r: Result<(), CableDeskError>)
        ensures
            match self@.peer {
                None => r matches Err(CableDeskError::Config(m)) && m@ == "no simulated peer"@,
                Some(p) => if !is_direct(classify_driver(p.discovered_on_driver)) {
                    r matches Err(CableDeskError::PeerNotOnDirectCable)
                } else if !has_direct_interface(self@) {
                    r matches Err(CableDeskError::NoDirectCableConnection)
                } else if self@.interface_name != Some(p.discovered_on_interface) {
                    r matches Err(CableDeskError::PeerNotOnDirectCable)
                } else {
                    r is Ok
                },
            },
    {
        let peer = match &self.peer {
            Some(p) => p,
            None => {
                return Err(CableDeskError::Config("no simulated peer".to_owned()));
            },
        };
        reject_if_discovery_not_direct_cable(
            Some(peer.discovered_on_driver.as_str()),
            peer.discovered_on_interface.as_str(),
        )?;
        let link = self.prepared_link()?;
        if peer.discovered_on_interface != link.interface_name {
            return Err(CableDeskError::PeerNotOnDirectCable);
        }
        Ok(())
    }
}

fn clone_opt(s: &Option<String>) -> (r: Option<String>)
    ensures
        opt_view(r) == opt_view(*s),
{
    match s {
        Some(v) => Some(v.clone()),
        None => None,
    }
}

fn clone_peer(p: &SimulatedPeer) -> (r: SimulatedPeer)
    ensures
        peer_view(r) == peer_view(*p),
{
    SimulatedPeer {
        address: p.address,
        discovered_on_interface: p.discovered_on_interface.clone(),
        discovered_on_driver: p.discovered_on_driver.clone(),
        trusted: p.trusted,
    }
}

/// A claim for a peer discovered over Wi-Fi.
pub fn wifi_peer_claim() -> (r: PeerClaim)
    ensures
        r.address == IpAddress::V4([192, 168, 1, 50]),
        r.discovered_on_interface@ == "wlp0s20f3"@,
        opt_view(r.discovered_on_driver) == Some("iwlwifi"@),
{
    PeerClaim {
        address: IpAddress::V4([192, 168, 1, 50]),
        discovered_on_interface: "wlp0s20f3".to_owned(),
        discovered_on_driver: Some("iwlwifi".to_owned()),
    }
}

/// Losing the cable always succeeds and always stops the session: no
/// interface, no peer, no stream, and the machine waits for a cable again.
pub proof fn lemma_cable_loss_stops_session(w: SimView, cmd: SimulateCommand)
    requires
        cmd == SimulateCommand::CableRemoved || cmd == SimulateCommand::DirectInterfaceRemoved,
    ensures
        sim_step(w, cmd).1 is Ok,
        sim_step(w, cmd).0.state.current == ConnectionState::WaitingForCable,
        !sim_step(w, cmd).0.cable_inserted,
        sim_step(w, cmd).0.interface_name is None,
        sim_step(w, cmd).0.peer is None,
        !sim_step(w, cmd).0.mock_stream_active,
{
    let cur = w.state.current;
    if cur != ConnectionState::WaitingForCable {
        crate::state::lemma_error_exits(ConnectionState::WaitingForCable);
        let m1 = StateMachineView {
            current: ConnectionState::Error,
            history: w.state.history.push(cur),
        };
        if can_transition(cur, ConnectionState::WaitingForCable) {
            let p = seq![ConnectionState::WaitingForCable];
            let mw = StateMachineView {
                current: ConnectionState::WaitingForCable,
                history: w.state.history.push(cur),
            };
            assert(p.drop_first() =~= Seq::<ConnectionState>::empty());
            assert(steps(mw, p.drop_first()) == (mw, None::<crate::state::TransitionError>));
            assert(steps(w.state, p) == steps(mw, p.drop_first()));
        } else {
            let p = seq![ConnectionState::Error, ConnectionState::WaitingForCable];
            let mw = StateMachineView {
                current: ConnectionState::WaitingForCable,
                history: m1.history.push(ConnectionState::Error),
            };
            assert(p.drop_first() =~= seq![ConnectionState::WaitingForCable]);
            assert(p.drop_first().drop_first() =~= Seq::<ConnectionState>::empty());
            assert(steps(mw, p.drop_first().drop_first()) == (
                mw,
                None::<crate::state::TransitionError>,
            ));
            assert(steps(m1, p.drop_first()) == steps(mw, p.drop_first().drop_first()));
            assert(steps(w.state, p) == steps(m1, p.drop_first()));
        }
    }
}

/// A peer advertised on Wi-Fi or ordinary Ethernet is never accepted, and
/// the attempt changes nothing.
pub proof fn lemma_non_cable_peer_rejected(w: SimView, cmd: SimulateCommand)
    requires
        cmd == SimulateCommand::PeerOnWifi || cmd == SimulateCommand::PeerOnEthernet,
    ensures
        sim_step(w, cmd).1 is Err,
        sim_step(w, cmd).0 == w,
{
}


/// The simulated world only ever takes legal transitions: whatever event is
/// applied, a history that was a legal walk stays one.
pub proof fn lemma_simulation_keeps_legal_walk(w: SimView, cmd: SimulateCommand)
    requires
        legal_walk(w.state),
    ensures
        legal_walk(sim_step(w, cmd).0.state),
{
    lemma_steps_keep_legal_walk(
        w.state,
        seq![
            ConnectionState::CableDetected,
            ConnectionState::InspectingPower,
            ConnectionState::ConfiguringLink,
        ],
    );
    lemma_steps_keep_legal_walk(
        w.state,
        seq![ConnectionState::DiscoveringPeer, ConnectionState::PairingRequired],
    );
    lemma_steps_keep_legal_walk(
        w.state,
        seq![
            ConnectionState::Pairing,
            ConnectionState::Authenticating,
            ConnectionState::PreparingHost,
        ],
    );
    lemma_steps_keep_legal_walk(
        w.state,
        seq![
            ConnectionState::StartingSunshine,
            ConnectionState::StartingViewer,
            ConnectionState::Streaming,
        ],
    );
    lemma_steps_keep_legal_walk(w.state, seq![ConnectionState::Error]);
    lemma_steps_keep_legal_walk(w.state, seq![ConnectionState::WaitingForCable]);
    lemma_steps_keep_legal_walk(
        w.state,
        seq![ConnectionState::Error, ConnectionState::WaitingForCable],
    );
}


/// Trusting marks the discovered peer trusted: whenever the step succeeds
/// the world holds the same peer (same address and discovery evidence), now
/// trusted. With a peer on a direct interface it always succeeds, and from
/// `PairingRequired` the machine moves on to `PreparingHost`.
pub proof fn lemma_trust_marks_peer(w: SimView)
    ensures
        sim_step(w, SimulateCommand::PeerTrusted).1 is Ok ==> {
            let n = sim_step(w, SimulateCommand::PeerTrusted).0;
            &&& w.peer is Some && n.peer is Some
            &&& n.peer->0.trusted
            &&& n.peer->0.address == w.peer->0.address
            &&& n.peer->0.discovered_on_interface == w.peer->0.discovered_on_interface
            &&& n.peer->0.discovered_on_driver == w.peer->0.discovered_on_driver
        },
        has_direct_interface(w) && w.peer is Some ==> sim_step(w, SimulateCommand::PeerTrusted).1 is Ok,
        has_direct_interface(w) && w.peer is Some && w.state.current
            == ConnectionState::PairingRequired ==> sim_step(w, SimulateCommand::PeerTrusted).0.state.current
            == ConnectionState::PreparingHost,
        !has_direct_interface(w) || w.peer is None ==> sim_step(w, SimulateCommand::PeerTrusted).0 == w,
{
    let t = seq![
        ConnectionState::Pairing,
        ConnectionState::Authenticating,
        ConnectionState::PreparingHost,
    ];
    if w.state.current == ConnectionState::PairingRequired {
        crate::state::lemma_transition_table(ConnectionState::PairingRequired, ConnectionState::Pairing);
        crate::state::lemma_transition_table(ConnectionState::Pairing, ConnectionState::Authenticating);
        crate::state::lemma_transition_table(ConnectionState::Authenticating, ConnectionState::PreparingHost);
        assert forall|i: int| 0 <= i < t.len() - 1 implies can_transition(#[trigger] t[i], t[i + 1]) by {
            if i == 0 {
            } else {
                assert(i == 1);
            }
        }
        crate::state::lemma_steps_chain(w.state, t);
    }
}

/// What each simulated event does, in its own terms: the controller event
/// reports both controllers; a cable needs a controller; the interface needs
/// a cable and is the simulated thunderbolt-net interface; a discovered peer
/// starts untrusted; Wi-Fi, Ethernet and identity-mismatch events never
/// succeed and change nothing; charging and discharging exclude each other;
/// a started stream is active and streaming; a failed stream is not active.
pub proof fn lemma_simulated_events(w: SimView)
    ensures
        ({
            let (n, r) = sim_step(w, SimulateCommand::Usb4Controller);
            r is Ok && n.usb4_controller && n.thunderbolt_controller
        }),
        ({
            let (n, r) = sim_step(w, SimulateCommand::CableInserted);
            &&& r is Ok <==> (w.usb4_controller || w.thunderbolt_controller)
            &&& r is Ok ==> n.cable_inserted
            &&& r is Err ==> n == w
        }),
        ({
            let (n, r) = sim_step(w, SimulateCommand::DirectInterfaceAdded);
            &&& !w.cable_inserted ==> (r == Err::<Seq<char>, ErrorView>(ErrorView::DirectInterfaceMissing) && n == w)
            &&& w.cable_inserted ==> (n.interface_name == Some("sim-thunderbolt0"@) && n.interface_driver
                == Some("thunderbolt-net"@))
            &&& w.cable_inserted && w.state.current == ConnectionState::WaitingForCable ==> (r is Ok
                && n.state.current == ConnectionState::ConfiguringLink)
        }),
        ({
            let (n, r) = sim_step(w, SimulateCommand::PeerDiscovered);
            &&& r is Ok ==> (n.peer is Some && !n.peer->0.trusted && n.peer->0.discovered_on_driver
                == "thunderbolt-net"@ && n.peer->0.discovered_on_interface == "sim-thunderbolt0"@
                && n.state.current == ConnectionState::PairingRequired)
            &&& !has_direct_interface(w) ==> n == w && r is Err
        }),
        ({
            let (n, r) = sim_step(w, SimulateCommand::IdentityMismatch);
            r == Err::<Seq<char>, ErrorView>(ErrorView::UntrustedPeerIdentity) && n == w
        }),
        ({
            let (n, r) = sim_step(w, SimulateCommand::Charging);
            r is Ok && n.charging && !n.discharging
        }),
        ({
            let (n, r) = sim_step(w, SimulateCommand::Discharging);
            r is Ok && !n.charging && n.discharging
        }),
        ({
            let (n, r) = sim_step(w, SimulateCommand::StreamStarted);
            r is Ok ==> (n.mock_stream_active && n.state.current == ConnectionState::Streaming)
        }),
        !sim_step(w, SimulateCommand::StreamFailed).0.mock_stream_active,
{
    let ti = seq![
        ConnectionState::CableDetected,
        ConnectionState::InspectingPower,
        ConnectionState::ConfiguringLink,
    ];
    if w.cable_inserted && w.state.current == ConnectionState::WaitingForCable {
        crate::state::lemma_transition_table(ConnectionState::WaitingForCable, ConnectionState::CableDetected);
        crate::state::lemma_transition_table(ConnectionState::CableDetected, ConnectionState::InspectingPower);
        crate::state::lemma_transition_table(ConnectionState::InspectingPower, ConnectionState::ConfiguringLink);
        assert forall|i: int| 0 <= i < ti.len() - 1 implies can_transition(#[trigger] ti[i], ti[i + 1]) by {
            if i == 0 {
            } else {
                assert(i == 1);
            }
        }
        crate::state::lemma_steps_chain(w.state, ti);
    }
    let tp = seq![ConnectionState::DiscoveringPeer, ConnectionState::PairingRequired];
    if steps(w.state, tp).1 is None {
        crate::state::lemma_steps_end_at_last(w.state, tp);
    }
    let ts = seq![
        ConnectionState::StartingSunshine,
        ConnectionState::StartingViewer,
        ConnectionState::Streaming,
    ];
    if steps(w.state, ts).1 is None {
        crate::state::lemma_steps_end_at_last(w.state, ts);
    }
}

} // verus!
