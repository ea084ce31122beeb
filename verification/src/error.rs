//! Error model shared by every CableDesk component.
//!
//! [`CableDeskError`] is what code returns internally. [`UserFacingError`] is
//! the *only* thing the interface is allowed to render directly — the raw
//! text of a [`CableDeskError`] stays in diagnostics, never in the primary
//! error surface.
use crate::state::{transition_error_text, TransitionError};
use crate::text::{chars_of, concat_str};
use vstd::prelude::*;

verus! {

/// `std::io::Error`, carried through unchanged.
#[verifier::external_type_specification]
#[verifier::external_body]
pub struct ExIoError(std::io::Error);

/// `serde_json::Error`, carried through unchanged.
#[verifier::external_type_specification]
#[verifier::external_body]
pub struct ExSerdeJsonError(serde_json::Error);

/// Everything that can go wrong inside CableDesk.
#[derive(Debug)]
pub enum CableDeskError {
    NoDirectLinkHardware,
    DirectInterfaceMissing,
    UntrustedPeerIdentity,
    LinkLost,
    NoDirectCableConnection,
    PeerNotOnDirectCable,
    NoHardwareEncoder,
    MissingDependency(String),
    Detection(String),
    Config(String),
    Transition(TransitionError),
    Io(std::io::Error),
    Serde(serde_json::Error),
}

/// `Result` with a [`CableDeskError`].
pub type Result<T> = core::result::Result<T, CableDeskError>;

impl From<TransitionError> for CableDeskError {
    fn from(e: TransitionError) -> (r: Self)
        ensures
            r == CableDeskError::Transition(e),
    {
        CableDeskError::Transition(e)
    }
}

impl vstd::std_specs::convert::FromSpecImpl<TransitionError> for CableDeskError {
    open spec fn obeys_from_spec() -> bool {
        true
    }

    open spec fn from_spec(v: TransitionError) -> CableDeskError {
        CableDeskError::Transition(v)
    }
}

impl From<std::io::Error> for CableDeskError {
    fn from(e: std::io::Error) -> (r: Self)
        ensures
            r == CableDeskError::Io(e),
    {
        CableDeskError::Io(e)
    }
}

impl vstd::std_specs::convert::FromSpecImpl<std::io::Error> for CableDeskError {
    open spec fn obeys_from_spec() -> bool {
        true
    }

    open spec fn from_spec(v: std::io::Error) -> CableDeskError {
        CableDeskError::Io(v)
    }
}

impl From<serde_json::Error> for CableDeskError {
    fn from(e: serde_json::Error) -> (r: Self)
        ensures
            r == CableDeskError::Serde(e),
    {
        CableDeskError::Serde(e)
    }
}

impl vstd::std_specs::convert::FromSpecImpl<serde_json::Error> for CableDeskError {
    open spec fn obeys_from_spec() -> bool {
        true
    }

    open spec fn from_spec(v: serde_json::Error) -> CableDeskError {
        CableDeskError::Serde(v)
    }
}

/// What an error says, with its messages as characters.
pub enum ErrorView {
    NoDirectLinkHardware,
    DirectInterfaceMissing,
    UntrustedPeerIdentity,
    LinkLost,
    NoDirectCableConnection,
    PeerNotOnDirectCable,
    NoHardwareEncoder,
    MissingDependency(Seq<char>),
    Detection(Seq<char>),
    Config(Seq<char>),
    Transition(TransitionError),
    Io,
    Serde,
}

/// The view of `e`.
pub open spec fn error_view(e: CableDeskError) -> ErrorView {
    match e {
        CableDeskError::NoDirectLinkHardware => ErrorView::NoDirectLinkHardware,
        CableDeskError::DirectInterfaceMissing => ErrorView::DirectInterfaceMissing,
        CableDeskError::UntrustedPeerIdentity => ErrorView::UntrustedPeerIdentity,
        CableDeskError::LinkLost => ErrorView::LinkLost,
        CableDeskError::NoDirectCableConnection => ErrorView::NoDirectCableConnection,
        CableDeskError::PeerNotOnDirectCable => ErrorView::PeerNotOnDirectCable,
        CableDeskError::NoHardwareEncoder => ErrorView::NoHardwareEncoder,
        CableDeskError::MissingDependency(s) => ErrorView::MissingDependency(s@),
        CableDeskError::Detection(s) => ErrorView::Detection(s@),
        CableDeskError::Config(s) => ErrorView::Config(s@),
        CableDeskError::Transition(t) => ErrorView::Transition(t),
        CableDeskError::Io(_) => ErrorView::Io,
        CableDeskError::Serde(_) => ErrorView::Serde,
    }
}

/// The text of a message-free error, as its `Display` form prints it.
pub open spec fn fixed_error_text(e: CableDeskError) -> Seq<char> {
    match e {
        CableDeskError::NoDirectLinkHardware => "no compatible direct-link hardware was detected"@,
        CableDeskError::DirectInterfaceMissing =>
            "a direct interface did not appear after cable connection"@,
        CableDeskError::UntrustedPeerIdentity =>
            "peer device identity did not match the trusted record"@,
        CableDeskError::LinkLost => "the direct cable connection was lost"@,
        CableDeskError::NoDirectCableConnection => "no direct cable connection"@,
        CableDeskError::PeerNotOnDirectCable =>
            "peer was not discovered or reachable through the direct cable interface"@,
        CableDeskError::NoHardwareEncoder => "hardware video encoding is unavailable"@,
        _ => Seq::empty(),
    }
}

impl CableDeskError {
    /// The error's `Display` text. For `Io` and `Serde` the part after the
    /// prefix is the wrapped error's own `Display` text.
    pub fn to_string(&self) -> (r: String)
        ensures
            match self {
                CableDeskError::MissingDependency(d) => r@
                    == "required platform dependency is missing: "@ + d@,
                CableDeskError::Detection(d) => r@ == "platform detection failed: "@ + d@,
                CableDeskError::Config(d) => r@ == "configuration error: "@ + d@,
                CableDeskError::Transition(t) => r@ == "state transition error: "@
                    + transition_error_text(*t),
                CableDeskError::Io(e) => exists|inner: String|
                    vstd::string::to_string_from_display_ensures::<std::io::Error>(e, inner)
                        && r@ == "I/O error: "@ + inner@,
                CableDeskError::Serde(e) => exists|inner: String|
                    vstd::string::to_string_from_display_ensures::<serde_json::Error>(e, inner)
                        && r@ == "(de)serialization error: "@ + inner@,
                _ => r@ == fixed_error_text(*self),
            },
    {
        match self {
            CableDeskError::NoDirectLinkHardware => "no compatible direct-link hardware was detected".to_owned(),
            CableDeskError::DirectInterfaceMissing => "a direct interface did not appear after cable connection".to_owned(),
            CableDeskError::UntrustedPeerIdentity => "peer device identity did not match the trusted record".to_owned(),
            CableDeskError::LinkLost => "the direct cable connection was lost".to_owned(),
            CableDeskError::NoDirectCableConnection => "no direct cable connection".to_owned(),
            CableDeskError::PeerNotOnDirectCable => "peer was not discovered or reachable through the direct cable interface".to_owned(),
            CableDeskError::NoHardwareEncoder => "hardware video encoding is unavailable".to_owned(),
            CableDeskError::MissingDependency(d) => {
                let v = chars_of(d.as_str());
                concat_str("required platform dependency is missing: ", &v)
            },
            CableDeskError::Detection(d) => {
                let v = chars_of(d.as_str());
                concat_str("platform detection failed: ", &v)
            },
            CableDeskError::Config(d) => {
                let v = chars_of(d.as_str());
                concat_str("configuration error: ", &v)
            },
            CableDeskError::Transition(t) => {
                let inner = t.to_string();
                let v = chars_of(inner.as_str());
                concat_str("state transition error: ", &v)
            },
            CableDeskError::Io(e) => {
                let inner = e.to_string();
                let v = chars_of(inner.as_str());
                concat_str("I/O error: ", &v)
            },
            CableDeskError::Serde(e) => {
                let inner = e.to_string();
                let v = chars_of(inner.as_str());
                concat_str("(de)serialization error: ", &v)
            },
        }
    }
}

/// A message CableDesk is allowed to show a user directly: a short,
/// plain-language `headline` plus an optional `detail` line. The underlying
/// [`CableDeskError`] is preserved separately for diagnostics/logs only.
#[derive(Debug, Clone, PartialEq, Eq)]
pub struct UserFacingError {
    pub headline: String,
    pub detail: Option<String>,
}

/// What a [`UserFacingError`] shows.
pub struct UserFacingView {
    pub headline: Seq<char>,
    pub detail: Option<Seq<char>>,
}

impl View for UserFacingError {
    type V = UserFacingView;

    open spec fn view(&self) -> UserFacingView {
        UserFacingView {
            headline: self.headline@,
            detail: match self.detail {
                Some(d) => Some(d@),
                None => None,
            },
        }
    }
}

/// The headline shown for `e`.
pub open spec fn user_headline(e: CableDeskError) -> Seq<char> {
    match e {
        CableDeskError::NoDirectLinkHardware =>
            "No compatible USB4 or Thunderbolt connection was detected."@,
        CableDeskError::DirectInterfaceMissing =>
            "The cable was detected, but Linux did not create a direct network interface."@,
        CableDeskError::UntrustedPeerIdentity =>
            "The connected device's security identity did not match the trusted device."@,
        CableDeskError::LinkLost => "The direct cable connection was lost."@,
        CableDeskError::NoDirectCableConnection => "No direct cable connection"@,
        CableDeskError::PeerNotOnDirectCable =>
            "Peer rejected because it was not discovered through the direct cable interface."@,
        CableDeskError::NoHardwareEncoder => "Hardware video encoding is unavailable."@,
        CableDeskError::MissingDependency(_) => "A required component is not installed."@,
        _ => "Something went wrong while setting up the direct connection."@,
    }
}

/// The detail line shown for `e`.
pub open spec fn user_detail(e: CableDeskError) -> Option<Seq<char>> {
    match e {
        CableDeskError::NoDirectLinkHardware => Some(
            "This USB-C port may support charging or display output without supporting host-to-host USB4 networking."@,
        ),
        CableDeskError::DirectInterfaceMissing => Some(
            "Check that the cable supports USB4 or Thunderbolt data."@,
        ),
        CableDeskError::UntrustedPeerIdentity => Some("The connection was blocked."@),
        CableDeskError::LinkLost => Some("CableDesk did not fall back to Wi-Fi or Ethernet."@),
        CableDeskError::NoDirectCableConnection => None,
        CableDeskError::PeerNotOnDirectCable => Some(
            "CableDesk does not connect over Wi-Fi, Ethernet, or any other route."@,
        ),
        CableDeskError::NoHardwareEncoder => Some(
            "CableDesk can try software encoding, but performance may be reduced."@,
        ),
        CableDeskError::MissingDependency(d) => Some("Missing: "@ + d@),
        _ => Some("See diagnostics for technical details."@),
    }
}

impl UserFacingError {
    /// A headline with no detail line.
    pub fn new(headline: String) -> (r: Self)
        ensures
            r@.headline == headline@,
            r@.detail is None,
    {
        Self { headline, detail: None }
    }

    /// A headline with a detail line.
    pub fn with_detail(headline: String, detail: String) -> (r: Self)
        ensures
            r@.headline == headline@,
            r@.detail == Some(detail@),
    {
        Self { headline, detail: Some(detail) }
    }

    /// The message shown to a user for `err`. Internal failures map to one
    /// generic message so no technical text reaches the primary surface.
    pub fn from(err: &CableDeskError) -> (r: Self)
        ensures
            r@.headline == user_headline(*err),
            r@.detail == user_detail(*err),
    {
        match err {
            CableDeskError::NoDirectLinkHardware => UserFacingError::with_detail(
                "No compatible USB4 or Thunderbolt connection was detected.".to_owned(),
                "This USB-C port may support charging or display output without supporting host-to-host USB4 networking.".to_owned(),
            ),
            CableDeskError::DirectInterfaceMissing => UserFacingError::with_detail(
                "The cable was detected, but Linux did not create a direct network interface.".to_owned(),
                "Check that the cable supports USB4 or Thunderbolt data.".to_owned(),
            ),
            CableDeskError::UntrustedPeerIdentity => UserFacingError::with_detail(
                "The connected device's security identity did not match the trusted device.".to_owned(),
                "The connection was blocked.".to_owned(),
            ),
            CableDeskError::LinkLost => UserFacingError::with_detail(
                "The direct cable connection was lost.".to_owned(),
                "CableDesk did not fall back to Wi-Fi or Ethernet.".to_owned(),
            ),
            CableDeskError::NoDirectCableConnection => {
                UserFacingError::new("No direct cable connection".to_owned())
            },
            CableDeskError::PeerNotOnDirectCable => UserFacingError::with_detail(
                "Peer rejected because it was not discovered through the direct cable interface.".to_owned(),
                "CableDesk does not connect over Wi-Fi, Ethernet, or any other route.".to_owned(),
            ),
            CableDeskError::NoHardwareEncoder => UserFacingError::with_detail(
                "Hardware video encoding is unavailable.".to_owned(),
                "CableDesk can try software encoding, but performance may be reduced.".to_owned(),
            ),
            CableDeskError::MissingDependency(dep) => {
                let v = chars_of(dep.as_str());
                UserFacingError::with_detail(
                    "A required component is not installed.".to_owned(),
                    concat_str("Missing: ", &v),
                )
            },
            _ => UserFacingError::with_detail(
                "Something went wrong while setting up the direct connection.".to_owned(),
                "See diagnostics for technical details.".to_owned(),
            ),
        }
    }
}

/// Internal failures (detection, configuration, transition, I/O and
/// (de)serialization errors) never show their own text: whatever they
/// carry, the user sees the same generic headline and a pointer to the
/// diagnostics.
pub proof fn lemma_internal_errors_do_not_leak(e: CableDeskError)
    requires
        e is Detection || e is Config || e is Transition || e is Io || e is Serde,
    ensures
        user_headline(e) == "Something went wrong while setting up the direct connection."@,
        user_detail(e) == Some("See diagnostics for technical details."@),
{
}

/// Every error has a non-empty headline.
pub proof fn lemma_headline_never_empty(e: CableDeskError)
    ensures
        user_headline(e).len() > 0,
{
    reveal_strlit("No compatible USB4 or Thunderbolt connection was detected.");
    reveal_strlit("The cable was detected, but Linux did not create a direct network interface.");
    reveal_strlit("The connected device's security identity did not match the trusted device.");
    reveal_strlit("The direct cable connection was lost.");
    reveal_strlit("No direct cable connection");
    reveal_strlit(
        "Peer rejected because it was not discovered through the direct cable interface.",
    );
    reveal_strlit("Hardware video encoding is unavailable.");
    reveal_strlit("A required component is not installed.");
    reveal_strlit("Something went wrong while setting up the direct connection.");
}


/// What the user is told about the cable-only policy: a missing direct cable
/// is said plainly, a lost cable says there was no fallback to Wi-Fi or
/// Ethernet, and a peer found another way is rejected as not on the direct
/// cable, with the reason that no other route is used.
pub proof fn lemma_cable_policy_messages()
    ensures
        user_headline(CableDeskError::NoDirectCableConnection) == "No direct cable connection"@,
        user_detail(CableDeskError::NoDirectCableConnection) is None,
        user_headline(CableDeskError::LinkLost) == "The direct cable connection was lost."@,
        user_detail(CableDeskError::LinkLost) == Some(
            "CableDesk did not fall back to Wi-Fi or Ethernet."@,
        ),
        user_headline(CableDeskError::PeerNotOnDirectCable)
            == "Peer rejected because it was not discovered through the direct cable interface."@,
        user_detail(CableDeskError::PeerNotOnDirectCable) == Some(
            "CableDesk does not connect over Wi-Fi, Ethernet, or any other route."@,
        ),
        user_headline(CableDeskError::NoDirectLinkHardware)
            == "No compatible USB4 or Thunderbolt connection was detected."@,
        user_headline(CableDeskError::UntrustedPeerIdentity)
            == "The connected device's security identity did not match the trusted device."@,
        user_detail(CableDeskError::UntrustedPeerIdentity) == Some("The connection was blocked."@),
{
}

} // verus!
