//! Report shapes returned by the platform backends, shared so the
//! interface and CLI can render them without knowing which distribution
//! produced them.
use vstd::prelude::*;

verus! {

/// The status vocabulary of the compatibility check and diagnostics view.
#[derive(Debug, Clone, Copy, PartialEq, Eq, Structural)]
pub enum CheckStatus {
    Available,
    NeedsSetup,
    Warning,
    Unsupported,
    Unknown,
}

/// One named check with its status and an optional explanation.
#[derive(Debug, Clone, PartialEq, Eq)]
pub struct CompatibilityCheck {
    pub name: String,
    pub status: CheckStatus,
    pub detail: Option<String>,
}

impl CompatibilityCheck {
    /// A check named `name`.
    pub fn new(name: String, status: CheckStatus, detail: Option<String>) -> (r: Self)
        ensures
            r.name@ == name@,
            r.status == status,
            r.detail == detail,
    {
        Self { name, status, detail }
    }
}

/// The graphical session kind.
#[derive(Debug, Clone, Copy, PartialEq, Eq, Structural)]
pub enum SessionType {
    Wayland,
    X11,
    Unknown,
}

/// Distribution, desktop, session, kernel and host identification.
#[derive(Debug, Clone, PartialEq, Eq)]
pub struct SystemInfo {
    pub distro_id: String,
    pub distro_name: String,
    pub distro_version: String,
    pub desktop_environment: Option<String>,
    pub session_type: SessionType,
    pub architecture: String,
    pub kernel_version: String,
    pub hostname: String,
}

/// Presence of runtime dependencies.
#[derive(Debug, Clone, PartialEq, Eq)]
pub struct DependencyReport {
    pub checks: Vec<CompatibilityCheck>,
}

/// Mandatory-access-control and firewall posture.
#[derive(Debug, Clone, PartialEq, Eq)]
pub struct SecurityReport {
    pub checks: Vec<CompatibilityCheck>,
}

/// USB-C Power Delivery and battery status.
#[derive(Debug, Clone, PartialEq, Eq)]
pub struct PowerDeliveryStatus {
    pub checks: Vec<CompatibilityCheck>,
}

/// Configuration for a direct-link preparation call.
#[derive(Debug, Clone, PartialEq, Eq)]
pub struct DirectLink {
    pub interface_name: String,
}

/// The full sanitised diagnostics bundle.
#[derive(Debug, Clone, PartialEq, Eq)]
pub struct PlatformDiagnostics {
    pub system: SystemInfo,
    pub dependencies: DependencyReport,
    pub security: SecurityReport,
    pub power: PowerDeliveryStatus,
    pub direct_link: Vec<CompatibilityCheck>,
}

} // verus!
