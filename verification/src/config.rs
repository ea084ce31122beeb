//! Per-user CableDesk configuration: role selection and friendly device
//! name, stored as `device.json` under the user's configuration directory.
use crate::error::CableDeskError;
use crate::text::{chars_of, decimal, decimal_chars, push_all, push_str, string_from_chars};
use vstd::prelude::*;

verus! {

/// The current on-disk schema version. Bump this and add a migration path
/// in [`DeviceConfig::migrate`] whenever the shape changes.
pub const CURRENT_SCHEMA_VERSION: u32 = 1;

/// What a device does in a CableDesk session.
#[derive(Debug, Clone, Copy, PartialEq, Eq, Structural)]
pub enum Role {
    Controller,
    Host,
    Both,
}

/// The stored per-device configuration.
#[derive(Debug, Clone, PartialEq, Eq)]
pub struct DeviceConfig {
    pub schema_version: u32,
    pub friendly_name: String,
    pub role: Role,
    /// Whether every connection requires interactive confirmation, even
    /// from an already-trusted, auto-connect-eligible peer.
    pub require_confirmation_always: bool,
}

/// The message of a configuration written by a newer schema version.
pub open spec fn newer_schema_text(version: u32) -> Seq<char> {
    "config schema version "@ + decimal(version as nat) + " is newer than supported version "@
        + decimal(CURRENT_SCHEMA_VERSION as nat)
}

impl DeviceConfig {
    /// A configuration at the current schema version that does not force
    /// confirmation.
    pub fn new(friendly_name: String, role: Role) -> (r: Self)
        ensures
            r.schema_version == CURRENT_SCHEMA_VERSION,
            r.friendly_name@ == friendly_name@,
            r.role == role,
            !r.require_confirmation_always,
    {
        Self {
            schema_version: CURRENT_SCHEMA_VERSION,
            friendly_name,
            role,
            require_confirmation_always: false,
        }
    }

    /// Applies forward migrations to a configuration written by an older
    /// CableDesk version. A schema version newer than this build understands
    /// is refused (downgrade is not supported).
    pub fn migrate(self) -> (r: Result<Self, CableDeskError>)
        ensures
            self.schema_version <= CURRENT_SCHEMA_VERSION ==> (r matches Ok(c) && c.schema_version
                == CURRENT_SCHEMA_VERSION && c.friendly_name@ == self.friendly_name@ && c.role
                == self.role && c.require_confirmation_always == self.require_confirmation_always),
            self.schema_version > CURRENT_SCHEMA_VERSION ==> (r matches Err(
                CableDeskError::Config(m),
            ) && m@ == newer_schema_text(self.schema_version)),
    {
        let mut this = self;
        if this.schema_version > CURRENT_SCHEMA_VERSION {
            let mut v = chars_of("config schema version ");
            let found = decimal_chars(this.schema_version as u64);
            push_all(&mut v, &found);
            push_str(&mut v, " is newer than supported version ");
            let supported = decimal_chars(CURRENT_SCHEMA_VERSION as u64);
            push_all(&mut v, &supported);
            return Err(CableDeskError::Config(string_from_chars(&v)));
        }
        // No migrations exist yet; schema_version 1 is the only version.
        this.schema_version = CURRENT_SCHEMA_VERSION;
        Ok(this)
    }
}

} // verus!
