//! The decisions of the privileged helper service: a mutating call is
//! authorised first and then limited to direct USB4/Thunderbolt interfaces,
//! before anything on the system is touched.
use crate::classify::{classify_evidence, is_direct, require_direct_cable_interface};
use crate::report::DirectLink;
use crate::text::{push_str, string_from_chars};
use vstd::prelude::*;

verus! {

/// The Polkit action that guards direct-link preparation.
pub const ACTION_PREPARE_DIRECT_LINK: &'static str = "org.cabledesk.helper.prepare-direct-link";

/// How the helper refuses a call, as the D-Bus error it answers with.
#[derive(Debug, Clone, PartialEq, Eq)]
pub enum HelperError {
    /// The caller was not authorised for the action.
    AccessDenied(String),
    /// The request named something the helper will not act on.
    InvalidArgs(String),
    /// The action itself failed.
    Failed(String),
}

/// The message of a refused authorisation.
pub open spec fn denied_text(action_id: Seq<char>) -> Seq<char> {
    "Polkit denied action "@ + action_id
}

/// The message of a request for an interface that is not a direct link.
pub open spec fn not_direct_text(interface_name: Seq<char>) -> Seq<char> {
    "interface `"@ + interface_name + "` is not a direct USB4/Thunderbolt link"@
}

/// The driver evidence as a character sequence.
pub open spec fn driver_view(driver: Option<&str>) -> Option<Seq<char>> {
    match driver {
        Some(d) => Some(d@),
        None => None,
    }
}

/// The answer to an authorisation check: the call goes on exactly when
/// Polkit authorised it.
pub fn authorization_outcome(authorized: bool, action_id: &str) -> (r: Result<(), HelperError>)
    ensures
        authorized ==> r is Ok,
        !authorized ==> (r matches Err(HelperError::AccessDenied(m)) && m@ == denied_text(
            action_id@,
        )),
{
    if authorized {
        Ok(())
    } else {
        let mut out: Vec<char> = Vec::new();
        push_str(&mut out, "Polkit denied action ");
        push_str(&mut out, action_id);
        Err(HelperError::AccessDenied(string_from_chars(&out)))
    }
}

/// The link to prepare for `interface_name`, or the refusal when its
/// driver evidence does not show a direct USB4/Thunderbolt interface.
pub fn vet_prepare_request(interface_name: &str, driver: Option<&str>) -> (r: Result<
    DirectLink,
    HelperError,
>)
    ensures
        is_direct(classify_evidence(interface_name@, driver_view(driver))) ==> (r matches Ok(
            link,
        ) && link.interface_name@ == interface_name@),
        !is_direct(classify_evidence(interface_name@, driver_view(driver))) ==> (r matches Err(
            HelperError::InvalidArgs(m),
        ) && m@ == not_direct_text(interface_name@)),
{
    match require_direct_cable_interface(interface_name, driver) {
        Ok(_) => Ok(DirectLink { interface_name: interface_name.to_owned() }),
        Err(_) => {
            let mut out: Vec<char> = Vec::new();
            push_str(&mut out, "interface `");
            push_str(&mut out, interface_name);
            push_str(&mut out, "` is not a direct USB4/Thunderbolt link");
            Err(HelperError::InvalidArgs(string_from_chars(&out)))
        },
    }
}

/// The whole admission of a direct-link preparation request: refused as
/// unauthorised first, then as not a direct link, else the link to prepare.
pub fn admit_prepare_request(authorized: bool, interface_name: &str, driver: Option<&str>) -> (r:
    Result<DirectLink, HelperError>)
    ensures
        !authorized ==> (r matches Err(HelperError::AccessDenied(m)) && m@ == denied_text(
            ACTION_PREPARE_DIRECT_LINK@,
        )),
        authorized && is_direct(classify_evidence(interface_name@, driver_view(driver))) ==> (
        r matches Ok(link) && link.interface_name@ == interface_name@),
        authorized && !is_direct(classify_evidence(interface_name@, driver_view(driver))) ==> (
        r matches Err(HelperError::InvalidArgs(m)) && m@ == not_direct_text(interface_name@)),
{
    match authorization_outcome(authorized, ACTION_PREPARE_DIRECT_LINK) {
        Err(e) => Err(e),
        Ok(()) => vet_prepare_request(interface_name, driver),
    }
}

} // verus!
