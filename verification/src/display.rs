//! What the graphical interface shows of the agent's session snapshot: the
//! subtitles of its state, direct-interface and peer rows.
use crate::report::{SessionType, SystemInfo};
use crate::text::{opt_view, push_str, string_from_chars};
use vstd::prelude::*;

verus! {

/// The three subtitles of the session group.
#[derive(Debug, Clone, PartialEq, Eq)]
pub struct SessionRows {
    pub state: String,
    pub link: String,
    pub peer: String,
}

/// `Some` text, or `fallback`.
pub open spec fn text_or(v: Option<Seq<char>>, fallback: Seq<char>) -> Seq<char> {
    match v {
        Some(t) => t,
        None => fallback,
    }
}

/// `main`, followed by `extra` in parentheses unless `extra` is empty.
pub open spec fn with_note(main: Seq<char>, extra: Seq<char>) -> Seq<char> {
    if extra.len() == 0 {
        main
    } else {
        main + " ("@ + extra + ")"@
    }
}

/// The state row: the snapshot's state, or `Unknown`.
pub open spec fn state_row_text(state: Option<Seq<char>>) -> Seq<char> {
    text_or(state, "Unknown"@)
}

/// The direct-interface row: the interface and its driver, or that there
/// is no direct cable; an idle or unreachable agent without an interface
/// always shows the latter.
pub open spec fn link_row_text(
    state: Option<Seq<char>>,
    interface: Option<Seq<char>>,
    driver: Option<Seq<char>>,
) -> Seq<char> {
    let s = state_row_text(state);
    if (s == "WaitingForCable"@ || s == "Agent unavailable"@) && interface is None {
        "No direct cable connection"@
    } else {
        with_note(text_or(interface, "No direct cable connection"@), text_or(driver, Seq::empty()))
    }
}

/// The peer row: the validated peer's address and name, or a dash.
pub open spec fn peer_row_text(peer: Option<Seq<char>>, peer_name: Option<Seq<char>>) -> Seq<char> {
    with_note(text_or(peer, "—"@), text_or(peer_name, Seq::empty()))
}

/// A text as an optional character sequence.
pub open spec fn opt_str(v: Option<&str>) -> Option<Seq<char>> {
    match v {
        Some(t) => Some(t@),
        None => None,
    }
}

fn noted(main: &str, extra: &str) -> (r: String)
    ensures
        r@ == with_note(main@, extra@),
{
    let mut out: Vec<char> = Vec::new();
    push_str(&mut out, main);
    if extra.unicode_len() > 0 {
        push_str(&mut out, " (");
        push_str(&mut out, extra);
        push_str(&mut out, ")");
    }
    string_from_chars(&out)
}

/// The session rows for the snapshot fields `state`, `interface`, `driver`,
/// `last_peer_address` and `last_peer_name` (each `None` when absent or not
/// a string).
pub fn session_rows(
    state: Option<&str>,
    interface: Option<&str>,
    driver: Option<&str>,
    peer: Option<&str>,
    peer_name: Option<&str>,
) -> (r: SessionRows)
    ensures
        r.state@ == state_row_text(opt_str(state)),
        r.link@ == link_row_text(opt_str(state), opt_str(interface), opt_str(driver)),
        r.peer@ == peer_row_text(opt_str(peer), opt_str(peer_name)),
{
    proof {
        reveal_strlit("");
    }
    let state_text: &str = match state {
        Some(s) => s,
        None => "Unknown",
    };
    let idle = crate::text::str_eq_lit(state_text, "WaitingForCable") || crate::text::str_eq_lit(
        state_text,
        "Agent unavailable",
    );
    let link = if idle && interface.is_none() {
        "No direct cable connection".to_owned()
    } else {
        let iface_text: &str = match interface {
            Some(i) => i,
            None => "No direct cable connection",
        };
        let driver_text: &str = match driver {
            Some(d) => d,
            None => "",
        };
        noted(iface_text, driver_text)
    };
    let peer_text: &str = match peer {
        Some(p) => p,
        None => "—",
    };
    let name_text: &str = match peer_name {
        Some(n) => n,
        None => "",
    };
    SessionRows { state: state_text.to_owned(), link, peer: noted(peer_text, name_text) }
}


/// The name a session kind is shown by.
pub open spec fn session_type_text(s: SessionType) -> Seq<char> {
    match s {
        SessionType::Wayland => "Wayland"@,
        SessionType::X11 => "X11"@,
        SessionType::Unknown => "Unknown"@,
    }
}

/// The name a session kind is shown by.
pub fn session_type_name(s: SessionType) -> (r: &'static str)
    ensures
        r@ == session_type_text(s),
{
    match s {
        SessionType::Wayland => "Wayland",
        SessionType::X11 => "X11",
        SessionType::Unknown => "Unknown",
    }
}

/// The heading of the compatibility report: the distribution's name, the
/// desktop (or `unknown desktop`) and the session kind.
pub open spec fn system_headline_text(s: SystemInfo) -> Seq<char> {
    s.distro_name@ + " — "@ + text_or(opt_view(s.desktop_environment), "unknown desktop"@) + " ("@
        + session_type_text(s.session_type) + " session)"@
}

/// The heading of the compatibility report.
pub fn system_headline(s: &SystemInfo) -> (r: String)
    ensures
        r@ == system_headline_text(*s),
{
    let mut out: Vec<char> = Vec::new();
    push_str(&mut out, s.distro_name.as_str());
    push_str(&mut out, " — ");
    match &s.desktop_environment {
        Some(d) => push_str(&mut out, d.as_str()),
        None => push_str(&mut out, "unknown desktop"),
    }
    push_str(&mut out, " (");
    push_str(&mut out, session_type_name(s.session_type));
    push_str(&mut out, " session)");
    string_from_chars(&out)
}

/// The system rows of the graphical interface: the title (distribution
/// name over host name), the desktop (or `Unknown`) and the session kind.
#[derive(Debug, Clone, PartialEq, Eq)]
pub struct SystemRows {
    pub title: String,
    pub desktop: String,
    pub session: String,
}

/// The system rows for `s`.
pub fn system_rows(s: &SystemInfo) -> (r: SystemRows)
    ensures
        r.title@ == s.distro_name@ + "\n"@ + s.hostname@,
        r.desktop@ == text_or(opt_view(s.desktop_environment), "Unknown"@),
        r.session@ == session_type_text(s.session_type),
{
    let mut title: Vec<char> = Vec::new();
    push_str(&mut title, s.distro_name.as_str());
    push_str(&mut title, "\n");
    push_str(&mut title, s.hostname.as_str());
    let desktop = match &s.desktop_environment {
        Some(d) => d.clone(),
        None => "Unknown".to_owned(),
    };
    SystemRows {
        title: string_from_chars(&title),
        desktop,
        session: session_type_name(s.session_type).to_owned(),
    }
}

} // verus!
