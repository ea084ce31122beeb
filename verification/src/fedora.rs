//! The Fedora backend's read-only compatibility checks, computed from what
//! was read from sysfs, procfs, the environment and the system bus.
use crate::error::CableDeskError;
use crate::report::{
    CheckStatus, CompatibilityCheck, DependencyReport, DirectLink, PowerDeliveryStatus,
    SecurityReport,
};
use crate::text::{
    chars_of, contains, contains_lit, decimal, decimal_chars, eq_chars, find_char,
    first_token, first_token_chars, join, join_strings, opt_view, push_all, push_str, split_lines,
    split_lines_chars, str_eq_lit, string_from_chars, strings_view, trim, trim_chars,
};
use vstd::prelude::*;

verus! {

/// A check as its name, status and detail text.
pub open spec fn check_view(c: CompatibilityCheck) -> (Seq<char>, CheckStatus, Option<Seq<char>>) {
    (c.name@, c.status, opt_view(c.detail))
}

/// The views of a list of checks.
pub open spec fn checks_view(cs: Seq<CompatibilityCheck>) -> Seq<
    (Seq<char>, CheckStatus, Option<Seq<char>>),
> {
    cs.map_values(|c: CompatibilityCheck| check_view(c))
}

fn make_check(name: &str, status: CheckStatus, detail: Option<String>) -> (r: CompatibilityCheck)
    ensures
        check_view(r) == (name@, status, opt_view(detail)),
{
    CompatibilityCheck::new(name.to_owned(), status, detail)
}

fn check_with(name: &str, status: CheckStatus, detail: &str) -> (r: CompatibilityCheck)
    ensures
        check_view(r) == (name@, status, Some(detail@)),
{
    make_check(name, status, Some(detail.to_owned()))
}

/// The Fedora Workstation platform backend. Every check it performs is
/// read-only.
#[derive(Debug, Default)]
pub struct FedoraBackend;

/// The message of the not-yet-implemented direct-link preparation.
pub open spec fn prepare_unimplemented_text() -> Seq<char> {
    "prepare_direct_link is not implemented yet; the Phase 1 foundation only performs read-only compatibility checks (see docs/ROADMAP.md, Phase 2)"@
}

/// The message of the not-yet-implemented firewall policy installation.
pub open spec fn firewall_unimplemented_text() -> Seq<char> {
    "install_firewall_policy is not implemented yet; the Phase 1 foundation only performs read-only compatibility checks (see docs/ROADMAP.md, Phase 2)"@
}

impl FedoraBackend {
    /// The backend.
    pub fn new() -> (r: Self) {
        Self
    }

    /// Creating the direct-link profile is privileged and not implemented in
    /// this read-only foundation: always refused.
    pub fn prepare_direct_link(&self, _link: &DirectLink) -> (r: Result<(), CableDeskError>)
        ensures
            r matches Err(CableDeskError::Config(m)) && m@ == prepare_unimplemented_text(),
    {
        Err(CableDeskError::Config("prepare_direct_link is not implemented yet; the Phase 1 foundation only performs read-only compatibility checks (see docs/ROADMAP.md, Phase 2)".to_owned()))
    }

    /// Installing the firewall policy is privileged and not implemented in
    /// this read-only foundation: always refused.
    pub fn install_firewall_policy(&self) -> (r: Result<(), CableDeskError>)
        ensures
            r matches Err(CableDeskError::Config(m)) && m@ == firewall_unimplemented_text(),
    {
        Err(CableDeskError::Config("install_firewall_policy is not implemented yet; the Phase 1 foundation only performs read-only compatibility checks (see docs/ROADMAP.md, Phase 2)".to_owned()))
    }
}

// ---------------------------------------------------------------------------
// Direct link
// ---------------------------------------------------------------------------

/// A network interface is the direct link when its driver's name mentions
/// `thunderbolt` (the `thunderbolt-net` driver).
pub fn is_direct_link_driver(driver: &str) -> (r: bool)
    ensures
        r == contains(driver@, "thunderbolt"@),
{
    let d = chars_of(driver);
    contains_lit(&d, "thunderbolt")
}

/// The controller check, given how many entries `/sys/bus/thunderbolt/devices`
/// holds (`None` when it cannot be read).
pub open spec fn controller_check_spec(count: Option<usize>) -> (
    Seq<char>,
    CheckStatus,
    Option<Seq<char>>,
) {
    match count {
        None => (
            "USB4 or Thunderbolt controller"@,
            CheckStatus::Unsupported,
            Some("This kernel does not expose a Thunderbolt subsystem."@),
        ),
        Some(n) => if n > 0 {
            (
                "USB4 or Thunderbolt controller"@,
                CheckStatus::Available,
                Some(decimal(n as nat) + " Thunderbolt/USB4 device(s) enumerated."@),
            )
        } else {
            (
                "USB4 or Thunderbolt controller"@,
                CheckStatus::Unsupported,
                Some(
                    "No Thunderbolt/USB4 controller was detected. An ordinary USB-C port does not necessarily include USB4 or Thunderbolt support."@,
                ),
            )
        },
    }
}

/// The USB4/Thunderbolt controller check.
pub fn controller_check(count: Option<usize>) -> (r: CompatibilityCheck)
    ensures
        check_view(r) == controller_check_spec(count),
        r.name@ == "USB4 or Thunderbolt controller"@,
        (count is Some && count->0 > 0) ==> r.status == CheckStatus::Available,
        !(count is Some && count->0 > 0) ==> r.status == CheckStatus::Unsupported,
{
    match count {
        None => check_with(
            "USB4 or Thunderbolt controller",
            CheckStatus::Unsupported,
            "This kernel does not expose a Thunderbolt subsystem.",
        ),
        Some(n) => if n > 0 {
            let mut v = decimal_chars(n as u64);
            push_str(&mut v, " Thunderbolt/USB4 device(s) enumerated.");
            make_check(
                "USB4 or Thunderbolt controller",
                CheckStatus::Available,
                Some(string_from_chars(&v)),
            )
        } else {
            check_with(
                "USB4 or Thunderbolt controller",
                CheckStatus::Unsupported,
                "No Thunderbolt/USB4 controller was detected. An ordinary USB-C port does not necessarily include USB4 or Thunderbolt support.",
            )
        },
    }
}

/// Some line of the module list starts with the `thunderbolt_net` module.
pub open spec fn lists_thunderbolt_net(modules: Seq<char>) -> bool {
    exists|i: int|
        0 <= i < split_lines(modules).len() && first_token(#[trigger] split_lines(modules)[i])
            == "thunderbolt_net"@
}

/// The `thunderbolt-net` module check, given `/proc/modules` (`None` when it
/// cannot be read).
pub open spec fn module_check_spec(modules: Option<Seq<char>>) -> (
    Seq<char>,
    CheckStatus,
    Option<Seq<char>>,
) {
    match modules {
        None => (
            "thunderbolt-net module"@,
            CheckStatus::Unknown,
            Some("Could not read /proc/modules."@),
        ),
        Some(m) => if lists_thunderbolt_net(m) {
            ("thunderbolt-net module"@, CheckStatus::Available, None)
        } else {
            (
                "thunderbolt-net module"@,
                CheckStatus::NeedsSetup,
                Some(
                    "The thunderbolt-net module is not currently loaded. It is loaded automatically when a compatible peer is connected."@,
                ),
            )
        },
    }
}

/// The `thunderbolt-net` module check.
pub fn module_check(modules: Option<&str>) -> (r: CompatibilityCheck)
    ensures
        check_view(r) == module_check_spec(
            match modules {
                Some(m) => Some(m@),
                None => None,
            },
        ),
        r.name@ == "thunderbolt-net module"@,
        modules is None ==> r.status == CheckStatus::Unknown,
        (modules is Some && lists_thunderbolt_net(modules->0@)) ==> (r.status == CheckStatus::Available
            && r.detail is None),
        (modules is Some && !lists_thunderbolt_net(modules->0@)) ==> r.status
            == CheckStatus::NeedsSetup,
{
    match modules {
        None => check_with(
            "thunderbolt-net module",
            CheckStatus::Unknown,
            "Could not read /proc/modules.",
        ),
        Some(m) => {
            let cs = chars_of(m);
            let lines = split_lines_chars(&cs);
            let ghost ls = lines@.map_values(|l: Vec<char>| l@);
            let target = chars_of("thunderbolt_net");
            let mut found = false;
            let mut i: usize = 0;
            while i < lines.len()
                invariant
                    i <= lines@.len(),
                    ls == lines@.map_values(|l: Vec<char>| l@),
                    ls == split_lines(m@),
                    target@ == "thunderbolt_net"@,
                    found <==> exists|j: int| 0 <= j < i && first_token(#[trigger] ls[j])
                        == "thunderbolt_net"@,
                decreases lines@.len() - i,
            {
                let tok = first_token_chars(&lines[i]);
                assert(ls[i as int] == lines@[i as int]@);
                if eq_chars(&tok, &target) {
                    found = true;
                }
                i = i + 1;
            }
            if found {
                make_check("thunderbolt-net module", CheckStatus::Available, None)
            } else {
                check_with(
                    "thunderbolt-net module",
                    CheckStatus::NeedsSetup,
                    "The thunderbolt-net module is not currently loaded. It is loaded automatically when a compatible peer is connected.",
                )
            }
        },
    }
}

/// The direct-interface check, given the names of the interfaces whose
/// driver is the direct link (`None` when `/sys/class/net` cannot be read).
pub open spec fn direct_interface_check_spec(found: Option<Seq<Seq<char>>>) -> (
    Seq<char>,
    CheckStatus,
    Option<Seq<char>>,
) {
    match found {
        None => (
            "Direct network interface"@,
            CheckStatus::Unknown,
            Some("Could not read /sys/class/net."@),
        ),
        Some(names) => if names.len() == 0 {
            (
                "Direct network interface"@,
                CheckStatus::Unsupported,
                Some(
                    "No thunderbolt-net interface is currently present. Connect a compatible USB4 or Thunderbolt cable between two CableDesk devices to create one."@,
                ),
            )
        } else {
            (
                "Direct network interface"@,
                CheckStatus::Available,
                Some("Found: "@ + join(names, ", "@)),
            )
        },
    }
}

/// The direct-interface check.
pub fn direct_interface_check(found: Option<&Vec<String>>) -> (r: CompatibilityCheck)
    ensures
        check_view(r) == direct_interface_check_spec(
            match found {
                Some(v) => Some(strings_view(v@)),
                None => None,
            },
        ),
        r.name@ == "Direct network interface"@,
        found is None ==> r.status == CheckStatus::Unknown,
        (found is Some && found->0.len() > 0) ==> (r.status == CheckStatus::Available
            && opt_view(r.detail) == Some("Found: "@ + join(strings_view(found->0@), ", "@))),
        (found is Some && found->0.len() == 0) ==> r.status == CheckStatus::Unsupported,
{
    match found {
        None => check_with(
            "Direct network interface",
            CheckStatus::Unknown,
            "Could not read /sys/class/net.",
        ),
        Some(names) => if names.len() == 0 {
            check_with(
                "Direct network interface",
                CheckStatus::Unsupported,
                "No thunderbolt-net interface is currently present. Connect a compatible USB4 or Thunderbolt cable between two CableDesk devices to create one.",
            )
        } else {
            let mut v = chars_of("Found: ");
            let joined = join_strings(names, ", ");
            push_all(&mut v, &joined);
            make_check(
                "Direct network interface",
                CheckStatus::Available,
                Some(string_from_chars(&v)),
            )
        },
    }
}

// ---------------------------------------------------------------------------
// Dependencies
// ---------------------------------------------------------------------------

/// What was found on this host: which well-known bus names have an owner
/// (when the system bus could be reached at all), which shared libraries and
/// executables are present, and whether a PipeWire socket exists.
#[derive(Debug, Clone, Copy, PartialEq, Eq)]
pub struct DependencyProbe {
    pub system_bus: bool,
    pub network_manager: bool,
    pub avahi: bool,
    pub firewalld: bool,
    pub upower: bool,
    pub polkit: bool,
    pub gtk4: bool,
    pub libadwaita: bool,
    pub pipewire: bool,
    pub sunshine: bool,
    pub moonlight_qt: bool,
    pub moonlight: bool,
}

/// A system-service check: unknown without a bus, available when the
/// service's name has an owner, needing setup (with `hint`) otherwise.
pub open spec fn service_check_spec(
    system_bus: bool,
    name: Seq<char>,
    active: bool,
    hint: Seq<char>,
) -> (Seq<char>, CheckStatus, Option<Seq<char>>) {
    if !system_bus {
        (name, CheckStatus::Unknown, Some("could not connect to the D-Bus system bus"@))
    } else if active {
        (name, CheckStatus::Available, None)
    } else {
        (name, CheckStatus::NeedsSetup, Some(hint))
    }
}

/// A presence check: available when present, otherwise `missing` with
/// `detail`.
pub open spec fn presence_check_spec(
    name: Seq<char>,
    present: bool,
    missing: CheckStatus,
    detail: Seq<char>,
) -> (Seq<char>, CheckStatus, Option<Seq<char>>) {
    if present {
        (name, CheckStatus::Available, None)
    } else {
        (name, missing, Some(detail))
    }
}

/// The dependency checks, in report order.
pub open spec fn dependency_checks(p: DependencyProbe) -> Seq<
    (Seq<char>, CheckStatus, Option<Seq<char>>),
> {
    seq![
        service_check_spec(
            p.system_bus,
            "NetworkManager"@,
            p.network_manager,
            "NetworkManager is required to configure the direct-link interface."@,
        ),
        service_check_spec(
            p.system_bus,
            "Avahi"@,
            p.avahi,
            "avahi-daemon is required for direct-link device discovery."@,
        ),
        service_check_spec(
            p.system_bus,
            "firewalld"@,
            p.firewalld,
            "firewalld is required to scope traffic to the direct-link interface."@,
        ),
        service_check_spec(
            p.system_bus,
            "UPower"@,
            p.upower,
            "UPower is required to report battery and charging status."@,
        ),
        service_check_spec(
            p.system_bus,
            "Polkit"@,
            p.polkit,
            "polkit is required to authorise privileged helper operations."@,
        ),
        presence_check_spec(
            "GTK4"@,
            p.gtk4,
            CheckStatus::NeedsSetup,
            "libgtk-4 was not found on the linker search path."@,
        ),
        presence_check_spec(
            "libadwaita"@,
            p.libadwaita,
            CheckStatus::NeedsSetup,
            "libadwaita was not found on the linker search path."@,
        ),
        presence_check_spec(
            "PipeWire"@,
            p.pipewire,
            CheckStatus::Unknown,
            "No PipeWire session socket found for the current user session."@,
        ),
        presence_check_spec(
            "Sunshine runtime"@,
            p.sunshine,
            CheckStatus::NeedsSetup,
            "The CableDesk-managed Sunshine runtime is not yet bundled (see docs/UPSTREAM_INTEGRATION.md)."@,
        ),
        presence_check_spec(
            "Moonlight runtime"@,
            p.moonlight_qt || p.moonlight,
            CheckStatus::NeedsSetup,
            "The CableDesk-managed Moonlight runtime is not yet bundled (see docs/UPSTREAM_INTEGRATION.md)."@,
        ),
    ]
}

/// A system-service check for the service `name` on the system bus.
pub fn dbus_service_check(system_bus: bool, name: &str, active: bool, hint: &str) -> (r:
    CompatibilityCheck)
    ensures
        check_view(r) == service_check_spec(system_bus, name@, active, hint@),
        r.name@ == name@,
        !system_bus ==> r.status == CheckStatus::Unknown,
        system_bus && active ==> (r.status == CheckStatus::Available && r.detail is None),
        system_bus && !active ==> (r.status == CheckStatus::NeedsSetup && opt_view(r.detail)
            == Some(hint@)),
{
    if !system_bus {
        check_with(name, CheckStatus::Unknown, "could not connect to the D-Bus system bus")
    } else if active {
        make_check(name, CheckStatus::Available, None)
    } else {
        check_with(name, CheckStatus::NeedsSetup, hint)
    }
}

fn presence_check(name: &str, present: bool, missing: CheckStatus, detail: &str) -> (r:
    CompatibilityCheck)
    ensures
        check_view(r) == presence_check_spec(name@, present, missing, detail@),
{
    if present {
        make_check(name, CheckStatus::Available, None)
    } else {
        check_with(name, missing, detail)
    }
}

/// The dependency report for what `probe` found.
pub fn dependency_report(probe: &DependencyProbe) -> (r: DependencyReport)
    ensures
        checks_view(r.checks@) == dependency_checks(*probe),
{
    let mut checks: Vec<CompatibilityCheck> = Vec::new();
    checks.push(
        dbus_service_check(
            probe.system_bus,
            "NetworkManager",
            probe.network_manager,
            "NetworkManager is required to configure the direct-link interface.",
        ),
    );
    checks.push(
        dbus_service_check(
            probe.system_bus,
            "Avahi",
            probe.avahi,
            "avahi-daemon is required for direct-link device discovery.",
        ),
    );
    checks.push(
        dbus_service_check(
            probe.system_bus,
            "firewalld",
            probe.firewalld,
            "firewalld is required to scope traffic to the direct-link interface.",
        ),
    );
    checks.push(
        dbus_service_check(
            probe.system_bus,
            "UPower",
            probe.upower,
            "UPower is required to report battery and charging status.",
        ),
    );
    checks.push(
        dbus_service_check(
            probe.system_bus,
            "Polkit",
            probe.polkit,
            "polkit is required to authorise privileged helper operations.",
        ),
    );
    checks.push(
        presence_check(
            "GTK4",
            probe.gtk4,
            CheckStatus::NeedsSetup,
            "libgtk-4 was not found on the linker search path.",
        ),
    );
    checks.push(
        presence_check(
            "libadwaita",
            probe.libadwaita,
            CheckStatus::NeedsSetup,
            "libadwaita was not found on the linker search path.",
        ),
    );
    checks.push(
        presence_check(
            "PipeWire",
            probe.pipewire,
            CheckStatus::Unknown,
            "No PipeWire session socket found for the current user session.",
        ),
    );
    checks.push(
        presence_check(
            "Sunshine runtime",
            probe.sunshine,
            CheckStatus::NeedsSetup,
            "The CableDesk-managed Sunshine runtime is not yet bundled (see docs/UPSTREAM_INTEGRATION.md).",
        ),
    );
    checks.push(
        presence_check(
            "Moonlight runtime",
            probe.moonlight_qt || probe.moonlight,
            CheckStatus::NeedsSetup,
            "The CableDesk-managed Moonlight runtime is not yet bundled (see docs/UPSTREAM_INTEGRATION.md).",
        ),
    );
    assert(checks_view(checks@) =~= dependency_checks(*probe));
    DependencyReport { checks }
}

// ---------------------------------------------------------------------------
// Security
// ---------------------------------------------------------------------------

/// The SELinux check, given `/sys/fs/selinux/enforce` (`None` when it cannot
/// be read).
pub open spec fn selinux_check_spec(enforce: Option<Seq<char>>) -> (
    Seq<char>,
    CheckStatus,
    Option<Seq<char>>,
) {
    match enforce {
        None => (
            "SELinux"@,
            CheckStatus::Unknown,
            Some("This system does not expose /sys/fs/selinux; SELinux may not be in use."@),
        ),
        Some(c) => {
            let v = trim(c);
            if v == "1"@ {
                ("SELinux"@, CheckStatus::Available, Some("Enforcing"@))
            } else if v == "0"@ {
                (
                    "SELinux"@,
                    CheckStatus::Warning,
                    Some("Permissive. CableDesk supports this but recommends enforcing mode."@),
                )
            } else {
                ("SELinux"@, CheckStatus::Unknown, Some("Unrecognised value: "@ + v))
            }
        },
    }
}

/// The SELinux check.
pub fn selinux_check(enforce: Option<&str>) -> (r: CompatibilityCheck)
    ensures
        check_view(r) == selinux_check_spec(
            match enforce {
                Some(c) => Some(c@),
                None => None,
            },
        ),
        r.name@ == "SELinux"@,
        enforce is None ==> r.status == CheckStatus::Unknown,
        (enforce is Some && trim(enforce->0@) == "1"@) ==> r.status == CheckStatus::Available,
        (enforce is Some && trim(enforce->0@) == "0"@) ==> r.status == CheckStatus::Warning,
        (enforce is Some && trim(enforce->0@) != "1"@ && trim(enforce->0@) != "0"@) ==> r.status
            == CheckStatus::Unknown,
{
    proof {
        reveal_strlit("1");
        reveal_strlit("0");
        assert("1"@[0] != "0"@[0]);
        assert("1"@ != "0"@);
    }
    match enforce {
        None => check_with(
            "SELinux",
            CheckStatus::Unknown,
            "This system does not expose /sys/fs/selinux; SELinux may not be in use.",
        ),
        Some(c) => {
            let cs = chars_of(c);
            let v = trim_chars(&cs);
            if crate::text::eq_lit(&v, "1") {
                check_with("SELinux", CheckStatus::Available, "Enforcing")
            } else if crate::text::eq_lit(&v, "0") {
                check_with(
                    "SELinux",
                    CheckStatus::Warning,
                    "Permissive. CableDesk supports this but recommends enforcing mode.",
                )
            } else {
                let mut d = chars_of("Unrecognised value: ");
                push_all(&mut d, &v);
                make_check("SELinux", CheckStatus::Unknown, Some(string_from_chars(&d)))
            }
        },
    }
}

/// The firewalld check: unknown without a bus, available when its name has
/// an owner, needing setup otherwise.
pub open spec fn firewalld_check_spec(system_bus: bool, active: bool) -> (
    Seq<char>,
    CheckStatus,
    Option<Seq<char>>,
) {
    if !system_bus {
        ("firewalld"@, CheckStatus::Unknown, Some("could not connect to the D-Bus system bus"@))
    } else if active {
        ("firewalld"@, CheckStatus::Available, Some("Active"@))
    } else {
        (
            "firewalld"@,
            CheckStatus::NeedsSetup,
            Some(
                "firewalld is not active. CableDesk requires it to scope direct-link traffic."@,
            ),
        )
    }
}

/// The firewalld check.
pub fn firewalld_check(system_bus: bool, active: bool) -> (r: CompatibilityCheck)
    ensures
        check_view(r) == firewalld_check_spec(system_bus, active),
        r.name@ == "firewalld"@,
        !system_bus ==> r.status == CheckStatus::Unknown,
        system_bus && active ==> r.status == CheckStatus::Available,
        system_bus && !active ==> r.status == CheckStatus::NeedsSetup,
{
    if !system_bus {
        check_with("firewalld", CheckStatus::Unknown, "could not connect to the D-Bus system bus")
    } else if active {
        check_with("firewalld", CheckStatus::Available, "Active")
    } else {
        check_with(
            "firewalld",
            CheckStatus::NeedsSetup,
            "firewalld is not active. CableDesk requires it to scope direct-link traffic.",
        )
    }
}

/// The security report: the SELinux check, then the firewalld check.
pub fn security_report(enforce: Option<&str>, system_bus: bool, firewalld_active: bool) -> (r:
    SecurityReport)
    ensures
        checks_view(r.checks@) == seq![
            selinux_check_spec(
                match enforce {
                    Some(c) => Some(c@),
                    None => None,
                },
            ),
            firewalld_check_spec(system_bus, firewalld_active),
        ],
{
    let mut checks: Vec<CompatibilityCheck> = Vec::new();
    checks.push(selinux_check(enforce));
    checks.push(firewalld_check(system_bus, firewalld_active));
    assert(checks_view(checks@) =~= seq![
        selinux_check_spec(
            match enforce {
                Some(c) => Some(c@),
                None => None,
            },
        ),
        firewalld_check_spec(system_bus, firewalld_active),
    ]);
    SecurityReport { checks }
}

// ---------------------------------------------------------------------------
// Power
// ---------------------------------------------------------------------------

/// A sysfs attribute's contents, trimmed; `None` when unreadable or empty.
pub open spec fn trimmed_attribute(contents: Option<Seq<char>>) -> Option<Seq<char>> {
    match contents {
        Some(c) => if trim(c).len() > 0 {
            Some(trim(c))
        } else {
            None
        },
        None => None,
    }
}

/// A sysfs attribute's contents, trimmed; `None` when unreadable or empty.
pub fn trimmed_attribute_value(contents: Option<&str>) -> (r: Option<String>)
    ensures
        opt_view(r) == trimmed_attribute(
            match contents {
                Some(c) => Some(c@),
                None => None,
            },
        ),
{
    match contents {
        Some(c) => {
            let cs = chars_of(c);
            let t = trim_chars(&cs);
            if t.len() > 0 {
                Some(string_from_chars(&t))
            } else {
                None
            }
        },
        None => None,
    }
}

/// Entries of `/sys/class/typec` whose names hold a `-` are partner and
/// alternate-mode nodes, not ports.
pub fn is_typec_port(name: &str) -> (r: bool)
    ensures
        r == !name@.contains('-'),
{
    let cs = chars_of(name);
    match find_char(&cs, '-') {
        Some(i) => {
            assert(cs@[i as int] == '-');
            false
        },
        None => true,
    }
}

/// One USB Type-C port and what it reports.
#[derive(Debug, Clone, PartialEq, Eq)]
pub struct TypecPort {
    pub name: String,
    pub power_role: Option<String>,
    pub pd_revision: Option<String>,
}

/// The detail line of a port that reports its power role.
pub open spec fn port_line(p: TypecPort) -> Seq<char> {
    let base = p.name@ + ": "@ + p.power_role->0@;
    match p.pd_revision {
        Some(rev) => base + " (PD "@ + rev@ + ")"@,
        None => base,
    }
}

/// The detail lines of the ports that report a power role, in order.
pub open spec fn port_lines(ports: Seq<TypecPort>) -> Seq<Seq<char>>
    decreases ports.len(),
{
    if ports.len() == 0 {
        Seq::empty()
    } else if ports.last().power_role is Some {
        port_lines(ports.drop_last()).push(port_line(ports.last()))
    } else {
        port_lines(ports.drop_last())
    }
}

/// The Type-C check, given the ports found (`None` when `/sys/class/typec`
/// cannot be read).
pub open spec fn typec_check_spec(ports: Option<Seq<TypecPort>>) -> (
    Seq<char>,
    CheckStatus,
    Option<Seq<char>>,
) {
    match ports {
        None => (
            "USB-C Power Delivery reporting"@,
            CheckStatus::Unknown,
            Some("No /sys/class/typec on this kernel."@),
        ),
        Some(ps) => if ps.len() == 0 {
            (
                "USB-C Power Delivery reporting"@,
                CheckStatus::Unknown,
                Some("No USB Type-C ports were reported by the kernel."@),
            )
        } else {
            (
                "USB-C Power Delivery reporting"@,
                CheckStatus::Available,
                Some(join(port_lines(ps), "; "@)),
            )
        },
    }
}

/// The USB-C Power Delivery check.
pub fn typec_port_check(ports: Option<&Vec<TypecPort>>) -> (r: CompatibilityCheck)
    ensures
        check_view(r) == typec_check_spec(
            match ports {
                Some(v) => Some(v@),
                None => None,
            },
        ),
        r.name@ == "USB-C Power Delivery reporting"@,
        (ports is Some && ports->0.len() > 0) ==> r.status == CheckStatus::Available,
        !(ports is Some && ports->0.len() > 0) ==> r.status == CheckStatus::Unknown,
{
    match ports {
        None => check_with(
            "USB-C Power Delivery reporting",
            CheckStatus::Unknown,
            "No /sys/class/typec on this kernel.",
        ),
        Some(ps) => {
            if ps.len() == 0 {
                return check_with(
                    "USB-C Power Delivery reporting",
                    CheckStatus::Unknown,
                    "No USB Type-C ports were reported by the kernel.",
                );
            }
            let mut details: Vec<String> = Vec::new();
            let mut i: usize = 0;
            while i < ps.len()
                invariant
                    i <= ps@.len(),
                    strings_view(details@) == port_lines(ps@.take(i as int)),
                decreases ps@.len() - i,
            {
                let p = &ps[i];
                assert(ps@.take((i + 1) as int).drop_last() =~= ps@.take(i as int));
                assert(ps@.take((i + 1) as int).last() == ps@[i as int]);
                match &p.power_role {
                    Some(role) => {
                        let mut line = chars_of(p.name.as_str());
                        push_str(&mut line, ": ");
                        push_str(&mut line, role.as_str());
                        match &p.pd_revision {
                            Some(rev) => {
                                push_str(&mut line, " (PD ");
                                push_str(&mut line, rev.as_str());
                                push_str(&mut line, ")");
                            },
                            None => {},
                        }
                        let ghost before = details@;
                        details.push(string_from_chars(&line));
                        assert(strings_view(details@) =~= strings_view(before).push(line@));
                    },
                    None => {},
                }
                i = i + 1;
            }
            assert(ps@.take(ps@.len() as int) =~= ps@);
            let joined = join_strings(&details, "; ");
            make_check(
                "USB-C Power Delivery reporting",
                CheckStatus::Available,
                Some(string_from_chars(&joined)),
            )
        },
    }
}

/// A `power_supply` entry of type `Battery`.
pub fn is_battery(kind: Option<&str>) -> (r: bool)
    ensures
        r == (match kind {
            Some(k) => k@ == "Battery"@,
            None => false,
        }),
{
    match kind {
        Some(k) => str_eq_lit(k, "Battery"),
        None => false,
    }
}

/// What a battery reports (trimmed, non-empty attributes).
#[derive(Debug, Clone, PartialEq, Eq)]
pub struct BatteryReading {
    pub capacity: Option<String>,
    pub status: Option<String>,
}

/// The battery check, given whether `/sys/class/power_supply` could be read
/// and the first battery found there.
pub open spec fn battery_check_spec(readable: bool, battery: Option<BatteryReading>) -> (
    Seq<char>,
    CheckStatus,
    Option<Seq<char>>,
) {
    if !readable {
        (
            "Battery status"@,
            CheckStatus::Unknown,
            Some("No /sys/class/power_supply on this system."@),
        )
    } else {
        match battery {
            None => (
                "Battery status"@,
                CheckStatus::Unknown,
                Some("No battery present. This is expected on a desktop."@),
            ),
            Some(b) => match (b.capacity, b.status) {
                (Some(c), Some(s)) => (
                    "Battery status"@,
                    CheckStatus::Available,
                    Some(c@ + "% ("@ + s@ + ")"@),
                ),
                _ => (
                    "Battery status"@,
                    CheckStatus::Unknown,
                    Some("Battery present but capacity/status attributes were unreadable."@),
                ),
            },
        }
    }
}

/// The battery check.
pub fn battery_check(readable: bool, battery: Option<&BatteryReading>) -> (r: CompatibilityCheck)
    ensures
        check_view(r) == battery_check_spec(
            readable,
            match battery {
                Some(b) => Some(*b),
                None => None,
            },
        ),
        r.name@ == "Battery status"@,
        (readable && battery is Some && battery->0.capacity is Some && battery->0.status is Some) ==> (
        r.status == CheckStatus::Available && opt_view(r.detail) == Some(
            battery->0.capacity->0@ + "% ("@ + battery->0.status->0@ + ")"@,
        )),
        !(readable && battery is Some && battery->0.capacity is Some && battery->0.status is Some) ==> r.status
            == CheckStatus::Unknown,
{
    if !readable {
        return check_with(
            "Battery status",
            CheckStatus::Unknown,
            "No /sys/class/power_supply on this system.",
        );
    }
    match battery {
        None => check_with(
            "Battery status",
            CheckStatus::Unknown,
            "No battery present. This is expected on a desktop.",
        ),
        Some(b) => match (&b.capacity, &b.status) {
            (Some(c), Some(s)) => {
                let mut d = chars_of(c.as_str());
                push_str(&mut d, "% (");
                push_str(&mut d, s.as_str());
                push_str(&mut d, ")");
                make_check("Battery status", CheckStatus::Available, Some(string_from_chars(&d)))
            },
            _ => check_with(
                "Battery status",
                CheckStatus::Unknown,
                "Battery present but capacity/status attributes were unreadable.",
            ),
        },
    }
}

/// A mains or USB supply that reports itself online.
pub fn is_online_external_supply(kind: Option<&str>, online: Option<&str>) -> (r: bool)
    ensures
        r == ((match kind {
            Some(k) => k@ == "Mains"@ || k@ == "USB"@,
            None => false,
        }) && (match online {
            Some(o) => o@ == "1"@,
            None => false,
        })),
{
    let external = match kind {
        Some(k) => str_eq_lit(k, "Mains") || str_eq_lit(k, "USB"),
        None => false,
    };
    external && match online {
        Some(o) => str_eq_lit(o, "1"),
        None => false,
    }
}

/// The external-power check, given the names of the online sources (`None`
/// when `/sys/class/power_supply` cannot be read).
pub open spec fn external_power_check_spec(sources: Option<Seq<Seq<char>>>) -> (
    Seq<char>,
    CheckStatus,
    Option<Seq<char>>,
) {
    match sources {
        None => (
            "External power"@,
            CheckStatus::Unknown,
            Some("No /sys/class/power_supply on this system."@),
        ),
        Some(s) => if s.len() == 0 {
            (
                "External power"@,
                CheckStatus::Warning,
                Some("No external power source currently reports as online."@),
            )
        } else {
            ("External power"@, CheckStatus::Available, Some("Online: "@ + join(s, ", "@)))
        },
    }
}

/// The external-power check.
pub fn external_power_check(sources: Option<&Vec<String>>) -> (r: CompatibilityCheck)
    ensures
        check_view(r) == external_power_check_spec(
            match sources {
                Some(v) => Some(strings_view(v@)),
                None => None,
            },
        ),
        r.name@ == "External power"@,
        sources is None ==> r.status == CheckStatus::Unknown,
        (sources is Some && sources->0.len() > 0) ==> (r.status == CheckStatus::Available
            && opt_view(r.detail) == Some("Online: "@ + join(strings_view(sources->0@), ", "@))),
        (sources is Some && sources->0.len() == 0) ==> r.status == CheckStatus::Warning,
{
    match sources {
        None => check_with(
            "External power",
            CheckStatus::Unknown,
            "No /sys/class/power_supply on this system.",
        ),
        Some(s) => if s.len() == 0 {
            check_with(
                "External power",
                CheckStatus::Warning,
                "No external power source currently reports as online.",
            )
        } else {
            let mut d = chars_of("Online: ");
            let joined = join_strings(s, ", ");
            push_all(&mut d, &joined);
            make_check("External power", CheckStatus::Available, Some(string_from_chars(&d)))
        },
    }
}

/// The power report: Type-C, battery, external power, in that order.
pub fn power_report(
    typec: CompatibilityCheck,
    battery: CompatibilityCheck,
    external: CompatibilityCheck,
) -> (r: PowerDeliveryStatus)
    ensures
        r.checks@ == seq![typec, battery, external],
{
    let mut checks: Vec<CompatibilityCheck> = Vec::new();
    checks.push(typec);
    checks.push(battery);
    checks.push(external);
    assert(checks@ =~= seq![typec, battery, external]);
    PowerDeliveryStatus { checks }
}

// ---------------------------------------------------------------------------
// Rendering
// ---------------------------------------------------------------------------

/// The status marker the CLI prints before a check.
pub open spec fn status_symbol_text(s: CheckStatus) -> Seq<char> {
    match s {
        CheckStatus::Available => "[ ok ]"@,
        CheckStatus::NeedsSetup => "[setup]"@,
        CheckStatus::Warning => "[warn]"@,
        CheckStatus::Unsupported => "[ no ]"@,
        CheckStatus::Unknown => "[ ?? ]"@,
    }
}

/// The status marker the CLI prints before a check.
pub fn status_symbol(s: CheckStatus) -> (r: &'static str)
    ensures
        r@ == status_symbol_text(s),
{
    match s {
        CheckStatus::Available => "[ ok ]",
        CheckStatus::NeedsSetup => "[setup]",
        CheckStatus::Warning => "[warn]",
        CheckStatus::Unsupported => "[ no ]",
        CheckStatus::Unknown => "[ ?? ]",
    }
}

/// The icon and style class the graphical interface shows for a status.
pub open spec fn status_icon_text(s: CheckStatus) -> (Seq<char>, Seq<char>) {
    match s {
        CheckStatus::Available => ("emblem-ok-symbolic"@, "success"@),
        CheckStatus::NeedsSetup | CheckStatus::Warning => ("dialog-warning-symbolic"@, "warning"@),
        CheckStatus::Unsupported => ("dialog-error-symbolic"@, "error"@),
        CheckStatus::Unknown => ("dialog-question-symbolic"@, "dim-label"@),
    }
}

/// The icon and style class the graphical interface shows for a status.
pub fn status_icon(s: CheckStatus) -> (r: (&'static str, &'static str))
    ensures
        (r.0@, r.1@) == status_icon_text(s),
{
    match s {
        CheckStatus::Available => ("emblem-ok-symbolic", "success"),
        CheckStatus::NeedsSetup | CheckStatus::Warning => ("dialog-warning-symbolic", "warning"),
        CheckStatus::Unsupported => ("dialog-error-symbolic", "error"),
        CheckStatus::Unknown => ("dialog-question-symbolic", "dim-label"),
    }
}


/// The line the CLI prints for a check: its marker, its name and, where
/// there is one, its detail after a dash.
pub open spec fn check_line_text(c: CompatibilityCheck) -> Seq<char> {
    let head = "  "@ + status_symbol_text(c.status) + " "@ + c.name@;
    match c.detail {
        Some(d) => head + " — "@ + d@,
        None => head,
    }
}

/// The line the CLI prints for a check.
pub fn check_line(c: &CompatibilityCheck) -> (r: String)
    ensures
        r@ == check_line_text(*c),
{
    let mut out: Vec<char> = Vec::new();
    push_str(&mut out, "  ");
    push_str(&mut out, status_symbol(c.status));
    push_str(&mut out, " ");
    push_str(&mut out, c.name.as_str());
    match &c.detail {
        Some(d) => {
            push_str(&mut out, " — ");
            push_str(&mut out, d.as_str());
        },
        None => {},
    }
    string_from_chars(&out)
}

} // verus!
