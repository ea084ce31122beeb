# CableDesk

CableDesk connects two Linux computers over a direct USB4 or Thunderbolt
cable. This crate is its core, written in Verus: every function in `src/`
carries a `requires`/`ensures` contract that Verus proves.

## Layout

- `src/` — the verified library.
  - `state` — the connection state machine: legal successors, validated
    transitions, the history as a legal walk, recovery to `WaitingForCable`.
  - `classify`, `peer` — the cable-only transport rule: driver and name
    classification, prepared links, peer-claim validation.
  - `service` — the `_cabledesk._tcp` record and its TXT encoding, with the
    round-trip law.
  - `profile`, `manager` — the NetworkManager connection settings and the
    direct-link hotplug tracker.
  - `fedora`, `system`, `report` — the compatibility, security and power
    checks built from what was read from the host, and the os-release parser.
  - `agent`, `helper`, `display` — the decisions of the session agent, of
    the privileged helper, and of what the interface shows.
  - `simulation` — the hardware-free simulated world used for testing the
    lifecycle end to end.
  - `config`, `device`, `error` — configuration migration, identities and
    the error model, with the user-facing messages.
  - `text` — verified string helpers shared by the modules above.
- `tests/` — tests on concrete values.
- `app/` — the programs around the library (`cabledesk agent`,
  `cabledesk helper`, `cabledesk ctl …`, `cabledesk ui`): D-Bus, netlink,
  sysfs, the terminal and GTK.
