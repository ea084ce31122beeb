//! `_cabledesk._tcp` mDNS service record: what gets advertised, and how
//! it's encoded as DNS-SD TXT records.
//!
//! Every field here is safe to broadcast on the local link: mDNS is
//! discovery only, never authentication.
use crate::config::Role;
use crate::text::{
    chars_of, decimal, decimal_chars, eq_lit, lemma_parse_decimal, lemma_split_once_prefix,
    opt_view, parse_u32, parse_u32_chars, push_all, split_once, split_once_chars,
    str_eq_lit, string_from_chars,
};
use vstd::prelude::*;
use vstd::utf8::{decode_utf8, encode_utf8, valid_utf8};

verus! {

/// The DNS-SD service type CableDesk advertises.
pub const SERVICE_TYPE: &'static str = "_cabledesk._tcp";

/// TXT wire format version. Bump when the TXT record shape changes
/// incompatibly, so an older build can recognise a newer peer's record is
/// unparseable rather than misreading it.
pub const PROTOCOL_VERSION: u32 = 1;

/// `std::str::from_utf8`: the bytes as a string slice exactly when they
/// are well-formed UTF-8; the slice holds the characters they encode.
#[verifier::external_body]
fn utf8_str(bytes: &[u8]) -> (r: Option<&str>)
    ensures
        r is Some <==> valid_utf8(bytes@),
        r matches Some(s) ==> s@ == decode_utf8(bytes@),
{
    std::str::from_utf8(bytes).ok()
}

/// Whether a device has been paired with the observer.
#[derive(Debug, Clone, Copy, PartialEq, Eq, Structural)]
pub enum PairingState {
    Unpaired,
    Paired,
}

/// The TXT spelling of a pairing state.
pub open spec fn pairing_text(p: PairingState) -> Seq<char> {
    match p {
        PairingState::Unpaired => "unpaired"@,
        PairingState::Paired => "paired"@,
    }
}

/// The pairing state a TXT value names, if any.
pub open spec fn pairing_from_text(s: Seq<char>) -> Option<PairingState> {
    if s == "unpaired"@ {
        Some(PairingState::Unpaired)
    } else if s == "paired"@ {
        Some(PairingState::Paired)
    } else {
        None
    }
}

/// The TXT spelling of a role.
pub open spec fn role_text(r: Role) -> Seq<char> {
    match r {
        Role::Controller => "controller"@,
        Role::Host => "host"@,
        Role::Both => "both"@,
    }
}

/// The role a TXT value names, if any.
pub open spec fn role_from_text(s: Seq<char>) -> Option<Role> {
    if s == "controller"@ {
        Some(Role::Controller)
    } else if s == "host"@ {
        Some(Role::Host)
    } else if s == "both"@ {
        Some(Role::Both)
    } else {
        None
    }
}

impl PairingState {
    fn as_str(self) -> (r: &'static str)
        ensures
            r@ == pairing_text(self),
    {
        match self {
            PairingState::Unpaired => "unpaired",
            PairingState::Paired => "paired",
        }
    }

    fn from_str(s: &str) -> (r: Option<Self>)
        ensures
            r == pairing_from_text(s@),
    {
        if str_eq_lit(s, "unpaired") {
            Some(PairingState::Unpaired)
        } else if str_eq_lit(s, "paired") {
            Some(PairingState::Paired)
        } else {
            None
        }
    }
}

fn role_as_str(role: Role) -> (r: &'static str)
    ensures
        r@ == role_text(role),
{
    match role {
        Role::Controller => "controller",
        Role::Host => "host",
        Role::Both => "both",
    }
}

fn role_from_str(s: &str) -> (r: Option<Role>)
    ensures
        r == role_from_text(s@),
{
    if str_eq_lit(s, "controller") {
        Some(Role::Controller)
    } else if str_eq_lit(s, "host") {
        Some(Role::Host)
    } else if str_eq_lit(s, "both") {
        Some(Role::Both)
    } else {
        None
    }
}

/// Everything CableDesk advertises for one device on the direct-link
/// interface. Nothing here is secret.
#[derive(Debug, Clone, PartialEq, Eq)]
pub struct ServiceRecord {
    pub protocol_version: u32,
    pub device_id: String,
    pub friendly_name: String,
    pub role: Role,
    pub pairing_state: PairingState,
    pub control_port: u16,
}

/// One TXT entry `key=value`, as UTF-8 bytes.
pub open spec fn txt_entry(key: Seq<char>, value: Seq<char>) -> Seq<u8> {
    encode_utf8(key + seq!['='] + value)
}

/// The TXT entries advertised for `r`, in order.
pub open spec fn txt_records(r: ServiceRecord) -> Seq<Seq<u8>> {
    seq![
        txt_entry("protocol_version"@, decimal(r.protocol_version as nat)),
        txt_entry("device_id"@, r.device_id@),
        txt_entry("friendly_name"@, r.friendly_name@),
        txt_entry("role"@, role_text(r.role)),
        txt_entry("pairing_state"@, pairing_text(r.pairing_state)),
    ]
}

/// The fields gathered from TXT entries so far; a later entry for the same
/// key replaces an earlier one (an unparseable value clears it).
pub struct TxtFields {
    pub protocol_version: Option<u32>,
    pub device_id: Option<Seq<char>>,
    pub friendly_name: Option<Seq<char>>,
    pub role: Option<Role>,
    pub pairing_state: Option<PairingState>,
}

/// No field seen yet.
pub open spec fn no_fields() -> TxtFields {
    TxtFields {
        protocol_version: None,
        device_id: None,
        friendly_name: None,
        role: None,
        pairing_state: None,
    }
}

/// The keys CableDesk reads; any other key is ignored.
pub open spec fn is_known_key(key: Seq<char>) -> bool {
    key == "protocol_version"@ || key == "device_id"@ || key == "friendly_name"@ || key == "role"@
        || key == "pairing_state"@
}

/// `f` after reading the entry `key=value`.
pub open spec fn apply_entry(f: TxtFields, key: Seq<char>, value: Seq<char>) -> TxtFields {
    if key == "protocol_version"@ {
        TxtFields { protocol_version: parse_u32(value), ..f }
    } else if key == "device_id"@ {
        TxtFields { device_id: Some(value), ..f }
    } else if key == "friendly_name"@ {
        TxtFields { friendly_name: Some(value), ..f }
    } else if key == "role"@ {
        TxtFields { role: role_from_text(value), ..f }
    } else if key == "pairing_state"@ {
        TxtFields { pairing_state: pairing_from_text(value), ..f }
    } else {
        f
    }
}

/// A TXT entry split into key and value: well-formed UTF-8 holding an `=`,
/// split at the first one.
pub open spec fn decode_entry(entry: Seq<u8>) -> Option<(Seq<char>, Seq<char>)> {
    if valid_utf8(entry) {
        split_once(decode_utf8(entry), '=')
    } else {
        None
    }
}

/// The fields read from `entries` in order; `None` as soon as one entry is
/// not valid UTF-8 or holds no `=`.
pub open spec fn scan_entries(entries: Seq<Seq<u8>>) -> Option<TxtFields>
    decreases entries.len(),
{
    if entries.len() == 0 {
        Some(no_fields())
    } else {
        match scan_entries(entries.drop_last()) {
            None => None,
            Some(f) => match decode_entry(entries.last()) {
                None => None,
                Some((k, v)) => Some(apply_entry(f, k, v)),
            },
        }
    }
}

/// Every field was found.
pub open spec fn complete(f: TxtFields) -> bool {
    f.protocol_version is Some && f.device_id is Some && f.friendly_name is Some && f.role is Some
        && f.pairing_state is Some
}

/// `rec` carries exactly the fields `f` and the port `port`.
pub open spec fn record_from_fields(rec: ServiceRecord, f: TxtFields, port: u16) -> bool {
    &&& Some(rec.protocol_version) == f.protocol_version
    &&& Some(rec.device_id@) == f.device_id
    &&& Some(rec.friendly_name@) == f.friendly_name
    &&& Some(rec.role) == f.role
    &&& Some(rec.pairing_state) == f.pairing_state
    &&& rec.control_port == port
}

/// The fields of `rec`.
pub open spec fn fields_of(rec: ServiceRecord) -> TxtFields {
    TxtFields {
        protocol_version: Some(rec.protocol_version),
        device_id: Some(rec.device_id@),
        friendly_name: Some(rec.friendly_name@),
        role: Some(rec.role),
        pairing_state: Some(rec.pairing_state),
    }
}

/// The byte contents of a list of byte vectors.
pub open spec fn entries_view(records: Seq<Vec<u8>>) -> Seq<Seq<u8>> {
    records.map_values(|v: Vec<u8>| v@)
}

/// The bytes of the TXT entry `key=value`.
fn entry_bytes(key: &str, value: &Vec<char>) -> (r: Vec<u8>)
    ensures
        r@ == txt_entry(key@, value@),
{
    let mut v = chars_of(key);
    v.push('=');
    push_all(&mut v, value);
    assert(v@ =~= key@ + seq!['='] + value@);
    let s = string_from_chars(&v);
    let st = s.as_str();
    let bytes = st.as_bytes();
    assert(bytes@ == encode_utf8(st@));
    vstd::slice::slice_to_vec(bytes)
}

proof fn lemma_scan_none_extends(entries: Seq<Seq<u8>>, k: int)
    requires
        0 <= k <= entries.len(),
        scan_entries(entries.take(k)) is None,
    ensures
        scan_entries(entries) is None,
    decreases entries.len() - k,
{
    if k < entries.len() {
        let t = entries.take(k + 1);
        assert(t.drop_last() =~= entries.take(k));
        lemma_scan_none_extends(entries, k + 1);
    } else {
        assert(entries.take(k) =~= entries);
    }
}

impl ServiceRecord {
    /// Encodes this record as DNS-SD TXT record entries: each entry is one
    /// `key=value` byte string (RFC 6763 §6). The control port is not part of
    /// the payload; DNS-SD carries it in the SRV record.
    pub fn to_txt_records(&self) -> (r: Vec<Vec<u8>>)
        ensures
            entries_view(r@) == txt_records(*self),
    {
        let mut r: Vec<Vec<u8>> = Vec::new();
        let version = decimal_chars(self.protocol_version as u64);
        r.push(entry_bytes("protocol_version", &version));
        let id = chars_of(self.device_id.as_str());
        r.push(entry_bytes("device_id", &id));
        let name = chars_of(self.friendly_name.as_str());
        r.push(entry_bytes("friendly_name", &name));
        let role = chars_of(role_as_str(self.role));
        r.push(entry_bytes("role", &role));
        let pairing = chars_of(self.pairing_state.as_str());
        r.push(entry_bytes("pairing_state", &pairing));
        assert(entries_view(r@) =~= txt_records(*self));
        r
    }

    /// Parses TXT records back into a `ServiceRecord`, with `control_port`
    /// taken from the SRV record. Unknown keys are ignored for forward
    /// compatibility; a record that is not UTF-8 or holds no `=`, or a
    /// missing field, makes the whole parse fail.
    pub fn from_txt_records(records: &[Vec<u8>], control_port: u16) -> (r: Option<Self>)
        ensures
            ({
                match scan_entries(entries_view(records@)) {
                    Some(f) => if complete(f) {
                        r matches Some(rec) && record_from_fields(rec, f, control_port)
                    } else {
                        r is None
                    },
                    None => r is None,
                }
            }),
    {
        let ghost es = entries_view(records@);
        let mut protocol_version: Option<u32> = None;
        let mut device_id: Option<String> = None;
        let mut friendly_name: Option<String> = None;
        let mut role: Option<Role> = None;
        let mut pairing_state: Option<PairingState> = None;
        let mut i: usize = 0;
        while i < records.len()
            invariant
                i <= records@.len(),
                es == entries_view(records@),
                scan_entries(es.take(i as int)) == Some(
                    TxtFields {
                        protocol_version,
                        device_id: opt_view(device_id),
                        friendly_name: opt_view(friendly_name),
                        role,
                        pairing_state,
                    },
                ),
            decreases records@.len() - i,
        {
            let ghost prefix = es.take((i + 1) as int);
            assert(prefix.drop_last() =~= es.take(i as int));
            assert(prefix.last() == records@[i as int]@);
            let text = match utf8_str(records[i].as_slice()) {
                Some(t) => t,
                None => {
                    proof {
                        lemma_scan_none_extends(es, (i + 1) as int);
                    }
                    return None;
                },
            };
            let cs = chars_of(text);
            let (key, value) = match split_once_chars(&cs, '=') {
                Some(p) => p,
                None => {
                    proof {
                        lemma_scan_none_extends(es, (i + 1) as int);
                    }
                    return None;
                },
            };
            if eq_lit(&key, "protocol_version") {
                protocol_version = parse_u32_chars(&value);
            } else if eq_lit(&key, "device_id") {
                device_id = Some(string_from_chars(&value));
            } else if eq_lit(&key, "friendly_name") {
                friendly_name = Some(string_from_chars(&value));
            } else if eq_lit(&key, "role") {
                let v = string_from_chars(&value);
                role = role_from_str(v.as_str());
            } else if eq_lit(&key, "pairing_state") {
                let v = string_from_chars(&value);
                pairing_state = PairingState::from_str(v.as_str());
            }
            i = i + 1;
        }
        assert(es.take(records@.len() as int) =~= es);
        match (protocol_version, device_id, friendly_name, role, pairing_state) {
            (Some(protocol_version), Some(device_id), Some(friendly_name), Some(role), Some(pairing_state)) => {
                Some(
                    Self {
                        protocol_version,
                        device_id,
                        friendly_name,
                        role,
                        pairing_state,
                        control_port,
                    },
                )
            },
            _ => None,
        }
    }
}

proof fn lemma_decode_entry(key: Seq<char>, value: Seq<char>)
    requires
        !key.contains('='),
    ensures
        decode_entry(txt_entry(key, value)) == Some((key, value)),
{
    let s = key + seq!['='] + value;
    vstd::utf8::encode_utf8_valid_utf8(s);
    vstd::utf8::encode_utf8_decode_utf8(s);
    lemma_split_once_prefix(key, '=', value);
}

proof fn lemma_keys()
    ensures
        !"protocol_version"@.contains('='),
        !"device_id"@.contains('='),
        !"friendly_name"@.contains('='),
        !"role"@.contains('='),
        !"pairing_state"@.contains('='),
        "protocol_version"@ != "device_id"@,
        "protocol_version"@ != "friendly_name"@,
        "protocol_version"@ != "role"@,
        "protocol_version"@ != "pairing_state"@,
        "device_id"@ != "friendly_name"@,
        "device_id"@ != "role"@,
        "device_id"@ != "pairing_state"@,
        "friendly_name"@ != "role"@,
        "friendly_name"@ != "pairing_state"@,
        "role"@ != "pairing_state"@,
{
    reveal_strlit("protocol_version");
    reveal_strlit("device_id");
    reveal_strlit("friendly_name");
    reveal_strlit("role");
    reveal_strlit("pairing_state");
    assert("protocol_version"@.len() == 16);
    assert("device_id"@.len() == 9);
    assert("friendly_name"@.len() == 13);
    assert("role"@.len() == 4);
    assert("pairing_state"@.len() == 13);
    assert("friendly_name"@[0] != "pairing_state"@[0]);
}

proof fn lemma_value_names()
    ensures
        forall|r: Role| role_from_text(#[trigger] role_text(r)) == Some(r),
        forall|p: PairingState| pairing_from_text(#[trigger] pairing_text(p)) == Some(p),
{
    reveal_strlit("controller");
    reveal_strlit("host");
    reveal_strlit("both");
    reveal_strlit("unpaired");
    reveal_strlit("paired");
    assert("host"@[0] != "both"@[0]);
    assert("unpaired"@.len() != "paired"@.len());
    assert(pairing_from_text(pairing_text(PairingState::Paired)) == Some(PairingState::Paired));
    assert(pairing_from_text(pairing_text(PairingState::Unpaired)) == Some(
        PairingState::Unpaired,
    ));
}

proof fn lemma_scan_push(entries: Seq<Seq<u8>>, e: Seq<u8>)
    ensures
        scan_entries(entries.push(e)) == match scan_entries(entries) {
            None => None,
            Some(f) => match decode_entry(e) {
                None => None,
                Some((k, v)) => Some(apply_entry(f, k, v)),
            },
        },
{
    assert(entries.push(e).drop_last() =~= entries);
}

/// Encoding a record as TXT entries and reading them back recovers every
/// field: the entries scan without error to exactly the record's fields.
#[verifier::rlimit(60)]
pub proof fn lemma_txt_round_trip(rec: ServiceRecord)
    ensures
        scan_entries(txt_records(rec)) == Some(fields_of(rec)),
        complete(fields_of(rec)),
{
    lemma_keys();
    lemma_value_names();
    lemma_parse_decimal(rec.protocol_version);
    let v0 = decimal(rec.protocol_version as nat);
    let e0 = txt_entry("protocol_version"@, v0);
    let e1 = txt_entry("device_id"@, rec.device_id@);
    let e2 = txt_entry("friendly_name"@, rec.friendly_name@);
    let e3 = txt_entry("role"@, role_text(rec.role));
    let e4 = txt_entry("pairing_state"@, pairing_text(rec.pairing_state));
    lemma_decode_entry("protocol_version"@, v0);
    lemma_decode_entry("device_id"@, rec.device_id@);
    lemma_decode_entry("friendly_name"@, rec.friendly_name@);
    lemma_decode_entry("role"@, role_text(rec.role));
    lemma_decode_entry("pairing_state"@, pairing_text(rec.pairing_state));
    let s0 = Seq::<Seq<u8>>::empty();
    let s1 = s0.push(e0);
    let s2 = s1.push(e1);
    let s3 = s2.push(e2);
    let s4 = s3.push(e3);
    let s5 = s4.push(e4);
    assert(s5 =~= txt_records(rec));
    assert(scan_entries(s0) == Some(no_fields()));
    lemma_scan_push(s0, e0);
    let f1 = apply_entry(no_fields(), "protocol_version"@, v0);
    assert(f1.protocol_version == Some(rec.protocol_version));
    lemma_scan_push(s1, e1);
    let f2 = apply_entry(f1, "device_id"@, rec.device_id@);
    assert(f2.protocol_version == Some(rec.protocol_version));
    assert(f2.device_id == Some(rec.device_id@));
    lemma_scan_push(s2, e2);
    let f3 = apply_entry(f2, "friendly_name"@, rec.friendly_name@);
    assert(f3.friendly_name == Some(rec.friendly_name@));
    lemma_scan_push(s3, e3);
    let f4 = apply_entry(f3, "role"@, role_text(rec.role));
    assert(f4.role == Some(rec.role));
    lemma_scan_push(s4, e4);
    let f5 = apply_entry(f4, "pairing_state"@, pairing_text(rec.pairing_state));
    assert(f5.pairing_state == Some(rec.pairing_state));
    assert(f5 == fields_of(rec));
}

/// An entry with a key CableDesk does not read changes nothing: appending
/// it to any list of entries leaves the scan result as it was.
pub proof fn lemma_unknown_key_ignored(entries: Seq<Seq<u8>>, key: Seq<char>, value: Seq<char>)
    requires
        !is_known_key(key),
        !key.contains('='),
    ensures
        scan_entries(entries.push(txt_entry(key, value))) == scan_entries(entries),
{
    lemma_decode_entry(key, value);
    lemma_scan_push(entries, txt_entry(key, value));
}

/// A discovered peer, resolved to its host name, address and port.
#[derive(Debug, Clone, PartialEq, Eq)]
pub struct ResolvedService {
    pub host_name: String,
    /// String representation of the resolved address (as Avahi reports it).
    pub address: String,
    pub port: u16,
    /// `None` if the TXT records couldn't be parsed as a CableDesk
    /// [`ServiceRecord`] — a data problem, not a transport error.
    pub record: Option<ServiceRecord>,
}

impl ResolvedService {
    /// The resolved service for what Avahi's `ResolveService` reported.
    pub fn from_resolution(host_name: String, address: String, port: u16, txt: &[Vec<u8>]) -> (r:
        Self)
        ensures
            r.host_name@ == host_name@,
            r.address@ == address@,
            r.port == port,
            ({
                match scan_entries(entries_view(txt@)) {
                    Some(f) => if complete(f) {
                        r.record matches Some(rec) && record_from_fields(rec, f, port)
                    } else {
                        r.record is None
                    },
                    None => r.record is None,
                }
            }),
    {
        let record = ServiceRecord::from_txt_records(txt, port);
        ResolvedService { host_name, address, port, record }
    }
}

/// One `_cabledesk._tcp` peer observed on the network.
#[derive(Debug, Clone, PartialEq, Eq)]
pub enum DiscoveryEvent {
    /// A peer appeared; `name` is the mDNS service instance name, not yet
    /// resolved.
    PeerAppeared { name: String },
    PeerDisappeared { name: String },
}


/// The TXT record carries exactly five `key=value` entries under their
/// literal keys, in order: protocol version, device id, friendly name, role
/// and pairing state. Roles and pairing states are written under their
/// literal lowercase names and those names are read back as the same role
/// or state: a controller advertises `role=controller`, never another
/// role's name.
pub proof fn lemma_txt_spellings(rec: ServiceRecord)
    ensures
        role_text(Role::Controller) == "controller"@,
        role_text(Role::Host) == "host"@,
        role_text(Role::Both) == "both"@,
        role_from_text("controller"@) == Some(Role::Controller),
        role_from_text("host"@) == Some(Role::Host),
        role_from_text("both"@) == Some(Role::Both),
        pairing_text(PairingState::Unpaired) == "unpaired"@,
        pairing_text(PairingState::Paired) == "paired"@,
        pairing_from_text("unpaired"@) == Some(PairingState::Unpaired),
        pairing_from_text("paired"@) == Some(PairingState::Paired),
        txt_records(rec).len() == 5,
        txt_records(rec)[0] == encode_utf8(
            "protocol_version="@ + decimal(rec.protocol_version as nat),
        ),
        txt_records(rec)[1] == encode_utf8("device_id="@ + rec.device_id@),
        txt_records(rec)[2] == encode_utf8("friendly_name="@ + rec.friendly_name@),
        txt_records(rec)[3] == encode_utf8(
            "role="@ + match rec.role {
                Role::Controller => "controller"@,
                Role::Host => "host"@,
                Role::Both => "both"@,
            },
        ),
        txt_records(rec)[4] == encode_utf8(
            "pairing_state="@ + match rec.pairing_state {
                PairingState::Unpaired => "unpaired"@,
                PairingState::Paired => "paired"@,
            },
        ),
{
    reveal_strlit("controller");
    reveal_strlit("host");
    reveal_strlit("both");
    reveal_strlit("unpaired");
    reveal_strlit("paired");
    reveal_strlit("role");
    reveal_strlit("role=");
    reveal_strlit("pairing_state");
    reveal_strlit("pairing_state=");
    assert("both"@[0] != "host"@[0]);
    assert("both"@ != "host"@);
    assert("both"@ != "controller"@);
    reveal_strlit("protocol_version");
    reveal_strlit("protocol_version=");
    reveal_strlit("device_id");
    reveal_strlit("device_id=");
    reveal_strlit("friendly_name");
    reveal_strlit("friendly_name=");
    assert(("protocol_version"@ + seq!['=']) + decimal(rec.protocol_version as nat)
        =~= "protocol_version="@ + decimal(rec.protocol_version as nat));
    assert(("device_id"@ + seq!['=']) + rec.device_id@ =~= "device_id="@ + rec.device_id@);
    assert(("friendly_name"@ + seq!['=']) + rec.friendly_name@ =~= "friendly_name="@
        + rec.friendly_name@);
    assert("role"@ + seq!['='] =~= "role="@);
    assert("pairing_state"@ + seq!['='] =~= "pairing_state="@);
    assert(("role"@ + seq!['=']) + role_text(rec.role) =~= "role="@ + role_text(rec.role));
    assert(("pairing_state"@ + seq!['=']) + pairing_text(rec.pairing_state) =~= "pairing_state="@
        + pairing_text(rec.pairing_state));
}

} // verus!
