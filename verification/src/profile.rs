//! The NetworkManager connection settings of CableDesk's direct-link
//! profile.
//!
//! Deliberately minimal: plain `ipv4.method=link-local` only, never the
//! DHCP-first fallback mode — there is no DHCP server on a direct cable.
use crate::text::{chars_of, push_str, string_from_chars};
use vstd::prelude::*;

verus! {

/// A never-default, link-local-only NetworkManager profile pinned to one
/// specific interface name (whatever name direct-link detection found).
#[derive(Debug, Clone, PartialEq, Eq)]
pub struct DirectLinkProfile {
    pub interface_name: String,
}

/// A settings value: a string or a boolean.
#[derive(Debug, Clone, PartialEq, Eq)]
pub enum NmValue {
    Str(String),
    Bool(bool),
}

/// One `key = value` setting of a section.
#[derive(Debug, Clone, PartialEq, Eq)]
pub struct NmEntry {
    pub key: String,
    pub value: NmValue,
}

/// One settings section (`connection`, `ipv4`, ...).
#[derive(Debug, Clone, PartialEq, Eq)]
pub struct NmSection {
    pub name: String,
    pub entries: Vec<NmEntry>,
}

/// A settings value as characters or a boolean.
pub enum NmValueView {
    Str(Seq<char>),
    Bool(bool),
}

/// The view of a value.
pub open spec fn value_view(v: NmValue) -> NmValueView {
    match v {
        NmValue::Str(s) => NmValueView::Str(s@),
        NmValue::Bool(b) => NmValueView::Bool(b),
    }
}

/// The view of a section: its name and its entries in order.
pub open spec fn section_view(s: NmSection) -> (Seq<char>, Seq<(Seq<char>, NmValueView)>) {
    (s.name@, s.entries@.map_values(|e: NmEntry| (e.key@, value_view(e.value))))
}

/// The text of the profile's connection id.
pub open spec fn connection_id_text(interface_name: Seq<char>) -> Seq<char> {
    "CableDesk Direct Link ("@ + interface_name + ")"@
}

/// The settings of the profile pinned to `interface_name`.
pub open spec fn nm_settings(interface_name: Seq<char>) -> Seq<
    (Seq<char>, Seq<(Seq<char>, NmValueView)>),
> {
    seq![
        ("connection"@, seq![
            ("id"@, NmValueView::Str(connection_id_text(interface_name))),
            ("type"@, NmValueView::Str("802-3-ethernet"@)),
            ("interface-name"@, NmValueView::Str(interface_name)),
            ("autoconnect"@, NmValueView::Bool(true)),
        ]),
        ("ipv4"@, seq![
            ("method"@, NmValueView::Str("link-local"@)),
            ("never-default"@, NmValueView::Bool(true)),
        ]),
        ("ipv6"@, seq![("method"@, NmValueView::Str("disabled"@))]),
    ]
}

fn entry(key: &str, value: NmValue) -> (r: NmEntry)
    ensures
        r.key@ == key@,
        r.value == value,
{
    NmEntry { key: key.to_owned(), value }
}

fn str_value(s: &str) -> (r: NmValue)
    ensures
        value_view(r) == NmValueView::Str(s@),
{
    NmValue::Str(s.to_owned())
}

impl DirectLinkProfile {
    /// A profile pinned to `interface_name`.
    pub fn new(interface_name: String) -> (r: Self)
        ensures
            r.interface_name@ == interface_name@,
    {
        Self { interface_name }
    }

    /// `CableDesk Direct Link (<interface>)`.
    pub fn connection_id(&self) -> (r: String)
        ensures
            r@ == connection_id_text(self.interface_name@),
    {
        let mut v = chars_of("CableDesk Direct Link (");
        push_str(&mut v, self.interface_name.as_str());
        push_str(&mut v, ")");
        string_from_chars(&v)
    }

    /// The settings for `Settings.AddConnection`:
    ///
    /// - `connection.interface-name` pins the profile to this exact device;
    /// - `connection.autoconnect = true` activates it as soon as the direct
    ///   interface appears;
    /// - `ipv4.method = "link-local"` with `ipv4.never-default = true` can
    ///   supply an address but never the machine's default route;
    /// - `ipv6.method = "disabled"`.
    pub fn to_nm_settings(&self) -> (r: Vec<NmSection>)
        ensures
            r@.map_values(|s: NmSection| section_view(s)) == nm_settings(self.interface_name@),
            r@.len() == 3,
            r@[0].name@ == "connection"@ && r@[0].entries@.len() == 4,
            r@[0].entries@[0].key@ == "id"@ && value_view(r@[0].entries@[0].value)
                == NmValueView::Str("CableDesk Direct Link ("@ + self.interface_name@ + ")"@),
            r@[0].entries@[1].key@ == "type"@ && value_view(r@[0].entries@[1].value)
                == NmValueView::Str("802-3-ethernet"@),
            r@[0].entries@[2].key@ == "interface-name"@ && value_view(r@[0].entries@[2].value)
                == NmValueView::Str(self.interface_name@),
            r@[0].entries@[3].key@ == "autoconnect"@ && r@[0].entries@[3].value == NmValue::Bool(
                true,
            ),
            r@[1].name@ == "ipv4"@ && r@[1].entries@.len() == 2,
            r@[1].entries@[0].key@ == "method"@ && value_view(r@[1].entries@[0].value)
                == NmValueView::Str("link-local"@),
            r@[1].entries@[1].key@ == "never-default"@ && r@[1].entries@[1].value == NmValue::Bool(
                true,
            ),
            r@[2].name@ == "ipv6"@ && r@[2].entries@.len() == 1,
            r@[2].entries@[0].key@ == "method"@ && value_view(r@[2].entries@[0].value)
                == NmValueView::Str("disabled"@),
    {
        let mut connection: Vec<NmEntry> = Vec::new();
        connection.push(entry("id", NmValue::Str(self.connection_id())));
        connection.push(entry("type", str_value("802-3-ethernet")));
        connection.push(entry("interface-name", NmValue::Str(self.interface_name.clone())));
        connection.push(entry("autoconnect", NmValue::Bool(true)));
        let mut ipv4: Vec<NmEntry> = Vec::new();
        ipv4.push(entry("method", str_value("link-local")));
        ipv4.push(entry("never-default", NmValue::Bool(true)));
        let mut ipv6: Vec<NmEntry> = Vec::new();
        ipv6.push(entry("method", str_value("disabled")));
        let mut r: Vec<NmSection> = Vec::new();
        r.push(NmSection { name: "connection".to_owned(), entries: connection });
        r.push(NmSection { name: "ipv4".to_owned(), entries: ipv4 });
        r.push(NmSection { name: "ipv6".to_owned(), entries: ipv6 });
        assert(r@[0].entries@.map_values(|e: NmEntry| (e.key@, value_view(e.value))) =~= nm_settings(
            self.interface_name@,
        )[0].1);
        assert(r@[1].entries@.map_values(|e: NmEntry| (e.key@, value_view(e.value))) =~= nm_settings(
            self.interface_name@,
        )[1].1);
        assert(r@[2].entries@.map_values(|e: NmEntry| (e.key@, value_view(e.value))) =~= nm_settings(
            self.interface_name@,
        )[2].1);
        assert(r@.map_values(|s: NmSection| section_view(s)) =~= nm_settings(self.interface_name@));
        r
    }
}

} // verus!
