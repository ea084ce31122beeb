//! Direct-link hotplug tracking: NetworkManager device events filtered down
//! to the direct-link interface.
//!
//! A `DeviceRemoved` object path is often no longer queryable by the time
//! it arrives, so the interface name is remembered when the device appears
//! and looked up again (not re-queried) when it goes away.
use crate::fedora::is_direct_link_driver;
use crate::text::{contains, opt_view};
use vstd::prelude::*;

verus! {

/// The direct-link interface appearing or disappearing.
#[derive(Debug, Clone, PartialEq, Eq)]
pub enum DirectLinkEvent {
    Appeared { interface_name: String },
    Disappeared { interface_name: String },
}

/// The interface name a NetworkManager device contributes to direct-link
/// tracking: its name (when it could be read) if its driver (when it could
/// be read) mentions `thunderbolt`, else nothing.
pub fn direct_link_interface(driver: Option<&str>, interface: Option<String>) -> (r: Option<
    String,
>)
    ensures
        match driver {
            Some(d) => if contains(d@, "thunderbolt"@) {
                opt_view(r) == opt_view(interface)
            } else {
                r is None
            },
            None => r is None,
        },
{
    match driver {
        Some(d) => if is_direct_link_driver(d) {
            interface
        } else {
            None
        },
        None => None,
    }
}

/// The direct-link devices seen so far: device object path to interface name.
#[derive(Debug, Clone)]
struct KnownDevices {
    known: Vec<(String, String)>,
}

/// The paths of `es` are pairwise distinct.
pub open spec fn distinct_paths(es: Seq<(Seq<char>, Seq<char>)>) -> bool {
    forall|i: int, j: int| 0 <= i < j < es.len() ==> es[i].0 != es[j].0
}

/// The map a list of distinct `(path, name)` pairs denotes.
pub open spec fn pairs_map(es: Seq<(Seq<char>, Seq<char>)>) -> Map<Seq<char>, Seq<char>>
    decreases es.len(),
{
    if es.len() == 0 {
        Map::empty()
    } else {
        pairs_map(es.drop_last()).insert(es.last().0, es.last().1)
    }
}

impl KnownDevices {
    /// The tracked pairs, in order.
    spec fn pairs(&self) -> Seq<(Seq<char>, Seq<char>)> {
        self.known@.map_values(|e: (String, String)| (e.0@, e.1@))
    }

    /// Well-formed: each path is tracked once.
    spec fn wf(&self) -> bool {
        distinct_paths(self.pairs())
    }
}

impl View for KnownDevices {
    type V = Map<Seq<char>, Seq<char>>;

    closed spec fn view(&self) -> Map<Seq<char>, Seq<char>> {
        pairs_map(self.pairs())
    }
}

proof fn lemma_pairs_map_contains(es: Seq<(Seq<char>, Seq<char>)>, k: Seq<char>)
    requires
        distinct_paths(es),
    ensures
        pairs_map(es).contains_key(k) <==> exists|i: int| 0 <= i < es.len() && es[i].0 == k,
        forall|i: int| 0 <= i < es.len() && #[trigger] es[i].0 == k ==> pairs_map(es)[k] == es[i].1,
    decreases es.len(),
{
    if es.len() > 0 {
        let t = es.drop_last();
        assert(distinct_paths(t));
        lemma_pairs_map_contains(t, k);
        if pairs_map(es).contains_key(k) && es.last().0 != k {
            let i = choose|i: int| 0 <= i < t.len() && t[i].0 == k;
            assert(es[i].0 == k);
        }
        assert forall|i: int| 0 <= i < es.len() && #[trigger] es[i].0 == k implies pairs_map(es)[k]
            == es[i].1 by {
            if i < es.len() - 1 {
                assert(t[i] == es[i]);
                assert(es.last().0 != k);
            }
        }
        if exists|i: int| 0 <= i < es.len() && es[i].0 == k {
            let i = choose|i: int| 0 <= i < es.len() && es[i].0 == k;
            if i < es.len() - 1 {
                assert(t[i] == es[i]);
            }
        }
    }
}

proof fn lemma_pairs_map_remove(es: Seq<(Seq<char>, Seq<char>)>, i: int)
    requires
        distinct_paths(es),
        0 <= i < es.len(),
    ensures
        pairs_map(es.remove(i)) == pairs_map(es).remove(es[i].0),
        distinct_paths(es.remove(i)),
    decreases es.len(),
{
    let r = es.remove(i);
    assert(distinct_paths(r)) by {
        assert forall|a: int, b: int| 0 <= a < b < r.len() implies r[a].0 != r[b].0 by {
            let a2 = if a < i { a } else { a + 1 };
            let b2 = if b < i { b } else { b + 1 };
            assert(r[a] == es[a2]);
            assert(r[b] == es[b2]);
        }
    }
    let k = es[i].0;
    lemma_pairs_map_contains(es, k);
    lemma_pairs_map_contains(r, k);
    assert forall|q: Seq<char>| #[trigger] pairs_map(r).contains_key(q) <==> pairs_map(
        es,
    ).remove(k).contains_key(q) by {
        lemma_pairs_map_contains(es, q);
        lemma_pairs_map_contains(r, q);
        if exists|j: int| 0 <= j < es.len() && es[j].0 == q && q != k {
            let j = choose|j: int| 0 <= j < es.len() && es[j].0 == q && q != k;
            let j2 = if j < i { j } else { j - 1 };
            assert(r[j2] == es[j]);
        }
        if exists|j: int| 0 <= j < r.len() && r[j].0 == q {
            let j = choose|j: int| 0 <= j < r.len() && r[j].0 == q;
            let j2 = if j < i { j } else { j + 1 };
            assert(r[j] == es[j2]);
        }
    }
    assert forall|q: Seq<char>| #[trigger] pairs_map(r).contains_key(q) implies pairs_map(r)[q]
        == pairs_map(es)[q] by {
        lemma_pairs_map_contains(es, q);
        lemma_pairs_map_contains(r, q);
        let j = choose|j: int| 0 <= j < r.len() && r[j].0 == q;
        let j2 = if j < i { j } else { j + 1 };
        assert(r[j] == es[j2]);
    }
    assert(pairs_map(r) =~= pairs_map(es).remove(k));
}

impl KnownDevices {
    /// Nothing tracked.
    fn new() -> (r: Self)
        ensures
            r.wf(),
            r@ == Map::<Seq<char>, Seq<char>>::empty(),
    {
        let r = KnownDevices { known: Vec::new() };
        assert(r.pairs() =~= Seq::<(Seq<char>, Seq<char>)>::empty());
        r
    }

    fn position(&self, path: &str) -> (r: Option<usize>)
        ensures
            match r {
                Some(i) => i < self.pairs().len() && self.pairs()[i as int].0 == path@,
                None => forall|j: int| 0 <= j < self.pairs().len() ==> self.pairs()[j].0 != path@,
            },
    {
        let mut i: usize = 0;
        while i < self.known.len()
            invariant
                i <= self.known@.len(),
                forall|j: int| 0 <= j < i ==> self.pairs()[j].0 != path@,
            decreases self.known@.len() - i,
        {
            if crate::text::str_eq_lit(self.known[i].0.as_str(), path) {
                return Some(i);
            }
            i = i + 1;
        }
        None
    }

    /// A device appeared at `path`. `interface` is its interface name when it
    /// is the direct link and the name could be read (`None` otherwise): the
    /// name is remembered for `path` and reported.
    fn device_added(&mut self, path: &str, interface: Option<String>) -> (r: Option<
        DirectLinkEvent,
    >)
        requires
            old(self).wf(),
        ensures
            final(self).wf(),
            match interface {
                Some(name) => {
                    &&& final(self)@ == old(self)@.insert(path@, name@)
                    &&& r matches Some(DirectLinkEvent::Appeared { interface_name }) && interface_name@
                        == name@
                },
                None => final(self)@ == old(self)@ && r is None,
            },
    {
        let name = match interface {
            Some(n) => n,
            None => {
                return None;
            },
        };
        let ghost before = self.pairs();
        proof {
            lemma_pairs_map_contains(before, path@);
        }
        let event_name = name.clone();
        match self.position(path) {
            Some(i) => {
                proof {
                    lemma_pairs_map_remove(before, i as int);
                }
                self.known.remove(i);
                assert(self.pairs() =~= before.remove(i as int));
            },
            None => {},
        }
        let ghost mid = self.pairs();
        proof {
            lemma_pairs_map_contains(mid, path@);
            if !pairs_map(before).contains_key(path@) {
                assert(pairs_map(before).remove(path@) =~= pairs_map(before));
            }
            assert(pairs_map(mid) == pairs_map(before).remove(path@));
        }
        self.known.push((path.to_owned(), name));
        let ghost after = self.pairs();
        assert(after =~= mid.push((path@, event_name@)));
        assert(after.drop_last() =~= mid);
        assert(pairs_map(after) == pairs_map(mid).insert(path@, event_name@));
        assert(self@ =~= old(self)@.insert(path@, event_name@));
        assert(distinct_paths(after)) by {
            assert forall|a: int, b: int| 0 <= a < b < after.len() implies after[a].0
                != after[b].0 by {
                if b == after.len() - 1 {
                    assert(after[a] == mid[a]);
                } else {
                    assert(after[a] == mid[a]);
                    assert(after[b] == mid[b]);
                }
            }
        }
        Some(DirectLinkEvent::Appeared { interface_name: event_name })
    }

    /// A device went away from `path`: when it was a tracked direct link, it
    /// is forgotten and its remembered interface name reported.
    fn device_removed(&mut self, path: &str) -> (r: Option<DirectLinkEvent>)
        requires
            old(self).wf(),
        ensures
            final(self).wf(),
            final(self)@ == old(self)@.remove(path@),
            old(self)@.contains_key(path@) ==> (r matches Some(
                DirectLinkEvent::Disappeared { interface_name },
            ) && interface_name@ == old(self)@[path@]),
            !old(self)@.contains_key(path@) ==> r is None,
    {
        let ghost before = self.pairs();
        proof {
            lemma_pairs_map_contains(before, path@);
        }
        match self.position(path) {
            Some(i) => {
                proof {
                    lemma_pairs_map_remove(before, i as int);
                }
                let (_, name) = self.known.remove(i);
                assert(self.pairs() =~= before.remove(i as int));
                Some(DirectLinkEvent::Disappeared { interface_name: name })
            },
            None => {
                assert(old(self)@.remove(path@) =~= old(self)@);
                None
            },
        }
    }
}


/// The direct-link devices seen so far, as a map from NetworkManager device
/// object path to the interface name seen when the device appeared.
#[derive(Debug)]
pub struct DirectLinkTracker {
    devices: KnownDevices,
}

impl DirectLinkTracker {
    /// Each device path is tracked once.
    #[verifier::type_invariant]
    spec fn tracked_once(self) -> bool {
        self.devices.wf()
    }
}

impl View for DirectLinkTracker {
    type V = Map<Seq<char>, Seq<char>>;

    closed spec fn view(&self) -> Map<Seq<char>, Seq<char>> {
        self.devices@
    }
}

impl DirectLinkTracker {
    /// Nothing tracked.
    pub fn new() -> (r: Self)
        ensures
            r@ == Map::<Seq<char>, Seq<char>>::empty(),
    {
        DirectLinkTracker { devices: KnownDevices::new() }
    }

    /// A device appeared at `path`. `interface` is its interface name when it
    /// is the direct link and the name could be read (`None` otherwise): the
    /// name is remembered for `path` and reported.
    pub fn device_added(&mut self, path: &str, interface: Option<String>) -> (r: Option<
        DirectLinkEvent,
    >)
        ensures
            match interface {
                Some(name) => {
                    &&& final(self)@ == old(self)@.insert(path@, name@)
                    &&& r matches Some(DirectLinkEvent::Appeared { interface_name }) && interface_name@
                        == name@
                },
                None => final(self)@ == old(self)@ && r is None,
            },
    {
        proof {
            use_type_invariant(&*self);
        }
        let mut devices = KnownDevices::new();
        std::mem::swap(&mut devices, &mut self.devices);
        let r = devices.device_added(path, interface);
        self.devices = devices;
        r
    }

    /// A device went away from `path`: when it was a tracked direct link, it
    /// is forgotten and its remembered interface name reported.
    pub fn device_removed(&mut self, path: &str) -> (r: Option<DirectLinkEvent>)
        ensures
            final(self)@ == old(self)@.remove(path@),
            old(self)@.contains_key(path@) ==> (r matches Some(
                DirectLinkEvent::Disappeared { interface_name },
            ) && interface_name@ == old(self)@[path@]),
            !old(self)@.contains_key(path@) ==> r is None,
    {
        proof {
            use_type_invariant(&*self);
        }
        let mut devices = KnownDevices::new();
        std::mem::swap(&mut devices, &mut self.devices);
        let r = devices.device_removed(path);
        self.devices = devices;
        r
    }
}

} // verus!
