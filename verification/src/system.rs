//! Distribution / desktop / session identification from the contents of
//! `/etc/os-release`, `/proc` and the session's environment.
use crate::report::{SessionType, SystemInfo};
use crate::text::{
    chars_of, opt_view, slice_chars, split_lines, split_lines_chars, split_once,
    split_once_chars, starts_with, starts_with_lit, str_eq_lit, string_from_chars, trim, trim_chars,
};
use vstd::prelude::*;

verus! {

/// Key/value pairs in order of first appearance; a key occurs once.
pub type Entries = Seq<(Seq<char>, Seq<char>)>;

/// `key` occurs in `es`.
pub open spec fn has_key(es: Entries, key: Seq<char>) -> bool {
    exists|i: int| 0 <= i < es.len() && #[trigger] es[i].0 == key
}

/// The position of the first entry for `key`.
pub open spec fn key_index(es: Entries, key: Seq<char>) -> int {
    choose|i: int|
        0 <= i < es.len() && es[i].0 == key && forall|j: int| 0 <= j < i ==> es[j].0 != key
}

/// The value stored for `key`, if any.
pub open spec fn lookup(es: Entries, key: Seq<char>) -> Option<Seq<char>> {
    if has_key(es, key) {
        Some(es[key_index(es, key)].1)
    } else {
        None
    }
}

/// `es` with `key` set to `value`: replaced in place when present,
/// appended otherwise (what `HashMap::insert` keeps).
pub open spec fn assoc_insert(es: Entries, key: Seq<char>, value: Seq<char>) -> Entries {
    if has_key(es, key) {
        es.update(key_index(es, key), (key, value))
    } else {
        es.push((key, value))
    }
}

/// `s` without leading `"` characters.
pub open spec fn strip_leading_quotes(s: Seq<char>) -> Seq<char>
    decreases s.len(),
{
    if s.len() > 0 && s[0] == '"' {
        strip_leading_quotes(s.drop_first())
    } else {
        s
    }
}

/// `s` without trailing `"` characters.
pub open spec fn strip_trailing_quotes(s: Seq<char>) -> Seq<char>
    decreases s.len(),
{
    if s.len() > 0 && s.last() == '"' {
        strip_trailing_quotes(s.drop_last())
    } else {
        s
    }
}

/// `s` as `trim_matches('"')` gives it.
pub open spec fn trim_quotes(s: Seq<char>) -> Seq<char> {
    strip_trailing_quotes(strip_leading_quotes(s))
}

/// The key/value pair an os-release line sets: blank and `#` comment lines
/// and lines with no `=` set nothing; keys and values are trimmed and values
/// lose their surrounding quotes.
pub open spec fn line_entry(line: Seq<char>) -> Option<(Seq<char>, Seq<char>)> {
    let t = trim(line);
    if t.len() == 0 || starts_with(t, "#"@) {
        None
    } else {
        match split_once(t, '=') {
            Some((k, v)) => Some((trim(k), trim_quotes(trim(v)))),
            None => None,
        }
    }
}

/// `es` after reading `lines` in order.
pub open spec fn read_lines(es: Entries, lines: Seq<Seq<char>>) -> Entries
    decreases lines.len(),
{
    if lines.len() == 0 {
        es
    } else {
        let next = match line_entry(lines[0]) {
            Some((k, v)) => assoc_insert(es, k, v),
            None => es,
        };
        read_lines(next, lines.drop_first())
    }
}

/// The settings of an os-release file.
pub open spec fn os_release_entries(contents: Seq<char>) -> Entries {
    read_lines(Seq::empty(), split_lines(contents))
}

/// The parsed `KEY=VALUE` pairs of an os-release file.
#[derive(Debug, Clone)]
pub struct OsRelease {
    entries: Vec<(String, String)>,
}

impl View for OsRelease {
    type V = Entries;

    closed spec fn view(&self) -> Entries {
        self.entries@.map_values(|e: (String, String)| (e.0@, e.1@))
    }
}

proof fn lemma_key_index(es: Entries, key: Seq<char>, w: int)
    requires
        0 <= w < es.len(),
        es[w].0 == key,
    ensures
        ({
            let i = key_index(es, key);
            0 <= i < es.len() && es[i].0 == key && forall|j: int| 0 <= j < i ==> es[j].0 != key
        }),
    decreases w,
{
    if exists|j: int| 0 <= j < w && es[j].0 == key {
        let j = choose|j: int| 0 <= j < w && es[j].0 == key;
        lemma_key_index(es, key, j);
    } else {
        assert(0 <= w < es.len() && es[w].0 == key && forall|j: int|
            0 <= j < w ==> es[j].0 != key);
    }
}

impl OsRelease {
    fn new() -> (r: Self)
        ensures
            r@ == Seq::<(Seq<char>, Seq<char>)>::empty(),
    {
        let r = OsRelease { entries: Vec::new() };
        assert(r@ =~= Seq::<(Seq<char>, Seq<char>)>::empty());
        r
    }

    fn insert(&mut self, key: String, value: String)
        ensures
            final(self)@ == assoc_insert(old(self)@, key@, value@),
    {
        let ghost es = self@;
        let ghost kv = key@;
        let ghost vv = value@;
        let mut i: usize = 0;
        while i < self.entries.len()
            invariant
                i <= self.entries@.len(),
                es == self@,
                es == old(self)@,
                kv == key@,
                vv == value@,
                forall|j: int| 0 <= j < i ==> es[j].0 != key@,
            decreases self.entries@.len() - i,
        {
            if self.entries[i].0 == key {
                proof {
                    assert(es[i as int].0 == key@);
                    lemma_key_index(es, key@, i as int);
                    let k = key_index(es, key@);
                    if k > i {
                        assert(es[i as int].0 == key@);
                    }
                    assert(k == i);
                }
                let ghost raw = self.entries@;
                let pair = (key, value);
                assert(pair.0@ == kv && pair.1@ == vv);
                self.entries.set(i, pair);
                assert(self.entries@ == raw.update(i as int, pair));
                assert forall|j: int| 0 <= j < self@.len() implies #[trigger] self@[j] == es.update(
                    i as int,
                    (kv, vv),
                )[j] by {
                    if j == i {
                        assert(self.entries@[j] == pair);
                    } else {
                        assert(self.entries@[j] == raw[j]);
                    }
                }
                assert(self@ =~= es.update(i as int, (kv, vv)));
                return;
            }
            i = i + 1;
        }
        assert(!has_key(es, key@));
        self.entries.push((key, value));
        assert(self@ =~= es.push((key@, value@)));
    }

    /// The value set for `key`, if any.
    pub fn get(&self, key: &str) -> (r: Option<&String>)
        ensures
            match lookup(self@, key@) {
                Some(v) => r matches Some(s) && s@ == v,
                None => r is None,
            },
    {
        let ghost es = self@;
        let mut i: usize = 0;
        while i < self.entries.len()
            invariant
                i <= self.entries@.len(),
                es == self@,
                forall|j: int| 0 <= j < i ==> es[j].0 != key@,
            decreases self.entries@.len() - i,
        {
            if str_eq_lit(self.entries[i].0.as_str(), key) {
                proof {
                    lemma_key_index(es, key@, i as int);
                    let k = key_index(es, key@);
                    if k > i {
                        assert(es[i as int].0 == key@);
                    }
                    assert(k == i);
                }
                return Some(&self.entries[i].1);
            }
            i = i + 1;
        }
        None
    }

    /// The number of distinct keys.
    pub fn len(&self) -> (r: usize)
        ensures
            r == self@.len(),
    {
        self.entries.len()
    }
}

/// `s` without leading or trailing `"` characters.
fn trim_quotes_chars(s: &Vec<char>) -> (r: Vec<char>)
    ensures
        r@ == trim_quotes(s@),
{
    let n = s.len();
    let mut i: usize = 0;
    assert(s@.subrange(0, n as int) =~= s@);
    while i < n && s[i] == '"'
        invariant
            i <= n == s@.len(),
            forall|j: int| 0 <= j < i ==> #[trigger] s@[j] == '"',
            strip_leading_quotes(s@) == strip_leading_quotes(s@.subrange(i as int, n as int)),
        decreases n - i,
    {
        assert(s@.subrange(i as int, n as int).drop_first() =~= s@.subrange(i + 1, n as int));
        i = i + 1;
    }
    assert(strip_leading_quotes(s@.subrange(i as int, n as int)) == s@.subrange(i as int, n as int));
    let ghost mid = s@.subrange(i as int, n as int);
    let mut k: usize = n;
    while k > i && s[k - 1] == '"'
        invariant
            i <= k <= n == s@.len(),
            mid == s@.subrange(i as int, n as int),
            strip_trailing_quotes(mid) == strip_trailing_quotes(s@.subrange(i as int, k as int)),
        decreases k - i,
    {
        assert(s@.subrange(i as int, k as int).drop_last() =~= s@.subrange(i as int, k - 1));
        k = k - 1;
    }
    slice_chars(s, i, k)
}

/// Parses the `KEY=VALUE` / `KEY="VALUE"` shell-subset format of os-release.
pub fn parse_os_release(contents: &str) -> (r: OsRelease)
    ensures
        r@ == os_release_entries(contents@),
{
    let cs = chars_of(contents);
    let lines = split_lines_chars(&cs);
    let ghost ls = lines@.map_values(|l: Vec<char>| l@);
    let mut map = OsRelease::new();
    let mut i: usize = 0;
    assert(ls.skip(0) =~= ls);
    while i < lines.len()
        invariant
            i <= lines@.len(),
            ls == lines@.map_values(|l: Vec<char>| l@),
            ls == split_lines(contents@),
            os_release_entries(contents@) == read_lines(map@, ls.skip(i as int)),
        decreases lines@.len() - i,
    {
        let ghost before = map@;
        let ghost rest = ls.skip(i as int);
        assert(rest[0] == lines@[i as int]@);
        assert(rest.drop_first() =~= ls.skip(i + 1));
        let t = trim_chars(&lines[i]);
        if t.len() == 0 || starts_with_lit(&t, "#") {
        } else {
            match split_once_chars(&t, '=') {
                Some((k, v)) => {
                    let key = trim_chars(&k);
                    let tv = trim_chars(&v);
                    let value = trim_quotes_chars(&tv);
                    map.insert(string_from_chars(&key), string_from_chars(&value));
                },
                None => {},
            }
        }
        i = i + 1;
    }
    assert(ls.skip(i as int) =~= Seq::<Seq<char>>::empty());
    map
}

/// The session kind that `XDG_SESSION_TYPE` names.
pub open spec fn session_type_of(var: Option<Seq<char>>) -> SessionType {
    match var {
        Some(v) => if v == "wayland"@ {
            SessionType::Wayland
        } else if v == "x11"@ {
            SessionType::X11
        } else {
            SessionType::Unknown
        },
        None => SessionType::Unknown,
    }
}

/// The session kind for the value of `XDG_SESSION_TYPE` (`None` when unset).
pub fn session_type_from(var: Option<&str>) -> (r: SessionType)
    ensures
        r == session_type_of(
            match var {
                Some(v) => Some(v@),
                None => None,
            },
        ),
{
    match var {
        Some(v) => if str_eq_lit(v, "wayland") {
            SessionType::Wayland
        } else if str_eq_lit(v, "x11") {
            SessionType::X11
        } else {
            SessionType::Unknown
        },
        None => SessionType::Unknown,
    }
}

/// `v`, or `default` when absent.
pub open spec fn or_default(v: Option<Seq<char>>, default: Seq<char>) -> Seq<char> {
    match v {
        Some(s) => s,
        None => default,
    }
}

fn get_or(os: &OsRelease, key: &str, default: &str) -> (r: String)
    ensures
        r@ == or_default(lookup(os@, key@), default@),
{
    match os.get(key) {
        Some(v) => v.clone(),
        None => default.to_owned(),
    }
}

/// The system description from what was read: the os-release contents, the
/// desktop (`XDG_CURRENT_DESKTOP`), the session type (`XDG_SESSION_TYPE`),
/// the architecture, and the raw kernel release and host name (trimmed
/// here).
pub fn system_info_from(
    os_release: &str,
    desktop_environment: Option<String>,
    session_type: Option<&str>,
    architecture: String,
    kernel_release: &str,
    hostname: &str,
) -> (r: SystemInfo)
    ensures
        ({
            let es = os_release_entries(os_release@);
            &&& r.distro_id@ == or_default(lookup(es, "ID"@), "unknown"@)
            &&& r.distro_name@ == or_default(
                lookup(es, "PRETTY_NAME"@),
                or_default(lookup(es, "NAME"@), "Unknown Linux"@),
            )
            &&& r.distro_version@ == or_default(lookup(es, "VERSION_ID"@), "unknown"@)
        }),
        opt_view(r.desktop_environment) == opt_view(desktop_environment),
        r.session_type == session_type_of(
            match session_type {
                Some(v) => Some(v@),
                None => None,
            },
        ),
        r.architecture@ == architecture@,
        r.kernel_version@ == trim(kernel_release@),
        r.hostname@ == trim(hostname@),
{
    let os = parse_os_release(os_release);
    let distro_id = get_or(&os, "ID", "unknown");
    let distro_name = match os.get("PRETTY_NAME") {
        Some(v) => v.clone(),
        None => get_or(&os, "NAME", "Unknown Linux"),
    };
    let distro_version = get_or(&os, "VERSION_ID", "unknown");
    let kernel = chars_of(kernel_release);
    let host = chars_of(hostname);
    SystemInfo {
        distro_id,
        distro_name,
        distro_version,
        desktop_environment,
        session_type: session_type_from(session_type),
        architecture,
        kernel_version: string_from_chars(&trim_chars(&kernel)),
        hostname: string_from_chars(&trim_chars(&host)),
    }
}

/// A later setting of the same key replaces the earlier one, and every key
/// appears once: reading a line that sets `key` makes `key` hold the new
/// value whatever came before.
pub proof fn lemma_later_setting_wins(es: Entries, key: Seq<char>, value: Seq<char>)
    ensures
        lookup(assoc_insert(es, key, value), key) == Some(value),
{
    let r = assoc_insert(es, key, value);
    if has_key(es, key) {
        let i = key_index(es, key);
        assert(0 <= i < es.len() && es[i].0 == key) by {
            let w = choose|w: int| 0 <= w < es.len() && es[w].0 == key;
            lemma_key_index(es, key, w);
        }
        assert(r[i].0 == key);
        lemma_key_index(r, key, i);
        let k = key_index(r, key);
        if k < i {
            assert(r[k] == es[k]);
            lemma_key_index(es, key, i);
        }
        assert(k == i);
    } else {
        let i = es.len() as int;
        assert(r[i].0 == key);
        lemma_key_index(r, key, i);
        let k = key_index(r, key);
        if k < i {
            assert(r[k] == es[k]);
            assert(es[k].0 == key);
        }
    }
}


/// Blank and `#` comment lines set nothing: a file that starts with such a
/// line sets exactly what the rest of the file sets.
pub proof fn lemma_comment_lines_ignored(line: Seq<char>, rest: Seq<char>)
    requires
        !line.contains('\n'),
        trim(line).len() == 0 || starts_with(trim(line), "#"@),
    ensures
        os_release_entries(line + seq!['\n'] + rest) == os_release_entries(rest),
{
    let s = line + seq!['\n'] + rest;
    let ls = seq![line] + split_lines(rest);
    assert(split_lines(s) == ls) by {
        crate::text::lemma_split_once_prefix(line, '\n', rest);
        assert(rest.len() < s.len());
    }
    assert(line_entry(line) is None);
    assert(ls[0] == line);
    assert(ls.drop_first() =~= split_lines(rest));
    assert(read_lines(Seq::empty(), ls) == read_lines(Seq::empty(), ls.drop_first()));
}

} // verus!
