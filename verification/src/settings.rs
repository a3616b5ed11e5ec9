//! The settings that the library's logic reads: which tabs are shown, and
//! the categories of the settings dialog.
use vstd::prelude::*;
use crate::text::{chars_of, same_text, str_owned, string_views};

verus! {

/// The value that a setting missing from a saved file takes.
pub fn default_true() -> (r: bool)
    ensures
        r,
{
    true
}

/// The settings dialog's pages.
#[derive(Clone, Copy, Debug, PartialEq, Eq, Structural)]
pub enum SettingsCategory {
    General,
    Appearance,
    Fonts,
    UIScale,
    Tabs,
}

/// The tab visibility entries, as name and visibility pairs.
pub open spec fn pair_views(es: Seq<(String, bool)>) -> Seq<(Seq<char>, bool)> {
    es.map_values(|p: (String, bool)| (p.0@, p.1))
}

pub open spec fn keys_unique(es: Seq<(Seq<char>, bool)>) -> bool {
    forall|i: int, j: int| 0 <= i < j < es.len() ==> es[i].0 != es[j].0
}

/// The map that a list of entries with distinct names stands for.
pub open spec fn to_map(es: Seq<(Seq<char>, bool)>) -> Map<Seq<char>, bool>
    decreases es.len(),
{
    if es.len() == 0 {
        Map::empty()
    } else {
        to_map(es.drop_last()).insert(es.last().0, es.last().1)
    }
}

proof fn lemma_to_map_dom(es: Seq<(Seq<char>, bool)>, k: Seq<char>)
    ensures
        to_map(es).dom().contains(k) <==> exists|i: int| 0 <= i < es.len() && #[trigger] es[i].0 == k,
    decreases es.len(),
{
    if es.len() > 0 {
        lemma_to_map_dom(es.drop_last(), k);
        if to_map(es.drop_last()).dom().contains(k) {
            let i = choose|i: int| 0 <= i < es.drop_last().len() && #[trigger] es.drop_last()[i].0 == k;
            assert(es[i].0 == k);
        }
        if exists|i: int| 0 <= i < es.len() && #[trigger] es[i].0 == k {
            let i = choose|i: int| 0 <= i < es.len() && #[trigger] es[i].0 == k;
            if i < es.len() - 1 {
                assert(es.drop_last()[i].0 == k);
            }
        }
    }
}

proof fn lemma_to_map_index(es: Seq<(Seq<char>, bool)>, i: int)
    requires
        keys_unique(es),
        0 <= i < es.len(),
    ensures
        to_map(es).dom().contains(es[i].0),
        to_map(es)[es[i].0] == es[i].1,
    decreases es.len(),
{
    if i < es.len() - 1 {
        let d = es.drop_last();
        assert(keys_unique(d));
        assert(d[i] == es[i]);
        lemma_to_map_index(d, i);
        assert(es.last().0 != es[i].0);
    }
}

proof fn lemma_to_map_update(es: Seq<(Seq<char>, bool)>, i: int, v: bool)
    requires
        keys_unique(es),
        0 <= i < es.len(),
    ensures
        to_map(es.update(i, (es[i].0, v))) == to_map(es).insert(es[i].0, v),
        keys_unique(es.update(i, (es[i].0, v))),
    decreases es.len(),
{
    let u = es.update(i, (es[i].0, v));
    let k = es[i].0;
    if i == es.len() - 1 {
        assert(u.drop_last() =~= es.drop_last());
        assert(to_map(u) =~= to_map(es).insert(k, v));
    } else {
        let d = es.drop_last();
        assert(keys_unique(d));
        assert(d[i] == es[i]);
        lemma_to_map_update(d, i, v);
        assert(u.drop_last() =~= d.update(i, (d[i].0, v)));
        assert(u.last() == es.last());
        assert(es.last().0 != k);
        assert(to_map(u) =~= to_map(es).insert(k, v));
    }
}

/// Which tabs the user shows, by tab name; a tab not listed is shown.
pub struct TabVisibility {
    entries: Vec<(String, bool)>,
}

impl TabVisibility {
    #[verifier::type_invariant]
    spec fn names_unique(&self) -> bool {
        keys_unique(pair_views(self.entries@))
    }
}

impl View for TabVisibility {
    type V = Map<Seq<char>, bool>;

    closed spec fn view(&self) -> Map<Seq<char>, bool> {
        to_map(pair_views(self.entries@))
    }
}

/// Whether the tab of this name is shown: as set, else yes.
pub open spec fn visible_in(m: Map<Seq<char>, bool>, name: Seq<char>) -> bool {
    if m.dom().contains(name) {
        m[name]
    } else {
        true
    }
}

/// The settings after a toggle: a listed tab flips, an unlisted one stays.
pub open spec fn toggled(m: Map<Seq<char>, bool>, name: Seq<char>) -> Map<Seq<char>, bool> {
    if m.dom().contains(name) {
        m.insert(name, !m[name])
    } else {
        m
    }
}

/// The settings with a tab listed as shown unless it is already listed.
pub open spec fn with_default(m: Map<Seq<char>, bool>, name: Seq<char>) -> Map<Seq<char>, bool> {
    if m.dom().contains(name) {
        m
    } else {
        m.insert(name, true)
    }
}

proof fn lemma_with_default_keeps(m: Map<Seq<char>, bool>, name: Seq<char>, k: Seq<char>)
    requires
        m.dom().contains(k),
    ensures
        with_default(m, name).dom().contains(k),
        with_default(m, name)[k] == m[k],
{
}

impl TabVisibility {
    /// Settings that list no tab.
    pub fn new() -> (r: Self)
        ensures
            r@ == Map::<Seq<char>, bool>::empty(),
    {
        let r = TabVisibility { entries: Vec::new() };
        assert(pair_views(r.entries@) =~= Seq::<(Seq<char>, bool)>::empty());
        r
    }

    /// The position of the entry for `name`, if there is one.
    fn find(&self, name: &str) -> (r: Option<usize>)
        ensures
            match r {
                Some(i) => i < self.entries@.len() && self.entries@[i as int].0@ == name@,
                None => forall|i: int| 0 <= i < self.entries@.len() ==> #[trigger] self.entries@[i].0@ != name@,
            },
    {
        let n = chars_of(name);
        let mut i: usize = 0;
        while i < self.entries.len()
            invariant
                i <= self.entries@.len(),
                n@ == name@,
                forall|j: int| 0 <= j < i ==> #[trigger] self.entries@[j].0@ != name@,
            decreases self.entries.len() - i,
        {
            let k = chars_of(self.entries[i].0.as_str());
            if same_text(&k, &n) {
                return Some(i);
            }
            i += 1;
        }
        None
    }

    proof fn lemma_found(&self, name: Seq<char>, i: int)
        requires
            0 <= i < self.entries@.len(),
            self.entries@[i].0@ == name,
            keys_unique(pair_views(self.entries@)),
        ensures
            self@.dom().contains(name),
            self@[name] == self.entries@[i].1,
    {
        let es = pair_views(self.entries@);
        assert(es[i] == (self.entries@[i].0@, self.entries@[i].1));
        lemma_to_map_index(es, i);
    }

    proof fn lemma_missing(&self, name: Seq<char>)
        requires
            forall|i: int| 0 <= i < self.entries@.len() ==> #[trigger] self.entries@[i].0@ != name,
        ensures
            !self@.dom().contains(name),
    {
        let es = pair_views(self.entries@);
        lemma_to_map_dom(es, name);
        if self@.dom().contains(name) {
            let i = choose|i: int| 0 <= i < es.len() && #[trigger] es[i].0 == name;
            assert(self.entries@[i].0@ == es[i].0);
        }
    }

    /// The visibility set for a tab, if any.
    pub fn get(&self, name: &str) -> (r: Option<bool>)
        ensures
            r == (if self@.dom().contains(name@) {
                Some(self@[name@])
            } else {
                None
            }),
    {
        proof {
            use_type_invariant(self);
        }
        match self.find(name) {
            Some(i) => {
                proof {
                    self.lemma_found(name@, i as int);
                }
                Some(self.entries[i].1)
            },
            None => {
                proof {
                    self.lemma_missing(name@);
                }
                None
            },
        }
    }

    /// Whether the tab of this name is shown.
    pub fn is_tab_visible(&self, tab_name: &str) -> (r: bool)
        ensures
            r == visible_in(self@, tab_name@),
    {
        match self.get(tab_name) {
            Some(v) => v,
            None => true,
        }
    }

    /// Sets a tab's visibility.
    pub fn insert(&mut self, name: &str, visible: bool)
        ensures
            final(self)@ == old(self)@.insert(name@, visible),
    {
        proof {
            use_type_invariant(&*self);
        }
        match self.find(name) {
            Some(i) => {
                let ghost es = pair_views(self.entries@);
                let mut entries: Vec<(String, bool)> = Vec::new();
                std::mem::swap(&mut entries, &mut self.entries);
                let key = str_owned(entries[i].0.as_str());
                entries.set(i, (key, visible));
                proof {
                    assert(es[i as int].0 == name@);
                    lemma_to_map_update(es, i as int, visible);
                    assert(pair_views(entries@) =~= es.update(i as int, (es[i as int].0, visible)));
                }
                self.entries = entries;
            },
            None => {
                let ghost es = pair_views(self.entries@);
                let mut entries: Vec<(String, bool)> = Vec::new();
                std::mem::swap(&mut entries, &mut self.entries);
                entries.push((str_owned(name), visible));
                proof {
                    assert(pair_views(entries@) =~= es.push((name@, visible)));
                    assert(pair_views(entries@).drop_last() =~= es);
                    assert forall|a: int, b: int|
                        0 <= a < b < pair_views(entries@).len() implies pair_views(entries@)[a].0
                        != pair_views(entries@)[b].0 by {
                        if b == es.len() {
                            assert(pair_views(entries@)[a].0 == entries@[a].0@);
                        }
                    }
                }
                self.entries = entries;
            },
        }
    }

    /// Lists a tab as shown unless it is listed already.
    pub fn ensure_listed(&mut self, name: &str)
        ensures
            final(self)@ == with_default(old(self)@, name@),
    {
        match self.get(name) {
            Some(_) => {},
            None => self.insert(name, true),
        }
    }

    /// Flips a listed tab's visibility; says whether anything changed.
    pub fn toggle(&mut self, name: &str) -> (changed: bool)
        ensures
            final(self)@ == toggled(old(self)@, name@),
            changed == old(self)@.dom().contains(name@),
    {
        match self.get(name) {
            Some(v) => {
                self.insert(name, !v);
                true
            },
            None => false,
        }
    }

    /// Lists each of `names` as shown unless it is listed already.
    pub fn ensure_tabs(&mut self, names: &Vec<String>)
        ensures
            forall|i: int| 0 <= i < names@.len() ==> final(self)@.dom().contains(#[trigger] names@[i]@),
            forall|k: Seq<char>| #[trigger] old(self)@.dom().contains(k) ==> final(self)@.dom().contains(
                k,
            ) && final(self)@[k] == old(self)@[k],
            forall|k: Seq<char>| final(self)@.dom().contains(k) && !old(self)@.dom().contains(k)
                ==> final(self)@[k],
            forall|k: Seq<char>| #[trigger] final(self)@.dom().contains(k) ==> old(self)@.dom().contains(k)
                || exists|i: int| 0 <= i < names@.len() && names@[i]@ == k,
    {
        let ghost start = self@;
        let mut i: usize = 0;
        while i < names.len()
            invariant
                i <= names@.len(),
                forall|j: int| 0 <= j < i ==> self@.dom().contains(#[trigger] names@[j]@),
                forall|k: Seq<char>| #[trigger] start.dom().contains(k) ==> self@.dom().contains(k)
                    && self@[k] == start[k],
                forall|k: Seq<char>| self@.dom().contains(k) && !start.dom().contains(k) ==> self@[k],
                forall|k: Seq<char>| #[trigger] self@.dom().contains(k) ==> start.dom().contains(k)
                    || exists|j: int| 0 <= j < i && names@[j]@ == k,
            decreases names.len() - i,
        {
            let ghost before = self@;
            self.ensure_listed(names[i].as_str());
            assert forall|k: Seq<char>| start.dom().contains(k) implies self@.dom().contains(k)
                && self@[k] == start[k] by {
                assert(before.dom().contains(k));
                assert(before[k] == start[k]);
                lemma_with_default_keeps(before, names@[i as int]@, k);
            }
            assert forall|k: Seq<char>| self@.dom().contains(k) && !start.dom().contains(
                k,
            ) implies self@[k] by {
                if before.dom().contains(k) {
                    assert(before[k]);
                }
            }
            assert forall|k: Seq<char>| #[trigger] self@.dom().contains(k) implies start.dom().contains(k)
                || exists|j: int| 0 <= j < i + 1 && names@[j]@ == k by {
                if !before.dom().contains(k) {
                    assert(k == names@[i as int]@);
                } else if !start.dom().contains(k) {
                    let j = choose|j: int| 0 <= j < i && names@[j]@ == k;
                    assert(0 <= j < i + 1 && names@[j]@ == k);
                }
            }
            assert forall|j: int| 0 <= j < i + 1 implies self@.dom().contains(#[trigger] names@[j]@) by {
                if j < i {
                    assert(before.dom().contains(names@[j]@));
                }
            }
            i += 1;
        }
    }

    /// The entries, as name and visibility pairs, each name once.
    pub fn entries(&self) -> (r: Vec<(String, bool)>)
        ensures
            to_map(pair_views(r@)) == self@,
            keys_unique(pair_views(r@)),
    {
        proof {
            use_type_invariant(self);
        }
        let mut r: Vec<(String, bool)> = Vec::new();
        let mut i: usize = 0;
        while i < self.entries.len()
            invariant
                i <= self.entries@.len(),
                pair_views(r@) == pair_views(self.entries@).take(i as int),
            decreases self.entries.len() - i,
        {
            let p = (str_owned(self.entries[i].0.as_str()), self.entries[i].1);
            let ghost prev = pair_views(r@);
            r.push(p);
            assert(pair_views(r@) =~= prev.push((p.0@, p.1)));
            assert(pair_views(self.entries@).take(i + 1) =~= pair_views(self.entries@).take(
                i as int,
            ).push((self.entries@[i as int].0@, self.entries@[i as int].1)));
            i += 1;
        }
        assert(pair_views(self.entries@).take(self.entries.len() as int) =~= pair_views(
            self.entries@,
        ));
        r
    }
}

/// The tabs that the settings dialog lists.
pub open spec fn available_tab_names() -> Seq<Seq<char>> {
    seq![
        "Search"@,
        "Installed"@,
        "Updates"@,
        "Flatpak"@,
        "Maintenance"@,
        "Repositories"@,
        "Kernel"@,
        "Device"@,
        "FPM"@,
    ]
}

pub fn available_tabs() -> (r: Vec<String>)
    ensures
        string_views(r@) == available_tab_names(),
{
    let mut r: Vec<String> = Vec::new();
    r.push(str_owned("Search"));
    r.push(str_owned("Installed"));
    r.push(str_owned("Updates"));
    r.push(str_owned("Flatpak"));
    r.push(str_owned("Maintenance"));
    r.push(str_owned("Repositories"));
    r.push(str_owned("Kernel"));
    r.push(str_owned("Device"));
    r.push(str_owned("FPM"));
    assert(string_views(r@) =~= available_tab_names());
    r
}

/// Toggling a tab twice gives back the settings it started from.
pub proof fn toggle_twice_restores(m: Map<Seq<char>, bool>, name: Seq<char>)
    ensures
        toggled(toggled(m, name), name) == m,
{
    if m.dom().contains(name) {
        assert(toggled(toggled(m, name), name) =~= m);
    }
}

/// A toggle changes no tab but the one toggled.
pub proof fn toggle_leaves_others(m: Map<Seq<char>, bool>, name: Seq<char>, other: Seq<char>)
    requires
        other != name,
    ensures
        visible_in(toggled(m, name), other) == visible_in(m, other),
{
}

/// Toggling a tab that is listed flips whether it is shown.
pub proof fn toggle_flips_listed(m: Map<Seq<char>, bool>, name: Seq<char>)
    requires
        m.dom().contains(name),
    ensures
        visible_in(toggled(m, name), name) == !visible_in(m, name),
{
}

/// Setting a tab's visibility is what reading it gives back, and leaves the
/// other tabs as they were.
pub proof fn visibility_read_after_write(m: Map<Seq<char>, bool>, name: Seq<char>, visible: bool, other: Seq<char>)
    requires
        other != name,
    ensures
        visible_in(m.insert(name, visible), name) == visible,
        visible_in(m.insert(name, visible), other) == visible_in(m, other),
{
}

/// A tab that nobody listed is shown, and listing it by default keeps it shown.
pub proof fn unlisted_tabs_are_shown(m: Map<Seq<char>, bool>, name: Seq<char>)
    requires
        !m.dom().contains(name),
    ensures
        visible_in(m, name),
        visible_in(with_default(m, name), name),
{
}

} // verus!
