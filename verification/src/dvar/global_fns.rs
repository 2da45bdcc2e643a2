use vstd::prelude::*;

use super::{Dvar, DvarFlags, DvarView, SetSource};
use vstd::string::StrSliceExecFns;

verus! {

/// A dvar once the value saved with the game is restored: a dvar loaded
/// from a saved game is marked no longer loaded and its saved value is set
/// from inside the engine; any other dvar is unchanged.
pub open spec fn restored_dvar(d: DvarView) -> DvarView {
    if d.loaded_from_save_game {
        DvarView { loaded_from_save_game: false, ..d }.set_variant(d.saved, SetSource::Internal, 0, false).0
    } else {
        d
    }
}

/// Whether cheats are on: the dvar "sv_cheats" exists and holds `true`.
pub open spec fn cheats_on(r: DvarRegistryView) -> bool {
    r.dvars.dom().contains("sv_cheats"@) && r.dvars["sv_cheats"@].current == super::DvarValueView::Bool(true)
}

/// The most dvars the registry holds.
pub const DVAR_COUNT_MAX: usize = 4096;

/// Whether no two dvars of `s` share a name.
pub open spec fn names_unique(s: Seq<DvarView>) -> bool {
    forall|i: int, j: int| 0 <= i < j < s.len() ==> s[i].name != s[j].name
}

/// The dvars of `s` by name; a later dvar of a name hides an earlier one.
pub open spec fn map_of(s: Seq<DvarView>) -> Map<Seq<char>, DvarView>
    decreases s.len(),
{
    if s.len() == 0 {
        Map::empty()
    } else {
        map_of(s.drop_last()).insert(s.last().name, s.last())
    }
}

proof fn lemma_map_of_dom(s: Seq<DvarView>, n: Seq<char>)
    ensures
        map_of(s).dom().contains(n) <==> exists|i: int| 0 <= i < s.len() && #[trigger] s[i].name == n,
    decreases s.len(),
{
    if s.len() > 0 {
        lemma_map_of_dom(s.drop_last(), n);
        if map_of(s).dom().contains(n) && n != s.last().name {
            let i = choose|i: int| 0 <= i < s.drop_last().len() && #[trigger] s.drop_last()[i].name == n;
            assert(s[i].name == n);
        }
        if exists|i: int| 0 <= i < s.len() && #[trigger] s[i].name == n {
            let i = choose|i: int| 0 <= i < s.len() && #[trigger] s[i].name == n;
            if i < s.len() - 1 {
                assert(s.drop_last()[i].name == n);
            }
        }
    }
}

/// Every dvar of `map_of(s)` is stored under its own name.
proof fn lemma_map_of_names(s: Seq<DvarView>)
    ensures
        forall|k: Seq<char>| #[trigger] map_of(s).dom().contains(k) ==> map_of(s)[k].name == k,
    decreases s.len(),
{
    if s.len() > 0 {
        lemma_map_of_names(s.drop_last());
    }
}

proof fn lemma_map_of_index(s: Seq<DvarView>, i: int)
    requires
        names_unique(s),
        0 <= i < s.len(),
    ensures
        map_of(s).dom().contains(s[i].name),
        map_of(s)[s[i].name] == s[i],
    decreases s.len(),
{
    if i < s.len() - 1 {
        assert(names_unique(s.drop_last()));
        lemma_map_of_index(s.drop_last(), i);
        assert(s.drop_last()[i] == s[i]);
        assert(s[i].name != s.last().name);
    }
}

proof fn lemma_map_of_update(s: Seq<DvarView>, i: int, v: DvarView)
    requires
        names_unique(s),
        0 <= i < s.len(),
        v.name == s[i].name,
    ensures
        names_unique(s.update(i, v)),
        map_of(s.update(i, v)) == map_of(s).insert(v.name, v),
    decreases s.len(),
{
    let t = s.update(i, v);
    assert(names_unique(t)) by {
        assert forall|a: int, b: int| 0 <= a < b < t.len() implies t[a].name != t[b].name by {
            assert(s[a].name != s[b].name);
        }
    }
    if i == s.len() - 1 {
        assert(t.drop_last() =~= s.drop_last());
        assert(map_of(t) =~= map_of(s).insert(v.name, v));
    } else {
        assert(names_unique(s.drop_last()));
        lemma_map_of_update(s.drop_last(), i, v);
        assert(t.drop_last() =~= s.drop_last().update(i, v));
        assert(s.last().name != v.name);
        assert(map_of(t) =~= map_of(s).insert(v.name, v));
    }
}

proof fn lemma_map_of_push(s: Seq<DvarView>, v: DvarView)
    requires
        names_unique(s),
        !map_of(s).dom().contains(v.name),
    ensures
        names_unique(s.push(v)),
        map_of(s.push(v)) == map_of(s).insert(v.name, v),
{
    assert(s.push(v).drop_last() =~= s);
    assert forall|a: int, b: int| 0 <= a < b < s.push(v).len() implies s.push(v)[a].name != s.push(
        v,
    )[b].name by {
        if b == s.len() {
            lemma_map_of_dom(s, v.name);
            assert(s[a].name == s.push(v)[a].name);
        }
    }
}

/// `domain` with `s` added to it when it is an enumeration domain that
/// lacks `s`.
pub open spec fn domain_with(domain: super::DvarLimitsView, s: Seq<char>) -> super::DvarLimitsView {
    match domain {
        super::DvarLimitsView::Enumeration(strings) => super::DvarLimitsView::Enumeration(
            if strings.contains(s) {
                strings
            } else {
                strings.push(s)
            },
        ),
        _ => domain,
    }
}

/// `domain` with `s` taken out of it when it is an enumeration domain.
pub open spec fn domain_without(domain: super::DvarLimitsView, s: Seq<char>) -> super::DvarLimitsView {
    match domain {
        super::DvarLimitsView::Enumeration(strings) => super::DvarLimitsView::Enumeration(
            match super::limits::first_index(strings, s) {
                Some(k) => strings.remove(k),
                None => strings,
            },
        ),
        _ => domain,
    }
}

/// The mathematical model of a [`DvarRegistry`].
pub struct DvarRegistryView {
    /// The dvars, by name.
    pub dvars: Map<Seq<char>, DvarView>,
    /// How many dvars the registry holds.
    pub count: nat,
    /// The flags of every dvar whose current value changed.
    pub modified_flags: u32,
    /// Whether the dvar subsystem has been initialised.
    pub active: bool,
}

impl DvarRegistryView {
    /// The registry after `v` is set on its dvar named `name` from `source`.
    pub open spec fn set_result(self, name: Seq<char>, v: super::DvarValueView, source: SetSource) -> DvarRegistryView {
        let (d, m) = self.dvars[name].set_variant(v, source, self.modified_flags, cheats_on(self));
        DvarRegistryView { dvars: self.dvars.insert(name, d), modified_flags: m, ..self }
    }

    /// The registry after `d` is registered: it is added, or it takes the
    /// place of the dvar of the same name.
    pub open spec fn registered(self, d: DvarView) -> DvarRegistryView {
        DvarRegistryView {
            dvars: self.dvars.insert(d.name, d),
            count: if self.dvars.dom().contains(d.name) { self.count } else { self.count + 1 },
            ..self
        }
    }

    /// The registry after the modified mark of its dvar named `name` is
    /// cleared.
    pub open spec fn cleared(self, name: Seq<char>) -> DvarRegistryView {
        DvarRegistryView { dvars: self.dvars.insert(name, DvarView { modified: false, ..self.dvars[name] }), ..self }
    }

    /// Whether setting `v` on the dvar named `name` from `source` is safe to
    /// ask for (see [`DvarView::can_set_variant`]).
    pub open spec fn can_set(self, name: Seq<char>, v: super::DvarValueView, source: SetSource) -> bool {
        self.dvars.dom().contains(name) ==> self.dvars[name].can_set_variant(v, source)
    }
}

/// All registered dvars, by name, together with the flags of modified dvars.
#[derive(Debug)]
pub struct DvarRegistry {
    dvars: Vec<Dvar>,
    modified_flags: DvarFlags,
    active: bool,
}

impl View for DvarRegistry {
    type V = DvarRegistryView;

    closed spec fn view(&self) -> DvarRegistryView {
        DvarRegistryView {
            dvars: map_of(self.entries()),
            count: self.dvars@.len(),
            modified_flags: self.modified_flags.bits,
            active: self.active,
        }
    }
}

impl DvarRegistry {
    spec fn entries(&self) -> Seq<DvarView> {
        self.dvars@.map_values(|d: Dvar| d@)
    }

    /// Whether no two dvars share a name.
    pub closed spec fn wf(&self) -> bool {
        names_unique(self.entries())
    }

    /// Whether the registry holds a dvar named `name`.
    pub open spec fn has(&self, name: Seq<char>) -> bool {
        self@.dvars.dom().contains(name)
    }

    /// The dvar named `name`.
    pub open spec fn get(&self, name: Seq<char>) -> DvarView {
        self@.dvars[name]
    }

    /// Whether a dvar named `name` may be registered, or registered again,
    /// without failing: the registry is not full.
    pub open spec fn can_register(&self, name: Seq<char>) -> bool {
        self@.count < DVAR_COUNT_MAX
    }

    /// The registry after `d` is registered: it is added, or it takes the
    /// place of the dvar of the same name.
    pub open spec fn after_register(&self, d: DvarView) -> DvarRegistryView {
        self@.registered(d)
    }

    /// Whether setting `v` on the dvar named `name` from `source` cannot fail
    /// on a domain of another kind (see [`DvarView::can_set_variant`]).
    pub open spec fn can_set(&self, name: Seq<char>, v: super::DvarValueView, source: SetSource) -> bool {
        self.has(name) ==> self.get(name).can_set_variant(v, source)
    }

    /// Whether setting `v` on the dvar named `name` from `source` is taken:
    /// the dvar exists and accepts it (see [`DvarView::accepts`]).
    pub open spec fn set_accepted(&self, name: Seq<char>, v: super::DvarValueView, source: SetSource) -> bool {
        self.has(name) && self.get(name).accepts(v, source, cheats_on(self@))
    }

    /// The registry after `v` is set on the existing dvar named `name` from
    /// `source`.
    pub open spec fn after_set(&self, name: Seq<char>, v: super::DvarValueView, source: SetSource) -> DvarRegistryView {
        let (d, m) = self.get(name).set_variant(v, source, self@.modified_flags, cheats_on(self@));
        DvarRegistryView { dvars: self@.dvars.insert(name, d), modified_flags: m, ..self@ }
    }

    /// The dvar stored under a name has that name.
    pub proof fn lemma_key_is_name(&self, k: Seq<char>)
        requires
            self.has(k),
        ensures
            self.get(k).name == k,
    {
        lemma_map_of_names(self.entries());
    }

    /// A set that the registry does not take leaves it as it was, unless it
    /// is an enumeration value outside the domain, which falls back to the
    /// reset value.
    pub proof fn lemma_refused_set(&self, name: Seq<char>, v: super::DvarValueView, source: SetSource)
        ensures
            self.has(name) && !self.set_accepted(name, v, source) && (v is Enumeration ==> super::in_domain(
                self.get(name).domain,
                v,
            )) ==> self.after_set(name, v, source) == self@,
    {
        if self.has(name) && !self.set_accepted(name, v, source) && (v is Enumeration ==> super::in_domain(
            self.get(name).domain,
            v,
        )) {
            assert(self.after_set(name, v, source).dvars =~= self@.dvars);
        }
    }

    /// An empty, inactive registry.
    pub fn new() -> (r: DvarRegistry)
        ensures
            r.wf(),
            r@.dvars == Map::<Seq<char>, DvarView>::empty(),
            r@.count == 0,
            r@.modified_flags == 0,
            !r@.active,
    {
        let r = DvarRegistry { dvars: Vec::new(), modified_flags: DvarFlags::empty(), active: false };
        assert(r.entries() =~= Seq::<DvarView>::empty());
        r
    }

    /// How many dvars the registry holds.
    pub fn len(&self) -> (r: usize)
        ensures
            r == self@.count,
    {
        self.dvars.len()
    }

    /// The flags of every dvar whose current value changed.
    pub fn modified_flags(&self) -> (r: DvarFlags)
        ensures
            r.bits == self@.modified_flags,
    {
        self.modified_flags
    }

    /// Whether the dvar subsystem has been initialised.
    pub fn is_active(&self) -> (r: bool)
        ensures
            r == self@.active,
    {
        self.active
    }

    /// Marks the dvar subsystem initialised.
    pub fn set_active(&mut self)
        requires
            old(self).wf(),
        ensures
            final(self).wf(),
            final(self)@ == (DvarRegistryView { active: true, ..old(self)@ }),
    {
        self.active = true;
    }

    /// The position of the dvar named `name`, if there is one.
    fn find_index(&self, name: &str) -> (r: Option<usize>)
        requires
            self.wf(),
        ensures
            match r {
                Some(i) => i < self.dvars@.len() && self.dvars@[i as int]@.name == name@ && self.has(
                    name@,
                ) && self.get(name@) == self.dvars@[i as int]@,
                None => !self.has(name@),
            },
    {
        let key = name.to_owned();
        let mut i: usize = 0;
        while i < self.dvars.len()
            invariant
                0 <= i <= self.dvars@.len(),
                key@ == name@,
                self.wf(),
                forall|j: int| 0 <= j < i ==> self.dvars@[j]@.name != name@,
            decreases self.dvars@.len() - i,
        {
            if self.dvars[i].name == key {
                proof {
                    assert(self.entries()[i as int] == self.dvars@[i as int]@);
                    lemma_map_of_index(self.entries(), i as int);
                }
                return Some(i);
            }
            i = i + 1;
        }
        proof {
            lemma_map_of_dom(self.entries(), name@);
            if self.has(name@) {
                let j = choose|j: int|
                    0 <= j < self.entries().len() && #[trigger] self.entries()[j].name == name@;
                assert(self.entries()[j] == self.dvars@[j]@);
            }
        }
        None
    }

    /// Replaces the `i`-th dvar by the result of `set`, which keeps its name.
    proof fn lemma_replace(&self, i: int, v: DvarView)
        requires
            self.wf(),
            0 <= i < self.dvars@.len(),
            v.name == self.dvars@[i]@.name,
        ensures
            names_unique(self.entries().update(i, v)),
            map_of(self.entries().update(i, v)) == self@.dvars.insert(v.name, v),
    {
        assert(self.entries()[i] == self.dvars@[i]@);
        lemma_map_of_update(self.entries(), i, v);
    }

    /// Adds `dvar`, whose name is not yet taken.
    pub fn insert_new(&mut self, dvar: Dvar)
        requires
            old(self).wf(),
            !old(self).has(dvar@.name),
        ensures
            final(self).wf(),
            final(self)@ == (DvarRegistryView {
                dvars: old(self)@.dvars.insert(dvar@.name, dvar@),
                count: old(self)@.count + 1,
                ..old(self)@
            }),
    {
        let ghost v = dvar@;
        let ghost before = self.entries();
        self.dvars.push(dvar);
        proof {
            assert(self.entries() =~= before.push(v));
            lemma_map_of_push(before, v);
        }
    }

    /// Adds `dvar`, or puts it in place of the dvar of the same name.
    pub fn insert_or_replace(&mut self, dvar: Dvar)
        requires
            old(self).wf(),
        ensures
            final(self).wf(),
            final(self)@ == old(self).after_register(dvar@),
    {
        let name = dvar.name.clone();
        match self.find_index(name.as_str()) {
            Some(i) => {
                let ghost v = dvar@;
                self.dvars.set(i, dvar);
                proof {
                    old(self).lemma_replace(i as int, v);
                    assert(self.entries() =~= old(self).entries().update(i as int, v));
                }
            },
            None => {
                self.insert_new(dvar);
            },
        }
    }

    /// A copy of the dvar named `name`, if there is one.
    pub fn find(&self, name: &str) -> (r: Option<Dvar>)
        requires
            self.wf(),
        ensures
            match r {
                Some(d) => self.has(name@) && d@ == self.get(name@),
                None => !self.has(name@),
            },
    {
        match self.find_index(name) {
            Some(i) => Some(self.dvars[i].clone_dvar()),
            None => None,
        }
    }

    /// The dvar named `name`, if there is one, by reference.
    pub fn get_ref(&self, name: &str) -> (r: Option<&Dvar>)
        requires
            self.wf(),
        ensures
            match r {
                Some(d) => self.has(name@) && d@ == self.get(name@),
                None => !self.has(name@),
            },
    {
        match self.find_index(name) {
            Some(i) => Some(&self.dvars[i]),
            None => None,
        }
    }

    /// Whether every dvar loaded from a saved game can have its saved value
    /// set back (see [`DvarView::can_set_variant`]).
    pub open spec fn can_restore(&self) -> bool {
        forall|n: Seq<char>| #[trigger] self.has(n) && self.get(n).loaded_from_save_game ==> DvarView {
            loaded_from_save_game: false,
            ..self.get(n)
        }.can_set_variant(self.get(n).saved, SetSource::Internal)
    }

    /// Sets every dvar that was loaded from a saved game back to its saved
    /// value from inside the engine, and marks it no longer loaded (see
    /// [`restored_dvar`]). The flags of every dvar whose current value
    /// changes join the modified flags; no flag leaves them.
    pub fn restore_saved(&mut self)
        requires
            old(self).wf(),
            old(self).can_restore(),
        ensures
            final(self).wf(),
            final(self)@.count == old(self)@.count,
            final(self)@.active == old(self)@.active,
            final(self)@.dvars.dom() == old(self)@.dvars.dom(),
            forall|n: Seq<char>| #[trigger] old(self).has(n) ==> final(self).get(n) == restored_dvar(old(self).get(n)),
            final(self)@.modified_flags & old(self)@.modified_flags == old(self)@.modified_flags,
            forall|n: Seq<char>| #[trigger] old(self).has(n) && final(self).get(n).current != old(self).get(n).current
                ==> final(self)@.modified_flags & old(self).get(n).flags == old(self).get(n).flags,
    {
        let ghost old_entries = self.entries();
        let ghost old_mf = self.modified_flags.bits;
        let n = self.dvars.len();
        let mut i: usize = 0;
        assert(old_mf & old_mf == old_mf) by (bit_vector);
        while i < n
            invariant
                n == self.dvars@.len(),
                n == old_entries.len(),
                i <= n,
                self.wf(),
                self.active == old(self).active,
                old_entries == old(self).entries(),
                old_mf == old(self).modified_flags.bits,
                old(self).wf(),
                old(self).can_restore(),
                forall|j: int| 0 <= j < n ==> #[trigger] self.entries()[j] == if j < i {
                    restored_dvar(old_entries[j])
                } else {
                    old_entries[j]
                },
                self.modified_flags.bits & old_mf == old_mf,
                forall|j: int| 0 <= j < i && restored_dvar(old_entries[j]).current != old_entries[j].current
                    ==> self.modified_flags.bits & #[trigger] old_entries[j].flags == old_entries[j].flags,
            decreases n - i,
        {
            assert(self.entries()[i as int] == self.dvars@[i as int]@);
            if self.dvars[i].loaded_from_save_game {
                let ghost d0 = self.dvars@[i as int]@;
                proof {
                    assert(d0 == old_entries[i as int]);
                    assert(old(self).entries()[i as int] == d0);
                    lemma_map_of_index(old(self).entries(), i as int);
                    assert(old(self).has(d0.name));
                }
                self.dvars[i].loaded_from_save_game = false;
                let saved = self.dvars[i].saved.clone_value();
                let mut flags = self.modified_flags;
                let ghost m0 = flags.bits;
                let _ = self.dvars[i].set_variant(saved, SetSource::Internal, &mut flags, false);
                proof {
                    let cleared = DvarView { loaded_from_save_game: false, ..d0 };
                    let (dv, mv) = cleared.set_variant(d0.saved, SetSource::Internal, m0, false);
                    assert(mv == m0 || mv == m0 | d0.flags);
                    assert(m0 & old_mf == old_mf);
                    let f = d0.flags;
                    assert((m0 | f) & old_mf == old_mf) by (bit_vector)
                        requires m0 & old_mf == old_mf;
                    assert((m0 | f) & f == f) by (bit_vector);
                    assert forall|j: int| 0 <= j < i && restored_dvar(old_entries[j]).current != old_entries[j].current
                        implies (mv & #[trigger] old_entries[j].flags == old_entries[j].flags) by {
                        let g = old_entries[j].flags;
                        assert(m0 & g == g);
                        assert((m0 | f) & g == g) by (bit_vector)
                            requires m0 & g == g;
                    }
                }
                self.modified_flags = flags;
                proof {
                    let v = self.dvars@[i as int]@;
                    let ghost prev = self.entries().update(i as int, d0);
                    assert(v.name == d0.name);
                }
            }
            proof {
                assert(self.entries()[i as int] == restored_dvar(old_entries[i as int]));
                assert forall|a: int, b: int| 0 <= a < b < self.entries().len() implies self.entries()[a].name
                    != self.entries()[b].name by {
                    assert(self.entries()[a].name == old_entries[a].name);
                    assert(self.entries()[b].name == old_entries[b].name);
                    assert(old_entries[a].name != old_entries[b].name);
                }
            }
            i = i + 1;
        }
        proof {
            assert forall|k: Seq<char>| #[trigger] old(self).has(k) implies self.has(k) && self.get(k) == restored_dvar(old(self).get(k)) by {
                lemma_map_of_dom(old_entries, k);
                let j = choose|j: int| 0 <= j < old_entries.len() && #[trigger] old_entries[j].name == k;
                lemma_map_of_index(old_entries, j);
                assert(self.entries()[j] == restored_dvar(old_entries[j]));
                lemma_map_of_index(self.entries(), j);
            }
            assert forall|k: Seq<char>| self@.dvars.dom().contains(k) <==> old(self)@.dvars.dom().contains(k) by {
                lemma_map_of_dom(old_entries, k);
                lemma_map_of_dom(self.entries(), k);
                if old(self)@.dvars.dom().contains(k) {
                    assert(old(self).has(k));
                }
                if self@.dvars.dom().contains(k) {
                    let j = choose|j: int| 0 <= j < self.entries().len() && #[trigger] self.entries()[j].name == k;
                    assert(self.entries()[j] == restored_dvar(old_entries[j]));
                    assert(restored_dvar(old_entries[j]).name == old_entries[j].name);
                    assert(old_entries[j].name == k);
                }
            }
            assert(self@.dvars.dom() =~= old(self)@.dvars.dom());
            assert forall|k: Seq<char>| #[trigger] old(self).has(k) && self.get(k).current != old(self).get(k).current
                implies self@.modified_flags & old(self).get(k).flags == old(self).get(k).flags by {
                lemma_map_of_dom(old_entries, k);
                let j = choose|j: int| 0 <= j < old_entries.len() && #[trigger] old_entries[j].name == k;
                lemma_map_of_index(old_entries, j);
                lemma_map_of_index(self.entries(), j);
                assert(self.entries()[j] == restored_dvar(old_entries[j]));
            }
        }
    }

    /// The dvars in the order they were registered.
    pub closed spec fn listing(&self) -> Seq<DvarView> {
        self.entries()
    }

    /// The listing holds each registered dvar once.
    pub proof fn lemma_listing(&self)
        requires
            self.wf(),
        ensures
            self.listing().len() == self@.count,
            forall|i: int| 0 <= i < self.listing().len() ==> self.has(#[trigger] self.listing()[i].name)
                && self.get(self.listing()[i].name) == self.listing()[i],
            forall|i: int, j: int| 0 <= i < j < self.listing().len() ==> self.listing()[i].name != self.listing()[j].name,
            forall|n: Seq<char>| #[trigger] self.has(n) ==> exists|i: int| 0 <= i < self.listing().len() && self.listing()[i].name == n,
    {
        assert forall|i: int| 0 <= i < self.listing().len() implies self.has(#[trigger] self.listing()[i].name)
            && self.get(self.listing()[i].name) == self.listing()[i] by {
            lemma_map_of_index(self.entries(), i);
        }
        assert forall|n: Seq<char>| #[trigger] self.has(n) implies exists|i: int| 0 <= i < self.listing().len() && self.listing()[i].name == n by {
            lemma_map_of_dom(self.entries(), n);
        }
    }

    /// The `i`-th dvar of the listing.
    pub fn entry(&self, i: usize) -> (r: &Dvar)
        requires
            i < self@.count,
        ensures
            r@ == self.listing()[i as int],
    {
        &self.dvars[i]
    }

    /// Whether cheats are on (see [`cheats_on`]).
    pub fn cheats_enabled(&self) -> (r: bool)
        requires
            self.wf(),
        ensures
            r == cheats_on(self@),
    {
        match self.find_index("sv_cheats") {
            Some(i) => {
                proof {
                    lemma_map_of_index(self.entries(), i as int);
                }
                match &self.dvars[i].current {
                    super::DvarValue::Bool(b) => *b,
                    _ => false,
                }
            },
            None => false,
        }
    }

    /// Sets `value` on the dvar named `name` from `source`, which must exist;
    /// returns whether the set was taken (see [`DvarView::accepts`]).
    pub fn set_variant_at(&mut self, name: &str, value: super::DvarValue, source: SetSource) -> (r: bool)
        requires
            old(self).wf(),
            old(self).has(name@),
            old(self).get(name@).can_set_variant(value@, source),
        ensures
            final(self).wf(),
            r == old(self).set_accepted(name@, value@, source),
            final(self)@ == old(self).after_set(name@, value@, source),
    {
        let cheats = self.cheats_enabled();
        let i = self.find_index(name).unwrap();
        let mut flags = self.modified_flags;
        proof {
            lemma_map_of_index(self.entries(), i as int);
        }
        let r = self.dvars[i].set_variant(value, source, &mut flags, cheats);
        self.modified_flags = flags;
        proof {
            let v = self.dvars@[i as int]@;
            old(self).lemma_replace(i as int, v);
            assert(self.entries() =~= old(self).entries().update(i as int, v));
        }
        r
    }

    /// Adds `s` to the enumeration domain of the dvar named `name`, which
    /// must exist; a domain of another kind is left alone.
    pub fn enum_domain_insert(&mut self, name: &str, s: &str)
        requires
            old(self).wf(),
            old(self).has(name@),
        ensures
            final(self).wf(),
            final(self)@ == (DvarRegistryView {
                dvars: old(self)@.dvars.insert(
                    name@,
                    DvarView { domain: domain_with(old(self).get(name@).domain, s@), ..old(self).get(name@) },
                ),
                ..old(self)@
            }),
    {
        let i = self.find_index(name).unwrap();
        let mut domain = self.dvars[i].domain.clone_limits();
        match &mut domain {
            super::DvarLimits::Enumeration(e) => e.insert(s),
            _ => {},
        }
        self.dvars[i].domain = domain;
        proof {
            let v = self.dvars@[i as int]@;
            old(self).lemma_replace(i as int, v);
            assert(self.entries() =~= old(self).entries().update(i as int, v));
        }
    }

    /// Removes `s` from the enumeration domain of the dvar named `name`,
    /// which must exist; a domain of another kind is left alone.
    pub fn enum_domain_remove(&mut self, name: &str, s: &str)
        requires
            old(self).wf(),
            old(self).has(name@),
        ensures
            final(self).wf(),
            final(self)@ == (DvarRegistryView {
                dvars: old(self)@.dvars.insert(
                    name@,
                    DvarView { domain: domain_without(old(self).get(name@).domain, s@), ..old(self).get(name@) },
                ),
                ..old(self)@
            }),
    {
        let i = self.find_index(name).unwrap();
        let mut domain = self.dvars[i].domain.clone_limits();
        match &mut domain {
            super::DvarLimits::Enumeration(e) => e.remove(s),
            _ => {},
        }
        self.dvars[i].domain = domain;
        proof {
            let v = self.dvars@[i as int]@;
            old(self).lemma_replace(i as int, v);
            assert(self.entries() =~= old(self).entries().update(i as int, v));
        }
    }

    /// Marks the dvar named `name`, which must exist, as set while an
    /// autoexec file loads: adds the autoexec flag and makes its current
    /// value its reset value.
    pub fn mark_autoexec(&mut self, name: &str)
        requires
            old(self).wf(),
            old(self).has(name@),
        ensures
            final(self).wf(),
            final(self)@ == (DvarRegistryView {
                dvars: old(self)@.dvars.insert(
                    name@,
                    DvarView {
                        flags: old(self).get(name@).flags | DvarFlags::AUTOEXEC,
                        reset: old(self).get(name@).current,
                        ..old(self).get(name@)
                    },
                ),
                ..old(self)@
            }),
    {
        let i = self.find_index(name).unwrap();
        self.dvars[i].add_flags(DvarFlags::from_bits(DvarFlags::AUTOEXEC));
        let current = self.dvars[i].current.clone_value();
        self.dvars[i].reset = current;
        proof {
            let v = self.dvars@[i as int]@;
            old(self).lemma_replace(i as int, v);
            assert(self.entries() =~= old(self).entries().update(i as int, v));
        }
    }

    /// Sets the reset value of the dvar named `name`, which must exist,
    /// from `source`.
    pub fn reset_at(&mut self, name: &str, source: SetSource)
        requires
            old(self).wf(),
            old(self).has(name@),
            old(self).get(name@).can_set_variant(old(self).get(name@).reset, source),
        ensures
            final(self).wf(),
            final(self)@ == old(self).after_set(name@, old(self).get(name@).reset, source),
    {
        let i = self.find_index(name).unwrap();
        let reset = self.dvars[i].reset.clone_value();
        let _ = self.set_variant_at(name, reset, source);
    }

    /// Applies `modify` to the flags of the dvar named `name`, which must
    /// exist: adds them when `add`, removes them otherwise.
    fn change_flags_at(&mut self, i: usize, flags: DvarFlags, add: bool)
        requires
            old(self).wf(),
            i < old(self).dvars@.len(),
        ensures
            final(self).wf(),
            final(self)@ == (DvarRegistryView {
                dvars: old(self)@.dvars.insert(
                    old(self).dvars@[i as int]@.name,
                    DvarView {
                        flags: if add {
                            old(self).dvars@[i as int]@.flags | flags.bits
                        } else {
                            old(self).dvars@[i as int]@.flags & !flags.bits
                        },
                        ..old(self).dvars@[i as int]@
                    },
                ),
                ..old(self)@
            }),
    {
        if add {
            self.dvars[i].add_flags(flags);
        } else {
            self.dvars[i].clear_flags(flags);
        }
        proof {
            let v = self.dvars@[i as int]@;
            old(self).lemma_replace(i as int, v);
            assert(self.entries() =~= old(self).entries().update(i as int, v));
        }
    }
}

/// Whether a dvar named `name` exists.
pub fn dvar_exists(dvars: &DvarRegistry, name: &str) -> (r: bool)
    requires
        dvars.wf(),
    ensures
        r == dvars.has(name@),
{
    dvars.find_index(name).is_some()
}

/// A copy of the dvar named `name`, if there is one.
pub fn find(dvars: &DvarRegistry, name: &str) -> (r: Option<Dvar>)
    requires
        dvars.wf(),
    ensures
        match r {
            Some(d) => dvars.has(name@) && d@ == dvars.get(name@),
            None => !dvars.has(name@),
        },
{
    dvars.find(name)
}

/// Clears the modified mark of the dvar named `name`; fails when there is
/// no such dvar.
pub fn clear_modified(dvars: &mut DvarRegistry, name: &str) -> (r: Result<(), ()>)
    requires
        old(dvars).wf(),
    ensures
        final(dvars).wf(),
        r is Ok <==> old(dvars).has(name@),
        r is Ok ==> final(dvars)@ == (DvarRegistryView {
            dvars: old(dvars)@.dvars.insert(
                name@,
                DvarView { modified: false, ..old(dvars).get(name@) },
            ),
            ..old(dvars)@
        }),
        r is Err ==> final(dvars)@ == old(dvars)@,
{
    match dvars.find_index(name) {
        Some(i) => {
            dvars.dvars[i].modified = false;
            proof {
                let v = dvars.dvars@[i as int]@;
                old(dvars).lemma_replace(i as int, v);
                assert(dvars.entries() =~= old(dvars).entries().update(i as int, v));
            }
            Ok(())
        },
        None => Err(()),
    }
}

/// Adds `flags` to the dvar named `name`; fails when there is no such dvar.
pub fn add_flags(dvars: &mut DvarRegistry, name: &str, flags: DvarFlags) -> (r: Result<(), ()>)
    requires
        old(dvars).wf(),
    ensures
        final(dvars).wf(),
        r is Ok <==> old(dvars).has(name@),
        r is Ok ==> final(dvars)@ == (DvarRegistryView {
            dvars: old(dvars)@.dvars.insert(
                name@,
                DvarView { flags: old(dvars).get(name@).flags | flags.bits, ..old(dvars).get(name@) },
            ),
            ..old(dvars)@
        }),
        r is Err ==> final(dvars)@ == old(dvars)@,
{
    match dvars.find_index(name) {
        Some(i) => {
            dvars.change_flags_at(i, flags, true);
            Ok(())
        },
        None => Err(()),
    }
}

/// Removes `flags` from the dvar named `name`; fails when there is no such
/// dvar.
pub fn clear_flags(dvars: &mut DvarRegistry, name: &str, flags: DvarFlags) -> (r: Result<(), ()>)
    requires
        old(dvars).wf(),
    ensures
        final(dvars).wf(),
        r is Ok <==> old(dvars).has(name@),
        r is Ok ==> final(dvars)@ == (DvarRegistryView {
            dvars: old(dvars)@.dvars.insert(
                name@,
                DvarView { flags: old(dvars).get(name@).flags & !flags.bits, ..old(dvars).get(name@) },
            ),
            ..old(dvars)@
        }),
        r is Err ==> final(dvars)@ == old(dvars)@,
{
    match dvars.find_index(name) {
        Some(i) => {
            dvars.change_flags_at(i, flags, false);
            Ok(())
        },
        None => Err(()),
    }
}

/// Makes the latched value of the dvar named `name` its current value;
/// fails when there is no such dvar.
pub fn make_latched_value_current(dvars: &mut DvarRegistry, name: &str) -> (r: Result<(), ()>)
    requires
        old(dvars).wf(),
        old(dvars).has(name@) ==> old(dvars).get(name@).can_set_variant(
            old(dvars).get(name@).latched,
            SetSource::Internal,
        ),
    ensures
        final(dvars).wf(),
        r is Ok <==> old(dvars).has(name@),
        r is Ok ==> ({
            let d = old(dvars).get(name@);
            let (n, m) = d.set_variant(d.latched, SetSource::Internal, old(dvars)@.modified_flags, cheats_on(old(dvars)@));
            final(dvars)@ == DvarRegistryView {
                dvars: old(dvars)@.dvars.insert(name@, n),
                modified_flags: m,
                ..old(dvars)@
            }
        }),
        r is Err ==> final(dvars)@ == old(dvars)@,
{
    match dvars.find_index(name) {
        Some(i) => {
            let latched = dvars.dvars[i].latched.clone_value();
            let _ = dvars.set_variant_at(name, latched, SetSource::Internal);
            Ok(())
        },
        None => Err(()),
    }
}

} // verus!

verus! {

/// Whether `name` is a valid dvar name: only alphanumeric characters and
/// underscores.
pub open spec fn valid_name(name: Seq<char>) -> bool {
    forall|i: int| 0 <= i < name.len() ==> crate::text::alphanumeric(#[trigger] name[i]) || name[i] == '_'
}

/// Whether `name` consists only of alphanumeric characters and underscores.
pub fn name_is_valid(name: &str) -> (r: bool)
    ensures
        r == valid_name(name@),
{
    let n = name.unicode_len();
    let mut i: usize = 0;
    while i < n
        invariant
            n == name@.len(),
            0 <= i <= n,
            forall|j: int| 0 <= j < i ==> crate::text::alphanumeric(#[trigger] name@[j]) || name@[j] == '_',
        decreases n - i,
    {
        let c = name.get_char(i);
        if !crate::text::char_is_alphanumeric(c) && c != '_' {
            return false;
        }
        i = i + 1;
    }
    true
}

} // verus!
