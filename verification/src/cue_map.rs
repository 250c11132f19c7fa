//! The named cues of a configuration: a map from cue name to sound file path whose
//! entries are kept in ascending name order.
use vstd::prelude::*;

use crate::order::{
    compare_names, lemma_name_lt_asymmetric, lemma_name_lt_irreflexive, lemma_name_lt_total,
    lemma_name_lt_transitive, name_lt, NameOrder,
};

verus! {

/// The names of a sequence of entries are strictly ascending.
pub open spec fn ascending(s: Seq<(Seq<char>, Seq<char>)>) -> bool {
    forall|i: int, j: int| 0 <= i < j < s.len() ==> name_lt(#[trigger] s[i].0, #[trigger] s[j].0)
}

/// The map that a sequence of entries with distinct names describes.
pub open spec fn entries_to_map(s: Seq<(Seq<char>, Seq<char>)>) -> Map<Seq<char>, Seq<char>> {
    Map::new(
        |k: Seq<char>| exists|i: int| 0 <= i < s.len() && #[trigger] s[i].0 == k,
        |k: Seq<char>| s[choose|i: int| 0 <= i < s.len() && #[trigger] s[i].0 == k].1,
    )
}

/// In an ascending sequence, each entry's value is what the map gives for its name.
pub proof fn lemma_entries_to_map_at(s: Seq<(Seq<char>, Seq<char>)>, i: int)
    requires
        ascending(s),
        0 <= i < s.len(),
    ensures
        entries_to_map(s).dom().contains(s[i].0),
        entries_to_map(s)[s[i].0] == s[i].1,
{
    let k = s[i].0;
    assert(exists|j: int| 0 <= j < s.len() && #[trigger] s[j].0 == k);
    let j = choose|j: int| 0 <= j < s.len() && #[trigger] s[j].0 == k;
    if j < i {
        assert(name_lt(s[j].0, s[i].0));
        lemma_name_lt_irreflexive(k);
    } else if i < j {
        assert(name_lt(s[i].0, s[j].0));
        lemma_name_lt_irreflexive(k);
    }
}

/// A name that no entry carries is absent from the map.
pub proof fn lemma_entries_to_map_absent(s: Seq<(Seq<char>, Seq<char>)>, k: Seq<char>)
    requires
        forall|i: int| 0 <= i < s.len() ==> (#[trigger] s[i]).0 != k,
    ensures
        !entries_to_map(s).dom().contains(k),
{
}

/// With the names ascending and `key` missing, `key` comes before every entry from `i` on.
proof fn lemma_key_before_rest(
    s: Seq<(Seq<char>, Seq<char>)>,
    i: int,
    key: Seq<char>,
    j: int,
)
    requires
        ascending(s),
        0 <= i <= j < s.len(),
        !name_lt(s[i].0, key),
        forall|m: int| 0 <= m < s.len() ==> (#[trigger] s[m]).0 != key,
    ensures
        name_lt(key, s[j].0),
{
    lemma_name_lt_total(s[i].0, key);
    if i < j {
        assert(name_lt(s[i].0, s[j].0));
        lemma_name_lt_transitive(key, s[i].0, s[j].0);
    }
}

/// Setting a cue's path keeps one entry per name: the count grows only for a new
/// name, and looking the name up gives the path last set.
pub proof fn law_cue_count_after_insert(
    cues: Map<Seq<char>, Seq<char>>,
    name: Seq<char>,
    path: Seq<char>,
)
    requires
        cues.dom().finite(),
    ensures
        cues.insert(name, path).dom().finite(),
        cues.insert(name, path).len() == cues.len() + if cues.dom().contains(name) {
            0int
        } else {
            1int
        },
        cues.insert(name, path).dom().contains(name),
        cues.insert(name, path)[name] == path,
{
    if cues.dom().contains(name) {
        assert(cues.insert(name, path).dom() =~= cues.dom());
    } else {
        assert(cues.insert(name, path).dom() =~= cues.dom().insert(name));
    }
}

/// The view of stored entries as specification values.
pub open spec fn entry_view(e: (String, String)) -> (Seq<char>, Seq<char>) {
    (e.0@, e.1@)
}

/// A map from cue name to sound file path, ordered by name.
#[derive(Debug)]
pub struct CueMap {
    entries: Vec<(String, String)>,
}

impl CueMap {
    /// The entries, in the order in which they are stored.
    pub closed spec fn entry_seq(&self) -> Seq<(Seq<char>, Seq<char>)> {
        self.entries@.map_values(|e: (String, String)| entry_view(e))
    }

    #[verifier::type_invariant]
    closed spec fn names_ascend(&self) -> bool {
        ascending(self.entry_seq())
    }

    /// An empty map.
    pub fn new() -> (res: Self)
        ensures
            res@ == Map::<Seq<char>, Seq<char>>::empty(),
            res.entry_seq() == Seq::<(Seq<char>, Seq<char>)>::empty(),
    {
        let res = CueMap { entries: Vec::new() };
        assert(res.entry_seq() =~= Seq::<(Seq<char>, Seq<char>)>::empty());
        assert(res@ =~= Map::<Seq<char>, Seq<char>>::empty());
        res
    }

    /// Number of cues. The entries are in strictly ascending name order, so no
    /// name occurs twice, and they describe the map exactly.
    pub fn len(&self) -> (res: usize)
        ensures
            res == self.entry_seq().len(),
            res == self@.len(),
            self@.dom().finite(),
            ascending(self.entry_seq()),
            self@ == entries_to_map(self.entry_seq()),
    {
        proof {
            use_type_invariant(self);
            self.lemma_len_matches();
        }
        self.entries.len()
    }

    /// The map of cues is the map its entries describe.
    pub proof fn lemma_view(&self)
        ensures
            self@ == entries_to_map(self.entry_seq()),
    {
    }

    /// With its names ascending, the map has as many cues as there are entries.
    pub proof fn lemma_len_matches(&self)
        requires
            ascending(self.entry_seq()),
        ensures
            self@.dom().finite(),
            self@.len() == self.entry_seq().len(),
    {
        let s = self.entry_seq();
        let keys = s.map_values(|e: (Seq<char>, Seq<char>)| e.0);
        assert(self@.dom() =~= keys.to_set()) by {
            assert forall|k: Seq<char>| self@.dom().contains(k) implies keys.to_set().contains(k) by {
                let i = choose|i: int| 0 <= i < s.len() && #[trigger] s[i].0 == k;
                assert(keys[i] == k);
            }
            assert forall|k: Seq<char>| keys.to_set().contains(k) implies self@.dom().contains(k) by {
                let i = choose|i: int| 0 <= i < keys.len() && keys[i] == k;
                assert(s[i].0 == k);
            }
        }
        assert(keys.no_duplicates()) by {
            assert forall|i: int, j: int| 0 <= i < keys.len() && 0 <= j < keys.len() && i != j
                implies keys[i] != keys[j] by {
                if i < j {
                    assert(name_lt(s[i].0, s[j].0));
                    lemma_name_lt_asymmetric(s[i].0, s[j].0);
                } else {
                    assert(name_lt(s[j].0, s[i].0));
                    lemma_name_lt_asymmetric(s[j].0, s[i].0);
                }
            }
        }
        keys.unique_seq_to_set();
    }

    /// The `i`-th entry in ascending name order.
    pub fn entry(&self, i: usize) -> (res: (&String, &String))
        requires
            i < self.entry_seq().len(),
        ensures
            (res.0@, res.1@) == self.entry_seq()[i as int],
    {
        let e = &self.entries[i];
        (&e.0, &e.1)
    }

    /// Position of the first entry whose name is not before `name`.
    fn lower_bound(&self, name: &str) -> (res: usize)
        ensures
            res <= self.entry_seq().len(),
            forall|j: int| 0 <= j < res ==> name_lt(#[trigger] self.entry_seq()[j].0, name@),
            res < self.entry_seq().len() ==> !name_lt(self.entry_seq()[res as int].0, name@),
    {
        proof { use_type_invariant(self); }
        let n = self.entries.len();
        let mut i: usize = 0;
        while i < n
            invariant
                n == self.entry_seq().len(),
                i <= n,
                forall|j: int| 0 <= j < i ==> name_lt(#[trigger] self.entry_seq()[j].0, name@),
            decreases n - i,
        {
            let e = &self.entries[i];
            match compare_names(e.0.as_str(), name) {
                NameOrder::Before => {},
                _ => {
                    return i;
                },
            }
            i = i + 1;
        }
        i
    }

    /// The path of the cue called `name`, if there is one.
    pub fn get(&self, name: &str) -> (res: Option<&String>)
        ensures
            match res {
                Some(p) => self@.dom().contains(name@) && self@[name@] == p@,
                None => !self@.dom().contains(name@),
            },
    {
        proof { use_type_invariant(self); }
        let i = self.lower_bound(name);
        if i < self.entries.len() {
            let e = &self.entries[i];
            if compare_names(e.0.as_str(), name) == NameOrder::Same {
                proof { lemma_entries_to_map_at(self.entry_seq(), i as int); }
                return Some(&e.1);
            }
        }
        proof {
            let s = self.entry_seq();
            assert forall|j: int| 0 <= j < s.len() implies (#[trigger] s[j]).0 != name@ by {
                if j < i {
                    lemma_name_lt_irreflexive(name@);
                } else if j > i {
                    lemma_name_lt_total(s[i as int].0, name@);
                    assert(name_lt(s[i as int].0, s[j].0));
                    if s[j].0 == name@ {
                        assert(s[i as int].0 != name@);
                        assert(name_lt(name@, s[i as int].0));
                        lemma_name_lt_asymmetric(name@, s[i as int].0);
                    }
                }
            }
            lemma_entries_to_map_absent(s, name@);
        }
        None
    }

    /// Sets the path of the cue called `name`, replacing any earlier one, and
    /// returns the path that was replaced.
    pub fn insert(&mut self, name: String, path: String) -> (res: Option<String>)
        ensures
            final(self)@ == old(self)@.insert(name@, path@),
            match res {
                Some(p) => old(self)@.dom().contains(name@) && old(self)@[name@] == p@,
                None => !old(self)@.dom().contains(name@),
            },
    {
        proof { use_type_invariant(&*self); }
        let ghost s = self.entry_seq();
        let i = self.lower_bound(name.as_str());
        let found = i < self.entries.len()
            && compare_names(self.entries[i].0.as_str(), name.as_str()) == NameOrder::Same;
        if found {
            let old_path = self.entries[i].1.clone();
            proof { lemma_entries_to_map_at(s, i as int); }
            let ghost key = name@;
            let ghost val = path@;
            let mut entries: Vec<(String, String)> = Vec::new();
            std::mem::swap(&mut entries, &mut self.entries);
            entries.set(i, (name, path));
            proof {
                let t = entries@.map_values(|e: (String, String)| entry_view(e));
                assert(t =~= s.update(i as int, (key, val)));
                assert forall|a: int, b: int| 0 <= a < b < t.len()
                    implies name_lt(#[trigger] t[a].0, #[trigger] t[b].0) by {
                    assert(name_lt(s[a].0, s[b].0));
                }
            }
            self.entries = entries;
            proof {
                self.lemma_view_after_update(s, i as int, key, val);
            }
            Some(old_path)
        } else {
            let ghost key = name@;
            let ghost val = path@;
            proof {
                assert forall|j: int| 0 <= j < s.len() implies (#[trigger] s[j]).0 != key by {
                    if j < i {
                        lemma_name_lt_irreflexive(key);
                    } else {
                        lemma_name_lt_total(s[i as int].0, key);
                        if j > i {
                            assert(name_lt(s[i as int].0, s[j].0));
                        }
                        if s[j].0 == key {
                            assert(name_lt(key, s[i as int].0));
                            lemma_name_lt_asymmetric(key, s[i as int].0);
                        }
                    }
                }
                lemma_entries_to_map_absent(s, key);
            }
            let mut entries: Vec<(String, String)> = Vec::new();
            std::mem::swap(&mut entries, &mut self.entries);
            entries.insert(i, (name, path));
            proof {
                let t = entries@.map_values(|e: (String, String)| entry_view(e));
                assert(t =~= s.insert(i as int, (key, val)));
                assert forall|a: int, b: int| 0 <= a < b < t.len()
                    implies name_lt(#[trigger] t[a].0, #[trigger] t[b].0) by {
                    if b < i {
                        assert(name_lt(s[a].0, s[b].0));
                    } else if b == i {
                        assert(name_lt(s[a].0, key));
                    } else if a < i {
                        assert(name_lt(s[a].0, key));
                        lemma_key_before_rest(s, i as int, key, b - 1);
                        lemma_name_lt_transitive(s[a].0, key, s[b - 1].0);
                    } else if a == i {
                        lemma_key_before_rest(s, i as int, key, b - 1);
                    } else {
                        assert(name_lt(s[a - 1].0, s[b - 1].0));
                    }
                }
            }
            self.entries = entries;
            proof {
                self.lemma_view_after_insert(s, i as int, key, val);
            }
            None
        }
    }

    proof fn lemma_view_after_update(
        &self,
        s: Seq<(Seq<char>, Seq<char>)>,
        i: int,
        key: Seq<char>,
        val: Seq<char>,
    )
        requires
            ascending(s),
            0 <= i < s.len(),
            s[i].0 == key,
            self.entry_seq() == s.update(i, (key, val)),
            ascending(self.entry_seq()),
        ensures
            entries_to_map(self.entry_seq()) == entries_to_map(s).insert(key, val),
    {
        let t = self.entry_seq();
        let m = entries_to_map(s).insert(key, val);
        assert(t[i].0 == key);
        assert forall|k: Seq<char>| entries_to_map(t).dom().contains(k) <==> m.dom().contains(k) by {
            if entries_to_map(t).dom().contains(k) {
                let j = choose|j: int| 0 <= j < t.len() && #[trigger] t[j].0 == k;
                if j != i {
                    assert(s[j].0 == k);
                }
            }
            if m.dom().contains(k) && k != key {
                let j = choose|j: int| 0 <= j < s.len() && #[trigger] s[j].0 == k;
                assert(t[j].0 == k);
            }
        }
        assert forall|k: Seq<char>| #[trigger] m.dom().contains(k) implies entries_to_map(t)[k] == m[k] by {
            let j = if k == key { i } else { choose|j: int| 0 <= j < s.len() && #[trigger] s[j].0 == k };
            assert(t[j].0 == k);
            lemma_entries_to_map_at(t, j);
            if k != key {
                lemma_entries_to_map_at(s, j);
            }
        }
        assert(entries_to_map(t) =~= m);
    }

    proof fn lemma_view_after_insert(
        &self,
        s: Seq<(Seq<char>, Seq<char>)>,
        i: int,
        key: Seq<char>,
        val: Seq<char>,
    )
        requires
            ascending(s),
            0 <= i <= s.len(),
            self.entry_seq() == s.insert(i, (key, val)),
            ascending(self.entry_seq()),
        ensures
            entries_to_map(self.entry_seq()) == entries_to_map(s).insert(key, val),
    {
        let t = self.entry_seq();
        let m = entries_to_map(s).insert(key, val);
        assert(t[i].0 == key);
        assert forall|k: Seq<char>| entries_to_map(t).dom().contains(k) <==> m.dom().contains(k) by {
            if entries_to_map(t).dom().contains(k) {
                let j = choose|j: int| 0 <= j < t.len() && #[trigger] t[j].0 == k;
                if j < i {
                    assert(s[j].0 == k);
                } else if j > i {
                    assert(s[j - 1].0 == k);
                }
            }
            if m.dom().contains(k) && k != key {
                let j = choose|j: int| 0 <= j < s.len() && #[trigger] s[j].0 == k;
                if j < i {
                    assert(t[j].0 == k);
                } else {
                    assert(t[j + 1].0 == k);
                }
            }
        }
        assert forall|k: Seq<char>| #[trigger] m.dom().contains(k) implies entries_to_map(t)[k] == m[k] by {
            if k == key {
                lemma_entries_to_map_at(t, i);
            } else {
                let j = choose|j: int| 0 <= j < s.len() && #[trigger] s[j].0 == k;
                lemma_entries_to_map_at(s, j);
                if j < i {
                    lemma_entries_to_map_at(t, j);
                } else {
                    lemma_entries_to_map_at(t, j + 1);
                }
            }
        }
        assert(entries_to_map(t) =~= m);
    }
}

impl View for CueMap {
    type V = Map<Seq<char>, Seq<char>>;

    closed spec fn view(&self) -> Map<Seq<char>, Seq<char>> {
        entries_to_map(self.entry_seq())
    }
}

} // verus!
