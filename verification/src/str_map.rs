//! A map from strings to strings, kept as a list of entries with distinct keys:
//! the map that `my_macro!`'s expansion builds.
use vstd::prelude::*;

verus! {

/// A map from strings to strings; a later insertion under a key replaces the
/// earlier value.
pub struct StrMap {
    entries: Vec<(String, String)>,
    contents: Ghost<Map<Seq<char>, Seq<char>>>,
}

impl View for StrMap {
    type V = Map<Seq<char>, Seq<char>>;

    closed spec fn view(&self) -> Map<Seq<char>, Seq<char>> {
        self.contents@
    }
}

/// The entries `es` hold exactly the contents `m`, each key once.
spec fn entries_hold(es: Seq<(String, String)>, m: Map<Seq<char>, Seq<char>>) -> bool {
    &&& forall|i: int| 0 <= i < es.len() ==> m.dom().contains(#[trigger] es[i].0@) && m[es[i].0@] == es[i].1@
    &&& forall|k: Seq<char>| #[trigger] m.dom().contains(k) ==> exists|i: int| 0 <= i < es.len() && es[i].0@ == k
    &&& forall|i: int, j: int| 0 <= i < es.len() && 0 <= j < es.len() && i != j ==> es[i].0@ != es[j].0@
}

impl StrMap {
    /// The entries hold exactly the map's contents, each key once.
    #[verifier::type_invariant]
    spec fn wf(&self) -> bool {
        entries_hold(self.entries@, self.contents@)
    }

    /// An empty map.
    pub fn new() -> (res: StrMap)
        ensures
            res@ == Map::<Seq<char>, Seq<char>>::empty(),
    {
        StrMap { entries: Vec::new(), contents: Ghost(Map::empty()) }
    }

    fn find(&self, k: &String) -> (res: Option<usize>)
        ensures
            match res {
                Some(j) => j < self.entries@.len() && self.entries@[j as int].0@ == k@,
                None => !self@.dom().contains(k@),
            },
    {
        proof {
            use_type_invariant(self);
        }
        let mut i: usize = 0;
        while i < self.entries.len()
            invariant
                i <= self.entries@.len(),
                forall|j: int| 0 <= j < i ==> self.entries@[j].0@ != k@,
            decreases self.entries@.len() - i,
        {
            if self.entries[i].0 == *k {
                return Some(i);
            }
            i = i + 1;
        }
        None
    }

    /// Inserts `v` under `k`, replacing any earlier value: reading `k` afterwards
    /// gives `v`, and every other key keeps its value.
    #[verifier::rlimit(40)]
    pub fn insert(&mut self, k: String, v: String)
        ensures
            final(self)@ == old(self)@.insert(k@, v@),
    {
        proof {
            use_type_invariant(&*self);
        }
        let found = self.find(&k);
        let mut taken = StrMap::new();
        std::mem::swap(self, &mut taken);
        proof {
            use_type_invariant(&taken);
        }
        let StrMap { entries: mut es, contents: Ghost(m) } = taken;
        let ghost old_es = es@;
        let ghost kv = k@;
        let ghost vv = v@;
        match found {
            Some(j) => {
                es.set(j, (k, v));
            },
            None => {
                es.push((k, v));
            },
        }
        proof {
            let m2 = m.insert(kv, vv);
            assert forall|i: int, j: int| 0 <= i < es@.len() && 0 <= j < es@.len() && i != j implies es@[i].0@ != es@[j].0@ by {
                if i < old_es.len() && j < old_es.len() {
                    if es@[i].0@ != kv && es@[j].0@ != kv {
                        assert(es@[i] == old_es[i]);
                        assert(es@[j] == old_es[j]);
                    }
                }
            }
            assert forall|i: int| 0 <= i < es@.len() implies m2.dom().contains(#[trigger] es@[i].0@) && m2[es@[i].0@] == es@[i].1@ by {
                if es@[i].0@ != kv {
                    assert(es@[i] == old_es[i]);
                }
            }
            assert forall|key: Seq<char>| #[trigger] m2.dom().contains(key) implies exists|i: int| 0 <= i < es@.len() && es@[i].0@ == key by {
                if key == kv {
                    if es@.len() > old_es.len() {
                        assert(es@[es@.len() - 1].0@ == kv);
                    } else {
                        let j = choose|j: int| 0 <= j < old_es.len() && old_es[j].0@ == kv;
                        assert(es@[j].0@ == kv);
                    }
                } else {
                    let i = choose|i: int| 0 <= i < old_es.len() && old_es[i].0@ == key;
                    assert(es@[i] == old_es[i]);
                }
            }
        }
        let ghost m2 = m.insert(kv, vv);
        assert(entries_hold(es@, m2));
        *self = StrMap { entries: es, contents: Ghost(m2) };
    }

    /// The value under `k`, if there is one.
    pub fn get(&self, k: &String) -> (res: Option<&String>)
        ensures
            match res {
                Some(v) => self@.dom().contains(k@) && v@ == self@[k@],
                None => !self@.dom().contains(k@),
            },
    {
        proof {
            use_type_invariant(self);
        }
        match self.find(k) {
            Some(j) => Some(&self.entries[j].1),
            None => None,
        }
    }
}

} // verus!
