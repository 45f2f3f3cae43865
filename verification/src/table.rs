//! A small table keyed by name.
//!
//! Entries are kept in the order in which their keys first arrived, and no
//! key stands twice. To contracts a table is the map from each key's
//! characters to the view of its value.

use vstd::prelude::*;

verus! {

/// A table from names to values of type `V`.
pub struct Table<V> {
    entries: Vec<(String, V)>,
}

/// The names under which `entries` stand, in their order.
spec fn names_of<V>(entries: Seq<(String, V)>) -> Seq<Seq<char>> {
    Seq::new(entries.len(), |i: int| entries[i].0@)
}

/// No name occurs twice in `names`.
spec fn distinct_names(names: Seq<Seq<char>>) -> bool {
    forall|i: int, j: int| 0 <= i < j < names.len() ==> names[i] != names[j]
}

/// `name` is one of `names`.
spec fn has_name(names: Seq<Seq<char>>, name: Seq<char>) -> bool {
    exists|i: int| 0 <= i < names.len() && names[i] == name
}

/// A place at which `name` stands in `names`, if it stands there at all.
spec fn slot_of(names: Seq<Seq<char>>, name: Seq<char>) -> int {
    choose|i: int| 0 <= i < names.len() && names[i] == name
}

/// Among distinct names, a name stands at one place only.
proof fn lemma_slot_unique(names: Seq<Seq<char>>, at: int)
    requires
        distinct_names(names),
        0 <= at < names.len(),
    ensures
        has_name(names, names[at]),
        slot_of(names, names[at]) == at,
{
    let found = slot_of(names, names[at]);
    assert(0 <= found < names.len() && names[found] == names[at]);
    if found < at {
        assert(names[found] != names[at]);
    } else if at < found {
        assert(names[at] != names[found]);
    }
}

impl<V: View> View for Table<V> {
    type V = Map<Seq<char>, V::V>;

    closed spec fn view(&self) -> Map<Seq<char>, V::V> {
        Map::new(
            |name: Seq<char>| has_name(names_of(self.entries@), name),
            |name: Seq<char>| self.entries@[slot_of(names_of(self.entries@), name)].1@,
        )
    }
}

impl<V> Table<V> {
    /// No key stands twice.
    #[verifier::type_invariant]
    spec fn keys_are_distinct(self) -> bool {
        distinct_names(names_of(self.entries@))
    }
}

impl<V: View> Table<V> {
    /// The empty table.
    pub fn new() -> (table: Self)
        ensures
            table@ == Map::<Seq<char>, V::V>::empty(),
    {
        let table = Table { entries: Vec::new() };
        assert(table@ =~= Map::<Seq<char>, V::V>::empty());
        table
    }

    /// The place of `key` among the keys.
    fn find(&self, key: &String) -> (slot: Option<usize>)
        ensures
            match slot {
                Some(at) => at < self.entries.len() && self.entries@[at as int].0@ == key@,
                None => !has_name(names_of(self.entries@), key@),
            },
    {
        let mut at: usize = 0;
        while at < self.entries.len()
            invariant
                at <= self.entries.len(),
                forall|i: int| 0 <= i < at ==> names_of(self.entries@)[i] != key@,
            decreases self.entries.len() - at,
        {
            if self.entries[at].0 == *key {
                assert(names_of(self.entries@)[at as int] == key@);
                return Some(at);
            }
            at += 1;
        }
        None
    }

    /// The value recorded under `key`, if there is one.
    pub fn get(&self, key: &String) -> (found: Option<&V>)
        ensures
            match found {
                Some(value) => self@.contains_key(key@) && self@[key@] == value@,
                None => !self@.contains_key(key@),
            },
    {
        proof {
            use_type_invariant(self);
        }
        match self.find(key) {
            Some(at) => {
                proof {
                    lemma_slot_unique(names_of(self.entries@), at as int);
                }
                Some(&self.entries[at].1)
            },
            None => None,
        }
    }

    /// Records `value` under `key`, in place of what was recorded there.
    pub fn insert(&mut self, key: String, value: V)
        ensures
            final(self)@ == old(self)@.insert(key@, value@),
    {
        proof {
            use_type_invariant(&*self);
        }
        let ghost before = *self;
        let ghost names = names_of(self.entries@);
        let slot = self.find(&key);
        let mut entries: Vec<(String, V)> = Vec::new();
        std::mem::swap(&mut entries, &mut self.entries);
        match slot {
            Some(at) => {
                entries.set(at, (key, value));
                proof {
                    assert(names_of(entries@) =~= names);
                    lemma_slot_unique(names, at as int);
                }
            },
            None => {
                entries.push((key, value));
                proof {
                    let grown = names_of(entries@);
                    let last = names.len() as int;
                    assert(grown =~= names.push(key@));
                    assert(distinct_names(grown)) by {
                        assert forall|i: int| 0 <= i < last implies grown[i] != key@ by {
                            assert(names[i] != key@);
                        }
                    }
                    lemma_slot_unique(grown, last);
                    assert forall|name: Seq<char>| has_name(names, name) implies has_name(
                        grown,
                        name,
                    ) && slot_of(grown, name) == slot_of(names, name) by {
                        lemma_slot_unique(grown, slot_of(names, name));
                    }
                    assert forall|name: Seq<char>| has_name(grown, name) implies name == key@
                        || has_name(names, name) by {
                        if slot_of(grown, name) != last {
                            assert(names[slot_of(grown, name)] == name);
                        }
                    }
                }
            },
        }
        self.entries = entries;
        assert(self@ =~= before@.insert(key@, value@));
    }
}

} // verus!
