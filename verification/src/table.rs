//! A table from names to values that remembers the order in which the names
//! were first inserted.

use vstd::prelude::*;

verus! {

/// The names of a sequence of entries, as texts.
pub open spec fn entry_names<V>(entries: Seq<(String, V)>) -> Seq<Seq<char>> {
    Seq::new(entries.len(), |i: int| entries[i].0@)
}

/// The values of a sequence of entries.
pub open spec fn entry_values<V>(entries: Seq<(String, V)>) -> Seq<V> {
    Seq::new(entries.len(), |i: int| entries[i].1)
}

/// A map from names to values in which no name occurs twice. Inserting under
/// a name that is present replaces its value and keeps its place.
#[derive(Debug, Clone)]
pub struct Table<V> {
    entries: Vec<(String, V)>,
}

impl<V> Table<V> {
    /// No name occurs twice.
    pub closed spec fn wf(&self) -> bool {
        entry_names(self.entries@).no_duplicates()
    }

    /// The names, in the order of their first insertion.
    pub closed spec fn names(&self) -> Seq<Seq<char>> {
        entry_names(self.entries@)
    }

    /// The values, each at the place of its name.
    pub closed spec fn values(&self) -> Seq<V> {
        entry_values(self.entries@)
    }

    /// The place of a name, if it is present.
    pub open spec fn position(&self, name: Seq<char>) -> Option<int> {
        if self.names().contains(name) {
            Some(self.names().index_of(name))
        } else {
            None
        }
    }

    /// The value stored under a name, if it is present.
    pub open spec fn lookup(&self, name: Seq<char>) -> Option<V> {
        match self.position(name) {
            Some(i) => Some(self.values()[i]),
            None => None,
        }
    }

    /// A table holds as many values as names, and no name twice.
    pub proof fn lemma_distinct(self)
        requires
            self.wf(),
        ensures
            self.names().no_duplicates(),
            self.names().len() == self.values().len(),
    {
    }

    /// A name is found at the one place that holds it.
    pub proof fn lemma_position(self, i: int)
        requires
            self.wf(),
            0 <= i < self.names().len(),
        ensures
            self.position(self.names()[i]) == Some(i),
            self.lookup(self.names()[i]) == Some(self.values()[i]),
    {
        let names = self.names();
        assert(names.contains(names[i]));
        let j = names.index_of(names[i]);
        assert(0 <= j < names.len() && names[j] == names[i]);
    }

    /// A table without entries.
    pub fn new() -> (t: Self)
        ensures
            t.wf(),
            t.names() == Seq::<Seq<char>>::empty(),
            t.values() == Seq::<V>::empty(),
    {
        Table { entries: Vec::new() }
    }

    /// How many names the table holds.
    pub fn len(&self) -> (n: usize)
        ensures
            n == self.names().len(),
            n == self.values().len(),
    {
        self.entries.len()
    }

    /// The name at place `i`.
    pub fn name_at(&self, i: usize) -> (name: &String)
        requires
            i < self.names().len(),
        ensures
            name@ == self.names()[i as int],
    {
        &self.entries[i].0
    }

    /// The value at place `i`.
    pub fn value_at(&self, i: usize) -> (value: &V)
        requires
            i < self.values().len(),
        ensures
            *value == self.values()[i as int],
    {
        &self.entries[i].1
    }

    /// The place of `name`, found by going through the names in order.
    pub fn find(&self, name: &str) -> (r: Option<usize>)
        requires
            self.wf(),
        ensures
            match r {
                Some(i) => self.position(name@) == Some(i as int) && i < self.names().len(),
                None => self.position(name@) is None,
            },
    {
        let wanted: String = name.to_owned();
        let mut i: usize = 0;
        while i < self.entries.len()
            invariant
                self.wf(),
                i <= self.entries.len(),
                wanted@ == name@,
                forall|j: int| 0 <= j < i ==> self.names()[j] != name@,
            decreases self.entries.len() - i,
        {
            if self.entries[i].0 == wanted {
                proof {
                    self.lemma_position(i as int);
                }
                return Some(i);
            }
            i += 1;
        }
        None
    }

    /// The value stored under `name`.
    pub fn get(&self, name: &str) -> (r: Option<&V>)
        requires
            self.wf(),
        ensures
            match r {
                Some(v) => self.lookup(name@) == Some(*v),
                None => self.lookup(name@) is None,
            },
    {
        match self.find(name) {
            Some(i) => Some(&self.entries[i].1),
            None => None,
        }
    }

    /// Stores `value` under `name`: in place of the value that was there, or
    /// behind the last entry when the name is new.
    pub fn insert(&mut self, name: String, value: V)
        requires
            old(self).wf(),
        ensures
            final(self).wf(),
            match old(self).position(name@) {
                Some(i) => {
                    &&& final(self).names() == old(self).names()
                    &&& final(self).values() == old(self).values().update(i, value)
                },
                None => {
                    &&& final(self).names() == old(self).names().push(name@)
                    &&& final(self).values() == old(self).values().push(value)
                },
            },
            final(self).lookup(name@) == Some(value),
            forall|other: Seq<char>| other != name@ ==> final(self).lookup(other) == old(
                self,
            ).lookup(other),
    {
        let ghost before = self.entries@;
        match self.find(name.as_str()) {
            Some(i) => {
                self.entries.set(i, (name, value));
                proof {
                    assert(entry_names(self.entries@) =~= entry_names(before));
                    assert(entry_values(self.entries@) =~= entry_values(before).update(
                        i as int,
                        value,
                    ));
                }
            },
            None => {
                self.entries.push((name, value));
                proof {
                    assert(entry_names(self.entries@) =~= entry_names(before).push(name@));
                    assert(entry_values(self.entries@) =~= entry_values(before).push(value));
                }
            },
        }
        proof {
            let names = entry_names(self.entries@);
            assert(names.contains(name@)) by {
                if entry_names(before).contains(name@) {
                    let k = entry_names(before).index_of(name@);
                    assert(names[k] == name@);
                } else {
                    assert(names[names.len() - 1] == name@);
                }
            }
            assert forall|other: Seq<char>| other != name@ implies final(self).lookup(other)
                == old(self).lookup(other) by {
                if entry_names(before).contains(other) {
                    let k = entry_names(before).index_of(other);
                    assert(names[k] == other);
                    assert(names.contains(other));
                    let k2 = names.index_of(other);
                    assert(k2 == k);
                } else {
                    if names.contains(other) {
                        let k2 = names.index_of(other);
                        assert(k2 < entry_names(before).len() ==> entry_names(before)[k2]
                            == other);
                    }
                }
            }
        }
    }
}

} // verus!
