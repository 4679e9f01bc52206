//! A small table keyed by names.

use vstd::prelude::*;
use vstd::string::*;

verus! {

/// A table from names to values that keeps the order in which the names
/// came and holds no name twice.
pub struct NameTable<T> {
    names: Vec<String>,
    values: Vec<T>,
}

impl<T> NameTable<T> {
    /// The names of the table, in the order in which they were entered.
    pub closed spec fn keys(&self) -> Seq<Seq<char>> {
        Seq::new(self.names@.len(), |i: int| self.names@[i]@)
    }

    /// The values of the table, each at the position of its name.
    pub closed spec fn values(&self) -> Seq<T> {
        self.values@
    }

    /// The table's invariant: one value per name, and no name twice.
    pub open spec fn wf(&self) -> bool {
        &&& self.keys().len() == self.values().len()
        &&& self.keys().no_duplicates()
    }

    /// The table holds an entry under `name`.
    pub open spec fn has(&self, name: Seq<char>) -> bool {
        self.keys().contains(name)
    }

    /// The table as a map from names to values.
    pub open spec fn view(&self) -> Map<Seq<char>, T> {
        Map::new(|name: Seq<char>| self.has(name), |name: Seq<char>| self.values()[self.keys().index_of(name)])
    }

    /// An empty table.
    pub fn new() -> (table: NameTable<T>)
        ensures
            table.wf(),
            table.keys() == Seq::<Seq<char>>::empty(),
            table@ == Map::<Seq<char>, T>::empty(),
    {
        NameTable { names: Vec::new(), values: Vec::new() }
    }

    /// In a well-formed table the entry at a position is the one that is
    /// found under its name.
    pub proof fn lemma_entry_at(&self, i: int)
        requires
            self.wf(),
            0 <= i < self.keys().len(),
        ensures
            self.has(self.keys()[i]),
            self.keys().index_of(self.keys()[i]) == i,
            self@[self.keys()[i]] == self.values()[i],
    {
        let name = self.keys()[i];
        let k = self.keys().index_of(name);
        assert(self.keys()[k] == name && 0 <= k < self.keys().len());
    }

    /// The number of entries.
    pub fn len(&self) -> (n: usize)
        requires
            self.wf(),
        ensures
            n == self.keys().len(),
    {
        self.names.len()
    }

    /// The name of the entry at a position.
    pub fn name_at(&self, i: usize) -> (name: &String)
        requires
            self.wf(),
            i < self.keys().len(),
        ensures
            name@ == self.keys()[i as int],
    {
        &self.names[i]
    }

    /// The value of the entry at a position.
    pub fn value_at(&self, i: usize) -> (value: &T)
        requires
            self.wf(),
            i < self.keys().len(),
        ensures
            *value == self.values()[i as int],
    {
        &self.values[i]
    }

    /// The position of the entry under `name`, if there is one.
    pub fn position(&self, name: &str) -> (found: Option<usize>)
        requires
            self.wf(),
        ensures
            match found {
                Some(i) => i < self.keys().len() && self.keys()[i as int] == name@
                    && self.keys().index_of(name@) == i,
                None => !self.has(name@),
            },
    {
        let key = String::from_str(name);
        let mut i: usize = 0;
        while i < self.names.len()
            invariant
                self.wf(),
                i <= self.names@.len(),
                key@ == name@,
                forall|j: int| 0 <= j < i ==> self.keys()[j] != name@,
            decreases self.names@.len() - i,
        {
            if self.names[i] == key {
                proof {
                    self.lemma_entry_at(i as int);
                }
                return Some(i);
            }
            i += 1;
        }
        None
    }

    /// The value under `name`, if there is one.
    pub fn get(&self, name: &str) -> (found: Option<&T>)
        requires
            self.wf(),
        ensures
            match found {
                Some(value) => self.has(name@) && *value == self@[name@],
                None => !self.has(name@),
            },
    {
        match self.position(name) {
            Some(i) => Some(&self.values[i]),
            None => None,
        }
    }

    /// Enters a new name with its value. A name that the table holds
    /// already is refused and the table stays as it was.
    pub fn insert_new(&mut self, name: &str, value: T) -> (entered: bool)
        requires
            old(self).wf(),
        ensures
            final(self).wf(),
            entered == !old(self).has(name@),
            entered ==> final(self).keys() == old(self).keys().push(name@),
            entered ==> final(self)@ == old(self)@.insert(name@, value),
            !entered ==> final(self).keys() == old(self).keys() && final(self)@ == old(self)@,
    {
        if self.position(name).is_some() {
            return false;
        }
        let ghost before = *self;
        self.names.push(String::from_str(name));
        self.values.push(value);
        proof {
            let last = before.keys().len() as int;
            assert(self.keys() == before.keys().push(name@));
            assert(self.keys().no_duplicates()) by {
                assert forall|i: int, j: int|
                    0 <= i < self.keys().len() && 0 <= j < self.keys().len() && i != j implies self.keys()[i]
                    != self.keys()[j] by {
                    if i < last && j < last {
                        assert(before.keys()[i] != before.keys()[j]);
                    } else if i < last {
                        assert(before.has(before.keys()[i]));
                    } else {
                        assert(before.has(before.keys()[j]));
                    }
                }
            }
            assert(self@ == before@.insert(name@, value)) by {
                assert forall|key: Seq<char>| self.has(key) <==> before.has(key) || key == name@ by {
                    if before.has(key) {
                        let k = before.keys().index_of(key);
                        assert(self.keys()[k] == key);
                    }
                    if key == name@ {
                        assert(self.keys()[last] == key);
                    }
                    if self.has(key) && key != name@ {
                        let k = self.keys().index_of(key);
                        assert(before.keys()[k] == key);
                    }
                }
                assert forall|key: Seq<char>| self.has(key) implies #[trigger] self@[key]
                    == before@.insert(name@, value)[key] by {
                    if key == name@ {
                        self.lemma_entry_at(last);
                    } else {
                        let k = before.keys().index_of(key);
                        before.lemma_entry_at(k);
                        self.lemma_entry_at(k);
                    }
                }
            }
        }
        true
    }

    /// Replaces the value under a name that the table holds. An unknown name
    /// is refused and the table stays as it was.
    pub fn replace(&mut self, name: &str, value: T) -> (replaced: bool)
        requires
            old(self).wf(),
        ensures
            final(self).wf(),
            final(self).keys() == old(self).keys(),
            replaced == old(self).has(name@),
            replaced ==> final(self)@ == old(self)@.insert(name@, value),
            !replaced ==> final(self)@ == old(self)@,
    {
        match self.position(name) {
            Some(i) => {
                let ghost before = *self;
                self.values.set(i, value);
                proof {
                    assert(self@ == before@.insert(name@, value)) by {
                        assert forall|key: Seq<char>| self.has(key) implies #[trigger] self@[key]
                            == before@.insert(name@, value)[key] by {
                            let k = before.keys().index_of(key);
                            before.lemma_entry_at(k);
                            self.lemma_entry_at(k);
                        }
                    }
                }
                true
            },
            None => false,
        }
    }
}

} // verus!
