//! A table of named attenuation models, built once and then read by name.

use vstd::prelude::*;

verus! {

/// The error of a lookup under a name that the table does not hold.
#[derive(Debug)]
pub struct ModelNotFound {
    /// The name that was asked for.
    pub name: String,
}

/// Named models, each name held once, in the order in which the names were
/// first inserted.
pub struct ModelTable<M> {
    entries: Vec<(String, M)>,
}

impl<M> ModelTable<M> {
    #[verifier::type_invariant]
    closed spec fn names_unique(self) -> bool {
        forall|i: int, j: int|
            0 <= i < j < self.entries.len() ==> self.entries@[i].0@ != self.entries@[j].0@
    }

    /// Entry `i` holds the name `name`.
    closed spec fn has_at(self, name: Seq<char>, i: int) -> bool {
        0 <= i < self.entries.len() && self.entries@[i].0@ == name
    }

    proof fn lemma_entry_in_view(self, name: Seq<char>, i: int)
        requires
            self.names_unique(),
            self.has_at(name, i),
        ensures
            self@.contains_key(name),
            self@[name] == self.entries@[i].1,
    {
        let j = choose|j: int| self.has_at(name, j);
        assert(self.has_at(name, j));
        assert(i == j) by {
            if i < j {
                assert(self.entries@[i].0@ != self.entries@[j].0@);
            } else if j < i {
                assert(self.entries@[j].0@ != self.entries@[i].0@);
            }
        }
    }

    /// The position of the entry named `key`, if there is one.
    fn position_of(&self, key: &String) -> (r: Option<usize>)
        ensures
            match r {
                Some(i) => self.has_at(key@, i as int),
                None => forall|i: int| !self.has_at(key@, i),
            },
    {
        let mut i: usize = 0;
        while i < self.entries.len()
            invariant
                0 <= i <= self.entries.len(),
                forall|j: int| 0 <= j < i ==> !self.has_at(key@, j),
            decreases self.entries.len() - i,
        {
            if self.entries[i].0 == *key {
                return Some(i);
            }
            i += 1;
        }
        None
    }

    /// The model named `name`, or `ModelNotFound` where the table holds no
    /// such name.
    pub fn get(&self, name: &str) -> (r: Result<&M, ModelNotFound>)
        ensures
            match r {
                Ok(m) => self@.contains_key(name@) && *m == self@[name@],
                Err(e) => !self@.contains_key(name@) && e.name@ == name@,
            },
    {
        proof {
            use_type_invariant(self);
        }
        let key = name.to_owned();
        match self.position_of(&key) {
            Some(i) => {
                proof {
                    self.lemma_entry_in_view(name@, i as int);
                }
                Ok(&self.entries[i].1)
            },
            None => Err(ModelNotFound { name: key }),
        }
    }

    /// Adds `model` under `name`, replacing the model that the name held.
    pub fn insert(&mut self, name: String, model: M)
        ensures
            final(self)@ == old(self)@.insert(name@, model),
    {
        proof {
            use_type_invariant(&*self);
        }
        let ghost before = *self;
        let ghost key = name@;
        let pos = self.position_of(&name);
        let mut entries = Vec::new();
        std::mem::swap(&mut entries, &mut self.entries);
        match pos {
            Some(i) => {
                entries[i] = (name, model);
            },
            None => {
                entries.push((name, model));
            },
        }
        proof {
            assert forall|a: int, b: int| 0 <= a < b < entries.len() implies entries@[a].0@
                != entries@[b].0@ by {
                if pos is None && b == before.entries.len() {
                    assert(!before.has_at(key, a));
                } else if pos is Some {
                    assert(before.entries@[a].0@ != before.entries@[b].0@);
                }
            }
        }
        self.entries = entries;
        proof {
            let after = *self;
            assert forall|k: Seq<char>|
                #![trigger after@.contains_key(k)]
                #![trigger before@.contains_key(k)]
                after@.contains_key(k) == before@.insert(key, model).contains_key(k) && (
                after@.contains_key(k) ==> after@[k] == before@.insert(key, model)[k]) by {
                if k == key {
                    let i = match pos {
                        Some(i) => i as int,
                        None => before.entries.len() as int,
                    };
                    assert(after.has_at(k, i));
                    after.lemma_entry_in_view(k, i);
                } else if exists|i: int| before.has_at(k, i) {
                    let i = choose|i: int| before.has_at(k, i);
                    before.lemma_entry_in_view(k, i);
                    assert(after.has_at(k, i));
                    after.lemma_entry_in_view(k, i);
                } else {
                    assert forall|i: int| !after.has_at(k, i) by {
                        if after.has_at(k, i) {
                            assert(before.has_at(k, i));
                        }
                    }
                }
            }
            assert(after@ =~= before@.insert(key, model));
        }
    }

    /// The names that the table holds, each once, in the order in which
    /// they were first inserted.
    pub fn names(&self) -> (r: Vec<String>)
        ensures
            forall|k: Seq<char>|
                self@.contains_key(k) <==> exists|i: int| 0 <= i < r.len() && #[trigger] r@[i]@ == k,
            forall|i: int, j: int| 0 <= i < j < r.len() ==> r@[i]@ != r@[j]@,
    {
        proof {
            use_type_invariant(self);
        }
        let mut r: Vec<String> = Vec::new();
        let mut i: usize = 0;
        while i < self.entries.len()
            invariant
                0 <= i <= self.entries.len(),
                r.len() == i,
                forall|j: int| 0 <= j < i ==> #[trigger] r@[j]@ == self.entries@[j].0@,
                self.names_unique(),
            decreases self.entries.len() - i,
        {
            r.push(self.entries[i].0.clone());
            i += 1;
        }
        proof {
            assert forall|k: Seq<char>|
                self@.contains_key(k) <==> exists|i: int| 0 <= i < r.len() && #[trigger] r@[i]@ == k by {
                if exists|i: int| 0 <= i < r.len() && #[trigger] r@[i]@ == k {
                    let i = choose|i: int| 0 <= i < r.len() && #[trigger] r@[i]@ == k;
                    assert(self.has_at(k, i));
                }
                if self@.contains_key(k) {
                    let i = choose|i: int| self.has_at(k, i);
                    assert(r@[i]@ == k);
                }
            }
        }
        r
    }

    /// An empty table.
    pub fn new() -> (t: Self)
        ensures
            t@ == Map::<Seq<char>, M>::empty(),
    {
        let t = ModelTable { entries: Vec::new() };
        assert(t@ =~= Map::<Seq<char>, M>::empty());
        t
    }
}

impl<M> View for ModelTable<M> {
    type V = Map<Seq<char>, M>;

    /// Each name that the table holds, with its model.
    closed spec fn view(&self) -> Map<Seq<char>, M> {
        Map::new(
            |k: Seq<char>| exists|i: int| self.has_at(k, i),
            |k: Seq<char>| self.entries@[choose|i: int| self.has_at(k, i)].1,
        )
    }
}

} // verus!
