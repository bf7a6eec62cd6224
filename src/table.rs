use vstd::prelude::*;

verus! {

/// A table keyed by server id that holds at most one value per id.
///
/// Its model is a map from the id's characters to the value. vstd states
/// `HashMap` and `HashSet` only for key types that obey its key model, which
/// `String` can be granted only by an assumption; the entries are therefore
/// kept in a vector whose ids are proved distinct.
pub struct Table<V> {
    entries: Vec<(String, V)>,
    model: Ghost<Map<Seq<char>, V>>,
}

impl<V> View for Table<V> {
    type V = Map<Seq<char>, V>;

    closed spec fn view(&self) -> Map<Seq<char>, V> {
        self.model@
    }
}

impl<V> Table<V> {
    /// The entries agree with the model and no id occurs twice.
    pub closed spec fn wf(&self) -> bool {
        &&& forall|i: int|
            0 <= i < self.entries@.len() ==> {
                &&& self.model@.contains_key(#[trigger] self.entries@[i].0@)
                &&& self.model@[self.entries@[i].0@] == self.entries@[i].1
            }
        &&& forall|k: Seq<char>| #[trigger]
            self.model@.contains_key(k) ==> exists|i: int|
                0 <= i < self.entries@.len() && #[trigger] self.entries@[i].0@ == k
        &&& forall|i: int, j: int|
            0 <= i < self.entries@.len() && 0 <= j < self.entries@.len() && i != j
                ==> #[trigger] self.entries@[i].0@ != #[trigger] self.entries@[j].0@
    }

    /// An empty table.
    pub fn new() -> (r: Table<V>)
        ensures
            r.wf(),
            r@ == Map::<Seq<char>, V>::empty(),
    {
        Table { entries: Vec::new(), model: Ghost(Map::empty()) }
    }

    fn find(&self, key: &String) -> (r: Option<usize>)
        requires
            self.wf(),
        ensures
            match r {
                Some(i) => i < self.entries@.len() && self.entries@[i as int].0@ == key@,
                None => !self@.contains_key(key@),
            },
    {
        let mut i: usize = 0;
        while i < self.entries.len()
            invariant
                self.wf(),
                i <= self.entries@.len(),
                forall|j: int| 0 <= j < i ==> self.entries@[j].0@ != key@,
            decreases self.entries@.len() - i,
        {
            if self.entries[i].0 == *key {
                return Some(i);
            }
            i = i + 1;
        }
        None
    }

    /// Whether the table holds a value for `key`.
    pub fn contains(&self, key: &String) -> (r: bool)
        requires
            self.wf(),
        ensures
            r == self@.contains_key(key@),
    {
        self.find(key).is_some()
    }

    /// The value held for `key`, if any.
    pub fn get(&self, key: &String) -> (r: Option<&V>)
        requires
            self.wf(),
        ensures
            match r {
                Some(v) => self@.contains_key(key@) && *v == self@[key@],
                None => !self@.contains_key(key@),
            },
    {
        match self.find(key) {
            Some(i) => Some(&self.entries[i].1),
            None => None,
        }
    }

    /// Takes the value held for `key` out of the table.
    pub fn remove(&mut self, key: &String) -> (r: Option<V>)
        requires
            old(self).wf(),
        ensures
            final(self).wf(),
            final(self)@ == old(self)@.remove(key@),
            match r {
                Some(v) => old(self)@.contains_key(key@) && v == old(self)@[key@],
                None => !old(self)@.contains_key(key@),
            },
    {
        match self.find(key) {
            Some(i) => {
                let ghost before = self.entries@;
                let (_, v) = self.entries.remove(i);
                self.model = Ghost(self.model@.remove(key@));
                assert forall|j: int| 0 <= j < self.entries@.len() implies
                    #[trigger] self.entries@[j].0@ != key@ by {
                    if j < i {
                        assert(before[j] == self.entries@[j]);
                    } else {
                        assert(before[j + 1] == self.entries@[j]);
                    }
                }
                assert forall|k: Seq<char>| #[trigger] self.model@.contains_key(k) implies
                    exists|j: int| 0 <= j < self.entries@.len() && #[trigger] self.entries@[j].0@ == k by {
                    let j0 = choose|j: int| 0 <= j < before.len() && #[trigger] before[j].0@ == k;
                    if j0 < i {
                        assert(self.entries@[j0].0@ == k);
                    } else {
                        assert(j0 != i);
                        assert(self.entries@[j0 - 1].0@ == k);
                    }
                }
                assert forall|a: int, b: int|
                    0 <= a < self.entries@.len() && 0 <= b < self.entries@.len() && a != b
                    implies #[trigger] self.entries@[a].0@ != #[trigger] self.entries@[b].0@ by {
                    let a0 = if a < i { a } else { a + 1 };
                    let b0 = if b < i { b } else { b + 1 };
                    assert(before[a0] == self.entries@[a]);
                    assert(before[b0] == self.entries@[b]);
                }
                Some(v)
            },
            None => {
                assert(self.model@.remove(key@) =~= self.model@);
                None
            },
        }
    }

    /// Puts `value` under `key`, replacing what was there.
    pub fn insert(&mut self, key: String, value: V)
        requires
            old(self).wf(),
        ensures
            final(self).wf(),
            final(self)@ == old(self)@.insert(key@, value),
    {
        let _ = self.remove(&key);
        let ghost k = key@;
        let ghost before = self.entries@;
        let ghost v = value;
        self.entries.push((key, value));
        self.model = Ghost(self.model@.insert(k, v));
        assert forall|q: Seq<char>| #[trigger] self.model@.contains_key(q) implies
            exists|j: int| 0 <= j < self.entries@.len() && #[trigger] self.entries@[j].0@ == q by {
            if q == k {
                assert(self.entries@[before.len() as int].0@ == q);
            } else {
                let j0 = choose|j: int| 0 <= j < before.len() && #[trigger] before[j].0@ == q;
                assert(self.entries@[j0] == before[j0]);
            }
        }
        assert forall|a: int|
            0 <= a < self.entries@.len() implies {
                &&& self.model@.contains_key(#[trigger] self.entries@[a].0@)
                &&& self.model@[self.entries@[a].0@] == self.entries@[a].1
            } by {
            if a < before.len() {
                assert(self.entries@[a] == before[a]);
                assert(before[a].0@ != k);
            }
        }
        assert forall|a: int, b: int|
            0 <= a < self.entries@.len() && 0 <= b < self.entries@.len() && a != b
            implies #[trigger] self.entries@[a].0@ != #[trigger] self.entries@[b].0@ by {
            if a < before.len() {
                assert(self.entries@[a] == before[a]);
            }
            if b < before.len() {
                assert(self.entries@[b] == before[b]);
            }
        }
    }

    /// The ids that the table holds, each once.
    pub fn keys(&self) -> (r: Vec<String>)
        requires
            self.wf(),
        ensures
            forall|i: int, j: int|
                0 <= i < r@.len() && 0 <= j < r@.len() && i != j ==> #[trigger] r@[i]@
                    != #[trigger] r@[j]@,
            forall|k: Seq<char>|
                self@.contains_key(k) <==> exists|i: int| 0 <= i < r@.len() && #[trigger] r@[i]@ == k,
    {
        let mut r: Vec<String> = Vec::new();
        let mut i: usize = 0;
        while i < self.entries.len()
            invariant
                self.wf(),
                i <= self.entries@.len(),
                r@.len() == i,
                forall|j: int| 0 <= j < i ==> #[trigger] r@[j]@ == self.entries@[j].0@,
            decreases self.entries@.len() - i,
        {
            let k = self.entries[i].0.clone();
            r.push(k);
            i = i + 1;
        }
        assert forall|a: int, b: int|
            0 <= a < r@.len() && 0 <= b < r@.len() && a != b implies #[trigger] r@[a]@
            != #[trigger] r@[b]@ by {
            assert(r@[a]@ == self.entries@[a].0@);
            assert(r@[b]@ == self.entries@[b].0@);
        }
        assert forall|k: Seq<char>|
            self@.contains_key(k) <==> exists|i: int| 0 <= i < r@.len() && #[trigger] r@[i]@ == k by {
            if self@.contains_key(k) {
                let j0 = choose|j: int| 0 <= j < self.entries@.len() && #[trigger] self.entries@[j].0@ == k;
                assert(r@[j0]@ == k);
            }
            if exists|i: int| 0 <= i < r@.len() && #[trigger] r@[i]@ == k {
                let j0 = choose|i: int| 0 <= i < r@.len() && #[trigger] r@[i]@ == k;
                assert(self.entries@[j0].0@ == k);
            }
        }
        r
    }
}

} // verus!
