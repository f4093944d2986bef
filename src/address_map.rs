use vstd::prelude::*;

verus! {

broadcast use vstd::array::group_array_axioms;

/// An account or contract address: a type tag and a 20-byte identifier.
#[derive(Clone, Copy, Debug, PartialEq, Eq, Hash)]
pub struct Address {
    pub address_type: u8,
    pub identifier: [u8; 20],
}

/// Compares two addresses field by field.
pub fn same_address(a: &Address, b: &Address) -> (r: bool)
    ensures
        r == (*a == *b),
{
    if a.address_type != b.address_type {
        return false;
    }
    let mut i: usize = 0;
    while i < 20
        invariant
            0 <= i <= 20,
            forall|j: int| 0 <= j < i ==> a.identifier[j] == b.identifier[j],
        decreases 20 - i,
    {
        if a.identifier[i] != b.identifier[i] {
            return false;
        }
        i = i + 1;
    }
    assert(a.identifier =~= b.identifier);
    true
}

/// A finite map keyed by address, stored as a vector of entries with distinct keys.
pub struct AddressMap<V> {
    entries: Vec<(Address, V)>,
    contents: Ghost<Map<Address, V>>,
}

impl<V> View for AddressMap<V> {
    type V = Map<Address, V>;

    closed spec fn view(&self) -> Map<Address, V> {
        self.contents@
    }
}

impl<V: Copy> AddressMap<V> {
    /// The entries have distinct keys and list exactly the contents.
    pub closed spec fn wf(&self) -> bool {
        &&& forall|i: int, j: int|
            0 <= i < j < self.entries@.len() ==> self.entries@[i].0 != self.entries@[j].0
        &&& forall|i: int|
            0 <= i < self.entries@.len() ==> {
                &&& #[trigger] self.contents@.contains_key(self.entries@[i].0)
                &&& self.contents@[self.entries@[i].0] == self.entries@[i].1
            }
        &&& forall|k: Address|
            #[trigger] self.contents@.contains_key(k) ==> exists|i: int|
                0 <= i < self.entries@.len() && self.entries@[i].0 == k
    }

    pub fn new() -> (r: Self)
        ensures
            r.wf(),
            r@ == Map::<Address, V>::empty(),
    {
        AddressMap { entries: Vec::new(), contents: Ghost(Map::empty()) }
    }

    /// The position of `key` among the entries, if it is there.
    fn find(&self, key: &Address) -> (r: Option<usize>)
        requires
            self.wf(),
        ensures
            match r {
                Some(i) => i < self.entries@.len() && self.entries@[i as int].0 == *key,
                None => !self@.contains_key(*key),
            },
    {
        let mut i: usize = 0;
        while i < self.entries.len()
            invariant
                self.wf(),
                0 <= i <= self.entries@.len(),
                forall|j: int| 0 <= j < i ==> self.entries@[j].0 != *key,
            decreases self.entries@.len() - i,
        {
            if same_address(&self.entries[i].0, key) {
                return Some(i);
            }
            i = i + 1;
        }
        None
    }

    pub fn contains_key(&self, key: &Address) -> (r: bool)
        requires
            self.wf(),
        ensures
            r == self@.contains_key(*key),
    {
        match self.find(key) {
            Some(_) => true,
            None => false,
        }
    }

    pub fn get(&self, key: &Address) -> (r: Option<V>)
        requires
            self.wf(),
        ensures
            r == (if self@.contains_key(*key) {
                Some(self@[*key])
            } else {
                None::<V>
            }),
    {
        match self.find(key) {
            Some(i) => Some(self.entries[i].1),
            None => None,
        }
    }

    /// The entries, each key once.
    pub fn to_vec(&self) -> (r: Vec<(Address, V)>)
        requires
            self.wf(),
        ensures
            forall|i: int, j: int| 0 <= i < j < r@.len() ==> r@[i].0 != r@[j].0,
            forall|i: int|
                0 <= i < r@.len() ==> #[trigger] self@.contains_key(r@[i].0) && self@[r@[i].0]
                    == r@[i].1,
            forall|k: Address| #[trigger]
                self@.contains_key(k) ==> exists|i: int| 0 <= i < r@.len() && r@[i].0 == k,
    {
        let mut r: Vec<(Address, V)> = Vec::new();
        let mut i: usize = 0;
        while i < self.entries.len()
            invariant
                self.wf(),
                0 <= i <= self.entries@.len(),
                r@ =~= self.entries@.take(i as int),
            decreases self.entries@.len() - i,
        {
            r.push(self.entries[i]);
            i = i + 1;
        }
        assert(r@ =~= self.entries@);
        r
    }

    pub fn insert(&mut self, key: Address, value: V)
        requires
            old(self).wf(),
        ensures
            final(self).wf(),
            final(self)@ == old(self)@.insert(key, value),
    {
        let ghost before = self.entries@;
        let ghost pos: int = before.len() as int;
        match self.find(&key) {
            Some(i) => {
                self.entries.set(i, (key, value));
                proof {
                    pos = i as int;
                    assert(forall|j: int|
                        0 <= j < before.len() && j != i ==> self.entries@[j] == before[j]);
                }
            },
            None => {
                self.entries.push((key, value));
                proof {
                    assert(forall|j: int| 0 <= j < before.len() ==> self.entries@[j] == before[j]);
                }
            },
        }
        self.contents = Ghost(self.contents@.insert(key, value));
        proof {
            assert forall|k: Address| #[trigger] self.contents@.contains_key(k) implies exists|
                j: int,
            |
                0 <= j < self.entries@.len() && self.entries@[j].0 == k by {
                if k != key {
                    let j = choose|j: int| 0 <= j < before.len() && before[j].0 == k;
                    assert(self.entries@[j].0 == k);
                } else {
                    assert(self.entries@[pos].0 == k);
                }
            }
        }
    }

    pub fn remove(&mut self, key: &Address)
        requires
            old(self).wf(),
        ensures
            final(self).wf(),
            final(self)@ == old(self)@.remove(*key),
    {
        let ghost before = self.entries@;
        let ghost removed: int = -1;
        match self.find(key) {
            Some(i) => {
                self.entries.remove(i);
                proof {
                    removed = i as int;
                    assert(forall|j: int| 0 <= j < i ==> self.entries@[j] == before[j]);
                    assert(forall|j: int|
                        i <= j < self.entries@.len() ==> self.entries@[j] == before[j + 1]);
                }
            },
            None => {},
        }
        self.contents = Ghost(self.contents@.remove(*key));
        proof {
            let after = self.entries@;
            assert forall|a: int, b: int| 0 <= a < b < after.len() implies after[a].0
                != after[b].0 by {
                let pa = if removed < 0 || a < removed {
                    a
                } else {
                    a + 1
                };
                let pb = if removed < 0 || b < removed {
                    b
                } else {
                    b + 1
                };
                assert(after[a] == before[pa] && after[b] == before[pb]);
            }
            assert forall|a: int| 0 <= a < after.len() implies {
                &&& #[trigger] self.contents@.contains_key(after[a].0)
                &&& self.contents@[after[a].0] == after[a].1
            } by {
                let pa = if removed < 0 || a < removed {
                    a
                } else {
                    a + 1
                };
                assert(after[a] == before[pa]);
                assert(old(self).contents@.contains_key(before[pa].0));
            }
            assert forall|k: Address| #[trigger] self.contents@.contains_key(k) implies exists|
                j: int,
            |
                0 <= j < self.entries@.len() && self.entries@[j].0 == k by {
                let j = choose|j: int| 0 <= j < before.len() && before[j].0 == k;
                if removed < 0 || j < removed {
                    assert(self.entries@[j].0 == k);
                } else {
                    assert(self.entries@[j - 1].0 == k);
                }
            }
        }
    }
}

} // verus!
