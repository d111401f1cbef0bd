//! A finite map from addresses to values, kept as a list in which no address
//! occurs twice.

use vstd::prelude::*;
use crate::pubkey::Pubkey;

verus! {

pub struct AddressMap<V> {
    keys: Vec<Pubkey>,
    values: Vec<V>,
}

impl<V> AddressMap<V> {
    /// Keys and values run in parallel and no key occurs twice.
    pub closed spec fn wf(&self) -> bool {
        &&& self.keys@.len() == self.values@.len()
        &&& forall|i: int, j: int|
            0 <= i < j < self.keys@.len() ==> self.keys@[i]@ != self.keys@[j]@
    }

    spec fn slot(&self, key: Seq<u8>) -> int {
        choose|i: int| 0 <= i < self.keys@.len() && self.keys@[i]@ == key
    }

    /// The map this list stands for.
    pub closed spec fn view(&self) -> Map<Seq<u8>, V> {
        Map::new(
            |key: Seq<u8>| exists|i: int| 0 <= i < self.keys@.len() && self.keys@[i]@ == key,
            |key: Seq<u8>| self.values@[self.slot(key)],
        )
    }

    pub fn new() -> (map: Self)
        ensures
            map.wf(),
            map@ == Map::<Seq<u8>, V>::empty(),
    {
        let map = AddressMap { keys: Vec::new(), values: Vec::new() };
        assert(map@ =~= Map::<Seq<u8>, V>::empty());
        map
    }

    fn position(&self, key: &Pubkey) -> (found: Option<usize>)
        requires
            self.wf(),
        ensures
            match found {
                Some(i) => i < self.keys@.len() && self.keys@[i as int]@ == key@
                    && self@.contains_key(key@) && self@[key@] == self.values@[i as int],
                None => !self@.contains_key(key@),
            },
    {
        let mut i: usize = 0;
        while i < self.keys.len()
            invariant
                self.wf(),
                i <= self.keys@.len(),
                forall|j: int| 0 <= j < i ==> self.keys@[j]@ != key@,
            decreases self.keys@.len() - i,
        {
            if self.keys[i].equals(key) {
                assert(self.slot(key@) == i as int);
                return Some(i);
            }
            i += 1;
        }
        None
    }

    pub fn contains(&self, key: &Pubkey) -> (present: bool)
        requires
            self.wf(),
        ensures
            present == self@.contains_key(key@),
    {
        self.position(key).is_some()
    }

    pub fn get(&self, key: &Pubkey) -> (value: Option<&V>)
        requires
            self.wf(),
        ensures
            match value {
                Some(v) => self@.contains_key(key@) && *v == self@[key@],
                None => !self@.contains_key(key@),
            },
    {
        match self.position(key) {
            Some(i) => Some(&self.values[i]),
            None => None,
        }
    }

    /// Binds `key` to `value`, in place of any value it was bound to.
    pub fn insert(&mut self, key: Pubkey, value: V)
        requires
            old(self).wf(),
        ensures
            final(self).wf(),
            final(self)@ == old(self)@.insert(key@, value),
    {
        match self.position(&key) {
            Some(i) => {
                self.values.set(i, value);
                assert forall|k: Seq<u8>| self@.contains_key(k) implies self@[k] == old(
                    self,
                )@.insert(key@, value)[k] by {
                    let s = self.slot(k);
                    assert(old(self).slot(k) == s);
                }
                assert(self@ =~= old(self)@.insert(key@, value));
            },
            None => {
                self.keys.push(key);
                self.values.push(value);
                let ghost n = old(self).keys@.len() as int;
                assert(self.keys@[n]@ == key@);
                assert forall|k: Seq<u8>| old(self)@.insert(key@, value).contains_key(k) implies self@.contains_key(k) by {
                    if k == key@ {
                    } else {
                        let s = old(self).slot(k);
                        assert(self.keys@[s]@ == k);
                    }
                }
                assert forall|k: Seq<u8>| self@.contains_key(k) implies self@[k] == old(
                    self,
                )@.insert(key@, value)[k] by {
                    let s = self.slot(k);
                    if k == key@ {
                        assert(s == n);
                    } else {
                        assert(old(self).slot(k) == s);
                    }
                }
                assert(self@ =~= old(self)@.insert(key@, value));
            },
        }
    }

    /// Takes the binding of `key` out of the map, if there is one.
    pub fn remove(&mut self, key: &Pubkey) -> (value: Option<V>)
        requires
            old(self).wf(),
        ensures
            final(self).wf(),
            final(self)@ == old(self)@.remove(key@),
            match value {
                Some(v) => old(self)@.contains_key(key@) && v == old(self)@[key@],
                None => !old(self)@.contains_key(key@),
            },
    {
        match self.position(key) {
            Some(i) => {
                let _ = self.keys.remove(i);
                let value = self.values.remove(i);
                let ghost at = i as int;
                assert forall|k: Seq<u8>| old(self)@.remove(key@).contains_key(k) implies self@.contains_key(k) by {
                    let s = old(self).slot(k);
                    if s < at {
                        assert(self.keys@[s]@ == k);
                    } else {
                        assert(self.keys@[s - 1]@ == k);
                    }
                }
                assert forall|k: Seq<u8>| self@.contains_key(k) implies k != key@ && old(self)@.contains_key(k) && self@[k] == old(self)@[k] by {
                    let s = self.slot(k);
                    if s < at {
                        assert(old(self).keys@[s]@ == k);
                        assert(old(self).slot(k) == s);
                    } else {
                        assert(old(self).keys@[s + 1]@ == k);
                        assert(old(self).slot(k) == s + 1);
                    }
                }
                assert(self@ =~= old(self)@.remove(key@));
                Some(value)
            },
            None => {
                assert(self@ =~= old(self)@.remove(key@));
                None
            },
        }
    }
}

} // verus!
