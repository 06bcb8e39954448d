//! Caller identities and a small map keyed by them.

use vstd::prelude::*;

verus! {

/// The opaque identity of a caller: 32 bytes, compared byte for byte.
#[derive(Clone, Copy, Debug)]
pub struct AccountId {
    pub bytes: [u8; 32],
}

impl View for AccountId {
    type V = Seq<u8>;

    open spec fn view(&self) -> Seq<u8> {
        self.bytes@
    }
}

impl AccountId {
    /// An identity made of the given bytes.
    pub fn new(bytes: [u8; 32]) -> (r: AccountId)
        ensures
            r@ == bytes@,
    {
        AccountId { bytes }
    }

    /// Whether two identities hold the same bytes.
    pub fn same_as(&self, other: &AccountId) -> (r: bool)
        ensures
            r == (self@ == other@),
    {
        let mut i: usize = 0;
        while i < 32
            invariant
                i <= 32,
                self@.len() == 32,
                other@.len() == 32,
                forall|j: int| 0 <= j < i ==> self@[j] == other@[j],
            decreases 32 - i,
        {
            if self.bytes[i] != other.bytes[i] {
                return false;
            }
            i = i + 1;
        }
        assert(self@ =~= other@);
        true
    }
}

/// A finite map from identities to values, with one entry per identity.
pub struct AccountBook<V> {
    ids: Vec<AccountId>,
    vals: Vec<V>,
    contents: Ghost<Map<Seq<u8>, V>>,
}

impl<V> View for AccountBook<V> {
    type V = Map<Seq<u8>, V>;

    closed spec fn view(&self) -> Map<Seq<u8>, V> {
        self.contents@
    }
}

impl<V: Copy> AccountBook<V> {
    /// Entries line up with the map: identities are unique, and each one
    /// maps to the value stored beside it.
    pub closed spec fn wf(&self) -> bool {
        &&& self.ids@.len() == self.vals@.len()
        &&& forall|i: int, j: int|
            0 <= i < j < self.ids@.len() ==> self.ids@[i]@ != self.ids@[j]@
        &&& forall|k: Seq<u8>|
            self.contents@.contains_key(k) <==> exists|i: int|
                0 <= i < self.ids@.len() && self.ids@[i]@ == k
        &&& forall|i: int|
            0 <= i < self.ids@.len() ==> #[trigger] self.contents@[self.ids@[i]@]
                == self.vals@[i]
    }

    /// An empty book.
    pub fn new() -> (r: AccountBook<V>)
        ensures
            r.wf(),
            r@ == Map::<Seq<u8>, V>::empty(),
    {
        AccountBook { ids: Vec::new(), vals: Vec::new(), contents: Ghost(Map::empty()) }
    }

    /// The position of `id` among the entries, if it has one.
    fn position(&self, id: &AccountId) -> (r: Option<usize>)
        requires
            self.wf(),
        ensures
            match r {
                Some(i) => i < self.ids@.len() && self.ids@[i as int]@ == id@,
                None => !self@.contains_key(id@),
            },
    {
        let mut i: usize = 0;
        while i < self.ids.len()
            invariant
                self.wf(),
                i <= self.ids@.len(),
                forall|j: int| 0 <= j < i ==> self.ids@[j]@ != id@,
            decreases self.ids@.len() - i,
        {
            if self.ids[i].same_as(id) {
                return Some(i);
            }
            i = i + 1;
        }
        None
    }

    /// The value stored for `id`, if any.
    pub fn get(&self, id: &AccountId) -> (r: Option<V>)
        requires
            self.wf(),
        ensures
            r == (if self@.contains_key(id@) {
                Some(self@[id@])
            } else {
                None
            }),
    {
        match self.position(id) {
            Some(i) => Some(self.vals[i]),
            None => None,
        }
    }

    /// Stores `v` for `id`, replacing any earlier value.
    pub fn set(&mut self, id: &AccountId, v: V)
        requires
            old(self).wf(),
        ensures
            final(self).wf(),
            final(self)@ == old(self)@.insert(id@, v),
    {
        let ghost m = self.contents@.insert(id@, v);
        let ghost at: int;
        match self.position(id) {
            Some(i) => {
                self.vals.set(i, v);
                proof {
                    at = i as int;
                }
            },
            None => {
                proof {
                    at = self.ids@.len() as int;
                }
                self.ids.push(*id);
                self.vals.push(v);
            },
        }
        self.contents = Ghost(m);
        assert(self.ids@[at]@ == id@);
        assert forall|k: Seq<u8>|
            self.contents@.contains_key(k) implies exists|i: int|
                0 <= i < self.ids@.len() && self.ids@[i]@ == k by {
            if k != id@ {
                let i = choose|i: int| 0 <= i < old(self).ids@.len() && old(self).ids@[i]@ == k;
                assert(self.ids@[i] == old(self).ids@[i]);
            }
        }
    }
}

} // verus!
