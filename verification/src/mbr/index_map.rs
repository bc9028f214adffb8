use vstd::prelude::*;

verus! {

/// A map from names to indices, kept as a list of distinct names with their indices.
pub struct StringIndexMap {
    entries: Vec<(String, u32)>,
    contents: Ghost<Map<Seq<char>, u32>>,
}

impl View for StringIndexMap {
    type V = Map<Seq<char>, u32>;

    closed spec fn view(&self) -> Map<Seq<char>, u32> {
        self.contents@
    }
}

impl StringIndexMap {
    /// The list holds each name once, and holds exactly the names of the map with their indices.
    pub closed spec fn wf(&self) -> bool {
        &&& forall|i: int, j: int|
            0 <= i < j < self.entries@.len() ==> (#[trigger] self.entries@[i]).0@
                != (#[trigger] self.entries@[j]).0@
        &&& forall|i: int|
            0 <= i < self.entries@.len() ==> self.contents@.contains_key(
                (#[trigger] self.entries@[i]).0@,
            ) && self.contents@[self.entries@[i].0@] == self.entries@[i].1
        &&& forall|k: Seq<char>|
            #[trigger] self.contents@.contains_key(k) ==> exists|i: int|
                0 <= i < self.entries@.len() && (#[trigger] self.entries@[i]).0@ == k
        &&& self.contents@.dom().finite()
        &&& self.contents@.dom().len() == self.entries@.len()
    }

    /// An empty map.
    pub fn new() -> (r: StringIndexMap)
        ensures
            r.wf(),
            r@ == Map::<Seq<char>, u32>::empty(),
    {
        StringIndexMap { entries: Vec::new(), contents: Ghost(Map::empty()) }
    }

    /// The position of `k` in the list, if it is there.
    fn find(&self, k: &String) -> (r: Option<usize>)
        requires
            self.wf(),
        ensures
            match r {
                Some(i) => i < self.entries@.len() && self.entries@[i as int].0@ == k@,
                None => !self@.contains_key(k@),
            },
    {
        let mut i: usize = 0;
        while i < self.entries.len()
            invariant
                i <= self.entries@.len(),
                forall|j: int| 0 <= j < i ==> (#[trigger] self.entries@[j]).0@ != k@,
            decreases self.entries@.len() - i,
        {
            if self.entries[i].0 == *k {
                return Some(i);
            }
            i = i + 1;
        }
        proof {
            if self@.contains_key(k@) {
                let j = choose|j: int| 0 <= j < self.entries@.len() && (#[trigger] self.entries@[j]).0@ == k@;
                assert(self.entries@[j].0@ == k@);
            }
        }
        None
    }

    /// The number of names in the map.
    pub fn len(&self) -> (r: usize)
        requires
            self.wf(),
        ensures
            r == self@.len(),
    {
        self.entries.len()
    }

    /// Whether `k` is in the map.
    pub fn contains_key(&self, k: &String) -> (r: bool)
        requires
            self.wf(),
        ensures
            r == self@.contains_key(k@),
    {
        match self.find(k) {
            Some(i) => true,
            None => false,
        }
    }

    /// The index of `k`, if it is in the map.
    pub fn get(&self, k: &String) -> (r: Option<u32>)
        requires
            self.wf(),
        ensures
            r == (if self@.contains_key(k@) { Some(self@[k@]) } else { None::<u32> }),
    {
        match self.find(k) {
            Some(i) => Some(self.entries[i].1),
            None => None,
        }
    }

    /// Maps `k` to `v`, and gives back the index that `k` had before, if any.
    pub fn insert(&mut self, k: String, v: u32) -> (r: Option<u32>)
        requires
            old(self).wf(),
        ensures
            final(self).wf(),
            final(self)@ == old(self)@.insert(k@, v),
            r == (if old(self)@.contains_key(k@) { Some(old(self)@[k@]) } else { None::<u32> }),
    {
        let ghost old_contents = self.contents@;
        match self.find(&k) {
            Some(i) => {
                let prev = self.entries[i].1;
                let ghost kv = k@;
                self.entries.set(i, (k, v));
                self.contents = Ghost(old_contents.insert(kv, v));
                proof {
                    assert(old_contents.dom().insert(kv) =~= old_contents.dom());
                    assert forall|kk: Seq<char>| #[trigger] self.contents@.contains_key(kk) implies exists|j: int|
                        0 <= j < self.entries@.len() && (#[trigger] self.entries@[j]).0@ == kk by {
                        if kk == kv {
                            assert(self.entries@[i as int].0@ == kk);
                        } else {
                            let j = choose|j: int| 0 <= j < old(self).entries@.len() && (#[trigger] old(self).entries@[j]).0@ == kk;
                            assert(self.entries@[j].0@ == kk);
                        }
                    }
                }
                Some(prev)
            },
            None => {
                let ghost kv = k@;
                self.entries.push((k, v));
                self.contents = Ghost(old_contents.insert(kv, v));
                proof {
                    let n = old(self).entries@.len();
                    assert(self.entries@[n as int].0@ == kv);
                    assert forall|kk: Seq<char>| #[trigger] self.contents@.contains_key(kk) implies exists|j: int|
                        0 <= j < self.entries@.len() && (#[trigger] self.entries@[j]).0@ == kk by {
                        if kk == kv {
                            assert(self.entries@[n as int].0@ == kk);
                        } else {
                            let j = choose|j: int| 0 <= j < old(self).entries@.len() && (#[trigger] old(self).entries@[j]).0@ == kk;
                            assert(self.entries@[j].0@ == kk);
                        }
                    }
                    assert forall|a: int, b: int| 0 <= a < b < self.entries@.len() implies (#[trigger] self.entries@[a]).0@
                        != (#[trigger] self.entries@[b]).0@ by {
                        if b == n {
                            assert(old(self).entries@[a].0@ != kv);
                        }
                    }
                }
                None
            },
        }
    }

    /// Removes every name.
    pub fn clear(&mut self)
        requires
            old(self).wf(),
        ensures
            final(self).wf(),
            final(self)@ == Map::<Seq<char>, u32>::empty(),
    {
        self.entries.clear();
        self.contents = Ghost(Map::empty());
    }

    /// Removes every name whose index is `v`.
    pub fn remove_value(&mut self, v: u32)
        requires
            old(self).wf(),
        ensures
            final(self).wf(),
            final(self)@ == old(self)@.restrict(
                old(self)@.dom().filter(|k: Seq<char>| old(self)@[k] != v),
            ),
    {
        let ghost old_map = self@;
        let mut kept = StringIndexMap::new();
        let mut i: usize = 0;
        while i < self.entries.len()
            invariant
                self.wf(),
                self@ == old_map,
                i <= self.entries@.len(),
                kept.wf(),
                forall|k: Seq<char>|
                    #[trigger] kept@.contains_key(k) ==> old_map.contains_key(k) && old_map[k] != v
                        && kept@[k] == old_map[k],
                forall|j: int|
                    0 <= j < i ==> (#[trigger] self.entries@[j]).1 != v ==> kept@.contains_key(
                        self.entries@[j].0@,
                    ),
                forall|k: Seq<char>|
                    #[trigger] kept@.contains_key(k) ==> exists|j: int|
                        0 <= j < i && (#[trigger] self.entries@[j]).0@ == k,
            decreases self.entries@.len() - i,
        {
            if self.entries[i].1 != v {
                let name = self.entries[i].0.clone();
                kept.insert(name, self.entries[i].1);
                assert forall|k: Seq<char>| #[trigger] kept@.contains_key(k) implies exists|j: int|
                    0 <= j < i + 1 && (#[trigger] self.entries@[j]).0@ == k by {
                    if k != self.entries@[i as int].0@ {
                        let j = choose|j: int| 0 <= j < i && (#[trigger] self.entries@[j]).0@ == k;
                        assert(self.entries@[j].0@ == k);
                    } else {
                        assert(self.entries@[i as int].0@ == k);
                    }
                }
            }
            i = i + 1;
        }
        proof {
            let target = old_map.restrict(old_map.dom().filter(|k: Seq<char>| old_map[k] != v));
            assert forall|k: Seq<char>| kept@.contains_key(k) <==> target.contains_key(k) by {
                if target.contains_key(k) {
                    let j = choose|j: int| 0 <= j < self.entries@.len() && (#[trigger] self.entries@[j]).0@ == k;
                    assert(self.entries@[j].1 == old_map[k]);
                }
                if kept@.contains_key(k) {
                    assert(old_map.dom().filter(|k: Seq<char>| old_map[k] != v).contains(k));
                }
            }
            assert(kept@ =~= target);
        }
        *self = kept;
    }
}

} // verus!
