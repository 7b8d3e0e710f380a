//! The process-wide table of live segments, keyed by name.

use vstd::prelude::*;

verus! {

/// What is kept of a live segment: its name, the base address of its
/// mapping, the mapping's length in bytes and the OS descriptor.
#[derive(Debug, PartialEq, Eq)]
pub struct SegmentRecord {
    pub name: String,
    pub address: usize,
    pub size: usize,
    pub descriptor: i32,
}

/// Live segments by name. Each name occurs at most once.
pub struct SegmentRegistry {
    records: Vec<SegmentRecord>,
    contents: Ghost<Map<Seq<char>, SegmentRecord>>,
}

impl SegmentRegistry {
    /// The live segments, by name.
    pub closed spec fn view(&self) -> Map<Seq<char>, SegmentRecord> {
        self.contents@
    }

    pub closed spec fn wf(&self) -> bool {
        &&& forall|i: int|
            0 <= i < self.records@.len() ==> {
                &&& #[trigger] self.contents@.contains_key(self.records@[i].name@)
                &&& self.contents@[self.records@[i].name@] == self.records@[i]
            }
        &&& forall|k: Seq<char>|
            #[trigger] self.contents@.contains_key(k) ==> exists|i: int|
                0 <= i < self.records@.len() && (#[trigger] self.records@[i]).name@ == k
        &&& forall|i: int, j: int|
            0 <= i < self.records@.len() && 0 <= j < self.records@.len() && i != j
                ==> (#[trigger] self.records@[i]).name@ != (#[trigger] self.records@[j]).name@
    }

    /// An empty registry.
    pub fn new() -> (r: Self)
        ensures
            r.wf(),
            r@ == Map::<Seq<char>, SegmentRecord>::empty(),
    {
        SegmentRegistry { records: Vec::new(), contents: Ghost(Map::empty()) }
    }

    /// The number of live segments.
    pub fn len(&self) -> (r: usize)
        requires
            self.wf(),
        ensures
            r == self@.dom().len(),
    {
        proof { self.lemma_len(); }
        self.records.len()
    }

    proof fn lemma_len(&self)
        requires
            self.wf(),
        ensures
            self@.dom().len() == self.records@.len(),
            self@.dom().finite(),
    {
        let names = self.records@.map_values(|r: SegmentRecord| r.name@);
        assert forall|i: int, j: int| 0 <= i < names.len() && 0 <= j < names.len() && i != j
            implies names[i] != names[j] by {
            assert(self.records@[i].name@ != self.records@[j].name@);
        }
        names.unique_seq_to_set();
        assert(self@.dom() =~= names.to_set()) by {
            assert forall|k: Seq<char>| self@.dom().contains(k) implies names.to_set().contains(k) by {
                let i = choose|i: int| 0 <= i < self.records@.len() && (#[trigger] self.records@[i]).name@ == k;
                assert(names[i] == k);
            }
            assert forall|k: Seq<char>| names.to_set().contains(k) implies self@.dom().contains(k) by {
                let i = choose|i: int| 0 <= i < names.len() && names[i] == k;
                assert(self.contents@.contains_key(self.records@[i].name@));
            }
        }
    }

    /// The position of the record named `name`, if there is one.
    fn find(&self, name: &String) -> (r: Option<usize>)
        requires
            self.wf(),
        ensures
            match r {
                Some(i) => i < self.records@.len() && self.records@[i as int].name@ == name@,
                None => !self@.contains_key(name@),
            },
    {
        let mut i: usize = 0;
        while i < self.records.len()
            invariant
                self.wf(),
                i <= self.records@.len(),
                forall|j: int| 0 <= j < i ==> (#[trigger] self.records@[j]).name@ != name@,
            decreases self.records@.len() - i,
        {
            if self.records[i].name == *name {
                return Some(i);
            }
            i = i + 1;
        }
        None
    }

    /// Whether a live segment is registered under `name`.
    pub fn contains(&self, name: &str) -> (r: bool)
        requires
            self.wf(),
        ensures
            r == self@.contains_key(name@),
    {
        let key = String::from_str(name);
        match self.find(&key) {
            Some(i) => {
                assert(self.contents@.contains_key(self.records@[i as int].name@));
                true
            },
            None => false,
        }
    }

    /// Registers `record` under its name, unless that name is already
    /// registered; tells whether it did.
    pub fn insert(&mut self, record: SegmentRecord) -> (r: bool)
        requires
            old(self).wf(),
        ensures
            final(self).wf(),
            r == !old(self)@.contains_key(record.name@),
            r ==> final(self)@ == old(self)@.insert(record.name@, record),
            !r ==> final(self)@ == old(self)@,
    {
        match self.find(&record.name) {
            Some(i) => {
                assert(self.contents@.contains_key(self.records@[i as int].name@));
                false
            },
            None => {
                let ghost key = record.name@;
                proof {
                    self.contents@ = self.contents@.insert(key, record);
                }
                self.records.push(record);
                proof {
                    let n = self.records@.len() - 1;
                    assert forall|k: Seq<char>| #[trigger] self.contents@.contains_key(k) implies exists|i: int|
                        0 <= i < self.records@.len() && (#[trigger] self.records@[i]).name@ == k by {
                        if k == key {
                            assert(self.records@[n].name@ == k);
                        } else {
                            assert(old(self).contents@.contains_key(k));
                            let i = choose|i: int| 0 <= i < old(self).records@.len() && (#[trigger] old(self).records@[i]).name@ == k;
                            assert(self.records@[i] == old(self).records@[i]);
                        }
                    }
                    assert forall|i: int| 0 <= i < n implies self.records@[i].name@ != key by {
                        assert(old(self).contents@.contains_key(old(self).records@[i].name@));
                    }
                }
                true
            },
        }
    }

    /// Takes the record named `name` out of the registry. `None` when no
    /// live segment has that name, which leaves the registry as it was.
    pub fn remove(&mut self, name: &str) -> (r: Option<SegmentRecord>)
        requires
            old(self).wf(),
        ensures
            final(self).wf(),
            match r {
                Some(record) => {
                    &&& old(self)@.contains_key(name@)
                    &&& record == old(self)@[name@]
                    &&& record.name@ == name@
                    &&& final(self)@ == old(self)@.remove(name@)
                },
                None => {
                    &&& !old(self)@.contains_key(name@)
                    &&& final(self)@ == old(self)@
                },
            },
    {
        let key = String::from_str(name);
        match self.find(&key) {
            None => None,
            Some(i) => {
                let ghost before = self.records@;
                proof {
                    self.contents@ = self.contents@.remove(key@);
                }
                let record = self.records.remove(i);
                proof {
                    assert(old(self).contents@.contains_key(before[i as int].name@));
                    assert forall|j: int| 0 <= j < self.records@.len() implies {
                        &&& #[trigger] self.contents@.contains_key(self.records@[j].name@)
                        &&& self.contents@[self.records@[j].name@] == self.records@[j]
                    } by {
                        let oj = if j < i { j } else { j + 1 };
                        assert(self.records@[j] == before[oj]);
                        assert(before[oj].name@ != before[i as int].name@);
                        assert(old(self).contents@.contains_key(before[oj].name@));
                        assert(old(self).contents@[before[oj].name@] == before[oj]);
                    }
                    assert forall|k: Seq<char>| #[trigger] self.contents@.contains_key(k) implies exists|j: int|
                        0 <= j < self.records@.len() && (#[trigger] self.records@[j]).name@ == k by {
                        let oj = choose|j: int| 0 <= j < before.len() && (#[trigger] before[j]).name@ == k;
                        assert(oj != i);
                        let j = if oj < i { oj } else { oj - 1 };
                        assert(self.records@[j] == before[oj]);
                    }
                    assert forall|a: int, b: int|
                        0 <= a < self.records@.len() && 0 <= b < self.records@.len() && a != b
                        implies (#[trigger] self.records@[a]).name@ != (#[trigger] self.records@[b]).name@ by {
                        let oa = if a < i { a } else { a + 1 };
                        let ob = if b < i { b } else { b + 1 };
                        assert(self.records@[a] == before[oa]);
                        assert(self.records@[b] == before[ob]);
                    }
                }
                Some(record)
            },
        }
    }
}

} // verus!
