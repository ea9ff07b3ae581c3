//! A string-to-string mapping, the contents of one persisted settings file.
use vstd::prelude::*;
use vstd::string::*;
use crate::text::str_eq;

verus! {

/// Value of `k` in `s`; a later entry wins over an earlier one.
pub open spec fn lookup(s: Seq<(String, String)>, k: Seq<char>) -> Option<Seq<char>>
    decreases s.len(),
{
    if s.len() == 0 {
        None
    } else if s.last().0@ == k {
        Some(s.last().1@)
    } else {
        lookup(s.drop_last(), k)
    }
}

/// The mapping that a list of entries stands for.
pub open spec fn map_of(s: Seq<(String, String)>) -> Map<Seq<char>, Seq<char>> {
    Map::new(|k: Seq<char>| lookup(s, k) is Some, |k: Seq<char>| lookup(s, k).unwrap())
}

/// No key occurs twice.
pub open spec fn unique_keys(s: Seq<(String, String)>) -> bool {
    forall|i: int, j: int| 0 <= i < j < s.len() ==> s[i].0@ != s[j].0@
}

/// Contents of one settings file: entries with distinct keys, in the order in
/// which they were written.
pub struct Kv {
    pub entries: Vec<(String, String)>,
}

impl Kv {
    pub open spec fn view(&self) -> Map<Seq<char>, Seq<char>> {
        map_of(self.entries@)
    }

    pub open spec fn wf(&self) -> bool {
        unique_keys(self.entries@)
    }

    /// The empty mapping: what a missing file holds.
    pub fn new() -> (r: Kv)
        ensures
            r.wf(),
            r.view() == Map::<Seq<char>, Seq<char>>::empty(),
    {
        let r = Kv { entries: Vec::new() };
        assert(r.view() =~= Map::<Seq<char>, Seq<char>>::empty());
        r
    }

    /// The mapping of entries read from a file, where a later entry with the
    /// same key wins.
    pub fn from_pairs(pairs: Vec<(String, String)>) -> (r: Kv)
        ensures
            r.wf(),
            r.view() == map_of(pairs@),
    {
        let mut r = Kv::new();
        let mut i: usize = 0;
        while i < pairs.len()
            invariant
                i <= pairs.len(),
                r.wf(),
                r.view() == map_of(pairs@.take(i as int)),
            decreases pairs.len() - i,
        {
            let k = pairs[i].0.clone();
            let v = pairs[i].1.clone();
            let ghost before = r.view();
            r.write(k, v);
            proof {
                let t = pairs@.take(i as int + 1);
                assert(t.drop_last() =~= pairs@.take(i as int));
                assert(map_of(t) =~= before.insert(pairs@[i as int].0@, pairs@[i as int].1@));
            }
            i = i + 1;
        }
        assert(pairs@.take(pairs.len() as int) =~= pairs@);
        r
    }

    /// Entries other than `k`, in their order.
    fn without(&self, k: &str) -> (r: Vec<(String, String)>)
        requires
            self.wf(),
        ensures
            unique_keys(r@),
            forall|j: int| 0 <= j < r@.len() ==> r@[j].0@ != k@,
            forall|x: Seq<char>|
                lookup(r@, x) == if x == k@ {
                    None
                } else {
                    lookup(self.entries@, x)
                },
    {
        let mut out: Vec<(String, String)> = Vec::new();
        let mut i: usize = 0;
        while i < self.entries.len()
            invariant
                i <= self.entries.len(),
                unique_keys(self.entries@),
                unique_keys(out@),
                forall|j: int| 0 <= j < out@.len() ==> out@[j].0@ != k@,
                forall|j: int|
                    0 <= j < out@.len() ==> exists|m: int|
                        0 <= m < i && #[trigger] self.entries@[m].0@ == (#[trigger] out@[j]).0@,
                forall|x: Seq<char>|
                    lookup(out@, x) == if x == k@ {
                        None
                    } else {
                        lookup(self.entries@.take(i as int), x)
                    },
            decreases self.entries.len() - i,
        {
            let ghost t = self.entries@.take(i as int + 1);
            proof {
                assert(t.drop_last() =~= self.entries@.take(i as int));
            }
            let ghost out_before = out@;
            let e = &self.entries[i];
            if !str_eq(e.0.as_str(), k) {
                let e2 = (e.0.clone(), e.1.clone());
                out.push(e2);
                proof {
                    assert(out@.drop_last() =~= out_before);
                    assert forall|a: int, b: int| 0 <= a < b < out@.len() implies out@[a].0@
                        != out@[b].0@ by {
                        if b == out@.len() - 1 {
                            let m = choose|m: int|
                                0 <= m < i && #[trigger] self.entries@[m].0@ == out_before[a].0@;
                            assert(self.entries@[m].0@ != self.entries@[i as int].0@);
                        }
                    }
                    assert forall|j: int| 0 <= j < out@.len() implies exists|m: int|
                        0 <= m < i + 1 && #[trigger] self.entries@[m].0@ == (
                        #[trigger] out@[j]).0@ by {
                        if j == out@.len() - 1 {
                            assert(self.entries@[i as int].0@ == out@[j].0@);
                        } else {
                            let m = choose|m: int|
                                0 <= m < i && #[trigger] self.entries@[m].0@ == out_before[j].0@;
                            assert(self.entries@[m].0@ == out@[j].0@);
                        }
                    }
                }
            }
            proof {
                assert(t.last() == self.entries@[i as int]);
                assert forall|x: Seq<char>|
                    lookup(out@, x) == if x == k@ {
                        None
                    } else {
                        lookup(t, x)
                    } by {
                    if self.entries@[i as int].0@ != k@ {
                        assert(out@.drop_last() =~= out_before);
                        assert(out@.last().0@ == self.entries@[i as int].0@);
                        assert(out@.last().1@ == self.entries@[i as int].1@);
                        assert(lookup(out@, x) == if out@.last().0@ == x {
                            Some(out@.last().1@)
                        } else {
                            lookup(out_before, x)
                        });
                    } else {
                        assert(out@ =~= out_before);
                    }
                    assert(lookup(t, x) == if t.last().0@ == x {
                        Some(t.last().1@)
                    } else {
                        lookup(self.entries@.take(i as int), x)
                    });
                }
            }
            i = i + 1;
        }
        assert(self.entries@.take(i as int) =~= self.entries@);
        out
    }

    /// Sets `k` to `v`, replacing any earlier value.
    pub fn write(&mut self, k: String, v: String)
        requires
            old(self).wf(),
        ensures
            final(self).wf(),
            final(self).view() == old(self).view().insert(k@, v@),
    {
        let mut out = self.without(k.as_str());
        let ghost before = out@;
        out.push((k, v));
        proof {
            assert(out@.drop_last() =~= before);
            assert forall|x: Seq<char>|
                lookup(out@, x) == if x == k@ {
                    Some(v@)
                } else {
                    lookup(old(self).entries@, x)
                } by {
                assert(lookup(out@, x) == if out@.last().0@ == x {
                    Some(out@.last().1@)
                } else {
                    lookup(before, x)
                });
            }
            assert(map_of(out@) =~= old(self).view().insert(k@, v@));
        }
        self.entries = out;
    }

    /// Removes `k`; a missing key changes nothing.
    pub fn erase(&mut self, k: &str)
        requires
            old(self).wf(),
        ensures
            final(self).wf(),
            final(self).view() == old(self).view().remove(k@),
    {
        let out = self.without(k);
        proof {
            assert(map_of(out@) =~= old(self).view().remove(k@));
        }
        self.entries = out;
    }

    /// The value of `k`, if any.
    pub fn get(&self, k: &str) -> (r: Option<String>)
        requires
            self.wf(),
        ensures
            r is Some <==> self.view().contains_key(k@),
            r is Some ==> r.unwrap()@ == self.view()[k@],
    {
        let mut i: usize = self.entries.len();
        assert(self.entries@.take(i as int) =~= self.entries@);
        while i > 0
            invariant
                i <= self.entries.len(),
                lookup(self.entries@, k@) == lookup(self.entries@.take(i as int), k@),
            decreases i,
        {
            let ghost t = self.entries@.take(i as int);
            proof {
                assert(t.drop_last() =~= self.entries@.take(i as int - 1));
            }
            if str_eq(self.entries[i - 1].0.as_str(), k) {
                return Some(self.entries[i - 1].1.clone());
            }
            i = i - 1;
        }
        None
    }

    /// Whether `k` has a value.
    pub fn contains_key(&self, k: &str) -> (r: bool)
        requires
            self.wf(),
        ensures
            r == self.view().contains_key(k@),
    {
        self.get(k).is_some()
    }
}

/// Writing `k` then reading it gives `v`; erasing `k` leaves it out; other keys
/// keep their values through both.
pub proof fn lemma_kv_round_trip(m: Map<Seq<char>, Seq<char>>, k: Seq<char>, v: Seq<char>, other: Seq<char>)
    requires
        other != k,
    ensures
        m.insert(k, v).contains_key(k),
        m.insert(k, v)[k] == v,
        !m.remove(k).contains_key(k),
        m.insert(k, v).contains_key(other) == m.contains_key(other),
        m.contains_key(other) ==> m.insert(k, v)[other] == m[other],
        m.remove(k).contains_key(other) == m.contains_key(other),
        m.contains_key(other) ==> m.remove(k)[other] == m[other],
{
}

} // verus!
