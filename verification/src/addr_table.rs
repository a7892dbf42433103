//! The open WebSocket streams, by the address of the peer.
use vstd::prelude::*;
use vstd::string::*;

verus! {

/// No key occurs twice among `s`.
pub open spec fn keys_distinct<T>(s: Seq<(String, T)>) -> bool {
    forall|i: int, j: int| #![trigger s[i], s[j]] 0 <= i < j < s.len() ==> s[i].0@ != s[j].0@
}

/// The map that `s` holds: each key to its value.
pub open spec fn entries_map<T>(s: Seq<(String, T)>) -> Map<Seq<char>, T>
    decreases s.len(),
{
    if s.len() == 0 {
        Map::empty()
    } else {
        entries_map(s.drop_last()).insert(s.last().0@, s.last().1)
    }
}

proof fn lemma_entries_map_absent<T>(s: Seq<(String, T)>, k: Seq<char>)
    requires
        forall|i: int| 0 <= i < s.len() ==> #[trigger] s[i].0@ != k,
    ensures
        !entries_map(s).contains_key(k),
    decreases s.len(),
{
    if s.len() > 0 {
        let p = s.drop_last();
        assert forall|i: int| 0 <= i < p.len() implies #[trigger] p[i].0@ != k by {
            assert(p[i] == s[i]);
        }
        lemma_entries_map_absent(p, k);
        assert(s.last() == s[s.len() - 1]);
    }
}

proof fn lemma_entries_map_value<T>(s: Seq<(String, T)>, i: int)
    requires
        keys_distinct(s),
        0 <= i < s.len(),
    ensures
        entries_map(s).contains_key(s[i].0@),
        entries_map(s)[s[i].0@] == s[i].1,
    decreases s.len(),
{
    let p = s.drop_last();
    if i < s.len() - 1 {
        assert(p[i] == s[i]);
        assert(s.last() == s[s.len() - 1]);
        assert(s[i].0@ != s[s.len() - 1].0@);
        assert(keys_distinct(p)) by {
            assert forall|a: int, b: int| 0 <= a < b < p.len() implies p[a].0@ != p[b].0@ by {
                assert(p[a] == s[a] && p[b] == s[b]);
            }
        }
        lemma_entries_map_value(p, i);
    }
}

proof fn lemma_entries_map_update<T>(s: Seq<(String, T)>, i: int, e: (String, T))
    requires
        keys_distinct(s),
        0 <= i < s.len(),
        e.0@ == s[i].0@,
    ensures
        entries_map(s.update(i, e)) =~= entries_map(s).insert(e.0@, e.1),
        keys_distinct(s.update(i, e)),
    decreases s.len(),
{
    let p = s.drop_last();
    let t = s.update(i, e);
    assert(keys_distinct(t)) by {
        assert forall|a: int, b: int| 0 <= a < b < t.len() implies t[a].0@ != t[b].0@ by {
            assert(s[a].0@ != s[b].0@);
        }
    }
    if i == s.len() - 1 {
        assert(t.drop_last() =~= p);
        assert(t.last() == e);
    } else {
        assert(keys_distinct(p)) by {
            assert forall|a: int, b: int| 0 <= a < b < p.len() implies p[a].0@ != p[b].0@ by {
                assert(p[a] == s[a] && p[b] == s[b]);
            }
        }
        assert(p[i] == s[i]);
        lemma_entries_map_update(p, i, e);
        assert(t.drop_last() =~= p.update(i, e));
        assert(t.last() == s.last());
        assert(s.last() == s[s.len() - 1]);
        assert(s[i].0@ != s[s.len() - 1].0@);
    }
}

proof fn lemma_entries_map_remove<T>(s: Seq<(String, T)>, i: int)
    requires
        keys_distinct(s),
        0 <= i < s.len(),
    ensures
        entries_map(s.remove(i)) =~= entries_map(s).remove(s[i].0@),
        keys_distinct(s.remove(i)),
    decreases s.len(),
{
    let p = s.drop_last();
    let t = s.remove(i);
    assert(keys_distinct(t)) by {
        assert forall|a: int, b: int| 0 <= a < b < t.len() implies t[a].0@ != t[b].0@ by {
            let a2 = if a < i {
                a
            } else {
                a + 1
            };
            let b2 = if b < i {
                b
            } else {
                b + 1
            };
            assert(t[a] == s[a2] && t[b] == s[b2]);
            assert(s[a2].0@ != s[b2].0@);
        }
    }
    assert(keys_distinct(p)) by {
        assert forall|a: int, b: int| 0 <= a < b < p.len() implies p[a].0@ != p[b].0@ by {
            assert(p[a] == s[a] && p[b] == s[b]);
        }
    }
    if i == s.len() - 1 {
        assert(t =~= p);
        assert(s.last() == s[i]);
        assert forall|j: int| 0 <= j < p.len() implies #[trigger] p[j].0@ != s[i].0@ by {
            assert(p[j] == s[j]);
        }
        lemma_entries_map_absent(p, s[i].0@);
    } else {
        assert(p[i] == s[i]);
        lemma_entries_map_remove(p, i);
        assert(t.drop_last() =~= p.remove(i));
        assert(t.last() == s.last());
        assert(s.last() == s[s.len() - 1]);
        assert(s[i].0@ != s[s.len() - 1].0@);
    }
}

/// A map from peer addresses to streams, kept as a list in which no
/// address occurs twice.
pub struct AddrTable<T> {
    entries: Vec<(String, T)>,
}

impl<T> View for AddrTable<T> {
    type V = Map<Seq<char>, T>;

    closed spec fn view(&self) -> Map<Seq<char>, T> {
        entries_map(self.entries@)
    }
}

impl<T> AddrTable<T> {
    /// No address occurs twice.
    pub closed spec fn wf(&self) -> bool {
        keys_distinct(self.entries@)
    }

    pub fn new() -> (r: Self)
        ensures
            r.wf(),
            r@ == Map::<Seq<char>, T>::empty(),
    {
        AddrTable { entries: Vec::new() }
    }

    fn find(&self, addr: &str) -> (r: Option<usize>)
        ensures
            match r {
                Some(i) => i < self.entries@.len() && self.entries@[i as int].0@ == addr@,
                None => forall|i: int|
                    0 <= i < self.entries@.len() ==> #[trigger] self.entries@[i].0@ != addr@,
            },
    {
        let wanted = String::from_str(addr);
        let mut i: usize = 0;
        while i < self.entries.len()
            invariant
                i <= self.entries@.len(),
                wanted@ == addr@,
                forall|j: int| 0 <= j < i ==> #[trigger] self.entries@[j].0@ != addr@,
            decreases self.entries@.len() - i,
        {
            if self.entries[i].0 == wanted {
                return Some(i);
            }
            i = i + 1;
        }
        None
    }

    /// The stream of the peer at `addr`.
    pub fn get(&self, addr: &str) -> (r: Option<&T>)
        requires
            self.wf(),
        ensures
            match r {
                Some(v) => self@.contains_key(addr@) && self@[addr@] == *v,
                None => !self@.contains_key(addr@),
            },
    {
        match self.find(addr) {
            Some(i) => {
                proof {
                    lemma_entries_map_value(self.entries@, i as int);
                }
                Some(&self.entries[i].1)
            },
            None => {
                proof {
                    lemma_entries_map_absent(self.entries@, addr@);
                }
                None
            },
        }
    }

    /// Files `stream` under `addr`, in place of any stream filed there.
    pub fn insert(&mut self, addr: String, stream: T)
        requires
            old(self).wf(),
        ensures
            final(self).wf(),
            final(self)@ == old(self)@.insert(addr@, stream),
    {
        match self.find(addr.as_str()) {
            Some(i) => {
                proof {
                    lemma_entries_map_update(self.entries@, i as int, (addr, stream));
                }
                self.entries.set(i, (addr, stream));
            },
            None => {
                let ghost before = self.entries@;
                let ghost key = addr@;
                self.entries.push((addr, stream));
                proof {
                    assert(self.entries@.drop_last() =~= before);
                    assert(keys_distinct(self.entries@)) by {
                        assert forall|a: int, b: int|
                            0 <= a < b < self.entries@.len() implies self.entries@[a].0@
                            != self.entries@[b].0@ by {
                            if b == before.len() {
                                assert(self.entries@[a] == before[a]);
                            } else {
                                assert(self.entries@[a] == before[a]);
                                assert(self.entries@[b] == before[b]);
                            }
                        }
                    }
                }
            },
        }
    }

    /// Takes the stream of the peer at `addr` out of the table.
    pub fn remove(&mut self, addr: &str) -> (r: Option<T>)
        requires
            old(self).wf(),
        ensures
            final(self).wf(),
            final(self)@ == old(self)@.remove(addr@),
            match r {
                Some(v) => old(self)@.contains_key(addr@) && old(self)@[addr@] == v,
                None => !old(self)@.contains_key(addr@),
            },
    {
        match self.find(addr) {
            Some(i) => {
                proof {
                    lemma_entries_map_value(self.entries@, i as int);
                    lemma_entries_map_remove(self.entries@, i as int);
                }
                let (_, stream) = self.entries.remove(i);
                Some(stream)
            },
            None => {
                proof {
                    lemma_entries_map_absent(self.entries@, addr@);
                    assert(self@.remove(addr@) =~= self@);
                }
                None
            },
        }
    }
}

} // verus!
