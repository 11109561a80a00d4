//! A small name-keyed table: an association of service names to values,
//! viewed as a `Map<Seq<char>, V>`.  Both the attempt counters and the
//! metrics registry are keyed this way.

use vstd::prelude::*;

use crate::text::str_eq;

verus! {

/// The map that a sequence of entries denotes, later entries shadowing
/// earlier ones (a well-formed table keeps names unique, so nothing is
/// shadowed).
pub open spec fn entry_map<V>(s: Seq<(String, V)>) -> Map<Seq<char>, V>
    decreases s.len(),
{
    if s.len() == 0 {
        Map::empty()
    } else {
        entry_map(s.drop_last()).insert(s.last().0@, s.last().1)
    }
}

/// Entry names are pairwise distinct.
pub open spec fn names_unique<V>(s: Seq<(String, V)>) -> bool {
    forall|i: int, j: int| 0 <= i < j < s.len() ==> s[i].0@ != s[j].0@
}

pub proof fn lemma_entry_map_contains<V>(s: Seq<(String, V)>, k: Seq<char>)
    ensures
        entry_map(s).contains_key(k) <==> (exists|i: int| 0 <= i < s.len() && s[i].0@ == k),
    decreases s.len(),
{
    if s.len() > 0 {
        lemma_entry_map_contains(s.drop_last(), k);
        if s.last().0@ == k {
            assert(s[s.len() - 1].0@ == k);
        } else {
            if exists|i: int| 0 <= i < s.len() && s[i].0@ == k {
                let i = choose|i: int| 0 <= i < s.len() && s[i].0@ == k;
                assert(s.drop_last()[i] == s[i]);
            }
            if exists|i: int| 0 <= i < s.drop_last().len() && s.drop_last()[i].0@ == k {
                let i = choose|i: int| 0 <= i < s.drop_last().len() && s.drop_last()[i].0@ == k;
                assert(s[i].0@ == k);
            }
        }
    }
}

pub proof fn lemma_entry_map_lookup<V>(s: Seq<(String, V)>, i: int)
    requires
        names_unique(s),
        0 <= i < s.len(),
    ensures
        entry_map(s).contains_key(s[i].0@),
        entry_map(s)[s[i].0@] == s[i].1,
    decreases s.len(),
{
    if i == s.len() - 1 {
    } else {
        assert(s.drop_last()[i] == s[i]);
        lemma_entry_map_lookup(s.drop_last(), i);
        assert(s.last().0@ != s[i].0@);
    }
}

pub proof fn lemma_entry_map_update<V>(s: Seq<(String, V)>, i: int, v: V)
    requires
        names_unique(s),
        0 <= i < s.len(),
    ensures
        entry_map(s.update(i, (s[i].0, v))) =~= entry_map(s).insert(s[i].0@, v),
        names_unique(s.update(i, (s[i].0, v))),
    decreases s.len(),
{
    let t = s.update(i, (s[i].0, v));
    assert forall|a: int, b: int| 0 <= a < b < t.len() implies t[a].0@ != t[b].0@ by {
        assert(t[a].0@ == s[a].0@ && t[b].0@ == s[b].0@);
    }
    if i == s.len() - 1 {
        assert(t.drop_last() =~= s.drop_last());
        assert(t.last() == (s[i].0, v));
        assert(entry_map(t) == entry_map(s.drop_last()).insert(s[i].0@, v));
        assert(entry_map(s.drop_last()).insert(s[i].0@, v) =~= entry_map(s.drop_last()).insert(
            s[i].0@,
            s[i].1,
        ).insert(s[i].0@, v));
    } else {
        assert(t.drop_last() =~= s.drop_last().update(i, (s[i].0, v)));
        assert(t.last() == s.last());
        assert(s.drop_last()[i] == s[i]);
        lemma_entry_map_update(s.drop_last(), i, v);
        assert(s.last().0@ != s[i].0@);
        assert(entry_map(t) == entry_map(s.drop_last().update(i, (s[i].0, v))).insert(
            s.last().0@,
            s.last().1,
        ));
        assert(entry_map(s.drop_last()).insert(s[i].0@, v).insert(s.last().0@, s.last().1)
            =~= entry_map(s.drop_last()).insert(s.last().0@, s.last().1).insert(s[i].0@, v));
    }
}

pub proof fn lemma_entry_map_len<V>(s: Seq<(String, V)>)
    requires
        names_unique(s),
    ensures
        entry_map(s).dom().finite(),
        entry_map(s).len() == s.len(),
    decreases s.len(),
{
    if s.len() > 0 {
        lemma_entry_map_len(s.drop_last());
        lemma_entry_map_contains(s.drop_last(), s.last().0@);
        assert(forall|i: int|
            0 <= i < s.drop_last().len() ==> s.drop_last()[i] == s[i] && s[i].0@ != s.last().0@);
        assert(!entry_map(s.drop_last()).contains_key(s.last().0@));
    }
}

/// A table of values keyed by service name, with each name held at most
/// once.
#[derive(Debug)]
pub struct NameTable<V> {
    entries: Vec<(String, V)>,
}

impl<V: Copy> NameTable<V> {
    /// Names are pairwise distinct.
    pub closed spec fn wf(&self) -> bool {
        names_unique(self.entries@)
    }

    /// The map this table holds.
    pub closed spec fn view(&self) -> Map<Seq<char>, V> {
        entry_map(self.entries@)
    }

    /// An empty table.
    pub fn new() -> (r: Self)
        ensures
            r.wf(),
            r@ == Map::<Seq<char>, V>::empty(),
    {
        NameTable { entries: Vec::new() }
    }

    fn find_index(&self, name: &str) -> (r: Option<usize>)
        ensures
            r matches Some(i) ==> i < self.entries@.len() && self.entries@[i as int].0@ == name@,
            r is None ==> forall|i: int|
                0 <= i < self.entries@.len() ==> self.entries@[i].0@ != name@,
    {
        let n = self.entries.len();
        let mut i: usize = 0;
        while i < n
            invariant
                0 <= i <= n,
                n == self.entries@.len(),
                forall|k: int| 0 <= k < i ==> self.entries@[k].0@ != name@,
            decreases n - i,
        {
            if str_eq(self.entries[i].0.as_str(), name) {
                return Some(i);
            }
            i = i + 1;
        }
        None
    }

    /// The value held under a name, if any.
    pub fn get(&self, name: &str) -> (r: Option<V>)
        requires
            self.wf(),
        ensures
            r matches Some(v) ==> self@.contains_key(name@) && self@[name@] == v,
            r is None ==> !self@.contains_key(name@),
    {
        match self.find_index(name) {
            Some(i) => {
                proof {
                    lemma_entry_map_lookup(self.entries@, i as int);
                }
                Some(self.entries[i].1)
            },
            None => {
                proof {
                    lemma_entry_map_contains(self.entries@, name@);
                }
                None
            },
        }
    }

    /// Stores a value under a name, replacing any value already held there.
    pub fn set(&mut self, name: &str, v: V)
        requires
            old(self).wf(),
        ensures
            final(self).wf(),
            final(self)@ =~= old(self)@.insert(name@, v),
    {
        match self.find_index(name) {
            Some(i) => {
                let key = self.entries[i].0.clone();
                proof {
                    lemma_entry_map_update(self.entries@, i as int, v);
                }
                self.entries[i] = (key, v);
            },
            None => {
                proof {
                    lemma_entry_map_contains(self.entries@, name@);
                }
                let owned: String = name.to_owned();
                proof {
                    assert(self.entries@.push((owned, v)).drop_last() =~= self.entries@);
                }
                self.entries.push((owned, v));
            },
        }
    }

    /// How many names the table holds.
    pub fn len(&self) -> (r: usize)
        requires
            self.wf(),
        ensures
            r == self@.len(),
            self@.dom().finite(),
    {
        proof {
            lemma_entry_map_len(self.entries@);
        }
        self.entries.len()
    }

    /// Every entry of the table, names unique, each name mapped to the value
    /// the table holds for it.
    pub fn items(&self) -> (r: Vec<(String, V)>)
        requires
            self.wf(),
        ensures
            names_unique(r@),
            r@.len() == self@.len(),
            forall|i: int|
                0 <= i < r@.len() ==> self@.contains_key(#[trigger] r@[i].0@) && self@[r@[i].0@]
                    == r@[i].1,
    {
        proof {
            lemma_entry_map_len(self.entries@);
        }
        let n = self.entries.len();
        let mut out: Vec<(String, V)> = Vec::new();
        let mut i: usize = 0;
        while i < n
            invariant
                0 <= i <= n,
                n == self.entries@.len(),
                out@.len() == i,
                self.wf(),
                forall|k: int| 0 <= k < i ==> out@[k] == self.entries@[k],
            decreases n - i,
        {
            let key = self.entries[i].0.clone();
            let val = self.entries[i].1;
            out.push((key, val));
            i = i + 1;
        }
        proof {
            assert(out@ =~= self.entries@);
            assert forall|i: int| 0 <= i < out@.len() implies self@.contains_key(
                #[trigger] out@[i].0@,
            ) && self@[out@[i].0@] == out@[i].1 by {
                lemma_entry_map_lookup(self.entries@, i);
            }
        }
        out
    }
}

} // verus!
