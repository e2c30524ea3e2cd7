//! A small text-keyed map kept as an association list with distinct keys.
use vstd::prelude::*;

verus! {

/// Text keys to text values; insertion order is kept, keys are distinct.
pub struct StrMap {
    pub entries: Vec<(String, String)>,
}

/// The keys of an entry list are pairwise distinct.
pub open spec fn distinct_keys(s: Seq<(String, String)>) -> bool {
    forall|i: int, j: int| 0 <= i < j < s.len() ==> s[i].0@ != s[j].0@
}

/// The map that an entry list denotes (later entries win, though with distinct keys
/// there is nothing to win).
pub open spec fn entries_map(s: Seq<(String, String)>) -> Map<Seq<char>, Seq<char>>
    decreases s.len(),
{
    if s.len() == 0 {
        Map::empty()
    } else {
        entries_map(s.drop_last()).insert(s.last().0@, s.last().1@)
    }
}

pub proof fn lemma_entries_map(s: Seq<(String, String)>)
    requires
        distinct_keys(s),
    ensures
        forall|k: Seq<char>| #[trigger] entries_map(s).contains_key(k) <==> exists|i: int|
            0 <= i < s.len() && s[i].0@ == k,
        forall|i: int| 0 <= i < s.len() ==> #[trigger] entries_map(s)[s[i].0@] == s[i].1@,
        forall|i: int| 0 <= i < s.len() ==> #[trigger] entries_map(s).contains_key(s[i].0@),
    decreases s.len(),
{
    if s.len() > 0 {
        let p = s.drop_last();
        assert(distinct_keys(p));
        lemma_entries_map(p);
        assert forall|k: Seq<char>| #[trigger] entries_map(s).contains_key(k) implies exists|i: int|
            0 <= i < s.len() && s[i].0@ == k by {
            if k == s.last().0@ {
                assert(s[s.len() - 1].0@ == k);
            } else {
                assert(entries_map(p).contains_key(k));
                let i = choose|i: int| 0 <= i < p.len() && p[i].0@ == k;
                assert(p[i] == s[i]);
                assert(s[i].0@ == k);
            }
        }
        assert forall|k: Seq<char>| (exists|i: int| 0 <= i < s.len() && s[i].0@ == k) implies
            #[trigger] entries_map(s).contains_key(k) by {
            let i = choose|i: int| 0 <= i < s.len() && s[i].0@ == k;
            if i < s.len() - 1 {
                assert(p[i] == s[i]);
                assert(entries_map(p).contains_key(p[i].0@));
            }
        }
        assert forall|i: int| 0 <= i < s.len() implies #[trigger] entries_map(s)[s[i].0@]
            == s[i].1@ by {
            if i < s.len() - 1 {
                assert(p[i] == s[i]);
                assert(s[i].0@ != s[s.len() - 1].0@);
                assert(entries_map(p)[p[i].0@] == p[i].1@);
                assert(entries_map(p).contains_key(p[i].0@));
            }
        }
        assert forall|i: int| 0 <= i < s.len() implies #[trigger] entries_map(s).contains_key(
            s[i].0@,
        ) by {
            if i < s.len() - 1 {
                assert(p[i] == s[i]);
            }
        }
    }
}

/// The first `n` pairs stored in turn into an empty map.
pub open spec fn pairs_map(pairs: Seq<(String, String)>, n: nat) -> Map<Seq<char>, Seq<char>>
    decreases n,
{
    if n == 0 {
        Map::empty()
    } else {
        pairs_map(pairs, (n - 1) as nat).insert(pairs[n - 1].0@, pairs[n - 1].1@)
    }
}

impl View for StrMap {
    type V = Map<Seq<char>, Seq<char>>;

    open spec fn view(&self) -> Map<Seq<char>, Seq<char>> {
        entries_map(self.entries@)
    }
}

impl StrMap {
    pub open spec fn wf(&self) -> bool {
        distinct_keys(self.entries@)
    }

    /// An empty map.
    pub fn new() -> (r: Self)
        ensures
            r.wf(),
            r@ == Map::<Seq<char>, Seq<char>>::empty(),
    {
        StrMap { entries: Vec::new() }
    }

    pub fn len(&self) -> (r: usize)
        requires
            self.wf(),
        ensures
            r == self.entries.len(),
    {
        self.entries.len()
    }

    pub fn is_empty(&self) -> (r: bool)
        requires
            self.wf(),
        ensures
            r <==> self@ == Map::<Seq<char>, Seq<char>>::empty(),
    {
        proof {
            lemma_entries_map(self.entries@);
            if self.entries.len() > 0 {
                assert(self@.contains_key(self.entries@[0].0@));
            } else {
                assert(self@ =~= Map::<Seq<char>, Seq<char>>::empty());
            }
        }
        self.entries.len() == 0
    }

    /// Removes every entry.
    pub fn clear(&mut self)
        ensures
            final(self).wf(),
            final(self)@ == Map::<Seq<char>, Seq<char>>::empty(),
    {
        self.entries = Vec::new();
    }

    fn index_of(&self, key: &String) -> (r: Option<usize>)
        requires
            self.wf(),
        ensures
            match r {
                Some(i) => i < self.entries.len() && self.entries@[i as int].0@ == key@,
                None => forall|i: int| 0 <= i < self.entries.len() ==> self.entries@[i].0@ != key@,
            },
    {
        let mut i: usize = 0;
        while i < self.entries.len()
            invariant
                i <= self.entries.len(),
                forall|j: int| 0 <= j < i ==> self.entries@[j].0@ != key@,
            decreases self.entries.len() - i,
        {
            if self.entries[i].0 == *key {
                return Some(i);
            }
            i += 1;
        }
        None
    }

    /// The value stored under `key`, if any.
    pub fn get(&self, key: &String) -> (r: Option<String>)
        requires
            self.wf(),
        ensures
            match r {
                Some(v) => self@.contains_key(key@) && v@ == self@[key@],
                None => !self@.contains_key(key@),
            },
    {
        proof {
            lemma_entries_map(self.entries@);
        }
        match self.index_of(key) {
            Some(i) => Some(self.entries[i].1.clone()),
            None => None,
        }
    }

    /// Stores `value` under `key`, replacing an earlier value.
    pub fn insert(&mut self, key: String, value: String)
        requires
            old(self).wf(),
        ensures
            final(self).wf(),
            final(self)@ == old(self)@.insert(key@, value@),
    {
        proof {
            lemma_entries_map(self.entries@);
        }
        match self.index_of(&key) {
            Some(i) => {
                let ghost old_entries = self.entries@;
                let ghost k = key@;
                let ghost v = value@;
                self.entries.set(i, (key, value));
                proof {
                    let s = self.entries@;
                    assert(distinct_keys(s)) by {
                        assert forall|a: int, b: int| 0 <= a < b < s.len() implies s[a].0@
                            != s[b].0@ by {
                            assert(old_entries[a].0@ != old_entries[b].0@);
                        }
                    }
                    lemma_entries_map(s);
                    assert forall|kk: Seq<char>| #[trigger] entries_map(s).contains_key(kk)
                        == entries_map(old_entries).insert(k, v).contains_key(kk) by {
                        if kk != k {
                            if entries_map(s).contains_key(kk) {
                                let j = choose|j: int| 0 <= j < s.len() && s[j].0@ == kk;
                                assert(old_entries[j].0@ == kk);
                            }
                            if entries_map(old_entries).contains_key(kk) {
                                let j = choose|j: int| 0 <= j < old_entries.len()
                                    && old_entries[j].0@ == kk;
                                assert(s[j].0@ == kk);
                            }
                        } else {
                            assert(s[i as int].0@ == kk);
                        }
                    }
                    assert forall|kk: Seq<char>| #[trigger] entries_map(s).contains_key(kk)
                        implies entries_map(s)[kk] == entries_map(old_entries).insert(k, v)[kk] by {
                        let j = choose|j: int| 0 <= j < s.len() && s[j].0@ == kk;
                        if j != i {
                            assert(old_entries[j] == s[j]);
                        }
                    }
                    assert(entries_map(s) =~= entries_map(old_entries).insert(k, v));
                }
            },
            None => {
                let ghost old_entries = self.entries@;
                self.entries.push((key, value));
                proof {
                    assert(self.entries@.drop_last() =~= old_entries);
                }
            },
        }
    }

    /// Takes the entry under `key` out of the map, giving back its value.
    pub fn remove(&mut self, key: &str) -> (r: Option<String>)
        requires
            old(self).wf(),
        ensures
            final(self).wf(),
            final(self)@ == old(self)@.remove(key@),
            match r {
                Some(v) => old(self)@.contains_key(key@) && old(self)@[key@] == v@,
                None => !old(self)@.contains_key(key@),
            },
    {
        proof {
            lemma_entries_map(self.entries@);
        }
        let k = String::from_str(key);
        match self.index_of(&k) {
            None => {
                proof {
                    assert(self@ =~= self@.remove(key@));
                }
                None
            },
            Some(i) => {
                let ghost before = self.entries@;
                let e = self.entries.remove(i);
                proof {
                    let s = self.entries@;
                    assert(s =~= before.remove(i as int));
                    assert(distinct_keys(s)) by {
                        assert forall|a: int, b: int| 0 <= a < b < s.len() implies s[a].0@ != s[b].0@ by {
                            let a2 = if a < i { a } else { a + 1 };
                            let b2 = if b < i { b } else { b + 1 };
                            assert(s[a] == before[a2] && s[b] == before[b2]);
                        }
                    }
                    lemma_entries_map(s);
                    assert forall|kk: Seq<char>| #[trigger] entries_map(s).contains_key(kk)
                        == entries_map(before).remove(key@).contains_key(kk) by {
                        if entries_map(s).contains_key(kk) {
                            let j = choose|j: int| 0 <= j < s.len() && s[j].0@ == kk;
                            let j2 = if j < i { j } else { j + 1 };
                            assert(before[j2].0@ == kk);
                            assert(j2 != i);
                            assert(before[i as int].0@ != before[j2].0@);
                        }
                        if entries_map(before).contains_key(kk) && kk != key@ {
                            let j = choose|j: int| 0 <= j < before.len() && before[j].0@ == kk;
                            assert(j != i);
                            if j < i {
                                assert(s[j].0@ == kk);
                            } else {
                                assert(s[j - 1].0@ == kk);
                            }
                        }
                    }
                    assert forall|kk: Seq<char>| #[trigger] entries_map(s).contains_key(kk)
                        implies entries_map(s)[kk] == entries_map(before).remove(key@)[kk] by {
                        let j = choose|j: int| 0 <= j < s.len() && s[j].0@ == kk;
                        let j2 = if j < i { j } else { j + 1 };
                        assert(s[j] == before[j2]);
                    }
                    assert(entries_map(s) =~= entries_map(before).remove(key@));
                }
                Some(e.1)
            },
        }
    }

    /// The map that storing each pair in turn gives: a later pair overrides an
    /// earlier one with the same key (as collecting pairs into a map does).
    pub fn from_pairs(pairs: &Vec<(String, String)>) -> (r: StrMap)
        ensures
            r.wf(),
            r@ == pairs_map(pairs@, pairs.len() as nat),
    {
        let mut m = StrMap::new();
        let mut i: usize = 0;
        while i < pairs.len()
            invariant
                i <= pairs.len(),
                m.wf(),
                m@ == pairs_map(pairs@, i as nat),
            decreases pairs.len() - i,
        {
            let p = &pairs[i];
            m.insert(p.0.clone(), p.1.clone());
            i += 1;
        }
        m
    }

    /// A copy of the map.
    pub fn clone_map(&self) -> (r: StrMap)
        ensures
            r.entries@ == self.entries@,
    {
        let mut out: Vec<(String, String)> = Vec::new();
        let mut i: usize = 0;
        while i < self.entries.len()
            invariant
                i <= self.entries.len(),
                out@ == self.entries@.take(i as int),
            decreases self.entries.len() - i,
        {
            let e = &self.entries[i];
            out.push((e.0.clone(), e.1.clone()));
            i += 1;
            assert(out@ =~= self.entries@.take(i as int));
        }
        assert(self.entries@.take(self.entries.len() as int) =~= self.entries@);
        StrMap { entries: out }
    }
}

} // verus!
