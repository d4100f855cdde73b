//! The flat key-value settings store (API keys, URLs and the like).
use vstd::prelude::*;
use crate::text::str_eq;

verus! {

/// The value stored under `key` among `entries`, searching from the front.
pub open spec fn entries_lookup(entries: Seq<(Seq<char>, Seq<char>)>, key: Seq<char>) -> Option<
    Seq<char>,
>
    decreases entries.len(),
{
    if entries.len() == 0 {
        None
    } else if entries[0].0 == key {
        Some(entries[0].1)
    } else {
        entries_lookup(entries.drop_first(), key)
    }
}

/// Whether no key occurs twice among `entries`.
pub open spec fn keys_distinct(entries: Seq<(Seq<char>, Seq<char>)>) -> bool {
    forall|i: int, j: int| 0 <= i < j < entries.len() ==> entries[i].0 != entries[j].0
}

/// Settings: a map from keys to values in which each key occurs once.
pub struct Settings {
    entries: Vec<(String, String)>,
}

pub open spec fn entries_view(v: Seq<(String, String)>) -> Seq<(Seq<char>, Seq<char>)> {
    v.map_values(|e: (String, String)| (e.0@, e.1@))
}

impl Settings {
    /// The stored pairs, as plain text.
    pub closed spec fn pairs(&self) -> Seq<(Seq<char>, Seq<char>)> {
        entries_view(self.entries@)
    }

    #[verifier::type_invariant]
    closed spec fn distinct(&self) -> bool {
        keys_distinct(self.pairs())
    }
}

impl View for Settings {
    type V = Map<Seq<char>, Seq<char>>;

    closed spec fn view(&self) -> Map<Seq<char>, Seq<char>> {
        Map::new(
            |k: Seq<char>| entries_lookup(self.pairs(), k) is Some,
            |k: Seq<char>| entries_lookup(self.pairs(), k).unwrap(),
        )
    }
}

proof fn lemma_lookup_index(e: Seq<(Seq<char>, Seq<char>)>, key: Seq<char>, i: int)
    requires
        0 <= i < e.len(),
        e[i].0 == key,
        keys_distinct(e),
    ensures
        entries_lookup(e, key) == Some(e[i].1),
    decreases i,
{
    if i > 0 {
        lemma_lookup_index(e.drop_first(), key, i - 1);
    }
}

proof fn lemma_lookup_absent(e: Seq<(Seq<char>, Seq<char>)>, key: Seq<char>)
    requires
        forall|i: int| 0 <= i < e.len() ==> e[i].0 != key,
    ensures
        entries_lookup(e, key) is None,
    decreases e.len(),
{
    if e.len() > 0 {
        lemma_lookup_absent(e.drop_first(), key);
    }
}

proof fn lemma_lookup_some(e: Seq<(Seq<char>, Seq<char>)>, key: Seq<char>)
    requires
        entries_lookup(e, key) is Some,
    ensures
        exists|i: int| 0 <= i < e.len() && e[i].0 == key && entries_lookup(e, key) == Some(e[i].1),
    decreases e.len(),
{
    if e[0].0 != key {
        lemma_lookup_some(e.drop_first(), key);
        let i = choose|i: int|
            0 <= i < e.drop_first().len() && e.drop_first()[i].0 == key && entries_lookup(
                e.drop_first(),
                key,
            ) == Some(e.drop_first()[i].1);
        assert(e[i + 1] == e.drop_first()[i]);
    }
}

impl Settings {
    /// Settings with no keys.
    pub fn new() -> (r: Settings)
        ensures
            r@ == Map::<Seq<char>, Seq<char>>::empty(),
    {
        let r = Settings { entries: Vec::new() };
        assert(r@ =~= Map::<Seq<char>, Seq<char>>::empty());
        r
    }

    /// The number of keys.
    pub fn len(&self) -> (n: usize)
        ensures
            n as int == self.pairs().len(),
    {
        self.entries.len()
    }

    /// Whether there are no keys.
    pub fn is_empty(&self) -> (b: bool)
        ensures
            b == (self@ == Map::<Seq<char>, Seq<char>>::empty()),
    {
        proof {
            use_type_invariant(self);
            if self.entries@.len() > 0 {
                let k = self.pairs()[0].0;
                assert(entries_lookup(self.pairs(), k) is Some);
                assert(self@.contains_key(k));
                assert(self@ != Map::<Seq<char>, Seq<char>>::empty());
            } else {
                assert(self@ =~= Map::<Seq<char>, Seq<char>>::empty());
            }
        }
        self.entries.len() == 0
    }

    fn position(&self, key: &str) -> (r: Option<usize>)
        ensures
            match r {
                Some(i) => i < self.pairs().len() && self.pairs()[i as int].0 == key@,
                None => forall|i: int| 0 <= i < self.pairs().len() ==> self.pairs()[i].0 != key@,
            },
    {
        let mut i: usize = 0;
        while i < self.entries.len()
            invariant
                i <= self.entries@.len(),
                forall|k: int| 0 <= k < i ==> self.pairs()[k].0 != key@,
            decreases self.entries@.len() - i,
        {
            if str_eq(self.entries[i].0.as_str(), key) {
                return Some(i);
            }
            i = i + 1;
        }
        None
    }

    /// The value stored under `key`.
    pub fn get(&self, key: &str) -> (r: Option<&String>)
        ensures
            match r {
                Some(v) => self@.contains_key(key@) && self@[key@] == v@,
                None => !self@.contains_key(key@),
            },
    {
        proof {
            use_type_invariant(self);
        }
        match self.position(key) {
            Some(i) => {
                proof {
                    lemma_lookup_index(self.pairs(), key@, i as int);
                }
                Some(&self.entries[i].1)
            },
            None => {
                proof {
                    lemma_lookup_absent(self.pairs(), key@);
                }
                None
            },
        }
    }

    /// Stores `value` under `key`, replacing what was there.
    pub fn insert(&mut self, key: String, value: String)
        ensures
            final(self)@ == old(self)@.insert(key@, value@),
    {
        proof {
            use_type_invariant(&*self);
        }
        let ghost old_pairs = self.pairs();
        let ghost old_view = self@;
        let ghost kv = key@;
        let ghost vv = value@;
        let pos = self.position(key.as_str());
        let mut entries: Vec<(String, String)> = Vec::new();
        std::mem::swap(&mut entries, &mut self.entries);
        assert(entries_view(entries@) == old_pairs);
        match pos {
            Some(i) => {
                entries.set(i, (key, value));
                assert(entries_view(entries@) =~= old_pairs.update(i as int, (kv, vv)));
            },
            None => {
                entries.push((key, value));
                assert(entries_view(entries@) =~= old_pairs.push((kv, vv)));
            },
        }
        let ghost np = entries_view(entries@);
        proof {
            assert forall|a: int, b: int| 0 <= a < b < np.len() implies np[a].0 != np[b].0 by {}
            assert forall|k: Seq<char>| #[trigger] entries_lookup(np, k) == (if k == kv {
                Some(vv)
            } else {
                entries_lookup(old_pairs, k)
            }) by {
                if k == kv {
                    let idx = match pos {
                        Some(i) => i as int,
                        None => old_pairs.len() as int,
                    };
                    lemma_lookup_index(np, k, idx);
                } else if entries_lookup(old_pairs, k) is Some {
                    lemma_lookup_some(old_pairs, k);
                    let j = choose|j: int|
                        0 <= j < old_pairs.len() && old_pairs[j].0 == k && entries_lookup(
                            old_pairs,
                            k,
                        ) == Some(old_pairs[j].1);
                    lemma_lookup_index(np, k, j);
                } else if entries_lookup(np, k) is Some {
                    lemma_lookup_some(np, k);
                    let j = choose|j: int|
                        0 <= j < np.len() && np[j].0 == k && entries_lookup(np, k) == Some(
                            np[j].1,
                        );
                    lemma_lookup_index(old_pairs, k, j);
                }
            }
        }
        self.entries = entries;
        assert(self@ =~= old_view.insert(kv, vv));
    }

    /// `entry(key).or_default()`: stores the empty string under `key` when
    /// nothing is stored there; otherwise leaves the settings as they are.
    pub fn entry_or_default(&mut self, key: String)
        ensures
            old(self)@.contains_key(key@) ==> final(self)@ == old(self)@,
            !old(self)@.contains_key(key@) ==> final(self)@ == old(self)@.insert(
                key@,
                Seq::empty(),
            ),
    {
        if self.get(key.as_str()).is_none() {
            self.insert(key, String::new());
        }
    }

    /// A copy of these settings.
    pub fn duplicate(&self) -> (r: Settings)
        ensures
            r@ == self@,
    {
        proof {
            use_type_invariant(self);
        }
        let mut entries: Vec<(String, String)> = Vec::new();
        let mut i: usize = 0;
        while i < self.entries.len()
            invariant
                i <= self.entries@.len(),
                entries_view(entries@) == entries_view(self.entries@).take(i as int),
            decreases self.entries@.len() - i,
        {
            let ghost before = entries_view(entries@);
            entries.push((self.entries[i].0.clone(), self.entries[i].1.clone()));
            assert(entries_view(entries@) =~= before.push(entries_view(self.entries@)[i as int]));
            assert(entries_view(self.entries@).take(i + 1) =~= entries_view(self.entries@).take(
                i as int,
            ).push(entries_view(self.entries@)[i as int]));
            i = i + 1;
        }
        assert(entries_view(self.entries@).take(self.entries@.len() as int) =~= entries_view(
            self.entries@,
        ));
        let r = Settings { entries };
        assert(r.pairs() == self.pairs());
        assert(r@ =~= self@);
        r
    }

    /// The stored pairs, in storage order.
    pub fn entries(&self) -> (r: &Vec<(String, String)>)
        ensures
            entries_view(r@) == self.pairs(),
            keys_distinct(entries_view(r@)),
            forall|k: Seq<char>| #[trigger] self@.contains_key(k) <==> entries_lookup(entries_view(r@), k) is Some,
            forall|k: Seq<char>| #[trigger] self@.contains_key(k) ==> entries_lookup(entries_view(r@), k) == Some(self@[k]),
    {
        proof {
            use_type_invariant(self);
        }
        &self.entries
    }
}

} // verus!
