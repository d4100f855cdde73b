//! The sessions held in memory, keyed by session id.
use vstd::prelude::*;
use crate::session::{Session, SessionSummary, SessionV};
use crate::store::{sort_newest_first, stamps_descending};
use crate::text::str_eq;

verus! {

/// The sessions in memory: at most one per id.
pub struct SessionTable {
    sessions: Vec<Session>,
}

/// Whether the summary shows the session.
pub open spec fn summarizes(r: SessionSummary, s: SessionV) -> bool {
    &&& r.id@ == s.id
    &&& r.title@ == s.title
    &&& r.model_name@ == s.model_name
    &&& r.created_at == s.created_at
    &&& r.updated_at == s.updated_at
}

/// The map from id to session after loading `loaded` in order: a later
/// session with the same id replaces an earlier one.
pub open spec fn loaded_map(loaded: Seq<SessionV>) -> Map<Seq<char>, SessionV>
    decreases loaded.len(),
{
    if loaded.len() == 0 {
        Map::empty()
    } else {
        loaded_map(loaded.drop_last()).insert(loaded.last().id, loaded.last())
    }
}

impl SessionTable {
    /// The stored sessions, in storage order.
    closed spec fn stored(&self) -> Seq<Session> {
        self.sessions@
    }

    #[verifier::type_invariant]
    closed spec fn ids_distinct(&self) -> bool {
        forall|a: int, b: int|
            0 <= a < b < self.sessions@.len() ==> self.sessions@[a].id@ != self.sessions@[b].id@
    }

    closed spec fn has(&self, id: Seq<char>) -> bool {
        exists|i: int| 0 <= i < self.sessions@.len() && #[trigger] self.sessions@[i].id@ == id
    }

    closed spec fn at(&self, id: Seq<char>) -> int {
        choose|i: int| 0 <= i < self.sessions@.len() && #[trigger] self.sessions@[i].id@ == id
    }

    proof fn lemma_at(&self, i: int)
        requires
            0 <= i < self.sessions@.len(),
        ensures
            self.has(self.sessions@[i].id@),
            self.ids_distinct() ==> self.at(self.sessions@[i].id@) == i,
    {
        let id = self.sessions@[i].id@;
        assert(self.sessions@[i].id@ == id);
    }
}

impl View for SessionTable {
    type V = Map<Seq<char>, SessionV>;

    closed spec fn view(&self) -> Map<Seq<char>, SessionV> {
        Map::new(|k: Seq<char>| self.has(k), |k: Seq<char>| self.sessions@[self.at(k)]@)
    }
}

impl SessionTable {
    /// No sessions.
    pub fn new() -> (r: SessionTable)
        ensures
            r@ == Map::<Seq<char>, SessionV>::empty(),
    {
        let r = SessionTable { sessions: Vec::new() };
        assert(r@ =~= Map::<Seq<char>, SessionV>::empty());
        r
    }

    fn position(&self, id: &str) -> (r: Option<usize>)
        ensures
            match r {
                Some(i) => i < self.sessions@.len() && self.sessions@[i as int].id@ == id@,
                None => !self.has(id@),
            },
    {
        let mut i: usize = 0;
        while i < self.sessions.len()
            invariant
                i <= self.sessions@.len(),
                forall|k: int| 0 <= k < i ==> #[trigger] self.sessions@[k].id@ != id@,
            decreases self.sessions@.len() - i,
        {
            if str_eq(self.sessions[i].id.as_str(), id) {
                return Some(i);
            }
            i = i + 1;
        }
        None
    }

    /// The session with the given id.
    pub fn get(&self, id: &str) -> (r: Option<&Session>)
        ensures
            match r {
                Some(s) => self@.contains_key(id@) && self@[id@] == s@,
                None => !self@.contains_key(id@),
            },
    {
        proof {
            use_type_invariant(self);
        }
        match self.position(id) {
            Some(i) => {
                proof {
                    self.lemma_at(i as int);
                }
                Some(&self.sessions[i])
            },
            None => None,
        }
    }

    /// Stores a session under its id, replacing the one stored there.
    pub fn insert(&mut self, session: Session)
        ensures
            final(self)@ == old(self)@.insert(session.id@, session@),
    {
        proof {
            use_type_invariant(&*self);
        }
        let ghost old_view = self@;
        let ghost old_seq = self.sessions@;
        let ghost sid = session.id@;
        let ghost sv = session@;
        let pos = self.position(session.id.as_str());
        let mut sessions: Vec<Session> = Vec::new();
        std::mem::swap(&mut sessions, &mut self.sessions);
        match pos {
            Some(i) => {
                sessions.set(i, session);
            },
            None => {
                sessions.push(session);
            },
        }
        proof {
            assert forall|a: int, b: int| 0 <= a < b < sessions@.len() implies sessions@[a].id@
                != sessions@[b].id@ by {
                if pos is None && b == old_seq.len() {
                    assert(old_seq[a].id@ == sessions@[a].id@);
                }
            }
        }
        self.sessions = sessions;
        proof {
            assert forall|k: Seq<char>| #[trigger] self@.contains_key(k) == (k == sid
                || old_view.contains_key(k)) by {
                if self.has(k) {
                    let i = choose|i: int| 0 <= i < self.sessions@.len() && #[trigger] self.sessions@[i].id@ == k;
                    if k != sid {
                        assert(old_seq[i].id@ == k);
                    }
                }
                if k == sid {
                    let i = match pos {
                        Some(i) => i as int,
                        None => old_seq.len() as int,
                    };
                    assert(self.sessions@[i].id@ == k);
                } else if old_view.contains_key(k) {
                    let i = choose|i: int| 0 <= i < old_seq.len() && #[trigger] old_seq[i].id@ == k;
                    assert(self.sessions@[i].id@ == k);
                }
            }
            assert forall|k: Seq<char>| #[trigger] self@.contains_key(k) implies self@[k] == (if k
                == sid {
                sv
            } else {
                old_view[k]
            }) by {
                let i = choose|i: int| 0 <= i < self.sessions@.len() && #[trigger] self.sessions@[i].id@ == k;
                self.lemma_at(i);
                if k != sid {
                    assert(old_seq[i] == self.sessions@[i]);
                    assert(old_seq[i].id@ == k);
                    assert(old_seq[old_seq.len() - 1] == old_seq[old_seq.len() - 1]);
                    let j = choose|j: int| 0 <= j < old_seq.len() && #[trigger] old_seq[j].id@ == k;
                    assert(j == i);
                }
            }
            assert(self@ =~= old_view.insert(sid, sv));
        }
    }

    /// Removes the session with the given id, if there is one.
    pub fn remove(&mut self, id: &str)
        ensures
            final(self)@ == old(self)@.remove(id@),
    {
        proof {
            use_type_invariant(&*self);
        }
        let ghost old_view = self@;
        let ghost old_seq = self.sessions@;
        match self.position(id) {
            Some(i) => {
                let mut sessions: Vec<Session> = Vec::new();
                std::mem::swap(&mut sessions, &mut self.sessions);
                let _gone = sessions.remove(i);
                let ghost ns = sessions@;
                assert(forall|k: int| 0 <= k < i ==> ns[k] == old_seq[k]);
                assert(forall|k: int| i <= k < ns.len() ==> ns[k] == old_seq[k + 1]);
                proof {
                    assert forall|a: int, b: int| 0 <= a < b < ns.len() implies ns[a].id@
                        != ns[b].id@ by {
                        let oa = if a < i { a } else { a + 1 };
                        let ob = if b < i { b } else { b + 1 };
                        assert(ns[a] == old_seq[oa]);
                        assert(ns[b] == old_seq[ob]);
                    }
                }
                self.sessions = sessions;
                proof {
                    assert forall|k: Seq<char>| #[trigger] self@.contains_key(k) == (k != id@
                        && old_view.contains_key(k)) by {
                        if self.has(k) {
                            let j = choose|j: int| 0 <= j < ns.len() && #[trigger] ns[j].id@ == k;
                            let oj = if j < i { j } else { j + 1 };
                            assert(old_seq[oj].id@ == k);
                            assert(old_seq[i as int].id@ == id@);
                        }
                        if k != id@ && old_view.contains_key(k) {
                            let j = choose|j: int| 0 <= j < old_seq.len() && #[trigger] old_seq[j].id@ == k;
                            assert(j != i);
                            let nj = if j < i { j } else { j - 1 };
                            assert(ns[nj].id@ == k);
                        }
                    }
                    assert forall|k: Seq<char>| #[trigger] self@.contains_key(k) implies self@[k]
                        == old_view[k] by {
                        let j = choose|j: int| 0 <= j < ns.len() && #[trigger] ns[j].id@ == k;
                        self.lemma_at(j);
                        let oj = if j < i { j } else { j + 1 };
                        assert(ns[j] == old_seq[oj]);
                        let c = choose|c: int| 0 <= c < old_seq.len() && #[trigger] old_seq[c].id@ == k;
                        assert(old_seq[oj].id@ == k);
                        assert(c == oj);
                    }
                    assert(self@ =~= old_view.remove(id@));
                }
            },
            None => {
                assert(self@ =~= old_view.remove(id@));
            },
        }
    }

    /// The table of sessions loaded in order, a later one replacing an
    /// earlier one with the same id.
    pub fn from_loaded(loaded: Vec<Session>) -> (r: SessionTable)
        ensures
            r@ == loaded_map(loaded@.map_values(|s: Session| s@)),
    {
        let ghost lv = loaded@.map_values(|s: Session| s@);
        let mut table = SessionTable::new();
        let mut src = loaded;
        let ghost orig = src@;
        let mut i: usize = 0;
        let n = src.len();
        while i < n
            invariant
                n == orig.len(),
                i <= n,
                src@ == orig.skip(i as int),
                lv == orig.map_values(|s: Session| s@),
                table@ == loaded_map(lv.take(i as int)),
            decreases n - i,
        {
            assert(src@[0] == orig[i as int]);
            let s = src.remove(0);
            assert(src@ =~= orig.skip(i + 1));
            assert(lv.take(i + 1).drop_last() =~= lv.take(i as int));
            assert(lv.take(i + 1).last() == s@);
            table.insert(s);
            i = i + 1;
        }
        assert(lv.take(n as int) =~= lv);
        table
    }

    /// The summaries of all sessions, newest first.
    pub fn summaries(&self) -> (r: Vec<SessionSummary>)
        ensures
            stamps_descending(r@),
            forall|a: int, b: int| 0 <= a < b < r@.len() ==> r@[a].id@ != r@[b].id@,
            forall|k: int|
                0 <= k < r@.len() ==> self@.contains_key(#[trigger] r@[k].id@) && summarizes(
                    r@[k],
                    self@[r@[k].id@],
                ),
            forall|id: Seq<char>|
                #[trigger] self@.contains_key(id) ==> exists|k: int|
                    0 <= k < r@.len() && #[trigger] r@[k].id@ == id,
    {
        proof {
            use_type_invariant(self);
        }
        let mut all: Vec<SessionSummary> = Vec::new();
        let mut i: usize = 0;
        while i < self.sessions.len()
            invariant
                i <= self.sessions@.len(),
                all@.len() == i,
                forall|k: int|
                    0 <= k < i ==> summarizes(#[trigger] all@[k], self.sessions@[k]@),
            decreases self.sessions@.len() - i,
        {
            all.push(self.sessions[i].summary());
            i = i + 1;
        }
        let ghost before = all@;
        let r = sort_newest_first(all);
        proof {
            let p = choose|p: Seq<int>| crate::store::stable_rearrangement(r@, before, p);
            assert forall|a: int, b: int| 0 <= a < b < r@.len() implies r@[a].id@ != r@[b].id@ by {
                assert(r@[a] == before[p[a]]);
                assert(r@[b] == before[p[b]]);
                assert(p[a] != p[b]);
                if p[a] < p[b] {
                } else {
                }
            }
            assert forall|k: int| 0 <= k < r@.len() implies self@.contains_key(
                #[trigger] r@[k].id@,
            ) && summarizes(r@[k], self@[r@[k].id@]) by {
                assert(r@[k] == before[p[k]]);
                self.lemma_at(p[k]);
            }
            assert forall|id: Seq<char>| #[trigger] self@.contains_key(id) implies exists|k: int|
                0 <= k < r@.len() && #[trigger] r@[k].id@ == id by {
                let j = choose|j: int| 0 <= j < self.sessions@.len() && #[trigger] self.sessions@[j].id@ == id;
                crate::store::lemma_permutation_covers(p, before.len() as int, j);
                let k = choose|k: int| 0 <= k < p.len() && p[k] == j;
                assert(r@[k] == before[j]);
            }
        }
        r
    }
}

} // verus!
