//! Storage of sessions and playbooks as one JSON file per record: where the
//! files live, which directory entries are records, and the newest-first
//! order in which loaded records are listed.
use vstd::prelude::*;
use crate::error::AppError;
use crate::session::{Session, SessionSummary};
use crate::text::{concat2, owned, push_str};

verus! {

// ---------------------------------------------------------------------------
// Newest first
// ---------------------------------------------------------------------------

/// A record with a last-update time.
pub trait Timestamped {
    /// The last-update time.
    spec fn stamp(&self) -> i64;

    /// The last-update time.
    fn updated_at(&self) -> (r: i64)
        ensures
            r == self.stamp(),
    ;
}

impl Timestamped for Session {
    open spec fn stamp(&self) -> i64 {
        self.updated_at
    }

    fn updated_at(&self) -> (r: i64) {
        self.updated_at
    }
}

impl Timestamped for SessionSummary {
    open spec fn stamp(&self) -> i64 {
        self.updated_at
    }

    fn updated_at(&self) -> (r: i64) {
        self.updated_at
    }
}

/// Whether `p` lists each of `0..n` exactly once.
pub open spec fn is_permutation(p: Seq<int>, n: int) -> bool {
    &&& p.len() == n
    &&& forall|k: int| 0 <= k < n ==> 0 <= #[trigger] p[k] < n
    &&& forall|a: int, b: int| 0 <= a < b < n ==> p[a] != p[b]
}

/// A permutation of `0..n` takes every value of `0..n`.
pub proof fn lemma_permutation_covers(p: Seq<int>, n: int, j: int)
    requires
        is_permutation(p, n),
        0 <= j < n,
    ensures
        exists|k: int| 0 <= k < p.len() && p[k] == j,
{
    assert(p.no_duplicates()) by {
        assert forall|a: int, b: int| 0 <= a < p.len() && 0 <= b < p.len() && a != b implies p[a]
            != p[b] by {
            if a < b {
            } else {
            }
        }
    }
    p.unique_seq_to_set();
    vstd::set_lib::lemma_int_range(0, n);
    let range = vstd::set_lib::set_int_range(0, n);
    assert(p.to_set().subset_of(range)) by {
        assert forall|x: int| p.to_set().contains(x) implies range.contains(x) by {
            let k = choose|k: int| 0 <= k < p.len() && p[k] == x;
            assert(0 <= p[k] < n);
        }
    }
    vstd::set_lib::lemma_len_subset(p.to_set(), range);
    vstd::set_lib::lemma_subset_equality(p.to_set(), range);
    assert(range.contains(j));
    assert(p.to_set().contains(j));
}

/// Whether the stamps of `r` never increase along it.
pub open spec fn stamps_descending<T: Timestamped>(r: Seq<T>) -> bool {
    forall|a: int, b: int| 0 <= a < b < r.len() ==> r[a].stamp() >= r[b].stamp()
}

/// Whether `r` holds the records of `v`, each once, by the permutation `p`,
/// and records with the same stamp keep their order in `v`.
pub open spec fn stable_rearrangement<T: Timestamped>(r: Seq<T>, v: Seq<T>, p: Seq<int>) -> bool {
    &&& is_permutation(p, v.len() as int)
    &&& r.len() == v.len()
    &&& forall|k: int| 0 <= k < r.len() ==> r[k] == v[#[trigger] p[k]]
    &&& forall|a: int, b: int|
        0 <= a < b < r.len() && r[a].stamp() == r[b].stamp() ==> #[trigger] p[a] < #[trigger] p[b]
}

/// Sorts records by last update, newest first; records updated at the same
/// time keep their order (a stable sort).
pub fn sort_newest_first<T: Timestamped>(v: Vec<T>) -> (r: Vec<T>)
    ensures
        stamps_descending(r@),
        exists|p: Seq<int>| stable_rearrangement(r@, v@, p),
{
    let ghost v0 = v@;
    let mut src = v;
    let n = src.len();
    let mut out: Vec<T> = Vec::new();
    let ghost mut perm: Seq<int> = Seq::empty();
    let mut i: usize = 0;
    while i < n
        invariant
            n == v0.len(),
            i <= n,
            src@ == v0.skip(i as int),
            out@.len() == i,
            perm.len() == i,
            forall|k: int| 0 <= k < i ==> 0 <= #[trigger] perm[k] < i,
            forall|a: int, b: int| 0 <= a < b < i ==> perm[a] != perm[b],
            forall|k: int| 0 <= k < i ==> out@[k] == v0[#[trigger] perm[k]],
            stamps_descending(out@),
            forall|a: int, b: int|
                0 <= a < b < i && out@[a].stamp() == out@[b].stamp() ==> #[trigger] perm[a]
                    < #[trigger] perm[b],
        decreases n - i,
    {
        assert(src@[0] == v0[i as int]);
        let x = src.remove(0);
        assert(src@ =~= v0.skip(i + 1));
        let s = x.updated_at();
        let mut j: usize = 0;
        while j < out.len() && out[j].updated_at() >= s
            invariant
                j <= out@.len(),
                forall|k: int| 0 <= k < j ==> #[trigger] out@[k].stamp() >= s,
            decreases out@.len() - j,
        {
            j = j + 1;
        }
        let ghost old_out = out@;
        let ghost old_perm = perm;
        out.insert(j, x);
        proof {
            perm = perm.insert(j as int, i as int);
            old_out.insert_ensures(j as int, x);
            old_perm.insert_ensures(j as int, i as int);
            assert forall|k: int| j <= k < old_out.len() implies #[trigger] old_out[k].stamp() < s by {
                assert(old_out[j as int].stamp() < s);
            }
            assert forall|k: int| 0 <= k < i + 1 implies 0 <= #[trigger] perm[k] < i + 1 by {
                if k < j {
                    assert(perm[k] == old_perm[k]);
                } else if k > j {
                    assert(perm[k] == old_perm[k - 1]);
                }
            }
            assert forall|a: int, b: int| 0 <= a < b < i + 1 implies perm[a] != perm[b] by {
                if a < j {
                    assert(perm[a] == old_perm[a]);
                } else if a > j {
                    assert(perm[a] == old_perm[a - 1]);
                }
                if b < j {
                    assert(perm[b] == old_perm[b]);
                } else if b > j {
                    assert(perm[b] == old_perm[b - 1]);
                }
            }
            assert forall|k: int| 0 <= k < i + 1 implies out@[k] == v0[#[trigger] perm[k]] by {
                if k < j {
                    assert(out@[k] == old_out[k]);
                    assert(perm[k] == old_perm[k]);
                } else if k > j {
                    assert(out@[k] == old_out[k - 1]);
                    assert(perm[k] == old_perm[k - 1]);
                }
            }
            assert forall|a: int, b: int| 0 <= a < b < out@.len() implies out@[a].stamp()
                >= out@[b].stamp() by {
                if a < j {
                    assert(out@[a] == old_out[a]);
                }
                if a > j {
                    assert(out@[a] == old_out[a - 1]);
                }
                if b < j {
                    assert(out@[b] == old_out[b]);
                }
                if b > j {
                    assert(out@[b] == old_out[b - 1]);
                }
            }
            assert forall|a: int, b: int|
                0 <= a < b < i + 1 && out@[a].stamp() == out@[b].stamp() implies #[trigger] perm[a]
                < #[trigger] perm[b] by {
                if a < j {
                    assert(out@[a] == old_out[a]);
                    assert(perm[a] == old_perm[a]);
                }
                if a > j {
                    assert(out@[a] == old_out[a - 1]);
                    assert(perm[a] == old_perm[a - 1]);
                }
                if b < j {
                    assert(out@[b] == old_out[b]);
                    assert(perm[b] == old_perm[b]);
                }
                if b > j {
                    assert(out@[b] == old_out[b - 1]);
                    assert(perm[b] == old_perm[b - 1]);
                }
            }
        }
        i = i + 1;
    }
    assert(stable_rearrangement(out@, v0, perm));
    out
}

// ---------------------------------------------------------------------------
// Record files
// ---------------------------------------------------------------------------

/// `base` joined with a relative `name`: a `/` is put between them unless
/// `base` is empty or already ends with one; an absolute `name` stands alone.
pub open spec fn path_join(base: Seq<char>, name: Seq<char>) -> Seq<char> {
    if name.len() > 0 && name[0] == '/' {
        name
    } else if base.len() == 0 || base.last() == '/' {
        base + name
    } else {
        base + seq!['/'] + name
    }
}

/// Joins a directory and a name as a path.
pub fn join_path(base: &str, name: &str) -> (r: String)
    ensures
        r@ == path_join(base@, name@),
{
    let n = base.unicode_len();
    if name.unicode_len() > 0 && name.get_char(0) == '/' {
        owned(name)
    } else if n == 0 || base.get_char(n - 1) == '/' {
        concat2(base, name)
    } else {
        let mut r = concat2(base, "/");
        push_str(&mut r, name);
        proof {
            reveal_strlit("/");
        }
        r
    }
}

/// The file name of the record `id`.
pub open spec fn record_file_name(id: Seq<char>) -> Seq<char> {
    id + ".json"@
}

/// Whether a directory entry named `name` holds a record: its extension is
/// `json` (a name that is only `.json` has no extension).
pub open spec fn is_record_file(name: Seq<char>) -> bool {
    ".json"@.is_suffix_of(name) && name.len() > 5
}

/// Whether a directory entry named `name` holds a record.
pub fn has_json_extension(name: &str) -> (r: bool)
    ensures
        r == is_record_file(name@),
{
    proof {
        reveal_strlit(".json");
    }
    crate::text::ends_with(name, ".json") && name.unicode_len() > 5
}

/// What every store of sessions offers.
pub trait SessionStore: Send + Sync {
    fn save(&self, session: &Session) -> Result<(), AppError>;

    fn load(&self, session_id: &str) -> Result<Option<Session>, AppError>;

    fn load_all(&self) -> Result<Vec<Session>, AppError>;

    fn delete(&self, session_id: &str) -> Result<(), AppError>;
}

/// Sessions kept as JSON files in a directory.
pub struct LocalSessionStore {
    base_dir: String,
}

impl LocalSessionStore {
    /// A store over the directory `base_dir`, which the caller has created.
    pub fn new(base_dir: String) -> (r: LocalSessionStore)
        ensures
            r.dir() == base_dir@,
    {
        LocalSessionStore { base_dir }
    }

    /// The directory of the store.
    pub closed spec fn dir(&self) -> Seq<char> {
        self.base_dir@
    }

    /// The directory of the store.
    pub fn base_dir(&self) -> (r: &str)
        ensures
            r@ == self.dir(),
    {
        self.base_dir.as_str()
    }

    /// The file of the session `session_id`.
    pub fn session_path(&self, session_id: &str) -> (r: String)
        ensures
            r@ == path_join(self.dir(), record_file_name(session_id@)),
    {
        let name = concat2(session_id, ".json");
        join_path(self.base_dir.as_str(), name.as_str())
    }
}

/// Playbooks kept as JSON files in a directory.
pub struct LocalPlaybookStore {
    base_dir: String,
}

impl LocalPlaybookStore {
    /// A store over the directory `base_dir`, which the caller has created.
    pub fn new(base_dir: String) -> (r: LocalPlaybookStore)
        ensures
            r.dir() == base_dir@,
    {
        LocalPlaybookStore { base_dir }
    }

    /// The directory of the store.
    pub closed spec fn dir(&self) -> Seq<char> {
        self.base_dir@
    }

    /// The directory of the store.
    pub fn base_dir(&self) -> (r: &str)
        ensures
            r@ == self.dir(),
    {
        self.base_dir.as_str()
    }

    /// The file of the playbook `id`.
    pub fn playbook_path(&self, id: &str) -> (r: String)
        ensures
            r@ == path_join(self.dir(), record_file_name(id@)),
    {
        let name = concat2(id, ".json");
        join_path(self.base_dir.as_str(), name.as_str())
    }
}

} // verus!
