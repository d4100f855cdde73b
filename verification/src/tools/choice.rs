//! The `present_choices` tool: the question it shows, the choices it offers,
//! and what it answers once the user has chosen, the wait has failed or timed
//! out. Showing the choices and waiting is done by the caller.
use vstd::prelude::*;
use crate::clock::{is_uuid_v4_text, new_id};
use crate::json::{field_array, field_str, strings_in, Json};
use crate::text::{concat2, owned, str_eq};

verus! {

/// What the user interface is sent to show: the call it answers, the
/// question, and the choices.
pub struct ChoicesPayload {
    pub call_id: String,
    pub question: String,
    pub choices: Vec<String>,
}

/// `present_choices`: asks the user to pick one of several answers.
pub struct ChoiceTool;

impl ChoiceTool {
    pub fn name(&self) -> (r: &'static str)
        ensures
            r@ == "present_choices"@,
    {
        "present_choices"
    }

    pub fn description(&self) -> (r: &'static str)
        ensures
            r@ == "Presents a question with multiple choice options to the user and waits for their selection. Use this when you need the user to pick from specific options to proceed. The user can also provide a free-text answer."@,
    {
        "Presents a question with multiple choice options to the user and waits for their selection. Use this when you need the user to pick from specific options to proceed. The user can also provide a free-text answer."
    }
}

/// The question shown: the `question` argument, or a default prompt.
pub open spec fn question_of(input: crate::json::JsonV) -> Seq<char> {
    match field_str(input, "question"@) {
        Some(q) => q,
        None => "Please choose an option"@,
    }
}

/// The choices offered: the strings of the `choices` array, none without it.
pub open spec fn choices_of(input: crate::json::JsonV) -> Seq<Seq<char>> {
    match field_array(input, "choices"@) {
        Some(items) => strings_in(items),
        None => Seq::empty(),
    }
}

/// The payload for the arguments under a fresh call id, or the answer when
/// there is no choice to offer.
pub fn choice_request(input: &Json) -> (r: Result<ChoicesPayload, String>)
    ensures
        match r {
            Ok(p) => {
                &&& choices_of(input@).len() > 0
                &&& p.question@ == question_of(input@)
                &&& p.choices@.map_values(|s: String| s@) == choices_of(input@)
                &&& is_uuid_v4_text(p.call_id@)
            },
            Err(e) => choices_of(input@).len() == 0 && e@ == "Error: no choices provided"@,
        },
{
    let question = match input.str_field("question") {
        Some(q) => q,
        None => owned("Please choose an option"),
    };
    let choices = match input.string_items("choices") {
        Some(v) => v,
        None => {
            let v: Vec<String> = Vec::new();
            assert(v@.map_values(|s: String| s@) =~= Seq::<Seq<char>>::empty());
            v
        },
    };
    if choices.len() == 0 {
        return Err(owned("Error: no choices provided"));
    }
    let call_id = new_id();
    Ok(ChoicesPayload { call_id, question, choices })
}

/// The answer when the choices cannot be shown.
pub fn emit_error(e: &str) -> (r: String)
    ensures
        r@ == "Error emitting choices event: "@ + e@,
{
    concat2("Error emitting choices event: ", e)
}

/// How the wait for the user ended.
pub enum ChoiceWait {
    /// The user answered.
    Answered(String),
    /// The channel closed without an answer.
    Closed,
    /// No answer came within the time allowed.
    TimedOut,
}

/// What the tool answers for the end of the wait.
pub fn choice_answer(wait: ChoiceWait) -> (r: String)
    ensures
        match wait {
            ChoiceWait::Answered(a) => r@ == a@,
            ChoiceWait::Closed => r@ == "Error: choice channel was closed"@,
            ChoiceWait::TimedOut => r@ == "Error: timed out waiting for user selection"@,
        },
{
    match wait {
        ChoiceWait::Answered(a) => a,
        ChoiceWait::Closed => owned("Error: choice channel was closed"),
        ChoiceWait::TimedOut => owned("Error: timed out waiting for user selection"),
    }
}

/// Whether the pending entry of the call must be dropped after the wait: on
/// a timeout only, as an answer or a closed channel has used it up.
pub fn drops_pending(wait: &ChoiceWait) -> (r: bool)
    ensures
        r == (*wait is TimedOut),
{
    match wait {
        ChoiceWait::TimedOut => true,
        _ => false,
    }
}

/// How long the tool waits for the user's answer, in seconds.
pub const CHOICE_TIMEOUT_SECS: u64 = 600;

/// The calls that wait for the user's answer, each with what delivers the
/// answer to it: at most one entry per call id.
pub struct PendingChoices<T> {
    entries: Vec<(String, T)>,
}

impl<T> PendingChoices<T> {
    #[verifier::type_invariant]
    closed spec fn ids_distinct(&self) -> bool {
        forall|a: int, b: int|
            0 <= a < b < self.entries@.len() ==> self.entries@[a].0@ != self.entries@[b].0@
    }

    closed spec fn has(&self, id: Seq<char>) -> bool {
        exists|i: int| 0 <= i < self.entries@.len() && #[trigger] self.entries@[i].0@ == id
    }

    closed spec fn at(&self, id: Seq<char>) -> int {
        choose|i: int| 0 <= i < self.entries@.len() && #[trigger] self.entries@[i].0@ == id
    }

    proof fn lemma_at(&self, i: int)
        requires
            0 <= i < self.entries@.len(),
            self.ids_distinct(),
        ensures
            self.has(self.entries@[i].0@),
            self.at(self.entries@[i].0@) == i,
    {
        let id = self.entries@[i].0@;
        assert(self.entries@[i].0@ == id);
    }
}

impl<T> View for PendingChoices<T> {
    type V = Map<Seq<char>, T>;

    closed spec fn view(&self) -> Map<Seq<char>, T> {
        Map::new(|k: Seq<char>| self.has(k), |k: Seq<char>| self.entries@[self.at(k)].1)
    }
}

impl<T> PendingChoices<T> {
    /// No call waits.
    pub fn new() -> (r: PendingChoices<T>)
        ensures
            r@ == Map::<Seq<char>, T>::empty(),
    {
        let r = PendingChoices { entries: Vec::new() };
        assert(r@ =~= Map::<Seq<char>, T>::empty());
        r
    }

    fn position(&self, id: &str) -> (r: Option<usize>)
        ensures
            match r {
                Some(i) => i < self.entries@.len() && self.entries@[i as int].0@ == id@,
                None => !self.has(id@),
            },
    {
        let mut i: usize = 0;
        while i < self.entries.len()
            invariant
                i <= self.entries@.len(),
                forall|k: int| 0 <= k < i ==> #[trigger] self.entries@[k].0@ != id@,
            decreases self.entries@.len() - i,
        {
            if str_eq(self.entries[i].0.as_str(), id) {
                return Some(i);
            }
            i = i + 1;
        }
        None
    }

    /// Whether the call waits for an answer.
    pub fn is_pending(&self, call_id: &str) -> (r: bool)
        ensures
            r == self@.contains_key(call_id@),
    {
        self.position(call_id).is_some()
    }

    /// The call `call_id` now waits, its answer to be delivered by `waiter`
    /// (replacing what waited under that id).
    pub fn open(&mut self, call_id: String, waiter: T)
        ensures
            final(self)@ == old(self)@.insert(call_id@, waiter),
    {
        proof {
            use_type_invariant(&*self);
        }
        let ghost old_view = self@;
        let ghost old_seq = self.entries@;
        let ghost cid = call_id@;
        let ghost w = waiter;
        let pos = self.position(call_id.as_str());
        let mut entries: Vec<(String, T)> = Vec::new();
        std::mem::swap(&mut entries, &mut self.entries);
        match pos {
            Some(i) => {
                entries.set(i, (call_id, waiter));
            },
            None => {
                entries.push((call_id, waiter));
            },
        }
        let ghost ns = entries@;
        proof {
            assert forall|a: int, b: int| 0 <= a < b < ns.len() implies ns[a].0@ != ns[b].0@ by {
                if pos is None && b == old_seq.len() {
                    assert(old_seq[a].0@ == ns[a].0@);
                }
            }
        }
        self.entries = entries;
        proof {
            assert forall|k: Seq<char>| #[trigger] self@.contains_key(k) == (k == cid
                || old_view.contains_key(k)) by {
                if self.has(k) {
                    let i = choose|i: int| 0 <= i < ns.len() && #[trigger] ns[i].0@ == k;
                    if k != cid {
                        assert(old_seq[i].0@ == k);
                    }
                }
                if k == cid {
                    let i = match pos {
                        Some(i) => i as int,
                        None => old_seq.len() as int,
                    };
                    assert(ns[i].0@ == k);
                } else if old_view.contains_key(k) {
                    let i = choose|i: int| 0 <= i < old_seq.len() && #[trigger] old_seq[i].0@ == k;
                    assert(ns[i].0@ == k);
                }
            }
            assert forall|k: Seq<char>| #[trigger] self@.contains_key(k) implies self@[k] == (if k
                == cid {
                w
            } else {
                old_view[k]
            }) by {
                let i = choose|i: int| 0 <= i < ns.len() && #[trigger] ns[i].0@ == k;
                self.lemma_at(i);
                if k != cid {
                    assert(old_seq[i] == ns[i]);
                    assert(old_seq[i].0@ == k);
                    let j = choose|j: int| 0 <= j < old_seq.len() && #[trigger] old_seq[j].0@ == k;
                    assert(j == i);
                } else {
                    let c = match pos {
                        Some(c) => c as int,
                        None => old_seq.len() as int,
                    };
                    assert(ns[c].0@ == k);
                    assert(i == c);
                }
            }
            assert(self@ =~= old_view.insert(cid, w));
        }
    }

    /// Takes the call `call_id` out of the waiting calls, giving what
    /// delivers its answer, or nothing when it does not wait.
    pub fn take(&mut self, call_id: &str) -> (r: Option<T>)
        ensures
            match r {
                Some(w) => old(self)@.contains_key(call_id@) && w == old(self)@[call_id@],
                None => !old(self)@.contains_key(call_id@),
            },
            final(self)@ == old(self)@.remove(call_id@),
    {
        proof {
            use_type_invariant(&*self);
        }
        let ghost old_view = self@;
        let ghost old_seq = self.entries@;
        match self.position(call_id) {
            Some(i) => {
                proof {
                    self.lemma_at(i as int);
                }
                let mut entries: Vec<(String, T)> = Vec::new();
                std::mem::swap(&mut entries, &mut self.entries);
                let gone = entries.remove(i);
                let ghost ns = entries@;
                assert(forall|k: int| 0 <= k < i ==> ns[k] == old_seq[k]);
                assert(forall|k: int| i <= k < ns.len() ==> ns[k] == old_seq[k + 1]);
                proof {
                    assert forall|a: int, b: int| 0 <= a < b < ns.len() implies ns[a].0@
                        != ns[b].0@ by {
                        let oa = if a < i { a } else { a + 1 };
                        let ob = if b < i { b } else { b + 1 };
                        assert(ns[a] == old_seq[oa]);
                        assert(ns[b] == old_seq[ob]);
                    }
                }
                self.entries = entries;
                proof {
                    assert forall|k: Seq<char>| #[trigger] self@.contains_key(k) == (k != call_id@
                        && old_view.contains_key(k)) by {
                        if self.has(k) {
                            let j = choose|j: int| 0 <= j < ns.len() && #[trigger] ns[j].0@ == k;
                            let oj = if j < i { j } else { j + 1 };
                            assert(old_seq[oj].0@ == k);
                            assert(old_seq[i as int].0@ == call_id@);
                        }
                        if k != call_id@ && old_view.contains_key(k) {
                            let j = choose|j: int| 0 <= j < old_seq.len() && #[trigger] old_seq[j].0@ == k;
                            assert(j != i);
                            let nj = if j < i { j } else { j - 1 };
                            assert(ns[nj].0@ == k);
                        }
                    }
                    assert forall|k: Seq<char>| #[trigger] self@.contains_key(k) implies self@[k]
                        == old_view[k] by {
                        let j = choose|j: int| 0 <= j < ns.len() && #[trigger] ns[j].0@ == k;
                        self.lemma_at(j);
                        let oj = if j < i { j } else { j + 1 };
                        assert(ns[j] == old_seq[oj]);
                        let c = choose|c: int| 0 <= c < old_seq.len() && #[trigger] old_seq[c].0@ == k;
                        assert(old_seq[oj].0@ == k);
                        assert(c == oj);
                    }
                    assert(self@ =~= old_view.remove(call_id@));
                }
                Some(gone.1)
            },
            None => {
                assert(self@ =~= old_view.remove(call_id@));
                None
            },
        }
    }
}

} // verus!
