//! Playbooks: saved task descriptions that are turned into one prompt and
//! run in a new session.
use vstd::prelude::*;
use crate::error::AppError;
use crate::store::Timestamped;
use crate::text::{concat2, dec_seq, owned, push_str, str_eq, trim, trim_seq, u64_to_text};

verus! {

/// A saved playbook.
pub struct Playbook {
    pub id: String,
    pub title: String,
    pub description: String,
    pub steps: Vec<String>,
    pub notes: String,
    /// The model that runs the playbook.
    pub model_id: Option<String>,
    /// Times in microseconds since the Unix epoch.
    pub created_at: i64,
    pub updated_at: i64,
}

/// The view of a playbook.
pub struct PlaybookV {
    pub id: Seq<char>,
    pub title: Seq<char>,
    pub description: Seq<char>,
    pub steps: Seq<Seq<char>>,
    pub notes: Seq<char>,
    pub model_id: Option<Seq<char>>,
    pub created_at: i64,
    pub updated_at: i64,
}

impl View for Playbook {
    type V = PlaybookV;

    open spec fn view(&self) -> PlaybookV {
        PlaybookV {
            id: self.id@,
            title: self.title@,
            description: self.description@,
            steps: self.steps@.map_values(|s: String| s@),
            notes: self.notes@,
            model_id: self.model_id.deep_view(),
            created_at: self.created_at,
            updated_at: self.updated_at,
        }
    }
}

impl Timestamped for Playbook {
    open spec fn stamp(&self) -> i64 {
        self.updated_at
    }

    fn updated_at(&self) -> (r: i64) {
        self.updated_at
    }
}

/// What every store of playbooks offers.
pub trait PlaybookStore: Send + Sync {
    fn load_all(&self) -> Result<Vec<Playbook>, AppError>;

    fn save(&self, playbook: &Playbook) -> Result<(), AppError>;

    fn delete(&self, id: &str) -> Result<(), AppError>;
}

/// The numbered step lines: `"1. first\n2. second\n"` and so on.
pub open spec fn steps_text(steps: Seq<Seq<char>>) -> Seq<char>
    decreases steps.len(),
{
    if steps.len() == 0 {
        Seq::empty()
    } else {
        steps_text(steps.drop_last()) + dec_seq(steps.len()) + ". "@ + steps.last() + "\n"@
    }
}

/// The prompt a playbook runs: a `#` title line, the description, the
/// user's trimmed message, the numbered steps and the notes, each part left
/// out when empty.
pub open spec fn playbook_prompt_text(p: PlaybookV, user_message: Option<Seq<char>>) -> Seq<char> {
    let a = "# "@ + p.title;
    let b = if p.description.len() > 0 {
        a + "\n"@ + p.description
    } else {
        a
    };
    let c = match user_message {
        Some(m) => if trim_seq(m).len() > 0 {
            b + "\n\n"@ + trim_seq(m)
        } else {
            b
        },
        None => b,
    };
    let d = if p.steps.len() > 0 {
        c + "\n\n## Steps\n\n"@ + steps_text(p.steps)
    } else {
        c
    };
    if p.notes.len() > 0 {
        d + "\n\n## Notes\n\n"@ + p.notes
    } else {
        d
    }
}

/// Builds the prompt of a playbook and an optional user message.
pub fn playbook_prompt(p: &Playbook, user_message: &Option<String>) -> (r: String)
    ensures
        r@ == playbook_prompt_text(p@, user_message.deep_view()),
{
    let mut prompt = concat2("# ", p.title.as_str());
    if p.description.unicode_len() > 0 {
        push_str(&mut prompt, "\n");
        push_str(&mut prompt, p.description.as_str());
    }
    match user_message {
        Some(m) => {
            let msg = trim(m.as_str());
            if msg.unicode_len() > 0 {
                push_str(&mut prompt, "\n\n");
                push_str(&mut prompt, msg.as_str());
            }
        },
        None => {},
    }
    let ghost before_steps = prompt@;
    if p.steps.len() > 0 {
        push_str(&mut prompt, "\n\n## Steps\n\n");
        let ghost sv = p.steps@.map_values(|s: String| s@);
        let ghost head = prompt@;
        let mut i: usize = 0;
        while i < p.steps.len()
            invariant
                i <= p.steps@.len(),
                sv == p.steps@.map_values(|s: String| s@),
                prompt@ == head + steps_text(sv.take(i as int)),
            decreases p.steps@.len() - i,
        {
            assert(sv.take(i + 1).drop_last() =~= sv.take(i as int));
            push_str(&mut prompt, u64_to_text((i + 1) as u64).as_str());
            push_str(&mut prompt, ". ");
            push_str(&mut prompt, p.steps[i].as_str());
            push_str(&mut prompt, "\n");
            i = i + 1;
        }
        assert(sv.take(p.steps@.len() as int) =~= sv);
    }
    if p.notes.unicode_len() > 0 {
        push_str(&mut prompt, "\n\n## Notes\n\n");
        push_str(&mut prompt, p.notes.as_str());
    }
    prompt
}

/// The position of the first playbook with identifier `id`, or the error
/// naming it.
pub fn find_playbook(playbooks: &Vec<Playbook>, id: &str) -> (r: Result<usize, String>)
    ensures
        match r {
            Ok(i) => i < playbooks@.len() && playbooks@[i as int].id@ == id@ && forall|k: int|
                0 <= k < i ==> #[trigger] playbooks@[k].id@ != id@,
            Err(e) => (forall|k: int| 0 <= k < playbooks@.len() ==> #[trigger] playbooks@[k].id@ != id@)
                && e@ == "Playbook not found: "@ + id@,
        },
{
    let mut i: usize = 0;
    while i < playbooks.len()
        invariant
            i <= playbooks@.len(),
            forall|k: int| 0 <= k < i ==> #[trigger] playbooks@[k].id@ != id@,
        decreases playbooks@.len() - i,
    {
        if str_eq(playbooks[i].id.as_str(), id) {
            return Ok(i);
        }
        i = i + 1;
    }
    Err(concat2("Playbook not found: ", id))
}

/// The model a playbook runs with, or the error when it has none.
pub fn playbook_model(p: &Playbook) -> (r: Result<String, String>)
    ensures
        match r {
            Ok(m) => p.model_id.deep_view() == Some(m@),
            Err(e) => p.model_id is None && e@
                == "Playbook has no model set. Please set a model before running."@,
        },
{
    match &p.model_id {
        Some(m) => Ok(m.clone()),
        None => Err(owned("Playbook has no model set. Please set a model before running.")),
    }
}

} // verus!
