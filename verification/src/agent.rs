//! The agent: the tools it offers, the knowledge it may add to a request,
//! and the steps of its loop between the model and the tools.
//!
//! A run goes: `Agent::start_run` makes the first message to send; after
//! each successful model call `Agent::on_response` records the message that
//! was sent and the model's answer, and either finishes or asks for tool
//! calls; after the tools have run, `on_tool_results` records their results
//! and gives the next message to send.
use vstd::prelude::*;
use crate::clock::{new_id, now_micros};
use crate::error::AppError;
use crate::model::{ModelResponse, ToolCallRequest, ToolCallV, ToolSpec};
use crate::session::{ContentV, Message, MessageContent, MessageV, Role, Session};
use crate::text::{concat3, owned, push_str, str_eq, trim, trim_seq};

verus! {

/// A source of knowledge that is put in front of a user's message.
pub trait KnowledgeStore: Send + Sync {
    /// Whether the store may answer `query` with `answer`: `Some` with the
    /// knowledge it returns, or `None` when it fails. A store that says no
    /// more may give any answer.
    open spec fn may_answer(&self, query: Seq<char>, answer: Option<Seq<char>>) -> bool {
        true
    }

    /// Knowledge relevant to `query`, as text.
    fn retrieve(&self, query: &str) -> (r: Result<String, AppError>)
        ensures
            self.may_answer(
                query@,
                match r {
                    Ok(k) => Some(k@),
                    Err(_) => None,
                },
            ),
    ;
}

/// The agent: the tools it offers the model and an optional knowledge store.
pub struct Agent {
    pub tools: Vec<ToolSpec>,
    pub knowledge_store: Option<Box<dyn KnowledgeStore>>,
}

/// The text of a user message with knowledge put in front of it.
pub open spec fn with_knowledge(knowledge: Seq<char>, text: Seq<char>) -> Seq<char> {
    "[参考情報]\n"@ + knowledge + "\n\n"@ + text
}

/// The message sent in place of the user's: when knowledge came back and is
/// not empty, the text carries it; otherwise the message is unchanged.
pub open spec fn augmented(m: MessageV, retrieved: Option<Seq<char>>) -> MessageV {
    match (m.content, retrieved) {
        (ContentV::Text { text }, Some(k)) => if k.len() > 0 {
            MessageV {
                content: ContentV::Text { text: with_knowledge(k, text) },
                model_id: None,
                ..m
            }
        } else {
            m
        },
        _ => m,
    }
}

/// A run of the agent that waits for the model's answer to `pending`.
pub struct AgentRun {
    pub pending: Message,
    pub new_messages: Vec<Message>,
}

/// A run of the agent that waits for the results of `calls`.
pub struct ToolRound {
    pub new_messages: Vec<Message>,
    pub calls: Vec<ToolCallRequest>,
}

/// What follows a model's answer: the run is over, with the messages it
/// added, or tools have to run.
pub enum AfterResponse {
    Finished(Vec<Message>),
    RunTools(ToolRound),
}

/// `m` is the assistant message that holds the text `text`.
pub open spec fn is_text_reply(m: MessageV, text: Seq<char>, model_id: Seq<char>) -> bool {
    &&& m.role == Role::Assistant
    &&& m.content == ContentV::Text { text }
    &&& m.model_id == Some(model_id)
}

/// `m` is the assistant message that records the tool call `tc`.
pub open spec fn is_call_message(m: MessageV, tc: ToolCallV, model_id: Seq<char>) -> bool {
    &&& m.role == Role::Assistant
    &&& m.content == ContentV::ToolCall {
        call_id: tc.call_id,
        tool_name: tc.tool_name,
        input: tc.input,
    }
    &&& m.model_id == Some(model_id)
}

/// `m` is the tool message that records `output` for the tool call `tc`.
pub open spec fn is_result_message(m: MessageV, tc: ToolCallV, output: Seq<char>, is_error: bool) -> bool {
    &&& m.role == Role::Tool
    &&& m.content == ContentV::ToolResult {
        call_id: tc.call_id,
        tool_name: tc.tool_name,
        output,
        is_error,
    }
    &&& m.model_id is None
}

/// The messages a model answer adds: the assistant's text when it calls no
/// tool (nothing when it has no text either), or one call message per tool
/// call, in order.
pub open spec fn answer_messages(
    added: Seq<MessageV>,
    text: Option<Seq<char>>,
    calls: Seq<ToolCallV>,
    model_id: Seq<char>,
) -> bool {
    if calls.len() == 0 {
        match text {
            Some(t) => added.len() == 1 && is_text_reply(added[0], t, model_id),
            None => added.len() == 0,
        }
    } else {
        &&& added.len() == calls.len()
        &&& forall|i: int| 0 <= i < calls.len() ==> is_call_message(#[trigger] added[i], calls[i], model_id)
    }
}

/// The messages that record tool results: one per call, in order.
pub open spec fn result_messages(results: Seq<MessageV>, calls: Seq<ToolCallV>, outcomes: Seq<(Seq<char>, bool)>) -> bool {
    &&& results.len() == calls.len()
    &&& results.len() == outcomes.len()
    &&& forall|i: int| 0 <= i < calls.len() ==> is_result_message(#[trigger] results[i], calls[i], outcomes[i].0, outcomes[i].1)
}

pub open spec fn calls_view(v: Seq<ToolCallRequest>) -> Seq<ToolCallV> {
    v.map_values(|c: ToolCallRequest| c@)
}

pub open spec fn outcomes_view(v: Seq<(String, bool)>) -> Seq<(Seq<char>, bool)> {
    v.map_values(|o: (String, bool)| (o.0@, o.1))
}

/// The output recorded for a call of a tool the agent does not have.
pub open spec fn not_found_text(tool_name: Seq<char>) -> Seq<char> {
    "Tool '"@ + tool_name + "' not found"@
}

/// The prompt that asks the model for a session title.
pub open spec fn title_prompt_text(first_message: Seq<char>) -> Seq<char> {
    "Generate a short, concise title (max 6 words, no quotes, no punctuation at end) for a chat session starting with: "@
        + first_message
}

impl Agent {
    /// An agent offering `tools`, without a knowledge store.
    pub fn new(tools: Vec<ToolSpec>) -> (r: Agent)
        ensures
            r.tools@ == tools@,
            r.knowledge_store is None,
    {
        Agent { tools, knowledge_store: None }
    }

    /// This agent with `store` as its knowledge store.
    pub fn with_knowledge_store(self, store: Box<dyn KnowledgeStore>) -> (r: Agent)
        ensures
            r.tools@ == self.tools@,
            r.knowledge_store == Some(store),
    {
        let knowledge_store = Some(store);
        Agent { tools: self.tools, knowledge_store }
    }

    /// The position of the first tool called `name`.
    pub fn find_tool(&self, name: &str) -> (r: Option<usize>)
        ensures
            match r {
                Some(i) => i < self.tools@.len() && self.tools@[i as int].name@ == name@ && forall|k: int|
                    0 <= k < i ==> self.tools@[k].name@ != name@,
                None => forall|k: int| 0 <= k < self.tools@.len() ==> self.tools@[k].name@ != name@,
            },
    {
        let mut i: usize = 0;
        while i < self.tools.len()
            invariant
                i <= self.tools@.len(),
                forall|k: int| 0 <= k < i ==> self.tools@[k].name@ != name@,
            decreases self.tools@.len() - i,
        {
            if str_eq(self.tools[i].name.as_str(), name) {
                return Some(i);
            }
            i = i + 1;
        }
        None
    }

    /// The message to send first: the user's message, with knowledge from
    /// the store in front of its text when the store returns some.
    pub fn augment(&self, user_message: &Message) -> (r: Message)
        ensures
            self.knowledge_store is None ==> r@ == user_message@,
            !(user_message@.content is Text) ==> r@ == user_message@,
            self.knowledge_store is Some ==> (user_message@.content matches ContentV::Text { text }
                ==> exists|o: Option<Seq<char>>|
                #![trigger augmented(user_message@, o)]
                self.knowledge_store->0.may_answer(text, o) && r@ == augmented(user_message@, o)),
    {
        match &self.knowledge_store {
            Some(store) => match &user_message.content {
                MessageContent::Text { text } => {
                    let retrieved = store.retrieve(text.as_str());
                    let ghost got = match &retrieved {
                        Ok(k) => Some(k@),
                        Err(_) => None,
                    };
                    let r = augment_message(user_message, retrieved);
                    assert(r@ == augmented(user_message@, got));
                    r
                },
                _ => user_message.duplicate(),
            },
            None => user_message.duplicate(),
        }
    }

    /// The start of a run for `user_message`.
    pub fn start_run(&self, user_message: &Message) -> (r: AgentRun)
        ensures
            r.new_messages@.len() == 0,
            self.knowledge_store is None ==> r.pending@ == user_message@,
            !(user_message@.content is Text) ==> r.pending@ == user_message@,
            self.knowledge_store is Some ==> (user_message@.content matches ContentV::Text { text }
                ==> exists|o: Option<Seq<char>>|
                #![trigger augmented(user_message@, o)]
                self.knowledge_store->0.may_answer(text, o) && r.pending@ == augmented(
                    user_message@,
                    o,
                )),
    {
        AgentRun { pending: self.augment(user_message), new_messages: Vec::new() }
    }
}

/// The message to send in place of `user_message`, given what the
/// knowledge store returned for its text.
pub fn augment_message(user_message: &Message, retrieved: Result<String, AppError>) -> (r: Message)
    ensures
        r@ == augmented(
            user_message@,
            match retrieved {
                Ok(k) => Some(k@),
                Err(_) => None,
            },
        ),
{
    match (&user_message.content, retrieved) {
        (MessageContent::Text { text }, Ok(knowledge)) => {
            if knowledge.unicode_len() > 0 {
                let mut t = concat3("[参考情報]\n", knowledge.as_str(), "\n\n");
                push_str(&mut t, text.as_str());
                Message {
                    id: user_message.id.clone(),
                    role: user_message.role,
                    content: MessageContent::Text { text: t },
                    created_at: user_message.created_at,
                    model_id: None,
                }
            } else {
                user_message.duplicate()
            }
        },
        _ => user_message.duplicate(),
    }
}

/// Moves the messages of `from` to the end of `to`, in order.
fn move_messages(to: &mut Vec<Message>, from: Vec<Message>)
    ensures
        final(to).deep_view() == old(to).deep_view() + from.deep_view(),
{
    let mut from = from;
    let ghost start = to.deep_view();
    let ghost fv = from.deep_view();
    let mut rev: Vec<Message> = Vec::new();
    while from.len() > 0
        invariant
            from.deep_view() + rev.deep_view().reverse() == fv,
        decreases from.len(),
    {
        let m = from.pop().unwrap();
        let ghost before = rev.deep_view();
        rev.push(m);
        assert(rev.deep_view() =~= before.push(m@));
        assert(from.deep_view() + rev.deep_view().reverse() =~= fv);
    }
    while rev.len() > 0
        invariant
            to.deep_view() + rev.deep_view().reverse() == start + fv,
        decreases rev.len(),
    {
        let m = rev.pop().unwrap();
        let ghost before = to.deep_view();
        to.push(m);
        assert(to.deep_view() =~= before.push(m@));
        assert(to.deep_view() + rev.deep_view().reverse() =~= start + fv);
    }
    assert(to.deep_view() =~= start + fv);
}

impl AgentRun {
    /// Records a successful model call: the message that was sent goes into
    /// the session, the answer's tokens are added to its totals, and the
    /// messages of the answer go into the session and into the run's new
    /// messages. The run finishes when the answer calls no tool.
    pub fn on_response(self, session: &mut Session, response: ModelResponse, model_id: &str) -> (r:
        AfterResponse)
        requires
            old(session).total_input_tokens + response.input_tokens <= u64::MAX,
            old(session).total_output_tokens + response.output_tokens <= u64::MAX,
        ensures
            final(session).id@ == old(session).id@,
            final(session).title@ == old(session).title@,
            final(session).model_name@ == old(session).model_name@,
            final(session).created_at == old(session).created_at,
            final(session).total_input_tokens == old(session).total_input_tokens
                + response.input_tokens,
            final(session).total_output_tokens == old(session).total_output_tokens
                + response.output_tokens,
            exists|added: Seq<MessageV>|
                {
                    &&& answer_messages(
                        added,
                        response.text.deep_view(),
                        calls_view(response.tool_calls@),
                        model_id@,
                    )
                    &&& final(session).messages.deep_view() == old(
                        session,
                    ).messages.deep_view().push(self.pending@) + added
                    &&& match r {
                        AfterResponse::Finished(new) => response.tool_calls@.len() == 0
                            && new.deep_view() == self.new_messages.deep_view() + added,
                        AfterResponse::RunTools(round) => response.tool_calls@.len() > 0
                            && round.new_messages.deep_view() == self.new_messages.deep_view()
                            + added && calls_view(round.calls@) == calls_view(
                            response.tool_calls@,
                        ),
                    }
                },
    {
        let AgentRun { pending, new_messages } = self;
        let ghost pv = pending@;
        let ghost old_msgs = session.messages.deep_view();
        let ghost old_new = new_messages.deep_view();
        session.messages.push(pending);
        session.updated_at = now_micros();
        session.total_input_tokens = session.total_input_tokens + response.input_tokens;
        session.total_output_tokens = session.total_output_tokens + response.output_tokens;
        let ghost after_push = session.messages.deep_view();
        assert(after_push =~= old_msgs.push(pv));
        let mut new_messages = new_messages;
        let ModelResponse { text, tool_calls, .. } = response;
        if tool_calls.len() == 0 {
            let mut added: Vec<Message> = Vec::new();
            match text {
                Some(t) => {
                    let msg = Message {
                        id: new_id(),
                        role: Role::Assistant,
                        content: MessageContent::Text { text: t },
                        created_at: now_micros(),
                        model_id: Some(owned(model_id)),
                    };
                    session.messages.push(msg.duplicate());
                    added.push(msg);
                },
                None => {},
            }
            let ghost av = added.deep_view();
            assert(session.messages.deep_view() =~= after_push + av);
            move_messages(&mut new_messages, added);
            session.updated_at = now_micros();
            return AfterResponse::Finished(new_messages);
        }
        let mut added: Vec<Message> = Vec::new();
        let mut i: usize = 0;
        while i < tool_calls.len()
            invariant
                i <= tool_calls@.len(),
                added@.len() == i,
                session.messages.deep_view() == after_push + added.deep_view(),
                session.id == old(session).id,
                session.title == old(session).title,
                session.model_name == old(session).model_name,
                session.created_at == old(session).created_at,
                session.total_input_tokens == old(session).total_input_tokens
                    + response.input_tokens,
                session.total_output_tokens == old(session).total_output_tokens
                    + response.output_tokens,
                forall|k: int|
                    0 <= k < i ==> is_call_message(
                        (#[trigger] added@[k])@,
                        tool_calls@[k]@,
                        model_id@,
                    ),
            decreases tool_calls@.len() - i,
        {
            let tc = &tool_calls[i];
            let msg = Message {
                id: new_id(),
                role: Role::Assistant,
                content: MessageContent::ToolCall {
                    call_id: tc.call_id.clone(),
                    tool_name: tc.tool_name.clone(),
                    input: tc.input.deep_clone(),
                },
                created_at: now_micros(),
                model_id: Some(owned(model_id)),
            };
            let ghost before_s = session.messages.deep_view();
            let ghost before_a = added.deep_view();
            session.messages.push(msg.duplicate());
            added.push(msg);
            assert(session.messages.deep_view() =~= before_s.push(msg@));
            assert(added.deep_view() =~= before_a.push(msg@));
            i = i + 1;
        }
        let ghost av = added.deep_view();
        assert(answer_messages(av, text.deep_view(), calls_view(tool_calls@), model_id@)) by {
            assert forall|k: int| 0 <= k < tool_calls@.len() implies is_call_message(
                #[trigger] av[k],
                calls_view(tool_calls@)[k],
                model_id@,
            ) by {
                assert(av[k] == added@[k]@);
            }
        }
        move_messages(&mut new_messages, added);
        let ghost cv = calls_view(tool_calls@);
        AfterResponse::RunTools(ToolRound { new_messages, calls: tool_calls })
    }
}

/// The output and error flag recorded for a tool call: the tool's output
/// when the tool was found and ran, otherwise a "not found" error.
pub fn tool_outcome(tool_name: &str, output: Option<String>) -> (r: (String, bool))
    ensures
        match output {
            Some(o) => r.0@ == o@ && !r.1,
            None => r.0@ == not_found_text(tool_name@) && r.1,
        },
{
    match output {
        Some(o) => (o, false),
        None => (concat3("Tool '", tool_name, "' not found"), true),
    }
}

impl ToolRound {
    /// Records the results of the round's tool calls, one outcome per call
    /// in order: every result but the last goes into the session; all of
    /// them go into the run's new messages; the last is the next message to
    /// send.
    pub fn on_tool_results(self, session: &mut Session, outcomes: Vec<(String, bool)>) -> (r: AgentRun)
        requires
            outcomes@.len() == self.calls@.len(),
            outcomes@.len() > 0,
        ensures
            final(session).id@ == old(session).id@,
            final(session).title@ == old(session).title@,
            final(session).model_name@ == old(session).model_name@,
            final(session).created_at == old(session).created_at,
            final(session).updated_at == old(session).updated_at,
            final(session).total_input_tokens == old(session).total_input_tokens,
            final(session).total_output_tokens == old(session).total_output_tokens,
            exists|results: Seq<MessageV>|
                {
                    &&& result_messages(results, calls_view(self.calls@), outcomes_view(outcomes@))
                    &&& final(session).messages.deep_view() == old(session).messages.deep_view()
                        + results.drop_last()
                    &&& r.new_messages.deep_view() == self.new_messages.deep_view() + results
                    &&& r.pending@ == results.last()
                },
    {
        let ToolRound { new_messages, calls } = self;
        let ghost cv = calls_view(calls@);
        let ghost ov = outcomes_view(outcomes@);
        let mut results: Vec<Message> = Vec::new();
        let mut outcomes = outcomes;
        let mut rev: Vec<(String, bool)> = Vec::new();
        while outcomes.len() > 0
            invariant
                outcomes_view(outcomes@) + outcomes_view(rev@).reverse() == ov,
            decreases outcomes.len(),
        {
            let o = outcomes.pop().unwrap();
            let ghost before = rev@;
            rev.push(o);
            assert(outcomes_view(rev@) =~= outcomes_view(before).push((o.0@, o.1)));
            assert(outcomes_view(outcomes@) + outcomes_view(rev@).reverse() =~= ov);
        }
        assert(outcomes_view(rev@).reverse() =~= ov);
        let n = calls.len();
        let mut i: usize = 0;
        while i < n
            invariant
                n == calls@.len(),
                n == ov.len(),
                cv == calls_view(calls@),
                i <= n,
                rev@.len() == n - i,
                forall|k: int| 0 <= k < n - i ==> (#[trigger] rev@[k]).0@ == ov[n - 1 - k].0 && rev@[k].1 == ov[n - 1 - k].1,
                results@.len() == i,
                forall|k: int| 0 <= k < i ==> is_result_message((#[trigger] results@[k])@, cv[k], ov[k].0, ov[k].1),
            decreases n - i,
        {
            let (output, is_error) = rev.pop().unwrap();
            let tc = &calls[i];
            results.push(
                Message {
                    id: new_id(),
                    role: Role::Tool,
                    content: MessageContent::ToolResult {
                        call_id: tc.call_id.clone(),
                        tool_name: tc.tool_name.clone(),
                        output,
                        is_error,
                    },
                    created_at: now_micros(),
                    model_id: None,
                },
            );
            i = i + 1;
        }
        let ghost all = results.deep_view();
        assert(result_messages(all, cv, ov)) by {
            assert forall|k: int| 0 <= k < n implies is_result_message(#[trigger] all[k], cv[k], ov[k].0, ov[k].1) by {
                assert(all[k] == results@[k]@);
            }
        }
        let last = results.pop().unwrap();
        assert(results.deep_view() =~= all.drop_last());
        assert(last@ == all.last());
        let mut new_messages = new_messages;
        let ghost start_new = new_messages.deep_view();
        let mut j: usize = 0;
        while j < results.len()
            invariant
                j <= results@.len(),
                session.messages.deep_view() == old(session).messages.deep_view() + results.deep_view().take(j as int),
                session.id == old(session).id,
                session.title == old(session).title,
                session.model_name == old(session).model_name,
                session.created_at == old(session).created_at,
                session.updated_at == old(session).updated_at,
                session.total_input_tokens == old(session).total_input_tokens,
                session.total_output_tokens == old(session).total_output_tokens,
            decreases results@.len() - j,
        {
            let ghost before = session.messages.deep_view();
            session.messages.push(results[j].duplicate());
            assert(session.messages.deep_view() =~= before.push(results@[j as int]@));
            assert(results.deep_view().take(j + 1) =~= results.deep_view().take(j as int).push(results@[j as int]@));
            j = j + 1;
        }
        assert(results.deep_view().take(results@.len() as int) =~= results.deep_view());
        let pending = last.duplicate();
        assert(results.deep_view() == all.drop_last());
        move_messages(&mut new_messages, results);
        assert(new_messages.deep_view() == start_new + all.drop_last());
        let ghost lv = last@;
        let ghost mid = new_messages.deep_view();
        new_messages.push(last);
        assert(new_messages.deep_view() =~= mid.push(lv));
        assert(all =~= all.drop_last().push(lv));
        assert(new_messages.deep_view() =~= start_new + all);
        let r = AgentRun { pending, new_messages };
        assert({
            &&& result_messages(all, cv, ov)
            &&& session.messages.deep_view() == old(session).messages.deep_view() + all.drop_last()
            &&& r.new_messages.deep_view() == start_new + all
            &&& r.pending@ == all.last()
        });
        r
    }
}

/// Stamps the end of a run on the session (its `updated_at` becomes the
/// current time; nothing else in it changes) and returns the run's messages.
pub fn finish_run(session: &mut Session, new_messages: Vec<Message>) -> (r: Vec<Message>)
    ensures
        r.deep_view() == new_messages.deep_view(),
        final(session).messages.deep_view() == old(session).messages.deep_view(),
        final(session).id@ == old(session).id@,
        final(session).title@ == old(session).title@,
        final(session).model_name@ == old(session).model_name@,
        final(session).created_at == old(session).created_at,
        final(session).total_input_tokens == old(session).total_input_tokens,
        final(session).total_output_tokens == old(session).total_output_tokens,
{
    session.updated_at = now_micros();
    new_messages
}

/// The prompt that asks a model for the title of a session that starts
/// with `first_message`.
pub fn title_prompt(first_message: &str) -> (r: String)
    ensures
        r@ == title_prompt_text(first_message@),
{
    let mut r = owned(
        "Generate a short, concise title (max 6 words, no quotes, no punctuation at end) for a chat session starting with: ",
    );
    push_str(&mut r, first_message);
    r
}

/// The user message that carries the title prompt.
pub fn title_request(first_message: &str) -> (r: Message)
    ensures
        r.role == Role::User,
        r@.content == (ContentV::Text { text: title_prompt_text(first_message@) }),
        r.model_id is None,
{
    Message {
        id: new_id(),
        role: Role::User,
        content: MessageContent::Text { text: title_prompt(first_message) },
        created_at: now_micros(),
        model_id: None,
    }
}

/// The session title from the model's answer: its text trimmed, or
/// `"New Chat"` when the answer has no text or the call failed.
pub fn title_from_reply(reply: &Result<ModelResponse, AppError>) -> (r: String)
    ensures
        match reply {
            Ok(resp) => match resp.text {
                Some(t) => r@ == trim_seq(t@),
                None => r@ == trim_seq("New Chat"@),
            },
            Err(_) => r@ == "New Chat"@,
        },
{
    match reply {
        Ok(resp) => match &resp.text {
            Some(t) => trim(t.as_str()),
            None => trim("New Chat"),
        },
        Err(_) => owned("New Chat"),
    }
}

} // verus!
