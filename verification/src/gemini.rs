//! The Gemini back end: how a conversation becomes the `contents` of a
//! `generateContent` request, and how a reply becomes a model response.
use vstd::prelude::*;
use crate::clock::{is_uuid_v4_text, new_id};
use crate::error::AppError;
use crate::json::{single_member, Json, JsonV};
use crate::model::{ConfigField, ModelResponse, ModelSpec, ToolSpec, ToolCallRequest};
use crate::session::{ContentV, Message, MessageContent, MessageV, Role};
use crate::text::{chars_of, find_char, first_index_of, owned, push_str, string_of_range, strip_prefix, strip_prefix_seq};

verus! {

/// The base URL of the Gemini models API.
pub const GEMINI_API_BASE: &'static str = "https://generativelanguage.googleapis.com/v1beta/models";

/// One part of a Gemini content block.
pub enum GeminiPart {
    Text { text: String },
    FunctionCall { name: String, args: Json },
    FunctionResponse { name: String, response: Json },
    InlineData { mime_type: String, data: String },
}

/// The view of a part.
pub enum PartV {
    Text { text: Seq<char> },
    FunctionCall { name: Seq<char>, args: JsonV },
    FunctionResponse { name: Seq<char>, response: JsonV },
    InlineData { mime_type: Seq<char>, data: Seq<char> },
}

impl View for GeminiPart {
    type V = PartV;

    open spec fn view(&self) -> PartV {
        match self {
            GeminiPart::Text { text } => PartV::Text { text: text@ },
            GeminiPart::FunctionCall { name, args } => PartV::FunctionCall {
                name: name@,
                args: args@,
            },
            GeminiPart::FunctionResponse { name, response } => PartV::FunctionResponse {
                name: name@,
                response: response@,
            },
            GeminiPart::InlineData { mime_type, data } => PartV::InlineData {
                mime_type: mime_type@,
                data: data@,
            },
        }
    }
}

impl DeepView for GeminiPart {
    type V = PartV;

    open spec fn deep_view(&self) -> PartV {
        self@
    }
}

/// A content block: a role (`"user"` or `"model"`) and its parts.
pub struct GeminiContent {
    pub role: String,
    pub parts: Vec<GeminiPart>,
}

/// The view of a content block.
pub struct BlockV {
    pub role: Seq<char>,
    pub parts: Seq<PartV>,
}

impl View for GeminiContent {
    type V = BlockV;

    open spec fn view(&self) -> BlockV {
        BlockV { role: self.role@, parts: self.parts.deep_view() }
    }
}

impl DeepView for GeminiContent {
    type V = BlockV;

    open spec fn deep_view(&self) -> BlockV {
        self@
    }
}

// ---------------------------------------------------------------------------
// From messages to content blocks
// ---------------------------------------------------------------------------

/// The part a user message contributes: its text or its attachment.
pub open spec fn user_parts(c: ContentV) -> Seq<PartV> {
    match c {
        ContentV::Text { text } => seq![PartV::Text { text }],
        ContentV::FileAttachment { mime_type, data_base64, .. } => seq![
            PartV::InlineData { mime_type, data: data_base64 },
        ],
        _ => Seq::empty(),
    }
}

/// The part an assistant message contributes: its text or its tool call.
pub open spec fn assistant_part(c: ContentV) -> Seq<PartV> {
    match c {
        ContentV::Text { text } => seq![PartV::Text { text }],
        ContentV::ToolCall { tool_name, input, .. } => seq![
            PartV::FunctionCall { name: tool_name, args: input },
        ],
        _ => Seq::empty(),
    }
}

/// `{"output": text}`.
pub open spec fn output_object(text: Seq<char>) -> JsonV {
    JsonV::Object(seq![("output"@, JsonV::Str(text))])
}

/// What a screenshot's function response says in place of the image.
pub open spec fn screenshot_note() -> Seq<char> {
    "Screenshot captured — see attached image"@
}

/// The parts a tool message contributes. An output of the form
/// `SCREENSHOT:<mime>:<data>` becomes a function response and the image
/// itself; any other output becomes a function response holding it.
pub open spec fn tool_part(c: ContentV) -> Seq<PartV> {
    match c {
        ContentV::ToolResult { tool_name, output, .. } => match strip_prefix_seq(
            output,
            "SCREENSHOT:"@,
        ) {
            Some(rest) => match first_index_of(rest, ':') {
                Some(k) => seq![
                    PartV::FunctionResponse { name: tool_name, response: output_object(screenshot_note()) },
                    PartV::InlineData { mime_type: rest.take(k), data: rest.skip(k + 1) },
                ],
                None => seq![
                    PartV::FunctionResponse { name: tool_name, response: output_object(output) },
                ],
            },
            None => seq![PartV::FunctionResponse { name: tool_name, response: output_object(output) }],
        },
        _ => Seq::empty(),
    }
}

/// The parts of a run of assistant messages, in order.
pub open spec fn assistant_parts(run: Seq<MessageV>) -> Seq<PartV>
    decreases run.len(),
{
    if run.len() == 0 {
        Seq::empty()
    } else {
        assistant_parts(run.drop_last()) + assistant_part(run.last().content)
    }
}

/// The parts of a run of tool messages, in order.
pub open spec fn tool_parts(run: Seq<MessageV>) -> Seq<PartV>
    decreases run.len(),
{
    if run.len() == 0 {
        Seq::empty()
    } else {
        tool_parts(run.drop_last()) + tool_part(run.last().content)
    }
}

/// How many messages at the front of `s` have role `r`.
pub open spec fn run_len(s: Seq<MessageV>, r: Role) -> nat
    decreases s.len(),
{
    if s.len() > 0 && s[0].role == r {
        1 + run_len(s.drop_first(), r)
    } else {
        0
    }
}

pub proof fn lemma_run_len_bound(s: Seq<MessageV>, r: Role)
    ensures
        run_len(s, r) <= s.len(),
        s.len() > 0 && s[0].role == r ==> run_len(s, r) >= 1,
    decreases s.len(),
{
    if s.len() > 0 && s[0].role == r {
        lemma_run_len_bound(s.drop_first(), r);
    }
}

/// A block with the given role and parts, or nothing when there are no parts.
pub open spec fn block_if_any(role: Seq<char>, parts: Seq<PartV>) -> Seq<BlockV> {
    if parts.len() > 0 {
        seq![BlockV { role, parts }]
    } else {
        Seq::empty()
    }
}

/// The Gemini `contents` for a conversation. Each user message is a `"user"`
/// block of its own; each run of consecutive assistant messages is one
/// `"model"` block; each run of consecutive tool messages is one `"user"`
/// block. Blocks without parts are left out.
#[verifier::opaque]
pub open spec fn gemini_contents(msgs: Seq<MessageV>) -> Seq<BlockV>
    decreases msgs.len(),
{
    if msgs.len() == 0 {
        Seq::empty()
    } else {
        match msgs[0].role {
            Role::User => block_if_any("user"@, user_parts(msgs[0].content)) + gemini_contents(
                msgs.drop_first(),
            ),
            Role::Assistant => {
                proof {
                    lemma_run_len_bound(msgs, Role::Assistant);
                }
                let k = run_len(msgs, Role::Assistant) as int;
                block_if_any("model"@, assistant_parts(msgs.take(k))) + gemini_contents(
                    msgs.skip(k),
                )
            },
            Role::Tool => {
                proof {
                    lemma_run_len_bound(msgs, Role::Tool);
                }
                let k = run_len(msgs, Role::Tool) as int;
                block_if_any("user"@, tool_parts(msgs.take(k))) + gemini_contents(msgs.skip(k))
            },
        }
    }
}

pub open spec fn messages_view(s: Seq<Message>) -> Seq<MessageV> {
    s.map_values(|m: Message| m@)
}

proof fn lemma_run_len_exact(s: Seq<MessageV>, r: Role, m: int)
    requires
        0 <= m <= s.len(),
        forall|k: int| 0 <= k < m ==> #[trigger] s[k].role == r,
        m == s.len() || s[m].role != r,
    ensures
        run_len(s, r) == m,
    decreases m,
{
    if m > 0 {
        assert forall|k: int| 0 <= k < m - 1 implies #[trigger] s.drop_first()[k].role == r by {
            assert(s.drop_first()[k] == s[k + 1]);
        }
        lemma_run_len_exact(s.drop_first(), r, m - 1);
    }
}

/// `{"output": text}` as a value.
fn output_json(text: &str) -> (r: Json)
    ensures
        r@ == output_object(text@),
{
    single_member("output", Json::Str(owned(text)))
}

/// The parts of one tool message.
fn tool_message_parts(content: &MessageContent) -> (r: Vec<GeminiPart>)
    ensures
        r.deep_view() == tool_part(content@),
{
    match content {
        MessageContent::ToolResult { tool_name, output, .. } => {
            let mut parts: Vec<GeminiPart> = Vec::new();
            match strip_prefix(output.as_str(), "SCREENSHOT:") {
                Some(rest) => {
                    let cs = chars_of(rest.as_str());
                    let len = cs.len();
                    match find_char(cs.as_slice(), ':') {
                        Some(colon) => {
                            assert(colon < cs@.len());
                            let mime_type = string_of_range(cs.as_slice(), 0, colon);
                            let data = string_of_range(cs.as_slice(), colon + 1, len);
                            parts.push(
                                GeminiPart::FunctionResponse {
                                    name: tool_name.clone(),
                                    response: output_json(
                                        "Screenshot captured — see attached image",
                                    ),
                                },
                            );
                            parts.push(GeminiPart::InlineData { mime_type, data });
                        },
                        None => {
                            parts.push(
                                GeminiPart::FunctionResponse {
                                    name: tool_name.clone(),
                                    response: output_json(output.as_str()),
                                },
                            );
                        },
                    }
                },
                None => {
                    parts.push(
                        GeminiPart::FunctionResponse {
                            name: tool_name.clone(),
                            response: output_json(output.as_str()),
                        },
                    );
                },
            }
            assert(parts.deep_view() =~= tool_part(content@));
            parts
        },
        _ => {
            let parts: Vec<GeminiPart> = Vec::new();
            assert(parts.deep_view() =~= tool_part(content@));
            parts
        },
    }
}

/// The part of one assistant message.
fn assistant_message_parts(content: &MessageContent) -> (r: Vec<GeminiPart>)
    ensures
        r.deep_view() == assistant_part(content@),
{
    let mut parts: Vec<GeminiPart> = Vec::new();
    match content {
        MessageContent::Text { text } => {
            parts.push(GeminiPart::Text { text: text.clone() });
        },
        MessageContent::ToolCall { tool_name, input, .. } => {
            parts.push(GeminiPart::FunctionCall { name: tool_name.clone(), args: input.deep_clone() });
        },
        _ => {},
    }
    assert(parts.deep_view() =~= assistant_part(content@));
    parts
}

/// The part of one user message.
fn user_message_parts(content: &MessageContent) -> (r: Vec<GeminiPart>)
    ensures
        r.deep_view() == user_parts(content@),
{
    let mut parts: Vec<GeminiPart> = Vec::new();
    match content {
        MessageContent::Text { text } => {
            parts.push(GeminiPart::Text { text: text.clone() });
        },
        MessageContent::FileAttachment { mime_type, data_base64, .. } => {
            parts.push(
                GeminiPart::InlineData { mime_type: mime_type.clone(), data: data_base64.clone() },
            );
        },
        _ => {},
    }
    assert(parts.deep_view() =~= user_parts(content@));
    parts
}

/// Appends `more` to `parts`.
fn append_parts(parts: &mut Vec<GeminiPart>, more: Vec<GeminiPart>)
    ensures
        final(parts).deep_view() == old(parts).deep_view() + more.deep_view(),
{
    let mut more = more;
    let ghost start = parts.deep_view();
    let ghost mv = more.deep_view();
    let mut rest: Vec<GeminiPart> = Vec::new();
    // Reverse `more` so that parts can be moved out from the back in order.
    while more.len() > 0
        invariant
            more.deep_view() + rest.deep_view().reverse() == mv,
        decreases more.len(),
    {
        let p = more.pop().unwrap();
        let ghost before = rest.deep_view();
        rest.push(p);
        assert(rest.deep_view() =~= before.push(p@));
        assert(more.deep_view() + rest.deep_view().reverse() =~= mv);
    }
    while rest.len() > 0
        invariant
            parts.deep_view() + rest.deep_view().reverse() == start + mv,
        decreases rest.len(),
    {
        let p = rest.pop().unwrap();
        let ghost before = parts.deep_view();
        parts.push(p);
        assert(parts.deep_view() =~= before.push(p@));
        assert(parts.deep_view() + rest.deep_view().reverse() =~= start + mv);
    }
    assert(parts.deep_view() =~= start + mv);
}

/// The end of the run of assistant messages that starts at `i`, and the
/// parts of that run.
fn assistant_run(messages: &[Message], i: usize) -> (r: (Vec<GeminiPart>, usize))
    requires
        i < messages@.len(),
        messages@[i as int].role == Role::Assistant,
    ensures
        ({
            let mv = messages_view(messages@);
            let j = r.1 as int;
            &&& i < j <= mv.len()
            &&& j - i == run_len(mv.skip(i as int), Role::Assistant)
            &&& r.0.deep_view() == assistant_parts(mv.subrange(i as int, j))
        }),
{
    let ghost mv = messages_view(messages@);
    let n = messages.len();
    let mut parts: Vec<GeminiPart> = Vec::new();
    let mut j: usize = i;
    assert(mv.subrange(i as int, i as int) =~= Seq::<MessageV>::empty());
    while j < n && messages[j].role == Role::Assistant
        invariant
            n == messages@.len(),
            mv == messages_view(messages@),
            i <= j <= n,
            j > i || messages@[i as int].role == Role::Assistant,
            forall|k: int| i <= k < j ==> #[trigger] mv[k].role == Role::Assistant,
            parts.deep_view() == assistant_parts(mv.subrange(i as int, j as int)),
        decreases n - j,
    {
        let more = assistant_message_parts(&messages[j].content);
        append_parts(&mut parts, more);
        assert(mv.subrange(i as int, j + 1).drop_last() =~= mv.subrange(i as int, j as int));
        j = j + 1;
    }
    proof {
        let rest = mv.skip(i as int);
        assert forall|k: int| 0 <= k < j - i implies #[trigger] rest[k].role == Role::Assistant by {
            assert(rest[k] == mv[i + k]);
        }
        if j < n {
            assert(rest[j - i] == mv[j as int]);
        }
        lemma_run_len_exact(rest, Role::Assistant, j - i);
    }
    (parts, j)
}

/// The end of the run of tool messages that starts at `i`, and the parts of
/// that run.
fn tool_run(messages: &[Message], i: usize) -> (r: (Vec<GeminiPart>, usize))
    requires
        i < messages@.len(),
        messages@[i as int].role == Role::Tool,
    ensures
        ({
            let mv = messages_view(messages@);
            let j = r.1 as int;
            &&& i < j <= mv.len()
            &&& j - i == run_len(mv.skip(i as int), Role::Tool)
            &&& r.0.deep_view() == tool_parts(mv.subrange(i as int, j))
        }),
{
    let ghost mv = messages_view(messages@);
    let n = messages.len();
    let mut parts: Vec<GeminiPart> = Vec::new();
    let mut j: usize = i;
    assert(mv.subrange(i as int, i as int) =~= Seq::<MessageV>::empty());
    while j < n && messages[j].role == Role::Tool
        invariant
            n == messages@.len(),
            mv == messages_view(messages@),
            i <= j <= n,
            j > i || messages@[i as int].role == Role::Tool,
            forall|k: int| i <= k < j ==> #[trigger] mv[k].role == Role::Tool,
            parts.deep_view() == tool_parts(mv.subrange(i as int, j as int)),
        decreases n - j,
    {
        let more = tool_message_parts(&messages[j].content);
        append_parts(&mut parts, more);
        assert(mv.subrange(i as int, j + 1).drop_last() =~= mv.subrange(i as int, j as int));
        j = j + 1;
    }
    proof {
        let rest = mv.skip(i as int);
        assert forall|k: int| 0 <= k < j - i implies #[trigger] rest[k].role == Role::Tool by {
            assert(rest[k] == mv[i + k]);
        }
        if j < n {
            assert(rest[j - i] == mv[j as int]);
        }
        lemma_run_len_exact(rest, Role::Tool, j - i);
    }
    (parts, j)
}

/// The block that the messages from `i` on begin with (if it has parts),
/// and where the messages after that block begin.
fn next_block(messages: &[Message], i: usize) -> (r: (String, Vec<GeminiPart>, usize))
    requires
        i < messages@.len(),
    ensures
        ({
            let mv = messages_view(messages@);
            &&& i < r.2 <= mv.len()
            &&& gemini_contents(mv.skip(i as int)) == block_if_any(r.0@, r.1.deep_view())
                + gemini_contents(mv.skip(r.2 as int))
        }),
{
    let ghost mv = messages_view(messages@);
    let ghost rest = mv.skip(i as int);
    assert(rest[0] == messages@[i as int]@);
    reveal(gemini_contents);
    match messages[i].role {
        Role::User => {
            let parts = user_message_parts(&messages[i].content);
            assert(rest.drop_first() =~= mv.skip(i + 1));
            (owned("user"), parts, i + 1)
        },
        Role::Assistant => {
            let (parts, j) = assistant_run(messages, i);
            assert(rest.take(j - i) =~= mv.subrange(i as int, j as int));
            assert(rest.skip(j - i) =~= mv.skip(j as int));
            (owned("model"), parts, j)
        },
        Role::Tool => {
            let (parts, j) = tool_run(messages, i);
            assert(rest.take(j - i) =~= mv.subrange(i as int, j as int));
            assert(rest.skip(j - i) =~= mv.skip(j as int));
            (owned("user"), parts, j)
        },
    }
}

/// The `contents` of a Gemini request for `messages`.
pub fn messages_to_gemini_contents(messages: &[Message]) -> (r: Vec<GeminiContent>)
    ensures
        r.deep_view() == gemini_contents(messages_view(messages@)),
{
    let ghost mv = messages_view(messages@);
    let mut contents: Vec<GeminiContent> = Vec::new();
    let n = messages.len();
    let mut i: usize = 0;
    assert(mv.skip(0) =~= mv);
    while i < n
        invariant
            n == messages@.len(),
            mv == messages_view(messages@),
            i <= n,
            gemini_contents(mv) == contents.deep_view() + gemini_contents(mv.skip(i as int)),
        decreases n - i,
    {
        let ghost before = contents.deep_view();
        let (role, parts, next) = next_block(messages, i);
        let ghost block = block_if_any(role@, parts.deep_view());
        if parts.len() > 0 {
            contents.push(GeminiContent { role, parts });
        }
        assert(contents.deep_view() =~= before + block);
        i = next;
    }
    assert(mv.skip(n as int) =~= Seq::<MessageV>::empty());
    reveal(gemini_contents);
    assert(contents.deep_view() =~= gemini_contents(mv));
    contents
}

// ---------------------------------------------------------------------------
// Requests
// ---------------------------------------------------------------------------

/// A function the model may call.
pub struct GeminiFunctionDeclaration {
    pub name: String,
    pub description: String,
    pub parameters: Json,
}

/// The `tools` entry of a request.
pub struct GeminiToolDeclarations {
    pub function_declarations: Vec<GeminiFunctionDeclaration>,
}

/// The `toolConfig` of a request: its function calling mode.
pub struct GeminiToolConfig {
    pub mode: String,
}

/// A `generateContent` request.
pub struct GeminiRequest {
    pub contents: Vec<GeminiContent>,
    pub tools: Vec<GeminiToolDeclarations>,
    pub tool_config: Option<GeminiToolConfig>,
}

/// The request for a conversation and the tools on offer. With no tools the
/// request declares none and sets no tool config; otherwise it declares them
/// all in one entry and sets the mode `"AUTO"`.
pub fn gemini_request(messages: &[Message], tools: &[ToolSpec]) -> (r: GeminiRequest)
    ensures
        r.contents.deep_view() == gemini_contents(messages_view(messages@)),
        tools@.len() == 0 ==> r.tools@.len() == 0 && r.tool_config is None,
        tools@.len() > 0 ==> {
            &&& r.tools@.len() == 1
            &&& r.tools@[0].function_declarations@.len() == tools@.len()
            &&& forall|i: int|
                0 <= i < tools@.len() ==> {
                    let d = #[trigger] r.tools@[0].function_declarations@[i];
                    &&& d.name@ == tools@[i].name@
                    &&& d.description@ == tools@[i].description@
                    &&& d.parameters@ == tools@[i].parameters@
                }
            &&& r.tool_config matches Some(c) && c.mode@ == "AUTO"@
        },
{
    let contents = messages_to_gemini_contents(messages);
    let mut decls: Vec<GeminiFunctionDeclaration> = Vec::new();
    let mut i: usize = 0;
    while i < tools.len()
        invariant
            i <= tools@.len(),
            decls@.len() == i,
            forall|k: int|
                0 <= k < i ==> {
                    let d = #[trigger] decls@[k];
                    &&& d.name@ == tools@[k].name@
                    &&& d.description@ == tools@[k].description@
                    &&& d.parameters@ == tools@[k].parameters@
                },
        decreases tools@.len() - i,
    {
        let t = &tools[i];
        decls.push(
            GeminiFunctionDeclaration {
                name: t.name.clone(),
                description: t.description.clone(),
                parameters: t.parameters.deep_clone(),
            },
        );
        i = i + 1;
    }
    if decls.len() == 0 {
        GeminiRequest { contents, tools: Vec::new(), tool_config: None }
    } else {
        let mut entries: Vec<GeminiToolDeclarations> = Vec::new();
        entries.push(GeminiToolDeclarations { function_declarations: decls });
        GeminiRequest {
            contents,
            tools: entries,
            tool_config: Some(GeminiToolConfig { mode: owned("AUTO") }),
        }
    }
}

/// The endpoint for a model and an API key.
pub fn gemini_url(model_name: &str, api_key: &str) -> (r: String)
    ensures
        r@ == GEMINI_API_BASE@ + "/"@ + model_name@ + ":generateContent?key="@ + api_key@,
{
    let mut r = owned(GEMINI_API_BASE);
    push_str(&mut r, "/");
    push_str(&mut r, model_name);
    push_str(&mut r, ":generateContent?key=");
    push_str(&mut r, api_key);
    r
}

/// The error for a reply whose HTTP status is not a success.
pub fn gemini_status_error(status: &str, body: &str) -> (r: AppError)
    ensures
        r is Api,
        r->Api_0@ == "Gemini API error "@ + status@ + ": "@ + body@,
{
    let mut m = owned("Gemini API error ");
    push_str(&mut m, status);
    push_str(&mut m, ": ");
    push_str(&mut m, body);
    AppError::Api(m)
}

// ---------------------------------------------------------------------------
// Replies
// ---------------------------------------------------------------------------

/// The text of the last text part, if any.
pub open spec fn last_text(parts: Seq<PartV>) -> Option<Seq<char>>
    decreases parts.len(),
{
    if parts.len() == 0 {
        None
    } else {
        match parts.last() {
            PartV::Text { text } => Some(text),
            _ => last_text(parts.drop_last()),
        }
    }
}

/// The function calls among the parts, in order: name and arguments.
pub open spec fn function_calls(parts: Seq<PartV>) -> Seq<(Seq<char>, JsonV)>
    decreases parts.len(),
{
    if parts.len() == 0 {
        Seq::empty()
    } else {
        let rest = function_calls(parts.drop_last());
        match parts.last() {
            PartV::FunctionCall { name, args } => rest.push((name, args)),
            _ => rest,
        }
    }
}

/// The model response for a reply: the first candidate's last text part is
/// the text, its function calls (each with a fresh call id) are the tool
/// calls, and the usage counts are the token counts. A reply without
/// candidates is an error.
pub fn gemini_reply(candidates: &Vec<GeminiContent>, prompt_tokens: u64, candidate_tokens: u64) -> (r:
    Result<ModelResponse, AppError>)
    ensures
        candidates@.len() == 0 ==> r is Err,
        r matches Err(e) ==> candidates@.len() == 0 && e is Api && e->Api_0@
            == "No candidates in Gemini response"@,
        r matches Ok(resp) ==> {
            let parts = candidates@[0].parts.deep_view();
            let calls = function_calls(parts);
            &&& candidates@.len() > 0
            &&& resp.text.deep_view() == last_text(parts)
            &&& resp.input_tokens == prompt_tokens
            &&& resp.output_tokens == candidate_tokens
            &&& resp.tool_calls@.len() == calls.len()
            &&& forall|i: int|
                0 <= i < calls.len() ==> (#[trigger] resp.tool_calls@[i]).tool_name@ == calls[i].0
                    && resp.tool_calls@[i].input@ == calls[i].1 && is_uuid_v4_text(
                    resp.tool_calls@[i].call_id@,
                )
        },
{
    if candidates.len() == 0 {
        return Err(AppError::Api(owned("No candidates in Gemini response")));
    }
    let parts = &candidates[0].parts;
    let ghost pv = parts.deep_view();
    let mut text: Option<String> = None;
    let mut calls: Vec<ToolCallRequest> = Vec::new();
    let mut i: usize = 0;
    while i < parts.len()
        invariant
            i <= parts@.len(),
            pv == parts.deep_view(),
            text.deep_view() == last_text(pv.take(i as int)),
            calls@.len() == function_calls(pv.take(i as int)).len(),
            forall|k: int|
                0 <= k < calls@.len() ==> (#[trigger] calls@[k]).tool_name@ == function_calls(
                    pv.take(i as int),
                )[k].0 && calls@[k].input@ == function_calls(pv.take(i as int))[k].1
                    && is_uuid_v4_text(calls@[k].call_id@),
        decreases parts@.len() - i,
    {
        assert(pv.take(i + 1).drop_last() =~= pv.take(i as int));
        assert(pv.take(i + 1).last() == parts@[i as int]@);
        match &parts[i] {
            GeminiPart::Text { text: t } => {
                text = Some(t.clone());
            },
            GeminiPart::FunctionCall { name, args } => {
                calls.push(
                    ToolCallRequest {
                        call_id: new_id(),
                        tool_name: name.clone(),
                        input: args.deep_clone(),
                    },
                );
            },
            _ => {},
        }
        i = i + 1;
    }
    assert(pv.take(parts@.len() as int) =~= pv);
    Ok(
        ModelResponse {
            text,
            tool_calls: calls,
            input_tokens: prompt_tokens,
            output_tokens: candidate_tokens,
        },
    )
}

// ---------------------------------------------------------------------------
// The model's description
// ---------------------------------------------------------------------------

/// What the registry knows of a Gemini variant: the variant's name is its id
/// and its label, and it needs the Gemini API key.
pub fn gemini_spec(variant: &str) -> (r: ModelSpec)
    ensures
        r.model_id@ == variant@,
        r.display_name@ == variant@,
        r.required_config_keys.deep_view() == seq!["GEMINI_API_KEY"@],
        r.config_fields@.len() == 1,
        r.config_fields@[0]@.key == "GEMINI_API_KEY"@,
        r.config_fields@[0]@.label == "Gemini API Key"@,
        r.config_fields@[0].is_secret,
        r.config_fields@[0]@.placeholder == Seq::<char>::empty(),
{
    let mut keys: Vec<String> = Vec::new();
    keys.push(owned("GEMINI_API_KEY"));
    assert(keys.deep_view() =~= seq!["GEMINI_API_KEY"@]);
    let mut fields: Vec<ConfigField> = Vec::new();
    fields.push(
        ConfigField {
            key: owned("GEMINI_API_KEY"),
            label: owned("Gemini API Key"),
            is_secret: true,
            placeholder: String::new(),
        },
    );
    ModelSpec {
        model_id: owned(variant),
        display_name: owned(variant),
        required_config_keys: keys,
        config_fields: fields,
    }
}

} // verus!
