//! The external agent back end: an HTTP service that runs a turn of its own
//! agent and answers with the whole session.
use vstd::prelude::*;
use crate::error::AppError;
use crate::json::{field_str, jget, Json, JsonV};
use crate::model::{ConfigField, ModelResponse, ModelSpec, ToolCallRequest, ToolSpec};
use crate::session::{ContentV, Message, MessageContent, Session};
use crate::settings::Settings;
use crate::text::{chars_of, owned, push_str, str_eq, string_of_range, strip_suffix, strip_suffix_seq};

verus! {

/// The settings key of the service's URL.
pub open spec fn url_key() -> Seq<char> {
    "EXTERNAL_AGENT_URL"@
}

/// The settings key of the service's token.
pub open spec fn token_key() -> Seq<char> {
    "EXTERNAL_AGENT_TOKEN"@
}

/// `s` without its trailing `'/'` characters.
pub open spec fn trim_end_slashes(s: Seq<char>) -> Seq<char>
    decreases s.len(),
{
    if s.len() > 0 && s.last() == '/' {
        trim_end_slashes(s.drop_last())
    } else {
        s
    }
}

/// The service's base URL: the run URL without trailing slashes and without
/// a final `/run`.
pub open spec fn api_base_seq(run_url: Seq<char>) -> Seq<char> {
    let s = trim_end_slashes(run_url);
    match strip_suffix_seq(s, "/run"@) {
        Some(t) => t,
        None => s,
    }
}

/// Strips the `/run` path suffix to derive the API base URL, e.g.
/// `http://localhost:8080/run` gives `http://localhost:8080`.
pub fn api_base(run_url: &str) -> (r: String)
    ensures
        r@ == api_base_seq(run_url@),
{
    let cs = chars_of(run_url);
    let mut end = cs.len();
    assert(cs@.take(end as int) =~= cs@);
    while end > 0 && cs[end - 1] == '/'
        invariant
            end <= cs@.len(),
            trim_end_slashes(cs@) == trim_end_slashes(cs@.take(end as int)),
        decreases end,
    {
        assert(cs@.take(end as int).drop_last() =~= cs@.take(end - 1));
        end = end - 1;
    }
    assert(cs@.take(end as int) =~= cs@.subrange(0, end as int));
    let s = string_of_range(cs.as_slice(), 0, end);
    match strip_suffix(s.as_str(), "/run") {
        Some(t) => t,
        None => s,
    }
}

/// The URL of a session's record on the service.
pub fn session_url(run_url: &str, session_id: &str) -> (r: String)
    ensures
        r@ == api_base_seq(run_url@) + "/session/"@ + session_id@,
{
    let mut r = api_base(run_url);
    push_str(&mut r, "/session/");
    push_str(&mut r, session_id);
    r
}

/// The session id sent to the service: the session's id, or empty.
pub fn session_id_of(session: Option<&Session>) -> (r: String)
    ensures
        match session {
            Some(s) => r@ == s.id@,
            None => r@.len() == 0,
        },
{
    match session {
        Some(s) => s.id.clone(),
        None => String::new(),
    }
}

/// The URL and token of the service, from the settings.
pub fn endpoint(settings: &Settings) -> (r: Result<(String, String), AppError>)
    ensures
        match r {
            Ok((url, token)) => settings@.contains_key(url_key()) && settings@[url_key()]
                == url@ && url@.len() > 0 && settings@.contains_key(token_key())
                && settings@[token_key()] == token@ && token@.len() > 0,
            Err(e) => e is MissingApiKey && if !(settings@.contains_key(url_key())
                && settings@[url_key()].len() > 0) {
                e->MissingApiKey_0@ == "External Agent URL"@
            } else {
                !(settings@.contains_key(token_key()) && settings@[token_key()].len() > 0)
                    && e->MissingApiKey_0@ == "External Agent Token"@
            },
        },
{
    let url = match settings.get("EXTERNAL_AGENT_URL") {
        Some(v) if v.unicode_len() > 0 => v.clone(),
        _ => {
            return Err(AppError::MissingApiKey(owned("External Agent URL")));
        },
    };
    let token = match settings.get("EXTERNAL_AGENT_TOKEN") {
        Some(v) if v.unicode_len() > 0 => v.clone(),
        _ => {
            return Err(AppError::MissingApiKey(owned("External Agent Token")));
        },
    };
    Ok((url, token))
}

// ---------------------------------------------------------------------------
// Requests
// ---------------------------------------------------------------------------

/// A tool as the service is told about it.
pub struct ReqToolSchema {
    pub name: String,
    pub description: String,
    pub json_schema: Json,
}

/// The body of a run request.
pub struct RunRequest {
    pub message_parts: Vec<Json>,
    pub session_id: String,
    pub model: String,
    pub tools: Vec<ReqToolSchema>,
}

/// An object with the given members, in order.
pub open spec fn object(members: Seq<(Seq<char>, JsonV)>) -> JsonV {
    JsonV::Object(members)
}

/// The request part that carries a message.
pub open spec fn message_part(c: ContentV) -> JsonV {
    match c {
        ContentV::Text { text } => object(seq![("text"@, JsonV::Str(text))]),
        ContentV::ToolCall { call_id, tool_name, input } => object(
            seq![
                ("call_id"@, JsonV::Str(call_id)),
                ("tool_name"@, JsonV::Str(tool_name)),
                ("input"@, input),
            ],
        ),
        ContentV::ToolResult { call_id, tool_name, output, is_error } => object(
            seq![
                ("call_id"@, JsonV::Str(call_id)),
                ("tool_name"@, JsonV::Str(tool_name)),
                ("output"@, JsonV::Str(output)),
                ("is_error"@, JsonV::Bool(is_error)),
            ],
        ),
        ContentV::FileAttachment { name, mime_type, data_base64 } => object(
            seq![
                ("name"@, JsonV::Str(name)),
                ("mime_type"@, JsonV::Str(mime_type)),
                ("data"@, JsonV::Str(data_base64)),
            ],
        ),
    }
}

fn members(pairs: Vec<(String, Json)>) -> (r: Json)
    ensures
        r@ == object(pairs@.map_values(|p: (String, Json)| (p.0@, p.1@))),
{
    let r = Json::Object(pairs);
    assert(r@ =~= object(pairs@.map_values(|p: (String, Json)| (p.0@, p.1@)))) by {
        if let JsonV::Object(a) = r@ {
            assert(a =~= pairs@.map_values(|p: (String, Json)| (p.0@, p.1@)));
        }
    }
    r
}

/// The parts of the request for a message: one object describing it.
pub fn build_req_parts(msg: &Message) -> (r: Vec<Json>)
    ensures
        r@.len() == 1,
        r@[0]@ == message_part(msg.content@),
{
    let mut pairs: Vec<(String, Json)> = Vec::new();
    match &msg.content {
        MessageContent::Text { text } => {
            pairs.push((owned("text"), Json::Str(text.clone())));
        },
        MessageContent::ToolCall { call_id, tool_name, input } => {
            pairs.push((owned("call_id"), Json::Str(call_id.clone())));
            pairs.push((owned("tool_name"), Json::Str(tool_name.clone())));
            pairs.push((owned("input"), input.deep_clone()));
        },
        MessageContent::ToolResult { call_id, tool_name, output, is_error } => {
            pairs.push((owned("call_id"), Json::Str(call_id.clone())));
            pairs.push((owned("tool_name"), Json::Str(tool_name.clone())));
            pairs.push((owned("output"), Json::Str(output.clone())));
            pairs.push((owned("is_error"), Json::Bool(*is_error)));
        },
        MessageContent::FileAttachment { name, mime_type, data_base64 } => {
            pairs.push((owned("name"), Json::Str(name.clone())));
            pairs.push((owned("mime_type"), Json::Str(mime_type.clone())));
            pairs.push((owned("data"), Json::Str(data_base64.clone())));
        },
    }
    let ghost pv = pairs@.map_values(|p: (String, Json)| (p.0@, p.1@));
    assert(pv =~= match msg.content@ {
        ContentV::Text { text } => seq![("text"@, JsonV::Str(text))],
        ContentV::ToolCall { call_id, tool_name, input } => seq![
            ("call_id"@, JsonV::Str(call_id)),
            ("tool_name"@, JsonV::Str(tool_name)),
            ("input"@, input),
        ],
        ContentV::ToolResult { call_id, tool_name, output, is_error } => seq![
            ("call_id"@, JsonV::Str(call_id)),
            ("tool_name"@, JsonV::Str(tool_name)),
            ("output"@, JsonV::Str(output)),
            ("is_error"@, JsonV::Bool(is_error)),
        ],
        ContentV::FileAttachment { name, mime_type, data_base64 } => seq![
            ("name"@, JsonV::Str(name)),
            ("mime_type"@, JsonV::Str(mime_type)),
            ("data"@, JsonV::Str(data_base64)),
        ],
    });
    let mut r: Vec<Json> = Vec::new();
    r.push(members(pairs));
    r
}

/// The run request for a message: its parts, the session id, an empty
/// model name, and the tools on offer.
pub fn build_run_request(message: &Message, session_id: String, tools: &[ToolSpec]) -> (r: RunRequest)
    ensures
        r.message_parts@.len() == 1,
        r.message_parts@[0]@ == message_part(message.content@),
        r.session_id@ == session_id@,
        r.model@.len() == 0,
        r.tools@.len() == tools@.len(),
        forall|i: int|
            0 <= i < tools@.len() ==> (#[trigger] r.tools@[i]).name@ == tools@[i].name@
                && r.tools@[i].description@ == tools@[i].description@ && r.tools@[i].json_schema@
                == tools@[i].parameters@,
{
    let mut schemas: Vec<ReqToolSchema> = Vec::new();
    let mut i: usize = 0;
    while i < tools.len()
        invariant
            i <= tools@.len(),
            schemas@.len() == i,
            forall|k: int|
                0 <= k < i ==> (#[trigger] schemas@[k]).name@ == tools@[k].name@
                    && schemas@[k].description@ == tools@[k].description@
                    && schemas@[k].json_schema@ == tools@[k].parameters@,
        decreases tools@.len() - i,
    {
        schemas.push(
            ReqToolSchema {
                name: tools[i].name.clone(),
                description: tools[i].description.clone(),
                json_schema: tools[i].parameters.deep_clone(),
            },
        );
        i = i + 1;
    }
    RunRequest {
        message_parts: build_req_parts(message),
        session_id,
        model: String::new(),
        tools: schemas,
    }
}

/// The error for a reply whose HTTP status is not a success.
pub fn agent_api_status_error(status: &str, body: &str) -> (r: AppError)
    ensures
        r is Api,
        r->Api_0@ == "Agent API error "@ + status@ + ": "@ + body@,
{
    let mut m = owned("Agent API error ");
    push_str(&mut m, status);
    push_str(&mut m, ": ");
    push_str(&mut m, body);
    AppError::Api(m)
}

// ---------------------------------------------------------------------------
// Replies
// ---------------------------------------------------------------------------

/// A message of the service's session.
pub struct ExtMessage {
    pub role: String,
    pub parts: Vec<Json>,
}

/// The service's session after a run, with its cumulative token counts.
pub struct ExtSession {
    pub messages: Vec<ExtMessage>,
    pub input_tokens: u64,
    pub output_tokens: u64,
}

pub open spec fn parts_view(v: Seq<Json>) -> Seq<JsonV> {
    v.map_values(|j: Json| j@)
}

/// The first text among the parts.
pub open spec fn first_text(parts: Seq<JsonV>) -> Option<Seq<char>>
    decreases parts.len(),
{
    if parts.len() == 0 {
        None
    } else {
        match field_str(parts[0], "text"@) {
            Some(t) => Some(t),
            None => first_text(parts.drop_first()),
        }
    }
}

/// The tool call a part describes, when it has a string `call_id`, a string
/// `tool_name` and an `input`.
pub open spec fn part_call(p: JsonV) -> Option<(Seq<char>, Seq<char>, JsonV)> {
    match (field_str(p, "call_id"@), field_str(p, "tool_name"@), jget(p, "input"@)) {
        (Some(c), Some(t), Some(i)) => Some((c, t, i)),
        _ => None,
    }
}

/// The tool calls among the parts, in order.
pub open spec fn parsed_calls(parts: Seq<JsonV>) -> Seq<(Seq<char>, Seq<char>, JsonV)>
    decreases parts.len(),
{
    if parts.len() == 0 {
        Seq::empty()
    } else {
        let rest = parsed_calls(parts.drop_last());
        match part_call(parts.last()) {
            Some(c) => rest.push(c),
            None => rest,
        }
    }
}

/// The text of the first part that has one.
pub fn parse_text(parts: &[Json]) -> (r: Option<String>)
    ensures
        r.deep_view() == first_text(parts_view(parts@)),
{
    let ghost pv = parts_view(parts@);
    let mut i: usize = 0;
    assert(pv.skip(0) =~= pv);
    while i < parts.len()
        invariant
            i <= parts@.len(),
            pv == parts_view(parts@),
            first_text(pv) == first_text(pv.skip(i as int)),
        decreases parts@.len() - i,
    {
        assert(pv.skip(i as int)[0] == parts@[i as int]@);
        assert(pv.skip(i as int).drop_first() =~= pv.skip(i + 1));
        match parts[i].str_field("text") {
            Some(t) => {
                return Some(t);
            },
            None => {},
        }
        i = i + 1;
    }
    None
}

/// The tool calls among the parts, in order.
pub fn parse_tool_calls(parts: &[Json]) -> (r: Vec<ToolCallRequest>)
    ensures
        r@.len() == parsed_calls(parts_view(parts@)).len(),
        forall|i: int|
            0 <= i < r@.len() ==> {
                let c = parsed_calls(parts_view(parts@))[i];
                &&& (#[trigger] r@[i]).call_id@ == c.0
                &&& r@[i].tool_name@ == c.1
                &&& r@[i].input@ == c.2
            },
{
    let ghost pv = parts_view(parts@);
    let mut out: Vec<ToolCallRequest> = Vec::new();
    let mut i: usize = 0;
    while i < parts.len()
        invariant
            i <= parts@.len(),
            pv == parts_view(parts@),
            out@.len() == parsed_calls(pv.take(i as int)).len(),
            forall|k: int|
                0 <= k < out@.len() ==> {
                    let c = parsed_calls(pv.take(i as int))[k];
                    &&& (#[trigger] out@[k]).call_id@ == c.0
                    &&& out@[k].tool_name@ == c.1
                    &&& out@[k].input@ == c.2
                },
        decreases parts@.len() - i,
    {
        assert(pv.take(i + 1).drop_last() =~= pv.take(i as int));
        assert(pv.take(i + 1).last() == parts@[i as int]@);
        let p = &parts[i];
        match (p.str_field("call_id"), p.str_field("tool_name"), p.get("input")) {
            (Some(call_id), Some(tool_name), Some(input)) => {
                out.push(ToolCallRequest { call_id, tool_name, input: input.deep_clone() });
            },
            _ => {},
        }
        i = i + 1;
    }
    assert(pv.take(parts@.len() as int) =~= pv);
    out
}

/// The position of the last message whose role is `"assistant"`.
pub open spec fn last_assistant(roles: Seq<Seq<char>>) -> Option<int>
    decreases roles.len(),
{
    if roles.len() == 0 {
        None
    } else if roles.last() == "assistant"@ {
        Some(roles.len() - 1)
    } else {
        last_assistant(roles.drop_last())
    }
}

pub open spec fn roles_of(v: Seq<ExtMessage>) -> Seq<Seq<char>> {
    v.map_values(|m: ExtMessage| m.role@)
}

/// The model response for the service's session after a run: the tokens
/// used are the growth of its totals (never below zero), and the text and
/// tool calls come from its last assistant message. A session without an
/// assistant message is an error.
pub fn agent_api_reply(ext: &ExtSession, prev_input: u64, prev_output: u64) -> (r: Result<
    ModelResponse,
    AppError,
>)
    ensures
        match last_assistant(roles_of(ext.messages@)) {
            None => r matches Err(e) && e is Api && e->Api_0@ == "No assistant message in response"@,
            Some(k) => r matches Ok(resp) && {
                let parts = parts_view(ext.messages@[k].parts@);
                &&& resp.input_tokens == if ext.input_tokens >= prev_input {
                    ext.input_tokens - prev_input
                } else {
                    0
                }
                &&& resp.output_tokens == if ext.output_tokens >= prev_output {
                    ext.output_tokens - prev_output
                } else {
                    0
                }
                &&& resp.text.deep_view() == first_text(parts)
                &&& resp.tool_calls@.len() == parsed_calls(parts).len()
                &&& forall|i: int|
                    0 <= i < resp.tool_calls@.len() ==> {
                        let c = parsed_calls(parts)[i];
                        &&& (#[trigger] resp.tool_calls@[i]).call_id@ == c.0
                        &&& resp.tool_calls@[i].tool_name@ == c.1
                        &&& resp.tool_calls@[i].input@ == c.2
                    }
            },
        },
{
    let delta_input = ext.input_tokens.saturating_sub(prev_input);
    let delta_output = ext.output_tokens.saturating_sub(prev_output);
    let ghost roles = roles_of(ext.messages@);
    let mut i: usize = ext.messages.len();
    assert(roles.take(i as int) =~= roles);
    while i > 0
        invariant
            i <= ext.messages@.len(),
            roles == roles_of(ext.messages@),
            last_assistant(roles) == last_assistant(roles.take(i as int)),
            delta_input == if ext.input_tokens >= prev_input {
                ext.input_tokens - prev_input
            } else {
                0
            },
            delta_output == if ext.output_tokens >= prev_output {
                ext.output_tokens - prev_output
            } else {
                0
            },
        decreases i,
    {
        assert(roles.take(i as int).last() == ext.messages@[i - 1].role@);
        assert(roles.take(i as int).drop_last() =~= roles.take(i - 1));
        if str_eq(ext.messages[i - 1].role.as_str(), "assistant") {
            assert(last_assistant(roles.take(i as int)) == Some(i - 1));
            let parts = &ext.messages[i - 1].parts;
            return Ok(
                ModelResponse {
                    text: parse_text(parts.as_slice()),
                    tool_calls: parse_tool_calls(parts.as_slice()),
                    input_tokens: delta_input,
                    output_tokens: delta_output,
                },
            );
        }
        i = i - 1;
    }
    Err(AppError::Api(owned("No assistant message in response")))
}

// ---------------------------------------------------------------------------
// The model's description
// ---------------------------------------------------------------------------

/// What the registry knows of the external agent: its id, its label, and
/// the URL and token it needs.
pub fn agent_api_spec() -> (r: ModelSpec)
    ensures
        r.model_id@ == "external-agent"@,
        r.display_name@ == "External Agent"@,
        r.required_config_keys.deep_view() == seq![url_key(), token_key()],
        r.config_fields@.len() == 2,
        r.config_fields@[0]@.key == url_key(),
        r.config_fields@[0]@.label == "Agent API URL"@,
        !r.config_fields@[0].is_secret,
        r.config_fields@[0]@.placeholder == "http://localhost:8080/run"@,
        r.config_fields@[1]@.key == token_key(),
        r.config_fields@[1]@.label == "Agent API Token"@,
        r.config_fields@[1].is_secret,
        r.config_fields@[1]@.placeholder == "your-api-token"@,
{
    let mut keys: Vec<String> = Vec::new();
    keys.push(owned("EXTERNAL_AGENT_URL"));
    keys.push(owned("EXTERNAL_AGENT_TOKEN"));
    assert(keys.deep_view() =~= seq![url_key(), token_key()]);
    let mut fields: Vec<ConfigField> = Vec::new();
    fields.push(
        ConfigField {
            key: owned("EXTERNAL_AGENT_URL"),
            label: owned("Agent API URL"),
            is_secret: false,
            placeholder: owned("http://localhost:8080/run"),
        },
    );
    fields.push(
        ConfigField {
            key: owned("EXTERNAL_AGENT_TOKEN"),
            label: owned("Agent API Token"),
            is_secret: true,
            placeholder: owned("your-api-token"),
        },
    );
    ModelSpec {
        model_id: owned("external-agent"),
        display_name: owned("External Agent"),
        required_config_keys: keys,
        config_fields: fields,
    }
}

} // verus!
