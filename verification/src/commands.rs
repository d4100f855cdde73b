//! What the application's commands decide before and after the agent runs:
//! which session and model a message goes to, what the user's message holds,
//! the prompt and session of a playbook run, and the answers they return.
use vstd::prelude::*;
use crate::clock::{is_uuid_v4_text, new_id, now_micros};
use crate::agent_api::agent_api_spec;
use crate::gemini::gemini_spec;
use crate::model::{keys_available, ModelRegistry, ModelSpec};
use crate::playbook::{find_playbook, playbook_model, playbook_prompt, playbook_prompt_text, Playbook};
use crate::session::{ContentV, Message, MessageContent, Role, Session};
use crate::session_table::SessionTable;
use crate::settings::Settings;
use crate::text::{concat2, concat3, owned};

verus! {

/// A file the user attached to a message.
pub struct FileAttachmentInput {
    pub name: String,
    pub mime_type: String,
    pub data_base64: String,
}

/// The answer of a command that ran the agent: the session it ran in and
/// the messages the run added.
pub struct SendMessageResponse {
    pub session_id: String,
    pub session_title: String,
    pub new_messages: Vec<Message>,
}

/// The error for an id that names no session.
pub fn session_not_found(id: &str) -> (r: String)
    ensures
        r@ == "Session not found: "@ + id@,
{
    concat2("Session not found: ", id)
}

/// A copy of the session with the given id, or the error naming the id.
pub fn find_session(table: &SessionTable, id: &str) -> (r: Result<Session, String>)
    ensures
        match r {
            Ok(s) => table@.contains_key(id@) && s@ == table@[id@],
            Err(e) => !table@.contains_key(id@) && e@ == "Session not found: "@ + id@,
        },
{
    match table.get(id) {
        Some(s) => Ok(s.duplicate()),
        None => Err(session_not_found(id)),
    }
}

/// The error for a model id that names no registered model.
pub open spec fn unknown_model_text(id: Seq<char>) -> Seq<char> {
    "Unknown model: "@ + id
}

/// The error for a model whose settings are missing.
pub open spec fn unavailable_model_text(id: Seq<char>) -> Seq<char> {
    "Model '"@ + id + "' is not available. Please set the required API key in Settings."@
}

/// The position of the registered model `model_id`, when it is available
/// under `settings`; else the error saying why not.
pub fn resolve_model(registry: &ModelRegistry, model_id: &str, settings: &Settings) -> (r: Result<
    usize,
    String,
>)
    ensures
        match r {
            Ok(i) => {
                &&& i < registry.specs().len()
                &&& registry.specs()[i as int].model_id@ == model_id@
                &&& forall|k: int| 0 <= k < i ==> registry.specs()[k].model_id@ != model_id@
                &&& keys_available(
                    registry.specs()[i as int].required_config_keys.deep_view(),
                    settings@,
                )
            },
            Err(e) => {
                ||| (forall|k: int|
                    0 <= k < registry.specs().len() ==> registry.specs()[k].model_id@ != model_id@)
                    && e@ == unknown_model_text(model_id@)
                ||| (exists|i: int|
                    0 <= i < registry.specs().len() && registry.specs()[i].model_id@ == model_id@
                        && (forall|k: int| 0 <= k < i ==> registry.specs()[k].model_id@ != model_id@)
                        && !keys_available(
                        registry.specs()[i].required_config_keys.deep_view(),
                        settings@,
                    )) && e@ == unavailable_model_text(model_id@)
            },
        },
{
    match registry.get(model_id) {
        None => Err(concat2("Unknown model: ", model_id)),
        Some(i) => {
            let models = registry.models();
            if crate::model::is_available(&models[i].required_config_keys, settings) {
                Ok(i)
            } else {
                Err(concat3(
                    "Model '",
                    model_id,
                    "' is not available. Please set the required API key in Settings.",
                ))
            }
        },
    }
}

/// A new empty session with a fresh id, created now.
pub fn fresh_session(title: &str, model_id: &str) -> (r: Session)
    ensures
        is_uuid_v4_text(r.id@),
        r.title@ == title@,
        r.model_name@ == model_id@,
        r.messages@.len() == 0,
        r.created_at == r.updated_at,
        r.total_input_tokens == 0,
        r.total_output_tokens == 0,
{
    let now = now_micros();
    Session {
        id: new_id(),
        title: owned(title),
        model_name: owned(model_id),
        messages: Vec::new(),
        created_at: now,
        updated_at: now,
        total_input_tokens: 0,
        total_output_tokens: 0,
    }
}

/// The content of the user's message: the attached file when there is one,
/// else the text.
pub fn user_content(content: &str, attachment: Option<FileAttachmentInput>) -> (r: MessageContent)
    ensures
        match attachment {
            Some(a) => r@ == (ContentV::FileAttachment {
                name: a.name@,
                mime_type: a.mime_type@,
                data_base64: a.data_base64@,
            }),
            None => r@ == (ContentV::Text { text: content@ }),
        },
{
    match attachment {
        Some(a) => MessageContent::FileAttachment {
            name: a.name,
            mime_type: a.mime_type,
            data_base64: a.data_base64,
        },
        None => MessageContent::Text { text: owned(content) },
    }
}

/// A new user message with this content, a fresh id and the current time.
pub fn user_message(content: MessageContent) -> (r: Message)
    ensures
        is_uuid_v4_text(r.id@),
        r.role == Role::User,
        r@.content == content@,
        r.model_id is None,
{
    Message { id: new_id(), role: Role::User, content, created_at: now_micros(), model_id: None }
}

/// What `send_message` prepares before the agent runs: the session the
/// message goes to, the user's message, and the position of the model.
pub struct SendPlan {
    pub session: Session,
    pub is_new: bool,
    pub user_message: Message,
    pub model: usize,
}

/// Prepares `send_message`: the stored session `session_id` (an error when
/// there is none) or a new "New Chat" session, the model (an error when it
/// is unknown or unavailable), and the user's message.
pub fn prepare_send(
    table: &SessionTable,
    session_id: &Option<String>,
    content: &str,
    model_id: &str,
    attachment: Option<FileAttachmentInput>,
    registry: &ModelRegistry,
    settings: &Settings,
) -> (r: Result<SendPlan, String>)
    ensures
        match r {
            Ok(p) => {
                &&& match session_id {
                    Some(id) => table@.contains_key(id@) && p.session@ == table@[id@] && !p.is_new,
                    None => p.is_new && p.session.title@ == "New Chat"@ && p.session.model_name@
                        == model_id@ && p.session.messages@.len() == 0,
                }
                &&& p.model < registry.specs().len()
                &&& registry.specs()[p.model as int].model_id@ == model_id@
                &&& forall|k: int|
                    0 <= k < p.model ==> #[trigger] registry.specs()[k].model_id@ != model_id@
                &&& keys_available(
                    registry.specs()[p.model as int].required_config_keys.deep_view(),
                    settings@,
                )
                &&& p.user_message.role == Role::User
                &&& match attachment {
                    Some(a) => p.user_message@.content == (ContentV::FileAttachment {
                        name: a.name@,
                        mime_type: a.mime_type@,
                        data_base64: a.data_base64@,
                    }),
                    None => p.user_message@.content == (ContentV::Text { text: content@ }),
                }
            },
            Err(e) => match session_id {
                Some(id) if !table@.contains_key(id@) => e@ == "Session not found: "@ + id@,
                _ => model_error(Some(model_id@), registry.specs(), settings@, e@),
            },
        },
{
    let (session, is_new) = match session_id {
        Some(id) => match find_session(table, id.as_str()) {
            Ok(s) => (s, false),
            Err(e) => return Err(e),
        },
        None => (fresh_session("New Chat", model_id), true),
    };
    let model = match resolve_model(registry, model_id, settings) {
        Ok(i) => i,
        Err(e) => return Err(e),
    };
    let user_message = user_message(user_content(content, attachment));
    Ok(SendPlan { session, is_new, user_message, model })
}

/// Whether `i` is the position of the first playbook with identifier `id`.
pub open spec fn first_with_id(playbooks: Seq<Playbook>, id: Seq<char>, i: int) -> bool {
    &&& 0 <= i < playbooks.len()
    &&& playbooks[i].id@ == id
    &&& forall|k: int| 0 <= k < i ==> #[trigger] playbooks[k].id@ != id
}

/// Why a playbook with model `model_id` cannot run: it has no model, its
/// model is not registered, or the first model registered under that id
/// lacks settings.
pub open spec fn model_error(
    model_id: Option<Seq<char>>,
    models: Seq<ModelSpec>,
    settings: Map<Seq<char>, Seq<char>>,
    e: Seq<char>,
) -> bool {
    match model_id {
        None => e == "Playbook has no model set. Please set a model before running."@,
        Some(m) => {
            ||| (forall|k: int| 0 <= k < models.len() ==> #[trigger] models[k].model_id@ != m) && e
                == unknown_model_text(m)
            ||| (exists|j: int|
                0 <= j < models.len() && models[j].model_id@ == m && (forall|k: int|
                    0 <= k < j ==> #[trigger] models[k].model_id@ != m) && !keys_available(
                    models[j].required_config_keys.deep_view(),
                    settings,
                )) && e == unavailable_model_text(m)
        },
    }
}

/// What `run_playbook` prepares before the agent runs: a new session named
/// after the playbook, the message holding the playbook's prompt, and the
/// position of the model.
pub struct PlaybookRun {
    pub session: Session,
    pub user_message: Message,
    pub model: usize,
}

/// Prepares `run_playbook`: finds the playbook (an error when there is
/// none), takes its model (an error when it has none, or when the model is
/// unknown or unavailable), and builds its prompt into a new session.
pub fn prepare_playbook_run(
    playbooks: &Vec<Playbook>,
    playbook_id: &str,
    user_text: &Option<String>,
    registry: &ModelRegistry,
    settings: &Settings,
) -> (r: Result<PlaybookRun, String>)
    ensures
        match r {
            Ok(run) => exists|i: int|
                {
                    &&& first_with_id(playbooks@, playbook_id@, i)
                    &&& playbooks@[i].model_id.deep_view() == Some(run.session.model_name@)
                    &&& run.session.title@ == playbooks@[i].title@
                    &&& run.session.messages@.len() == 0
                    &&& run.user_message@.content == (ContentV::Text {
                        text: playbook_prompt_text(playbooks@[i]@, user_text.deep_view()),
                    })
                },
            Err(e) => {
                ||| (forall|k: int|
                    0 <= k < playbooks@.len() ==> #[trigger] playbooks@[k].id@ != playbook_id@) && e@
                    == "Playbook not found: "@ + playbook_id@
                ||| exists|i: int|
                    first_with_id(playbooks@, playbook_id@, i) && model_error(
                        playbooks@[i].model_id.deep_view(),
                        registry.specs(),
                        settings@,
                        e@,
                    )
            },
        },
        r matches Ok(run) ==> run.user_message.role == Role::User && run.model
            < registry.specs().len() && registry.specs()[run.model as int].model_id@
            == run.session.model_name@ && (forall|k: int|
            0 <= k < run.model ==> #[trigger] registry.specs()[k].model_id@
                != run.session.model_name@) && keys_available(
            registry.specs()[run.model as int].required_config_keys.deep_view(),
            settings@,
        ),
{
    let i = match find_playbook(playbooks, playbook_id) {
        Ok(i) => i,
        Err(e) => return Err(e),
    };
    let p = &playbooks[i];
    assert(first_with_id(playbooks@, playbook_id@, i as int));
    let model_id = match playbook_model(p) {
        Ok(m) => m,
        Err(e) => {
            assert(model_error(playbooks@[i as int].model_id.deep_view(), registry.specs(), settings@, e@));
            return Err(e);
        },
    };
    let model = match resolve_model(registry, model_id.as_str(), settings) {
        Ok(m) => m,
        Err(e) => {
            assert(model_error(playbooks@[i as int].model_id.deep_view(), registry.specs(), settings@, e@));
            return Err(e);
        },
    };
    let prompt = playbook_prompt(p, user_text);
    let session = fresh_session(p.title.as_str(), model_id.as_str());
    let user_message = user_message(MessageContent::Text { text: prompt });
    Ok(PlaybookRun { session, user_message, model })
}

/// The answer of a command that ran the agent in `session`.
pub fn respond(session: &Session, new_messages: Vec<Message>) -> (r: SendMessageResponse)
    ensures
        r.session_id@ == session.id@,
        r.session_title@ == session.title@,
        r.new_messages@ == new_messages@,
{
    SendMessageResponse {
        session_id: session.id.clone(),
        session_title: session.title.clone(),
        new_messages,
    }
}

/// The error for an answer to a choice nobody waits for.
pub fn no_pending_choice(call_id: &str) -> (r: String)
    ensures
        r@ == "No pending choice with id: "@ + call_id@,
{
    concat2("No pending choice with id: ", call_id)
}

/// The Gemini variants the application offers, in order.
pub open spec fn gemini_variant_names() -> Seq<Seq<char>> {
    seq!["gemini-2.5-flash"@, "gemini-2.5-pro"@, "gemini-1.5-flash"@, "gemini-1.5-pro"@]
}

/// The registry the application starts with: the Gemini variants in order,
/// then the external agent.
pub fn default_registry() -> (r: ModelRegistry)
    ensures
        r.specs().len() == 5,
        forall|i: int| 0 <= i < 4 ==> #[trigger] r.specs()[i].model_id@ == gemini_variant_names()[i],
        r.specs()[4].model_id@ == "external-agent"@,
{
    let mut registry = ModelRegistry::new();
    let variants: [&str; 4] = ["gemini-2.5-flash", "gemini-2.5-pro", "gemini-1.5-flash", "gemini-1.5-pro"];
    registry.register(gemini_spec(variants[0]));
    registry.register(gemini_spec(variants[1]));
    registry.register(gemini_spec(variants[2]));
    registry.register(gemini_spec(variants[3]));
    registry.register(agent_api_spec());
    registry
}

} // verus!
