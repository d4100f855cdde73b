//! Chat sessions and their messages.
use vstd::prelude::*;
use crate::json::{Json, JsonV};

verus! {

/// Who wrote a message.
#[derive(Clone, Copy, PartialEq, Eq, Structural, Debug)]
pub enum Role {
    User,
    Assistant,
    Tool,
}

/// What a message holds.
pub enum MessageContent {
    Text { text: String },
    ToolCall { call_id: String, tool_name: String, input: Json },
    ToolResult { call_id: String, tool_name: String, output: String, is_error: bool },
    FileAttachment { name: String, mime_type: String, data_base64: String },
}

/// The view of a message's content.
pub enum ContentV {
    Text { text: Seq<char> },
    ToolCall { call_id: Seq<char>, tool_name: Seq<char>, input: JsonV },
    ToolResult { call_id: Seq<char>, tool_name: Seq<char>, output: Seq<char>, is_error: bool },
    FileAttachment { name: Seq<char>, mime_type: Seq<char>, data_base64: Seq<char> },
}

impl View for MessageContent {
    type V = ContentV;

    open spec fn view(&self) -> ContentV {
        match self {
            MessageContent::Text { text } => ContentV::Text { text: text@ },
            MessageContent::ToolCall { call_id, tool_name, input } => ContentV::ToolCall {
                call_id: call_id@,
                tool_name: tool_name@,
                input: input@,
            },
            MessageContent::ToolResult { call_id, tool_name, output, is_error } =>
                ContentV::ToolResult {
                call_id: call_id@,
                tool_name: tool_name@,
                output: output@,
                is_error: *is_error,
            },
            MessageContent::FileAttachment { name, mime_type, data_base64 } =>
                ContentV::FileAttachment {
                name: name@,
                mime_type: mime_type@,
                data_base64: data_base64@,
            },
        }
    }
}

/// One message of a session. Times are microseconds since the Unix epoch.
pub struct Message {
    pub id: String,
    pub role: Role,
    pub content: MessageContent,
    pub created_at: i64,
    pub model_id: Option<String>,
}

/// The view of a message.
pub struct MessageV {
    pub id: Seq<char>,
    pub role: Role,
    pub content: ContentV,
    pub created_at: i64,
    pub model_id: Option<Seq<char>>,
}

impl View for Message {
    type V = MessageV;

    open spec fn view(&self) -> MessageV {
        MessageV {
            id: self.id@,
            role: self.role,
            content: self.content@,
            created_at: self.created_at,
            model_id: self.model_id.deep_view(),
        }
    }
}

impl DeepView for Message {
    type V = MessageV;

    open spec fn deep_view(&self) -> MessageV {
        self@
    }
}

/// A chat session: its messages and the tokens it has used.
pub struct Session {
    pub id: String,
    pub title: String,
    pub model_name: String,
    pub messages: Vec<Message>,
    pub created_at: i64,
    pub updated_at: i64,
    pub total_input_tokens: u64,
    pub total_output_tokens: u64,
}

/// The view of a session.
pub struct SessionV {
    pub id: Seq<char>,
    pub title: Seq<char>,
    pub model_name: Seq<char>,
    pub messages: Seq<MessageV>,
    pub created_at: i64,
    pub updated_at: i64,
    pub total_input_tokens: u64,
    pub total_output_tokens: u64,
}

impl View for Session {
    type V = SessionV;

    open spec fn view(&self) -> SessionV {
        SessionV {
            id: self.id@,
            title: self.title@,
            model_name: self.model_name@,
            messages: self.messages.deep_view(),
            created_at: self.created_at,
            updated_at: self.updated_at,
            total_input_tokens: self.total_input_tokens,
            total_output_tokens: self.total_output_tokens,
        }
    }
}

/// What the session list shows of a session.
pub struct SessionSummary {
    pub id: String,
    pub title: String,
    pub model_name: String,
    pub created_at: i64,
    pub updated_at: i64,
}

/// A copy of an optional string.
pub fn clone_opt_string(o: &Option<String>) -> (r: Option<String>)
    ensures
        r.deep_view() == o.deep_view(),
{
    match o {
        Some(s) => Some(s.clone()),
        None => None,
    }
}

impl MessageContent {
    /// A copy of this content.
    pub fn duplicate(&self) -> (r: MessageContent)
        ensures
            r@ == self@,
    {
        match self {
            MessageContent::Text { text } => MessageContent::Text { text: text.clone() },
            MessageContent::ToolCall { call_id, tool_name, input } => MessageContent::ToolCall {
                call_id: call_id.clone(),
                tool_name: tool_name.clone(),
                input: input.deep_clone(),
            },
            MessageContent::ToolResult { call_id, tool_name, output, is_error } =>
                MessageContent::ToolResult {
                call_id: call_id.clone(),
                tool_name: tool_name.clone(),
                output: output.clone(),
                is_error: *is_error,
            },
            MessageContent::FileAttachment { name, mime_type, data_base64 } =>
                MessageContent::FileAttachment {
                name: name.clone(),
                mime_type: mime_type.clone(),
                data_base64: data_base64.clone(),
            },
        }
    }
}

impl Message {
    /// A copy of this message.
    pub fn duplicate(&self) -> (r: Message)
        ensures
            r@ == self@,
    {
        Message {
            id: self.id.clone(),
            role: self.role,
            content: self.content.duplicate(),
            created_at: self.created_at,
            model_id: clone_opt_string(&self.model_id),
        }
    }
}

/// A copy of a list of messages.
pub fn clone_messages(v: &Vec<Message>) -> (r: Vec<Message>)
    ensures
        r.deep_view() == v.deep_view(),
{
    let mut out: Vec<Message> = Vec::new();
    let mut i: usize = 0;
    while i < v.len()
        invariant
            i <= v.len(),
            out@.len() == i,
            forall|k: int| 0 <= k < i ==> (#[trigger] out@[k])@ == v@[k]@,
        decreases v.len() - i,
    {
        out.push(v[i].duplicate());
        i = i + 1;
    }
    assert(out.deep_view() =~= v.deep_view());
    out
}

impl Session {
    /// A copy of this session.
    pub fn duplicate(&self) -> (r: Session)
        ensures
            r@ == self@,
    {
        Session {
            id: self.id.clone(),
            title: self.title.clone(),
            model_name: self.model_name.clone(),
            messages: clone_messages(&self.messages),
            created_at: self.created_at,
            updated_at: self.updated_at,
            total_input_tokens: self.total_input_tokens,
            total_output_tokens: self.total_output_tokens,
        }
    }

    /// The summary of this session for the session list.
    pub fn summary(&self) -> (r: SessionSummary)
        ensures
            r.id@ == self.id@,
            r.title@ == self.title@,
            r.model_name@ == self.model_name@,
            r.created_at == self.created_at,
            r.updated_at == self.updated_at,
    {
        SessionSummary {
            id: self.id.clone(),
            title: self.title.clone(),
            model_name: self.model_name.clone(),
            created_at: self.created_at,
            updated_at: self.updated_at,
        }
    }
}

} // verus!
