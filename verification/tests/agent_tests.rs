use ai_gui::agent::{
    augment_message, finish_run, title_from_reply, title_prompt, title_request, tool_outcome, Agent,
    AfterResponse, KnowledgeStore,
};
use ai_gui::error::AppError;
use ai_gui::json::Json;
use ai_gui::model::{ModelResponse, ToolCallRequest, ToolSpec};
use ai_gui::session::{Message, MessageContent, Role, Session};

fn text_message(text: &str) -> Message {
    Message {
        id: "m1".to_string(),
        role: Role::User,
        content: MessageContent::Text { text: text.to_string() },
        created_at: 0,
        model_id: None,
    }
}

fn empty_session() -> Session {
    Session {
        id: "s".to_string(),
        title: "t".to_string(),
        model_name: "m".to_string(),
        messages: vec![text_message("earlier")],
        created_at: 0,
        updated_at: 0,
        total_input_tokens: 10,
        total_output_tokens: 20,
    }
}

fn tool(name: &str) -> ToolSpec {
    ToolSpec { name: name.to_string(), description: String::new(), parameters: Json::Null }
}

struct Notes;

impl KnowledgeStore for Notes {
    fn retrieve(&self, _query: &str) -> Result<String, AppError> {
        Ok("facts".to_string())
    }
}

struct Echo;

impl KnowledgeStore for Echo {
    fn retrieve(&self, query: &str) -> Result<String, AppError> {
        Ok(format!("about {query}"))
    }
}

fn texts(messages: &[Message]) -> Vec<String> {
    messages
        .iter()
        .map(|m| match &m.content {
            MessageContent::Text { text } => format!("text:{text}"),
            MessageContent::ToolCall { tool_name, .. } => format!("call:{tool_name}"),
            MessageContent::ToolResult { output, is_error, .. } => format!("result:{output}:{is_error}"),
            MessageContent::FileAttachment { name, .. } => format!("file:{name}"),
        })
        .collect()
}

#[test]
fn a_run_records_every_message_once_in_order() {
    let agent = Agent::new(vec![tool("get_current_time")]);
    let mut session = empty_session();
    let run = agent.start_run(&text_message("what time is it"));
    let response = ModelResponse {
        text: None,
        tool_calls: vec![
            ToolCallRequest { call_id: "c1".to_string(), tool_name: "get_current_time".to_string(), input: Json::Null },
            ToolCallRequest { call_id: "c2".to_string(), tool_name: "missing".to_string(), input: Json::Null },
        ],
        input_tokens: 5,
        output_tokens: 7,
    };
    let round = match run.on_response(&mut session, response, "gemini-2.5-flash") {
        AfterResponse::RunTools(round) => round,
        AfterResponse::Finished(_) => panic!("tools were called"),
    };
    assert_eq!(session.total_input_tokens, 15);
    assert_eq!(session.total_output_tokens, 27);
    let first = match agent.find_tool(&round.calls[0].tool_name) {
        Some(_) => tool_outcome("get_current_time", Some("12:00".to_string())),
        None => tool_outcome("get_current_time", None),
    };
    let second = match agent.find_tool(&round.calls[1].tool_name) {
        Some(_) => tool_outcome("missing", Some("?".to_string())),
        None => tool_outcome("missing", None),
    };
    let run = round.on_tool_results(&mut session, vec![first, second]);
    // The last result waits to be sent, so it is not yet in the session.
    assert_eq!(
        texts(&session.messages),
        vec!["text:earlier", "text:what time is it", "call:get_current_time", "call:missing", "result:12:00:false"]
    );
    let done = match run.on_response(
        &mut session,
        ModelResponse { text: Some("It is noon.".to_string()), tool_calls: vec![], input_tokens: 1, output_tokens: 1 },
        "gemini-2.5-flash",
    ) {
        AfterResponse::Finished(new_messages) => new_messages,
        AfterResponse::RunTools(_) => panic!("no tools were called"),
    };
    let new_messages = finish_run(&mut session, done);
    assert_eq!(
        texts(&new_messages),
        vec![
            "call:get_current_time",
            "call:missing",
            "result:12:00:false",
            "result:Tool 'missing' not found:true",
            "text:It is noon."
        ]
    );
    let mut expected = vec!["text:earlier".to_string(), "text:what time is it".to_string()];
    expected.extend(texts(&new_messages));
    assert_eq!(texts(&session.messages), expected);
    assert_eq!(session.total_input_tokens, 16);
    assert_eq!(session.messages[4].model_id, None);
    assert_eq!(session.messages[2].model_id, Some("gemini-2.5-flash".to_string()));
    assert!(matches!(session.messages[5].role, Role::Tool));
}

#[test]
fn an_answer_without_text_adds_nothing() {
    let agent = Agent::new(vec![]);
    let mut session = empty_session();
    let run = agent.start_run(&text_message("hi"));
    match run.on_response(
        &mut session,
        ModelResponse { text: None, tool_calls: vec![], input_tokens: 0, output_tokens: 0 },
        "m",
    ) {
        AfterResponse::Finished(new_messages) => assert!(new_messages.is_empty()),
        AfterResponse::RunTools(_) => panic!("no tools were called"),
    }
    assert_eq!(texts(&session.messages), vec!["text:earlier", "text:hi"]);
}

#[test]
fn knowledge_is_put_in_front_of_the_text() {
    let agent = Agent::new(vec![tool("a"), tool("b")]).with_knowledge_store(Box::new(Notes));
    assert!(agent.knowledge_store.is_some());
    assert_eq!(agent.tools.iter().map(|t| t.name.as_str()).collect::<Vec<_>>(), vec!["a", "b"]);
    let m = agent.augment(&text_message("question"));
    assert_eq!(texts(&[m]), vec!["text:[参考情報]\nfacts\n\nquestion"]);
    let echo = Agent::new(vec![]).with_knowledge_store(Box::new(Echo));
    let m = echo.augment(&text_message("what is up"));
    assert_eq!(texts(&[m]), vec!["text:[参考情報]\nabout what is up\n\nwhat is up"]);
    let same = augment_message(&text_message("q"), Ok(String::new()));
    assert_eq!(texts(&[same]), vec!["text:q"]);
    let same = augment_message(&text_message("q"), Err(AppError::Io("down".to_string())));
    assert_eq!(texts(&[same]), vec!["text:q"]);
}

#[test]
fn titles() {
    assert_eq!(
        title_prompt("Plan a trip"),
        "Generate a short, concise title (max 6 words, no quotes, no punctuation at end) for a chat session starting with: Plan a trip"
    );
    let req = title_request("x");
    assert!(matches!(req.role, Role::User));
    let ok = Ok(ModelResponse { text: Some("  Trip plan \n".to_string()), tool_calls: vec![], input_tokens: 0, output_tokens: 0 });
    assert_eq!(title_from_reply(&ok), "Trip plan");
    let none = Ok(ModelResponse { text: None, tool_calls: vec![], input_tokens: 0, output_tokens: 0 });
    assert_eq!(title_from_reply(&none), "New Chat");
    assert_eq!(title_from_reply(&Err(AppError::Http("x".to_string()))), "New Chat");
    assert_eq!(AppError::MissingApiKey("Gemini".to_string()).message(), "Config missing API key for: Gemini");
}

#[test]
fn every_error_has_its_message() {
    assert_eq!(AppError::Io("disk".to_string()).message(), "IO error: disk");
    assert_eq!(AppError::Json("bad".to_string()).message(), "JSON error: bad");
    assert_eq!(AppError::Http("down".to_string()).message(), "HTTP error: down");
    assert_eq!(AppError::Api("500".to_string()).message(), "API error: 500");
    assert_eq!(AppError::SessionNotFound("s".to_string()).message(), "Session not found: s");
    assert_eq!(AppError::Path("p".to_string()).message(), "Path error: p");
}
