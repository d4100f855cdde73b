use ai_gui::agent_api::{
    agent_api_reply, agent_api_spec, agent_api_status_error, api_base, build_run_request, endpoint,
    parse_text, parse_tool_calls, session_url, ExtMessage, ExtSession,
};
use ai_gui::commands::{
    default_registry, fresh_session, no_pending_choice, prepare_playbook_run, prepare_send,
    resolve_model, respond, session_not_found, FileAttachmentInput,
};
use ai_gui::error::AppError;
use ai_gui::gemini::{
    gemini_reply, gemini_request, gemini_spec, gemini_url, messages_to_gemini_contents, GeminiContent,
    GeminiPart,
};
use ai_gui::json::Json;
use ai_gui::model::{is_available, ModelRegistry, ModelSpec, ToolSpec};
use ai_gui::playbook::Playbook;
use ai_gui::session::{Message, MessageContent, Role};
use ai_gui::session_table::SessionTable;
use ai_gui::settings::Settings;

fn msg(role: Role, content: MessageContent) -> Message {
    Message { id: "i".to_string(), role, content, created_at: 0, model_id: None }
}

fn text(t: &str) -> MessageContent {
    MessageContent::Text { text: t.to_string() }
}

fn obj(members: Vec<(&str, Json)>) -> Json {
    Json::Object(members.into_iter().map(|(k, v)| (k.to_string(), v)).collect())
}

fn settings(pairs: &[(&str, &str)]) -> Settings {
    let mut s = Settings::new();
    for (k, v) in pairs {
        s.insert(k.to_string(), v.to_string());
    }
    s
}

#[test]
fn registry_lists_models_and_their_schema() {
    let registry = default_registry();
    let s = settings(&[("GEMINI_API_KEY", "k")]);
    let list = registry.list(&s);
    assert_eq!(list.len(), 5);
    assert_eq!(list[0].id, "gemini-2.5-flash");
    assert!(list[0].is_available);
    assert_eq!(list[4].id, "external-agent");
    assert!(!list[4].is_available);
    let schema = registry.config_schema();
    let keys: Vec<&str> = schema.iter().map(|f| f.key.as_str()).collect();
    assert_eq!(keys, vec!["GEMINI_API_KEY", "EXTERNAL_AGENT_URL", "EXTERNAL_AGENT_TOKEN"]);
    assert_eq!(registry.get("gemini-1.5-pro"), Some(3));
    assert_eq!(registry.get("nope"), None);
}

#[test]
fn seeding_adds_missing_keys_once() {
    let registry = default_registry();
    let mut s = settings(&[("GEMINI_API_KEY", "k")]);
    registry.seed_config(&mut s);
    assert_eq!(s.get("GEMINI_API_KEY"), Some(&"k".to_string()));
    assert_eq!(s.get("EXTERNAL_AGENT_URL"), Some(&String::new()));
    assert_eq!(s.len(), 3);
    registry.seed_config(&mut s);
    assert_eq!(s.len(), 3);
}

#[test]
fn availability_needs_non_empty_keys() {
    let keys = vec!["A".to_string(), "B".to_string()];
    assert!(is_available(&keys, &settings(&[("A", "1"), ("B", "2")])));
    assert!(!is_available(&keys, &settings(&[("A", "1"), ("B", "")])));
    assert!(!is_available(&keys, &settings(&[("A", "1")])));
    assert!(is_available(&vec![], &Settings::new()));
}

#[test]
fn models_are_resolved_with_their_errors() {
    let registry = default_registry();
    let s = settings(&[("GEMINI_API_KEY", "k")]);
    assert_eq!(resolve_model(&registry, "gemini-2.5-pro", &s), Ok(1));
    assert_eq!(resolve_model(&registry, "gpt", &s), Err("Unknown model: gpt".to_string()));
    assert_eq!(
        resolve_model(&registry, "external-agent", &s),
        Err("Model 'external-agent' is not available. Please set the required API key in Settings.".to_string())
    );
    let empty = ModelRegistry::new();
    assert_eq!(resolve_model(&empty, "x", &s), Err("Unknown model: x".to_string()));
}

#[test]
fn sending_prepares_session_model_and_message() {
    let registry = default_registry();
    let s = settings(&[("GEMINI_API_KEY", "k")]);
    let table = SessionTable::new();
    let plan = prepare_send(&table, &None, "hello", "gemini-2.5-flash", None, &registry, &s).unwrap();
    assert!(plan.is_new);
    assert_eq!(plan.session.title, "New Chat");
    assert_eq!(plan.session.model_name, "gemini-2.5-flash");
    assert_eq!(plan.session.id.len(), 36);
    assert_eq!(plan.model, 0);
    assert!(matches!(plan.user_message.content, MessageContent::Text { ref text } if text == "hello"));
    let attachment = FileAttachmentInput {
        name: "a.png".to_string(),
        mime_type: "image/png".to_string(),
        data_base64: "AAAA".to_string(),
    };
    let plan = prepare_send(&table, &None, "ignored", "gemini-2.5-flash", Some(attachment), &registry, &s).unwrap();
    assert!(matches!(plan.user_message.content, MessageContent::FileAttachment { ref name, .. } if name == "a.png"));
    match prepare_send(&table, &Some("zz".to_string()), "x", "gemini-2.5-flash", None, &registry, &s) {
        Err(e) => assert_eq!(e, "Session not found: zz"),
        Ok(_) => panic!("expected an error"),
    }
    let mut table = SessionTable::new();
    let existing = fresh_session("Old", "gemini-2.5-flash");
    let id = existing.id.clone();
    table.insert(existing);
    let plan = prepare_send(&table, &Some(id.clone()), "x", "gemini-2.5-flash", None, &registry, &s).unwrap();
    assert!(!plan.is_new);
    assert_eq!(plan.session.title, "Old");
    let response = respond(&plan.session, vec![]);
    assert_eq!(response.session_id, id);
    assert_eq!(response.session_title, "Old");
    assert_eq!(session_not_found("q"), "Session not found: q");
    assert_eq!(no_pending_choice("c"), "No pending choice with id: c");
}

#[test]
fn playbooks_run_in_a_new_session() {
    let registry = default_registry();
    let s = settings(&[("GEMINI_API_KEY", "k")]);
    let books = vec![Playbook {
        id: "p".to_string(),
        title: "Morning".to_string(),
        description: String::new(),
        steps: vec!["Check mail".to_string()],
        notes: String::new(),
        model_id: Some("gemini-2.5-flash".to_string()),
        created_at: 0,
        updated_at: 0,
    }];
    let run = prepare_playbook_run(&books, "p", &None, &registry, &s).unwrap();
    assert_eq!(run.session.title, "Morning");
    assert_eq!(run.session.model_name, "gemini-2.5-flash");
    assert!(matches!(run.user_message.content, MessageContent::Text { ref text } if text == "# Morning\n\n## Steps\n\n1. Check mail\n"));
    match prepare_playbook_run(&books, "q", &None, &registry, &s) {
        Err(e) => assert_eq!(e, "Playbook not found: q"),
        Ok(_) => panic!("expected an error"),
    }
    match prepare_playbook_run(&books, "p", &None, &registry, &Settings::new()) {
        Err(e) => assert_eq!(e, "Model 'gemini-2.5-flash' is not available. Please set the required API key in Settings."),
        Ok(_) => panic!("expected an error"),
    }
}

#[test]
fn gemini_groups_messages_into_blocks() {
    let messages = vec![
        msg(Role::User, text("hi")),
        msg(Role::Assistant, text("let me look")),
        msg(
            Role::Assistant,
            MessageContent::ToolCall { call_id: "c".to_string(), tool_name: "browser_screenshot".to_string(), input: Json::Null },
        ),
        msg(
            Role::Tool,
            MessageContent::ToolResult {
                call_id: "c".to_string(),
                tool_name: "browser_screenshot".to_string(),
                output: "SCREENSHOT:image/png:AQID".to_string(),
                is_error: false,
            },
        ),
        msg(
            Role::Tool,
            MessageContent::ToolResult { call_id: "d".to_string(), tool_name: "t".to_string(), output: "plain".to_string(), is_error: false },
        ),
    ];
    let blocks = messages_to_gemini_contents(&messages);
    let roles: Vec<&str> = blocks.iter().map(|b| b.role.as_str()).collect();
    assert_eq!(roles, vec!["user", "model", "user"]);
    assert_eq!(blocks[1].parts.len(), 2);
    assert_eq!(blocks[2].parts.len(), 3);
    // Every part of every message is kept: 1 + 1 + 1 + 2 + 1.
    assert_eq!(blocks.iter().map(|b| b.parts.len()).sum::<usize>(), 6);
    match &blocks[2].parts[1] {
        GeminiPart::InlineData { mime_type, data } => {
            assert_eq!(mime_type, "image/png");
            assert_eq!(data, "AQID");
        }
        _ => panic!("expected the image"),
    }
    match &blocks[2].parts[0] {
        GeminiPart::FunctionResponse { response: Json::Object(members), .. } => match &members[0].1 {
            Json::Str(note) => assert_eq!(note, "Screenshot captured — see attached image"),
            _ => panic!("expected a note"),
        },
        _ => panic!("expected a function response"),
    }
    let request = gemini_request(&messages, &[ToolSpec { name: "t".to_string(), description: "d".to_string(), parameters: Json::Null }]);
    assert_eq!(request.tools.len(), 1);
    assert_eq!(request.tool_config.unwrap().mode, "AUTO");
    let request = gemini_request(&messages, &[]);
    assert!(request.tools.is_empty() && request.tool_config.is_none());
}

#[test]
fn gemini_endpoints_and_replies() {
    assert_eq!(
        gemini_url("gemini-2.5-flash", "KEY"),
        "https://generativelanguage.googleapis.com/v1beta/models/gemini-2.5-flash:generateContent?key=KEY"
    );
    let candidate = GeminiContent {
        role: "model".to_string(),
        parts: vec![
            GeminiPart::Text { text: "first".to_string() },
            GeminiPart::FunctionCall { name: "f".to_string(), args: Json::Null },
            GeminiPart::Text { text: "last".to_string() },
        ],
    };
    let reply = gemini_reply(&vec![candidate], 3, 4).unwrap();
    assert_eq!(reply.text, Some("last".to_string()));
    assert_eq!(reply.tool_calls.len(), 1);
    assert_eq!(reply.tool_calls[0].tool_name, "f");
    assert_eq!(reply.input_tokens, 3);
    match gemini_reply(&vec![], 0, 0) {
        Err(AppError::Api(m)) => assert_eq!(m, "No candidates in Gemini response"),
        _ => panic!("expected an error"),
    }
    let spec = gemini_spec("gemini-1.5-pro");
    assert_eq!(spec.model_id, "gemini-1.5-pro");
    assert_eq!(spec.required_config_keys, vec!["GEMINI_API_KEY".to_string()]);
}

#[test]
fn external_agent_urls_and_settings() {
    assert_eq!(api_base("http://localhost:8080/run"), "http://localhost:8080");
    assert_eq!(api_base("http://localhost:8080/run//"), "http://localhost:8080");
    assert_eq!(api_base("http://host/api"), "http://host/api");
    assert_eq!(session_url("http://h/run", "s1"), "http://h/session/s1");
    match endpoint(&settings(&[("EXTERNAL_AGENT_URL", "")])) {
        Err(AppError::MissingApiKey(m)) => assert_eq!(m, "External Agent URL"),
        _ => panic!("expected an error"),
    }
    match endpoint(&settings(&[("EXTERNAL_AGENT_URL", "http://h/run")])) {
        Err(AppError::MissingApiKey(m)) => assert_eq!(m, "External Agent Token"),
        _ => panic!("expected an error"),
    }
    let (url, token) = endpoint(&settings(&[("EXTERNAL_AGENT_URL", "http://h/run"), ("EXTERNAL_AGENT_TOKEN", "t")])).unwrap();
    assert_eq!((url.as_str(), token.as_str()), ("http://h/run", "t"));
    match agent_api_status_error("500", "oops") {
        AppError::Api(m) => assert_eq!(m, "Agent API error 500: oops"),
        _ => panic!("expected an API error"),
    }
    assert_eq!(agent_api_spec().model_id, "external-agent");
}

#[test]
fn external_agent_requests_and_replies() {
    let request = build_run_request(&msg(Role::User, text("hi")), "s1".to_string(), &[]);
    assert_eq!(request.session_id, "s1");
    match &request.message_parts[0] {
        Json::Object(members) => {
            assert_eq!(members[0].0, "text");
        }
        _ => panic!("expected an object"),
    }
    let make_parts = || vec![
        obj(vec![("call_id", Json::Str("c1".to_string())), ("tool_name", Json::Str("t".to_string())), ("input", Json::Null)]),
        obj(vec![("text", Json::Str("done".to_string()))]),
        obj(vec![("text", Json::Str("later".to_string()))]),
        obj(vec![("call_id", Json::Str("c2".to_string()))]),
    ];
    let parts = make_parts();
    assert_eq!(parse_text(&parts), Some("done".to_string()));
    let calls = parse_tool_calls(&parts);
    assert_eq!(calls.len(), 1);
    assert_eq!(calls[0].call_id, "c1");
    let ext = ExtSession {
        messages: vec![
            ExtMessage { role: "assistant".to_string(), parts: vec![obj(vec![("text", Json::Str("old".to_string()))])] },
            ExtMessage { role: "assistant".to_string(), parts: make_parts() },
            ExtMessage { role: "user".to_string(), parts: vec![] },
        ],
        input_tokens: 100,
        output_tokens: 5,
    };
    let reply = agent_api_reply(&ext, 40, 9).unwrap();
    assert_eq!(reply.text, Some("done".to_string()));
    assert_eq!(reply.input_tokens, 60);
    assert_eq!(reply.output_tokens, 0);
    let none = ExtSession { messages: vec![], input_tokens: 0, output_tokens: 0 };
    match agent_api_reply(&none, 0, 0) {
        Err(AppError::Api(m)) => assert_eq!(m, "No assistant message in response"),
        _ => panic!("expected an error"),
    }
}

#[test]
fn the_first_model_registered_under_an_id_is_used() {
    let mut registry = ModelRegistry::new();
    registry.register(ModelSpec {
        model_id: "m".to_string(),
        display_name: "first".to_string(),
        required_config_keys: vec!["KEY".to_string()],
        config_fields: vec![],
    });
    registry.register(ModelSpec {
        model_id: "m".to_string(),
        display_name: "second".to_string(),
        required_config_keys: vec![],
        config_fields: vec![],
    });
    let table = SessionTable::new();
    match prepare_send(&table, &None, "hi", "m", None, &registry, &Settings::new()) {
        Err(e) => assert_eq!(e, "Model 'm' is not available. Please set the required API key in Settings."),
        Ok(_) => panic!("the first model lacks its key"),
    }
    let plan = prepare_send(&table, &None, "hi", "m", None, &registry, &settings(&[("KEY", "v")])).unwrap();
    assert_eq!(plan.model, 0);
    let books = vec![Playbook {
        id: "p".to_string(),
        title: "T".to_string(),
        description: String::new(),
        steps: vec![],
        notes: String::new(),
        model_id: Some("m".to_string()),
        created_at: 0,
        updated_at: 0,
    }];
    match prepare_playbook_run(&books, "p", &None, &registry, &Settings::new()) {
        Err(e) => assert_eq!(e, "Model 'm' is not available. Please set the required API key in Settings."),
        Ok(_) => panic!("the first model lacks its key"),
    }
    let run = prepare_playbook_run(&books, "p", &None, &registry, &settings(&[("KEY", "v")])).unwrap();
    assert_eq!(run.model, 0);
}
